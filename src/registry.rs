use vstd::prelude::*;

use crate::input::{InputControl, KeyEvent, MouseEvent};

verus! {

/// The handles of the occupied slots of `s`, in increasing order.
pub open spec fn occupied<C>(s: Seq<Option<C>>) -> Seq<usize>
    decreases s.len(),
{
    if s.len() == 0 {
        Seq::empty()
    } else {
        let rest = occupied(s.drop_last());
        if s.last() is Some {
            rest.push((s.len() - 1) as usize)
        } else {
            rest
        }
    }
}

/// An arena of controllable objects, each reached by the stable handle it got
/// when it was registered (its slot's index).
///
/// A slot is empty while its object is taken out (by the frame loop for one
/// call, or by other code that needs it mutably); dispatch skips such a slot.
pub struct Registry<C> {
    slots: Vec<Option<C>>,
}

impl<C> View for Registry<C> {
    type V = Seq<Option<C>>;

    closed spec fn view(&self) -> Seq<Option<C>> {
        self.slots@
    }
}

impl<C> Registry<C> {
    pub fn new() -> (r: Self)
        ensures
            r@ == Seq::<Option<C>>::empty(),
    {
        Registry { slots: Vec::new() }
    }

    /// Number of handles given out so far.
    pub fn len(&self) -> (r: usize)
        ensures
            r == self@.len(),
    {
        self.slots.len()
    }

    /// Adds an object at the end of the dispatch order and returns its handle.
    pub fn register(&mut self, c: C) -> (h: usize)
        requires
            old(self)@.len() < usize::MAX,
        ensures
            h == old(self)@.len(),
            final(self)@ == old(self)@.push(Some(c)),
    {
        let h = self.slots.len();
        self.slots.push(Some(c));
        h
    }

    /// Whether the object of handle `h` is in its slot.
    pub fn is_available(&self, h: usize) -> (r: bool)
        ensures
            r == (h < self@.len() && self@[h as int] is Some),
    {
        h < self.slots.len() && self.slots[h].is_some()
    }

    /// The object of handle `h`, if it is in its slot.
    pub fn get(&self, h: usize) -> (r: Option<&C>)
        ensures
            h < self@.len() && self@[h as int] is Some ==> r == Some(&self@[h as int]->0),
            !(h < self@.len() && self@[h as int] is Some) ==> r is None,
    {
        if h < self.slots.len() {
            self.slots[h].as_ref()
        } else {
            None
        }
    }

    /// Takes the object of handle `h` out of its slot, leaving the slot empty.
    pub fn take(&mut self, h: usize) -> (r: Option<C>)
        ensures
            h < old(self)@.len() ==> r == old(self)@[h as int] && final(self)@ == old(self)@.update(
                h as int,
                None,
            ),
            h >= old(self)@.len() ==> r is None && final(self)@ == old(self)@,
    {
        if h < self.slots.len() {
            let mut out: Option<C> = None;
            self.slots.set_and_swap(h, &mut out);
            out
        } else {
            None
        }
    }

    /// Puts `c` back into the empty slot of handle `h`. Where `h` names no
    /// empty slot nothing changes and `c` is handed back.
    pub fn put_back(&mut self, h: usize, c: C) -> (r: Option<C>)
        ensures
            h < old(self)@.len() && old(self)@[h as int] is None ==> r is None && final(self)@
                == old(self)@.update(h as int, Some(c)),
            !(h < old(self)@.len() && old(self)@[h as int] is None) ==> r == Some(c) && final(self)@
                == old(self)@,
    {
        if h < self.slots.len() && self.slots[h].is_none() {
            self.slots.set(h, Some(c));
            None
        } else {
            Some(c)
        }
    }

    /// The handles to dispatch to, in registration order, skipping empty slots.
    pub fn dispatch_order(&self) -> (r: Vec<usize>)
        ensures
            r@ == occupied(self@),
            self@.len() <= usize::MAX,
    {
        let n = self.slots.len();
        let mut r: Vec<usize> = Vec::new();
        let mut i: usize = 0;
        while i < n
            invariant
                n == self@.len(),
                i <= n,
                r@ == occupied(self@.subrange(0, i as int)),
            decreases n - i,
        {
            let ghost s = self@.subrange(0, i as int + 1);
            assert(s.drop_last() =~= self@.subrange(0, i as int));
            if self.slots[i].is_some() {
                r.push(i);
            }
            i = i + 1;
        }
        assert(self@.subrange(0, n as int) =~= self@);
        r
    }
}

/// What one dispatch hands to a controllable.
#[derive(Debug, Clone, Copy)]
pub enum Delivery<'a, P, S> {
    Mouse(MouseEvent<P>),
    Keyboard(KeyEvent),
    Poll(&'a S),
}

/// `after` is `before` having handled the delivery `d`.
pub open spec fn delivered<C: InputControl<P, S, T>, P, S, T>(
    before: C,
    after: C,
    d: Delivery<P, S>,
    delta_time: T,
) -> bool {
    match d {
        Delivery::Mouse(e) => after.mouse_handled(before, e, delta_time),
        Delivery::Keyboard(e) => after.keyboard_handled(before, e, delta_time),
        Delivery::Poll(input) => after.input_handled(before, *input, delta_time),
    }
}

/// The slots `after` are the slots `before` once `d` was handed to every
/// object in its slot: the same slots are occupied, and each object has
/// handled `d` once.
pub open spec fn all_delivered<C: InputControl<P, S, T>, P, S, T>(
    before: Seq<Option<C>>,
    after: Seq<Option<C>>,
    d: Delivery<P, S>,
    delta_time: T,
) -> bool {
    &&& after.len() == before.len()
    &&& forall|i: int| 0 <= i < before.len() && before[i] is None ==> after[i] is None
    &&& forall|i: int|
        0 <= i < before.len() && before[i] is Some ==> after[i] is Some && delivered(
            before[i]->0,
            after[i]->0,
            d,
            delta_time,
        )
}

impl<C> Registry<C> {
    /// Hands `d` to every object that is in its slot, one at a time and in
    /// registration order: each is taken out, called once, and put back at
    /// once. An empty slot (its object taken out elsewhere) is skipped.
    /// Returns the handles of the objects called, in registration order.
    pub fn broadcast<P: Copy, S, T: Copy>(&mut self, d: Delivery<P, S>, delta_time: T) -> (visited:
        Vec<usize>) where C: InputControl<P, S, T>
        ensures
            visited@ == occupied(old(self)@),
            all_delivered(old(self)@, final(self)@, d, delta_time),
    {
        let order = self.dispatch_order();
        let mut visited: Vec<usize> = Vec::new();
        let mut k: usize = 0;
        while k < order.len()
            invariant
                order@ == occupied(old(self)@),
                old(self)@.len() <= usize::MAX,
                self@.len() == old(self)@.len(),
                k <= order@.len(),
                visited@ == order@.subrange(0, k as int),
                forall|i: int| 0 <= i < old(self)@.len() && old(self)@[i] is None ==> self@[i] is None,
                forall|j: int|
                    0 <= j < k ==> self@[order@[j] as int] is Some && delivered(
                        old(self)@[order@[j] as int]->0,
                        self@[order@[j] as int]->0,
                        d,
                        delta_time,
                    ),
                forall|j: int| k <= j < order@.len() ==> self@[order@[j] as int] == old(self)@[order@[j] as int],
            decreases order.len() - k,
        {
            proof {
                lemma_occupied_entries(old(self)@);
            }
            let h = order[k];
            match self.take(h) {
                Some(mut c) => {
                    match d {
                        Delivery::Mouse(e) => c.on_mouse(e, delta_time),
                        Delivery::Keyboard(e) => c.on_keyboard(e, delta_time),
                        Delivery::Poll(input) => c.on_input(input, delta_time),
                    }
                    let _ = self.put_back(h, c);
                    visited.push(h);
                },
                None => {},
            }
            assert(visited@ =~= order@.subrange(0, k as int + 1));
            k = k + 1;
        }
        proof {
            lemma_occupied_entries(old(self)@);
            assert forall|i: int| 0 <= i < old(self)@.len() && old(self)@[i] is Some implies self@[i] is Some
                && delivered(old(self)@[i]->0, self@[i]->0, d, delta_time) by {
                let j = choose|j: int| 0 <= j < order@.len() && order@[j] == i;
                assert(self@[order@[j] as int] is Some);
            }
        }
        assert(visited@ =~= order@);
        visited
    }
}

/// The dispatch order holds exactly the handles of the occupied slots, each
/// once, in increasing order.
pub proof fn lemma_occupied_entries<C>(s: Seq<Option<C>>)
    requires
        s.len() <= usize::MAX,
    ensures
        forall|j: int|
            0 <= j < occupied(s).len() ==> occupied(s)[j] < s.len() && s[occupied(s)[j] as int] is Some,
        forall|j1: int, j2: int|
            0 <= j1 < j2 < occupied(s).len() ==> occupied(s)[j1] < occupied(s)[j2],
        forall|i: int|
            0 <= i < s.len() && s[i] is Some ==> exists|j: int|
                0 <= j < occupied(s).len() && occupied(s)[j] == i,
    decreases s.len(),
{
    if s.len() > 0 {
        let t = s.drop_last();
        let o = occupied(t);
        lemma_occupied_entries(t);
        assert forall|j: int| 0 <= j < occupied(s).len() implies occupied(s)[j] < s.len() && s[occupied(
            s,
        )[j] as int] is Some by {
            if j < o.len() {
                let h = o[j];
                assert(h < t.len());
                assert(occupied(s)[j] == h);
                assert(t[h as int] == s[h as int]);
            } else {
                assert(s.last() is Some);
                assert(occupied(s)[j] == (s.len() - 1) as usize);
            }
        }
        assert forall|j1: int, j2: int| 0 <= j1 < j2 < occupied(s).len() implies occupied(s)[j1]
            < occupied(s)[j2] by {
            assert(occupied(s)[j1] == o[j1]);
            if j2 < o.len() {
                assert(occupied(s)[j2] == o[j2]);
            } else {
                assert(occupied(s)[j2] == (s.len() - 1) as usize);
                assert(o[j1] < t.len());
            }
        }
        assert forall|i: int| 0 <= i < s.len() && s[i] is Some implies exists|j: int|
            0 <= j < occupied(s).len() && occupied(s)[j] == i by {
            if i < t.len() {
                assert(t[i] == s[i]);
                let j = choose|j: int| 0 <= j < o.len() && o[j] == i;
                assert(occupied(s)[j] == o[j]);
            } else {
                assert(occupied(s)[o.len() as int] == i);
            }
        }
    }
}

/// Registering an object puts its handle at the end of the dispatch order and
/// leaves the order of the earlier objects as it was.
pub proof fn lemma_register_dispatched_last<C>(s: Seq<Option<C>>, c: C)
    ensures
        occupied(s.push(Some(c))) == occupied(s).push(s.len() as usize),
{
    assert(s.push(Some(c)).drop_last() =~= s);
}

/// While every registered object is in its slot, dispatch visits all of them in
/// the order in which they were registered.
pub proof fn lemma_dispatch_in_registration_order<C>(s: Seq<Option<C>>)
    requires
        s.len() <= usize::MAX,
        forall|i: int| 0 <= i < s.len() ==> s[i] is Some,
    ensures
        occupied(s) == Seq::new(s.len(), |i: int| i as usize),
    decreases s.len(),
{
    if s.len() > 0 {
        lemma_dispatch_in_registration_order(s.drop_last());
        assert(occupied(s) =~= Seq::new(s.len(), |i: int| i as usize));
    } else {
        assert(occupied(s) =~= Seq::new(s.len(), |i: int| i as usize));
    }
}

} // verus!
