pub mod common;
pub mod object;

pub use common::Direction;
pub use object::ObjectMethods;
