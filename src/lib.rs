//! A bounded vector whose capacity is fixed by its type, and the two error
//! values that make capacity violations explicit and recoverable.

mod array_vec;
mod errors;

pub use array_vec::ArrayVec;
pub use errors::{CapacityError, UnderfilledError};
