//! A value that holds zero, one or two items of one type, in order.
//!
//! [`Few`] extends `Option` to a cardinality of at most two. It is meant as
//! the result of operations, such as set-like operations over contiguous
//! ranges, that give back nothing, one piece or two pieces, without a heap
//! allocation.
//!
//! Every executable function carries a contract over the mathematical model
//! of a `Few<T>`: the sequence of the values it holds, which has length zero,
//! one or two.
//!
//! * [`few`]: the type and its model, the shape predicates, `contains`, `map`,
//!   `Clone` and `Default`.
//! * [`convert`]: the `From` conversions.
//! * [`drain`]: `next`, `next_back` and `len`, which take the values out.
//! * [`order`]: `==` and the order of values.

pub mod convert;
pub mod drain;
pub mod few;
pub mod order;

pub use few::Few;
