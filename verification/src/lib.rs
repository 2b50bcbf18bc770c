//! The higher-order functions `apply` and `also`, with the variants
//! `apply_ref` and `also_mut`, as methods on every value of every type.
//!
//! `apply` turns a value into whatever a function makes of it; `also` runs a
//! function on a value for its effect and gives the value back, much as `tee`
//! does for a stream. Both let a value be built and adjusted in one
//! expression.
pub mod also;
pub mod apply;
pub mod subject;

pub use also::Also;
pub use apply::Apply;
pub use subject::Subject;
