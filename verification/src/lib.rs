//! A single-slot container whose value is built on first access and then kept.
//!
//! A [`Lazy`] is created from a recipe, a function without arguments that can be
//! called once. Nothing runs at creation. The first access runs the recipe and
//! stores what it returns; every later access finds that stored value, or what an
//! exclusive borrow has put in its place. The recipe never runs a second time.
//!
//! Every access takes the cell by exclusive reference, since an access may have
//! to store the value; [`Lazy::get`] looks at the stored value through a shared
//! reference and never runs the recipe.
//!
//! [`State`] is the mathematical model that the contracts of [`Lazy`] are stated
//! over. The laws that hold of any sequence of accesses are proved of it, with
//! [`Access`] standing for one access.

pub mod lazy;
pub mod state;

pub use lazy::Lazy;
pub use state::Access;
pub use state::State;
