//! Explicit closure wrappers: callable values assembled by hand from captured
//! state and a plain implementation function, for settings where the
//! language's native closures cannot be used.
//!
//! Three calling disciplines are offered, one wrapper type each, and they form
//! a capability chain: a wrapper that may read repeatedly can stand in for one
//! that mutates repeatedly, which can stand in for one that is consumed by a
//! single call.
//!
//! - [`ConstFnOnceClosure`] owns its captured state and is consumed by its one
//!   invocation.
//! - [`ConstFnMutClosure`] borrows its captured state exclusively and may be
//!   invoked repeatedly, each call mutating the state in place.
//! - [`ConstFnClosure`] borrows its captured state immutably and may be
//!   invoked repeatedly without ever changing the state.
//!
//! [`ConstClosure`] generalizes the three into one wrapper over a tuple of
//! captures, the discipline chosen by the shape of the tuple's elements:
//! owned elements allow the consuming call alone, exclusive-reference
//! elements the repeatable mutating call, shared-reference elements the
//! repeatable reading call, each stronger shape also offering the weaker
//! calls.
//!
//! There is no macro front end that would generate an anonymous wrapper type
//! in place; callers use the explicit wrapper types directly. The laws the
//! wrappers obey are stated and proved in [`laws`].

pub mod closure_type;
pub mod consuming;
pub mod laws;
pub mod mutating;
pub mod reading;

pub use closure_type::ConstClosure;
pub use consuming::ConstFnOnceClosure;
pub use mutating::ConstFnMutClosure;
pub use reading::ConstFnClosure;
