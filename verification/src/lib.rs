//! A future wrapped in an option.
//!
//! [`OptionalFuture`] lets a future that is only sometimes there take part in a multi-way
//! wait like any other: while its slot is empty it is polled like a future and never
//! becomes ready; while it holds a future it reports exactly what that future reports.
//!
//! The adapter is a future, and a fused future, only where the future it holds is `Unpin`:
//! it polls the held future through `Pin::new` and never projects a pin onto its slot. A
//! future that must not move is boxed first, as in [`BoxOptionalFuture`].
//!
//! - [`optional`] holds the adapter itself: its slot, the operations on it, and its
//!   `Future` and `FusedFuture` impls.
//! - [`polling`] says what a poll of the adapter reports.
//! - [`laws`] states what holds over any run of polls and any sequence of operations.
//!
//! The calls into the held future and into `Pin` are kept in a private module; the
//! contracts of the adapter name them to say which call a result came from.

mod held;
pub mod laws;
pub mod optional;
pub mod polling;

pub use optional::optional_future;
pub use optional::BoxOptionalFuture;
pub use optional::OptionalFuture;
