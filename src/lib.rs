//! Poll-based composition of asynchronous values: adapters that turn one
//! future into another (`Mapped`, `MapOk`, `MapErr`, `Then`, `AndThen`,
//! `OrElse`) and the bridge `Next` from a stream to a single-shot future.
//!
//! Every adapter is a small state machine that a driver polls. Whatever was
//! needed only to reach the next stage (the first future, the user's
//! closure) is released as soon as that stage has been reached, before the
//! closure runs or control returns to the driver.
pub mod poll;
pub mod future;
pub mod map;
pub mod chain;
pub mod stream;

pub use chain::{and_then_step, or_else_step, AndThen, OrElse, Stage, Then};
pub use future::{ready, Future, FutureExt, Ready};
pub use map::{map_err_outcome, map_ok_outcome, MapErr, MapOk, Mapped};
pub use poll::Poll;
pub use stream::{iter, Iter, Next, Stream, StreamExt};
