//! A cell that binds a value to the thread that created it.
//!
//! [`ThreadAlone<T>`] stores a payload together with the identity of its owner
//! thread. The cell itself may travel between threads; the payload is read,
//! changed or taken out only on the owner thread, and every other thread is
//! told that nothing is there. Destroying a cell away from its owner thread is
//! a fatal error, which [`ThreadAlone::on_drop`] reports as
//! [`Teardown::Abort`].
//!
//! The library does not ask the operating system which thread is running:
//! every operation takes the caller's [`ThreadKey`]. What each operation does
//! is specified over [`CellView`], the model of a cell, and the laws that
//! follow are proved in [`laws`].

pub mod cell;
pub mod identity;
pub mod laws;
pub mod model;
pub mod render;
pub mod teardown;

pub use cell::ThreadAlone;
pub use identity::ThreadKey;
pub use model::CellView;
pub use render::PLACEHOLDER;
pub use teardown::{Teardown, DROP_DIAGNOSTIC};
