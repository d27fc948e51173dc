//! Window-application support: integer geometry, input-event bookkeeping and
//! the frame scheduling rules of a redraw-on-demand event loop.
pub mod event;
pub mod events;
pub mod frame;
pub mod geometry;
pub mod math;

pub use events::{ElementState, EventResult, MouseButtons};
pub use frame::{FrameState, UserEventType};
