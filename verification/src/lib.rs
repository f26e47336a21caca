//! The decisions behind an OpenXR session.
//!
//! Driving an OpenXR runtime means calling it in the right order: poll the
//! events, begin the session when the runtime says it is ready, and then,
//! tick after tick, wait for the frame, begin it, locate the views, acquire
//! and release an image, end the frame. It also means telling the runtime,
//! before any of this, which input actions there are and what they are bound
//! to, and reading them back every tick by name.
//!
//! This library holds the decisions and makes no call itself.
//!
//! * [`frame`] has the frame pump. It is told how each call went and
//!   answers with the call to make next. [`frame_laws`] states what holds
//!   of the pump whatever it is told; [`session`] has the life cycle of the
//!   session that the pump follows.
//! * [`xr_input::actions`] takes the declarations of action sets, actions
//!   and bindings, plans the calls that set them up, one suggestion per
//!   interaction profile, and keeps the registry that answers by name.
//!   [`xr_input::resolver`] keeps the readings of the last sync and answers
//!   the typed reads; [`xr_input::oculus_touch`] and
//!   [`xr_input::hands::emulated`] hold the declarations of the Oculus Touch
//!   controller and of the hands made up from it.
//!
//! Floats are carried as their bit patterns, see [`space`]. Names are
//! looked up through [`name_table`], an insertion-ordered table over a hash
//! index.

pub mod frame;
pub mod frame_laws;
pub mod graphics;
pub mod input;
pub mod name_index;
pub mod name_table;
pub mod passthrough;
pub mod session;
pub mod space;
pub mod xr_init;
pub mod xr_input;
