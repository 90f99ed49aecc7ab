//! Host-side support for running a plugin's external graphical control
//! surface: discovering which UIs a plugin declares, loading the UI's
//! shared module, instantiating it across the foreign ABI, and carrying
//! its control-change callbacks back to the host through a non-blocking
//! queue.
//!
//! Everything here works on plain values: the actual dynamic loading and
//! foreign calls are performed by the embedding application, which reports
//! their outcomes to the decision functions in this crate.

pub mod bridge;
pub mod external_ui;
pub mod instance;
pub mod ui;
