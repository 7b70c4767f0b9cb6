//! Capture log records so that tests can assert on what was logged.
//!
//! The library keeps one explicit [`CaptureController`] per thread of the
//! caller's choosing. While a controller is capturing, every record the
//! [`Logger`] sink delivers to it is buffered in emission order;
//! [`pop_captured`] then drains the buffer front to back. Misuse of the
//! protocol (beginning twice, popping while idle) is reported as a
//! [`CaptureError`] carrying the exact message with which the enclosing
//! test should be aborted.

mod capture;
mod laws;
mod record;

pub use capture::CaptureController;
pub use capture::CaptureError;
pub use capture::Logger;
pub use capture::begin_capture;
pub use capture::end_capture;
pub use capture::pop_captured;
pub use laws::after_emissions;
pub use laws::lemma_capture_holds_emissions;
pub use laws::lemma_drain_in_order;
pub use laws::lemma_drained_yields_absent;
pub use laws::lemma_emission_order;
pub use laws::lemma_idle_emissions_never_buffered;
pub use record::Level;
pub use record::Record;
pub use record::RecordModel;
