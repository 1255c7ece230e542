//! Net Flow's widget provider logic: which widgets are on the board and what
//! each shows, when telemetry is published to them, how card actions and the
//! settings form are read, and the decisions of the tray host.

pub mod activation;
pub mod clock;
pub mod form;
pub mod ids;
pub mod kinds;
pub mod publish;
pub mod registry;
pub mod settings;
pub mod text;
pub mod toast;
pub mod tray;
