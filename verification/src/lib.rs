//! Core logic of a weekday-poll chat bot: configuration, command schema,
//! response payload construction, and the event-dispatch state machine.
//! The surrounding process wires these pure pieces to a gateway connection
//! and an HTTP client.

pub mod config;
pub mod dispatch;
pub mod payload;
pub mod schema;
pub mod text;
