//! The decisions of a client: which command or callback an event goes to,
//! and how the connection proceeds.

pub mod command_registry;
pub mod dispatch;
pub mod transport;

pub use command_registry::{CommandRegistry, Execution};
pub use dispatch::{dispatch, handle_event, Dispatch, Handled};
pub use transport::{authenticate, ConnectionState, Heartbeat, Signal};
