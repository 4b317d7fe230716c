//! Builders for the bodies of requests.

pub mod channel;
pub mod message;

pub use channel::{ChannelType, CreateChannel, EditChannel};
pub use message::{CreateEmbed, CreateMessage, EditMessage, Reply};
