//! The requests to the API that the models and the events stand for. None is
//! sent here: each is handed out as a plan, with the rate limit it waits for.

pub mod events;
pub mod models;
