//! An asynchronous alert-dispatch client: callers submit alert events, a
//! dispatch client decouples submission from delivery through a FIFO queue
//! behind a one-shot shutdown flag, and a retrying delivery function
//! classifies each network outcome and applies a fixed exponential-backoff
//! policy with a budget of three attempts per event.

pub mod client;
pub mod delivery;
pub mod models;
pub mod wire;

pub use client::FlashDutyClient;
pub use models::AlertEvent;
pub use models::ApiResponse;
pub use models::EventStatus;
pub use models::Image;
