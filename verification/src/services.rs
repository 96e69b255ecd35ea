//! Implementations of the stores and of the notifier.

pub mod data_stores;
pub mod mock_email_client;

pub use mock_email_client::MockEmailClient;
