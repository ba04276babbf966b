pub mod metrics;
pub mod settings;
pub mod users;
