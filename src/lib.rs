pub mod config;
pub mod controller;
pub mod health;
pub mod laws;
pub mod message;

pub use config::{Config, ConfigError, HealthConfig, LoggingConfig, Settings, SqsConfig, load_config};
pub use controller::{Action, Controller, Event, Stage};
pub use health::HealthServer;
pub use message::{Message, QueueEntry};
