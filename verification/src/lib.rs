//! Name resolution for containers: a time-based cache over a container
//! inventory, and the rules that turn one DNS question into one answer.

pub mod address;
pub mod clock;
pub mod custom_handler;
pub mod docker_client;
pub mod refresh_laws;
pub mod resolver;
pub mod settings;
pub mod strip_prefix_sane;
pub mod text;
