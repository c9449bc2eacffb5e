pub mod decrypt;
pub mod error;
pub mod instance;
pub mod item;
pub mod local_state;
pub mod paths;
pub mod user;
