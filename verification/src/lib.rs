pub mod capture;
pub mod config;
pub mod device;
pub mod events;
pub mod keys;
pub mod led;
pub mod macros;
pub mod orchestrator;
pub mod recording;
pub mod text;
pub mod uinput;
