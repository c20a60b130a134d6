pub mod config;
pub mod eleven_labs;
pub mod errors;
pub mod helpers;
pub mod object_store;
pub mod output;
pub mod output_generation;
pub mod queue;
pub mod system;
pub mod text;
pub mod types;
pub mod voice;
pub mod voice_lifecycle;
