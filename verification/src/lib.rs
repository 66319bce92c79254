pub mod clock;
pub mod config;
pub mod json;
pub mod message;
pub mod payload;
pub mod text;
pub mod utils;
pub mod wave;
