pub mod codec;
pub mod converter;
pub mod options;
