//! A random password generator.
//!
//! The library builds a password of a requested length from the character
//! classes the caller enables (lowercase letters, uppercase letters, digits,
//! and a periodic separator), guaranteeing that every enabled letter or digit
//! class is represented whenever the length leaves room for it.

pub mod chars;
pub mod config;
pub mod generator;
mod rng;

pub use config::ConfigurationError;
pub use config::GenerationConfig;
pub use generator::generate;
pub use generator::generate_chars;
