//! The logic of a small desktop greeter: the greeting that answers a name, and
//! what the application's host is given at start.

pub mod greeting;
pub mod startup;

pub use greeting::greet;
