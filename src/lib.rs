//! Signup validation for a small authentication service.
//!
//! The library decides what the signup endpoint answers for a given email and
//! password, and holds the welcome page served at `/hello`. The HTTP listener,
//! routing and JSON handling live in the application around it.

pub mod email;
pub mod pages;
pub mod signup;
