//! Downloading a URL's body into a file, driven as a session of actions and
//! events so that every decision of the copy is checked: the bytes that reach
//! the file are exactly the bytes that the server sent, in order.
pub mod error;
pub mod transfer;

pub use error::Error;
