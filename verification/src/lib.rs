//! Serves packaged static assets to an embedded web view.
//!
//! A request names a virtual host and a path. The resolver refuses
//! unsafe paths, looks the file up in the packaged asset directory, falls
//! back to the host's index page, and otherwise answers that nothing was
//! found. Every answer is a plain [`response::Response`] value that the
//! hosting shell turns into whatever its framework expects.

pub mod assets;
pub mod commands;
pub mod decimal;
pub mod guard;
pub mod resolver;
pub mod response;
