//! A static checker for unvalidated request input in web-server source
//! modules.
//!
//! The library walks parsed source modules, finds route-handler
//! registrations (`app.get(path, (req, res) => ...)` and friends), and flags
//! places inside a handler where data from `req.body`, `req.params` or
//! `req.query` — directly or through a local alias — is used before a
//! recognized validation call has been seen in traversal order.

pub mod alias;
pub mod analysis;
pub mod ast;
pub mod discovery;
pub mod logging;
pub mod scanner;
pub mod utils;
pub mod validation;
pub mod violation;
