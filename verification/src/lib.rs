//! Verified core of a Discord interaction handler: request authentication,
//! interaction routing and the reply decisions of the HTTP entry point.

pub mod discord;
pub mod handler;
pub mod json;
pub mod lambda_invoker;
pub mod text;
