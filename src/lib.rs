//! Rate-limit usage reporting: credential discovery, the usage request and
//! its response, and the rendered report.

pub mod credential;
pub mod report;
pub mod text;
pub mod usage;
