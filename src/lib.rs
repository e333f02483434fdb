//! Audits a manifest of third-party components and works out, for each one,
//! which upstream source tells its latest release and what to report.

pub mod checker;
pub mod cli;
pub mod error;
pub mod json;
pub mod model;
pub mod text;
pub mod url;
pub mod version;
