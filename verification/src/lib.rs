//! Launch planning for a Java game runtime: from a user name and a version
//! descriptor to the exact command line, with every step stated and proved.

pub mod arguments;
pub mod classpath;
pub mod descriptor;
pub mod error;
pub mod launcher;
pub mod laws;
pub mod layout;
pub mod plan;
pub mod platform;
pub mod resolve;
