//! The Bitbucket Cloud REST API: the records it returns and the requests
//! that read them.

pub mod client;
pub mod types;
