//! Routes a search-box query to the URL it stands for: a bare keyword to its
//! page, a prefixed query to the site the prefix names, a domain typed with a
//! stray space to that domain, and anything else to a web search.

pub mod builders;
pub mod errors;
pub mod laws;
pub mod policy;
pub mod recipe;
pub mod reply;
pub mod resolver;
pub mod server;
pub mod suffix;
pub mod text;
pub mod urls;
pub mod worker;

pub use errors::Error;
pub use resolver::query_to_url;
