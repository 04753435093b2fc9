//! Extraction and materialisation rules for crawling omvarlden.se and its
//! podcast feed: which family a URL belongs to, what records and follow-up
//! URLs a fetched body yields, and which file each record becomes.

pub mod derive;
pub mod encode;
pub mod error;
pub mod extract;
pub mod family;
pub mod html;
pub mod item;
pub mod laws;
pub mod omvarlden;
pub mod path;
pub mod sink;
pub mod status;
pub mod text;

pub use error::Error;
pub use omvarlden::APP_USER_AGENT;
