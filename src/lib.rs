//! Static blog compiler: front matter parsing, page assembly, asset
//! fingerprinting, search index construction and exact-word search.

pub mod text;
pub mod meta;
pub mod search;
pub mod paths;
pub mod html;
pub mod code_block;
pub mod fingerprint;
pub mod config;
pub mod site;
