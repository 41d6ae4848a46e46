//! A remote document-library service presented as a filesystem: path
//! resolution, library-list caching and deduplication, attribute synthesis and
//! range-restricted reads, with the network and kernel bindings kept outside.

pub mod library;
pub mod attr;
pub mod content;
pub mod path;
pub mod client;
pub mod fs;
pub mod ops;
