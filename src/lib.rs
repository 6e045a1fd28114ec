//! Bookkeeping for hosting a managed-code runtime: the mapping between
//! version strings and symbolic runtime versions, the table of supported
//! sub-interfaces, the memoized state of one runtime, and the runtime catalog
//! with its identity-preserving cache.
pub mod interfaces;
pub mod metahost;
pub mod runtime_info;
pub mod version;
