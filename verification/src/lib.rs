//! Verified core of a release-promotion pipeline: the logic that decides
//! whether a candidate revision warrants a new release, plans the
//! normalization of staged artifacts, rewrites the signing configuration,
//! computes every upload destination, and models the sequential pipeline as a
//! state machine.  All file, network and subprocess work lives outside this
//! library and hands it plain values.

pub mod channel;
pub mod components;
pub mod config;
pub mod decide;
pub mod docs;
pub mod errors;
pub mod manifest;
pub mod normalize;
pub mod paths;
pub mod payload;
pub mod pipeline;
pub mod strutil;
pub mod version;
