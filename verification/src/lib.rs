//! Verified core of a small asset server: the image transform pipeline
//! (flip, scale, blur — which steps run, with which parameters, in which
//! order) and the in-memory directory index that tracks which assets exist
//! on disk, together with the decision logic of each request handler.

pub mod images;
pub mod index;
pub mod ops;
pub mod routes;
