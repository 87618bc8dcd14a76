//! A confined view of a filesystem subtree: callers may list directories and
//! read files below a fixed mount root, and can never escape it, however the
//! requested path is crafted.
//!
//! The crate holds the decision logic: percent-decoding of request paths,
//! forcing them into relative form, the containment check against the mount
//! root, classification of directory entries, and the wire envelope. The
//! filesystem probes themselves (`lstat`, canonicalization, directory reads)
//! are performed by the embedding program, which hands their answers to the
//! functions here.

use vstd::prelude::*;

pub mod decode;
pub mod error;
pub mod listing;
pub mod protocol;
pub mod resolve;
pub mod stream;

verus! {

/// Fixed liveness text, served outside the confined tree.
pub fn hello() -> (r: &'static str)
    ensures
        r@ == "hello, world!"@,
{
    "hello, world!"
}

} // verus!
