//! The closed set of rejection reasons, and the uniform success wrapper.
//!
//! Every filesystem or decoding failure is converted into one of these
//! variants before it reaches the protocol layer; no raw operating-system
//! error text ever reaches the wire. The payload strings are server-side
//! detail only: the wire reason for each variant is a fixed text.

use vstd::prelude::*;

verus! {

/// What a request can be rejected for. The payloads are kept for server-side
/// logs; [`wire_reason`] deliberately ignores them, so nothing of the
/// filesystem leaks to the caller.
#[derive(Debug, PartialEq, Eq)]
pub enum Error {
    /// The filesystem could not serve the request (including "does not
    /// exist", and symlinks, which are masked as not found).
    Io(String),
    /// The request resolved outside the mount root. Carries the raw request
    /// text for the server's own log.
    PathDenied(String),
    /// The request string could not be percent-decoded.
    UrlDecode(String),
}

/// The fixed text each rejection shows on the wire: the variant alone decides
/// it, never the payload.
pub open spec fn wire_reason(e: Error) -> Seq<char> {
    match e {
        Error::Io(_) => "i/o"@,
        Error::PathDenied(_) => "path denied"@,
        Error::UrlDecode(_) => "failed to decode path"@,
    }
}

impl Error {
    /// The reason text this rejection shows on the wire.
    pub fn message(&self) -> (r: String)
        ensures
            r@ == wire_reason(*self),
    {
        match self {
            Error::Io(_) => "i/o".to_owned(),
            Error::PathDenied(_) => "path denied".to_owned(),
            Error::UrlDecode(_) => "failed to decode path".to_owned(),
        }
    }
}

/// Marks a value as a successful outcome for the protocol layer.
pub struct Res<T>(pub T);

impl<T> From<T> for Res<T> {
    fn from(t: T) -> (r: Res<T>) {
        Res(t)
    }
}

impl<T> vstd::std_specs::convert::FromSpecImpl<T> for Res<T> {
    open spec fn obeys_from_spec() -> bool {
        true
    }

    open spec fn from_spec(t: T) -> Res<T> {
        Res(t)
    }
}

} // verus!
