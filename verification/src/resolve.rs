//! Path resolution and confinement against the mount root.
//!
//! Resolution has two phases. Phase one ([`sanitize_relative`]) percent-decodes
//! the request, forces it into relative form and joins it onto the mount root,
//! yielding a candidate path that may still contain `..` segments. The caller
//! then probes the filesystem: an `lstat`-style check of the candidate (does
//! it itself name a symlink?) followed by canonicalization. Phase two
//! ([`sanitize_path`]) takes those two answers and decides: a symlink is
//! masked as not found, a canonicalization failure is an I/O rejection, and a
//! canonical path is approved exactly when it is a component-wise descendant
//! of the mount root.
//!
//! The ordering is load-bearing: the symlink check speaks of the candidate
//! before canonicalization (canonicalizing first would silently walk through
//! a symlink), and containment is checked only on the canonical form (the
//! candidate's `..` segments make its text meaningless for containment).

use vstd::prelude::*;
use vstd::string::StringSliceAdditionalSpecFns;

use crate::decode::{pct_decode, percent_decode};
use crate::error::Error;

verus! {

/// The path separator byte `/`.
pub open spec fn separator() -> u8 {
    47
}

/// A canonical-looking absolute directory path: nonempty, absolute, and
/// without a trailing separator unless it is the root itself.
pub open spec fn canonical_mount(m: Seq<u8>) -> bool {
    m.len() > 0 && m[0] == separator() && (m.len() == 1 || m.last() != separator())
}

/// The mount root: an absolute, canonicalized directory path fixed at
/// startup. Immutable for the process lifetime; every resolution is made
/// against it.
pub struct Config {
    mount: Vec<u8>,
}

impl Config {
    /// The bytes of the mount root path.
    pub closed spec fn mount_view(&self) -> Seq<u8> {
        self.mount@
    }

    pub open spec fn wf(&self) -> bool {
        canonical_mount(self.mount_view())
    }

    /// Accepts a mount root exactly when it is nonempty, absolute, and free
    /// of a trailing separator (unless it is the root directory itself). The
    /// caller canonicalizes the path first; a path this check refuses cannot
    /// be a canonical directory path, and the process must not start on it.
    pub fn new(mount: Vec<u8>) -> (r: Option<Config>)
        ensures
            r matches Some(c) ==> c.mount_view() == mount@ && c.wf(),
            r is None ==> !canonical_mount(mount@),
    {
        if mount.len() == 0 {
            return None;
        }
        if mount[0] != 47 {
            return None;
        }
        if mount.len() > 1 && mount[mount.len() - 1] == 47 {
            return None;
        }
        Some(Config { mount })
    }

    /// The mount root path.
    pub fn mount(&self) -> (r: &Vec<u8>)
        ensures
            r@ == self.mount_view(),
    {
        &self.mount
    }
}

/// One leading separator is stripped, so an absolute-looking request is
/// treated as relative to the mount root rather than to the filesystem root.
pub open spec fn forced_relative(d: Seq<u8>) -> Seq<u8> {
    if d.len() > 0 && d[0] == separator() {
        d.skip(1)
    } else {
        d
    }
}

/// The candidate path phase one hands to the filesystem: the mount root, a
/// separator, and the decoded request forced relative. Purely syntactic; any
/// `..` segments are still present and are resolved only by canonicalization.
pub open spec fn candidate_of(mount: Seq<u8>, d: Seq<u8>) -> Seq<u8> {
    mount + seq![separator()] + forced_relative(d)
}

/// Component-wise containment: `path` equals the mount root or extends it at
/// a component boundary. A mere byte prefix is not enough: `/root2` is not
/// under `/root`.
pub open spec fn is_under(path: Seq<u8>, mount: Seq<u8>) -> bool {
    path == mount || (mount.len() < path.len() && path.subrange(0, mount.len() as int) == mount
        && (path[mount.len() as int] == separator() || (mount.len() > 0 && mount.last()
        == separator())))
}

/// Whether phase two approves: the candidate was not itself a symlink, the
/// filesystem canonicalized it, and the canonical form is contained in the
/// mount root.
pub open spec fn approves(is_symlink: bool, canonical: Option<Seq<u8>>, mount: Seq<u8>) -> bool {
    match canonical {
        Some(p) => !is_symlink && is_under(p, mount),
        None => false,
    }
}

/// The canonicalization answer as phase two's contract sees it.
pub open spec fn canon_view(canonical: Result<Vec<u8>, String>) -> Option<Seq<u8>> {
    match canonical {
        Ok(p) => Some(p@),
        Err(_) => None,
    }
}

/// The fixed server-side text under which a symlink is masked: the same
/// class a nonexistent path reports.
pub open spec fn not_found_text() -> Seq<char> {
    "no such file or directory"@
}

/// Whether `path` is a component-wise descendant of the mount root.
pub fn starts_with_mount(path: &Vec<u8>, config: &Config) -> (r: bool)
    ensures
        r == is_under(path@, config.mount_view()),
{
    let mount = config.mount();
    if path.len() < mount.len() {
        proof {
            assert(!is_under(path@, config.mount_view()));
        }
        return false;
    }
    let mut i: usize = 0;
    while i < mount.len()
        invariant
            i <= mount@.len(),
            mount@.len() <= path@.len(),
            mount@ == config.mount_view(),
            forall|k: int| 0 <= k < i ==> path@[k] == mount@[k],
        decreases mount@.len() - i,
    {
        if path[i] != mount[i] {
            proof {
                if path@.len() == mount@.len() {
                    assert(path@ != mount@);
                } else {
                    assert(path@.subrange(0, mount@.len() as int)[i as int] == path@[i as int]);
                    assert(path@.subrange(0, mount@.len() as int) != mount@);
                }
            }
            return false;
        }
        i = i + 1;
    }
    if path.len() == mount.len() {
        proof {
            assert(path@ =~= mount@);
        }
        return true;
    }
    let boundary = path[mount.len()] == 47 || (mount.len() > 0 && mount[mount.len() - 1] == 47);
    proof {
        assert(path@.subrange(0, mount@.len() as int) =~= mount@);
        if mount@.len() > 0 {
            assert(mount@.last() == mount@[mount@.len() - 1]);
        }
    }
    boundary
}

/// Phase one: percent-decodes the request, forces it relative, and joins it
/// onto the mount root. An undecodable request is rejected as malformed, with
/// the raw request kept for the server's log; otherwise the candidate path is
/// returned for the filesystem probes.
pub fn sanitize_relative(unsanitized_req_path: &str, config: &Config) -> (r: Result<
    Vec<u8>,
    Error,
>)
    ensures
        match pct_decode(unsanitized_req_path.spec_bytes()) {
            Some(d) => r matches Ok(c) && c@ == candidate_of(config.mount_view(), d),
            None => r matches Err(e) && e matches Error::UrlDecode(m) && m@
                == unsanitized_req_path@,
        },
{
    let bytes = unsanitized_req_path.as_bytes();
    let decoded = match percent_decode(bytes) {
        Some(d) => d,
        None => {
            return Err(Error::UrlDecode(unsanitized_req_path.to_owned()));
        },
    };
    let mount = config.mount();
    let mut out: Vec<u8> = Vec::new();
    let mut i: usize = 0;
    while i < mount.len()
        invariant
            i <= mount@.len(),
            mount@ == config.mount_view(),
            out@ == mount@.take(i as int),
        decreases mount@.len() - i,
    {
        let b = mount[i];
        out.push(b);
        proof {
            assert(out@ =~= mount@.take(i + 1));
        }
        i = i + 1;
    }
    proof {
        assert(mount@.take(mount@.len() as int) =~= mount@);
    }
    out.push(47);
    let start: usize = if decoded.len() > 0 && decoded[0] == 47 {
        1
    } else {
        0
    };
    let mut j: usize = start;
    proof {
        assert(out@ =~= mount@ + seq![separator()]);
        assert(decoded@.subrange(start as int, start as int) =~= Seq::<u8>::empty());
        assert(out@ + Seq::<u8>::empty() =~= out@);
    }
    while j < decoded.len()
        invariant
            start <= j <= decoded@.len(),
            mount@ == config.mount_view(),
            out@ == mount@ + seq![separator()] + decoded@.subrange(start as int, j as int),
        decreases decoded@.len() - j,
    {
        let b = decoded[j];
        out.push(b);
        proof {
            assert(out@ =~= mount@ + seq![separator()] + decoded@.subrange(
                start as int,
                j + 1,
            ));
        }
        j = j + 1;
    }
    proof {
        if start == 1 {
            assert(decoded@.subrange(1, decoded@.len() as int) =~= decoded@.skip(1));
        } else {
            assert(decoded@.subrange(0, decoded@.len() as int) =~= decoded@);
        }
    }
    Ok(out)
}

/// Phase two: decides on the filesystem's answers for the candidate path.
/// `is_symlink` is the `lstat`-style probe of the candidate itself (made
/// before canonicalization, so a symlink is never silently followed);
/// `canonical` is the canonicalization answer, carrying the operating
/// system's text on failure. A symlink is masked as not found; a canonical
/// path is approved exactly when it stays inside the mount root, and a
/// request that escapes is denied, with the raw request kept for the log.
pub fn sanitize_path(
    unsanitized_req_path: &str,
    is_symlink: bool,
    canonical: Result<Vec<u8>, String>,
    config: &Config,
) -> (r: Result<Vec<u8>, Error>)
    ensures
        (r is Ok) == approves(is_symlink, canon_view(canonical), config.mount_view()),
        r matches Ok(p) ==> (canonical matches Ok(q) && p == q && is_under(
            p@,
            config.mount_view(),
        )),
        is_symlink ==> (r matches Err(e) && e matches Error::Io(m) && m@ == not_found_text()),
        !is_symlink ==> match canonical {
            Err(m) => (r matches Err(e) && e matches Error::Io(m2) && m2 == m),
            Ok(p) => is_under(p@, config.mount_view()) || (r matches Err(e) && e matches
            Error::PathDenied(d) && d@ == unsanitized_req_path@),
        },
{
    if is_symlink {
        return Err(Error::Io("no such file or directory".to_owned()));
    }
    match canonical {
        Err(m) => Err(Error::Io(m)),
        Ok(p) => {
            if starts_with_mount(&p, config) {
                Ok(p)
            } else {
                Err(Error::PathDenied(unsanitized_req_path.to_owned()))
            }
        },
    }
}

/// Containment: whatever the request was and whatever the filesystem
/// answered, a resolution that is approved yields a component-wise descendant
/// of the mount root. No answer makes the resolver approve a path outside it.
pub proof fn lemma_containment(is_symlink: bool, canonical: Option<Seq<u8>>, mount: Seq<u8>)
    ensures
        approves(is_symlink, canonical, mount) ==> is_under(canonical.unwrap(), mount),
{
}

/// Empty-path root listing: the empty request decodes to nothing and its
/// candidate is the mount root with one trailing separator — the mount root
/// itself, to the filesystem. An explicit `"."` request differs only by the
/// trailing `.` component. Once the filesystem canonicalizes either
/// candidate to the mount root, resolution approves the mount root, which is
/// contained in itself; both requests then name one directory, and one
/// listing serves both.
pub proof fn lemma_empty_path_resolves_to_mount(mount: Seq<u8>)
    ensures
        pct_decode(Seq::<u8>::empty()) == Some(Seq::<u8>::empty()),
        candidate_of(mount, Seq::<u8>::empty()) == mount + seq![separator()],
        pct_decode(seq![46u8]) == Some(seq![46u8]),
        candidate_of(mount, seq![46u8]) == mount + seq![separator(), 46u8],
        is_under(mount, mount),
        approves(false, Some(mount), mount),
{
    assert(candidate_of(mount, Seq::<u8>::empty()) =~= mount + seq![separator()]);
    assert(seq![46u8].skip(1) =~= Seq::<u8>::empty());
    assert(pct_decode(seq![46u8]) == Some(seq![46u8] + Seq::<u8>::empty()));
    assert(seq![46u8] + Seq::<u8>::empty() =~= seq![46u8]);
    assert(candidate_of(mount, seq![46u8]) =~= mount + seq![separator(), 46u8]);
}

/// Idempotence: resolution is a function of the request and the filesystem's
/// answers alone, so two resolutions of one request over an unchanged
/// filesystem agree, both on whether they approve and on the approved path.
pub proof fn lemma_resolution_idempotent(
    mount: Seq<u8>,
    sym1: bool,
    canon1: Option<Seq<u8>>,
    sym2: bool,
    canon2: Option<Seq<u8>>,
)
    requires
        sym1 == sym2,
        canon1 == canon2,
    ensures
        approves(sym1, canon1, mount) == approves(sym2, canon2, mount),
        approves(sym1, canon1, mount) ==> canon1.unwrap() == canon2.unwrap(),
{
}

} // verus!
