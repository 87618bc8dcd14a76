//! The wire protocol: a uniform JSON envelope over the core's outcomes.
//!
//! A non-streaming success renders as `{"ok": ...}`; every rejection renders
//! as `{"err": "<reason>"}` with one fixed status for all rejection kinds, so
//! the wire never distinguishes a denial from a missing path. The reason text
//! is the fixed text of the rejection's variant ([`crate::error::wire_reason`]);
//! payloads — raw requests, operating-system error text — never reach the
//! wire. JSON string quoting is done by `serde_json`; quoting a string value
//! always succeeds, so every rendered response carries its body.

use vstd::prelude::*;
use vstd::string::StringExecFns;

use crate::error::{wire_reason, Error};
use crate::listing::{DirectoryEntry, EntryKind};

verus! {

/// An HTTP-level response: a status code and a JSON body. `None` marks a
/// response whose body is not a JSON envelope — a streamed file, which the
/// embedding program writes itself.
#[derive(Debug, PartialEq, Eq)]
pub struct EasyResponse {
    pub status: u16,
    pub body: Option<String>,
}

/// The status served with every rejection.
pub open spec fn error_status() -> u16 {
    500
}

/// The status served with a rendered success.
pub open spec fn ok_status() -> u16 {
    200
}

/// What `serde_json` turns a string value into: an opening quote, the
/// escaped characters, a closing quote. A function of the characters alone.
pub uninterp spec fn json_string_of(s: Seq<char>) -> Seq<char>;

/// Relies on `serde_json::to_string` for `str`: it writes the value as a
/// JSON string — a quote, the escaped contents, a quote — determined by the
/// characters alone. Its only error path is its writer's, and the writer is
/// a `Vec` whose writes cannot fail, so the call always succeeds; the error
/// branch below is unreachable.
#[verifier::external_body]
fn json_quote(s: &str) -> (r: String)
    ensures
        r@ == json_string_of(s@),
        r@.len() >= 2,
{
    match serde_json::to_string(s) {
        Ok(q) => q,
        Err(_) => String::new(),
    }
}

/// The error envelope around an already-quoted reason.
pub open spec fn err_envelope(q: Seq<char>) -> Seq<char> {
    "{\"err\":"@ + q + "}"@
}

/// The success envelope around an already-rendered payload.
pub open spec fn ok_envelope(q: Seq<char>) -> Seq<char> {
    "{\"ok\":"@ + q + "}"@
}

/// Wraps a quoted reason in the error envelope.
pub fn build_err_body(quoted: &str) -> (r: String)
    ensures
        r@ == err_envelope(quoted@),
{
    let mut r = "{\"err\":".to_owned();
    r.append(quoted);
    r.append("}");
    r
}

/// Wraps a rendered payload in the success envelope.
pub fn build_ok_body(payload: &str) -> (r: String)
    ensures
        r@ == ok_envelope(payload@),
{
    let mut r = "{\"ok\":".to_owned();
    r.append(payload);
    r.append("}");
    r
}

/// Renders a rejection: the fixed error status, and the envelope around the
/// quoted fixed reason of the variant — never around its payload. The body
/// is always produced, so every rejection of one reason class renders as one
/// and the same response.
pub fn render_error(e: &Error) -> (r: EasyResponse)
    ensures
        r.status == error_status(),
        r.body matches Some(b) && b@ == err_envelope(json_string_of(wire_reason(*e))),
{
    let msg = e.message();
    let q = json_quote(msg.as_str());
    EasyResponse { status: 500, body: Some(build_err_body(q.as_str())) }
}

/// One listed entry as JSON: its quoted name and its kind as `"f"` or `"d"`.
pub open spec fn entry_json(e: DirectoryEntry) -> Seq<char> {
    "{\"name\":"@ + json_string_of(e.name@) + (match e.kind {
        EntryKind::File => ",\"kind\":\"f\"}"@,
        EntryKind::Directory => ",\"kind\":\"d\"}"@,
    })
}

/// The comma-separated items of a listing, in order.
pub open spec fn listing_items(s: Seq<DirectoryEntry>) -> Seq<char>
    decreases s.len(),
{
    if s.len() == 0 {
        Seq::empty()
    } else if s.len() == 1 {
        entry_json(s[0])
    } else {
        listing_items(s.drop_last()) + ","@ + entry_json(s.last())
    }
}

/// A listing as a JSON array.
pub open spec fn listing_json(s: Seq<DirectoryEntry>) -> Seq<char> {
    "["@ + listing_items(s) + "]"@
}

/// Renders a listing: the success status and the success envelope around the
/// JSON array of entries, in their given order. The body is always produced.
pub fn render_listing(entries: &Vec<DirectoryEntry>) -> (r: EasyResponse)
    ensures
        r.status == ok_status(),
        r.body matches Some(b) && b@ == ok_envelope(listing_json(entries@)),
{
    let mut items = String::new();
    let mut i: usize = 0;
    proof {
        assert(entries@.take(0) =~= Seq::<DirectoryEntry>::empty());
    }
    while i < entries.len()
        invariant
            i <= entries@.len(),
            items@ == listing_items(entries@.take(i as int)),
        decreases entries@.len() - i,
    {
        let e = &entries[i];
        let q = json_quote(e.name.as_str());
        if i > 0 {
            items.append(",");
        }
        items.append("{\"name\":");
        items.append(q.as_str());
        match e.kind {
            EntryKind::File => items.append(",\"kind\":\"f\"}"),
            EntryKind::Directory => items.append(",\"kind\":\"d\"}"),
        }
        proof {
            let t = entries@.take(i + 1);
            assert(t.drop_last() =~= entries@.take(i as int));
            assert(t.last() == entries@[i as int]);
            if i == 0 {
                assert(items@ =~= entry_json(entries@[0]));
            } else {
                assert(items@ =~= listing_items(entries@.take(i as int)) + ","@ + entry_json(
                    entries@[i as int],
                ));
            }
        }
        i = i + 1;
    }
    proof {
        assert(entries@.take(entries@.len() as int) =~= entries@);
    }
    let mut payload = "[".to_owned();
    payload.append(items.as_str());
    payload.append("]");
    let body = build_ok_body(payload.as_str());
    EasyResponse { status: 200, body: Some(body) }
}

/// Symlink opacity at the wire: an I/O rejection carries one fixed reason
/// whatever server-side detail it holds, so the response for a forbidden
/// symlink is the very response for a path that does not exist.
pub proof fn lemma_symlink_opacity(m1: String, m2: String)
    ensures
        wire_reason(Error::Io(m1)) == wire_reason(Error::Io(m2)),
        err_envelope(json_string_of(wire_reason(Error::Io(m1)))) == err_envelope(
            json_string_of(wire_reason(Error::Io(m2))),
        ),
{
}

} // verus!
