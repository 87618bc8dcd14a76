use filegate::error::{Error, Res};
use filegate::hello;
use filegate::listing::{list_entries, DirectoryEntry, EntryKind, EntryMeta, RawEntry};
use filegate::protocol::{build_err_body, build_ok_body, render_error, render_listing};

fn named(name: &str, meta: EntryMeta) -> RawEntry {
    RawEntry { name: Some(name.to_string()), meta }
}

#[test]
fn hello_text() {
    assert_eq!(hello(), "hello, world!");
}

#[test]
fn res_wraps_its_value() {
    let r: Res<u32> = Res::from(5);
    assert_eq!(r.0, 5);
    let r: Res<Vec<u8>> = Res::from(vec![1, 2]);
    assert_eq!(r.0, vec![1, 2]);
}

#[test]
fn listing_omits_symlinks() {
    let raw = vec![
        named("file.txt", EntryMeta::File),
        named("sub", EntryMeta::Directory),
        named("link", EntryMeta::Symlink),
    ];
    let listed = list_entries(&raw);
    assert_eq!(listed.len(), 2);
    assert_eq!(listed[0], DirectoryEntry { name: "file.txt".to_string(), kind: EntryKind::File });
    assert_eq!(listed[1], DirectoryEntry { name: "sub".to_string(), kind: EntryKind::Directory });
}

#[test]
fn listing_skips_unreadable_and_nameless() {
    let raw = vec![
        named("ok", EntryMeta::File),
        named("broken", EntryMeta::Unreadable),
        RawEntry { name: None, meta: EntryMeta::File },
    ];
    let listed = list_entries(&raw);
    assert_eq!(listed.len(), 1);
    assert_eq!(listed[0].name, "ok");
}

#[test]
fn listing_of_nothing_is_empty() {
    assert_eq!(list_entries(&Vec::new()).len(), 0);
}

#[test]
fn error_messages_are_fixed_texts() {
    assert_eq!(Error::Io("os error 13".to_string()).message(), "i/o");
    assert_eq!(Error::PathDenied("../x".to_string()).message(), "path denied");
    assert_eq!(Error::UrlDecode("%zz".to_string()).message(), "failed to decode path");
}

#[test]
fn envelopes_wrap_their_payload() {
    assert_eq!(build_err_body("\"i/o\""), "{\"err\":\"i/o\"}");
    assert_eq!(build_ok_body("[]"), "{\"ok\":[]}");
}

#[test]
fn rejections_render_uniformly() {
    let io = render_error(&Error::Io("secret detail".to_string()));
    assert_eq!(io.status, 500);
    assert_eq!(io.body.as_deref(), Some("{\"err\":\"i/o\"}"));
    let denied = render_error(&Error::PathDenied("/srv/secret".to_string()));
    assert_eq!(denied.status, 500);
    assert_eq!(denied.body.as_deref(), Some("{\"err\":\"path denied\"}"));
    let malformed = render_error(&Error::UrlDecode("%zz".to_string()));
    assert_eq!(malformed.status, 500);
    assert_eq!(malformed.body.as_deref(), Some("{\"err\":\"failed to decode path\"}"));
}

#[test]
fn payloads_never_reach_the_wire() {
    // A forbidden symlink and a missing file carry different server-side
    // detail but render as one and the same response.
    let symlink = render_error(&Error::Io("no such file or directory".to_string()));
    let missing = render_error(&Error::Io("os error 2".to_string()));
    assert_eq!(symlink, missing);
}

#[test]
fn listing_renders_as_json_array() {
    let entries = vec![
        DirectoryEntry { name: "a.txt".to_string(), kind: EntryKind::File },
        DirectoryEntry { name: "sub".to_string(), kind: EntryKind::Directory },
    ];
    let r = render_listing(&entries);
    assert_eq!(r.status, 200);
    assert_eq!(
        r.body.as_deref(),
        Some("{\"ok\":[{\"name\":\"a.txt\",\"kind\":\"f\"},{\"name\":\"sub\",\"kind\":\"d\"}]}")
    );
}

#[test]
fn empty_listing_renders_as_empty_array() {
    let r = render_listing(&Vec::new());
    assert_eq!(r.status, 200);
    assert_eq!(r.body.as_deref(), Some("{\"ok\":[]}"));
}

#[test]
fn names_are_escaped_like_json() {
    let tricky = "a\"b\\c\nd";
    let entries = vec![DirectoryEntry { name: tricky.to_string(), kind: EntryKind::File }];
    let r = render_listing(&entries);
    let body = r.body.expect("a rendered body");
    let expected = format!(
        "{{\"ok\":[{{\"name\":{},\"kind\":\"f\"}}]}}",
        serde_json::to_string(tricky).unwrap()
    );
    assert_eq!(body, expected);
    // The rendered body is real JSON and round-trips to the raw name.
    let value: serde_json::Value = serde_json::from_str(&body).unwrap();
    assert_eq!(value["ok"][0]["name"].as_str(), Some(tricky));
    assert_eq!(value["ok"][0]["kind"].as_str(), Some("f"));
}

#[test]
fn listing_matches_for_one_directory_however_named() {
    // Resolving "" and "." approve the same directory, so the one listing
    // serves both requests.
    let raw = vec![named("x", EntryMeta::File), named("y", EntryMeta::Directory)];
    let first = render_listing(&list_entries(&raw));
    let second = render_listing(&list_entries(&raw));
    assert_eq!(first, second);
}
