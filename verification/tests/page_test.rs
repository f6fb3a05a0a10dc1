use std::collections::hash_map::DefaultHasher;
use std::hash::Hasher;
use try_in_browser::page::{
    b64_from_string, b64_to_string, decoded_text, format_post, format_post_with, post_hash, rows,
    update_url, COLS, FAILED_TO_DECODE, SITE,
};

#[test]
fn link_parts_decode() {
    assert_eq!(b64_to_string("@aGVsbG8="), "hello");
    assert_eq!(b64_to_string("@RGVhZGZpc2g="), "Deadfish");
    assert_eq!(b64_to_string("@aWlpc2lpaXNv"), "iiisiiiso");
    // Whatever marks the part is dropped, not looked at.
    assert_eq!(b64_to_string("#aGVsbG8="), "hello");
    // Nothing behind the mark is the empty text.
    assert_eq!(b64_to_string("@"), "");
    // Text beyond ASCII.
    assert_eq!(b64_to_string("@aMOpbGxv"), "h\u{e9}llo");
}

#[test]
fn link_parts_that_cannot_be_decoded() {
    assert_eq!(FAILED_TO_DECODE, "<Failed to decode>");
    assert_eq!(b64_to_string("@!!!!"), "<Failed to decode>");
    assert_eq!(b64_to_string("@aGVsb"), "<Failed to decode>");
    assert_eq!(b64_to_string("@a"), "<Failed to decode>");
    assert_eq!(b64_to_string(""), "<Failed to decode>");
    assert_eq!(b64_to_string("\u{e9}aGVsbG8="), "<Failed to decode>");
}

#[test]
fn link_parts_with_bytes_that_are_no_text() {
    // The base64 of the one byte 0xff.
    assert_eq!(b64_to_string("@/w=="), "\u{fffd}");
    assert_eq!(decoded_text(Ok(vec![b'o', b'k'])), "ok");
    assert_eq!(decoded_text(Ok(vec![b'a', 0xff, b'b'])), "a\u{fffd}b");
    assert_eq!(decoded_text(Ok(vec![])), "");
    assert_eq!(
        decoded_text(base64::decode("not base64")),
        "<Failed to decode>"
    );
}

#[test]
fn link_parts_encode() {
    assert_eq!(b64_from_string("hello"), "@aGVsbG8=");
    assert_eq!(b64_from_string(""), "@");
    assert_eq!(b64_from_string("h\u{e9}llo"), "@aMOpbGxv");
    assert_eq!(
        update_url("Deadfish", "iiisiiiso", "", "-o"),
        vec!["@RGVhZGZpc2g=", "@aWlpc2lpaXNv", "@", "@LW8="]
    );
}

#[test]
fn link_parts_round_trip() {
    for text in ["", "a", "ab", "abc", "+[.>]", "/a/b/c", "line\nline", "\u{20ac}"] {
        assert_eq!(b64_to_string(&b64_from_string(text)), text);
    }
}

#[test]
fn rows_of_a_text_area() {
    assert_eq!(COLS, 80);
    assert_eq!(rows("", 1), 1);
    assert_eq!(rows("", 4), 4);
    assert_eq!(rows("abc", 1), 1);
    assert_eq!(rows("a\nb", 1), 2);
    assert_eq!(rows("a\nb\n", 1), 3);
    assert_eq!(rows("\n\n", 1), 3);
    assert_eq!(rows(&"x".repeat(80), 1), 1);
    assert_eq!(rows(&"x".repeat(81), 1), 2);
    assert_eq!(rows(&"x".repeat(160), 1), 2);
    assert_eq!(rows(&"x".repeat(161), 1), 3);
    let text = format!("{}\n\n{}", "x".repeat(100), "y".repeat(10));
    assert_eq!(rows(&text, 1), 4);
    assert_eq!(rows(&text, 4), 4);
    assert_eq!(rows(&text, 9), 9);
    // Rows count bytes, not characters.
    assert_eq!(rows(&"\u{e9}".repeat(41), 1), 2);
}

#[test]
fn post_for_a_job() {
    assert_eq!(SITE, "https://try-in-browser.netlify.app/#");
    let post = format_post_with(
        "Deadfish",
        "iio",
        "",
        "https://esolangs.org/wiki/Deadfish",
        "/@a/@b",
        0x1f,
    );
    assert_eq!(
        post,
        "# [Deadfish][tib-Deadfish], 3 bytes\n\n```\niio\n```\n\n[Try in browser!][tib-000000000000001f]\n[tib-Deadfish]: https://esolangs.org/wiki/Deadfish\n[tib-000000000000001f]: https://try-in-browser.netlify.app/#/@a/@b\n"
    );
}

#[test]
fn post_shows_the_selection_and_counts_its_bytes() {
    let post = format_post_with("///", "/a/b/abc", "b", "link", "", u64::MAX);
    assert_eq!(
        post,
        "# [///][tib-///], 1 byte\n\n```\nb\n```\n\n[Try in browser!][tib-ffffffffffffffff]\n[tib-///]: link\n[tib-ffffffffffffffff]: https://try-in-browser.netlify.app/#\n"
    );
    let post = format_post_with("L", "", "", "", "", 0xabc_0123_4567_89de);
    assert_eq!(
        post,
        "# [L][tib-L], 0 bytes\n\n```\n\n```\n\n[Try in browser!][tib-0abc0123456789de]\n[tib-L]: \n[tib-0abc0123456789de]: https://try-in-browser.netlify.app/#\n"
    );
    let post = format_post_with("L", "\u{e9}", "", "", "", 0);
    assert!(post.starts_with("# [L][tib-L], 2 bytes\n"));
}

#[test]
fn post_is_labelled_by_the_hash_of_the_job() {
    let mut hasher = DefaultHasher::new();
    hasher.write(b"Deadfish");
    hasher.write_u8(0);
    hasher.write(b"iio");
    hasher.write_u8(0);
    hasher.write(b"in");
    hasher.write_u8(0);
    hasher.write(b"-o");
    let hash = hasher.finish();
    assert_eq!(post_hash("Deadfish", "iio", "in", "-o"), hash);
    assert_ne!(post_hash("Deadfish", "iio", "in", "-o"), post_hash("Deadfish", "iio", "in-o", ""));
    let post = format_post("Deadfish", "iio", "in", "-o", "ii", "home", "/x");
    assert_eq!(
        post,
        format_post_with("Deadfish", "iio", "ii", "home", "/x", hash)
    );
    assert!(post.contains(&format!("[tib-{:016x}]: https://try-in-browser.netlify.app/#/x\n", hash)));
}
