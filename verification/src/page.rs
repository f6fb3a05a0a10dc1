//! What the page around the supervisor works out for itself: the links that
//! carry a job, the post that announces one, and how tall a text area is.

use vstd::prelude::*;
use vstd::slice::slice_subrange;
use vstd::string::{StringExecFns, StringSliceAdditionalSpecFns};
use vstd::utf8::encode_utf8;
use std::collections::hash_map::DefaultHasher;
use std::hash::Hasher;
use vstd::std_specs::hash::DefaultHasherAdditionalSpecFns;
use crate::text::{decimal, digit, push_decimal};

verus! {

/// How many columns a text area has.
pub const COLS: usize = 80;

/// The byte that ends a line.
pub const NEWLINE: u8 = 10;

/// What a part of a link decodes to where it cannot be decoded.
pub const FAILED_TO_DECODE: &'static str = "<Failed to decode>";

/// Where the page lives; a link to a job is this and the parts of the job.
pub const SITE: &'static str = "https://try-in-browser.netlify.app/#";

/// How many rows a line of `len` bytes takes: one for every `COLS` bytes, and
/// one at the least.
pub open spec fn rows_of_line(len: nat) -> nat {
    if len == 0 {
        1
    } else {
        ((len + COLS - 1) / (COLS as int)) as nat
    }
}

/// Where the count stands after the first `n` bytes of `text`: the rows of
/// the lines that have ended, and the length of the line that has not.
pub open spec fn rows_upto(text: Seq<u8>, n: nat) -> (nat, nat)
    decreases n,
{
    if n == 0 {
        (0, 0)
    } else {
        let (rows, line) = rows_upto(text, (n - 1) as nat);
        if text[n - 1] == NEWLINE {
            (rows + rows_of_line(line), 0)
        } else {
            (rows, line + 1)
        }
    }
}

/// How many rows the lines of `text` take together.
pub open spec fn rows_of(text: Seq<u8>) -> nat {
    rows_upto(text, text.len()).0 + rows_of_line(rows_upto(text, text.len()).1)
}

/// The rows of the lines read so far are no more than the bytes they hold
/// with their line ends, and the line being read is no longer than what was
/// read.
proof fn rows_are_bounded(text: Seq<u8>, n: nat)
    requires
        n <= text.len(),
    ensures
        rows_upto(text, n).0 + rows_upto(text, n).1 <= n,
    decreases n,
{
    if n > 0 {
        rows_are_bounded(text, (n - 1) as nat);
        let line = rows_upto(text, (n - 1) as nat).1;
        assert(rows_of_line(line) <= line + 1) by (nonlinear_arith)
            requires
                rows_of_line(line) == if line == 0 {
                    1
                } else {
                    ((line + 80 - 1) / 80) as nat
                },
        ;
    }
}

/// How many rows a text area needs to show `s`: the rows that its lines
/// take, and `min_rows` at the least.
pub fn rows(s: &str, min_rows: usize) -> (needed: usize)
    requires
        s.spec_bytes().len() < usize::MAX,
    ensures
        needed == if rows_of(s.spec_bytes()) >= min_rows {
            rows_of(s.spec_bytes())
        } else {
            min_rows as nat
        },
{
    let bytes = s.as_bytes();
    let mut total: usize = 0;
    let mut line: usize = 0;
    let mut i: usize = 0;
    while i < bytes.len()
        invariant
            i <= bytes@.len() < usize::MAX,
            bytes@ == s.spec_bytes(),
            total == rows_upto(bytes@, i as nat).0,
            line == rows_upto(bytes@, i as nat).1,
            total + line <= i,
        decreases bytes@.len() - i,
    {
        proof {
            rows_are_bounded(bytes@, (i + 1) as nat);
        }
        if bytes[i] == NEWLINE {
            total += line_rows(line);
            line = 0;
        } else {
            line += 1;
        }
        i += 1;
    }
    assert(rows_of_line(line as nat) <= line + 1) by (nonlinear_arith)
        requires
            rows_of_line(line as nat) == if line == 0 {
                1
            } else {
                ((line + 80 - 1) / 80) as nat
            },
    ;
    total += line_rows(line);
    if total >= min_rows {
        total
    } else {
        min_rows
    }
}

/// How many rows a line of `len` bytes takes.
fn line_rows(len: usize) -> (needed: usize)
    ensures
        needed == rows_of_line(len as nat),
{
    if len == 0 {
        1
    } else {
        (len - 1) / COLS + 1
    }
}

/// The error of `base64::decode`. Nothing is said of what it holds.
#[verifier::external_type_specification]
#[verifier::external_body]
pub struct ExDecodeError(base64::DecodeError);

/// What `base64::decode` makes of `input`: the bytes that it stands for, or
/// nothing where it is no base64.
pub uninterp spec fn base64_decoded(input: Seq<u8>) -> Option<Seq<u8>>;

/// What `base64::encode` makes of `input`.
pub uninterp spec fn base64_encoded(input: Seq<u8>) -> Seq<char>;

/// What `String::from_utf8_lossy` makes of `bytes`.
pub uninterp spec fn utf8_lossy(bytes: Seq<u8>) -> Seq<char>;

/// Calls `base64::decode`, which decodes standard base64 with padding. The
/// call gives the same for the same input; `base64_decoded` is the name for
/// what it gives. It is kept away from inputs so long that rounding their
/// length up to whole chunks of eight would overflow, on which it panics.
#[verifier::external_body]
fn decode_base64(input: &[u8]) -> (decoded: Result<Vec<u8>, base64::DecodeError>)
    requires
        input@.len() + 7 <= usize::MAX,
    ensures
        base64_decoded(input@) == match decoded {
            Ok(bytes) => Some(bytes@),
            Err(_) => None::<Seq<u8>>,
        },
{
    base64::decode(input)
}

/// Calls `base64::encode`, which encodes as standard base64 with padding.
/// The call gives the same for the same input; `base64_encoded` is the name
/// for what it gives. It is kept away from inputs so long that the length of
/// the result would overflow, on which it panics.
#[verifier::external_body]
fn encode_base64(input: &[u8]) -> (encoded: String)
    requires
        input@.len() / 3 * 4 + 4 <= usize::MAX,
    ensures
        encoded@ == base64_encoded(input@),
{
    base64::encode(input)
}

/// Calls `String::from_utf8_lossy`, which reads bytes as text and puts a
/// replacement character where they are none. `utf8_lossy` is the name for
/// what it gives.
#[verifier::external_body]
fn lossy_text(bytes: &[u8]) -> (text: String)
    ensures
        text@ == utf8_lossy(bytes@),
{
    String::from_utf8_lossy(bytes).into_owned()
}

/// The bytes of a part of a link that stand for its text in base64: all but
/// the first, which marks the part. There are none where the part is empty
/// or starts with a character of more than one byte.
pub open spec fn marked_bytes(part: Seq<char>) -> Option<Seq<u8>> {
    let bytes = encode_utf8(part);
    if bytes.len() > 0 && bytes[0] < 128 && bytes.len() + 6 <= usize::MAX {
        Some(bytes.skip(1))
    } else {
        None
    }
}

/// The text that a part of a link stands for, or `FAILED_TO_DECODE`.
pub open spec fn part_text(part: Seq<char>) -> Seq<char> {
    match marked_bytes(part) {
        Some(bytes) => decoded_text_of(base64_decoded(bytes)),
        None => FAILED_TO_DECODE@,
    }
}

/// The text that decoded bytes stand for, or `FAILED_TO_DECODE` where there
/// are none.
pub open spec fn decoded_text_of(decoded: Option<Seq<u8>>) -> Seq<char> {
    match decoded {
        Some(bytes) => utf8_lossy(bytes),
        None => FAILED_TO_DECODE@,
    }
}

/// Reads what was decoded as text. Where nothing was decoded, the text says
/// so.
pub fn decoded_text(decoded: Result<Vec<u8>, base64::DecodeError>) -> (text: String)
    ensures
        text@ == decoded_text_of(
            match decoded {
                Ok(bytes) => Some(bytes@),
                Err(_) => None,
            },
        ),
{
    match decoded {
        Ok(vec) => lossy_text(vec.as_slice()),
        Err(_) => FAILED_TO_DECODE.to_owned(),
    }
}

/// Decodes one part of a link: drops the character that marks it, and reads
/// the rest as the base64 of a text.
pub fn b64_to_string(s: &str) -> (text: String)
    ensures
        text@ == part_text(s@),
{
    let bytes = s.as_bytes();
    if bytes.len() == 0 || bytes[0] >= 128 || bytes.len() > usize::MAX - 6 {
        return FAILED_TO_DECODE.to_owned();
    }
    let rest = slice_subrange(bytes, 1, bytes.len());
    assert(rest@ =~= bytes@.skip(1));
    decoded_text(decode_base64(rest))
}

/// The part of a link that stands for `text`: an `@` and the base64 of the
/// text.
pub open spec fn link_part(text: Seq<char>) -> Seq<char> {
    seq!['@'] + base64_encoded(encode_utf8(text))
}

/// Encodes `text` as one part of a link.
pub fn b64_from_string(text: &str) -> (part: String)
    requires
        text.spec_bytes().len() / 3 * 4 + 4 <= usize::MAX,
    ensures
        part@ == link_part(text@),
{
    let mut part = String::new();
    part.push('@');
    let encoded = encode_base64(text.as_bytes());
    part.append(encoded.as_str());
    assert(part@ =~= link_part(text@));
    part
}

/// The four parts of the link to a job: its language, its program, its input
/// and its arguments.
pub fn update_url(lang: &str, code: &str, input: &str, args: &str) -> (parts: Vec<String>)
    requires
        lang.spec_bytes().len() / 3 * 4 + 4 <= usize::MAX,
        code.spec_bytes().len() / 3 * 4 + 4 <= usize::MAX,
        input.spec_bytes().len() / 3 * 4 + 4 <= usize::MAX,
        args.spec_bytes().len() / 3 * 4 + 4 <= usize::MAX,
    ensures
        parts@.len() == 4,
        parts@[0]@ == link_part(lang@),
        parts@[1]@ == link_part(code@),
        parts@[2]@ == link_part(input@),
        parts@[3]@ == link_part(args@),
{
    let mut parts: Vec<String> = Vec::new();
    parts.push(b64_from_string(lang));
    parts.push(b64_from_string(code));
    parts.push(b64_from_string(input));
    parts.push(b64_from_string(args));
    parts
}

/// The character that stands for the hexadecimal digit `d`.
pub open spec fn hex_digit(d: nat) -> char
    recommends
        d < 16,
{
    if d < 10 {
        digit(d)
    } else {
        (87 + d) as u8 as char
    }
}

/// The last `width` hexadecimal digits of `n`, with zeros in front where it
/// has fewer.
pub open spec fn hex_padded(n: nat, width: nat) -> Seq<char>
    decreases width,
{
    if width == 0 {
        Seq::empty()
    } else {
        hex_padded(n / 16, (width - 1) as nat).push(hex_digit(n % 16))
    }
}

/// Appends to `s` the last `width` hexadecimal digits of `n`.
fn push_hex(s: &mut String, n: u64, width: u8)
    ensures
        final(s)@ == old(s)@ + hex_padded(n as nat, width as nat),
    decreases width,
{
    if width > 0 {
        push_hex(s, n / 16, width - 1);
        let d: u8 = (n % 16) as u8;
        if d < 10 {
            s.push((48 + d) as char);
        } else {
            s.push((87 + d) as char);
        }
    }
    assert(final(s)@ =~= old(s)@ + hex_padded(n as nat, width as nat));
}

/// The code that a post shows: what is selected, or all of it where nothing
/// is.
pub open spec fn shown_code(code: Seq<char>, selection: Seq<char>) -> Seq<char> {
    if selection.len() == 0 {
        code
    } else {
        selection
    }
}

/// The word for a number of bytes.
pub open spec fn byte_word(count: nat) -> Seq<char> {
    if count == 1 {
        "byte"@
    } else {
        "bytes"@
    }
}

/// The post that announces a job: a heading with the language and the size of
/// the code, the code, and a link to the job, whose label is made from
/// `hash`.
pub open spec fn post_text(
    lang: Seq<char>,
    display_code: Seq<char>,
    hash: u64,
    lang_link: Seq<char>,
    url_hash: Seq<char>,
) -> Seq<char> {
    "# ["@ + lang + "][tib-"@ + lang + "], "@ + decimal(encode_utf8(display_code).len()) + " "@
        + byte_word(encode_utf8(display_code).len()) + "\n\n```\n"@ + display_code
        + "\n```\n\n[Try in browser!][tib-"@ + hex_padded(hash as nat, 16) + "]\n[tib-"@ + lang
        + "]: "@ + lang_link + "\n[tib-"@ + hex_padded(hash as nat, 16) + "]: "@ + SITE@ + url_hash
        + "\n"@
}

/// Writes the post for a job whose link is labelled by `hash`.
pub fn format_post_with(
    lang: &str,
    code: &str,
    selection: &str,
    lang_link: &str,
    url_hash: &str,
    hash: u64,
) -> (post: String)
    ensures
        post@ == post_text(lang@, shown_code(code@, selection@), hash, lang_link@, url_hash@),
{
    let display_code = if selection.is_empty() {
        code
    } else {
        selection
    };
    let size: usize = display_code.as_bytes().len();
    let mut post = String::new();
    post.append("# [");
    post.append(lang);
    post.append("][tib-");
    post.append(lang);
    post.append("], ");
    push_decimal(&mut post, size as u64);
    post.append(" ");
    if size == 1 {
        post.append("byte");
    } else {
        post.append("bytes");
    }
    post.append("\n\n```\n");
    post.append(display_code);
    post.append("\n```\n\n[Try in browser!][tib-");
    push_hex(&mut post, hash, 16);
    post.append("]\n[tib-");
    post.append(lang);
    post.append("]: ");
    post.append(lang_link);
    post.append("\n[tib-");
    push_hex(&mut post, hash, 16);
    post.append("]: ");
    post.append(SITE);
    post.append(url_hash);
    post.append("\n");
    assert(post@ =~= post_text(
        lang@,
        shown_code(code@, selection@),
        hash,
        lang_link@,
        url_hash@,
    ));
    post
}

/// The hash that labels the link of a job: what the hasher of the standard
/// library makes of the language, the program, the input and the arguments,
/// with a zero byte between any two of them.
pub open spec fn job_hash(
    lang: Seq<char>,
    code: Seq<char>,
    input: Seq<char>,
    args: Seq<char>,
) -> u64 {
    DefaultHasher::spec_finish(
        seq![
            encode_utf8(lang),
            seq![0u8],
            encode_utf8(code),
            seq![0u8],
            encode_utf8(input),
            seq![0u8],
            encode_utf8(args),
        ],
    )
}

/// Works out the hash that labels the link of a job.
pub fn post_hash(lang: &str, code: &str, input: &str, args: &str) -> (hash: u64)
    ensures
        hash == job_hash(lang@, code@, input@, args@),
{
    let zero: [u8; 1] = [0];
    let mut hasher = DefaultHasher::new();
    hasher.write(lang.as_bytes());
    hasher.write(zero.as_slice());
    hasher.write(code.as_bytes());
    hasher.write(zero.as_slice());
    hasher.write(input.as_bytes());
    hasher.write(zero.as_slice());
    hasher.write(args.as_bytes());
    assert(zero@ =~= seq![0u8]);
    assert(hasher@ =~= seq![
        encode_utf8(lang@),
        seq![0u8],
        encode_utf8(code@),
        seq![0u8],
        encode_utf8(input@),
        seq![0u8],
        encode_utf8(args@),
    ]);
    hasher.finish()
}

/// Writes the post for a job. The label of its link is the hash of the job.
pub fn format_post(
    lang: &str,
    code: &str,
    input: &str,
    args: &str,
    selection: &str,
    lang_link: &str,
    url_hash: &str,
) -> (post: String)
    ensures
        post@ == post_text(
            lang@,
            shown_code(code@, selection@),
            job_hash(lang@, code@, input@, args@),
            lang_link@,
            url_hash@,
        ),
{
    let hash = post_hash(lang, code, input, args);
    format_post_with(lang, code, selection, lang_link, url_hash, hash)
}

} // verus!
