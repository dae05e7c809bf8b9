//! Pure helpers shared by the request handlers: MIME types, path
//! sanitization, WiFi credential limits, constant-time key comparison
//! and error-message sanitization.

use vstd::prelude::*;
use vstd::utf8::*;
use crate::text::{
    chars_of, contains_char, contains_str, ends_with_str, seq_contains, seq_ends_with,
};

verus! {

broadcast use vstd::utf8::group_utf8_lib;

/// The MIME type served for a file whose path is `path`, decided by the
/// first matching extension in a fixed order.
pub open spec fn content_type_of(path: Seq<char>) -> Seq<char> {
    if seq_ends_with(path, ".html"@) {
        "text/html"@
    } else if seq_ends_with(path, ".css"@) {
        "text/css"@
    } else if seq_ends_with(path, ".js"@) {
        "application/javascript"@
    } else if seq_ends_with(path, ".json"@) {
        "application/json"@
    } else if seq_ends_with(path, ".png"@) {
        "image/png"@
    } else if seq_ends_with(path, ".jpg"@) || seq_ends_with(path, ".jpeg"@) {
        "image/jpeg"@
    } else if seq_ends_with(path, ".svg"@) {
        "image/svg+xml"@
    } else if seq_ends_with(path, ".ico"@) {
        "image/x-icon"@
    } else if seq_ends_with(path, ".woff2"@) {
        "font/woff2"@
    } else if seq_ends_with(path, ".woff"@) {
        "font/woff"@
    } else if seq_ends_with(path, ".ttf"@) {
        "font/ttf"@
    } else {
        "application/octet-stream"@
    }
}

/// Returns the MIME content type for a file based on its extension.
///
/// Supports common web file types (HTML, CSS, JS, JSON, images, fonts).
/// Returns `"application/octet-stream"` for unrecognized extensions.
pub fn get_content_type(path: &str) -> (r: &'static str)
    ensures
        r@ == content_type_of(path@),
{
    let p = chars_of(path);
    if ends_with_str(&p, ".html") {
        "text/html"
    } else if ends_with_str(&p, ".css") {
        "text/css"
    } else if ends_with_str(&p, ".js") {
        "application/javascript"
    } else if ends_with_str(&p, ".json") {
        "application/json"
    } else if ends_with_str(&p, ".png") {
        "image/png"
    } else if ends_with_str(&p, ".jpg") || ends_with_str(&p, ".jpeg") {
        "image/jpeg"
    } else if ends_with_str(&p, ".svg") {
        "image/svg+xml"
    } else if ends_with_str(&p, ".ico") {
        "image/x-icon"
    } else if ends_with_str(&p, ".woff2") {
        "font/woff2"
    } else if ends_with_str(&p, ".woff") {
        "font/woff"
    } else if ends_with_str(&p, ".ttf") {
        "font/ttf"
    } else {
        "application/octet-stream"
    }
}

/// Whether a path ends with `e` is decided by its last `e.len()`
/// characters alone.
proof fn lemma_ends_with_after_prefix(prefix: Seq<char>, path: Seq<char>, e: Seq<char>)
    requires
        e.len() <= path.len(),
    ensures
        seq_ends_with(prefix + path, e) == seq_ends_with(path, e),
{
    let whole = prefix + path;
    assert(whole.subrange(whole.len() - e.len(), whole.len() as int) =~= path.subrange(
        path.len() - e.len(),
        path.len() as int,
    ));
}

/// The content type depends only on the last six characters of the path
/// (as many as the longest extension, `.woff2`, has): a directory or any
/// other prefix put in front does not change it.
pub proof fn lemma_content_type_by_suffix(prefix: Seq<char>, path: Seq<char>)
    requires
        path.len() >= 6,
    ensures
        content_type_of(prefix + path) == content_type_of(path),
{
    reveal_strlit(".html");
    reveal_strlit(".css");
    reveal_strlit(".js");
    reveal_strlit(".json");
    reveal_strlit(".png");
    reveal_strlit(".jpg");
    reveal_strlit(".jpeg");
    reveal_strlit(".svg");
    reveal_strlit(".ico");
    reveal_strlit(".woff2");
    reveal_strlit(".woff");
    reveal_strlit(".ttf");
    lemma_ends_with_after_prefix(prefix, path, ".html"@);
    lemma_ends_with_after_prefix(prefix, path, ".css"@);
    lemma_ends_with_after_prefix(prefix, path, ".js"@);
    lemma_ends_with_after_prefix(prefix, path, ".json"@);
    lemma_ends_with_after_prefix(prefix, path, ".png"@);
    lemma_ends_with_after_prefix(prefix, path, ".jpg"@);
    lemma_ends_with_after_prefix(prefix, path, ".jpeg"@);
    lemma_ends_with_after_prefix(prefix, path, ".svg"@);
    lemma_ends_with_after_prefix(prefix, path, ".ico"@);
    lemma_ends_with_after_prefix(prefix, path, ".woff2"@);
    lemma_ends_with_after_prefix(prefix, path, ".woff"@);
    lemma_ends_with_after_prefix(prefix, path, ".ttf"@);
}

/// What `str::to_lowercase` gives for the characters `s` (full Unicode
/// lowercase mapping, independent of locale).
pub uninterp spec fn lowercase_of(s: Seq<char>) -> Seq<char>;

/// The Unicode lowercase of an ASCII character: `A`-`Z` become `a`-`z`,
/// every other character stays.
pub open spec fn ascii_lower_char(c: char) -> char {
    if 'A' <= c && c <= 'Z' {
        ((c as u32) + 32) as char
    } else {
        c
    }
}

/// The lowercase of ASCII text, character by character.
pub open spec fn ascii_lowercase(s: Seq<char>) -> Seq<char> {
    Seq::new(s.len(), |i: int| ascii_lower_char(s[i]))
}

/// Calls `str::to_lowercase`; its result is named by [`lowercase_of`].
/// On ASCII text the Unicode lowercase mapping is the ASCII one, so there
/// the result is stated; on other text it is only named.
#[verifier::external_body]
fn to_lowercase(s: &str) -> (r: String)
    ensures
        r@ == lowercase_of(s@),
        is_ascii_chars(s@) ==> r@ == ascii_lowercase(s@),
{
    s.to_lowercase()
}

/// A lowercased path holds a percent-encoded parent-directory step
/// (`%2e` stands for `.`).
pub open spec fn encoded_traversal(lower: Seq<char>) -> bool {
    seq_contains(lower, "%2e%2e"@) || seq_contains(lower, "%2e."@) || seq_contains(lower, ".%2e"@)
}

/// A request path that may not reach the filesystem: it holds `..`, a NUL
/// character, or (once lowercased) a percent-encoded traversal.
pub open spec fn path_rejected(uri: Seq<char>) -> bool {
    seq_contains(uri, ".."@) || uri.contains('\0') || encoded_traversal(lowercase_of(uri))
}

/// Whether an already-lowercased path holds a percent-encoded traversal
/// pattern (`%2e%2e`, `%2e.` or `.%2e`).
pub fn has_encoded_traversal(lower: &str) -> (r: bool)
    ensures
        r == encoded_traversal(lower@),
{
    let l = chars_of(lower);
    contains_str(&l, "%2e%2e") || contains_str(&l, "%2e.") || contains_str(&l, ".%2e")
}

/// Validates and sanitizes a URI path for filesystem access.
///
/// Returns the corresponding filesystem path (prefixed with `/www`),
/// or `None` if the path contains traversal sequences (`..`),
/// null bytes, or percent-encoded traversal patterns.
pub fn sanitize_path(uri: &str) -> (r: Option<String>)
    ensures
        r is Some <==> !path_rejected(uri@),
        is_ascii_chars(uri@) ==> (r is Some <==> !(seq_contains(uri@, ".."@) || uri@.contains(
            '\0',
        ) || encoded_traversal(ascii_lowercase(uri@)))),
        r matches Some(p) ==> p@ == "/www"@ + uri@,
{
    let u = chars_of(uri);
    if contains_str(&u, "..") || contains_char(&u, '\0') {
        return None;
    }
    let lower = to_lowercase(uri);
    if has_encoded_traversal(lower.as_str()) {
        return None;
    }
    let mut out = "/www".to_owned();
    out.append(uri);
    Some(out)
}

/// Length in bytes of the UTF-8 encoding of `s` (what `str::len` gives).
pub open spec fn utf8_len(s: Seq<char>) -> nat {
    encode_utf8(s).len()
}

/// Every path that [`sanitize_path`] hands out lies under `/www` and holds
/// neither a `..` step nor a NUL character.
pub proof fn lemma_sanitized_path_confined(uri: Seq<char>)
    requires
        !path_rejected(uri),
    ensures
        ("/www"@ + uri).subrange(0, 4) == "/www"@,
        !seq_contains("/www"@ + uri, ".."@),
        !("/www"@ + uri).contains('\0'),
{
    reveal_strlit("/www");
    reveal_strlit("..");
    let p = "/www"@ + uri;
    assert(p.subrange(0, 4) =~= "/www"@);
    assert forall|i: int| 0 <= i && i + 2 <= p.len() implies #[trigger] p.subrange(i, i + 2)
        != ".."@ by {
        if i >= 4 {
            assert(p.subrange(i, i + 2) =~= uri.subrange(i - 4, i - 4 + 2));
        } else {
            assert(p.subrange(i, i + 2)[0] == p[i]);
        }
    }
    assert forall|i: int| 0 <= i < p.len() implies p[i] != '\0' by {
        if i >= 4 {
            assert(p[i] == uri[i - 4]);
        }
    }
}

/// Every message given to a client is one of two fixed texts, whatever
/// the error it stands for.
pub proof fn lemma_sanitized_message_fixed(raw: Seq<char>)
    ensures
        sanitized_message(raw) == "Invalid request format"@ || sanitized_message(raw)
            == "Request processing failed"@,
{
}

/// WiFi credentials within ESP32 limits: a non-empty SSID of at most 32
/// bytes, and a password that is empty (open network) or of 8 to 63 bytes
/// (WPA2).
pub open spec fn wifi_credentials_valid(ssid: Seq<char>, password: Seq<char>) -> bool {
    &&& ssid.len() != 0
    &&& utf8_len(ssid) <= 32
    &&& (password.len() == 0 || 8 <= utf8_len(password) <= 63)
}

/// What [`validate_wifi_credentials`] returns for the characters `ssid`
/// and `password`.
pub open spec fn credentials_verdict(ssid: Seq<char>, password: Seq<char>) -> Result<(), &'static str> {
    if ssid.len() == 0 {
        Err("SSID cannot be empty")
    } else if utf8_len(ssid) > 32 {
        Err("SSID must be 32 characters or fewer")
    } else if !wifi_credentials_valid(ssid, password) {
        Err("Password must be 8-63 characters")
    } else {
        Ok(())
    }
}

/// Validates WiFi credentials against ESP32 constraints.
///
/// - SSID: 1-32 bytes (required, non-empty)
/// - Password: empty (open network) or 8-63 bytes (WPA2)
pub fn validate_wifi_credentials(ssid: &str, password: &str) -> (r: Result<(), &'static str>)
    ensures
        r == credentials_verdict(ssid@, password@),
        r is Ok <==> wifi_credentials_valid(ssid@, password@),
{
    if ssid.is_empty() {
        return Err("SSID cannot be empty");
    }
    if ssid.as_bytes().len() > 32 {
        return Err("SSID must be 32 characters or fewer");
    }
    if !password.is_empty() && (password.as_bytes().len() < 8 || password.as_bytes().len() > 63) {
        return Err("Password must be 8-63 characters");
    }
    Ok(())
}

/// Performs constant-time string comparison to prevent timing attacks.
///
/// The comparison time does not vary based on which characters match,
/// preventing an attacker from extracting the key byte-by-byte.
pub fn constant_time_eq(a: &str, b: &str) -> (r: bool)
    ensures
        r == (a@ == b@),
{
    let a_bytes = a.as_bytes();
    let b_bytes = b.as_bytes();
    if a_bytes.len() != b_bytes.len() {
        return false;
    }
    let mut result: u8 = 0;
    let mut i: usize = 0;
    while i < a_bytes.len()
        invariant
            a_bytes.len() == b_bytes.len(),
            i <= a_bytes.len(),
            result == 0 <==> forall|k: int| 0 <= k < i ==> a_bytes@[k] == b_bytes@[k],
        decreases a_bytes.len() - i,
    {
        let x = a_bytes[i];
        let y = b_bytes[i];
        let next = result | (x ^ y);
        assert(next == 0 <==> (result == 0 && x == y)) by (bit_vector)
            requires
                next == result | (x ^ y),
        ;
        result = next;
        i += 1;
    }
    proof {
        if result == 0 {
            assert(a_bytes@ =~= b_bytes@);
            assert(decode_utf8(encode_utf8(a@)) == a@);
            assert(decode_utf8(encode_utf8(b@)) == b@);
        }
    }
    result == 0
}

/// The message sent to an HTTP client in place of the error text `raw`:
/// a generic notice that reveals nothing of `raw` beyond its kind.
pub open spec fn sanitized_message(raw: Seq<char>) -> Seq<char> {
    if seq_contains(raw, "missing field"@) || seq_contains(raw, "expected"@) || seq_contains(
        raw,
        "invalid type"@,
    ) {
        "Invalid request format"@
    } else {
        "Request processing failed"@
    }
}

/// Strips internal error details before sending to HTTP clients.
///
/// Replaces serde parse errors, file paths, and other internal
/// information with generic user-facing messages.
pub fn sanitize_error_message(raw: &str) -> (r: String)
    ensures
        r@ == sanitized_message(raw@),
{
    let cs = chars_of(raw);
    if contains_str(&cs, "missing field") || contains_str(&cs, "expected") || contains_str(
        &cs,
        "invalid type",
    ) {
        return "Invalid request format".to_owned();
    }
    "Request processing failed".to_owned()
}

/// A path that ends with `e` ends with the last two characters of `e`.
proof fn lemma_ends_with_last_two(path: Seq<char>, e: Seq<char>)
    requires
        e.len() >= 2,
        seq_ends_with(path, e),
    ensures
        path[path.len() - 1] == e[e.len() - 1],
        path[path.len() - 2] == e[e.len() - 2],
{
    let tail = path.subrange(path.len() - e.len(), path.len() as int);
    assert(tail[e.len() - 1] == e[e.len() - 1]);
    assert(tail[e.len() - 2] == e[e.len() - 2]);
}

/// Each recognized extension gives its own type, whatever comes before it:
/// `.html` is `text/html`, `.css` is `text/css`, `.js` is
/// `application/javascript`, `.json` is `application/json`, `.png` is
/// `image/png`, `.jpg` and `.jpeg` are `image/jpeg`, `.svg` is
/// `image/svg+xml`, `.ico` is `image/x-icon`, `.woff2` is `font/woff2`,
/// `.woff` is `font/woff` and `.ttf` is `font/ttf`.
pub proof fn lemma_content_type_per_extension(path: Seq<char>)
    ensures
        seq_ends_with(path, ".html"@) ==> content_type_of(path) == "text/html"@,
        seq_ends_with(path, ".css"@) ==> content_type_of(path) == "text/css"@,
        seq_ends_with(path, ".js"@) ==> content_type_of(path) == "application/javascript"@,
        seq_ends_with(path, ".json"@) ==> content_type_of(path) == "application/json"@,
        seq_ends_with(path, ".png"@) ==> content_type_of(path) == "image/png"@,
        seq_ends_with(path, ".jpg"@) ==> content_type_of(path) == "image/jpeg"@,
        seq_ends_with(path, ".jpeg"@) ==> content_type_of(path) == "image/jpeg"@,
        seq_ends_with(path, ".svg"@) ==> content_type_of(path) == "image/svg+xml"@,
        seq_ends_with(path, ".ico"@) ==> content_type_of(path) == "image/x-icon"@,
        seq_ends_with(path, ".woff2"@) ==> content_type_of(path) == "font/woff2"@,
        seq_ends_with(path, ".woff"@) ==> content_type_of(path) == "font/woff"@,
        seq_ends_with(path, ".ttf"@) ==> content_type_of(path) == "font/ttf"@,
        !seq_ends_with(path, ".html"@) && !seq_ends_with(path, ".css"@) && !seq_ends_with(
            path,
            ".js"@,
        ) && !seq_ends_with(path, ".json"@) && !seq_ends_with(path, ".png"@) && !seq_ends_with(
            path,
            ".jpg"@,
        ) && !seq_ends_with(path, ".jpeg"@) && !seq_ends_with(path, ".svg"@) && !seq_ends_with(
            path,
            ".ico"@,
        ) && !seq_ends_with(path, ".woff2"@) && !seq_ends_with(path, ".woff"@) && !seq_ends_with(
            path,
            ".ttf"@,
        ) ==> content_type_of(path) == "application/octet-stream"@,
{
    reveal_strlit(".html");
    reveal_strlit(".css");
    reveal_strlit(".js");
    reveal_strlit(".json");
    reveal_strlit(".png");
    reveal_strlit(".jpg");
    reveal_strlit(".jpeg");
    reveal_strlit(".svg");
    reveal_strlit(".ico");
    reveal_strlit(".woff2");
    reveal_strlit(".woff");
    reveal_strlit(".ttf");
    if seq_ends_with(path, ".html"@) {
        lemma_ends_with_last_two(path, ".html"@);
    }
    if seq_ends_with(path, ".css"@) {
        lemma_ends_with_last_two(path, ".css"@);
    }
    if seq_ends_with(path, ".js"@) {
        lemma_ends_with_last_two(path, ".js"@);
    }
    if seq_ends_with(path, ".json"@) {
        lemma_ends_with_last_two(path, ".json"@);
    }
    if seq_ends_with(path, ".png"@) {
        lemma_ends_with_last_two(path, ".png"@);
    }
    if seq_ends_with(path, ".jpg"@) {
        lemma_ends_with_last_two(path, ".jpg"@);
    }
    if seq_ends_with(path, ".jpeg"@) {
        lemma_ends_with_last_two(path, ".jpeg"@);
    }
    if seq_ends_with(path, ".svg"@) {
        lemma_ends_with_last_two(path, ".svg"@);
    }
    if seq_ends_with(path, ".ico"@) {
        lemma_ends_with_last_two(path, ".ico"@);
    }
    if seq_ends_with(path, ".woff2"@) {
        lemma_ends_with_last_two(path, ".woff2"@);
    }
    if seq_ends_with(path, ".woff"@) {
        lemma_ends_with_last_two(path, ".woff"@);
    }
    if seq_ends_with(path, ".ttf"@) {
        lemma_ends_with_last_two(path, ".ttf"@);
    }
}

/// A request path is refused exactly for a `..`, a NUL character, or one of
/// the percent-encoded traversals `%2e%2e`, `%2e.`, `.%2e` in its lowercase
/// form; every other path is accepted.
pub proof fn lemma_path_refusal_reasons(uri: Seq<char>)
    ensures
        path_rejected(uri) <==> (seq_contains(uri, ".."@) || uri.contains('\0') || seq_contains(
            lowercase_of(uri),
            "%2e%2e"@,
        ) || seq_contains(lowercase_of(uri), "%2e."@) || seq_contains(lowercase_of(uri), ".%2e"@)),
{
}

/// The password must be empty or hold 8 to 63 bytes, and the SSID 1 to 32
/// bytes; the verdict names the first rule broken.
pub proof fn lemma_credential_bounds(ssid: Seq<char>, password: Seq<char>)
    ensures
        0 < utf8_len(password) < 8 ==> !wifi_credentials_valid(ssid, password),
        utf8_len(password) > 63 ==> !wifi_credentials_valid(ssid, password),
        utf8_len(ssid) == 0 ==> credentials_verdict(ssid, password) == Err::<(), &str>(
            "SSID cannot be empty",
        ),
        utf8_len(ssid) > 32 ==> credentials_verdict(ssid, password) == Err::<(), &str>(
            "SSID must be 32 characters or fewer",
        ),
        1 <= utf8_len(ssid) <= 32 && (0 < utf8_len(password) < 8 || utf8_len(password) > 63)
            ==> credentials_verdict(ssid, password) == Err::<(), &str>(
            "Password must be 8-63 characters",
        ),
        1 <= utf8_len(ssid) <= 32 && (utf8_len(password) == 0 || 8 <= utf8_len(password) <= 63)
            ==> credentials_verdict(ssid, password) == Ok::<(), &str>(()),
{
    lemma_empty_iff_no_bytes(ssid);
    lemma_empty_iff_no_bytes(password);
}

/// A character sequence is empty exactly when its UTF-8 encoding is.
pub proof fn lemma_empty_iff_no_bytes(s: Seq<char>)
    ensures
        s.len() == 0 <==> utf8_len(s) == 0,
{
    if s.len() > 0 {
        assert(encode_utf8(s) == encode_scalar(s[0] as u32) + encode_utf8(s.drop_first()));
        assert(encode_scalar(s[0] as u32).len() > 0);
    } else {
        assert(encode_utf8(s) =~= Seq::<u8>::empty());
    }
}

/// An error text that mentions a missing field, an expected token or an
/// invalid type is a malformed request; any other error is reported as a
/// failure to process it.
pub proof fn lemma_error_message_classes(raw: Seq<char>)
    ensures
        seq_contains(raw, "missing field"@) ==> sanitized_message(raw) == "Invalid request format"@,
        seq_contains(raw, "expected"@) ==> sanitized_message(raw) == "Invalid request format"@,
        seq_contains(raw, "invalid type"@) ==> sanitized_message(raw) == "Invalid request format"@,
        !seq_contains(raw, "missing field"@) && !seq_contains(raw, "expected"@) && !seq_contains(
            raw,
            "invalid type"@,
        ) ==> sanitized_message(raw) == "Request processing failed"@,
{
}

} // verus!
