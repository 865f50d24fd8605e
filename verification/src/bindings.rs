//! The calls this library makes into `http`, `url`, `uuid`, `tungstenite`
//! and std's formatting, each with the contract the library relies on.

use vstd::prelude::*;
use crate::text::{decimal, digit_char};

verus! {

#[verifier::external_type_specification]
#[verifier::external_body]
pub struct ExInvalidHeaderValue(http::header::InvalidHeaderValue);

/// A character that `http` accepts inside a header value: a tab, or any
/// character from the space on except DEL. (Characters beyond ASCII are
/// written as bytes from 0x80 on, all of which are accepted.)
pub open spec fn header_char_ok(c: char) -> bool {
    c == '\t' || (c as u32 >= 32 && c as u32 != 127)
}

/// A text that `http` accepts as a header value.
pub open spec fn header_value_ok(s: Seq<char>) -> bool {
    forall|i: int| 0 <= i < s.len() ==> #[trigger] header_char_ok(s[i])
}

/// Calls `http::HeaderValue::from_str`. Its source accepts a text exactly
/// when every byte is a tab, or at least 32 and other than 127; the contract
/// states that rule over the characters of the text.
#[verifier::external_body]
pub(crate) fn check_header_value(s: &str) -> (res: Result<(), http::header::InvalidHeaderValue>)
    ensures
        res is Ok <==> header_value_ok(s@),
{
    match http::HeaderValue::from_str(s) {
        Ok(_) => Ok(()),
        Err(e) => Err(e),
    }
}

/// Calls `Display` of `http::header::InvalidHeaderValue`, which always
/// writes "failed to parse header value".
#[verifier::external_body]
pub(crate) fn invalid_header_value_text(e: &http::header::InvalidHeaderValue) -> (res: String)
    ensures
        res@ == "failed to parse header value"@,
{
    e.to_string()
}

/// Calls `http::StatusCode::from_u16` and `is_success`: a code is a success
/// exactly from 200 to 299 (codes that `from_u16` refuses, below 100 and from
/// 1000 on, are no success either).
#[verifier::external_body]
pub(crate) fn status_is_success(code: u16) -> (res: bool)
    ensures
        res == (200 <= code && code < 300),
{
    match http::StatusCode::from_u16(code) {
        Ok(status) => status.is_success(),
        Err(_) => false,
    }
}

/// The reason phrase `http` gives a status code: its canonical reason, or
/// "<unknown status code>" for a code that has none.
pub uninterp spec fn status_reason(code: u16) -> Seq<char>;

/// What `Display` of `http::StatusCode` writes for a code: the number in
/// decimal, a space and the reason phrase.
pub open spec fn status_code_display(code: u16) -> Seq<char> {
    decimal(code as nat) + " "@ + status_reason(code)
}

/// Calls `http::StatusCode::from_u16` and `Display` on the status, which
/// writes the number, a space and the canonical reason (or
/// "<unknown status code>"); the reason is named by `status_reason`.
#[verifier::external_body]
pub(crate) fn status_text(code: u16) -> (res: String)
    requires
        100 <= code <= 999,
    ensures
        res@ == decimal(code as nat) + " "@ + status_reason(code),
{
    match http::StatusCode::from_u16(code) {
        Ok(status) => status.to_string(),
        Err(e) => e.to_string(),
    }
}

/// What `http` makes of a URI text: its host and port, or the text of the
/// parse error.
pub uninterp spec fn uri_authority(uri: Seq<char>) -> Result<(Option<Seq<char>>, Option<u16>), Seq<char>>;

/// The plain view of what `parse_uri_authority` returns.
pub open spec fn authority_view(r: Result<(Option<String>, Option<u16>), String>) -> Result<(Option<Seq<char>>, Option<u16>), Seq<char>> {
    match r {
        Ok((host, port)) => Ok((
            match host {
                Some(h) => Some(h@),
                None => None,
            },
            port,
        )),
        Err(e) => Err(e@),
    }
}

/// Characters from '!' to '~': printable ASCII other than the space.
pub open spec fn visible_ascii(s: Seq<char>) -> bool {
    forall|i: int| 0 <= i < s.len() ==> 33 <= #[trigger] s[i] as u32 && s[i] as u32 <= 126
}

/// Parses a URI with `http::Uri`'s `FromStr` and takes its `host` and
/// `port_u16`, or the `Display` text of the parse error; the outcome is
/// named by `uri_authority`. The authority parser of `http` admits only
/// bytes of its URI character table and '%', all printable ASCII other than
/// the space, so a host it gives is made of such characters.
#[verifier::external_body]
pub(crate) fn parse_uri_authority(uri: &str) -> (res: Result<(Option<String>, Option<u16>), String>)
    ensures
        authority_view(res) == uri_authority(uri@),
        res matches Ok((Some(h), _)) ==> visible_ascii(h@),
{
    match uri.parse::<http::Uri>() {
        Ok(u) => Ok((u.host().map(str::to_string), u.port_u16())),
        Err(e) => Err(e.to_string()),
    }
}

/// The serialization of the URL that `url` gets by resolving `input`
/// against `base`, or none when either does not parse.
pub uninterp spec fn url_joined(base: Seq<char>, input: Seq<char>) -> Option<Seq<char>>;

/// The plain view of an optional text.
pub open spec fn opt_text(o: Option<String>) -> Option<Seq<char>> {
    match o {
        Some(s) => Some(s@),
        None => None,
    }
}

/// Calls `url::Url::parse` on `base` and `Url::join` with `input`, and gives
/// the serialization of the result; the outcome is named by `url_joined`.
#[verifier::external_body]
pub(crate) fn join_url(base: &str, input: &str) -> (res: Option<String>)
    ensures
        opt_text(res) == url_joined(base@, input@),
{
    match url::Url::parse(base) {
        Ok(b) => match b.join(input) {
            Ok(u) => Some(String::from(u)),
            Err(_) => None,
        },
        Err(_) => None,
    }
}

/// A lower-case hexadecimal digit.
pub open spec fn hex_char(d: int) -> char {
    if d < 10 {
        digit_char(d)
    } else if d == 10 {
        'a'
    } else if d == 11 {
        'b'
    } else if d == 12 {
        'c'
    } else if d == 13 {
        'd'
    } else if d == 14 {
        'e'
    } else {
        'f'
    }
}

/// The last `n` hexadecimal digits of `v`, most significant first.
pub open spec fn hex_digits(v: nat, n: nat) -> Seq<char>
    decreases n,
{
    if n == 0 {
        Seq::empty()
    } else {
        hex_digits(v / 16, (n - 1) as nat).push(hex_char((v % 16) as int))
    }
}

/// The hyphenated lower-case form of a UUID given by its 128-bit value:
/// 32 hexadecimal digits, most significant first, grouped 8-4-4-4-12.
pub open spec fn uuid_hyphenated(v: u128) -> Seq<char> {
    let h = hex_digits(v as nat, 32);
    h.subrange(0, 8) + seq!['-'] + h.subrange(8, 12) + seq!['-'] + h.subrange(12, 16)
        + seq!['-'] + h.subrange(16, 20) + seq!['-'] + h.subrange(20, 32)
}

/// Calls `uuid::Uuid::from_u128` and `Display` on the UUID, which writes
/// the hyphenated lower-case form (`Debug` writes the same).
#[verifier::external_body]
pub(crate) fn uuid_text(v: u128) -> (res: String)
    ensures
        res@ == uuid_hyphenated(v),
{
    uuid::Uuid::from_u128(v).to_string()
}

/// A digit of the standard base64 alphabet: A-Z, a-z, 0-9, '+' and '/'.
pub open spec fn base64_digit(c: char) -> bool {
    ||| (c as u32 >= 65 && c as u32 <= 90)
    ||| (c as u32 >= 97 && c as u32 <= 122)
    ||| (c as u32 >= 48 && c as u32 <= 57)
    ||| c == '+'
    ||| c == '/'
}

/// A websocket handshake key as `tungstenite` makes one: 16 random bytes in
/// padded base64. That is 22 digits and "=="; the 22nd digit carries the
/// last 2 bits followed by 4 zero bits, so it is one of 'A', 'Q', 'g', 'w'.
pub open spec fn ws_key_shape(k: Seq<char>) -> bool {
    &&& k.len() == 24
    &&& forall|i: int| 0 <= i < 22 ==> #[trigger] base64_digit(k[i])
    &&& (k[21] == 'A' || k[21] == 'Q' || k[21] == 'g' || k[21] == 'w')
    &&& k[22] == '='
    &&& k[23] == '='
}

/// Calls `tungstenite::handshake::client::generate_key`, which encodes 16
/// bytes from `rand::random` with `data_encoding::BASE64`. The bytes are
/// random; the contract states the form of their encoding, which holds of
/// every outcome.
#[verifier::external_body]
pub(crate) fn generate_ws_key() -> (res: String)
    ensures
        ws_key_shape(res@),
{
    tokio_tungstenite::tungstenite::handshake::client::generate_key()
}

/// What `Debug` of `str` writes for a text: the text in double quotes, with
/// quotes, backslashes and unprintable characters escaped.
pub uninterp spec fn str_debug_text(s: Seq<char>) -> Seq<char>;

/// Formats a text with `Debug` of `str`; the result is named by
/// `str_debug_text`.
#[verifier::external_body]
pub(crate) fn str_debug(s: &str) -> (res: String)
    ensures
        res@ == str_debug_text(s@),
{
    format!("{:?}", s)
}

} // verus!
