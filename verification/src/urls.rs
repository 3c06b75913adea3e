//! What the URL crates give the browser: percent-encoding of query text
//! (`urlencoding::encode`) and the scheme and host that `url::Url::parse`
//! reads from an address.

use vstd::prelude::*;
use vstd::utf8::{decode_utf8, encode_utf8, encode_utf8_decode_utf8};
use crate::text::scheme_part;

verus! {

/// Bytes that percent-encoding leaves as they are: ASCII letters, digits,
/// `-`, `.`, `_` and `~`.
pub open spec fn is_unreserved(b: u8) -> bool {
    ||| 0x30 <= b <= 0x39
    ||| 0x41 <= b <= 0x5a
    ||| 0x61 <= b <= 0x7a
    ||| b == 0x2d
    ||| b == 0x2e
    ||| b == 0x5f
    ||| b == 0x7e
}

/// The upper-case hexadecimal digit for `d < 16`.
pub open spec fn hex_upper(d: int) -> char {
    if d == 0 { '0' }
    else if d == 1 { '1' }
    else if d == 2 { '2' }
    else if d == 3 { '3' }
    else if d == 4 { '4' }
    else if d == 5 { '5' }
    else if d == 6 { '6' }
    else if d == 7 { '7' }
    else if d == 8 { '8' }
    else if d == 9 { '9' }
    else if d == 10 { 'A' }
    else if d == 11 { 'B' }
    else if d == 12 { 'C' }
    else if d == 13 { 'D' }
    else if d == 14 { 'E' }
    else { 'F' }
}

/// One byte, percent-encoded: itself when unreserved, else `%` and two
/// upper-case hex digits.
pub open spec fn encode_byte(b: u8) -> Seq<char> {
    if is_unreserved(b) {
        seq![b as char]
    } else {
        seq!['%', hex_upper(b as int / 16), hex_upper(b as int % 16)]
    }
}

/// A byte sequence, percent-encoded byte by byte.
pub open spec fn percent_encode(bytes: Seq<u8>) -> Seq<char>
    decreases bytes.len(),
{
    if bytes.len() == 0 {
        Seq::empty()
    } else {
        encode_byte(bytes[0]) + percent_encode(bytes.drop_first())
    }
}

/// The percent-encoding of the UTF-8 bytes of `s`.
pub open spec fn url_encoded(s: Seq<char>) -> Seq<char> {
    percent_encode(encode_utf8(s))
}

/// `c` can appear in percent-encoded text: an unreserved ASCII character or `%`.
pub open spec fn is_encoded_char(c: char) -> bool {
    ||| 0x30 <= c as u32 <= 0x39
    ||| 0x41 <= c as u32 <= 0x5a
    ||| 0x61 <= c as u32 <= 0x7a
    ||| c == '-'
    ||| c == '.'
    ||| c == '_'
    ||| c == '~'
    ||| c == '%'
}

/// The value of an upper-case hexadecimal digit (0 for any other character).
pub open spec fn hex_value(c: char) -> int {
    if 0x30 <= c as u32 <= 0x39 {
        c as u32 - 0x30
    } else if 0x41 <= c as u32 <= 0x46 {
        c as u32 - 0x37
    } else {
        0
    }
}

/// Percent-encoded text read back into bytes: `%` and two hex digits give
/// one byte, any other character gives its own code.
pub open spec fn percent_decode(s: Seq<char>) -> Seq<u8>
    decreases s.len(),
{
    if s.len() == 0 {
        Seq::empty()
    } else if s[0] == '%' && s.len() >= 3 {
        seq![(hex_value(s[1]) * 16 + hex_value(s[2])) as u8] + percent_decode(s.skip(3))
    } else {
        seq![s[0] as u32 as u8] + percent_decode(s.skip(1))
    }
}

proof fn lemma_hex_digit(d: int)
    requires
        0 <= d < 16,
    ensures
        hex_value(hex_upper(d)) == d,
        is_encoded_char(hex_upper(d)),
{
}

proof fn lemma_unreserved_char(b: u8)
    requires
        is_unreserved(b),
    ensures
        (b as char) as u32 == b as u32,
        b as char != '%',
        is_encoded_char(b as char),
{
}

/// Percent-encoding writes only unreserved ASCII characters and `%`.
pub proof fn lemma_encoded_chars(bytes: Seq<u8>)
    ensures
        forall|j: int| 0 <= j < percent_encode(bytes).len() ==> is_encoded_char(#[trigger] percent_encode(bytes)[j]),
    decreases bytes.len(),
{
    if bytes.len() > 0 {
        let b = bytes[0];
        lemma_encoded_chars(bytes.drop_first());
        if is_unreserved(b) {
            lemma_unreserved_char(b);
        } else {
            lemma_hex_digit(b as int / 16);
            lemma_hex_digit(b as int % 16);
        }
        let e = encode_byte(b);
        let rest = percent_encode(bytes.drop_first());
        assert forall|j: int| 0 <= j < percent_encode(bytes).len() implies is_encoded_char(
            #[trigger] percent_encode(bytes)[j],
        ) by {
            if j < e.len() {
                assert(percent_encode(bytes)[j] == e[j]);
            } else {
                assert(percent_encode(bytes)[j] == rest[j - e.len()]);
            }
        }
    }
}

/// Reading percent-encoded bytes back gives the bytes.
pub proof fn lemma_decode_encode(bytes: Seq<u8>)
    ensures
        percent_decode(percent_encode(bytes)) == bytes,
    decreases bytes.len(),
{
    if bytes.len() > 0 {
        let b = bytes[0];
        let e = encode_byte(b);
        let rest = percent_encode(bytes.drop_first());
        lemma_decode_encode(bytes.drop_first());
        let all = percent_encode(bytes);
        assert(all == e + rest);
        if is_unreserved(b) {
            lemma_unreserved_char(b);
            assert(all[0] == b as char);
            assert(all.skip(1) =~= rest);
        } else {
            lemma_hex_digit(b as int / 16);
            lemma_hex_digit(b as int % 16);
            assert(all[0] == '%');
            assert(all[1] == hex_upper(b as int / 16));
            assert(all[2] == hex_upper(b as int % 16));
            assert(all.skip(3) =~= rest);
        }
        assert(percent_decode(all) =~= bytes);
    }
}

/// The encoding of a query holds only unreserved ASCII characters and `%`,
/// and reading it back as percent-encoded UTF-8 gives the query: no two
/// queries share an encoding.
pub proof fn lemma_query_encoding(q: Seq<char>, other: Seq<char>)
    ensures
        forall|j: int| 0 <= j < url_encoded(q).len() ==> is_encoded_char(#[trigger] url_encoded(q)[j]),
        decode_utf8(percent_decode(url_encoded(q))) == q,
        url_encoded(q) == url_encoded(other) ==> q == other,
{
    lemma_encoded_chars(encode_utf8(q));
    lemma_decode_encode(encode_utf8(q));
    lemma_decode_encode(encode_utf8(other));
    encode_utf8_decode_utf8(q);
    encode_utf8_decode_utf8(other);
}

/// Percent-encodes `s` with `urlencoding::encode`. That function encodes the
/// UTF-8 bytes of its argument one by one, keeping ASCII letters, digits and
/// `-._~` and writing every other byte as `%` and two upper-case hex digits;
/// the contract claims exactly that.
#[verifier::external_body]
pub(crate) fn url_encode(s: &str) -> (r: String)
    ensures
        r@ == url_encoded(s@),
{
    urlencoding::encode(s).into_owned()
}

/// The scheme and host of an absolute URL.
pub struct ParsedUrl {
    pub scheme: String,
    pub host: Option<String>,
}

/// The characters of an optional string.
pub open spec fn opt_chars(o: Option<String>) -> Option<Seq<char>> {
    match o {
        Some(s) => Some(s@),
        None => None,
    }
}

impl View for ParsedUrl {
    type V = (Seq<char>, Option<Seq<char>>);

    open spec fn view(&self) -> (Seq<char>, Option<Seq<char>>) {
        (self.scheme@, opt_chars(self.host))
    }
}

/// The view of an optional parse result.
pub open spec fn opt_parsed(o: Option<ParsedUrl>) -> Option<(Seq<char>, Option<Seq<char>>)> {
    match o {
        Some(p) => Some(p@),
        None => None,
    }
}

/// `c` is an ASCII tab, line feed or carriage return, or an ASCII upper-case
/// letter.
pub open spec fn is_tab_newline_or_upper(c: char) -> bool {
    ||| c == '\t'
    ||| c == '\n'
    ||| c == '\r'
    ||| 0x41 <= c as u32 <= 0x5a
}

/// The URL parser reads the scheme of `s` exactly as written: `s` is empty or
/// begins with a character above U+0020, and the text before its first `':'`
/// holds no tab, newline or upper-case ASCII letter.
pub open spec fn scheme_read_verbatim(s: Seq<char>) -> bool {
    &&& (s.len() == 0 || s[0] as u32 > 0x20)
    &&& forall|j: int| 0 <= j < scheme_part(s).len() ==> !is_tab_newline_or_upper(#[trigger] scheme_part(s)[j])
}

/// What `url::Url::parse` makes of `input`, read through `scheme()` and
/// `host_str()`: `None` where it reports an error.
pub uninterp spec fn url_parse(input: Seq<char>) -> Option<(Seq<char>, Option<Seq<char>>)>;

/// Parses `input` as an absolute URL with `url::Url::parse` and keeps its
/// scheme and host. The contract claims that the result is the parser's, a
/// function of `input` alone, and one fact about the scheme: the parser trims
/// characters up to U+0020 from both ends, skips tabs and newlines, reads
/// scheme characters up to the first `':'` (lower-casing ASCII letters), and,
/// having no base URL, fails unless it read a scheme followed by `':'`; so
/// where nothing is trimmed or skipped and nothing lower-cased, a parsed
/// scheme is the text before the first `':'`. Which inputs parse, and to what
/// host, is left to the `url` crate (the WHATWG URL standard).
#[verifier::external_body]
pub(crate) fn parse_url(input: &str) -> (r: Option<ParsedUrl>)
    ensures
        opt_parsed(r) == url_parse(input@),
        scheme_read_verbatim(input@) ==> (r matches Some(p) ==> p.scheme@ == scheme_part(input@)),
{
    match url::Url::parse(input) {
        Ok(u) => Some(ParsedUrl {
            scheme: u.scheme().to_string(),
            host: match u.host_str() {
                Some(h) => Some(h.to_string()),
                None => None,
            },
        }),
        Err(_) => None,
    }
}

} // verus!
