//! JSON documents as upstream services send them.
//!
//! Parsing and the document tree are the `rustc_serialize` crate's. This
//! module says what each call that the library makes returns, over one
//! description of what a JSON value holds.

use rustc_serialize::json::Json;
use vstd::prelude::*;
use vstd::utf8::encode_utf8;

verus! {

/// `rustc_serialize::json::Json`, a JSON value. The verifier sees nothing
/// inside it; `content` says what it holds.
#[verifier::external_type_specification]
#[verifier::external_body]
pub struct ExJson(Json);

/// What a JSON value holds.
pub enum JsonContent {
    /// `null`.
    Null,
    /// `true` or `false`.
    Flag,
    /// A number. The field holds its value where the document stores the
    /// number as an integer and it is not negative.
    Number(Option<u64>),
    /// A string.
    Text(Seq<char>),
    /// An array, with its elements in order.
    List(Seq<Json>),
    /// An object, with the value of each key.
    Object(Map<Seq<char>, Json>),
}

/// What `json` holds.
pub uninterp spec fn content(json: Json) -> JsonContent;

/// The document that `text` is the JSON notation of, or, where `text` is not
/// valid JSON, how the parser's error prints.
pub uninterp spec fn parsed(text: Seq<char>) -> Result<Json, Seq<char>>;

/// The value of `key` in `json`, where `json` is an object that has the key.
pub open spec fn member(json: Json, key: Seq<char>) -> Option<Json> {
    match content(json) {
        JsonContent::Object(members) => if members.contains_key(key) {
            Some(members[key])
        } else {
            None
        },
        _ => None,
    }
}

/// The string that `json` is, where it is one.
pub open spec fn as_text(json: Json) -> Option<Seq<char>> {
    match content(json) {
        JsonContent::Text(text) => Some(text),
        _ => None,
    }
}

/// The elements of `json`, where it is an array.
pub open spec fn as_list(json: Json) -> Option<Seq<Json>> {
    match content(json) {
        JsonContent::List(items) => Some(items),
        _ => None,
    }
}

/// The value of `json`, where it is a number stored as an integer and not
/// negative.
pub open spec fn as_whole(json: Json) -> Option<u64> {
    match content(json) {
        JsonContent::Number(whole) => whole,
        _ => None,
    }
}

/// The most bytes that a text may have, in UTF-8, to be handed to the
/// parser.
pub const MAX_BYTES: usize = 65535;

/// The most arrays and objects that may be open at once in such a text.
pub const MAX_DEPTH: u64 = 128;

/// The most digits that an exponent may have in such a text.
pub const MAX_EXPONENT_DIGITS: i64 = 9;

/// Where a reader of JSON stands after some characters of a text.
pub struct Scan {
    /// Whether a string is open.
    pub in_string: bool,
    /// Whether the last character was a backslash that escapes the next.
    pub escaped: bool,
    /// How many arrays and objects are open.
    pub depth: int,
    /// How many digits of an exponent have been read, or -1 where no
    /// exponent is being read.
    pub exponent: int,
    /// Whether the last character outside a string that is no white space
    /// was a comma.
    pub after_comma: bool,
}

/// Where a reader stands before the first character.
pub open spec fn scan_start() -> Scan {
    Scan { in_string: false, escaped: false, depth: 0, exponent: -1, after_comma: false }
}

/// Whether the parser passes over `c` between values.
pub open spec fn white_space(c: char) -> bool {
    c == ' ' || c == '\n' || c == '\t' || c == '\r'
}

/// Where a reader stands after one more character, `c`.
///
/// In a string only the backslash, which escapes the next character, and
/// the quote that ends the string count. Outside, a quote opens a string, a
/// bracket opens or closes an array or object, and an exponent is made of an
/// `e` or `E`, the signs that follow it and the digits after those.
pub open spec fn scan_step(before: Scan, c: char) -> Scan {
    if before.in_string {
        Scan {
            in_string: before.escaped || c != '"',
            escaped: !before.escaped && c == '\\',
            depth: before.depth,
            exponent: -1,
            after_comma: false,
        }
    } else {
        let depth = if c == '[' || c == '{' {
            before.depth + 1
        } else if (c == ']' || c == '}') && before.depth > 0 {
            before.depth - 1
        } else {
            before.depth
        };
        let exponent = if c == 'e' || c == 'E' {
            0
        } else if (c == '+' || c == '-') && before.exponent == 0 {
            0
        } else if '0' <= c && c <= '9' && before.exponent >= 0 {
            before.exponent + 1
        } else {
            -1
        };
        let after_comma = c == ',' || (before.after_comma && white_space(c));
        Scan { in_string: c == '"', escaped: false, depth, exponent, after_comma }
    }
}

/// Where a reader stands after the first `n` characters of `s`.
pub open spec fn scan(s: Seq<char>, n: int) -> Scan
    decreases n,
{
    if n <= 0 {
        scan_start()
    } else {
        scan_step(scan(s, n - 1), s[n - 1])
    }
}

/// Whether character number `n` of `s` is a brace that closes an object
/// right after a comma.
pub open spec fn closes_after_comma(s: Seq<char>, n: int) -> bool {
    s[n] == '}' && !scan(s, n).in_string && scan(s, n).after_comma
}

/// Whether `s` may be handed to the parser. The parser
/// - keeps the keys of all open objects in one buffer and holds each key's
///   place and length in 16 bits,
/// - counts the elements of an array in 32 bits,
/// - calls itself once for every array and object that is open,
/// - adds up the digits of an exponent without a check, and
/// - on a brace that closes an object right after a comma, forgets where in
///   the document it is, and may stop on the next member.
///
/// A text of at most `MAX_BYTES` bytes keeps the first two within what they
/// can hold, two limits do the same for depth and exponent, and a text with
/// such a brace is left out. As long as the parser has found no error, it
/// stands where `scan` stands.
pub open spec fn readable(s: Seq<char>) -> bool {
    &&& encode_utf8(s).len() <= MAX_BYTES
    &&& forall|n: int| 0 <= n < s.len() ==> !#[trigger] closes_after_comma(s, n)
    &&& forall|n: int| 0 <= n <= s.len() ==> (#[trigger] scan(s, n)).depth <= MAX_DEPTH
    &&& forall|n: int| 0 <= n <= s.len() ==> (#[trigger] scan(s, n)).exponent <= MAX_EXPONENT_DIGITS
}

/// Tests whether a text may be handed to the parser.
pub fn is_readable(text: &str) -> (ok: bool)
    ensures
        ok == readable(text@),
{
    if text.as_bytes().len() > MAX_BYTES {
        return false;
    }
    let mut in_string = false;
    let mut escaped = false;
    let mut depth: u64 = 0;
    let mut exponent: i64 = -1;
    let mut after_comma = false;
    for c in it: text.chars()
        invariant
            it.seq() == text@,
            encode_utf8(text@).len() <= MAX_BYTES,
            scan(text@, it.index() as int) == (Scan {
                in_string,
                escaped,
                depth: depth as int,
                exponent: exponent as int,
                after_comma,
            }),
            -1 <= exponent,
            forall|n: int| 0 <= n < it.index() ==> !#[trigger] closes_after_comma(text@, n),
            forall|n: int| 0 <= n <= it.index() ==> (#[trigger] scan(text@, n)).depth <= MAX_DEPTH,
            forall|n: int|
                0 <= n <= it.index() ==> (#[trigger] scan(text@, n)).exponent
                    <= MAX_EXPONENT_DIGITS,
    {
        let ghost next = it.index() as int + 1;
        if in_string {
            if escaped {
                escaped = false;
            } else if c == '\\' {
                escaped = true;
            } else if c == '"' {
                in_string = false;
            }
        } else {
            if c == '}' && after_comma {
                assert(closes_after_comma(text@, next - 1));
                return false;
            }
            after_comma = c == ',' || (after_comma && (c == ' ' || c == '\n' || c == '\t' || c
                == '\r'));
            if c == '[' || c == '{' {
                if depth == MAX_DEPTH {
                    assert(scan(text@, next).depth > MAX_DEPTH);
                    return false;
                }
                depth = depth + 1;
            } else if (c == ']' || c == '}') && depth > 0 {
                depth = depth - 1;
            }
            if c == 'e' || c == 'E' {
                exponent = 0;
            } else if (c == '+' || c == '-') && exponent == 0 {
            } else if c >= '0' && c <= '9' && exponent >= 0 {
                if exponent == MAX_EXPONENT_DIGITS {
                    assert(scan(text@, next).exponent > MAX_EXPONENT_DIGITS);
                    return false;
                }
                exponent = exponent + 1;
            } else {
                exponent = -1;
            }
            if c == '"' {
                in_string = true;
            }
        }
        assert(scan(text@, next) == (Scan {
            in_string,
            escaped,
            depth: depth as int,
            exponent: exponent as int,
            after_comma,
        }));
    }
    true
}

/// Calls `Json::from_str`. A parser error is handed on as the text that its
/// `Display` prints. The contract gives both outcomes their name and claims
/// nothing else of the parser. Texts that are not `readable` are left out:
/// on them the parser can overflow a counter, lose a key's place, or run out
/// of stack.
#[verifier::external_body]
pub(crate) fn parse(text: &str) -> (r: Result<Json, String>)
    requires
        readable(text@),
    ensures
        match r {
            Ok(document) => parsed(text@) == Ok::<Json, Seq<char>>(document),
            Err(message) => parsed(text@) == Err::<Json, Seq<char>>(message@),
        },
{
    match Json::from_str(text) {
        Ok(document) => Ok(document),
        Err(error) => Err(format!("{}", error)),
    }
}

/// Calls `Json::find`: the value of `key` where `json` is an object that has
/// the key, else `None`.
#[verifier::external_body]
pub(crate) fn find<'a>(json: &'a Json, key: &str) -> (found: Option<&'a Json>)
    ensures
        found is Some <==> member(*json, key@) is Some,
        found matches Some(value) ==> member(*json, key@) == Some(*value),
{
    json.find(key)
}

/// Calls `Json::as_string`: the string where `json` is one, else `None`.
#[verifier::external_body]
pub(crate) fn string_of<'a>(json: &'a Json) -> (found: Option<&'a str>)
    ensures
        found is Some <==> as_text(*json) is Some,
        found matches Some(text) ==> as_text(*json) == Some(text@),
{
    json.as_string()
}

/// Calls `Json::as_array`: the elements where `json` is an array, else
/// `None`.
#[verifier::external_body]
pub(crate) fn array_of<'a>(json: &'a Json) -> (found: Option<&'a Vec<Json>>)
    ensures
        found is Some <==> as_list(*json) is Some,
        found matches Some(items) ==> as_list(*json) == Some(items@),
{
    json.as_array()
}

/// Calls `Json::as_u64`: the value where `json` is a number stored as an
/// integer and not negative, else `None`.
#[verifier::external_body]
pub(crate) fn whole_of(json: &Json) -> (found: Option<u64>)
    ensures
        found == as_whole(*json),
{
    json.as_u64()
}

/// Calls `Json::is_number`: whether `json` is a number of any kind.
#[verifier::external_body]
pub(crate) fn is_number(json: &Json) -> (number: bool)
    ensures
        number == (content(*json) is Number),
{
    json.is_number()
}

/// Calls `Json::is_object`: whether `json` is an object.
#[verifier::external_body]
pub(crate) fn is_object(json: &Json) -> (object: bool)
    ensures
        object == (content(*json) is Object),
{
    json.is_object()
}

} // verus!
