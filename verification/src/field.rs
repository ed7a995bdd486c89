//! The grammar of header fields, and ntex's header types.
//!
//! ntex decides which texts are header names and header values, and it owns
//! the header collection of a response. This module states what ntex
//! decides and carries its values through. The three functions at its end
//! call ntex, and what is said of them is taken from ntex's source, not
//! proved: everything else in the library is proved from it.

use crate::header::Line;
use ntex::http::header::HeaderName;
use ntex::http::header::HeaderValue;
use ntex::http::header::InvalidHeaderName;
use ntex::http::header::InvalidHeaderValue;
use ntex::http::HeaderMap;
use vstd::prelude::*;

verus! {

/// ntex's header name: a validated, lower-cased field name.
#[verifier::external_type_specification]
#[verifier::external_body]
pub struct ExHeaderName(HeaderName);

/// ntex's header value: validated bytes.
#[verifier::external_type_specification]
#[verifier::external_body]
pub struct ExHeaderValue(HeaderValue);

/// The error with which ntex refuses a header name.
#[verifier::external_type_specification]
#[verifier::external_body]
pub struct ExInvalidHeaderName(InvalidHeaderName);

/// The error with which ntex refuses a header value.
#[verifier::external_type_specification]
#[verifier::external_body]
pub struct ExInvalidHeaderValue(InvalidHeaderValue);

/// ntex's header collection: a multimap from header names to values.
#[verifier::external_type_specification]
#[verifier::external_body]
pub struct ExHeaderMap(HeaderMap);

/// The longest header name, in bytes.
pub const MAX_FIELD_NAME_LEN: usize = 65535;

/// Whether `c` may stand in a header name: a letter, a digit, or one of
/// ``! # $ % & ' * + - . ^ _ ` | ~``.
pub open spec fn is_token_char(c: char) -> bool {
    ||| 'a' <= c <= 'z'
    ||| 'A' <= c <= 'Z'
    ||| '0' <= c <= '9'
    ||| c == '!'
    ||| c == '#'
    ||| c == '$'
    ||| c == '%'
    ||| c == '&'
    ||| c == '\''
    ||| c == '*'
    ||| c == '+'
    ||| c == '-'
    ||| c == '.'
    ||| c == '^'
    ||| c == '_'
    ||| c == '`'
    ||| c == '|'
    ||| c == '~'
}

/// Whether `name` is a header name: between one and `MAX_FIELD_NAME_LEN`
/// characters, each of them a token character.
///
/// Token characters are ASCII, so such a name has as many bytes as it has
/// characters.
pub open spec fn is_field_name(name: Seq<char>) -> bool {
    &&& 1 <= name.len() <= MAX_FIELD_NAME_LEN
    &&& forall|i: int| 0 <= i < name.len() ==> is_token_char(#[trigger] name[i])
}

/// Whether `c` may stand in a header value: a tab, or any character from
/// the space upwards but the delete character.
///
/// A value is judged byte by byte: a byte may be a tab or anything from 32
/// upwards but 127. The bytes of a character beyond ASCII all lie above
/// 127, so every such character passes.
pub open spec fn is_value_char(c: char) -> bool {
    c == '\t' || (' ' <= c && c != '\x7f')
}

/// Whether `value` is a header value: every character is a value character.
pub open spec fn is_field_value(value: Seq<char>) -> bool {
    forall|i: int| 0 <= i < value.len() ==> is_value_char(#[trigger] value[i])
}

/// Whether both parts of a line are what ntex accepts.
pub open spec fn is_field_line(line: Line) -> bool {
    is_field_name(line.0) && is_field_value(line.1)
}

/// `c` in lower case, if it is an ASCII capital; else `c`.
pub open spec fn lower(c: char) -> char {
    if 'A' <= c <= 'Z' {
        ((c as u8) + 32) as u8 as char
    } else {
        c
    }
}

/// The key under which a header collection files a name: the name in lower
/// case.
pub open spec fn field_key(name: Seq<char>) -> Seq<char> {
    name.map_values(|c: char| lower(c))
}

/// The header name that ntex makes of a text that is a header name.
pub uninterp spec fn parsed_name(text: Seq<char>) -> HeaderName;

/// The header value that ntex makes of a text that is a header value.
pub uninterp spec fn parsed_value(text: Seq<char>) -> HeaderValue;

/// What a header collection holds: for each key (a header name in lower
/// case) the values filed under it, as bytes, in the order of arrival.
pub uninterp spec fn header_map_fields(map: HeaderMap) -> Map<Seq<char>, Seq<Seq<u8>>>;

/// The fields of a header collection: for each key the values under it.
pub type Fields = Map<Seq<char>, Seq<Seq<u8>>>;

/// The values filed under `key`; none if the key is absent.
pub open spec fn values_of(fields: Fields, key: Seq<char>) -> Seq<Seq<u8>> {
    if fields.dom().contains(key) {
        fields[key]
    } else {
        Seq::empty()
    }
}

/// `fields` after `line` was appended: the value's bytes stand last among
/// the values under the name's key, and nothing else has changed.
pub open spec fn appended(fields: Fields, line: Line) -> Fields {
    let key = field_key(line.0);
    fields.insert(key, values_of(fields, key).push(vstd::utf8::encode_utf8(line.1)))
}

/// A header line that ntex has accepted, ready to be appended to a header
/// collection.
pub struct HeaderField {
    name: HeaderName,
    value: HeaderValue,
    line: Ghost<Line>,
}

impl HeaderField {
    /// The line as it was rendered.
    pub closed spec fn line(&self) -> Line {
        self.line@
    }

    /// The name and the value are what ntex made of the line's two texts.
    #[verifier::type_invariant]
    pub closed spec fn well_formed(&self) -> bool {
        &&& is_field_line(self.line@)
        &&& self.name == parsed_name(self.line@.0)
        &&& self.value == parsed_value(self.line@.1)
    }

    /// Has ntex parse the two texts of a rendered line. A refused name is
    /// reported before a refused value.
    pub fn parse(name: &str, value: &str) -> (parsed: Result<Self, LineFault>)
        ensures
            match parsed {
                Ok(field) => is_field_line((name@, value@)) && field.line() == (name@, value@),
                Err(LineFault::Name) => !is_field_name(name@),
                Err(LineFault::Value) => is_field_name(name@) && !is_field_value(value@),
            },
    {
        match parse_name(name) {
            Err(_) => Err(LineFault::Name),
            Ok(field_name) => match parse_value(value) {
                Err(_) => Err(LineFault::Value),
                Ok(field_value) => Ok(
                    HeaderField {
                        name: field_name,
                        value: field_value,
                        line: Ghost((name@, value@)),
                    },
                ),
            },
        }
    }

    /// Appends the field to a header collection. Values that the collection
    /// already holds under the same name stay, in front of the new one.
    pub fn append_to(&self, headers: &mut HeaderMap)
        ensures
            header_map_fields(*final(headers)) == appended(
                header_map_fields(*old(headers)),
                self.line(),
            ),
    {
        proof {
            use_type_invariant(self);
        }
        append_field(headers, self)
    }
}

/// The part of a line that ntex refused.
#[derive(Clone, Copy, Debug, PartialEq, Eq, Structural)]
pub enum LineFault {
    /// The name is no header name.
    Name,
    /// The value is no header value.
    Value,
}

/// Calls `HeaderName::try_from` on a string slice.
///
/// Taken on trust: the call succeeds exactly on the texts that
/// `is_field_name` describes (one to 65535 bytes, each a token character),
/// and a text always gives the same name.
#[verifier::external_body]
fn parse_name(text: &str) -> (parsed: Result<HeaderName, InvalidHeaderName>)
    ensures
        parsed is Ok <==> is_field_name(text@),
        parsed matches Ok(name) ==> name == parsed_name(text@),
{
    HeaderName::try_from(text)
}

/// Calls `HeaderValue::from_str`.
///
/// Taken on trust: the call succeeds exactly on the texts that
/// `is_field_value` describes (every byte a tab, or at least 32 and not
/// 127), and a text always gives the same value.
#[verifier::external_body]
fn parse_value(text: &str) -> (parsed: Result<HeaderValue, InvalidHeaderValue>)
    ensures
        parsed is Ok <==> is_field_value(text@),
        parsed matches Ok(value) ==> value == parsed_value(text@),
{
    HeaderValue::from_str(text)
}

/// Calls `HeaderMap::append` with clones of the field's name and value.
///
/// Taken on trust: a header name reads as the text it was parsed from, in
/// lower case, and a header value holds the bytes of the text it was parsed
/// from; `append` pushes the value behind the values that the collection
/// holds under the name, or files it as the first one, and leaves every
/// other name alone.
#[verifier::external_body]
fn append_field(headers: &mut HeaderMap, field: &HeaderField)
    requires
        field.well_formed(),
    ensures
        header_map_fields(*final(headers)) == appended(
            header_map_fields(*old(headers)),
            field.line(),
        ),
{
    headers.append(field.name.clone(), field.value.clone());
}

} // verus!
