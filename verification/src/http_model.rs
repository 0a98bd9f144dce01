//! The part of the `http` crate that the library works with, and what is taken
//! on trust about it.
//!
//! Verus does not look into `http`. Each item here states, without proof, what
//! one type or function of that crate holds or does; everything else in the
//! library is proved from these statements.

use http::header::{
    HeaderMap, HeaderName, HeaderValue, InvalidHeaderValue, MaxSizeReached, ToStrError,
};
use vstd::prelude::*;
use vstd::string::StringSliceAdditionalSpecFns;

verus! {

/// `http::header::HeaderMap`: a multimap from header names to values.
#[verifier::external_type_specification]
#[verifier::external_body]
#[verifier::reject_recursive_types(T)]
pub struct ExHeaderMap<T>(HeaderMap<T>);

/// `http::header::HeaderName`: a header name, held in lower case.
#[verifier::external_type_specification]
#[verifier::external_body]
pub struct ExHeaderName(HeaderName);

/// `http::header::HeaderValue`: the bytes of one header value.
#[verifier::external_type_specification]
#[verifier::external_body]
pub struct ExHeaderValue(HeaderValue);

/// `http::header::InvalidHeaderValue`: the error of `HeaderValue::from_str`.
#[verifier::external_type_specification]
#[verifier::external_body]
pub struct ExInvalidHeaderValue(InvalidHeaderValue);

/// `http::header::ToStrError`: the error of `HeaderValue::to_str`.
#[verifier::external_type_specification]
#[verifier::external_body]
pub struct ExToStrError(ToStrError);

/// `http::header::MaxSizeReached`: the error of `HeaderMap::try_insert`.
#[verifier::external_type_specification]
#[verifier::external_body]
pub struct ExMaxSizeReached(MaxSizeReached);

/// What a header map holds: under the text of each name that is present, the
/// values stored for it, first added first, each as its bytes.
pub uninterp spec fn header_values(headers: HeaderMap<HeaderValue>) -> Map<Seq<char>, Seq<Seq<u8>>>;

/// The text of a header name, as `HeaderName::as_str` gives it.
pub uninterp spec fn name_text(name: HeaderName) -> Seq<char>;

/// The bytes of a header value, as `HeaderValue::as_bytes` gives them.
pub uninterp spec fn value_bytes(value: HeaderValue) -> Seq<u8>;

/// A character that `HeaderName::from_static` accepts in a name: a lower-case
/// letter, a digit, or one of the sixteen symbols that its table of
/// lower-case name characters lists.
pub open spec fn is_name_char(c: char) -> bool {
    ||| 'a' <= c <= 'z'
    ||| '0' <= c <= '9'
    ||| c == '!'
    ||| c == '"'
    ||| c == '#'
    ||| c == '$'
    ||| c == '%'
    ||| c == '&'
    ||| c == '\''
    ||| c == '*'
    ||| c == '+'
    ||| c == '-'
    ||| c == '.'
    ||| c == '^'
    ||| c == '_'
    ||| c == '`'
    ||| c == '|'
    ||| c == '~'
}

/// A text that `HeaderName::from_static` accepts: not empty, at most 65535
/// characters, each of them a name character.
pub open spec fn is_static_name(s: Seq<char>) -> bool {
    &&& 1 <= s.len() <= 65535
    &&& forall|i: int| 0 <= i < s.len() ==> is_name_char(#[trigger] s[i])
}

/// A byte that `HeaderValue::from_str` accepts: anything but a control
/// character, the tab excepted.
pub open spec fn is_value_byte(b: u8) -> bool {
    (b >= 32 && b != 127) || b == 9
}

/// A byte that `HeaderValue::to_str` accepts: a visible ASCII character, a
/// space or a tab.
pub open spec fn is_visible_byte(b: u8) -> bool {
    (32 <= b < 127) || b == 9
}

/// Every byte is one that `HeaderValue::from_str` accepts.
pub open spec fn all_value_bytes(bytes: Seq<u8>) -> bool {
    forall|i: int| 0 <= i < bytes.len() ==> is_value_byte(#[trigger] bytes[i])
}

/// Every byte is one that `HeaderValue::to_str` accepts.
pub open spec fn all_visible_bytes(bytes: Seq<u8>) -> bool {
    forall|i: int| 0 <= i < bytes.len() ==> is_visible_byte(#[trigger] bytes[i])
}

/// `HeaderName::from_static` takes a text of name characters and gives the
/// name whose text it is. (On any other text it panics.)
pub assume_specification[ HeaderName::from_static ](src: &'static str) -> (name: HeaderName)
    requires
        is_static_name(src@),
    ensures
        name_text(name) == src@,
;

/// `HeaderValue::from_str` succeeds exactly when every byte of the text is a
/// value byte, and the value then holds the bytes of the text.
pub assume_specification[ HeaderValue::from_str ](src: &str) -> (made: Result<
    HeaderValue,
    InvalidHeaderValue,
>)
    ensures
        made is Ok <==> all_value_bytes(src.spec_bytes()),
        made matches Ok(value) ==> value_bytes(value) == src.spec_bytes(),
;

/// `HeaderValue::to_str` succeeds exactly when every byte of the value is a
/// visible byte, and the text then has the bytes of the value.
pub assume_specification<'a>[ HeaderValue::to_str ](value: &'a HeaderValue) -> (text: Result<
    &'a str,
    ToStrError,
>)
    ensures
        text is Ok <==> all_visible_bytes(value_bytes(*value)),
        text matches Ok(s) ==> s.spec_bytes() == value_bytes(*value),
;

/// `HeaderMap::get` finds the first value stored under a name, by reference.
#[verifier::external_body]
pub(crate) fn first_value<'a>(headers: &'a HeaderMap<HeaderValue>, name: &HeaderName) -> (found:
    Option<&'a HeaderValue>)
    ensures
        found is Some <==> header_values(*headers).contains_key(name_text(*name)),
        found matches Some(value) ==> {
            &&& header_values(*headers)[name_text(*name)].len() >= 1
            &&& header_values(*headers)[name_text(*name)][0] == value_bytes(*value)
        },
{
    headers.get(name)
}

/// `HeaderMap::try_insert` either stores the value under the name in place of
/// all values that were there, or refuses because the map cannot grow and
/// leaves what the map holds as it was. On success it hands back the first of
/// the values it replaced.
#[verifier::external_body]
pub(crate) fn replace_values(
    headers: &mut HeaderMap<HeaderValue>,
    name: HeaderName,
    value: HeaderValue,
) -> (stored: Result<Option<HeaderValue>, MaxSizeReached>)
    ensures
        stored is Ok ==> header_values(*final(headers)) == header_values(*old(headers)).insert(
            name_text(name),
            seq![value_bytes(value)],
        ),
        stored is Err ==> header_values(*final(headers)) == header_values(*old(headers)),
        stored matches Ok(Some(before)) ==> {
            &&& header_values(*old(headers)).contains_key(name_text(name))
            &&& header_values(*old(headers))[name_text(name)].len() >= 1
            &&& header_values(*old(headers))[name_text(name)][0] == value_bytes(before)
        },
        stored matches Ok(None) ==> !header_values(*old(headers)).contains_key(name_text(name)),
{
    headers.try_insert(name, value)
}

} // verus!
