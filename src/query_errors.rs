use vstd::prelude::*;
use vstd::string::StringSliceAdditionalSpecFns;
use vstd::utf8::{
    encode_utf8_valid_utf8, is_char_boundary, is_char_boundary_iff_not_is_continuation_byte,
};

use http::header::ToStrError;
use http::{HeaderMap, HeaderValue};

verus! {

/// http's header map, carried through opaquely.
#[verifier::external_type_specification]
#[verifier::external_body]
#[verifier::reject_recursive_types(T)]
pub struct ExHeaderMap<T>(HeaderMap<T>);

/// http's header value, carried through opaquely.
#[verifier::external_type_specification]
#[verifier::external_body]
pub struct ExHeaderValue(HeaderValue);

/// The error of http::HeaderValue::to_str, carried through opaquely.
#[verifier::external_type_specification]
#[verifier::external_body]
pub struct ExToStrError(ToStrError);

/// The header that carries a query-compatible error code and type.
pub const X_AMZN_QUERY_ERROR: &'static str = "x-amzn-query-error";

/// The byte that separates the error code from the error type.
pub const QUERY_COMPATIBLE_ERRORCODE_DELIMITER: u8 = 59;

/// For each (lower-case) name that a header map holds, the bytes of the first
/// value under it.
pub uninterp spec fn header_values(headers: HeaderMap<HeaderValue>) -> Map<Seq<char>, Seq<u8>>;

/// The bytes of a header value.
pub uninterp spec fn value_bytes(value: HeaderValue) -> Seq<u8>;

/// Every byte is visible ASCII (space to tilde) or a tab.
pub open spec fn is_visible_ascii(bytes: Seq<u8>) -> bool {
    forall|i: int| 0 <= i < bytes.len() ==> (32 <= #[trigger] bytes[i] < 127 || bytes[i] == 9)
}

/// The bytes of the query error header, when it is present.
pub open spec fn query_error_bytes(headers: HeaderMap<HeaderValue>) -> Seq<u8> {
    header_values(headers)[X_AMZN_QUERY_ERROR@]
}

/// A header name as a map stores it: lower-case letters, digits and dashes.
pub open spec fn is_normalized_header_name(name: Seq<char>) -> bool {
    &&& name.len() > 0
    &&& forall|i: int|
        0 <= i < name.len() ==> ('a' <= #[trigger] name[i] <= 'z' || '0' <= name[i] <= '9'
            || name[i] == '-')
}

/// Relies on http::HeaderMap::get: it finds a value exactly when the map holds one
/// under that name, and then it is the first value under it.
#[verifier::external_body]
fn header_get<'a>(headers: &'a HeaderMap<HeaderValue>, name: &str) -> (r: Option<&'a HeaderValue>)
    requires
        is_normalized_header_name(name@),
    ensures
        r is Some <==> header_values(*headers).contains_key(name@),
        r matches Some(v) ==> value_bytes(*v) == header_values(*headers)[name@],
{
    headers.get(name)
}

/// Relies on http::HeaderValue::to_str: it succeeds exactly when every byte is
/// visible ASCII or a tab, and then hands back those bytes as text.
#[verifier::external_body]
fn header_to_str(value: &HeaderValue) -> (r: Result<&str, ToStrError>)
    ensures
        r is Ok <==> is_visible_ascii(value_bytes(*value)),
        r matches Ok(s) ==> s.spec_bytes() == value_bytes(*value),
{
    value.to_str()
}

/// The whole text of the query error header: `Ok(None)` when the header is absent,
/// an error when its value is not visible ASCII.
pub fn aws_query_compatible_error_from_header(headers: &HeaderMap<HeaderValue>) -> (r: Result<
    Option<&str>,
    ToStrError,
>)
    ensures
        !header_values(*headers).contains_key(X_AMZN_QUERY_ERROR@) <==> r matches Ok(None),
        header_values(*headers).contains_key(X_AMZN_QUERY_ERROR@) ==> (r is Ok
            <==> is_visible_ascii(query_error_bytes(*headers))),
        r matches Ok(Some(s)) ==> s.spec_bytes() == query_error_bytes(*headers),
{
    proof {
        reveal_strlit("x-amzn-query-error");
    }
    match header_get(headers, X_AMZN_QUERY_ERROR) {
        None => Ok(None),
        Some(v) => match header_to_str(v) {
            Ok(s) => Ok(Some(s)),
            Err(e) => Err(e),
        },
    }
}

/// Splits `value` at its first `;` into the error code and the error type; `None`
/// when it holds no `;`.
pub fn split_query_error(value: &str) -> (r: Option<(&str, &str)>)
    ensures
        r is None <==> !value.spec_bytes().contains(QUERY_COMPATIBLE_ERRORCODE_DELIMITER),
        r matches Some((code, kind)) ==> {
            &&& value.spec_bytes() == code.spec_bytes() + seq![
                QUERY_COMPATIBLE_ERRORCODE_DELIMITER,
            ] + kind.spec_bytes()
            &&& !code.spec_bytes().contains(QUERY_COMPATIBLE_ERRORCODE_DELIMITER)
        },
{
    let bytes = value.as_bytes();
    let mut i: usize = 0;
    while i < bytes.len()
        invariant
            bytes@ == value.spec_bytes(),
            i <= bytes@.len(),
            forall|j: int| 0 <= j < i ==> bytes@[j] != QUERY_COMPATIBLE_ERRORCODE_DELIMITER,
        decreases bytes@.len() - i,
    {
        if bytes[i] == QUERY_COMPATIBLE_ERRORCODE_DELIMITER {
            proof {
                encode_utf8_valid_utf8(value@);
                is_char_boundary_iff_not_is_continuation_byte(bytes@, i as int);
            }
            let (code, rest) = value.split_at(i);
            proof {
                encode_utf8_valid_utf8(rest@);
                assert(rest.spec_bytes()[0] == QUERY_COMPATIBLE_ERRORCODE_DELIMITER);
                reveal_with_fuel(is_char_boundary, 2);
                assert(is_char_boundary(rest.spec_bytes(), 1));
            }
            let (_, kind) = rest.split_at(1);
            proof {
                let rb = rest.spec_bytes();
                assert(rb =~= seq![QUERY_COMPATIBLE_ERRORCODE_DELIMITER] + kind.spec_bytes());
                assert(value.spec_bytes() =~= code.spec_bytes() + seq![
                    QUERY_COMPATIBLE_ERRORCODE_DELIMITER,
                ] + kind.spec_bytes());
                assert(forall|j: int|
                    0 <= j < code.spec_bytes().len() ==> code.spec_bytes()[j] == bytes@[j]);
            }
            return Some((code, kind));
        }
        i = i + 1;
    }
    None
}

/// The error code and error type of the query error header, when the header is
/// present, is visible ASCII and holds a `;`.
pub fn parse_aws_query_compatible_error(headers: &HeaderMap<HeaderValue>) -> (r: Option<
    (&str, &str),
>)
    ensures
        r is Some <==> {
            &&& header_values(*headers).contains_key(X_AMZN_QUERY_ERROR@)
            &&& is_visible_ascii(query_error_bytes(*headers))
            &&& query_error_bytes(*headers).contains(QUERY_COMPATIBLE_ERRORCODE_DELIMITER)
        },
        r matches Some((code, kind)) ==> {
            &&& query_error_bytes(*headers) == code.spec_bytes() + seq![
                QUERY_COMPATIBLE_ERRORCODE_DELIMITER,
            ] + kind.spec_bytes()
            &&& !code.spec_bytes().contains(QUERY_COMPATIBLE_ERRORCODE_DELIMITER)
        },
{
    let header_value = match aws_query_compatible_error_from_header(headers) {
        Ok(Some(v)) => v,
        _ => return None,
    };
    split_query_error(header_value)
}

} // verus!
