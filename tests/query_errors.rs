use http::{HeaderMap, HeaderValue};
use smithy_orchestrator::query_errors::{
    aws_query_compatible_error_from_header, parse_aws_query_compatible_error, split_query_error,
    X_AMZN_QUERY_ERROR,
};

#[test]
fn aws_query_compatible_error_from_header_should_provide_value_for_custom_header() {
    let mut response: http::Response<()> = http::Response::default();
    response.headers_mut().insert(
        X_AMZN_QUERY_ERROR,
        http::HeaderValue::from_static("AWS.SimpleQueueService.NonExistentQueue;Sender"),
    );

    let actual = aws_query_compatible_error_from_header(response.headers()).unwrap();

    assert_eq!(
        Some("AWS.SimpleQueueService.NonExistentQueue;Sender"),
        actual,
    );
}

#[test]
fn parse_aws_query_compatible_error_should_parse_code_and_type_fields() {
    let mut response: http::Response<()> = http::Response::default();
    response.headers_mut().insert(
        X_AMZN_QUERY_ERROR,
        http::HeaderValue::from_static("AWS.SimpleQueueService.NonExistentQueue;Sender"),
    );

    let actual = parse_aws_query_compatible_error(response.headers());

    assert_eq!(
        Some(("AWS.SimpleQueueService.NonExistentQueue", "Sender")),
        actual,
    );
}

#[test]
fn parse_aws_query_compatible_error_should_return_none_when_header_value_has_no_delimiter() {
    let mut response: http::Response<()> = http::Response::default();
    response.headers_mut().insert(
        X_AMZN_QUERY_ERROR,
        http::HeaderValue::from_static("AWS.SimpleQueueService.NonExistentQueue"),
    );

    let actual = parse_aws_query_compatible_error(response.headers());

    assert_eq!(None, actual);
}

#[test]
fn parse_aws_query_compatible_error_should_return_none_when_there_is_no_target_header() {
    let mut response: http::Response<()> = http::Response::default();
    response.headers_mut().insert(
        "x-amzn-requestid",
        http::HeaderValue::from_static("a918fbf2-457a-4fe1-99ba-5685ce220fc1"),
    );

    let actual = parse_aws_query_compatible_error(response.headers());

    assert_eq!(None, actual);
}

#[test]
fn code_and_type_split_at_first_delimiter() {
    let mut headers = HeaderMap::new();
    headers.insert(X_AMZN_QUERY_ERROR, HeaderValue::from_static("CodeA;TypeB"));
    assert_eq!(Some(("CodeA", "TypeB")), parse_aws_query_compatible_error(&headers));
}

#[test]
fn code_only_gives_none() {
    let mut headers = HeaderMap::new();
    headers.insert(X_AMZN_QUERY_ERROR, HeaderValue::from_static("CodeOnly"));
    assert_eq!(None, parse_aws_query_compatible_error(&headers));
}

#[test]
fn absent_header_gives_none() {
    let headers = HeaderMap::new();
    assert_eq!(None, parse_aws_query_compatible_error(&headers));
    assert_eq!(Ok(None), aws_query_compatible_error_from_header(&headers).map_err(|_| ()));
}

#[test]
fn empty_header_value_gives_none() {
    let mut headers = HeaderMap::new();
    headers.insert(X_AMZN_QUERY_ERROR, HeaderValue::from_static(""));
    assert_eq!(None, parse_aws_query_compatible_error(&headers));
    assert_eq!(Some(""), aws_query_compatible_error_from_header(&headers).unwrap());
}

#[test]
fn header_name_is_matched_without_regard_to_case() {
    let mut headers = HeaderMap::new();
    headers.insert("X-Amzn-Query-Error", HeaderValue::from_static("Code;Type"));
    assert_eq!(Some(("Code", "Type")), parse_aws_query_compatible_error(&headers));
}

#[test]
fn non_visible_header_value_is_an_error() {
    let mut headers = HeaderMap::new();
    headers.insert(X_AMZN_QUERY_ERROR, HeaderValue::from_bytes(b"Code;\xffType").unwrap());
    assert!(aws_query_compatible_error_from_header(&headers).is_err());
    assert_eq!(None, parse_aws_query_compatible_error(&headers));
}

#[test]
fn split_keeps_later_delimiters_in_type() {
    assert_eq!(Some(("a", "b;c")), split_query_error("a;b;c"));
    assert_eq!(Some(("", "")), split_query_error(";"));
    assert_eq!(Some(("", "x")), split_query_error(";x"));
    assert_eq!(Some(("é", "ü")), split_query_error("é;ü"));
    assert_eq!(None, split_query_error(""));
    assert_eq!(None, split_query_error("no delimiter"));
}

#[test]
fn non_visible_value_with_delimiter_gives_none() {
    let mut headers = HeaderMap::new();
    headers.insert(X_AMZN_QUERY_ERROR, HeaderValue::from_bytes(b"A;\xFFB").unwrap());
    assert_eq!(None, parse_aws_query_compatible_error(&headers));
}

#[test]
fn first_value_of_repeated_header_is_read() {
    let mut headers = HeaderMap::new();
    headers.append(X_AMZN_QUERY_ERROR, HeaderValue::from_static("First;One"));
    headers.append(X_AMZN_QUERY_ERROR, HeaderValue::from_static("Second;Two"));
    assert_eq!(Some("First;One"), aws_query_compatible_error_from_header(&headers).unwrap());
    assert_eq!(Some(("First", "One")), parse_aws_query_compatible_error(&headers));
}
