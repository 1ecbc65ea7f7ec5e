use fastrust::error::Error;
use fastrust::route::Method;
use fastrust::text::{push_decimal, push_signed_decimal, str_eq};

#[test]
fn decimal_rendering() {
    let mut s = String::from("n=");
    push_decimal(&mut s, 0);
    assert_eq!(s, "n=0");
    let mut s = String::new();
    push_decimal(&mut s, 18446744073709551615);
    assert_eq!(s, "18446744073709551615");
    let mut s = String::new();
    push_signed_decimal(&mut s, -6969);
    assert_eq!(s, "-6969");
    let mut s = String::new();
    push_signed_decimal(&mut s, 8080);
    assert_eq!(s, "8080");
}

#[test]
fn string_equality() {
    assert!(str_eq("abc", "abc"));
    assert!(!str_eq("abc", "abd"));
    assert!(!str_eq("", "a"));
}

#[test]
fn method_names() {
    let all = [
        (Method::Get, "GET"),
        (Method::Post, "POST"),
        (Method::Put, "PUT"),
        (Method::Patch, "PATCH"),
        (Method::Delete, "DELETE"),
        (Method::Head, "HEAD"),
        (Method::Options, "OPTIONS"),
        (Method::Trace, "TRACE"),
        (Method::Connect, "CONNECT"),
    ];
    for (m, name) in all {
        assert_eq!(m.as_str(), name);
    }
}

#[test]
fn error_messages() {
    assert_eq!(Error::RouteError("overlap".into()).message(), "Route error: overlap");
    assert_eq!(Error::ServerError("x".into()).message(), "Server error: x");
    assert_eq!(Error::AddressError("bad".into()).message(), "Address error: bad");
    assert_eq!(Error::BindError("busy".into()).message(), "Bind error: busy");
    assert_eq!(Error::OpenApiError("json".into()).message(), "OpenAPI error: json");
    assert_eq!(Error::Internal("oops".into()).message(), "Internal error: oops");
}
