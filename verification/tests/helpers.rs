use kube::form::encode_query;
use kube::text::{ascii_lowercase, decimal_string, str_eq};
use kube::wire::{build_request, into_outcome};
use kube::{Error, Request, TypeInfo, Verb};

#[test]
fn encode_query_pairs_in_order() {
    let pairs = vec![
        ("a b".to_string(), "c&d".to_string()),
        ("x".to_string(), "é+".to_string()),
    ];
    assert_eq!(encode_query("/p?".to_string(), &pairs), "/p?&a+b=c%26d&x=%C3%A9%2B");
    // with an empty base no separator comes first
    assert_eq!(encode_query(String::new(), &pairs), "a+b=c%26d&x=%C3%A9%2B");
    assert_eq!(encode_query("/p".to_string(), &vec![]), "/p");
}

#[test]
fn text_helpers() {
    assert_eq!(ascii_lowercase("HorizontalPodAutoscaler"), "horizontalpodautoscaler");
    assert_eq!(ascii_lowercase("ÉCOLE-Z9"), "École-z9");
    assert_eq!(decimal_string(0), "0");
    assert_eq!(decimal_string(290), "290");
    assert_eq!(decimal_string(u32::MAX), "4294967295");
    assert!(str_eq("abc", "abc"));
    assert!(!str_eq("abc", "abd"));
    assert!(!str_eq("abc", "ab"));
}

#[test]
fn build_request_sets_method_uri_headers_body() {
    let req = build_request(Verb::Put, "/a/b?&c=d".to_string(), Some("text/plain"), vec![1, 2, 3]).unwrap();
    assert_eq!(req.method(), "PUT");
    assert_eq!(req.uri().to_string(), "/a/b?&c=d");
    assert_eq!(req.headers().get("Accept").unwrap(), "application/json");
    assert_eq!(req.headers().get("Content-Type").unwrap(), "text/plain");
    assert_eq!(req.body(), &vec![1u8, 2, 3]);
    let req = build_request(Verb::Delete, "/x".to_string(), None, vec![]).unwrap();
    assert_eq!(req.method(), "DELETE");
    assert!(req.headers().is_empty());
    let req = build_request(Verb::Post, "/x".to_string(), None, vec![]).unwrap();
    assert_eq!(req.method(), "POST");
    let req = build_request(Verb::Patch, "/x".to_string(), None, vec![]).unwrap();
    assert_eq!(req.method(), "PATCH");
    let req = build_request(Verb::Get, "/x".to_string(), None, vec![]).unwrap();
    assert_eq!(req.method(), "GET");
}

#[test]
fn http_errors_are_kept() {
    let built = http::Request::get("a b").body(Vec::<u8>::new());
    assert!(built.is_err());
    match into_outcome(built) {
        Err(Error::HttpError(_)) => {}
        _ => panic!("the http error is handed on"),
    }
    assert!(matches!(
        build_request(Verb::Get, "/a b".to_string(), None, vec![]),
        Err(Error::HttpError(_))
    ));
}

#[test]
fn kind_y_takes_plain_s() {
    let y = TypeInfo { group: String::new(), api_version: "v1".to_string(), kind: "Y".to_string() };
    assert_eq!(Request::new(&y, None).make_url(), "/api/v1/ys");
    let yy = TypeInfo { group: String::new(), api_version: "v1".to_string(), kind: "Yy".to_string() };
    assert_eq!(Request::new(&yy, None).make_url(), "/api/v1/yies");
}
