use hyper::header::{HeaderMap, HeaderValue, CONTENT_TYPE};
use hyper::{Body, Response, StatusCode};
use routerify_cors::{enable_cors_all_middleware_handler, insert_cors_headers};
use std::convert::Infallible;

const ORIGIN: &str = "access-control-allow-origin";
const METHODS: &str = "access-control-allow-methods";
const HEADERS: &str = "access-control-allow-headers";

fn values(map: &HeaderMap, name: &str) -> Vec<Vec<u8>> {
    map.get_all(name).iter().map(|v| v.as_bytes().to_vec()).collect()
}

fn assert_cors(map: &HeaderMap) {
    for name in [ORIGIN, METHODS, HEADERS] {
        assert_eq!(values(map, name), vec![b"*".to_vec()], "header {}", name);
    }
}

#[test]
fn empty_map_gets_three_wildcards() {
    let mut map = HeaderMap::new();
    assert_eq!(insert_cors_headers(&mut map), Ok(()));
    assert_eq!(map.len(), 3);
    assert_eq!(map.keys_len(), 3);
    assert_cors(&map);
}

#[test]
fn origin_is_overwritten_not_merged() {
    let mut map = HeaderMap::new();
    map.insert(ORIGIN, HeaderValue::from_static("https://example.com"));
    assert_eq!(insert_cors_headers(&mut map), Ok(()));
    assert_eq!(values(&map, ORIGIN), vec![b"*".to_vec()]);
    assert_eq!(map.len(), 3);
}

#[test]
fn several_prior_values_collapse_to_one() {
    let mut map = HeaderMap::new();
    map.append(METHODS, HeaderValue::from_static("GET"));
    map.append(METHODS, HeaderValue::from_static("POST"));
    map.append(HEADERS, HeaderValue::from_static("x-token"));
    assert_eq!(insert_cors_headers(&mut map), Ok(()));
    assert_cors(&map);
    assert_eq!(map.len(), 3);
}

#[test]
fn other_headers_are_kept() {
    let mut map = HeaderMap::new();
    map.insert(CONTENT_TYPE, HeaderValue::from_static("text/plain"));
    map.append("x-trace", HeaderValue::from_static("a"));
    map.append("x-trace", HeaderValue::from_static("b"));
    assert_eq!(insert_cors_headers(&mut map), Ok(()));
    assert_cors(&map);
    assert_eq!(values(&map, "content-type"), vec![b"text/plain".to_vec()]);
    assert_eq!(values(&map, "x-trace"), vec![b"a".to_vec(), b"b".to_vec()]);
    assert_eq!(map.len(), 6);
    assert_eq!(map.keys_len(), 5);
}

#[test]
fn applying_twice_equals_applying_once() {
    let mut once = HeaderMap::new();
    once.insert(ORIGIN, HeaderValue::from_static("https://example.com"));
    once.insert(CONTENT_TYPE, HeaderValue::from_static("text/html"));
    let mut twice = once.clone();
    assert_eq!(insert_cors_headers(&mut once), Ok(()));
    assert_eq!(insert_cors_headers(&mut twice), Ok(()));
    assert_eq!(insert_cors_headers(&mut twice), Ok(()));
    assert_eq!(once, twice);
    assert_cors(&twice);
}

#[test]
fn handler_returns_the_response_with_cors_headers() {
    let res = Response::new(Body::from("Home page"));
    let out = enable_cors_all_middleware_handler::<Body, Infallible>(res);
    let out = match out {
        Ok(r) => r,
        Err(e) => match e {},
    };
    assert_eq!(out.status(), StatusCode::OK);
    assert_eq!(out.headers().len(), 3);
    assert_cors(out.headers());
}

#[test]
fn handler_succeeds_on_a_response_with_restrictive_headers() {
    let mut res = Response::new(String::from("body"));
    *res.status_mut() = StatusCode::NOT_FOUND;
    res.headers_mut().insert(ORIGIN, HeaderValue::from_static("https://example.com"));
    res.headers_mut().insert(CONTENT_TYPE, HeaderValue::from_static("text/plain"));
    let out = enable_cors_all_middleware_handler::<String, std::fmt::Error>(res);
    assert!(out.is_ok());
    let out = out.unwrap();
    assert_eq!(out.status(), StatusCode::NOT_FOUND);
    assert_eq!(out.body(), "body");
    assert_eq!(out.headers().len(), 4);
    assert_cors(out.headers());
}

#[test]
fn large_map_with_room_still_succeeds() {
    let mut map = HeaderMap::new();
    for i in 0..6000 {
        let name = hyper::header::HeaderName::from_bytes(format!("x-h{}", i).as_bytes()).unwrap();
        map.insert(name, HeaderValue::from_static("v"));
    }
    map.insert(ORIGIN, HeaderValue::from_static("https://example.com"));
    assert_eq!(insert_cors_headers(&mut map), Ok(()));
    assert_cors(&map);
    assert_eq!(map.keys_len(), 6003);
    assert_eq!(values(&map, "x-h5999"), vec![b"v".to_vec()]);
}
