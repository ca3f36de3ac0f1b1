use request_builder::request::request_builder_type_state::{
    Method, NoMethod, NoUrl, NotSealed, RequestBuilder, Sealed, Url,
};
use request_builder::request::request_builder_non_consuming;
use request_builder::request::Request;

fn header(name: &str, value: &str) -> (String, String) {
    (name.to_string(), value.to_string())
}

#[test]
fn type_state_full_chain_builds_expected_request() {
    let request: Request = RequestBuilder::new()
        .url("https://x/y")
        .method("GET")
        .header("token", "abc")
        .build();
    assert_eq!(request.url(), "https://x/y");
    assert_eq!(request.method(), "GET");
    assert_eq!(request.headers(), &vec![header("token", "abc")]);
    assert_eq!(request.body(), None);
}

#[test]
fn type_state_types_follow_the_calls() {
    let start: RequestBuilder<NoUrl, NoMethod, NotSealed> = RequestBuilder::new();
    let with_method: RequestBuilder<NoUrl, Method, NotSealed> = start.method("POST");
    let with_both: RequestBuilder<Url, Method, NotSealed> = with_method.url("u");
    let sealed: RequestBuilder<Url, Method, Sealed> = with_both.seal();
    let request = sealed.build();
    assert_eq!(request.url(), "u");
    assert_eq!(request.method(), "POST");
}

#[test]
fn type_state_incomplete_builder_can_be_sealed_and_cloned() {
    let sealed: RequestBuilder<Url, NoMethod, Sealed> =
        RequestBuilder::new().url("u").header("a", "1").seal();
    let _copy: RequestBuilder<Url, NoMethod, Sealed> = sealed.clone();
}

#[test]
fn type_state_order_of_url_and_method_is_free() {
    let one = RequestBuilder::new().url("u").method("m").build();
    let two = RequestBuilder::new().method("m").url("u").build();
    assert_eq!(one.url(), two.url());
    assert_eq!(one.method(), two.method());
}

#[test]
fn type_state_later_setter_replaces_earlier() {
    let request = RequestBuilder::new()
        .url("first")
        .method("GET")
        .body("one")
        .url("second")
        .method("PUT")
        .body("two")
        .build();
    assert_eq!(request.url(), "second");
    assert_eq!(request.method(), "PUT");
    assert_eq!(request.body(), Some("two"));
}

#[test]
fn type_state_headers_keep_order_and_duplicates() {
    let request = RequestBuilder::new()
        .header("k", "v")
        .url("u")
        .header("k", "v")
        .method("GET")
        .header("a", "z")
        .build();
    assert_eq!(
        request.headers(),
        &vec![header("k", "v"), header("k", "v"), header("a", "z")]
    );
}

#[test]
fn type_state_sealed_builder_builds_what_it_held() {
    let sealed = RequestBuilder::new()
        .url("https://some-url.com/task/123")
        .method("GET")
        .header("Token", "uuid.exp.sign")
        .body("text")
        .seal();
    let first = sealed.clone().build();
    let second = sealed.build();
    assert_eq!(first.url(), "https://some-url.com/task/123");
    assert_eq!(first.method(), "GET");
    assert_eq!(first.headers(), &vec![header("Token", "uuid.exp.sign")]);
    assert_eq!(first.body(), Some("text"));
    assert_eq!(first.url(), second.url());
    assert_eq!(first.method(), second.method());
    assert_eq!(first.headers(), second.headers());
    assert_eq!(first.body(), second.body());
}

#[test]
fn type_state_clone_taken_before_seal_stays_open() {
    let builder = RequestBuilder::new().url("u").method("GET").header("a", "1");
    let open = builder.clone();
    let sealed = builder.seal();
    let extended = open.header("b", "2").body("late").build();
    let frozen = sealed.build();
    assert_eq!(frozen.headers(), &vec![header("a", "1")]);
    assert_eq!(frozen.body(), None);
    assert_eq!(extended.headers(), &vec![header("a", "1"), header("b", "2")]);
    assert_eq!(extended.body(), Some("late"));
}

#[test]
fn type_state_default_is_the_empty_open_builder() {
    let builder: RequestBuilder<NoUrl, NoMethod, NotSealed> = RequestBuilder::default();
    let request = builder.url("u").method("GET").build();
    assert!(request.headers().is_empty());
    assert_eq!(request.body(), None);
}

#[test]
fn type_state_and_reusable_builders_agree() {
    let typed = RequestBuilder::new()
        .url("https://x/y")
        .method("GET")
        .header("token", "abc")
        .build();
    let mut reusable = request_builder_non_consuming::RequestBuilder::new();
    let plain = reusable.url("https://x/y").header("token", "abc").build().unwrap();
    assert_eq!(typed, plain);
}
