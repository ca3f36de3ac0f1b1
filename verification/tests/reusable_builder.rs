use request_builder::error::BuildError;
use request_builder::request::request_builder_non_consuming::RequestBuilder;

fn pair(name: &str, value: &str) -> (String, String) {
    (name.to_string(), value.to_string())
}

#[test]
fn reusable_full_chain_builds_expected_request() {
    let mut builder = RequestBuilder::new();
    let request = builder
        .url("https://x/y")
        .method("GET")
        .header("token", "abc")
        .build()
        .unwrap();
    assert_eq!(request.url(), "https://x/y");
    assert_eq!(request.method(), "GET");
    assert_eq!(request.headers(), &vec![pair("token", "abc")]);
    assert_eq!(request.body(), None);
}

#[test]
fn reusable_new_builder_does_not_build() {
    let builder = RequestBuilder::new();
    let error = builder.build().unwrap_err();
    assert_eq!(error, BuildError::MissingRequiredField { field: "target" });
    assert_eq!(error.field(), "target");
}

#[test]
fn reusable_default_builder_does_not_build() {
    let builder = RequestBuilder::default();
    assert!(matches!(
        builder.build(),
        Err(BuildError::MissingRequiredField { field: "target" })
    ));
}

#[test]
fn reusable_everything_but_url_does_not_build() {
    let mut builder = RequestBuilder::new();
    builder.method("POST").header("a", "b").body("payload");
    assert_eq!(
        builder.build().unwrap_err(),
        BuildError::MissingRequiredField { field: "target" }
    );
    builder.url("https://late");
    assert_eq!(builder.build().unwrap().url(), "https://late");
}

#[test]
fn reusable_method_defaults_to_get() {
    let mut builder = RequestBuilder::new();
    let request = builder.url("https://some-url.com/task/123").build().unwrap();
    assert_eq!(request.method(), "GET");
    assert_eq!(request.url(), "https://some-url.com/task/123");
    assert!(request.headers().is_empty());
    assert_eq!(request.body(), None);
}

#[test]
fn reusable_empty_url_text_is_stored_as_given() {
    let mut builder = RequestBuilder::new();
    let request = builder.url("").build().unwrap();
    assert_eq!(request.url(), "");
    assert_eq!(request.method(), "GET");
}

#[test]
fn reusable_explicit_method_is_kept() {
    let mut builder = RequestBuilder::new();
    let request = builder.url("u").method("DELETE").build().unwrap();
    assert_eq!(request.method(), "DELETE");
}

#[test]
fn reusable_later_setter_replaces_earlier() {
    let mut builder = RequestBuilder::new();
    builder.url("first").method("PUT").body("one");
    builder.url("second").method("PATCH").body("two");
    let request = builder.build().unwrap();
    assert_eq!(request.url(), "second");
    assert_eq!(request.method(), "PATCH");
    assert_eq!(request.body(), Some("two"));
}

#[test]
fn reusable_headers_keep_order_and_duplicates() {
    let mut builder = RequestBuilder::new();
    builder
        .url("u")
        .header("b", "2")
        .header("a", "1")
        .header("b", "2")
        .header("a", "3");
    let request = builder.build().unwrap();
    assert_eq!(
        request.headers(),
        &vec![pair("b", "2"), pair("a", "1"), pair("b", "2"), pair("a", "3")]
    );
}

#[test]
fn reusable_second_build_sees_accumulated_headers() {
    let mut builder = RequestBuilder::new();
    builder.url("https://some-url.com/task/123").method("GET");
    let first = builder.header("token", "user_uuid.exp.sign").build().unwrap();
    builder.header("Client-Version", "1.2");
    let second = builder.build().unwrap();

    assert_eq!(first.headers(), &vec![pair("token", "user_uuid.exp.sign")]);
    assert_eq!(
        second.headers(),
        &vec![pair("token", "user_uuid.exp.sign"), pair("Client-Version", "1.2")]
    );
    assert_eq!(&second.headers()[..first.headers().len()], &first.headers()[..]);
    assert_eq!(first.url(), second.url());
    assert_eq!(first.method(), second.method());
    assert_eq!(first.body(), second.body());
}

#[test]
fn reusable_build_twice_without_change_gives_equal_requests() {
    let mut builder = RequestBuilder::new();
    builder.url("u").header("h", "v").body("b");
    let first = builder.build().unwrap();
    let second = builder.build().unwrap();
    assert_eq!(first.url(), second.url());
    assert_eq!(first.method(), second.method());
    assert_eq!(first.headers(), second.headers());
    assert_eq!(first.body(), second.body());
}

#[test]
fn reusable_url_changed_between_builds_shows_in_second_only() {
    let mut builder = RequestBuilder::new();
    builder.url("one");
    let first = builder.build().unwrap();
    builder.url("two").method("HEAD");
    let second = builder.build().unwrap();
    assert_eq!(first.url(), "one");
    assert_eq!(first.method(), "GET");
    assert_eq!(second.url(), "two");
    assert_eq!(second.method(), "HEAD");
}

#[test]
fn reusable_clone_is_independent() {
    let mut builder = RequestBuilder::new();
    builder.url("u").header("a", "1").body("text");
    let mut copy = builder.clone();
    copy.header("b", "2").url("other");
    let first = builder.build().unwrap();
    let changed = copy.build().unwrap();
    assert_eq!(first.url(), "u");
    assert_eq!(first.headers(), &vec![pair("a", "1")]);
    assert_eq!(first.body(), Some("text"));
    assert_eq!(changed.url(), "other");
    assert_eq!(changed.headers(), &vec![pair("a", "1"), pair("b", "2")]);
    assert_eq!(changed.body(), Some("text"));
}

#[test]
fn reusable_request_debug_shows_fields() {
    let mut builder = RequestBuilder::new();
    let request = builder.url("u").header("n", "v").build().unwrap();
    assert_eq!(
        format!("{:?}", request),
        "Request { url: \"u\", method: \"GET\", headers: [(\"n\", \"v\")], body: None }"
    );
}

#[test]
fn request_equality_is_structural() {
    let mut builder = RequestBuilder::new();
    builder.url("u").header("a", "1").header("b", "2").body("text");
    let first = builder.build().unwrap();
    let second = builder.clone().build().unwrap();
    assert!(first == second);

    let mut swapped = RequestBuilder::new();
    swapped.url("u").header("b", "2").header("a", "1").body("text");
    assert!(first != swapped.build().unwrap());

    let mut no_body = RequestBuilder::new();
    no_body.url("u").header("a", "1").header("b", "2");
    assert!(first != no_body.build().unwrap());

    builder.method("GET");
    assert!(first == builder.build().unwrap());
    builder.method("POST");
    assert!(first != builder.build().unwrap());
    builder.method("GET").header("b", "2");
    assert!(first != builder.build().unwrap());
}
