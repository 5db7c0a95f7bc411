use http_client::{HttpClient, HttpError, HttpMethod, HttpResponse};

fn with_status(status: u16) -> HttpResponse<()> {
    HttpResponse { status, headers: Vec::new(), body: () }
}

fn classes(status: u16) -> (bool, bool, bool) {
    let response = with_status(status);
    (response.is_success(), response.is_client_error(), response.is_server_error())
}

#[test]
fn success_is_200_to_299() {
    assert_eq!(classes(199), (false, false, false));
    assert_eq!(classes(200), (true, false, false));
    assert_eq!(classes(201), (true, false, false));
    assert_eq!(classes(299), (true, false, false));
    assert_eq!(classes(300), (false, false, false));
}

#[test]
fn client_error_is_400_to_499() {
    assert_eq!(classes(399), (false, false, false));
    assert_eq!(classes(400), (false, true, false));
    assert_eq!(classes(404), (false, true, false));
    assert_eq!(classes(499), (false, true, false));
}

#[test]
fn server_error_is_500_to_599() {
    assert_eq!(classes(500), (false, false, true));
    assert_eq!(classes(503), (false, false, true));
    assert_eq!(classes(599), (false, false, true));
    assert_eq!(classes(600), (false, false, false));
}

#[test]
fn informational_and_redirect_are_in_no_class() {
    assert_eq!(classes(101), (false, false, false));
    assert_eq!(classes(304), (false, false, false));
    assert_eq!(classes(0), (false, false, false));
    assert_eq!(classes(u16::MAX), (false, false, false));
}

#[test]
fn every_status_is_in_at_most_one_class() {
    for status in 0..=u16::MAX {
        let (success, client, server) = classes(status);
        assert_eq!(success, (200..300).contains(&status));
        assert_eq!(client, (400..500).contains(&status));
        assert_eq!(server, (500..600).contains(&status));
    }
}

#[derive(Debug, PartialEq)]
struct Refused(u8);

impl std::fmt::Display for Refused {
    fn fmt(&self, f: &mut std::fmt::Formatter<'_>) -> std::fmt::Result {
        f.write_str("refused ")?;
        self.0.fmt(f)
    }
}

#[test]
fn transport_error_converts_into_client_failure() {
    let error: HttpError<Refused> = Refused(7).into();
    match error {
        HttpError::Client(inner) => assert_eq!(inner, Refused(7)),
        other => panic!("expected a transport failure, got {:?}", other),
    }
    let direct = HttpError::from(Refused(9));
    assert!(matches!(direct, HttpError::Client(Refused(9))));
}

#[test]
fn message_names_the_kind_of_failure() {
    let url: HttpError<Refused> = HttpError::InvalidUrl("x: relative URL without a base".to_string());
    assert_eq!(url.message(), "invalid URL: x: relative URL without a base");
    let client: HttpError<Refused> = HttpError::Client(Refused(3));
    assert_eq!(client.message(), "client error: refused 3");
    let why = serde_json::from_slice::<i32>(b"{").unwrap_err();
    let shown = why.to_string();
    let json: HttpError<Refused> = HttpError::Serialization(why);
    assert_eq!(json.message(), format!("JSON serialization error: {}", shown));
}

struct Stub;

impl HttpClient for Stub {
    type Body = ();
    type Error = Refused;
}

#[test]
fn client_starts_a_builder_for_each_method() {
    let client = Stub;
    let get = client.get("http://h/get").build();
    assert_eq!((get.method, get.url.as_str()), (HttpMethod::Get, "http://h/get"));
    let post = client.post("http://h/post").build();
    assert_eq!((post.method, post.url.as_str()), (HttpMethod::Post, "http://h/post"));
    let put = client.put("http://h/put").build();
    assert_eq!((put.method, put.url.as_str()), (HttpMethod::Put, "http://h/put"));
    let patch = client.patch("http://h/patch").build();
    assert_eq!((patch.method, patch.url.as_str()), (HttpMethod::Patch, "http://h/patch"));
    let delete = client.delete("http://h/delete").build();
    assert_eq!((delete.method, delete.url.as_str()), (HttpMethod::Delete, "http://h/delete"));
    assert!(get.query.is_empty() && get.headers.is_empty() && get.body.is_none());
}
