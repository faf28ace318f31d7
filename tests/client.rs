use rulip::{
    classify_status, settle, Client, ClientInner, Credentials, Reply, Endpoint, Error, ErrorKind, Handshake, Method,
    StatusClass, ZulipError,
};

const USERNAME: &str = "api_user";
const PASSWORD: &str = "arandompassword";
const API_KEY: &str = "arandomapikey";
const SERVER: &str = "http://127.0.0.1:8080";

fn form_body(pairs: &[(String, String)]) -> String {
    pairs
        .iter()
        .map(|(k, v)| format!("{}={}", k, v))
        .collect::<Vec<_>>()
        .join("&")
}

fn start(uri: &str) -> Result<Handshake, Error> {
    Client::build(uri).start(reqwest::Client::new())
}

fn ready(h: Handshake) -> Client {
    match h {
        Handshake::Ready(c) => c,
        Handshake::FetchKey(_) => panic!("expected a ready session"),
    }
}

#[test]
fn prod_auth() {
    let handshake = Client::build(SERVER)
        .with_credentials(USERNAME, Some(PASSWORD))
        .start(reqwest::Client::new())
        .unwrap();
    let fetch = match handshake {
        Handshake::FetchKey(k) => k,
        Handshake::Ready(_) => panic!("the key must be fetched"),
    };
    let request = fetch.request();
    assert_eq!(request.method, Method::Post);
    assert_eq!(request.endpoint, Endpoint::FETCH_API_KEY);
    assert!(request.basic_auth.is_none());
    // Check username and password are sent to the server
    assert_eq!(
        form_body(&request.form),
        format!("username={}&password={}", USERNAME, PASSWORD)
    );
    let client = fetch.finish(Credentials::new(USERNAME.to_owned(), API_KEY.to_owned()));
    let credentials = client.credentials().unwrap();
    assert_eq!(credentials.username(), USERNAME);
    assert_eq!(credentials.password(), Some(API_KEY));
}

#[test]
fn dev_auth() {
    let handshake = Client::build(SERVER)
        .with_credentials(USERNAME, None)
        .start(reqwest::Client::new())
        .unwrap();
    let fetch = match handshake {
        Handshake::FetchKey(k) => k,
        Handshake::Ready(_) => panic!("the key must be fetched"),
    };
    let request = fetch.request();
    assert_eq!(request.endpoint, Endpoint::FETCH_DEV_API_KEY);
    // Check that only username is sent to the server
    assert_eq!(form_body(&request.form), format!("username={}", USERNAME));
    let client = fetch.finish(Credentials::new(USERNAME.to_owned(), API_KEY.to_owned()));
    let credentials = client.credentials().unwrap();
    assert_eq!(credentials.username(), USERNAME);
    assert_eq!(credentials.password(), Some(API_KEY));
}

#[test]
fn with_key_needs_no_handshake() {
    let client = ready(
        Client::build(SERVER)
            .with_key(USERNAME, API_KEY)
            .start(reqwest::Client::new())
            .unwrap(),
    );
    let credentials = client.credentials().unwrap();
    assert_eq!(credentials.username(), USERNAME);
    assert_eq!(credentials.password(), Some(API_KEY));
    let request = client.prepare(Method::Get, "events", vec![]);
    assert_eq!(
        request.basic_auth,
        Some((USERNAME.to_owned(), Some(API_KEY.to_owned())))
    );
}

#[test]
fn unauthenticated() {
    let client = ready(start("https://hello.zulipchat.com").unwrap());
    assert_eq!(client.credentials(), None);
}

#[test]
fn auth_fail() {
    let handshake = Client::build(SERVER)
        .with_credentials(USERNAME, Some(PASSWORD))
        .start(reqwest::Client::new())
        .unwrap();
    let fetch = match handshake {
        Handshake::FetchKey(k) => k,
        Handshake::Ready(_) => panic!("the key must be fetched"),
    };
    assert_eq!(fetch.request().endpoint, Endpoint::FETCH_API_KEY);
    // The server answers 401 with an authentication failure.
    assert_eq!(classify_status(401), StatusClass::ClientError);
    let report = ZulipError::decode(
        "Your username or password is incorrect".to_owned(),
        Some("AUTHENTICATION_FAILED".to_owned()),
        None,
        None,
    );
    let error = settle::<Credentials>(Reply::ClientError(Ok(report)))
        .err()
        .expect("Client initialization should return an error");
    match error.kind() {
        ErrorKind::Zulip(e) => assert!(e.is_auth_failed()),
        _ => unreachable!(),
    }
}

#[test]
fn base_uri() {
    const CANONICAL_URI: &str = "https://hello.zulipchat.com";
    const BASE_URI: &str = "https://hello.zulipchat.com/api/v1/";
    let mut client = ready(start(CANONICAL_URI).unwrap());
    assert_eq!(client.base_uri(), BASE_URI, "Expect the base URI of API");

    client = ready(start(&(CANONICAL_URI.to_owned() + "/diff/path")).unwrap());
    assert_eq!(client.base_uri(), BASE_URI, "Expect removal of existing path");

    let error = start("invalid_uri").err().unwrap();
    assert!(error.is_build(), "Expect invalid URI");
}

#[test]
fn base_address_keeps_host_and_port() {
    let a = ready(start("https://h/").unwrap());
    let b = ready(start("https://h/some/path").unwrap());
    assert_eq!(a.base_uri(), "https://h/api/v1/");
    assert_eq!(a.base_uri(), b.base_uri());
    let c = ready(start("http://user@h:8080/x?y=1#z").unwrap());
    assert_eq!(c.base_uri(), "http://user@h:8080/api/v1/");
}

#[test]
fn address_without_host_is_build_error() {
    assert!(start("file:///etc/hosts").err().unwrap().is_build());
    assert!(start("").err().unwrap().is_build());
}

#[test]
fn get_puts_parameters_in_query_and_others_in_form() {
    let client = ready(start(SERVER).unwrap());
    let params = vec![("a".to_owned(), "1".to_owned())];
    let get = client.prepare(Method::Get, "events", params.clone());
    assert_eq!(get.query, params);
    assert!(get.form.is_empty());
    assert_eq!(get.endpoint, "events");
    let post = client.prepare(Method::Post, "register", params.clone());
    assert_eq!(post.form, params);
    assert!(post.query.is_empty());
    let delete = client.prepare(Method::Delete, "events", params.clone());
    assert_eq!(delete.form, params);
    assert!(delete.basic_auth.is_none());
}

#[test]
fn credentials_accessors() {
    let c = Credentials::unauthenticated("me".to_owned());
    assert_eq!(c.username(), "me");
    assert_eq!(c.password(), None);
    assert_eq!(form_body(&c.form_pairs()), "username=me");
}

#[test]
fn session_builder_from_inner() {
    let handshake = ClientInner::build("https://hello.zulipchat.com/a/b")
        .start(reqwest::Client::new())
        .unwrap();
    assert_eq!(ready(handshake).base_uri(), "https://hello.zulipchat.com/api/v1/");
}
