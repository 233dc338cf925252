use std::sync::Arc;
use tortuga::client::{is_blank_request_line, is_line_break, script_environment, status_line};
use tortuga::context::client::ClientContext;
use tortuga::context::request::{extract_arguments, extract_user, AuthType, HttpRequest, RequestContext};
use tortuga::context::server::{ScriptMapping, ServerContext};
use tortuga::strings::{decimal, split};
use tortuga::uri::decode_percent_encoded;
use tortuga::variable::ToMetaVariable;

#[test]
fn basic_scheme() {
    assert_eq!(AuthType::try_from(b"BaSic".as_slice()), Ok(AuthType::Basic));
    assert_eq!(AuthType::try_from(b"BASIC".as_slice()), Ok(AuthType::Basic));
    assert_eq!(AuthType::try_from(b"basic".as_slice()), Ok(AuthType::Basic));
    assert_eq!(AuthType::try_from(b"Basic".as_slice()), Ok(AuthType::Basic));
    assert_eq!(
        AuthType::try_from(b"Other".as_slice()),
        Err(b"Other".as_slice())
    );
}

fn server() -> ServerContext<(), ()> {
    ServerContext::new(
        "127.0.0.1".to_string(),
        "8080".to_string(),
        "/usr/bin".to_string(),
        "tortuga",
        "0.1.0",
        "/srv/www".to_string(),
        "/srv/www/cgi".to_string(),
        "example.org".to_string(),
        ScriptMapping::new((), ()),
    )
}

fn request(method: &str, path: &str, query: Option<&str>) -> HttpRequest {
    HttpRequest {
        method: method.to_string(),
        path: path.to_string(),
        query: query.map(str::to_string),
        version: "HTTP/1.1".to_string(),
        headers: vec![],
        body_length: 0,
    }
}

fn variable<'a>(variables: &'a [(String, String)], name: &str) -> Option<&'a str> {
    variables.iter().find(|(k, _)| k == name).map(|(_, v)| v.as_str())
}

#[test]
fn server_identity() {
    let server = server();
    assert_eq!(server.software(), "tortuga/0.1.0");
    assert_eq!(server.scheme(), "http");
    assert_eq!(server.server_name(), "example.org");
    assert_eq!(server.working_directory(), "/srv/www");
}

#[test]
fn script_filename_under_cgi_bin() {
    let server = server();
    assert_eq!(
        server.script_filename("/cgi-bin/hello.sh/extra/path"),
        Some(("/srv/www/cgi/hello.sh".to_string(), "/extra/path"))
    );
    assert_eq!(
        server.script_filename("/cgi-bin/hello.sh"),
        Some(("/srv/www/cgi/hello.sh".to_string(), ""))
    );
    assert_eq!(server.script_filename("/index.html"), None);
}

#[test]
fn resolve_and_translate_paths() {
    let server = server();
    assert_eq!(server.resolve_path("/"), "/srv/www/index.html");
    assert_eq!(server.resolve_path("/a/b.txt"), "/srv/www/a/b.txt");
    assert_eq!(server.translate_path("/x"), "/srv/www/x");
    assert_eq!(server.translate_path("x"), "/srv/www/x");
}

#[test]
fn percent_decoding() {
    assert_eq!(decode_percent_encoded("a%20b"), Ok("a b".to_string()));
    assert_eq!(decode_percent_encoded("%C3%A9"), Ok("é".to_string()));
    assert_eq!(decode_percent_encoded("100%"), Err("100%"));
    assert_eq!(decode_percent_encoded("%zz"), Err("%zz"));
    assert_eq!(decode_percent_encoded("%FF"), Err("%FF"));
}

#[test]
fn meta_variable_names() {
    assert_eq!("content-type".to_meta_variable(Some("HTTP")), "HTTP_CONTENT_TYPE");
    assert_eq!("x-Custom".to_meta_variable(None), "X_CUSTOM");
}

#[test]
fn text_helpers() {
    assert_eq!(decimal(0), "0");
    assert_eq!(decimal(1234), "1234");
    assert_eq!(split("a++b", '+'), vec!["a", "", "b"]);
    assert_eq!(split("", '+'), vec![""]);
}

#[test]
fn arguments_of_search_query() {
    let get = request("GET", "/cgi-bin/s", Some("hello+big%20world"));
    assert_eq!(extract_arguments(&get), vec!["hello", "big", "world"]);

    let post = request("POST", "/cgi-bin/s", Some("hello+world"));
    assert!(extract_arguments(&post).is_empty());

    let form = request("GET", "/cgi-bin/s", Some("a=b"));
    assert!(extract_arguments(&form).is_empty());
}

#[test]
fn user_of_basic_authorization() {
    let mut request = request("GET", "/", None);
    request
        .headers
        .push(("authorization".to_string(), b"Basic dXNlcjpwYXNz".to_vec()));
    assert_eq!(
        extract_user(&request),
        Some((AuthType::Basic, "user".to_string()))
    );

    request.headers[0].1 = b"Bearer dXNlcjpwYXNz".to_vec();
    assert_eq!(extract_user(&request), None);

    request.headers[0].1 = b"Basic !!!".to_vec();
    assert_eq!(extract_user(&request), None);
}

#[test]
fn request_variables() {
    let server = Arc::new(server());
    let client = Arc::new(ClientContext::new("10.0.0.2".to_string(), "5555".to_string()));
    let mut request = request("POST", "/cgi-bin/hello.sh/a%20b", Some("x=1"));
    request
        .headers
        .push(("content-type".to_string(), b"text/plain".to_vec()));
    request.body_length = 42;

    let context = RequestContext::new(server, client, &request);
    let variables = context.variables();

    assert_eq!(variable(variables, "GATEWAY_INTERFACE"), Some("CGI/1.1"));
    assert_eq!(variable(variables, "SCRIPT_NAME"), Some("/cgi-bin/cgi/hello.sh"));
    assert_eq!(
        variable(variables, "SCRIPT_URI"),
        Some("http://example.org:8080/cgi-bin/cgi/hello.sh/a%20b?x=1")
    );
    assert_eq!(variable(variables, "PATH_INFO"), Some("/a b"));
    assert_eq!(variable(variables, "PATH_TRANSLATED"), Some("/srv/www/a b"));
    assert_eq!(variable(variables, "QUERY_STRING"), Some("x=1"));
    assert_eq!(variable(variables, "CONTENT_LENGTH"), Some("42"));
    assert_eq!(variable(variables, "CONTENT_TYPE"), Some("text/plain"));
    assert_eq!(variable(variables, "HTTP_CONTENT_TYPE"), Some("text/plain"));
    assert_eq!(variable(variables, "REMOTE_ADDR"), Some("10.0.0.2"));
    assert_eq!(variable(variables, "REQUEST_METHOD"), Some("POST"));
    assert_eq!(variable(variables, "AUTH_TYPE"), None);
    assert_eq!(context.script().map(String::as_str), Some("/srv/www/cgi/hello.sh"));
    assert!(context.arguments().is_empty());
}

#[test]
fn repeated_headers_keep_the_last_value() {
    let server = Arc::new(server());
    let client = Arc::new(ClientContext::new("::1".to_string(), "1".to_string()));
    let mut request = request("GET", "/index.html", None);
    request.headers.push(("x-a".to_string(), b"1".to_vec()));
    request.headers.push(("x-a".to_string(), b"2".to_vec()));

    let context = RequestContext::new(server, client, &request);
    let variables = context.variables();

    assert_eq!(variables.iter().filter(|(k, _)| k == "HTTP_X_A").count(), 1);
    assert_eq!(variable(variables, "HTTP_X_A"), Some("2"));
    assert_eq!(variable(variables, "PATH_INFO"), Some("/index.html"));
    assert!(context.script().is_none());
}

#[test]
fn client_decisions() {
    assert!(is_blank_request_line(""));
    assert!(is_blank_request_line("\r\n"));
    assert!(!is_blank_request_line("GET / HTTP/1.1\r\n"));
    assert!(is_line_break("\r\n"));
    assert!(!is_line_break("\n"));
    assert_eq!(status_line(), "HTTP/1.1 200 OK\r\n");

    let context = tortuga::context::ServerContext::new(
        "127.0.0.1".to_string(),
        "80".to_string(),
        "/bin".to_string(),
        "tortuga",
        "0.1.0",
        "hello.sh".to_string(),
        "/srv/hello.sh".to_string(),
    );
    let environment = script_environment(&context, "10.0.0.1", "4000");
    assert_eq!(environment.len(), 10);
    assert_eq!(environment[1], ("SERVER_SOFTWARE".to_string(), "tortuga/0.1.0".to_string()));
    assert_eq!(environment[4], ("SCRIPT_FILENAME".to_string(), "/srv/hello.sh".to_string()));
}
