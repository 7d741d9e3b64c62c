use std::sync::Arc;

use vstd::seq::Seq;

use json_server::Error;
use json_server::ErrorKind;
use json_server::JsonRequest;
use json_server::JsonServer;
use json_server::JsonService;
use json_server::Method;

/// A handler that knows one widget: id 42 is named "widget"; every other id
/// is absent. Decoding expects a JSON object with an integer field `id`.
struct WidgetService;

#[derive(Debug, PartialEq)]
struct WidgetRequest {
    id: i64,
}

struct WidgetResponse {
    name: String,
}

enum WidgetError {
    Missing(String),
}

impl JsonService for WidgetService {
    type Req = WidgetRequest;
    type Resp = WidgetResponse;
    type Err = WidgetError;

    // The three spec functions below are ghost: they give the decode and
    // encode functions their meaning in contracts and are never run, so a
    // body here only satisfies the compiler.
    fn deserialize_spec(&self, _body: Seq<u8>) -> Result<WidgetRequest, Error> {
        panic!()
    }

    fn serialize_spec(&self, _resp: WidgetResponse) -> Seq<u8> {
        panic!()
    }

    fn classify_spec(&self, _err: WidgetError) -> Error {
        panic!()
    }

    fn deserialize(&self, body: &[u8]) -> Result<WidgetRequest, Error> {
        match serde_json::from_slice::<serde_json::Value>(body) {
            Ok(value) => match value.get("id").and_then(serde_json::Value::as_i64) {
                Some(id) => Ok(WidgetRequest { id }),
                None => Err(Error::bad_request(String::from("missing integer field `id`"))),
            },
            Err(e) => Err(Error::bad_request(e.to_string())),
        }
    }

    fn serialize(&self, resp: Result<WidgetResponse, WidgetError>) -> Result<Vec<u8>, Error> {
        match resp {
            Ok(r) => {
                let mut object = serde_json::Map::new();
                object.insert(String::from("name"), serde_json::Value::String(r.name));
                Ok(serde_json::to_vec(&serde_json::Value::Object(object)).unwrap())
            }
            Err(WidgetError::Missing(obj)) => Err(Error::not_found(obj)),
        }
    }

    fn call(&self, req: WidgetRequest) -> Result<WidgetResponse, WidgetError> {
        if req.id == 42 {
            Ok(WidgetResponse { name: String::from("widget") })
        } else {
            Err(WidgetError::Missing(format!("widget {}", req.id)))
        }
    }
}

fn widget_server() -> JsonServer<WidgetService> {
    JsonServer { inner: Arc::new(WidgetService) }
}

fn post(body: &[u8]) -> JsonRequest {
    JsonRequest { method: Method::Post, path: String::from("/"), body: Ok(body.to_vec()) }
}

#[test]
fn it_works() {}

#[test]
fn post_valid_body_yields_200_and_payload() {
    let server = widget_server();
    let resp = server.call(post(b"{\"id\": 42}"));
    assert_eq!(resp.status, 200);
    assert_eq!(resp.body, b"{\"name\":\"widget\"}".to_vec());
    assert!(resp.content_type_json);
    assert_eq!(resp.content_length, resp.body.len() as u64);
    // The body round-trips to the handler's original output.
    let value: serde_json::Value = serde_json::from_slice(&resp.body).unwrap();
    assert_eq!(value.get("name").and_then(serde_json::Value::as_str), Some("widget"));
}

#[test]
fn post_malformed_body_yields_400() {
    let server = widget_server();
    let resp = server.call(post(b"not json"));
    assert_eq!(resp.status, 400);
    let detail = serde_json::from_slice::<serde_json::Value>(b"not json")
        .unwrap_err()
        .to_string();
    let expected = format!("{{\"error\":\"bad request {}\"}}", detail);
    assert_eq!(resp.body, expected.into_bytes());
    assert_eq!(resp.content_length, resp.body.len() as u64);
}

#[test]
fn post_type_mismatched_body_yields_400() {
    let server = widget_server();
    let resp = server.call(post(b"{\"id\": \"forty-two\"}"));
    assert_eq!(resp.status, 400);
    assert_eq!(
        resp.body,
        b"{\"error\":\"bad request missing integer field `id`\"}".to_vec()
    );
}

#[test]
fn get_yields_405() {
    let server = widget_server();
    let req = JsonRequest {
        method: Method::Get,
        path: String::from("/"),
        body: Ok(b"{\"id\": 42}".to_vec()),
    };
    let resp = server.call(req);
    assert_eq!(resp.status, 405);
    assert_eq!(resp.body, b"{\"error\":\"method not allowed\"}".to_vec());
    assert!(resp.content_type_json);
    assert_eq!(resp.content_length, resp.body.len() as u64);
}

#[test]
fn every_non_post_method_yields_405() {
    let methods = vec![
        Method::Options,
        Method::Get,
        Method::Put,
        Method::Delete,
        Method::Head,
        Method::Trace,
        Method::Connect,
        Method::Patch,
        Method::Other,
    ];
    for method in methods {
        let server = widget_server();
        let req = JsonRequest { method, path: String::from("/"), body: Ok(Vec::new()) };
        let resp = server.call(req);
        assert_eq!(resp.status, 405);
        assert_eq!(resp.body, b"{\"error\":\"method not allowed\"}".to_vec());
    }
}

#[test]
fn handler_not_found_yields_404() {
    let server = widget_server();
    let resp = server.call(post(b"{\"id\": 7}"));
    assert_eq!(resp.status, 404);
    assert_eq!(resp.body, b"{\"error\":\"object widget 7 not found\"}".to_vec());
    assert_eq!(resp.content_length, resp.body.len() as u64);
}

#[test]
fn body_read_failure_yields_500() {
    let server = widget_server();
    let req = JsonRequest {
        method: Method::Post,
        path: String::from("/"),
        body: Err(String::from("connection reset")),
    };
    let resp = server.call(req);
    assert_eq!(resp.status, 500);
    assert_eq!(
        resp.body,
        b"{\"error\":\"internal server error connection reset\"}".to_vec()
    );
}

#[test]
fn decoding_twice_yields_the_same_request() {
    let service = WidgetService;
    let first = service.deserialize(b"{\"id\": 42}");
    let second = service.deserialize(b"{\"id\": 42}");
    assert_eq!(first.unwrap(), WidgetRequest { id: 42 });
    assert_eq!(second.unwrap(), WidgetRequest { id: 42 });
}

#[test]
fn decoding_twice_yields_the_same_error() {
    let service = WidgetService;
    let first = service.deserialize(b"not json");
    let second = service.deserialize(b"not json");
    let first_detail = match first {
        Err(Error { kind: ErrorKind::BadRequest(s) }) => s,
        _ => panic!("expected a bad-request error"),
    };
    let second_detail = match second {
        Err(Error { kind: ErrorKind::BadRequest(s) }) => s,
        _ => panic!("expected a bad-request error"),
    };
    assert_eq!(first_detail, second_detail);
}
