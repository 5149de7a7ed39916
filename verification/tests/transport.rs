use jsonrpc_v2_client::APIKey;
use jsonrpc_v2_client::ExchangeEvent;
use jsonrpc_v2_client::JsonRpcError;
use jsonrpc_v2_client::Params;
use jsonrpc_v2_client::Request;
use jsonrpc_v2_client::ServiceAddress;
use jsonrpc_v2_client::complete_exchange;
use jsonrpc_v2_client::frame_http_request;
use jsonrpc_v2_client::parse_response;

#[test]
fn test_frame_without_api_key() {
    let address = ServiceAddress::new("127.0.0.1:8082", "/api");
    let body = r#"{"jsonrpc":"2.0","method":"mul","params":[2.5,3.5],"id":"0"}"#;
    let framed = frame_http_request(&address, None, body);
    let expected = format!(
        "POST /api HTTP/1.1\r\nHost: 127.0.0.1:8082\r\nContent-Type: application/json\r\nUser-Agent: jsonrpc_v2_client/0.1.0\r\nAccept: application/json\r\nContent-Length: {}\r\n\r\n{}",
        body.len(),
        body
    );
    assert_eq!(framed, expected);
}

#[test]
fn test_frame_with_api_key() {
    let address = ServiceAddress::new("127.0.0.1:8082", "/api");
    let api_key = APIKey::new("X-API-KEY", "abcdef12345678");
    let body = r#"{"jsonrpc":"2.0","method":"mul","params":[2.5,3.5],"id":"0"}"#;
    let framed = frame_http_request(&address, Some(&api_key), body);
    let expected = format!(
        "POST /api HTTP/1.1\r\nHost: 127.0.0.1:8082\r\nContent-Type: application/json\r\nUser-Agent: jsonrpc_v2_client/0.1.0\r\nAccept: application/json\r\nX-API-KEY: abcdef12345678\r\nContent-Length: {}\r\n\r\n{}",
        body.len(),
        body
    );
    assert_eq!(framed, expected);
}

#[test]
fn test_frame_content_length_counts_utf8_bytes() {
    let address = ServiceAddress::new("example.com:80", "rpc");
    let body = "{\"jsonrpc\":\"2.0\",\"method\":\"echo\",\"params\":[\"h\u{e9}\"],\"id\":\"1\"}";
    let framed = frame_http_request(&address, None, body);
    let expected_header = format!("Content-Length: {}\r\n\r\n", body.len());
    assert!(framed.contains(&expected_header));
    assert!(body.len() > body.chars().count());
}

#[test]
fn test_response_with_result() {
    let raw = "HTTP/1.1 200 OK\r\nContent-Type: application/json\r\n\r\n{\"jsonrpc\":\"2.0\",\"result\":8.75,\"error\":null,\"id\":\"0\"}";
    let response = parse_response(&raw.as_bytes().to_vec()).unwrap();
    assert_eq!(response["jsonrpc"], "2.0");
    assert_eq!(response["result"], 8.75);
    assert_eq!(response["id"], "0");
    assert_eq!(response["error"], serde_json::Value::Null);
}

#[test]
fn test_response_error_invalid_params() {
    let raw = "HTTP/1.1 200 OK\r\nContent-Type: application/json\r\n\r\n{\"jsonrpc\":\"2.0\",\"result\":null,\"error\":{\"code\":-32602,\"message\":\"Invalid params\"},\"id\":\"0\"}";
    let response = parse_response(&raw.as_bytes().to_vec()).unwrap();
    assert_eq!(response["jsonrpc"], "2.0");
    assert_eq!(response["result"], serde_json::Value::Null);
    assert_eq!(response["id"], "0");
    assert_eq!(response["error"]["code"], -32602);
    assert_eq!(response["error"]["message"], "Invalid params");
}

#[test]
fn test_response_trailing_whitespace_is_trimmed() {
    let raw = "HTTP/1.1 200 OK\r\n\r\n{\"jsonrpc\":\"2.0\",\"result\":3,\"error\":null,\"id\":\"7\"}\r\n \t";
    let response = parse_response(&raw.as_bytes().to_vec()).unwrap();
    assert_eq!(response["result"], 3);
}

#[test]
fn test_response_body_is_everything_after_first_separator() {
    let raw = "HTTP/1.1 200 OK\r\nX: y\r\n\r\n[1,2]";
    let response = parse_response(&raw.as_bytes().to_vec()).unwrap();
    assert_eq!(response[0], 1);
    assert_eq!(response[1], 2);
}

#[test]
fn test_response_unicode_body() {
    let raw = "HTTP/1.1 200 OK\r\n\r\n{\"jsonrpc\":\"2.0\",\"result\":\"h\u{e9}llo\",\"error\":null,\"id\":\"1\"}";
    let response = parse_response(&raw.as_bytes().to_vec()).unwrap();
    assert_eq!(response["result"], "h\u{e9}llo");
}

#[test]
fn test_response_without_separator_is_invalid() {
    let raw = "HTTP/1.1 200 OK\nContent-Type: application/json\n{\"jsonrpc\":\"2.0\"}";
    let err = parse_response(&raw.as_bytes().to_vec()).unwrap_err();
    assert!(matches!(err, JsonRpcError::InvalidResponse));
    assert_eq!(err.describe(), "Invalid response format");
}

#[test]
fn test_response_bad_json_is_serialization_error() {
    let raw = "HTTP/1.1 200 OK\r\n\r\nnot json at all {";
    let err = parse_response(&raw.as_bytes().to_vec()).unwrap_err();
    assert!(matches!(err, JsonRpcError::SerializationError(_)));
}

#[test]
fn test_exchange_classification() {
    let connect = complete_exchange(ExchangeEvent::ConnectFailed("refused".to_string()));
    match connect.unwrap_err() {
        JsonRpcError::ConnectionError(detail) => assert_eq!(detail, "refused"),
        other => panic!("expected ConnectionError, got: {}", other.describe()),
    }

    let write = complete_exchange(ExchangeEvent::WriteFailed("reset".to_string()));
    match write.unwrap_err() {
        JsonRpcError::ConnectionError(detail) => assert_eq!(detail, "reset"),
        other => panic!("expected ConnectionError, got: {}", other.describe()),
    }

    let read = complete_exchange(ExchangeEvent::ReadFailed("closed".to_string()));
    match read.unwrap_err() {
        JsonRpcError::ResponseError(detail) => assert_eq!(detail, "closed"),
        other => panic!("expected ResponseError, got: {}", other.describe()),
    }

    let raw = "HTTP/1.1 200 OK\r\n\r\n{\"jsonrpc\":\"2.0\",\"result\":1,\"error\":null,\"id\":\"1\"}";
    let received = complete_exchange(ExchangeEvent::Received(raw.as_bytes().to_vec()));
    assert_eq!(received.unwrap()["result"], 1);
}

#[test]
fn test_error_descriptions() {
    assert_eq!(
        JsonRpcError::ConnectionError("down".to_string()).describe(),
        "Connection error: down"
    );
    assert_eq!(
        JsonRpcError::SerializationError("bad".to_string()).describe(),
        "Serialization error: bad"
    );
    assert_eq!(
        JsonRpcError::ResponseError("eof".to_string()).describe(),
        "Response error: eof"
    );
    assert_eq!(JsonRpcError::InvalidResponse.describe(), "Invalid response format");
}

#[test]
fn test_frame_carries_serialized_envelope() {
    let req = Request::new("does_not_exist", Params(Vec::<i64>::new()), "9");
    let params_json = serde_json::to_string(&req.params().0).unwrap();
    let body = req.to_json(&params_json);
    let address = ServiceAddress::new("127.0.0.1:9999", "/api");
    let framed = frame_http_request(&address, None, &body);
    assert!(framed.starts_with("POST /api HTTP/1.1\r\n"));
    assert!(framed.ends_with(&body));
}
