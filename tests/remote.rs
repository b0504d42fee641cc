use cccb_bridge::remote::remote_endpoint;

#[test]
fn endpoint_carries_token_in_query() {
    let url = remote_endpoint("QWMuZUF").unwrap();
    assert_eq!(url.as_str(), "ws://127.0.0.1:3000/?token=QWMuZUF");
    assert_eq!(url.scheme(), "ws");
    assert_eq!(url.port(), Some(3000));
    assert_eq!(url.query(), Some("token=QWMuZUF"));
}

#[test]
fn endpoint_with_empty_token() {
    let url = remote_endpoint("").unwrap();
    assert_eq!(url.query(), Some("token="));
}
