use retry_backoff::request::{
    copy_bytes, Body, Header, HeaderAcceptance, HttpVersion, ReplicationError, RequestSnapshot,
    Acceptance,
};

fn header(name: &str, value: &[u8]) -> Header {
    Header { name: name.as_bytes().to_vec(), value: value.to_vec() }
}

fn sample_request() -> RequestSnapshot {
    RequestSnapshot {
        method: b"POST".to_vec(),
        uri: b"https://example.com/items?page=2".to_vec(),
        version: HttpVersion::Http11,
        headers: vec![
            header("accept", b"text/html"),
            header("set-cookie", b"a=1"),
            header("x-trace", b"\xfa\xfb"),
            header("set-cookie", b"b=2"),
            header("accept", b"application/json"),
        ],
        body: Body::Buffered(b"{\"k\":1}".to_vec()),
    }
}

fn accepting(request: &RequestSnapshot) -> Acceptance {
    Acceptance {
        uri_accepted: true,
        method_accepted: true,
        headers: vec![
            HeaderAcceptance { name_accepted: true, value_accepted: true };
            request.headers.len()
        ],
    }
}

#[test]
fn copy_is_equal_to_the_request() {
    let request = sample_request();
    let copy = request.replicate().unwrap();
    assert_eq!(copy, request);
    assert_eq!(copy.method, b"POST".to_vec());
    assert_eq!(copy.uri, request.uri);
    assert_eq!(copy.version, HttpVersion::Http11);
    assert_eq!(copy.body, Body::Buffered(b"{\"k\":1}".to_vec()));
}

#[test]
fn copy_keeps_repeated_names_in_order() {
    let request = sample_request();
    let copy = request.replicate().unwrap();
    let names: Vec<&[u8]> = copy.headers.iter().map(|h| h.name.as_slice()).collect();
    let expected: Vec<&[u8]> = vec![b"accept", b"set-cookie", b"x-trace", b"set-cookie", b"accept"];
    assert_eq!(names, expected);
    assert_eq!(copy.headers[1].value, b"a=1".to_vec());
    assert_eq!(copy.headers[3].value, b"b=2".to_vec());
    assert_eq!(copy.headers.len(), 5);
}

#[test]
fn changing_the_copy_leaves_the_request_as_it_was() {
    let request = sample_request();
    let mut copy = request.replicate().unwrap();
    copy.method = b"PUT".to_vec();
    copy.uri.push(b'x');
    copy.version = HttpVersion::Http2;
    copy.headers[0].value[0] = b'T';
    copy.headers.pop();
    copy.body = Body::Buffered(Vec::new());
    assert_eq!(request, sample_request());
    assert_ne!(copy, request);
}

#[test]
fn every_version_is_kept() {
    for version in [
        HttpVersion::Http09,
        HttpVersion::Http10,
        HttpVersion::Http11,
        HttpVersion::Http2,
        HttpVersion::Http3,
    ] {
        let mut request = sample_request();
        request.version = version;
        assert_eq!(request.replicate().unwrap().version, version);
    }
}

#[test]
fn request_without_headers_and_with_empty_body() {
    let request = RequestSnapshot {
        method: b"GET".to_vec(),
        uri: b"/".to_vec(),
        version: HttpVersion::Http10,
        headers: Vec::new(),
        body: Body::Buffered(Vec::new()),
    };
    assert_eq!(request.replicate(), Ok(request.clone()));
}

#[test]
fn streaming_body_is_not_replicated() {
    let mut request = sample_request();
    request.body = Body::Streaming;
    assert_eq!(request.replicate(), Err(ReplicationError::BodyNotReplicable));
}

#[test]
fn refused_uri() {
    let mut request = sample_request();
    request.uri = Vec::new();
    assert_eq!(request.replicate(), Err(ReplicationError::InvalidUri));
    request.uri = b"http://exa mple.com/".to_vec();
    assert_eq!(request.replicate(), Err(ReplicationError::InvalidUri));
}

#[test]
fn refused_method() {
    let mut request = sample_request();
    request.method = Vec::new();
    assert_eq!(request.replicate(), Err(ReplicationError::InvalidMethod));
    request.method = b"GE T".to_vec();
    assert_eq!(request.replicate(), Err(ReplicationError::InvalidMethod));
}

#[test]
fn refused_header_name() {
    let mut request = sample_request();
    request.headers[2].name = b"x trace".to_vec();
    assert_eq!(request.replicate(), Err(ReplicationError::InvalidHeaderName { index: 2 }));
    request.headers[2].name = Vec::new();
    assert_eq!(request.replicate(), Err(ReplicationError::InvalidHeaderName { index: 2 }));
}

#[test]
fn refused_header_value() {
    let mut request = sample_request();
    request.headers[3].value = b"b=2\r\nx: y".to_vec();
    assert_eq!(request.replicate(), Err(ReplicationError::InvalidHeaderValue { index: 3 }));
    request.headers[3].value = vec![127];
    assert_eq!(request.replicate(), Err(ReplicationError::InvalidHeaderValue { index: 3 }));
    request.headers[3].value = b"tab\tis fine".to_vec();
    assert!(request.replicate().is_ok());
}

#[test]
fn first_defect_in_building_order_is_reported() {
    let mut request = sample_request();
    request.body = Body::Streaming;
    request.headers[4].name = b"\n".to_vec();
    request.headers[1].value = b"\n".to_vec();
    assert_eq!(request.replicate(), Err(ReplicationError::InvalidHeaderValue { index: 1 }));
    request.headers[1].name = b"\n".to_vec();
    assert_eq!(request.replicate(), Err(ReplicationError::InvalidHeaderName { index: 1 }));
    request.method = b"\n".to_vec();
    assert_eq!(request.replicate(), Err(ReplicationError::InvalidMethod));
    request.uri = b"\n".to_vec();
    assert_eq!(request.replicate(), Err(ReplicationError::InvalidUri));
}

#[test]
fn examine_reports_each_component() {
    let mut request = sample_request();
    assert_eq!(request.examine(), accepting(&request));
    request.uri = b"".to_vec();
    request.headers[0].name = b"a b".to_vec();
    request.headers[4].value = vec![0];
    let acceptance = request.examine();
    assert!(!acceptance.uri_accepted);
    assert!(acceptance.method_accepted);
    assert_eq!(acceptance.headers.len(), 5);
    assert_eq!(acceptance.headers[0], HeaderAcceptance { name_accepted: false, value_accepted: true });
    assert_eq!(acceptance.headers[1], HeaderAcceptance { name_accepted: true, value_accepted: true });
    assert_eq!(acceptance.headers[4], HeaderAcceptance { name_accepted: true, value_accepted: false });
    request.uri = b"/".to_vec();
    request.method = b"".to_vec();
    assert!(!request.examine().method_accepted);
}

#[test]
fn replicate_with_follows_what_was_accepted() {
    let request = sample_request();
    let mut acceptance = accepting(&request);
    assert_eq!(request.replicate_with(&acceptance), Ok(request.clone()));
    acceptance.headers[4].value_accepted = false;
    assert_eq!(
        request.replicate_with(&acceptance),
        Err(ReplicationError::InvalidHeaderValue { index: 4 })
    );
    acceptance.headers[2].name_accepted = false;
    acceptance.headers[2].value_accepted = false;
    assert_eq!(
        request.replicate_with(&acceptance),
        Err(ReplicationError::InvalidHeaderName { index: 2 })
    );
    acceptance.method_accepted = false;
    assert_eq!(request.replicate_with(&acceptance), Err(ReplicationError::InvalidMethod));
    acceptance.uri_accepted = false;
    assert_eq!(request.replicate_with(&acceptance), Err(ReplicationError::InvalidUri));
    let mut streaming = sample_request();
    streaming.body = Body::Streaming;
    assert_eq!(
        streaming.replicate_with(&accepting(&streaming)),
        Err(ReplicationError::BodyNotReplicable)
    );
}

#[test]
fn bytes_are_copied() {
    let source = vec![0u8, 1, 2, 255];
    let mut copy = copy_bytes(&source);
    assert_eq!(copy, source);
    copy[0] = 9;
    assert_eq!(source, vec![0u8, 1, 2, 255]);
    assert_eq!(copy_bytes(&Vec::new()), Vec::<u8>::new());
}
