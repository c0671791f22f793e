use sqlite_http::RequestReader;
use std::io::Read;
use std::time::Duration;

#[test]
fn descriptor_keeps_the_url() {
    let reader = RequestReader::new(String::from("http://test.local/hello"));
    assert_eq!(reader.url(), "http://test.local/hello");
    assert_eq!(reader.generate().url(), "http://test.local/hello");
    assert_eq!(reader.url(), "http://test.local/hello");
}

#[test]
fn generate_then_drain_yields_the_body() {
    let reader = RequestReader::new(String::from("http://test.local/hello"));
    let request = reader.generate();
    assert_eq!(request.url(), "http://test.local/hello");
    let served: &[u8] = b"hello world";
    let mut stream = request.complete(Ok(served)).unwrap();
    let mut body = Vec::new();
    stream.read_to_end(&mut body).unwrap();
    assert_eq!(body, b"hello world".to_vec());
}

#[test]
fn stream_passes_through_unread() {
    let reader = RequestReader::new(String::from("http://test.local/hello"));
    let served: &[u8] = b"hello world";
    let mut stream = reader.generate().complete(Ok(served)).unwrap();
    let mut first = [0u8; 5];
    stream.read_exact(&mut first).unwrap();
    assert_eq!(&first, b"hello");
    let mut rest = Vec::new();
    stream.read_to_end(&mut rest).unwrap();
    assert_eq!(rest, b" world".to_vec());
}

#[test]
fn generate_twice_asks_twice() {
    let reader = RequestReader::new(String::from("http://test.local/count"));
    let mut hits = 0u32;
    let mut bodies = Vec::new();
    for _ in 0..2 {
        let request = reader.generate();
        assert_eq!(request.url(), "http://test.local/count");
        hits += 1;
        let served = format!("hit {}", hits).into_bytes();
        bodies.push(request.complete(Ok(served)).unwrap());
    }
    assert_eq!(hits, 2);
    assert_eq!(bodies, vec![b"hit 1".to_vec(), b"hit 2".to_vec()]);
}

#[test]
fn failure_of_the_first_fetch_does_not_stay() {
    let reader = RequestReader::new(String::from("nowhere"));
    let client = reqwest::blocking::Client::new();
    let failed = client.get(reader.generate().url()).send();
    assert!(reader.generate().complete(failed).is_err());
    let served: &[u8] = b"later";
    assert_eq!(reader.generate().complete(Ok(served)).unwrap(), b"later");
}

#[test]
fn malformed_url_fails_at_generation_only() {
    let reader = RequestReader::new(String::from("not a url"));
    assert_eq!(reader.url(), "not a url");
    let request = reader.generate();
    assert_eq!(request.url(), "not a url");
    let client = reqwest::blocking::Client::new();
    let answer = client.get(request.url()).send();
    let error = request.complete(answer).unwrap_err();
    assert!(error.cause.is_builder());
}

#[test]
fn unreachable_host_fails_at_generation_only() {
    let reader = RequestReader::new(String::from("http://127.0.0.1:1/"));
    assert_eq!(reader.url(), "http://127.0.0.1:1/");
    let request = reader.generate();
    let client = reqwest::blocking::Client::builder()
        .no_proxy()
        .timeout(Duration::from_secs(5))
        .build()
        .unwrap();
    let answer = client.get(request.url()).send();
    let error = request.complete(answer).unwrap_err();
    assert!(error.cause.is_connect() || error.cause.is_timeout() || error.cause.is_request());
    assert_eq!(error.cause.url().unwrap().as_str(), "http://127.0.0.1:1/");
}

#[test]
fn fetch_error_carries_the_cause() {
    let client = reqwest::blocking::Client::new();
    let cause = client.get("file:///etc/hosts").send().unwrap_err();
    let shown = cause.to_string();
    let reader = RequestReader::new(String::from("file:///etc/hosts"));
    let outcome = reader.generate().complete::<Vec<u8>>(Err(cause));
    let error = outcome.unwrap_err();
    assert_eq!(error.cause.to_string(), shown);
    assert!(error.cause.is_builder());
}
