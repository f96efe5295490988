use openssl_https::fetch::{Fetch, FetchAction, FetchEvent, Stage};

#[test]
fn malformed_uri_is_logged_once_and_returns_none() {
    let (mut f, a) = Fetch::start::<String>("not a uri");
    assert!(matches!(a, FetchAction::LogInvalidUri(_)));
    assert_eq!(f.stage, Stage::Rejected);
    assert!(!f.expects(&FetchEvent::<String>::Responded(Ok(()))));
    assert!(f.expects(&FetchEvent::<String>::Logged));
    let a = f.step(FetchEvent::<String>::Logged);
    assert!(matches!(a, FetchAction::Finish(None)));
    assert!(f.is_done());
    assert!(!f.expects(&FetchEvent::<String>::Logged));
    assert!(!f.expects(&FetchEvent::<String>::BodyChunk(None)));
}

#[test]
fn empty_uri_is_rejected() {
    let (f, a) = Fetch::start::<String>("");
    assert!(matches!(a, FetchAction::LogInvalidUri(_)));
    assert_eq!(f.stage, Stage::Rejected);
}

#[test]
fn valid_uri_is_sent_as_parsed() {
    let (f, a) = Fetch::start::<String>("https://192.168.11.122:2555/getSomething");
    assert_eq!(f.stage, Stage::Sent);
    match a {
        FetchAction::SendRequest(u) => {
            assert_eq!(u.scheme_str(), Some("https"));
            assert_eq!(u.host(), Some("192.168.11.122"));
            assert_eq!(u.port_u16(), Some(2555));
            assert_eq!(u.path(), "/getSomething");
        }
        _ => panic!("expected a request"),
    }
}

#[test]
fn transport_error_is_returned() {
    let (mut f, _) = Fetch::start::<String>("https://10.255.255.1:443/x");
    assert!(f.expects(&FetchEvent::<String>::Responded(Err(String::new()))));
    let a = f.step(FetchEvent::Responded(Err("connect timed out".to_string())));
    match a {
        FetchAction::Finish(Some(Err(e))) => assert_eq!(e, "connect timed out"),
        _ => panic!("expected the transport error"),
    }
    assert!(f.is_done());
}

#[test]
fn single_chunk_body_is_returned_whole() {
    let (mut f, _) = Fetch::start::<String>("https://127.0.0.1/a");
    let a = f.step(FetchEvent::<String>::Responded(Ok(())));
    assert!(matches!(a, FetchAction::ReadFirstChunk));
    assert_eq!(f.stage, Stage::Reading);
    let a = f.step(FetchEvent::<String>::BodyChunk(Some(Ok(b"hello world".to_vec()))));
    match a {
        FetchAction::Finish(Some(Ok(b))) => assert_eq!(b, b"hello world".to_vec()),
        _ => panic!("expected the body"),
    }
    assert!(f.is_done());
}

#[test]
fn split_body_returns_first_chunk_only() {
    let chunks: Vec<Vec<u8>> = vec![b"hello ".to_vec(), b"world".to_vec()];
    let body: Vec<u8> = chunks.concat();
    let (mut f, _) = Fetch::start::<String>("https://127.0.0.1/a");
    f.step(FetchEvent::<String>::Responded(Ok(())));
    let a = f.step(FetchEvent::<String>::BodyChunk(Some(Ok(chunks[0].clone()))));
    match a {
        FetchAction::Finish(Some(Ok(b))) => {
            assert_eq!(b, b"hello ".to_vec());
            assert!(body.starts_with(&b));
            assert!(b.len() < body.len());
        }
        _ => panic!("expected the first chunk"),
    }
}

#[test]
fn empty_body_returns_none() {
    let (mut f, _) = Fetch::start::<String>("https://127.0.0.1/a");
    f.step(FetchEvent::<String>::Responded(Ok(())));
    let a = f.step(FetchEvent::<String>::BodyChunk(None));
    assert!(matches!(a, FetchAction::Finish(None)));
}

#[test]
fn body_error_is_returned() {
    let (mut f, _) = Fetch::start::<String>("https://127.0.0.1/a");
    f.step(FetchEvent::<String>::Responded(Ok(())));
    let a = f.step(FetchEvent::BodyChunk(Some(Err("reset".to_string()))));
    assert!(matches!(a, FetchAction::Finish(Some(Err(_)))));
}

#[test]
fn new_fetch_expects_uri_only() {
    let f = Fetch::new();
    assert_eq!(f.stage, Stage::Start);
    assert!(!f.is_done());
    assert!(!f.expects(&FetchEvent::<String>::Logged));
    assert!(!f.expects(&FetchEvent::<String>::BodyChunk(None)));
}
