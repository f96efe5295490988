use openssl_https::connection::Connection;
use std::time::Duration;

#[test]
fn connection_keeps_its_settings_without_verification() {
    let timeout = Duration::from_millis(500);
    let conn = match Connection::new_for_client(timeout, false) {
        Ok(c) => c,
        Err(_) => panic!("TLS setup failed"),
    };
    assert_eq!(conn.connect_timeout(), Duration::from_millis(500));
    assert!(!conn.verify());
    let _client = conn.client();
}

#[test]
fn connection_keeps_its_settings_with_verification() {
    let conn = match Connection::new_for_client(Duration::from_secs(3), true) {
        Ok(c) => c,
        Err(_) => panic!("TLS setup failed"),
    };
    assert_eq!(conn.connect_timeout(), Duration::from_secs(3));
    assert!(conn.verify());
}
