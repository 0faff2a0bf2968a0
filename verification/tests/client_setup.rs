use cache_preload::client::caching_client;

#[test]
fn caching_client_constructs_without_io() {
    let client = caching_client(&"preload-test-cache-dir".to_string());
    assert!(client.is_ok());
}
