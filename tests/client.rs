use sdk_client::client::SdkClient;

#[test]
fn endpoint_url_is_plain_http() {
    let client = SdkClient::new("localhost:26657".to_string(), reqwest::Client::new());
    assert_eq!(client.endpoint_url(), "http://localhost:26657");
}

#[test]
fn cloned_client_keeps_the_endpoint() {
    let client = SdkClient::new("10.0.0.1:80".to_string(), reqwest::Client::new());
    let copy = client.clone();
    assert_eq!(copy.url(), "10.0.0.1:80");
    assert_eq!(copy.endpoint_url(), "http://10.0.0.1:80");
}
