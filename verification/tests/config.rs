use otx::Client;
use otx::Error;
use otx::Timestamp;
use otx::MAX_TIMESTAMP_SECS;

#[test]
fn test_default_configuration() {
    let client = Client::new();
    assert_eq!(client.apikey, None);
    assert_eq!(client.limit, 25);
    assert_eq!(client.since, Timestamp::epoch());
    assert_eq!(client.exchange, "https://otx.alienvault.com");
}

#[test]
fn test_missing_api_key_page_request() {
    let client = Client::new();
    assert_eq!(client.threats_request(None), Err(Error::MissingApiKey));
    assert_eq!(
        client.threats_request(Some("https://otx.alienvault.com/page2")),
        Err(Error::MissingApiKey)
    );
}

#[test]
fn test_missing_api_key_threat_request() {
    let client = Client::new();
    assert_eq!(
        client.threat_request("565da40d4637f2388ab046e9"),
        Err(Error::MissingApiKey)
    );
}

#[test]
fn test_subscribed_url_defaults() {
    let mut client = Client::new();
    client.apikey("SECRET-REDACTED");
    let req = client.threats_request(None).unwrap();
    assert_eq!(
        req.url,
        "https://otx.alienvault.com/api/v1/pulses/subscribed?limit=25&modified_since=1970-01-01T00:00:00Z"
    );
    assert_eq!(req.apikey, "SECRET-REDACTED");
}

#[test]
fn test_subscribed_url_configured() {
    let mut client = Client::new();
    client.url("http://exchange.test");
    client.apikey("k");
    client.limit(2);
    client.since(Timestamp::from_secs(1_000_000_000).unwrap());
    let req = client.threats_request(None).unwrap();
    assert_eq!(
        req.url,
        "http://exchange.test/api/v1/pulses/subscribed?limit=2&modified_since=2001-09-09T01:46:40Z"
    );
}

#[test]
fn test_cursor_is_used_verbatim() {
    let mut client = Client::new();
    client.apikey("k");
    let req = client
        .threats_request(Some("http://exchange.test/api/v1/pulses/subscribed?page=2"))
        .unwrap();
    assert_eq!(req.url, "http://exchange.test/api/v1/pulses/subscribed?page=2");
}

#[test]
fn test_threat_url() {
    let mut client = Client::new();
    client.apikey("k");
    let req = client.threat_request("565da40d4637f2388ab046e9").unwrap();
    assert_eq!(
        req.url,
        "https://otx.alienvault.com/api/v1/pulses/565da40d4637f2388ab046e9"
    );
}

#[test]
fn test_zero_limit_is_accepted() {
    // No validation on the page limit: zero is passed through.
    let mut client = Client::new();
    client.apikey("k");
    client.limit(0);
    let req = client.threats_request(None).unwrap();
    assert_eq!(
        req.url,
        "https://otx.alienvault.com/api/v1/pulses/subscribed?limit=0&modified_since=1970-01-01T00:00:00Z"
    );
}

#[test]
fn test_timestamp_range() {
    assert_eq!(Timestamp::epoch().secs(), 0);
    assert_eq!(Timestamp::from_secs(-1), None);
    assert_eq!(Timestamp::from_secs(MAX_TIMESTAMP_SECS + 1), None);
    let latest = Timestamp::from_secs(MAX_TIMESTAMP_SECS).unwrap();
    assert_eq!(latest.secs(), MAX_TIMESTAMP_SECS);
}

#[test]
fn test_latest_timestamp_formats() {
    let mut client = Client::new();
    client.apikey("k");
    client.since(Timestamp::from_secs(MAX_TIMESTAMP_SECS).unwrap());
    let req = client.threats_request(None).unwrap();
    assert_eq!(
        req.url,
        "https://otx.alienvault.com/api/v1/pulses/subscribed?limit=25&modified_since=9999-12-31T23:59:59Z"
    );
}
