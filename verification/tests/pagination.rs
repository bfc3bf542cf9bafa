use std::cell::Cell;
use std::cell::RefCell;

use otx::threats_response;
use otx::Client;
use otx::Error;
use otx::IterStep;
use otx::Request;
use otx::Threat;
use otx::Threats;

fn threat_json(id: &str) -> String {
    format!(
        "{{\"id\":\"{}\",\"author_name\":\"a\",\"name\":\"n\",\"created\":\"c\",\"modified\":\"m\",\"indicators\":[],\"revision\":1}}",
        id
    )
}

/// Serves three pages of two threats each: the first two pages carry a
/// `next` cursor, the last does not.
fn serve(url: &str) -> (u16, String) {
    let page = |ids: [&str; 2], next: &str| -> String {
        format!(
            "{{\"count\":6,\"next\":{},\"previous\":null,\"results\":[{},{}]}}",
            next,
            threat_json(ids[0]),
            threat_json(ids[1])
        )
    };
    if url == "http://exchange.test/page2" {
        (200, page(["t3", "t4"], "\"http://exchange.test/page3\""))
    } else if url == "http://exchange.test/page3" {
        (200, page(["t5", "t6"], "null"))
    } else {
        (200, page(["t1", "t2"], "\"http://exchange.test/page2\""))
    }
}

/// Runs the pagination protocol against the mock transport, counting
/// fetches, until the library says to stop.
fn drive<F: Fn(&Threat) -> bool>(client: &Client, f: &F) -> (u32, usize, IterStep) {
    let mut fetches: u32 = 0;
    let mut visited: usize = 0;
    let mut req: Request = client.threats_request(None).unwrap();
    loop {
        fetches += 1;
        let (status, body) = serve(&req.url);
        let page: Threats = threats_response(status, &body).unwrap();
        let (v, step) = client.each_feed(&page, f).unwrap();
        visited += v;
        match step {
            IterStep::Next(r) => req = r,
            other => return (fetches, visited, other),
        }
    }
}

#[test]
fn test_each_visits_every_threat_in_order() {
    let mut client = Client::new();
    client.url("http://exchange.test");
    client.apikey("k");
    let seen: RefCell<Vec<String>> = RefCell::new(Vec::new());
    let f = |t: &Threat| {
        seen.borrow_mut().push(t.id.clone());
        true
    };
    let (fetches, visited, step) = drive(&client, &f);
    assert_eq!(fetches, 3);
    assert_eq!(visited, 6);
    assert_eq!(step, IterStep::Exhausted);
    assert_eq!(
        *seen.borrow(),
        vec!["t1", "t2", "t3", "t4", "t5", "t6"]
            .into_iter()
            .map(String::from)
            .collect::<Vec<String>>()
    );
}

#[test]
fn test_each_stops_when_visitor_says_so() {
    let mut client = Client::new();
    client.url("http://exchange.test");
    client.apikey("k");
    let calls: Cell<u32> = Cell::new(0);
    let f = |_t: &Threat| {
        calls.set(calls.get() + 1);
        calls.get() < 4
    };
    let (fetches, visited, step) = drive(&client, &f);
    assert_eq!(calls.get(), 4);
    assert_eq!(visited, 4);
    assert_eq!(fetches, 2);
    assert_eq!(step, IterStep::Stopped);
}

#[test]
fn test_each_feed_without_api_key() {
    let client = Client::new();
    let page = threats_response(200, "{}").unwrap();
    let f = |_t: &Threat| true;
    assert_eq!(client.each_feed(&page, &f), Err(Error::MissingApiKey));
}

#[test]
fn test_each_feed_follows_next_cursor() {
    let mut client = Client::new();
    client.apikey("k");
    let body = "{\"next\":\"http://exchange.test/page2\",\"results\":[]}";
    let page = threats_response(200, body).unwrap();
    let f = |_t: &Threat| true;
    let (v, step) = client.each_feed(&page, &f).unwrap();
    assert_eq!(v, 0);
    match step {
        IterStep::Next(req) => {
            assert_eq!(req.url, "http://exchange.test/page2");
            assert_eq!(req.apikey, "k");
        }
        other => panic!("expected a next-page request, got {:?}", other),
    }
}

#[test]
fn test_each_feed_stops_on_last_item_of_page() {
    // The visitor refuses the last threat of the page: the cursor is
    // not followed even though the whole page was visited.
    let mut client = Client::new();
    client.apikey("k");
    let body = format!(
        "{{\"next\":\"http://exchange.test/page2\",\"results\":[{}]}}",
        threat_json("t1")
    );
    let page = threats_response(200, &body).unwrap();
    let f = |_t: &Threat| false;
    let (v, step) = client.each_feed(&page, &f).unwrap();
    assert_eq!(v, 1);
    assert_eq!(step, IterStep::Stopped);
}
