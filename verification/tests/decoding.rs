use otx::threat_response;
use otx::threats_response;
use otx::Error;
use otx::Indicator;
use otx::IndicatorType;
use otx::Threat;

#[test]
fn test_decode_tolerance() {
    // A threat record that omits `description`, `references` and `tags`
    // decodes, with those fields at their documented defaults.
    let body = "{\"id\":\"t1\",\"author_name\":\"alice\",\"name\":\"campaign\",\"created\":\"2015-11-30T12:00:00\",\"modified\":\"2015-12-01T12:00:00\",\"indicators\":[{\"_id\":\"i1\",\"created\":\"2015-11-30T12:00:00\",\"indicator\":\"198.51.100.7\",\"type\":\"IPv4\"}],\"revision\":2.0}";
    let threat = threat_response(200, body).unwrap();
    let expected = Threat {
        id: String::from("t1"),
        author_name: String::from("alice"),
        name: String::from("campaign"),
        description: String::new(),
        created: String::from("2015-11-30T12:00:00"),
        modified: String::from("2015-12-01T12:00:00"),
        indicators: vec![Indicator {
            id: String::from("i1"),
            created: String::from("2015-11-30T12:00:00"),
            indicator: String::from("198.51.100.7"),
            indicator_type: IndicatorType::IPv4,
            description: String::new(),
        }],
        revision: String::from("2.0"),
        references: Vec::new(),
        tags: Vec::new(),
    };
    assert_eq!(threat, expected);
}

#[test]
fn test_malformed_body_is_decode_error() {
    assert_eq!(
        threats_response(200, "this is not json"),
        Err(Error::Decode)
    );
    assert_eq!(threat_response(200, "<html></html>"), Err(Error::Decode));
}

#[test]
fn test_non_success_status() {
    assert_eq!(threats_response(404, "{}"), Err(Error::HttpStatus(404)));
    assert_eq!(threats_response(500, "{}"), Err(Error::HttpStatus(500)));
    assert_eq!(threat_response(403, "{}"), Err(Error::HttpStatus(403)));
}

#[test]
fn test_page_defaults() {
    // Every member of a page record tolerates absence.
    let page = threats_response(200, "{}").unwrap();
    assert_eq!(page.count, 0);
    assert_eq!(page.next, None);
    assert_eq!(page.previous, None);
    assert_eq!(page.results, Vec::new());
}

#[test]
fn test_page_members() {
    let body = "{\"count\":7,\"next\":\"http://exchange.test/page2\",\"previous\":null,\"results\":[{\"id\":\"t1\",\"author_name\":\"a\",\"name\":\"n\",\"created\":\"c\",\"modified\":\"m\",\"indicators\":[],\"revision\":3}]}";
    let page = threats_response(200, body).unwrap();
    assert_eq!(page.count, 7);
    assert_eq!(page.next, Some(String::from("http://exchange.test/page2")));
    assert_eq!(page.previous, None);
    assert_eq!(page.results.len(), 1);
    assert_eq!(page.results[0].id, "t1");
    assert_eq!(page.results[0].revision, "3");
    assert_eq!(page.results[0].indicators, Vec::new());
}

#[test]
fn test_threat_missing_required_member() {
    // No `name` member: the record does not decode.
    let body = "{\"id\":\"t1\",\"author_name\":\"a\",\"created\":\"c\",\"modified\":\"m\",\"indicators\":[],\"revision\":1}";
    assert_eq!(threat_response(200, body), Err(Error::Decode));
}

#[test]
fn test_indicator_type_must_parse() {
    let body = "{\"id\":\"t1\",\"author_name\":\"a\",\"name\":\"n\",\"created\":\"c\",\"modified\":\"m\",\"indicators\":[{\"_id\":\"i1\",\"created\":\"c\",\"indicator\":\"x\",\"type\":\"not-a-real-type\"}],\"revision\":1}";
    assert_eq!(threat_response(200, body), Err(Error::Decode));
}

#[test]
fn test_indicator_empty_type_is_unknown() {
    let body = "{\"id\":\"t1\",\"author_name\":\"a\",\"name\":\"n\",\"created\":\"c\",\"modified\":\"m\",\"indicators\":[{\"_id\":\"i1\",\"created\":\"c\",\"indicator\":\"x\",\"type\":\"\"}],\"revision\":1}";
    let threat = threat_response(200, body).unwrap();
    assert_eq!(threat.indicators[0].indicator_type, IndicatorType::Unknown);
}

#[test]
fn test_references_and_tags_decode() {
    let body = "{\"id\":\"t1\",\"author_name\":\"a\",\"name\":\"n\",\"created\":\"c\",\"modified\":\"m\",\"indicators\":[],\"revision\":1,\"references\":[\"http://a.test\",\"http://b.test\"],\"tags\":[\"apt\"]}";
    let threat = threat_response(200, body).unwrap();
    assert_eq!(
        threat.references,
        vec![String::from("http://a.test"), String::from("http://b.test")]
    );
    assert_eq!(threat.tags, vec![String::from("apt")]);
}

#[test]
fn test_wrong_member_type_is_decode_error() {
    // `tags` present but not an array of strings.
    let body = "{\"id\":\"t1\",\"author_name\":\"a\",\"name\":\"n\",\"created\":\"c\",\"modified\":\"m\",\"indicators\":[],\"revision\":1,\"tags\":[4]}";
    assert_eq!(threat_response(200, body), Err(Error::Decode));
    // `count` present but not an unsigned integer.
    assert_eq!(threats_response(200, "{\"count\":-4}"), Err(Error::Decode));
    assert_eq!(threats_response(200, "{\"count\":2.5}"), Err(Error::Decode));
}
