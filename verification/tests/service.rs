use bbk_exporter::bbk::BbkError;
use bbk_exporter::gauges::GaugeSet;
use bbk_exporter::service::{handle_scrape, internal_server_error, not_found, route_request, RequestAction};

const VALID_LINE: &str =
    "250.445,254.074,4.47409,anycast-global-ipv4.bredbandskollen.se,ISP AB,support_id,11111111";

const EXPECTED_EXPOSITION: &str = "# HELP bbk_download_speed_mbps Download speed in Mbit/s
# TYPE bbk_download_speed_mbps gauge
bbk_download_speed_mbps{network_operator=\"ISP AB\",server=\"anycast-global-ipv4.bredbandskollen.se\"} 250.445
# HELP bbk_latency_ms Latency to test server in ms
# TYPE bbk_latency_ms gauge
bbk_latency_ms{network_operator=\"ISP AB\",server=\"anycast-global-ipv4.bredbandskollen.se\"} 4.47409
# HELP bbk_upload_speed_mbps Upload speed in Mbit/s
# TYPE bbk_upload_speed_mbps gauge
bbk_upload_speed_mbps{network_operator=\"ISP AB\",server=\"anycast-global-ipv4.bredbandskollen.se\"} 254.074
";

#[test]
fn scrape_end_to_end() {
    let registry = prometheus::Registry::new();
    let mut gauges = GaugeSet::new(&registry).unwrap();
    let reply = handle_scrape(&mut gauges, Ok(VALID_LINE.as_bytes().to_vec()));
    assert_eq!(reply.status, 200);
    assert_eq!(reply.content_type.as_deref(), Some("text/plain; version=0.0.4"));
    assert_eq!(reply.body, EXPECTED_EXPOSITION);
}

#[test]
fn failed_scrape_leaves_the_registry_unchanged() {
    let registry = prometheus::Registry::new();
    let mut gauges = GaugeSet::new(&registry).unwrap();
    let first = handle_scrape(&mut gauges, Ok(VALID_LINE.as_bytes().to_vec()));
    assert_eq!(first.status, 200);

    let second = handle_scrape(&mut gauges, Ok(b"garbage".to_vec()));
    assert_eq!(second.status, 500);
    assert_eq!(second.body, "Failure while running bbk");
    assert_eq!(second.content_type, None);
    assert_eq!(gauges.render(), first.body);

    let third = handle_scrape(&mut gauges, Err(BbkError::ProcessError));
    assert_eq!(third.status, 500);
    assert_eq!(third.body, "Failure while running bbk");
    assert_eq!(gauges.render(), first.body);
}

#[test]
fn later_scrapes_overwrite_only_their_label_pair() {
    let registry = prometheus::Registry::new();
    let mut gauges = GaugeSet::new(&registry).unwrap();
    let first = handle_scrape(&mut gauges, Ok(b"1.0,2.0,3.0,srv-a,Op A,sid,1".to_vec()));
    assert_eq!(first.status, 200);
    let second = handle_scrape(&mut gauges, Ok(b"4.0,5.0,6.0,srv-b,Op B,sid,2".to_vec()));
    assert_eq!(second.status, 200);
    let third = handle_scrape(&mut gauges, Ok(b"7.0,8.0,9.0,srv-a,Op A,sid,3".to_vec()));
    assert_eq!(third.status, 200);
    let body = third.body;
    assert!(body.contains("bbk_download_speed_mbps{network_operator=\"Op A\",server=\"srv-a\"} 7"));
    assert!(body.contains("bbk_download_speed_mbps{network_operator=\"Op B\",server=\"srv-b\"} 4"));
    assert!(body.contains("bbk_upload_speed_mbps{network_operator=\"Op A\",server=\"srv-a\"} 8"));
    assert!(body.contains("bbk_latency_ms{network_operator=\"Op A\",server=\"srv-a\"} 9"));
    assert!(!body.contains("server=\"srv-a\"} 1"));
}

#[test]
fn unknown_route_is_not_found() {
    for (method, path) in [
        ("GET", "/"),
        ("GET", "/metric"),
        ("GET", "/metrics/"),
        ("POST", "/metrics"),
        ("PUT", "/somewhere"),
    ] {
        match route_request(method, path) {
            RequestAction::Respond(rep) => {
                assert_eq!(rep.status, 404);
                assert_eq!(rep.body, "Not found");
                assert_eq!(rep.content_type, None);
            },
            RequestAction::RunMeasurement => panic!("{} {} should not scrape", method, path),
        }
    }
    assert!(matches!(route_request("GET", "/metrics"), RequestAction::RunMeasurement));
}

#[test]
fn double_registration_fails_fast() {
    let registry = prometheus::Registry::new();
    let first = GaugeSet::new(&registry);
    assert!(first.is_ok());
    let second = GaugeSet::new(&registry);
    assert!(matches!(second, Err(BbkError::RegistrationError)));
}

#[test]
fn fixed_replies_have_the_documented_shape() {
    let nf = not_found();
    assert_eq!(nf.status, 404);
    assert_eq!(nf.body, "Not found");
    assert_eq!(nf.content_type, None);
    let ise = internal_server_error();
    assert_eq!(ise.status, 500);
    assert_eq!(ise.body, "Failure while running bbk");
    assert_eq!(ise.content_type, None);
}

#[test]
fn fresh_gauge_set_renders_empty() {
    let registry = prometheus::Registry::new();
    let gauges = GaugeSet::new(&registry).unwrap();
    assert_eq!(gauges.render(), "");
}

#[test]
fn label_pairs_with_equal_concatenation_share_one_child() {
    let registry = prometheus::Registry::new();
    let mut gauges = GaugeSet::new(&registry).unwrap();
    let first = handle_scrape(&mut gauges, Ok(b"1.0,2.0,3.0,ab,c,sid,1".to_vec()));
    assert_eq!(first.status, 200);
    let second = handle_scrape(&mut gauges, Ok(b"4.0,5.0,6.0,a,bc,sid,2".to_vec()));
    assert_eq!(second.status, 200);
    let body = second.body;
    // The metrics library keys children by the concatenated label values,
    // so the second pair lands on the first pair's child: the value is
    // overwritten while the stored labels stay those of the first pair.
    assert!(body.contains("bbk_download_speed_mbps{network_operator=\"c\",server=\"ab\"} 4"));
    assert!(!body.contains("network_operator=\"bc\""));
}
