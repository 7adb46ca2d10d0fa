use cloudflare_intra_dyndns::cloudflare::{
    BasicResponse, Cloudflare, DnsRecord, DnsRecordsResponse, Zone, ZonesResponse,
};
use cloudflare_intra_dyndns::failure::{Failure, FailureKind};

fn access() -> Cloudflare {
    Cloudflare::new("token-123").unwrap()
}

fn zone(id: &str, name: &str) -> Zone {
    Zone { id: id.to_string(), name: name.to_string() }
}

fn a_record(id: &str, content: &str) -> DnsRecord {
    DnsRecord {
        id: id.to_string(),
        name: "home.example.org".to_string(),
        record_type: "A".to_string(),
        content: content.to_string(),
        proxied: false,
        ttl: 120,
    }
}

fn failure(kind: FailureKind, message: &str) -> Failure {
    Failure { kind, message: message.to_string() }
}

#[test]
fn new_puts_the_credential_behind_bearer() {
    assert_eq!(access().authorization(), "Bearer token-123");
    assert_eq!(Cloudflare::new("").unwrap().authorization(), "Bearer ");
}

#[test]
fn new_refuses_a_credential_with_a_line_break() {
    let refused = Cloudflare::new("token\n123").unwrap_err();
    assert_eq!(refused, failure(FailureKind::Config, "failed to parse header value"));
}

#[test]
fn new_refuses_control_characters_and_delete() {
    assert_eq!(Cloudflare::new("a\u{0}b").unwrap_err().kind, FailureKind::Config);
    assert_eq!(Cloudflare::new("a\u{1f}b").unwrap_err().kind, FailureKind::Config);
    assert_eq!(Cloudflare::new("a\u{7f}b").unwrap_err().kind, FailureKind::Config);
    assert_eq!(Cloudflare::new("\r").unwrap_err().kind, FailureKind::Config);
}

#[test]
fn new_takes_tabs_spaces_and_what_lies_beyond_ascii() {
    assert_eq!(Cloudflare::new("a\tb").unwrap().authorization(), "Bearer a\tb");
    assert_eq!(Cloudflare::new("a b~").unwrap().authorization(), "Bearer a b~");
    assert_eq!(Cloudflare::new("zażółć").unwrap().authorization(), "Bearer zażółć");
    assert_eq!(Cloudflare::new("\u{80}").unwrap().authorization(), "Bearer \u{80}");
}

#[test]
fn assemble_keeps_the_client_it_is_given() {
    let built = access().client().clone();
    let made = Cloudflare::assemble("Bearer other".to_string(), Ok(built)).unwrap();
    assert_eq!(made.authorization(), "Bearer other");
}

#[test]
fn zones_url_names_the_zone() {
    assert_eq!(
        access().zones_url("example.org"),
        "https://api.cloudflare.com/client/v4/zones?name=example.org"
    );
    assert_eq!(access().zones_url(""), "https://api.cloudflare.com/client/v4/zones?name=");
}

#[test]
fn records_url_with_and_without_a_name() {
    assert_eq!(
        access().records_url("z1", None),
        "https://api.cloudflare.com/client/v4/zones/z1/dns_records"
    );
    assert_eq!(
        access().records_url("z1", Some("home.example.org")),
        "https://api.cloudflare.com/client/v4/zones/z1/dns_records?name=home.example.org"
    );
}

#[test]
fn record_url_names_zone_and_record() {
    assert_eq!(
        access().record_url("z1", &a_record("r9", "1.2.3.4")),
        "https://api.cloudflare.com/client/v4/zones/z1/dns_records/r9"
    );
}

#[test]
fn zone_id_is_the_identifier_of_the_first_zone() {
    let reply = ZonesResponse {
        success: true,
        result: Some(vec![zone("z1", "example.org"), zone("z2", "example.org")]),
    };
    assert_eq!(access().zone_id("example.org", Ok(reply)), Ok("z1".to_string()));
}

#[test]
fn zone_id_reports_a_zone_that_does_not_exist() {
    let reply = ZonesResponse { success: true, result: Some(vec![]) };
    assert_eq!(
        access().zone_id("example.org", Ok(reply)),
        Err(failure(FailureKind::NotFound, "Failed to find zone example.org"))
    );
}

#[test]
fn zone_id_reports_a_remote_failure() {
    let reply = ZonesResponse { success: false, result: None };
    assert_eq!(
        access().zone_id("example.org", Ok(reply)),
        Err(failure(FailureKind::Remote, "Failed to list zones"))
    );
}

#[test]
fn zone_id_reports_a_remote_failure_whatever_the_reply_carries() {
    let reply = ZonesResponse { success: false, result: Some(vec![zone("z1", "example.org")]) };
    assert_eq!(
        access().zone_id("example.org", Ok(reply)),
        Err(failure(FailureKind::Remote, "Failed to list zones"))
    );
}

#[test]
fn zone_id_reports_a_transport_failure() {
    assert_eq!(
        access().zone_id("example.org", Err("connection reset".to_string())),
        Err(failure(FailureKind::Transport, "connection reset"))
    );
}

#[test]
fn zones_reply_is_sound_where_it_can_be_read() {
    let name = "example.org";
    assert!(Cloudflare::zones_reply_is_sound(name, &Err("timeout".to_string())));
    assert!(Cloudflare::zones_reply_is_sound(
        name,
        &Ok(ZonesResponse { success: false, result: None })
    ));
    assert!(Cloudflare::zones_reply_is_sound(
        name,
        &Ok(ZonesResponse { success: true, result: Some(vec![]) })
    ));
    assert!(Cloudflare::zones_reply_is_sound(
        name,
        &Ok(ZonesResponse {
            success: true,
            result: Some(vec![zone("z1", "example.org"), zone("z2", "other.org")])
        })
    ));
}

#[test]
fn zones_reply_is_unsound_without_a_list_or_with_another_zone() {
    let name = "example.org";
    assert!(!Cloudflare::zones_reply_is_sound(
        name,
        &Ok(ZonesResponse { success: true, result: None })
    ));
    assert!(!Cloudflare::zones_reply_is_sound(
        name,
        &Ok(ZonesResponse { success: true, result: Some(vec![zone("z1", "example.com")]) })
    ));
    assert!(!Cloudflare::zones_reply_is_sound(
        name,
        &Ok(ZonesResponse {
            success: true,
            result: Some(vec![zone("z2", "other.org"), zone("z1", "example.org")])
        })
    ));
}

#[test]
fn list_records_hands_the_records_on() {
    let reply = DnsRecordsResponse {
        success: true,
        result: Some(vec![a_record("r1", "1.2.3.4"), a_record("r2", "5.6.7.8")]),
    };
    assert_eq!(
        access().list_records(Ok(reply)),
        Ok(vec![a_record("r1", "1.2.3.4"), a_record("r2", "5.6.7.8")])
    );
}

#[test]
fn list_records_takes_an_empty_list() {
    let reply = DnsRecordsResponse { success: true, result: Some(vec![]) };
    assert_eq!(access().list_records(Ok(reply)), Ok(vec![]));
}

#[test]
fn list_records_reports_a_remote_failure() {
    let reply = DnsRecordsResponse { success: false, result: Some(vec![a_record("r1", "1.2.3.4")]) };
    assert_eq!(
        access().list_records(Ok(reply)),
        Err(failure(FailureKind::Remote, "Failed to list DNS records"))
    );
}

#[test]
fn list_records_reports_a_transport_failure() {
    assert_eq!(
        access().list_records(Err("dns error".to_string())),
        Err(failure(FailureKind::Transport, "dns error"))
    );
}

#[test]
fn records_reply_is_sound_unless_success_comes_without_a_list() {
    assert!(Cloudflare::records_reply_is_sound(&Err("timeout".to_string())));
    assert!(Cloudflare::records_reply_is_sound(&Ok(DnsRecordsResponse {
        success: false,
        result: None
    })));
    assert!(Cloudflare::records_reply_is_sound(&Ok(DnsRecordsResponse {
        success: true,
        result: Some(vec![])
    })));
    assert!(!Cloudflare::records_reply_is_sound(&Ok(DnsRecordsResponse {
        success: true,
        result: None
    })));
}

#[test]
fn patch_record_takes_a_confirmation() {
    let record = a_record("r1", "5.6.7.8");
    assert_eq!(access().patch_record(&record, Ok(BasicResponse { success: true })), Ok(()));
}

#[test]
fn patch_record_reports_a_remote_failure_with_the_name() {
    let record = a_record("r1", "5.6.7.8");
    assert_eq!(
        access().patch_record(&record, Ok(BasicResponse { success: false })),
        Err(failure(FailureKind::Remote, "Failed to patch DNS record 'home.example.org'"))
    );
}

#[test]
fn patch_record_reports_a_transport_failure() {
    let record = a_record("r1", "5.6.7.8");
    assert_eq!(
        access().patch_record(&record, Err("broken pipe".to_string())),
        Err(failure(FailureKind::Transport, "broken pipe"))
    );
}

#[test]
fn record_clone_keeps_every_field() {
    let record = DnsRecord {
        id: "r1".to_string(),
        name: "n".to_string(),
        record_type: "AAAA".to_string(),
        content: "::1".to_string(),
        proxied: true,
        ttl: -1,
    };
    assert_eq!(record.clone(), record);
}
