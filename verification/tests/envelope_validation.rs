//! Validation of the provider's response envelopes.

use ddns_reconcile::envelope::{ListEnvelope, RecordEnvelope, RequestError};
use ddns_reconcile::outcome::Cause;
use ddns_reconcile::record::DnsRecord;

fn sample_record() -> DnsRecord {
    DnsRecord {
        id: "rec1".to_string(),
        record_type: "AAAA".to_string(),
        name: "host.example.com".to_string(),
        content: "2001:db8::1".to_string(),
        ttl: 300,
        proxied: true,
        zone_id: "zone9".to_string(),
    }
}

#[test]
fn successful_listing_yields_its_records() {
    let env = ListEnvelope {
        success: true,
        result: Some(vec![sample_record()]),
        errors: Vec::new(),
    };
    assert_eq!(env.into_records(), Ok(vec![sample_record()]));
}

#[test]
fn rejected_listing_yields_unmodified_errors() {
    let errors = vec![
        RequestError { code: "10000".to_string(), message: "authentication error".to_string() },
        RequestError { code: "6003".to_string(), message: "invalid request headers".to_string() },
    ];
    let env = ListEnvelope { success: false, result: None, errors: errors.clone() };
    assert_eq!(env.into_records(), Err(Cause::Api(errors)));
}

#[test]
fn rejected_listing_with_payload_is_still_rejected() {
    // A result sent alongside `success: false` must not be mistaken for data.
    let errors =
        vec![RequestError { code: "6003".to_string(), message: "invalid request".to_string() }];
    let env = ListEnvelope {
        success: false,
        result: Some(vec![sample_record()]),
        errors: errors.clone(),
    };
    assert_eq!(env.into_records(), Err(Cause::Api(errors)));
}

#[test]
fn successful_listing_without_payload_is_malformed() {
    let env = ListEnvelope { success: true, result: None, errors: Vec::new() };
    assert_eq!(env.into_records(), Err(Cause::Malformed));
}

#[test]
fn successful_update_yields_the_committed_record() {
    let env =
        RecordEnvelope { success: true, result: Some(sample_record()), errors: Vec::new() };
    assert_eq!(env.into_record(), Ok(sample_record()));
}

#[test]
fn rejected_update_yields_unmodified_errors() {
    let errors =
        vec![RequestError { code: "81044".to_string(), message: "record not found".to_string() }];
    let env = RecordEnvelope { success: false, result: None, errors: errors.clone() };
    assert_eq!(env.into_record(), Err(Cause::Api(errors)));
}

#[test]
fn successful_update_without_record_is_a_conflict() {
    let env = RecordEnvelope { success: true, result: None, errors: Vec::new() };
    assert_eq!(env.into_record(), Err(Cause::Conflict));
}
