//! Decoding the echo reply's answer section into the discovered address.

use ddns_reconcile::discovery::{decode_answers, DnsAnswer};
use ddns_reconcile::outcome::DiscoveryError;

#[test]
fn single_fragment_is_the_address() {
    let answers = vec![DnsAnswer::Txt(vec![b"203.0.113.7".to_vec()])];
    assert_eq!(decode_answers(answers), Ok("203.0.113.7".to_string()));
}

#[test]
fn fragments_concatenate_in_order() {
    let answers = vec![DnsAnswer::Txt(vec![b"203.0.".to_vec(), b"113.9".to_vec()])];
    assert_eq!(decode_answers(answers), Ok("203.0.113.9".to_string()));
}

#[test]
fn no_answer_is_an_error_not_an_empty_address() {
    assert_eq!(decode_answers(Vec::new()), Err(DiscoveryError::NoAnswer));
}

#[test]
fn non_text_first_answer_is_no_answer() {
    assert_eq!(decode_answers(vec![DnsAnswer::Other]), Err(DiscoveryError::NoAnswer));
}

#[test]
fn invalid_utf8_fragment_is_malformed() {
    let answers = vec![DnsAnswer::Txt(vec![vec![0xff, 0xfe]])];
    assert_eq!(decode_answers(answers), Err(DiscoveryError::MalformedAnswer));
}

#[test]
fn later_invalid_fragment_is_malformed() {
    let answers = vec![DnsAnswer::Txt(vec![b"2001:db8::1".to_vec(), vec![0x80]])];
    assert_eq!(decode_answers(answers), Err(DiscoveryError::MalformedAnswer));
}

#[test]
fn text_record_without_fragments_decodes_empty() {
    let answers = vec![DnsAnswer::Txt(Vec::new())];
    assert_eq!(decode_answers(answers), Ok(String::new()));
}

#[test]
fn only_the_first_answer_is_decoded() {
    let answers = vec![
        DnsAnswer::Txt(vec![b"198.51.100.2".to_vec()]),
        DnsAnswer::Txt(vec![b"203.0.113.9".to_vec()]),
    ];
    assert_eq!(decode_answers(answers), Ok("198.51.100.2".to_string()));
}

#[test]
fn multibyte_characters_survive_decoding() {
    let answers = vec![DnsAnswer::Txt(vec!["gr\u{00fc}n".as_bytes().to_vec()])];
    assert_eq!(decode_answers(answers), Ok("gr\u{00fc}n".to_string()));
}
