use acsrs::soap::Envelope;
use acsrs::utils::{
    common_name, content, encoding_or_empty, get_cn, random_password, reply, reply_error,
    reply_xml, req_path, ContentError, Payload, Reading, Reply, ReplyError,
};
use openssl::asn1::Asn1Time;
use openssl::bn::BigNum;
use openssl::ec::{EcGroup, EcKey};
use openssl::hash::MessageDigest;
use openssl::nid::Nid;
use openssl::pkey::PKey;
use openssl::x509::{X509NameBuilder, X509};

fn certificate(subject: &[(Nid, &str)]) -> native_tls::Certificate {
    let group = EcGroup::from_curve_name(Nid::X9_62_PRIME256V1).unwrap();
    let key = PKey::from_ec_key(EcKey::generate(&group).unwrap()).unwrap();
    let mut name = X509NameBuilder::new().unwrap();
    for (nid, value) in subject {
        name.append_entry_by_nid(*nid, value).unwrap();
    }
    let name = name.build();
    let mut builder = X509::builder().unwrap();
    builder.set_version(2).unwrap();
    builder.set_subject_name(&name).unwrap();
    builder.set_issuer_name(&name).unwrap();
    builder.set_pubkey(&key).unwrap();
    builder.set_not_before(&Asn1Time::days_from_now(0).unwrap()).unwrap();
    builder.set_not_after(&Asn1Time::days_from_now(1).unwrap()).unwrap();
    let serial = BigNum::from_u32(1).unwrap().to_asn1_integer().unwrap();
    builder.set_serial_number(&serial).unwrap();
    builder.sign(&key, MessageDigest::sha256()).unwrap();
    native_tls::Certificate::from_der(&builder.build().to_der().unwrap()).unwrap()
}

#[test]
fn reply_carries_status_and_text() {
    assert_eq!(
        reply(204, String::new()),
        Ok(Reply { status: 204, headers: Vec::new(), body: Payload::Text(String::new()) })
    );
    assert_eq!(
        reply(403, String::from("Forbidden\n")),
        Ok(Reply {
            status: 403,
            headers: Vec::new(),
            body: Payload::Text(String::from("Forbidden\n")),
        })
    );
}

#[test]
fn reply_accepts_the_codes_from_100_to_999() {
    assert_eq!(reply(100, String::new()).unwrap().status, 100);
    assert_eq!(reply(999, String::new()).unwrap().status, 999);
    assert_eq!(reply(99, String::new()), Err(ReplyError::InvalidStatusCode));
    assert_eq!(reply(1000, String::new()), Err(ReplyError::InvalidStatusCode));
    assert_eq!(reply(0, String::from("x")), Err(ReplyError::InvalidStatusCode));
    assert_eq!(reply(u16::MAX, String::new()), Err(ReplyError::InvalidStatusCode));
}

#[test]
fn reply_xml_is_ok_with_xml_headers() {
    let mut envelope = Envelope::new(5);
    envelope.add_inform_response();
    assert_eq!(
        reply_xml(envelope.clone()),
        Reply {
            status: 200,
            headers: vec![
                (String::from("User-Agent"), String::from("acsrs")),
                (String::from("Content-type"), String::from("text/xml; charset=\"utf-8\"")),
            ],
            body: Payload::Xml(envelope),
        }
    );
}

#[test]
fn reply_error_reports_the_diagnostic() {
    assert_eq!(
        reply_error("connection reset"),
        Reply {
            status: 500,
            headers: Vec::new(),
            body: Payload::Text(String::from("Server internal error: connection reset\n")),
        }
    );
    assert_eq!(
        reply_error("").body,
        Payload::Text(String::from("Server internal error: \n"))
    );
}

#[test]
fn req_path_splits_at_slashes() {
    assert_eq!(req_path("/cwmpWeb/CPEMgt", 0), "");
    assert_eq!(req_path("/cwmpWeb/CPEMgt", 1), "cwmpWeb");
    assert_eq!(req_path("/cwmpWeb/CPEMgt", 2), "CPEMgt");
    assert_eq!(req_path("/cwmpWeb/CPEMgt", 3), "");
    assert_eq!(req_path("/cwmpWeb/CPEMgt", u32::MAX), "");
}

#[test]
fn req_path_edge_cases() {
    assert_eq!(req_path("", 0), "");
    assert_eq!(req_path("", 1), "");
    assert_eq!(req_path("/", 0), "");
    assert_eq!(req_path("/", 1), "");
    assert_eq!(req_path("/", 2), "");
    assert_eq!(req_path("abc", 0), "abc");
    assert_eq!(req_path("abc", 1), "");
    assert_eq!(req_path("a//b/", 0), "a");
    assert_eq!(req_path("a//b/", 1), "");
    assert_eq!(req_path("a//b/", 2), "b");
    assert_eq!(req_path("a//b/", 3), "");
    assert_eq!(req_path("a//b/", 4), "");
}

#[test]
fn req_path_counts_characters_not_bytes() {
    assert_eq!(req_path("/é/ü€/z", 1), "é");
    assert_eq!(req_path("/é/ü€/z", 2), "ü€");
    assert_eq!(req_path("/é/ü€/z", 3), "z");
}

#[test]
fn content_decodes_utf8() {
    assert_eq!(content(Vec::new()), Ok(String::new()));
    assert_eq!(content(b"<a/>".to_vec()), Ok(String::from("<a/>")));
    assert_eq!(content(vec![0xc3, 0xa9]), Ok(String::from("é")));
}

#[test]
fn content_rejects_what_is_not_utf8() {
    assert_eq!(content(vec![0xff]), Err(ContentError::InvalidUtf8));
    assert_eq!(content(vec![b'a', 0xc3]), Err(ContentError::InvalidUtf8));
    assert_eq!(content(vec![0xed, 0xa0, 0x80]), Err(ContentError::InvalidUtf8));
}

#[test]
fn random_password_is_thirty_letters_and_digits() {
    for _ in 0..50 {
        let password = random_password();
        assert_eq!(password.chars().count(), 30);
        assert_eq!(password.len(), 30);
        assert!(password.chars().all(|c| c.is_ascii_alphanumeric()));
    }
}

#[test]
fn random_passwords_differ() {
    assert_ne!(random_password(), random_password());
}

#[test]
fn get_cn_without_certificate_is_none() {
    assert_eq!(get_cn(None), None);
}

#[test]
fn get_cn_reads_the_common_name() {
    let cert = certificate(&[(Nid::COMMONNAME, "cpe-0042")]);
    assert_eq!(get_cn(Some(cert)), Some(String::from("cpe-0042")));
}

#[test]
fn get_cn_reads_the_first_entry_of_the_subject() {
    let cert = certificate(&[(Nid::ORGANIZATIONNAME, "Acme"), (Nid::COMMONNAME, "cpe-0042")]);
    assert_eq!(get_cn(Some(cert)), Some(String::from("Acme")));
}

#[test]
fn get_cn_of_empty_subject_is_none() {
    let cert = certificate(&[]);
    assert_eq!(get_cn(Some(cert)), None);
}

#[test]
fn encoding_or_empty_keeps_the_encoding() {
    assert_eq!(encoding_or_empty(Some(vec![0x30, 0x03, 0x01])), vec![0x30, 0x03, 0x01]);
    assert_eq!(encoding_or_empty(Some(Vec::new())), Vec::<u8>::new());
    assert_eq!(encoding_or_empty(None), Vec::<u8>::new());
}

#[test]
fn common_name_is_the_text_of_the_first_entry() {
    assert_eq!(common_name(Reading::Rejected), None);
    assert_eq!(common_name(Reading::Nameless), None);
    assert_eq!(common_name(Reading::Entry(None)), None);
    assert_eq!(
        common_name(Reading::Entry(Some(String::from("cpe-0042")))),
        Some(String::from("cpe-0042"))
    );
    assert_eq!(common_name(Reading::Entry(Some(String::new()))), Some(String::new()));
}
