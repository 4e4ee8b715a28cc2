use couch_webos::credential::{certificate_fits, Credential, WebOsCredential};
use couch_webos::error::{ClientError, Error};
use couch_webos::{Settings, WebOsTv};

#[test]
fn credential_round_trips_without_printing_or_accepting_an_empty_secure_pin() {
    let held = WebOsCredential {
        key: "private-key".into(),
        certificate: vec![1, 2, 3, 4],
    };
    let credential = held.credential();
    assert_eq!(credential.redacted(), "Credential(..)");
    let parsed = WebOsCredential::parse(&credential, true).ok().unwrap();
    assert_eq!(parsed.key, "private-key");
    assert_eq!(parsed.certificate, vec![1, 2, 3, 4]);
    let no_pin = WebOsCredential {
        key: "private-key".into(),
        certificate: Vec::new(),
    }
    .credential();
    assert!(matches!(
        WebOsCredential::parse(&no_pin, true),
        Err(Error::Certificate)
    ));
    assert!(WebOsCredential::parse(&no_pin, false).is_ok());
}

#[test]
fn a_certificate_is_kept_in_standard_base64() {
    let credential = WebOsCredential {
        key: "k".into(),
        certificate: vec![0xfb, 0xff, 0x00, 0x41],
    }
    .credential();
    assert_eq!(credential.client_key.as_deref(), Some("k"));
    assert_eq!(credential.certificate.as_deref(), Some("+/8AQQ=="));
}

fn credential(key: Option<&str>, certificate: Option<&str>) -> Credential {
    Credential {
        client_key: key.map(str::to_owned),
        certificate: certificate.map(str::to_owned),
    }
}

#[test]
fn a_credential_needs_a_key_and_a_readable_certificate() {
    let long = "k".repeat(4096);
    let too_long = "k".repeat(4097);
    let wide = "\u{e9}".repeat(2049);
    for key in [None, Some(""), Some(too_long.as_str()), Some(wide.as_str())] {
        assert!(matches!(
            WebOsCredential::parse(&credential(key, Some("AQID")), false),
            Err(Error::Unpaired)
        ));
    }
    for certificate in [None, Some("A"), Some("AQI"), Some("not base64!")] {
        assert!(matches!(
            WebOsCredential::parse(&credential(Some("key"), certificate), false),
            Err(Error::Certificate)
        ));
    }
    let parsed = WebOsCredential::parse(&credential(Some(long.as_str()), Some("AQID")), true)
        .ok()
        .unwrap();
    assert_eq!(parsed.key.len(), 4096);
    assert_eq!(parsed.certificate, vec![1, 2, 3]);
}

#[test]
fn given_parts_make_a_credential() {
    let parsed = WebOsCredential::from_parts(Some("key"), Some(vec![7]), true)
        .ok()
        .unwrap();
    assert_eq!(parsed.clone().key, "key");
    assert_eq!(parsed.clone().certificate, vec![7]);
    assert!(matches!(
        WebOsCredential::from_parts(None, None, false),
        Err(Error::Unpaired)
    ));
    assert!(matches!(
        WebOsCredential::from_parts(Some("key"), None, false),
        Err(Error::Certificate)
    ));
}

#[test]
fn a_connection_is_opened_with_what_the_credential_holds() {
    let settings = Settings {
        url: "wss://192.0.2.10:3001/".into(),
    };
    let (opening, held) =
        WebOsTv::connect_with(&settings, Some(&credential(Some("key"), Some("AQID")))).ok().unwrap();
    assert!(opening.endpoint.secure);
    assert_eq!(opening.endpoint.port, 3001);
    let payload = opening.registration.get("payload").unwrap();
    assert_eq!(payload.text_at("client-key"), Some("key"));
    assert_eq!(held.certificate, vec![1, 2, 3]);

    assert!(matches!(WebOsTv::connect(&settings), Err(ClientError::Unpaired)));
    assert!(matches!(
        WebOsTv::connect_with(&settings, None),
        Err(ClientError::Unpaired)
    ));
    assert!(matches!(
        WebOsTv::connect_with(&settings, Some(&credential(Some("key"), Some("")))),
        Err(ClientError::Unpaired)
    ));
    let wrong = Settings {
        url: "192.0.2.10".into(),
    };
    assert!(matches!(
        WebOsTv::connect_with(&wrong, None),
        Err(ClientError::InvalidSetting { field: "url", .. })
    ));
    assert!(matches!(
        WebOsTv::pair_start(&wrong),
        Err(ClientError::InvalidSetting { field: "url", .. })
    ));
}

#[test]
fn a_certificate_fits_where_its_text_can_be_held() {
    assert!(certificate_fits(0));
    assert!(certificate_fits(1 << 20));
    assert!(!certificate_fits(usize::MAX));
    let most = isize::MAX as usize / 4 * 3;
    assert!(certificate_fits(most));
    assert!(!certificate_fits(most + 1));
}

#[test]
fn a_connection_over_tls_is_pinned_however_its_scheme_is_written() {
    let empty = credential(Some("key"), Some(""));
    for url in ["wss://192.0.2.10:3001/", "WSS://192.0.2.10:3001/", "Wss://[fe80::1]/"] {
        let settings = Settings { url: url.into() };
        assert!(matches!(
            WebOsTv::connect_with(&settings, Some(&empty)),
            Err(ClientError::Unpaired)
        ));
        let pinned = credential(Some("key"), Some("AQID"));
        let (opening, held) = WebOsTv::connect_with(&settings, Some(&pinned)).ok().unwrap();
        assert!(opening.endpoint.secure);
        assert_eq!(held.certificate, vec![1, 2, 3]);
    }
    let plain = Settings {
        url: "WS://192.0.2.10:3000/".into(),
    };
    assert!(WebOsTv::connect_with(&plain, Some(&empty)).is_ok());
}
