use couch_webos::address::{
    checked_endpoint, endpoint, pointer_endpoint, Endpoint, Host, IpAddress, Resource, UrlParts,
};
use couch_webos::error::{ClientError, Error};
use couch_webos::settings::dotted_text;
use couch_webos::Settings;

#[test]
fn settings_require_one_root_websocket_url_at_a_unicast_ip() {
    for valid in ["ws://127.0.0.1:3000/", "wss://192.0.2.10:3001/"] {
        assert!(Settings { url: valid.into() }.validate().is_ok(), "{valid}");
    }
    for invalid in [
        "",
        "192.0.2.10",
        "https://192.0.2.10/",
        "wss://example.com/",
        "wss://0.0.0.0:3001/",
        "wss://224.0.0.1:3001/",
        "wss://192.0.2.10:3001/path",
        "wss://user@192.0.2.10:3001/",
    ] {
        assert!(
            Settings {
                url: invalid.into()
            }
            .validate()
            .is_err(),
            "{invalid}"
        );
    }
}

#[test]
fn the_setup_field_takes_an_ip_address_or_a_root_url() {
    for (field, url) in [
        ("192.0.2.20", "wss://192.0.2.20:3001/"),
        ("fe80::1", "wss://[fe80::1]:3001/"),
        ("FE80::1", "wss://[FE80::1]:3001/"),
        ("ws://127.0.0.1:3000/", "ws://127.0.0.1:3000/"),
        ("wss://192.0.2.10:3001/", "wss://192.0.2.10:3001/"),
    ] {
        let settings = Settings::from_field(field).unwrap();
        assert_eq!(settings.url, url);
        assert!(settings.validate().is_ok());
        assert_eq!(Settings::from_field(&settings.url), Ok(settings.clone()));
    }
    for field in [
        "",
        "example.com",
        "0.0.0.0",
        "224.0.0.1",
        "::",
        "ff02::1",
        "192.168.1",
        "0x7f.0.0.1",
        "010.0.0.1",
        "192.0.2.20:3000",
        "192.0.2.20/",
        "user@192.0.2.20",
        "wss://192.0.2.10:3001/path",
        "fe80::1]:80/",
        "fe80::\n1",
    ] {
        assert_eq!(
            Settings::from_field(field),
            Err(ClientError::InvalidSetting {
                field: "url",
                text: "Enter a complete LG TV address such as wss://192.0.2.20:3001/",
            }),
            "{field}"
        );
    }
}

#[test]
fn an_endpoint_has_a_unicast_address_and_a_port() {
    assert_eq!(
        endpoint("wss://192.0.2.10/"),
        Ok(Endpoint {
            secure: true,
            address: IpAddress::V4(0xc000_020a),
            port: 443,
        })
    );
    assert_eq!(
        endpoint("ws://[::1]:3000"),
        Ok(Endpoint {
            secure: false,
            address: IpAddress::V6(1),
            port: 3000,
        })
    );
    for refused in [
        "ws://192.0.2.10:0/",
        "ws://:secret@192.0.2.10/",
        "ws://192.0.2.10/#part",
        "ws://192.0.2.10/?query",
        "ws://[::]/",
        "ws://[ff00::1]/",
        "ws://239.255.255.255/",
        "ws://300.0.0.1/",
        "http://192.0.2.10/",
    ] {
        assert_eq!(endpoint(refused), Err(Error::Configuration), "{refused}");
    }
    assert!(endpoint("ws://223.255.255.255/").is_ok());
    assert!(endpoint("ws://240.0.0.1/").is_ok());
}

#[test]
fn a_pointer_socket_may_name_a_resource() {
    let raw = "ws://192.0.2.10:3000/resources/pointer?token=fixture";
    assert_eq!(endpoint(raw), Err(Error::Configuration));
    assert_eq!(pointer_endpoint(raw), endpoint("ws://192.0.2.10:3000/"));
    assert_eq!(
        pointer_endpoint("ws://192.0.2.10:3000/resources#part"),
        Err(Error::Configuration)
    );
}

#[test]
fn a_url_is_secure_by_its_scheme() {
    let url = |url: &str| Settings { url: url.into() };
    assert!(url("wss://192.0.2.10:3001/").is_secure());
    assert!(url("WSS://192.0.2.10:3001/").is_secure());
    assert!(endpoint("WSS://192.0.2.10:3001/").unwrap().secure);
    assert!(!url("ws://192.0.2.10:3000/").is_secure());
    assert!(!url("wss://example.com/").is_secure());
    assert!(!Settings::default().is_secure());
    assert_eq!(url("ws://192.0.2.10/").clone(), url("ws://192.0.2.10/"));
}

#[test]
fn an_ipv4_address_has_a_dotted_form() {
    assert_eq!(dotted_text(0), "0.0.0.0");
    assert_eq!(dotted_text(0xc000_020a), "192.0.2.10");
    assert_eq!(dotted_text(0xffff_ffff), "255.255.255.255");
}

#[test]
fn parts_of_a_url_are_checked_one_by_one() {
    let parts = || UrlParts {
        scheme: "ws".into(),
        username: String::new(),
        password: None,
        host: Some(Host::V4(0xc000_020a)),
        port: Some(3000),
        path: "/".into(),
        query: None,
        fragment: None,
    };
    let root = |parts| checked_endpoint(Some(parts), Resource::Root);
    assert!(root(parts()).is_ok());
    assert!(root(UrlParts { scheme: "wss".into(), ..parts() }).unwrap().secure);
    assert!(root(UrlParts { scheme: "WS".into(), ..parts() }).is_err());
    assert!(root(UrlParts { username: "u".into(), ..parts() }).is_err());
    assert!(root(UrlParts { password: Some("p".into()), ..parts() }).is_err());
    assert!(root(UrlParts { host: None, ..parts() }).is_err());
    assert!(root(UrlParts { host: Some(Host::Domain("tv".into())), ..parts() }).is_err());
    assert!(root(UrlParts { port: None, ..parts() }).is_err());
    assert!(root(UrlParts { path: "/x".into(), ..parts() }).is_err());
    assert!(root(UrlParts { query: Some("q".into()), ..parts() }).is_err());
    assert!(root(UrlParts { fragment: Some("f".into()), ..parts() }).is_err());
    assert!(checked_endpoint(None, Resource::Any).is_err());
    assert!(checked_endpoint(
        Some(UrlParts { path: "/x".into(), query: Some("q".into()), ..parts() }),
        Resource::Any
    )
    .is_ok());
}
