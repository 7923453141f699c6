use torca::iroh_config::{
    configured_flag, configured_runtime_threads, flag_enabled, pairing_relay_urls,
    IrohIdentityError, IrohServiceConfig, PairingRelays,
};
use torca::iroh_profile::IrohEndpointProfile;

#[test]
fn switches_accept_the_usual_spellings() {
    assert!(flag_enabled(" TRUE "));
    assert!(flag_enabled("1"));
    assert!(flag_enabled("Yes"));
    assert!(flag_enabled("on"));
    assert!(!flag_enabled("off"));
    assert!(!flag_enabled(""));
    assert!(configured_flag(Some("on"), Some("0")));
    assert!(!configured_flag(Some("no"), Some("1")));
    assert!(configured_flag(None, Some(" yes")));
    assert!(!configured_flag(None, None));
}

#[test]
fn runtime_threads_are_bounded_with_platform_defaults() {
    assert_eq!(configured_runtime_threads(None, false), 4);
    assert_eq!(configured_runtime_threads(None, true), 2);
    assert_eq!(configured_runtime_threads(Some(" 3 "), false), 3);
    assert_eq!(configured_runtime_threads(Some("+8"), true), 8);
    assert_eq!(configured_runtime_threads(Some("9"), false), 4);
    assert_eq!(configured_runtime_threads(Some("0"), true), 2);
    assert_eq!(configured_runtime_threads(Some(""), false), 4);
    assert_eq!(configured_runtime_threads(Some("2x"), false), 4);
    assert_eq!(configured_runtime_threads(Some("99999999999999999999999"), false), 4);
}

#[test]
fn service_urls_are_trimmed_and_serialized() {
    let direct = IrohServiceConfig::from_values(
        IrohEndpointProfile::DirectOnly,
        Some("https://relay.example.com"),
        Some("https://pkarr.example.com"),
    )
    .expect("direct config");
    assert!(!direct.is_custom());
    let config = IrohServiceConfig::from_values(
        IrohEndpointProfile::AlwaysReachable,
        Some(" https://a.example.com , ,https://b.example.com"),
        Some("https://pkarr.example.com/pkarr"),
    )
    .expect("config");
    assert_eq!(config.relay_urls, vec!["https://a.example.com/", "https://b.example.com/"]);
    assert_eq!(config.pkarr_url.as_deref(), Some("https://pkarr.example.com/pkarr"));
    assert!(config.is_custom());
}

#[test]
fn invalid_service_urls_are_rejected_with_the_entry() {
    let relay = IrohServiceConfig::from_values(
        IrohEndpointProfile::AlwaysReachable,
        Some("https://ok.example.com,not a url"),
        Some("also bad"),
    );
    assert_eq!(
        relay,
        Err(IrohIdentityError::Bind(
            "invalid TORCA_IROH_RELAY_URLS entry 'not a url': relative URL without a base".to_owned()
        ))
    );
    let pkarr =
        IrohServiceConfig::from_values(IrohEndpointProfile::AlwaysReachable, None, Some("bad"));
    assert_eq!(
        pkarr,
        Err(IrohIdentityError::Bind(
            "invalid TORCA_IROH_PKARR_URL 'bad': relative URL without a base".to_owned()
        ))
    );
}

#[test]
fn pairing_relays_follow_profile_switches_and_configuration() {
    let empty = IrohServiceConfig::empty();
    assert_eq!(
        pairing_relay_urls(IrohEndpointProfile::LocalOnly, false, false, Ok(empty.clone())),
        PairingRelays::Disabled
    );
    assert_eq!(
        pairing_relay_urls(IrohEndpointProfile::AlwaysReachable, true, false, Ok(empty.clone())),
        PairingRelays::Disabled
    );
    assert_eq!(
        pairing_relay_urls(IrohEndpointProfile::AlwaysReachable, false, false, Ok(empty)),
        PairingRelays::IrohDefault
    );
    let discovery_only =
        IrohServiceConfig { relay_urls: Vec::new(), pkarr_url: Some("https://p.example/".to_owned()) };
    assert_eq!(
        pairing_relay_urls(IrohEndpointProfile::AlwaysReachable, false, false, Ok(discovery_only)),
        PairingRelays::Disabled
    );
    let relays = IrohServiceConfig { relay_urls: vec!["https://r.example/".to_owned()], pkarr_url: None };
    assert_eq!(
        pairing_relay_urls(IrohEndpointProfile::AlwaysReachable, false, false, Ok(relays)),
        PairingRelays::Configured(vec!["https://r.example/".to_owned()])
    );
    assert_eq!(
        pairing_relay_urls(
            IrohEndpointProfile::AlwaysReachable,
            false,
            false,
            Err(IrohIdentityError::InvalidStoredKey)
        ),
        PairingRelays::IrohDefault
    );
}

#[test]
fn service_configuration_is_explicit_and_direct_profiles_ignore_it() {
    let config = IrohServiceConfig::from_values(
        IrohEndpointProfile::AlwaysReachable,
        Some("https://use1-1.relay.n0.iroh.link., https://euw-1.relay.n0.iroh.link."),
        Some("https://dns.iroh.link/pkarr"),
    )
    .expect("valid custom Iroh services");
    assert!(config.is_custom());
    assert_eq!(config.relay_urls.len(), 2);
    assert!(config.pkarr_url.is_some());

    let ignored = IrohServiceConfig::from_values(
        IrohEndpointProfile::DirectOnly,
        Some("not a relay URL"),
        Some("not a URL"),
    )
    .expect("direct profile must not parse disabled services");
    assert!(!ignored.is_custom());
}
