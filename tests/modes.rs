use dns_override::mode::{mode_from_name, resolve_mode, supported_modes, DnsError, Mode, Platform};

#[test]
fn names_select_modes() {
    assert_eq!(mode_from_name("systemd-resolved"), Some(Mode::SystemdResolved));
    assert_eq!(mode_from_name("resolv.conf"), Some(Mode::ResolvConf));
    assert_eq!(mode_from_name("windows"), Some(Mode::Windows));
    assert_eq!(mode_from_name("Windows"), None);
    assert_eq!(mode_from_name(""), None);
}

#[test]
fn unsupported_mode_is_refused() {
    assert_eq!(
        resolve_mode("unsupported-mode", Platform::Unix),
        Err(DnsError::UnsupportedMode("unsupported-mode".to_string()))
    );
    assert_eq!(
        resolve_mode("unsupported-mode", Platform::Windows),
        Err(DnsError::UnsupportedMode("unsupported-mode".to_string()))
    );
}

#[test]
fn mode_of_other_platform_is_refused() {
    assert_eq!(
        resolve_mode("windows", Platform::Unix),
        Err(DnsError::UnsupportedMode("windows".to_string()))
    );
    assert_eq!(
        resolve_mode("resolv.conf", Platform::Windows),
        Err(DnsError::UnsupportedMode("resolv.conf".to_string()))
    );
    assert_eq!(resolve_mode("resolv.conf", Platform::Unix), Ok(Mode::ResolvConf));
    assert_eq!(resolve_mode("systemd-resolved", Platform::Unix), Ok(Mode::SystemdResolved));
    assert_eq!(resolve_mode("windows", Platform::Windows), Ok(Mode::Windows));
}

#[test]
fn registry_lists_platform_modes() {
    assert_eq!(supported_modes(Platform::Unix), vec![Mode::SystemdResolved, Mode::ResolvConf]);
    assert_eq!(supported_modes(Platform::Windows), vec![Mode::Windows]);
}
