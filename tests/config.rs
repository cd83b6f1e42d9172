use tun_inbound::config::{
    plan_inbound, select_fake_dns, ConfigError, DeviceConfig, FakeDnsMode, InterfaceConfig, TunDefaults,
    TunSettings,
};

fn settings() -> TunSettings {
    TunSettings {
        fd: -1,
        auto: false,
        name: "tun9".to_string(),
        address: "10.1.0.2".to_string(),
        gateway: "10.1.0.1".to_string(),
        netmask: "255.255.0.0".to_string(),
        mtu: 9000,
        fake_dns_exclude: vec![],
        fake_dns_include: vec![],
    }
}

fn defaults() -> TunDefaults {
    TunDefaults {
        name: "utun8".to_string(),
        address: "172.7.0.2".to_string(),
        gateway: "172.7.0.1".to_string(),
        netmask: "255.255.255.0".to_string(),
    }
}

#[test]
fn both_lists_are_refused() {
    let mut s = settings();
    s.fake_dns_include = vec!["google".to_string()];
    s.fake_dns_exclude = vec!["baidu".to_string()];
    assert_eq!(plan_inbound(s, defaults()), Err(ConfigError::ConflictingFakeDnsLists));
}

#[test]
fn conflicting_lists_are_reported_before_auto_with_fd() {
    let mut s = settings();
    s.auto = true;
    s.fd = 3;
    s.fake_dns_include = vec!["a".to_string()];
    s.fake_dns_exclude = vec!["b".to_string()];
    assert_eq!(plan_inbound(s, defaults()), Err(ConfigError::ConflictingFakeDnsLists));
}

#[test]
fn auto_with_fd_is_refused() {
    let mut s = settings();
    s.auto = true;
    s.fd = 4;
    assert_eq!(plan_inbound(s, defaults()), Err(ConfigError::AutoWithFd));
}

#[test]
fn manual_interface_is_planned() {
    let mut s = settings();
    s.fake_dns_include = vec!["google".to_string()];
    let plan = plan_inbound(s, defaults()).unwrap();
    assert_eq!(
        plan.device,
        DeviceConfig::Interface(InterfaceConfig {
            name: "tun9".to_string(),
            address: "10.1.0.2".to_string(),
            destination: "10.1.0.1".to_string(),
            netmask: "255.255.0.0".to_string(),
            mtu: 9000,
        })
    );
    assert_eq!(plan.fake_dns_mode, FakeDnsMode::Include);
    assert_eq!(plan.fake_dns_filters, vec!["google".to_string()]);
}

#[test]
fn auto_interface_uses_defaults() {
    let mut s = settings();
    s.auto = true;
    s.fake_dns_exclude = vec!["lan".to_string()];
    let plan = plan_inbound(s, defaults()).unwrap();
    assert_eq!(
        plan.device,
        DeviceConfig::Interface(InterfaceConfig {
            name: "utun8".to_string(),
            address: "172.7.0.2".to_string(),
            destination: "172.7.0.1".to_string(),
            netmask: "255.255.255.0".to_string(),
            mtu: 1500,
        })
    );
    assert_eq!(plan.fake_dns_mode, FakeDnsMode::Exclude);
    assert_eq!(plan.fake_dns_filters, vec!["lan".to_string()]);
}

#[test]
fn descriptor_is_adopted() {
    let mut s = settings();
    s.fd = 7;
    let plan = plan_inbound(s, defaults()).unwrap();
    assert_eq!(plan.device, DeviceConfig::RawFd(7));
    assert_eq!(plan.fake_dns_mode, FakeDnsMode::Exclude);
    assert!(plan.fake_dns_filters.is_empty());
}

#[test]
fn fake_dns_selection() {
    assert_eq!(select_fake_dns(vec![], vec![]), Ok((FakeDnsMode::Exclude, vec![])));
    assert_eq!(
        select_fake_dns(vec!["a".to_string()], vec![]),
        Ok((FakeDnsMode::Include, vec!["a".to_string()]))
    );
    assert_eq!(
        select_fake_dns(vec![], vec!["b".to_string()]),
        Ok((FakeDnsMode::Exclude, vec!["b".to_string()]))
    );
    assert_eq!(
        select_fake_dns(vec!["a".to_string()], vec!["b".to_string()]),
        Err(ConfigError::ConflictingFakeDnsLists)
    );
}

#[test]
fn error_messages() {
    assert_eq!(
        ConfigError::ConflictingFakeDnsLists.message(),
        "fake DNS run in either inclusion mode or exclusion mode"
    );
    assert_eq!(ConfigError::AutoWithFd.message(), "tun-auto is not compatible with tun-fd");
}
