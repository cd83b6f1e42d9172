//! Inbound configuration: which device to open and how fake DNS runs, checked
//! before any device or stack is created.

use vstd::prelude::*;

verus! {

/// The MTU of an auto-configured device.
pub const AUTO_MTU: i32 = 1500;

/// Whether the fake-DNS filter list names the domains that get fake IPs
/// (`Include`) or the domains that do not (`Exclude`).
#[derive(Clone, Copy, Debug, PartialEq, Eq, Structural)]
pub enum FakeDnsMode {
    Include,
    Exclude,
}

/// The settings of a tun inbound.
#[derive(Clone, Debug, PartialEq, Eq)]
pub struct TunSettings {
    /// An open descriptor of the device, or a negative value for none.
    pub fd: i32,
    /// Configure the device with the default network.
    pub auto: bool,
    pub name: String,
    pub address: String,
    pub gateway: String,
    pub netmask: String,
    pub mtu: i32,
    pub fake_dns_exclude: Vec<String>,
    pub fake_dns_include: Vec<String>,
}

/// The network an auto-configured device gets.
#[derive(Clone, Debug, PartialEq, Eq)]
pub struct TunDefaults {
    pub name: String,
    pub address: String,
    pub gateway: String,
    pub netmask: String,
}

/// A device to be opened by name and configured, then brought up.
#[derive(Clone, Debug, PartialEq, Eq)]
pub struct InterfaceConfig {
    pub name: String,
    pub address: String,
    pub destination: String,
    pub netmask: String,
    pub mtu: i32,
}

/// How the device is obtained.
#[derive(Clone, Debug, PartialEq, Eq)]
pub enum DeviceConfig {
    /// Adopt an already open descriptor.
    RawFd(i32),
    /// Create and configure an interface.
    Interface(InterfaceConfig),
}

#[derive(Clone, Copy, Debug, PartialEq, Eq, Structural)]
pub enum ConfigError {
    /// Both an inclusion and an exclusion list of fake-DNS filters were given.
    ConflictingFakeDnsLists,
    /// Auto-configuration was asked for together with a descriptor.
    AutoWithFd,
}

impl ConfigError {
    /// A sentence that says what is wrong.
    pub fn message(&self) -> (r: &'static str)
        ensures
            *self == ConfigError::ConflictingFakeDnsLists ==> r@
                == "fake DNS run in either inclusion mode or exclusion mode"@,
            *self == ConfigError::AutoWithFd ==> r@ == "tun-auto is not compatible with tun-fd"@,
    {
        match self {
            ConfigError::ConflictingFakeDnsLists => "fake DNS run in either inclusion mode or exclusion mode",
            ConfigError::AutoWithFd => "tun-auto is not compatible with tun-fd",
        }
    }
}

/// Everything the pipeline is started from.
#[derive(Clone, Debug, PartialEq, Eq)]
pub struct InboundPlan {
    pub device: DeviceConfig,
    pub fake_dns_mode: FakeDnsMode,
    pub fake_dns_filters: Vec<String>,
}

/// Picks the fake-DNS mode: at most one of the lists may be non-empty; a
/// non-empty inclusion list selects inclusion mode, otherwise exclusion mode runs
/// with the exclusion list (which may be empty).
pub fn select_fake_dns(included: Vec<String>, excluded: Vec<String>) -> (r: Result<
    (FakeDnsMode, Vec<String>),
    ConfigError,
>)
    ensures
        r is Err <==> (included@.len() > 0 && excluded@.len() > 0),
        r is Err ==> r == Err::<(FakeDnsMode, Vec<String>), _>(ConfigError::ConflictingFakeDnsLists),
        r is Ok && included@.len() > 0 ==> r->Ok_0.0 == FakeDnsMode::Include && r->Ok_0.1 == included,
        r is Ok && included@.len() == 0 ==> r->Ok_0.0 == FakeDnsMode::Exclude && r->Ok_0.1 == excluded,
{
    if included.len() > 0 && excluded.len() > 0 {
        return Err(ConfigError::ConflictingFakeDnsLists);
    }
    if included.len() > 0 {
        Ok((FakeDnsMode::Include, included))
    } else {
        Ok((FakeDnsMode::Exclude, excluded))
    }
}

/// The device the settings ask for: a descriptor where one is given, else the
/// default network with the auto MTU where auto-configuration is on, else the
/// interface the settings spell out.
pub open spec fn device_config_spec(s: TunSettings, defaults: TunDefaults) -> DeviceConfig {
    if s.fd >= 0 {
        DeviceConfig::RawFd(s.fd)
    } else if s.auto {
        DeviceConfig::Interface(
            InterfaceConfig {
                name: defaults.name,
                address: defaults.address,
                destination: defaults.gateway,
                netmask: defaults.netmask,
                mtu: AUTO_MTU,
            },
        )
    } else {
        DeviceConfig::Interface(
            InterfaceConfig {
                name: s.name,
                address: s.address,
                destination: s.gateway,
                netmask: s.netmask,
                mtu: s.mtu,
            },
        )
    }
}

/// Checks the settings and plans the inbound. Conflicting fake-DNS lists are
/// refused first; auto-configuration with a descriptor other than -1 is
/// refused next. Nothing is opened here: a refused configuration never
/// reaches the device or the stack.
pub fn plan_inbound(settings: TunSettings, defaults: TunDefaults) -> (r: Result<InboundPlan, ConfigError>)
    ensures
        (settings.fake_dns_include@.len() > 0 && settings.fake_dns_exclude@.len() > 0)
            ==> r == Err::<InboundPlan, ConfigError>(ConfigError::ConflictingFakeDnsLists),
        !(settings.fake_dns_include@.len() > 0 && settings.fake_dns_exclude@.len() > 0)
            && settings.auto && settings.fd != -1
            ==> r == Err::<InboundPlan, ConfigError>(ConfigError::AutoWithFd),
        r is Ok <==> !(settings.fake_dns_include@.len() > 0 && settings.fake_dns_exclude@.len() > 0)
            && !(settings.auto && settings.fd != -1),
        r is Ok ==> r->Ok_0.device == device_config_spec(settings, defaults),
        r is Ok && settings.fake_dns_include@.len() > 0 ==> r->Ok_0.fake_dns_mode == FakeDnsMode::Include
            && r->Ok_0.fake_dns_filters == settings.fake_dns_include,
        r is Ok && settings.fake_dns_include@.len() == 0 ==> r->Ok_0.fake_dns_mode == FakeDnsMode::Exclude
            && r->Ok_0.fake_dns_filters == settings.fake_dns_exclude,
{
    let ghost s = settings;
    let TunSettings { fd, auto, name, address, gateway, netmask, mtu, fake_dns_exclude, fake_dns_include } =
        settings;
    let (fake_dns_mode, fake_dns_filters) = match select_fake_dns(fake_dns_include, fake_dns_exclude) {
        Ok(selected) => selected,
        Err(e) => {
            return Err(e);
        },
    };
    if auto && fd != -1 {
        return Err(ConfigError::AutoWithFd);
    }
    let device = if fd >= 0 {
        DeviceConfig::RawFd(fd)
    } else if auto {
        let TunDefaults { name, address, gateway, netmask } = defaults;
        DeviceConfig::Interface(InterfaceConfig { name, address, destination: gateway, netmask, mtu: AUTO_MTU })
    } else {
        DeviceConfig::Interface(InterfaceConfig { name, address, destination: gateway, netmask, mtu })
    };
    assert(device == device_config_spec(s, defaults));
    Ok(InboundPlan { device, fake_dns_mode, fake_dns_filters })
}

} // verus!
