//! Modes, the platforms they run on, and the error taxonomy.
use vstd::prelude::*;

verus! {

/// The platform family the host belongs to.
#[derive(Clone, Copy, Debug, PartialEq, Eq, Structural)]
pub enum Platform {
    Unix,
    Windows,
}

/// Which resolver-configuration strategy to use.
#[derive(Clone, Copy, Debug, PartialEq, Eq, Structural)]
pub enum Mode {
    /// systemd-resolved: rewrite its configuration file and restart the service.
    SystemdResolved,
    /// The legacy resolver file, re-read by the resolver library per lookup.
    ResolvConf,
    /// The Windows network-interface DNS settings.
    Windows,
}

/// Why an operation failed.
#[derive(Clone, Debug, PartialEq, Eq)]
pub enum DnsError {
    /// The mode is not known, or not available on this platform.
    UnsupportedMode(String),
    /// An external tool could not be launched.
    LaunchFailed(String),
    /// An external tool ran and reported failure; its diagnostic output.
    ToolFailed(String),
    /// Writing a configuration file failed.
    WriteFailed(String),
}

pub const SYSTEMD_RESOLVED_NAME: &'static str = "systemd-resolved";
pub const RESOLV_CONF_NAME: &'static str = "resolv.conf";
pub const WINDOWS_NAME: &'static str = "windows";

/// The mode a name selects, if any.
pub open spec fn mode_named(name: Seq<char>) -> Option<Mode> {
    if name == SYSTEMD_RESOLVED_NAME@ {
        Some(Mode::SystemdResolved)
    } else if name == RESOLV_CONF_NAME@ {
        Some(Mode::ResolvConf)
    } else if name == WINDOWS_NAME@ {
        Some(Mode::Windows)
    } else {
        None
    }
}

/// Whether a mode is available on a platform.
pub open spec fn supported_on(m: Mode, p: Platform) -> bool {
    match m {
        Mode::Windows => p == Platform::Windows,
        _ => p == Platform::Unix,
    }
}

/// The mode a name selects, regardless of platform.
pub fn mode_from_name(name: &str) -> (r: Option<Mode>)
    ensures
        r == mode_named(name@),
{
    let s = String::from_str(name);
    if s == String::from_str(SYSTEMD_RESOLVED_NAME) {
        Some(Mode::SystemdResolved)
    } else if s == String::from_str(RESOLV_CONF_NAME) {
        Some(Mode::ResolvConf)
    } else if s == String::from_str(WINDOWS_NAME) {
        Some(Mode::Windows)
    } else {
        None
    }
}

/// The modes available on a platform, in a fixed order.
pub fn supported_modes(p: Platform) -> (r: Vec<Mode>)
    ensures
        forall|m: Mode| #[trigger] r@.contains(m) <==> supported_on(m, p),
        forall|i: int, j: int| 0 <= i < j < r@.len() ==> r@[i] != r@[j],
{
    let mut v: Vec<Mode> = Vec::new();
    match p {
        Platform::Unix => {
            v.push(Mode::SystemdResolved);
            v.push(Mode::ResolvConf);
        },
        Platform::Windows => {
            v.push(Mode::Windows);
        },
    }
    proof {
        assert forall|m: Mode| supported_on(m, p) implies #[trigger] v@.contains(m) by {
            if p == Platform::Unix {
                if m == Mode::SystemdResolved {
                    assert(v@[0] == m);
                } else {
                    assert(v@[1] == m);
                }
            } else {
                assert(v@[0] == m);
            }
        }
    }
    v
}

/// The mode a name selects on a platform; an unknown name, or a mode that
/// the platform lacks, is an unsupported-mode error carrying the name.
pub fn resolve_mode(name: &str, p: Platform) -> (r: Result<Mode, DnsError>)
    ensures
        match mode_named(name@) {
            Some(m) if supported_on(m, p) => r == Ok::<Mode, DnsError>(m),
            _ => r matches Err(DnsError::UnsupportedMode(n)) && n@ == name@,
        },
{
    match mode_from_name(name) {
        Some(m) => {
            let ok = match m {
                Mode::Windows => p == Platform::Windows,
                _ => p == Platform::Unix,
            };
            if ok {
                Ok(m)
            } else {
                Err(DnsError::UnsupportedMode(String::from_str(name)))
            }
        },
        None => Err(DnsError::UnsupportedMode(String::from_str(name))),
    }
}

} // verus!
