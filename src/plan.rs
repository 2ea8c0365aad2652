//! What each strategy does, as a sequence of actions for a driver to perform.
use vstd::prelude::*;
use crate::mode::Mode;

verus! {

pub const RESOLV_CONF: &'static str = "/etc/resolv.conf";
pub const RESOLV_CONF_BACKUP: &'static str = "/etc/resolv.conf.corplink.bak";
pub const SYSTEMD_RESOLVED_CONF: &'static str = "/etc/systemd/resolved.conf";
pub const SYSTEMD_RESOLVED_CONF_BACKUP: &'static str = "/etc/systemd/resolved.conf.corplink.bak";
pub const SYSTEMD_RESOLVED_SERVICE: &'static str = "systemd-resolved";

pub const RESOLVE_SECTION: &'static str = "[Resolve]";
pub const DNS_KEY: &'static str = "DNS=";
pub const NAMESERVER_KEY: &'static str = "nameserver ";
pub const LINE_END: &'static str = "\n";
pub const SET_SERVERS_HEAD: &'static str = "Set-DnsClientServerAddress -InterfaceIndex '";
pub const SET_SERVERS_MID: &'static str = "' -ServerAddresses '";
pub const RESET_SERVERS_TAIL: &'static str = "' -ResetServerAddresses";
pub const QUOTE: &'static str = "'";

/// Whether an operation overrides the resolver or restores it.
#[derive(Clone, Copy, Debug, PartialEq, Eq, Structural)]
pub enum Operation {
    Apply,
    Revert,
}

/// One step of external work.
#[derive(Clone, Debug, PartialEq, Eq)]
pub enum Action {
    /// Copy a file over another; fails when the source is missing.
    CopyFile { from: String, to: String },
    /// Replace a file's whole content.
    WriteFile { path: String, content: String },
    /// Restart a system service.
    RestartService { service: String },
    /// List the IPv4 default routes, one per line (see `routes`).
    ListRoutes,
    /// Make `server` the interface's only DNS server.
    SetInterfaceDns { interface: String, server: String },
    /// Return the interface's DNS servers to automatic.
    ResetInterfaceDns { interface: String },
}

/// An action with its strings seen as character sequences.
pub enum ActionView {
    CopyFile { from: Seq<char>, to: Seq<char> },
    WriteFile { path: Seq<char>, content: Seq<char> },
    RestartService { service: Seq<char> },
    ListRoutes,
    SetInterfaceDns { interface: Seq<char>, server: Seq<char> },
    ResetInterfaceDns { interface: Seq<char> },
}

impl View for Action {
    type V = ActionView;

    open spec fn view(&self) -> ActionView {
        match self {
            Action::CopyFile { from, to } => ActionView::CopyFile { from: from@, to: to@ },
            Action::WriteFile { path, content } => ActionView::WriteFile {
                path: path@,
                content: content@,
            },
            Action::RestartService { service } => ActionView::RestartService { service: service@ },
            Action::ListRoutes => ActionView::ListRoutes,
            Action::SetInterfaceDns { interface, server } => ActionView::SetInterfaceDns {
                interface: interface@,
                server: server@,
            },
            Action::ResetInterfaceDns { interface } => ActionView::ResetInterfaceDns {
                interface: interface@,
            },
        }
    }
}

/// Whether a mode manages a configuration file.
pub open spec fn file_based(m: Mode) -> bool {
    m != Mode::Windows
}

/// The file the resolver reads, for a file-based mode.
pub open spec fn live_path(m: Mode) -> Seq<char> {
    match m {
        Mode::SystemdResolved => SYSTEMD_RESOLVED_CONF@,
        _ => RESOLV_CONF@,
    }
}

/// Where the prior content of the live file is kept, for a file-based mode.
pub open spec fn backup_path(m: Mode) -> Seq<char> {
    match m {
        Mode::SystemdResolved => SYSTEMD_RESOLVED_CONF_BACKUP@,
        _ => RESOLV_CONF_BACKUP@,
    }
}

/// The line that names `dns` as the resolver, for a file-based mode.
pub open spec fn directive(m: Mode, dns: Seq<char>) -> Seq<char> {
    match m {
        Mode::SystemdResolved => DNS_KEY@ + dns,
        _ => NAMESERVER_KEY@ + dns,
    }
}

/// The whole content written to the live file: the directive, under the
/// section header where the file has sections.
pub open spec fn stanza(m: Mode, dns: Seq<char>) -> Seq<char> {
    match m {
        Mode::SystemdResolved => RESOLVE_SECTION@ + LINE_END@ + directive(m, dns) + LINE_END@,
        _ => directive(m, dns) + LINE_END@,
    }
}

/// The actions of an operation, in order. `iface` is the interface that the
/// route listing selected; only the interface strategy's second action uses it.
pub open spec fn plan(m: Mode, op: Operation, dns: Seq<char>, iface: Seq<char>) -> Seq<ActionView> {
    match (m, op) {
        (Mode::SystemdResolved, Operation::Apply) => seq![
            ActionView::CopyFile { from: live_path(m), to: backup_path(m) },
            ActionView::WriteFile { path: live_path(m), content: stanza(m, dns) },
            ActionView::RestartService { service: SYSTEMD_RESOLVED_SERVICE@ },
        ],
        (Mode::SystemdResolved, Operation::Revert) => seq![
            ActionView::CopyFile { from: backup_path(m), to: live_path(m) },
            ActionView::RestartService { service: SYSTEMD_RESOLVED_SERVICE@ },
        ],
        (Mode::ResolvConf, Operation::Apply) => seq![
            ActionView::CopyFile { from: live_path(m), to: backup_path(m) },
            ActionView::WriteFile { path: live_path(m), content: stanza(m, dns) },
        ],
        (Mode::ResolvConf, Operation::Revert) => seq![
            ActionView::CopyFile { from: backup_path(m), to: live_path(m) },
        ],
        (Mode::Windows, Operation::Apply) => seq![
            ActionView::ListRoutes,
            ActionView::SetInterfaceDns { interface: iface, server: dns },
        ],
        (Mode::Windows, Operation::Revert) => seq![
            ActionView::ListRoutes,
            ActionView::ResetInterfaceDns { interface: iface },
        ],
    }
}

/// Two strings joined.
fn joined(a: &str, b: &str) -> (r: String)
    ensures
        r@ == a@ + b@,
{
    let mut s = String::from_str(a);
    s.append(b);
    s
}

/// Three strings joined.
fn joined3(a: &str, b: &str, c: &str) -> (r: String)
    ensures
        r@ == a@ + b@ + c@,
{
    let mut s = joined(a, b);
    s.append(c);
    s
}

/// The content written to the live file of a file-based mode.
pub fn stanza_for(m: Mode, dns: &str) -> (r: String)
    ensures
        r@ == stanza(m, dns@),
{
    match m {
        Mode::SystemdResolved => {
            let mut s = joined3(RESOLVE_SECTION, LINE_END, DNS_KEY);
            s.append(dns);
            s.append(LINE_END);
            s
        },
        _ => joined3(NAMESERVER_KEY, dns, LINE_END),
    }
}

/// How many actions an operation has.
pub fn plan_len(m: Mode, op: Operation) -> (r: usize)
    ensures
        forall|dns: Seq<char>, iface: Seq<char>| r == #[trigger] plan(m, op, dns, iface).len(),
{
    match (m, op) {
        (Mode::SystemdResolved, Operation::Apply) => 3,
        (Mode::ResolvConf, Operation::Revert) => 1,
        _ => 2,
    }
}

/// The `i`-th action of an operation.
pub fn plan_action(m: Mode, op: Operation, dns: &str, iface: &str, i: usize) -> (r: Action)
    requires
        i < plan(m, op, dns@, iface@).len(),
    ensures
        r@ == plan(m, op, dns@, iface@)[i as int],
{
    let live = if m == Mode::SystemdResolved {
        SYSTEMD_RESOLVED_CONF
    } else {
        RESOLV_CONF
    };
    let backup = if m == Mode::SystemdResolved {
        SYSTEMD_RESOLVED_CONF_BACKUP
    } else {
        RESOLV_CONF_BACKUP
    };
    match (m, op) {
        (Mode::Windows, Operation::Apply) => if i == 0 {
            Action::ListRoutes
        } else {
            Action::SetInterfaceDns {
                interface: String::from_str(iface),
                server: String::from_str(dns),
            }
        },
        (Mode::Windows, Operation::Revert) => if i == 0 {
            Action::ListRoutes
        } else {
            Action::ResetInterfaceDns { interface: String::from_str(iface) }
        },
        (_, Operation::Apply) => if i == 0 {
            Action::CopyFile { from: String::from_str(live), to: String::from_str(backup) }
        } else if i == 1 {
            Action::WriteFile { path: String::from_str(live), content: stanza_for(m, dns) }
        } else {
            Action::RestartService { service: String::from_str(SYSTEMD_RESOLVED_SERVICE) }
        },
        (_, Operation::Revert) => if i == 0 {
            Action::CopyFile { from: String::from_str(backup), to: String::from_str(live) }
        } else {
            Action::RestartService { service: String::from_str(SYSTEMD_RESOLVED_SERVICE) }
        },
    }
}

/// The PowerShell command line that configures an interface, for the two
/// interface actions; `None` for the others.
pub fn interface_command(a: &Action) -> (r: Option<String>)
    ensures
        match a@ {
            ActionView::SetInterfaceDns { interface, server } => r matches Some(c) && c@
                == SET_SERVERS_HEAD@ + interface + SET_SERVERS_MID@ + server + QUOTE@,
            ActionView::ResetInterfaceDns { interface } => r matches Some(c) && c@
                == SET_SERVERS_HEAD@ + interface + RESET_SERVERS_TAIL@,
            _ => r is None,
        },
{
    match a {
        Action::SetInterfaceDns { interface, server } => {
            let mut c = joined3(SET_SERVERS_HEAD, interface.as_str(), SET_SERVERS_MID);
            c.append(server.as_str());
            c.append(QUOTE);
            Some(c)
        },
        Action::ResetInterfaceDns { interface } => Some(
            joined3(SET_SERVERS_HEAD, interface.as_str(), RESET_SERVERS_TAIL),
        ),
        _ => None,
    }
}

} // verus!
