use dns_override::mode::Mode;
use dns_override::plan::{interface_command, plan_action, plan_len, stanza_for, Action, Operation};

fn s(x: &str) -> String {
    x.to_string()
}

#[test]
fn stanzas_name_the_server_once() {
    assert_eq!(stanza_for(Mode::ResolvConf, "10.0.0.53"), "nameserver 10.0.0.53\n");
    assert_eq!(stanza_for(Mode::SystemdResolved, "10.0.0.53"), "[Resolve]\nDNS=10.0.0.53\n");
}

#[test]
fn plan_lengths() {
    assert_eq!(plan_len(Mode::SystemdResolved, Operation::Apply), 3);
    assert_eq!(plan_len(Mode::SystemdResolved, Operation::Revert), 2);
    assert_eq!(plan_len(Mode::ResolvConf, Operation::Apply), 2);
    assert_eq!(plan_len(Mode::ResolvConf, Operation::Revert), 1);
    assert_eq!(plan_len(Mode::Windows, Operation::Apply), 2);
    assert_eq!(plan_len(Mode::Windows, Operation::Revert), 2);
}

#[test]
fn systemd_plans() {
    let m = Mode::SystemdResolved;
    assert_eq!(
        plan_action(m, Operation::Apply, "1.1.1.1", "", 0),
        Action::CopyFile {
            from: s("/etc/systemd/resolved.conf"),
            to: s("/etc/systemd/resolved.conf.corplink.bak")
        }
    );
    assert_eq!(
        plan_action(m, Operation::Apply, "1.1.1.1", "", 1),
        Action::WriteFile { path: s("/etc/systemd/resolved.conf"), content: s("[Resolve]\nDNS=1.1.1.1\n") }
    );
    assert_eq!(
        plan_action(m, Operation::Apply, "1.1.1.1", "", 2),
        Action::RestartService { service: s("systemd-resolved") }
    );
    assert_eq!(
        plan_action(m, Operation::Revert, "", "", 0),
        Action::CopyFile {
            from: s("/etc/systemd/resolved.conf.corplink.bak"),
            to: s("/etc/systemd/resolved.conf")
        }
    );
    assert_eq!(
        plan_action(m, Operation::Revert, "", "", 1),
        Action::RestartService { service: s("systemd-resolved") }
    );
}

#[test]
fn resolv_conf_plans() {
    let m = Mode::ResolvConf;
    assert_eq!(
        plan_action(m, Operation::Apply, "8.8.8.8", "", 0),
        Action::CopyFile { from: s("/etc/resolv.conf"), to: s("/etc/resolv.conf.corplink.bak") }
    );
    assert_eq!(
        plan_action(m, Operation::Apply, "8.8.8.8", "", 1),
        Action::WriteFile { path: s("/etc/resolv.conf"), content: s("nameserver 8.8.8.8\n") }
    );
    assert_eq!(
        plan_action(m, Operation::Revert, "", "", 0),
        Action::CopyFile { from: s("/etc/resolv.conf.corplink.bak"), to: s("/etc/resolv.conf") }
    );
}

#[test]
fn windows_plans() {
    let m = Mode::Windows;
    assert_eq!(plan_action(m, Operation::Apply, "8.8.8.8", "12", 0), Action::ListRoutes);
    assert_eq!(
        plan_action(m, Operation::Apply, "8.8.8.8", "12", 1),
        Action::SetInterfaceDns { interface: s("12"), server: s("8.8.8.8") }
    );
    assert_eq!(plan_action(m, Operation::Revert, "", "12", 0), Action::ListRoutes);
    assert_eq!(
        plan_action(m, Operation::Revert, "", "12", 1),
        Action::ResetInterfaceDns { interface: s("12") }
    );
}

#[test]
fn interface_command_lines() {
    let set = Action::SetInterfaceDns { interface: s("7"), server: s("10.1.2.3") };
    assert_eq!(
        interface_command(&set),
        Some(s("Set-DnsClientServerAddress -InterfaceIndex '7' -ServerAddresses '10.1.2.3'"))
    );
    let reset = Action::ResetInterfaceDns { interface: s("7") };
    assert_eq!(
        interface_command(&reset),
        Some(s("Set-DnsClientServerAddress -InterfaceIndex '7' -ResetServerAddresses"))
    );
    assert_eq!(interface_command(&Action::ListRoutes), None);
    assert_eq!(interface_command(&Action::RestartService { service: s("x") }), None);
}
