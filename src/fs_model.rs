//! A model of the files the strategies touch, and what the plans do to them.
//!
//! Files are a map from path to content. A copy whose source is missing
//! fails and stops the operation; every other action is taken to succeed
//! here, and only the two file actions change the map.
use vstd::prelude::*;
use crate::mode::Mode;
use crate::text::{lemma_split_fold_append, lemma_split_fold_sep, split, split_fold};
use crate::plan::{
    ActionView, Operation, backup_path, directive, file_based, live_path, plan, stanza,
    DNS_KEY, LINE_END, NAMESERVER_KEY, RESOLVE_SECTION,
    RESOLV_CONF, RESOLV_CONF_BACKUP, SYSTEMD_RESOLVED_CONF, SYSTEMD_RESOLVED_CONF_BACKUP,
};

verus! {

/// The files after one action, or `None` when the action fails.
pub open spec fn perform(
    files: Map<Seq<char>, Seq<char>>,
    a: ActionView,
) -> Option<Map<Seq<char>, Seq<char>>> {
    match a {
        ActionView::CopyFile { from, to } => if files.contains_key(from) {
            Some(files.insert(to, files[from]))
        } else {
            None
        },
        ActionView::WriteFile { path, content } => Some(files.insert(path, content)),
        _ => Some(files),
    }
}

/// Performs the actions in order and stops at the first that fails: the
/// files at that point, and whether every action succeeded.
pub open spec fn run(
    files: Map<Seq<char>, Seq<char>>,
    actions: Seq<ActionView>,
) -> (Map<Seq<char>, Seq<char>>, bool)
    decreases actions.len(),
{
    if actions.len() == 0 {
        (files, true)
    } else {
        match perform(files, actions[0]) {
            Some(next) => run(next, actions.drop_first()),
            None => (files, false),
        }
    }
}

proof fn lemma_paths_distinct(m: Mode)
    ensures
        live_path(m) != backup_path(m),
{
    reveal_strlit("/etc/resolv.conf");
    reveal_strlit("/etc/resolv.conf.corplink.bak");
    reveal_strlit("/etc/systemd/resolved.conf");
    reveal_strlit("/etc/systemd/resolved.conf.corplink.bak");
    assert(RESOLV_CONF@.len() != RESOLV_CONF_BACKUP@.len());
    assert(SYSTEMD_RESOLVED_CONF@.len() != SYSTEMD_RESOLVED_CONF_BACKUP@.len());
}

/// Applying a file-based mode succeeds when the live file exists, and leaves
/// the live file holding exactly the one directive that names `dns`, and the
/// backup holding the live file's prior content.
pub proof fn lemma_apply_writes_stanza(
    m: Mode,
    files: Map<Seq<char>, Seq<char>>,
    dns: Seq<char>,
    iface: Seq<char>,
)
    requires
        file_based(m),
        files.contains_key(live_path(m)),
    ensures
        run(files, plan(m, Operation::Apply, dns, iface)).1,
        run(files, plan(m, Operation::Apply, dns, iface)).0[live_path(m)] == stanza(m, dns),
        run(files, plan(m, Operation::Apply, dns, iface)).0.contains_key(backup_path(m)),
        run(files, plan(m, Operation::Apply, dns, iface)).0[backup_path(m)] == files[live_path(m)],
{
    lemma_paths_distinct(m);
    let p = plan(m, Operation::Apply, dns, iface);
    let copied = files.insert(backup_path(m), files[live_path(m)]);
    let written = copied.insert(live_path(m), stanza(m, dns));
    assert(p.drop_first()[0] == p[1]);
    if m == Mode::SystemdResolved {
        assert(p.drop_first().drop_first()[0] == p[2]);
        assert(p.drop_first().drop_first().drop_first().len() == 0);
        assert(run(written, p.drop_first().drop_first().drop_first()) == (written, true));
        assert(run(written, p.drop_first().drop_first()) == (written, true));
    } else {
        assert(p.drop_first().drop_first().len() == 0);
        assert(run(written, p.drop_first().drop_first()) == (written, true));
    }
    assert(run(copied, p.drop_first()) == (written, true));
    assert(run(files, p) == (written, true));
}

/// The lines of the content written to a live file: the directive naming
/// `dns` is the only line but the section header, when `dns` is one line.
pub proof fn lemma_stanza_lines(m: Mode, dns: Seq<char>)
    requires
        file_based(m),
        !dns.contains('\n'),
    ensures
        m == Mode::ResolvConf ==> split(stanza(m, dns), '\n') == seq![
            directive(m, dns),
            Seq::<char>::empty(),
        ],
        m == Mode::SystemdResolved ==> split(stanza(m, dns), '\n') == seq![
            RESOLVE_SECTION@,
            directive(m, dns),
            Seq::<char>::empty(),
        ],
{
    reveal_strlit("\n");
    reveal_strlit("nameserver ");
    reveal_strlit("DNS=");
    reveal_strlit("[Resolve]");
    let d = directive(m, dns);
    let key = if m == Mode::SystemdResolved { DNS_KEY@ } else { NAMESERVER_KEY@ };
    assert(!key.contains('\n')) by {
        assert forall|i: int| 0 <= i < key.len() implies key[i] != '\n' by {}
    }
    assert(!d.contains('\n')) by {
        assert forall|i: int| 0 <= i < d.len() implies d[i] != '\n' by {
            if i >= key.len() {
                assert(d[i] == dns[i - key.len()]);
            } else {
                assert(d[i] == key[i]);
            }
        }
    }
    let e = Seq::<char>::empty();
    assert(split_fold(e, '\n') == (Seq::<Seq<char>>::empty(), e));
    if m == Mode::SystemdResolved {
        let h = RESOLVE_SECTION@;
        assert(!h.contains('\n')) by {
            assert forall|i: int| 0 <= i < h.len() implies h[i] != '\n' by {}
        }
        lemma_split_fold_append(e, h, '\n');
        assert(e + h == h);
        lemma_split_fold_sep(h, '\n');
        lemma_split_fold_append(h.push('\n'), d, '\n');
        assert(e + d == d);
        lemma_split_fold_sep(h.push('\n') + d, '\n');
        assert(stanza(m, dns) == (h.push('\n') + d).push('\n'));
    } else {
        lemma_split_fold_append(e, d, '\n');
        assert(e + d == d);
        lemma_split_fold_sep(d, '\n');
        assert(stanza(m, dns) == d.push('\n'));
    }
}

/// Applying a file-based mode and then reverting it puts the live file's
/// prior content back, byte for byte.
pub proof fn lemma_apply_then_revert_restores(
    m: Mode,
    files: Map<Seq<char>, Seq<char>>,
    dns: Seq<char>,
    iface: Seq<char>,
)
    requires
        file_based(m),
        files.contains_key(live_path(m)),
    ensures
        ({
            let applied = run(files, plan(m, Operation::Apply, dns, iface)).0;
            let reverted = run(applied, plan(m, Operation::Revert, dns, iface));
            &&& reverted.1
            &&& reverted.0[live_path(m)] == files[live_path(m)]
        }),
{
    lemma_apply_writes_stanza(m, files, dns, iface);
    let applied = run(files, plan(m, Operation::Apply, dns, iface)).0;
    let p = plan(m, Operation::Revert, dns, iface);
    let restored = applied.insert(live_path(m), applied[backup_path(m)]);
    if m == Mode::SystemdResolved {
        assert(p.drop_first()[0] == p[1]);
        assert(p.drop_first().drop_first().len() == 0);
        assert(run(restored, p.drop_first().drop_first()) == (restored, true));
        assert(run(restored, p.drop_first()) == (restored, true));
    } else {
        assert(p.drop_first().len() == 0);
        assert(run(restored, p.drop_first()) == (restored, true));
    }
    assert(run(applied, p) == (restored, true));
}

/// Reverting a file-based mode with no backup fails at once and leaves
/// every file as it was.
pub proof fn lemma_revert_without_backup_fails(
    m: Mode,
    files: Map<Seq<char>, Seq<char>>,
    dns: Seq<char>,
    iface: Seq<char>,
)
    requires
        file_based(m),
        !files.contains_key(backup_path(m)),
    ensures
        run(files, plan(m, Operation::Revert, dns, iface)) == (files, false),
{
    reveal_with_fuel(run, 2);
}

/// Reverting the interface strategy resets the selected interface to
/// automatic and never sets a server, whatever came before.
pub proof fn lemma_interface_revert_resets(dns: Seq<char>, iface: Seq<char>)
    ensures
        plan(Mode::Windows, Operation::Revert, dns, iface).contains(
            ActionView::ResetInterfaceDns { interface: iface },
        ),
        forall|i: int|
            0 <= i < plan(Mode::Windows, Operation::Revert, dns, iface).len() ==> !(
            #[trigger] plan(Mode::Windows, Operation::Revert, dns, iface)[i] is SetInterfaceDns),
{
    assert(plan(Mode::Windows, Operation::Revert, dns, iface)[1]
        == ActionView::ResetInterfaceDns { interface: iface });
}

} // verus!
