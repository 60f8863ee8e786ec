//! What a downgrade of a `[Container]` section keeps: every option that it unsets stands, as
//! its `--flag value` argument, in the Podman arguments that come out.

use vstd::prelude::*;

use crate::args_ser::{with_arg as quoted_arg, with_flag};
use crate::container_downgrade::{
    appended, container_downgraded_args, dns_args_text, group_pushed, proceeds, security_opt_args,
    texts_args, v4_5_args, v4_6_args, v4_6_security_args, v4_7_args, v4_8_args, v5_0_args,
};
use crate::downgrade::{older, with_podman_arg, PodmanVersion};
use crate::global_args::{list_args, opt_arg};
use crate::quadlet_container::{Container, Dns};
use crate::quadlet_options::Notify;
use crate::container::UnmaskView;
use crate::container_downgrade::unmask_joined;
use crate::container::pull_policy_name;
use crate::container_downgrade::{
    mount_texts, pids_text, pull_text, rootfs_opt_text, u16_text, u64_text,
};
use crate::mount::mount_text;
use crate::num::decimal;
use crate::quadlet_options::PidsLimit;
use crate::rootfs::rootfs_text;
use crate::text::{
    lemma_occurs_append, lemma_occurs_end, lemma_occurs_prefix, lemma_occurs_self,
    lemma_occurs_shift, occurs_in, opt_seq,
};

verus! {

/// The argument `--flag value` on its own, written as it is written among Podman's arguments.
pub open spec fn lone_arg(flag: Seq<char>, value: Seq<char>) -> Seq<char> {
    quoted_arg(Seq::<char>::empty(), flag, value)
}

/// Podman's arguments are set and hold `needle`.
pub open spec fn args_hold(args: Option<Seq<char>>, needle: Seq<char>) -> bool {
    args matches Some(a) && occurs_in(needle, a)
}

/// An argument added to some arguments stands at their end.
proof fn lemma_arg_at_end(out: Seq<char>, flag: Seq<char>, value: Seq<char>)
    ensures
        occurs_in(lone_arg(flag, value), quoted_arg(out, flag, value)),
{
    let pre = if out.len() > 0 { out.push(' ') } else { out };
    let e = Seq::<char>::empty();
    assert(with_flag(e, flag) =~= seq!['-', '-'] + flag);
    assert(quoted_arg(out, flag, value) =~= pre + lone_arg(flag, value));
    lemma_occurs_end(pre, lone_arg(flag, value));
}

/// Adding an argument keeps what the arguments held.
proof fn lemma_arg_keeps(n: Seq<char>, out: Seq<char>, flag: Seq<char>, value: Seq<char>)
    requires
        occurs_in(n, out),
    ensures
        occurs_in(n, quoted_arg(out, flag, value)),
{
    let y = quoted_arg(out, flag, value);
    assert(y.subrange(0, out.len() as int) =~= out);
    lemma_occurs_prefix(n, out, y);
}

/// An option that is set stands as its argument.
proof fn lemma_opt_arg_has(out: Seq<char>, flag: Seq<char>, o: Option<Seq<char>>)
    ensures
        o matches Some(t) ==> occurs_in(lone_arg(flag, t), opt_arg(out, flag, o)),
{
    if let Some(t) = o {
        lemma_arg_at_end(out, flag, t);
    }
}

/// An option's argument keeps what the arguments held.
proof fn lemma_opt_arg_keeps(n: Seq<char>, out: Seq<char>, flag: Seq<char>, o: Option<Seq<char>>)
    requires
        occurs_in(n, out),
    ensures
        occurs_in(n, opt_arg(out, flag, o)),
{
    if let Some(t) = o {
        lemma_arg_keeps(n, out, flag, t);
    }
}

/// Each item of a list stands as its argument.
proof fn lemma_list_args_has(out: Seq<char>, flag: Seq<char>, items: Seq<String>, i: int)
    requires
        0 <= i < items.len(),
    ensures
        occurs_in(lone_arg(flag, items[i]@), list_args(out, flag, items)),
    decreases items.len(),
{
    let before = list_args(out, flag, items.drop_last());
    if i == items.len() - 1 {
        lemma_arg_at_end(before, flag, items[i]@);
    } else {
        lemma_list_args_has(out, flag, items.drop_last(), i);
        lemma_arg_keeps(lone_arg(flag, items[i]@), before, flag, items.last()@);
    }
}

/// The arguments of a list keep what the arguments held.
proof fn lemma_list_args_keeps(n: Seq<char>, out: Seq<char>, flag: Seq<char>, items: Seq<String>)
    requires
        occurs_in(n, out),
    ensures
        occurs_in(n, list_args(out, flag, items)),
    decreases items.len(),
{
    if items.len() > 0 {
        lemma_list_args_keeps(n, out, flag, items.drop_last());
        lemma_arg_keeps(n, list_args(out, flag, items.drop_last()), flag, items.last()@);
    }
}

/// Each text of a list stands as its argument.
proof fn lemma_texts_args_has(out: Seq<char>, flag: Seq<char>, items: Seq<Seq<char>>, i: int)
    requires
        0 <= i < items.len(),
    ensures
        occurs_in(lone_arg(flag, items[i]), texts_args(out, flag, items)),
    decreases items.len(),
{
    let before = texts_args(out, flag, items.drop_last());
    if i == items.len() - 1 {
        lemma_arg_at_end(before, flag, items[i]);
    } else {
        lemma_texts_args_has(out, flag, items.drop_last(), i);
        lemma_arg_keeps(lone_arg(flag, items[i]), before, flag, items.last());
    }
}

/// The arguments of a list of texts keep what the arguments held.
proof fn lemma_texts_args_keeps(n: Seq<char>, out: Seq<char>, flag: Seq<char>,
    items: Seq<Seq<char>>)
    requires
        occurs_in(n, out),
    ensures
        occurs_in(n, texts_args(out, flag, items)),
    decreases items.len(),
{
    if items.len() > 0 {
        lemma_texts_args_keeps(n, out, flag, items.drop_last());
        lemma_arg_keeps(n, texts_args(out, flag, items.drop_last()), flag, items.last());
    }
}

/// The DNS setting stands as its arguments.
proof fn lemma_dns_args_has(out: Seq<char>, dns: Dns)
    ensures
        dns == Dns::Disabled ==> occurs_in(lone_arg("dns"@, "none"@), dns_args_text(out, dns)),
        dns matches Dns::Custom(v) ==> forall|i: int|
            0 <= i < v@.len() ==> occurs_in(
                lone_arg("dns"@, (#[trigger] v@[i])@),
                dns_args_text(out, dns),
            ),
{
    match dns {
        Dns::Disabled => lemma_arg_at_end(out, "dns"@, "none"@),
        Dns::Custom(v) => {
            assert forall|i: int| 0 <= i < v@.len() implies occurs_in(
                lone_arg("dns"@, (#[trigger] v@[i])@),
                dns_args_text(out, dns),
            ) by {
                lemma_list_args_has(out, "dns"@, v@, i);
            }
        },
    }
}

/// The arguments of the DNS setting keep what the arguments held.
proof fn lemma_dns_args_keeps(n: Seq<char>, out: Seq<char>, dns: Dns)
    requires
        occurs_in(n, out),
    ensures
        occurs_in(n, dns_args_text(out, dns)),
{
    match dns {
        Dns::Disabled => lemma_arg_keeps(n, out, "dns"@, "none"@),
        Dns::Custom(v) => lemma_list_args_keeps(n, out, "dns"@, v@),
    }
}

/// Appending keeps what Podman's arguments held, and what is appended is held.
proof fn lemma_appended(args: Option<Seq<char>>, s: Seq<char>, n: Seq<char>)
    ensures
        args_hold(args, n) ==> occurs_in(n, appended(args, s)),
        occurs_in(n, s) ==> occurs_in(n, appended(args, s)),
{
    let a = opt_seq_or_empty(args);
    let pre = if a.len() > 0 { a.push(' ') } else { a };
    if args_hold(args, n) {
        assert(pre.subrange(0, a.len() as int) =~= a);
        lemma_occurs_prefix(n, a, pre);
        lemma_occurs_append(n, pre, s);
    }
    if occurs_in(n, s) {
        lemma_occurs_shift(n, pre, s);
    }
}

/// The arguments, or nothing where there are none.
spec fn opt_seq_or_empty(args: Option<Seq<char>>) -> Seq<char> {
    match args {
        Some(a) => a,
        None => Seq::<char>::empty(),
    }
}

/// Pushing a group of arguments keeps what Podman's arguments held, and what the group holds is
/// held.
proof fn lemma_group_pushed(args: Option<Seq<char>>, s: Seq<char>, n: Seq<char>)
    requires
        n.len() > 0,
    ensures
        args_hold(args, n) ==> args_hold(group_pushed(args, s), n),
        occurs_in(n, s) ==> args_hold(group_pushed(args, s), n),
{
    lemma_appended(args, s, n);
}

/// Adding one argument keeps what Podman's arguments held.
proof fn lemma_podman_arg_keeps(args: Option<Seq<char>>, flag: Seq<char>, value: Seq<char>,
    n: Seq<char>)
    requires
        args_hold(args, n),
    ensures
        occurs_in(n, with_podman_arg(args, flag, value)),
{
    let a = opt_seq_or_empty(args);
    let y = with_podman_arg(args, flag, value);
    assert(y.subrange(0, a.len() as int) =~= a);
    lemma_occurs_prefix(n, a, y);
}

/// An argument added to Podman's arguments stands at their end.
proof fn lemma_podman_arg_at_end(args: Option<Seq<char>>, flag: Seq<char>, value: Seq<char>)
    ensures
        occurs_in(with_podman_arg(None, flag, value), with_podman_arg(args, flag, value)),
{
    let a = opt_seq_or_empty(args);
    let pre = if a.len() > 0 { a.push(' ') } else { a };
    assert(with_podman_arg(args, flag, value) =~= pre + with_podman_arg(None, flag, value));
    lemma_occurs_end(pre, with_podman_arg(None, flag, value));
}


/// Podman's arguments after the options added in Podman 5.0 are pushed, where the version is
/// older than that.
spec fn args_after_5_0(c: Container, v: PodmanVersion) -> Option<Seq<char>> {
    if older(v, PodmanVersion { major: 5, minor: 0 }) {
        group_pushed(opt_seq(c.podman_args), v5_0_args(c))
    } else {
        opt_seq(c.podman_args)
    }
}

/// Step `k` of a downgrade that proceeds, from Podman's arguments `a`: notifying when healthy,
/// then the options added in 4.8, 4.7, 4.6 and 4.5.
spec fn step(c: Container, v: PodmanVersion, a: Option<Seq<char>>, k: int) -> Option<Seq<char>> {
    if k == 0 {
        if older(v, PodmanVersion { major: 5, minor: 0 }) && c.notify == Notify::Healthy {
            Some(with_podman_arg(a, "sdnotify"@, "healthy"@))
        } else {
            a
        }
    } else if k == 1 {
        if older(v, PodmanVersion { major: 4, minor: 8 }) {
            group_pushed(
                if !c.read_only_tmpfs {
                    Some(appended(a, "--read-only-tmpfs=false"@))
                } else {
                    a
                },
                v4_8_args(c),
            )
        } else {
            a
        }
    } else if k == 2 {
        if older(v, PodmanVersion { major: 4, minor: 7 }) {
            group_pushed(a, v4_7_args(c))
        } else {
            a
        }
    } else if k == 3 {
        if older(v, PodmanVersion { major: 4, minor: 6 }) {
            group_pushed(v4_6_security_args(c, a), v4_6_args(c))
        } else {
            a
        }
    } else if older(v, PodmanVersion { major: 4, minor: 5 }) {
        group_pushed(a, v4_5_args(c))
    } else {
        a
    }
}

/// The steps from `k` on, from Podman's arguments `a`.
spec fn run_from(c: Container, v: PodmanVersion, a: Option<Seq<char>>, k: int) -> Option<Seq<char>>
    decreases 5 - k,
{
    if k >= 5 {
        a
    } else {
        run_from(c, v, step(c, v, a, k), k + 1)
    }
}

/// Podman's arguments before step `k`.
spec fn args_before(c: Container, v: PodmanVersion, k: int) -> Option<Seq<char>>
    decreases k,
{
    if k <= 0 {
        args_after_5_0(c, v)
    } else {
        step(c, v, args_before(c, v, k - 1), k - 1)
    }
}

/// The steps from `k` on, from the arguments before step `k`, give the arguments of the
/// downgrade.
proof fn lemma_run_from(c: Container, v: PodmanVersion, k: int)
    requires
        proceeds(c, v),
        0 <= k <= 5,
    ensures
        run_from(c, v, args_before(c, v, k), k) == container_downgraded_args(c, v),
    decreases k,
{
    if k == 0 {
        reveal_with_fuel(run_from, 6);
    } else {
        lemma_run_from(c, v, k - 1);
    }
}

/// Security options keep what Podman's arguments held.
proof fn lemma_security_keeps(c: Container, a: Option<Seq<char>>, n: Seq<char>)
    requires
        args_hold(a, n),
    ensures
        args_hold(v4_6_security_args(c, a), n),
{
    let a1 = if c.security_label_nested {
        Some(with_podman_arg(a, "security-opt"@, "label=nested"@))
    } else {
        a
    };
    if c.security_label_nested {
        lemma_podman_arg_keeps(a, "security-opt"@, "label=nested"@, n);
    }
    let m = "mask="@ + crate::container_downgrade::unmask_joined(
        crate::container::UnmaskView::Paths(c.mask.deep_view()),
    );
    let a2 = if c.mask@.len() > 0 { Some(with_podman_arg(a1, "security-opt"@, m)) } else { a1 };
    if c.mask@.len() > 0 {
        lemma_podman_arg_keeps(a1, "security-opt"@, m, n);
    }
    if let Some(u) = c.unmask {
        lemma_podman_arg_keeps(a2, "security-opt"@,
            "unmask="@ + crate::container_downgrade::unmask_joined(u@), n);
    }
}

/// Each step keeps what Podman's arguments held.
proof fn lemma_step_keeps(c: Container, v: PodmanVersion, a: Option<Seq<char>>, n: Seq<char>,
    k: int)
    requires
        args_hold(a, n),
        n.len() > 0,
    ensures
        args_hold(step(c, v, a, k), n),
{
    if k == 0 {
        if older(v, PodmanVersion { major: 5, minor: 0 }) && c.notify == Notify::Healthy {
            lemma_podman_arg_keeps(a, "sdnotify"@, "healthy"@, n);
        }
    } else if k == 1 {
        let b = if !c.read_only_tmpfs {
            Some(appended(a, "--read-only-tmpfs=false"@))
        } else {
            a
        };
        lemma_appended(a, "--read-only-tmpfs=false"@, n);
        lemma_group_pushed(b, v4_8_args(c), n);
    } else if k == 2 {
        lemma_group_pushed(a, v4_7_args(c), n);
    } else if k == 3 {
        lemma_security_keeps(c, a, n);
        lemma_group_pushed(v4_6_security_args(c, a), v4_6_args(c), n);
    } else {
        lemma_group_pushed(a, v4_5_args(c), n);
    }
}

/// The steps from `k` on keep what Podman's arguments held.
proof fn lemma_run_keeps(c: Container, v: PodmanVersion, a: Option<Seq<char>>, n: Seq<char>, k: int)
    requires
        args_hold(a, n),
        n.len() > 0,
    ensures
        args_hold(run_from(c, v, a, k), n),
    decreases 5 - k,
{
    if k < 5 {
        lemma_step_keeps(c, v, a, n, k);
        lemma_run_keeps(c, v, step(c, v, a, k), n, k + 1);
    }
}

/// What Podman's arguments hold after step `k` of a downgrade that proceeds, they hold at its
/// end.
proof fn lemma_held_after_step(c: Container, v: PodmanVersion, n: Seq<char>, k: int)
    requires
        proceeds(c, v),
        0 <= k < 5,
        n.len() > 0,
        args_hold(step(c, v, args_before(c, v, k), k), n),
    ensures
        args_hold(container_downgraded_args(c, v), n),
{
    lemma_run_from(c, v, k + 1);
    lemma_run_keeps(c, v, args_before(c, v, k + 1), n, k + 1);
}

/// What Podman's arguments hold once the options added in 5.0 are pushed, they hold at the end
/// of the downgrade, whether it proceeds or not.
proof fn lemma_held_after_5_0(c: Container, v: PodmanVersion, n: Seq<char>)
    requires
        n.len() > 0,
        args_hold(args_after_5_0(c, v), n),
    ensures
        args_hold(container_downgraded_args(c, v), n),
{
    if proceeds(c, v) {
        lemma_run_from(c, v, 0);
        lemma_run_keeps(c, v, args_after_5_0(c, v), n, 0);
    }
}


/// An argument on its own is not empty.
proof fn lemma_lone_arg_len(flag: Seq<char>, value: Seq<char>)
    ensures
        lone_arg(flag, value).len() > 0,
{
    assert(with_flag(Seq::<char>::empty(), flag) =~= seq!['-', '-'] + flag);
}

/// What the arguments of the group of options of step `k` hold, the arguments after step `k`
/// hold.
proof fn lemma_step_adds(c: Container, v: PodmanVersion, a: Option<Seq<char>>, n: Seq<char>, k: int)
    requires
        n.len() > 0,
        (k == 1 && older(v, PodmanVersion { major: 4, minor: 8 }) && occurs_in(n, v4_8_args(c)))
            || (k == 2 && older(v, PodmanVersion { major: 4, minor: 7 }) && occurs_in(n,
                v4_7_args(c)))
            || (k == 3 && older(v, PodmanVersion { major: 4, minor: 6 }) && occurs_in(n,
                v4_6_args(c)))
            || (k == 4 && older(v, PodmanVersion { major: 4, minor: 5 }) && occurs_in(n,
                v4_5_args(c))),
    ensures
        args_hold(step(c, v, a, k), n),
{
    if k == 1 {
        let b = if !c.read_only_tmpfs {
            Some(appended(a, "--read-only-tmpfs=false"@))
        } else {
            a
        };
        lemma_group_pushed(b, v4_8_args(c), n);
    } else if k == 2 {
        lemma_group_pushed(a, v4_7_args(c), n);
    } else if k == 3 {
        lemma_group_pushed(v4_6_security_args(c, a), v4_6_args(c), n);
    } else {
        lemma_group_pushed(a, v4_5_args(c), n);
    }
}

/// The security options that are set stand as `--security-opt` arguments.
proof fn lemma_security_has(c: Container, a: Option<Seq<char>>)
    ensures
        c.security_label_nested ==> args_hold(
            v4_6_security_args(c, a),
            with_podman_arg(None, "security-opt"@, "label=nested"@),
        ),
        c.mask@.len() > 0 ==> args_hold(
            v4_6_security_args(c, a),
            with_podman_arg(None, "security-opt"@,
                "mask="@ + unmask_joined(UnmaskView::Paths(c.mask.deep_view()))),
        ),
        c.unmask matches Some(u) ==> args_hold(
            v4_6_security_args(c, a),
            with_podman_arg(None, "security-opt"@, "unmask="@ + unmask_joined(u@)),
        ),
{
    let nested = with_podman_arg(None, "security-opt"@, "label=nested"@);
    let m = "mask="@ + unmask_joined(UnmaskView::Paths(c.mask.deep_view()));
    let mask = with_podman_arg(None, "security-opt"@, m);
    let a1 = if c.security_label_nested {
        Some(with_podman_arg(a, "security-opt"@, "label=nested"@))
    } else {
        a
    };
    let a2 = if c.mask@.len() > 0 { Some(with_podman_arg(a1, "security-opt"@, m)) } else { a1 };
    if c.security_label_nested {
        lemma_podman_arg_at_end(a, "security-opt"@, "label=nested"@);
        if c.mask@.len() > 0 {
            lemma_podman_arg_keeps(a1, "security-opt"@, m, nested);
        }
        if let Some(u) = c.unmask {
            lemma_podman_arg_keeps(a2, "security-opt"@, "unmask="@ + unmask_joined(u@), nested);
        }
    }
    if c.mask@.len() > 0 {
        lemma_podman_arg_at_end(a1, "security-opt"@, m);
        if let Some(u) = c.unmask {
            lemma_podman_arg_keeps(a2, "security-opt"@, "unmask="@ + unmask_joined(u@), mask);
        }
    }
    if let Some(u) = c.unmask {
        lemma_podman_arg_at_end(a2, "security-opt"@, "unmask="@ + unmask_joined(u@));
    }
}


/// A downgrade keeps notifying when healthy, read-write temporary file systems being off and
/// the security options as arguments.
proof fn downgrade_keeps_special_options(c: Container, v: PodmanVersion)
    ensures
        older(v, PodmanVersion { major: 5, minor: 0 }) && proceeds(c,
            v) && c.notify == Notify::Healthy
            ==> args_hold(container_downgraded_args(c, v), with_podman_arg(None, "sdnotify"@,
                "healthy"@)),
        older(v, PodmanVersion { major: 4, minor: 8 }) && proceeds(c, v) && !c.read_only_tmpfs
            ==> args_hold(container_downgraded_args(c, v), "--read-only-tmpfs=false"@),
        older(v, PodmanVersion { major: 4, minor: 6 }) && proceeds(c, v) && c.security_label_nested
            ==> args_hold(container_downgraded_args(c, v), with_podman_arg(None, "security-opt"@,
                "label=nested"@)),
        older(v, PodmanVersion { major: 4, minor: 6 }) && proceeds(c, v) && c.mask@.len() > 0
            ==> args_hold(
                container_downgraded_args(c, v),
                with_podman_arg(None, "security-opt"@,
                    "mask="@ + unmask_joined(UnmaskView::Paths(c.mask.deep_view()))),
            ),
        c.unmask matches Some(u) ==> older(v, PodmanVersion { major: 4, minor: 6 }) && proceeds(c,
            v)
            ==> args_hold(
                container_downgraded_args(c, v),
                with_podman_arg(None, "security-opt"@, "unmask="@ + unmask_joined(u@)),
            ),
{
    if proceeds(c, v) {
        if older(v, PodmanVersion { major: 5, minor: 0 }) && c.notify == Notify::Healthy {
            let n = with_podman_arg(None, "sdnotify"@, "healthy"@);
            lemma_podman_arg_at_end(args_before(c, v, 0), "sdnotify"@, "healthy"@);
            lemma_held_after_step(c, v, n, 0);
        }
        if older(v, PodmanVersion { major: 4, minor: 8 }) && !c.read_only_tmpfs {
            let n = "--read-only-tmpfs=false"@;
            reveal_strlit("--read-only-tmpfs=false");
            let a = args_before(c, v, 1);
            lemma_occurs_self(n);
            lemma_appended(a, n, n);
            lemma_group_pushed(Some(appended(a, n)), v4_8_args(c), n);
            lemma_held_after_step(c, v, n, 1);
        }
        if older(v, PodmanVersion { major: 4, minor: 6 }) {
            let a = args_before(c, v, 3);
            lemma_security_has(c, a);
            let nested = with_podman_arg(None, "security-opt"@, "label=nested"@);
            let mask = with_podman_arg(
                None,
                "security-opt"@,
                "mask="@ + unmask_joined(UnmaskView::Paths(c.mask.deep_view())),
            );
            if c.security_label_nested {
                lemma_group_pushed(v4_6_security_args(c, a), v4_6_args(c), nested);
                lemma_held_after_step(c, v, nested, 3);
            }
            if c.mask@.len() > 0 {
                lemma_group_pushed(v4_6_security_args(c, a), v4_6_args(c), mask);
                lemma_held_after_step(c, v, mask, 3);
            }
            if let Some(u) = c.unmask {
                let un = with_podman_arg(None, "security-opt"@, "unmask="@ + unmask_joined(u@));
                lemma_group_pushed(v4_6_security_args(c, a), v4_6_args(c), un);
                lemma_held_after_step(c, v, un, 3);
            }
        }
    }
}

/// The argument of the option `entrypoint` stands among those of its group.
proof fn v5_0_has_entrypoint(c: Container)
    ensures
        opt_seq(c.entrypoint) matches Some(t) ==> occurs_in(lone_arg("entrypoint"@, t),
            v5_0_args(c)),
{
    let o0 = Seq::<char>::empty();
    let o1 = opt_arg(o0, "entrypoint"@, opt_seq(c.entrypoint));
    let o2 = opt_arg(o1, "stop-timeout"@, u64_text(c.stop_timeout));
    assert(o2 == v5_0_args(c));
    lemma_opt_arg_has(o0, "entrypoint"@, opt_seq(c.entrypoint));
    if let Some(t) = opt_seq(c.entrypoint) {
        lemma_opt_arg_keeps(lone_arg("entrypoint"@, t), o1, "stop-timeout"@,
            u64_text(c.stop_timeout));
    }
}

/// A downgrade keeps the option `entrypoint` as its argument.
proof fn downgrade_keeps_entrypoint(c: Container, v: PodmanVersion)
    ensures
        older(v, PodmanVersion { major: 5, minor: 0 }) ==> (c.entrypoint matches Some(x)
            ==> args_hold(container_downgraded_args(c, v), lone_arg("entrypoint"@, x@))),
{
    if older(v, PodmanVersion { major: 5, minor: 0 }) {
        v5_0_has_entrypoint(c);
        if let Some(t) = opt_seq(c.entrypoint) {
            lemma_lone_arg_len("entrypoint"@, t);
            lemma_group_pushed(opt_seq(c.podman_args), v5_0_args(c), lone_arg("entrypoint"@, t));
            lemma_held_after_5_0(c, v, lone_arg("entrypoint"@, t));
        }
    }
}

/// The argument of the option `stop_timeout` stands among those of its group.
proof fn v5_0_has_stop_timeout(c: Container)
    ensures
        u64_text(c.stop_timeout) matches Some(t) ==> occurs_in(lone_arg("stop-timeout"@, t),
            v5_0_args(c)),
{
    let o0 = Seq::<char>::empty();
    let o1 = opt_arg(o0, "entrypoint"@, opt_seq(c.entrypoint));
    let o2 = opt_arg(o1, "stop-timeout"@, u64_text(c.stop_timeout));
    assert(o2 == v5_0_args(c));
    lemma_opt_arg_has(o1, "stop-timeout"@, u64_text(c.stop_timeout));
    if let Some(t) = u64_text(c.stop_timeout) {
    }
}

/// A downgrade keeps the option `stop_timeout` as its argument.
proof fn downgrade_keeps_stop_timeout(c: Container, v: PodmanVersion)
    ensures
        older(v, PodmanVersion { major: 5, minor: 0 }) ==> (c.stop_timeout matches Some(x)
            ==> args_hold(container_downgraded_args(c, v), lone_arg("stop-timeout"@,
            decimal(x as nat)))),
{
    if older(v, PodmanVersion { major: 5, minor: 0 }) {
        v5_0_has_stop_timeout(c);
        if let Some(t) = u64_text(c.stop_timeout) {
            lemma_lone_arg_len("stop-timeout"@, t);
            lemma_group_pushed(opt_seq(c.podman_args), v5_0_args(c), lone_arg("stop-timeout"@, t));
            lemma_held_after_5_0(c, v, lone_arg("stop-timeout"@, t));
        }
    }
}

/// The argument of the option `gid_map` stands among those of its group.
proof fn v4_8_has_gid_map(c: Container)
    ensures
        forall|i: int| 0 <= i < c.gid_map@.len() ==> occurs_in(lone_arg("gidmap"@,
            (#[trigger] c.gid_map@[i])@), v4_8_args(c)),
{
    let o0 = Seq::<char>::empty();
    let o1 = list_args(o0, "gidmap"@, c.gid_map@);
    let o2 = opt_arg(o1, "subgidname"@, opt_seq(c.sub_gid_map));
    let o3 = opt_arg(o2, "subuidname"@, opt_seq(c.sub_uid_map));
    let o4 = list_args(o3, "uidmap"@, c.uid_map@);
    assert(o4 == v4_8_args(c));
    assert forall|i: int| 0 <= i < c.gid_map@.len() implies occurs_in(lone_arg("gidmap"@,
        (#[trigger] c.gid_map@[i])@), v4_8_args(c)) by {
        lemma_list_args_has(o0, "gidmap"@, c.gid_map@, i);
        lemma_opt_arg_keeps(lone_arg("gidmap"@, c.gid_map@[i]@), o1, "subgidname"@,
            opt_seq(c.sub_gid_map));
        lemma_opt_arg_keeps(lone_arg("gidmap"@, c.gid_map@[i]@), o2, "subuidname"@,
            opt_seq(c.sub_uid_map));
        lemma_list_args_keeps(lone_arg("gidmap"@, c.gid_map@[i]@), o3, "uidmap"@, c.uid_map@);
    }
}

/// A downgrade keeps the option `gid_map` as its argument.
proof fn downgrade_keeps_gid_map(c: Container, v: PodmanVersion)
    ensures
        older(v, PodmanVersion { major: 4, minor: 8 }) && proceeds(c, v)
            ==> (forall|i: int| 0 <= i < c.gid_map@.len() ==> args_hold(container_downgraded_args(c,
            v), lone_arg("gidmap"@, (#[trigger] c.gid_map@[i])@))),
{
    if older(v, PodmanVersion { major: 4, minor: 8 }) && proceeds(c, v) {
        v4_8_has_gid_map(c);
        assert forall|i: int| 0 <= i < c.gid_map@.len() implies args_hold(container_downgraded_args(c,
            v), lone_arg("gidmap"@, (#[trigger] c.gid_map@[i])@)) by {
            lemma_lone_arg_len("gidmap"@, c.gid_map@[i]@);
            lemma_step_adds(c, v, args_before(c, v, 1), lone_arg("gidmap"@, c.gid_map@[i]@), 1);
            lemma_held_after_step(c, v, lone_arg("gidmap"@, c.gid_map@[i]@), 1);
        }
    }
}

/// The argument of the option `sub_gid_map` stands among those of its group.
proof fn v4_8_has_sub_gid_map(c: Container)
    ensures
        opt_seq(c.sub_gid_map) matches Some(t) ==> occurs_in(lone_arg("subgidname"@, t),
            v4_8_args(c)),
{
    let o0 = Seq::<char>::empty();
    let o1 = list_args(o0, "gidmap"@, c.gid_map@);
    let o2 = opt_arg(o1, "subgidname"@, opt_seq(c.sub_gid_map));
    let o3 = opt_arg(o2, "subuidname"@, opt_seq(c.sub_uid_map));
    let o4 = list_args(o3, "uidmap"@, c.uid_map@);
    assert(o4 == v4_8_args(c));
    lemma_opt_arg_has(o1, "subgidname"@, opt_seq(c.sub_gid_map));
    if let Some(t) = opt_seq(c.sub_gid_map) {
        lemma_opt_arg_keeps(lone_arg("subgidname"@, t), o2, "subuidname"@, opt_seq(c.sub_uid_map));
        lemma_list_args_keeps(lone_arg("subgidname"@, t), o3, "uidmap"@, c.uid_map@);
    }
}

/// A downgrade keeps the option `sub_gid_map` as its argument.
proof fn downgrade_keeps_sub_gid_map(c: Container, v: PodmanVersion)
    ensures
        older(v, PodmanVersion { major: 4, minor: 8 }) && proceeds(c, v)
            ==> (c.sub_gid_map matches Some(x) ==> args_hold(container_downgraded_args(c, v),
            lone_arg("subgidname"@, x@))),
{
    if older(v, PodmanVersion { major: 4, minor: 8 }) && proceeds(c, v) {
        v4_8_has_sub_gid_map(c);
        if let Some(t) = opt_seq(c.sub_gid_map) {
            lemma_lone_arg_len("subgidname"@, t);
            lemma_step_adds(c, v, args_before(c, v, 1), lone_arg("subgidname"@, t), 1);
            lemma_held_after_step(c, v, lone_arg("subgidname"@, t), 1);
        }
    }
}

/// The argument of the option `sub_uid_map` stands among those of its group.
proof fn v4_8_has_sub_uid_map(c: Container)
    ensures
        opt_seq(c.sub_uid_map) matches Some(t) ==> occurs_in(lone_arg("subuidname"@, t),
            v4_8_args(c)),
{
    let o0 = Seq::<char>::empty();
    let o1 = list_args(o0, "gidmap"@, c.gid_map@);
    let o2 = opt_arg(o1, "subgidname"@, opt_seq(c.sub_gid_map));
    let o3 = opt_arg(o2, "subuidname"@, opt_seq(c.sub_uid_map));
    let o4 = list_args(o3, "uidmap"@, c.uid_map@);
    assert(o4 == v4_8_args(c));
    lemma_opt_arg_has(o2, "subuidname"@, opt_seq(c.sub_uid_map));
    if let Some(t) = opt_seq(c.sub_uid_map) {
        lemma_list_args_keeps(lone_arg("subuidname"@, t), o3, "uidmap"@, c.uid_map@);
    }
}

/// A downgrade keeps the option `sub_uid_map` as its argument.
proof fn downgrade_keeps_sub_uid_map(c: Container, v: PodmanVersion)
    ensures
        older(v, PodmanVersion { major: 4, minor: 8 }) && proceeds(c, v)
            ==> (c.sub_uid_map matches Some(x) ==> args_hold(container_downgraded_args(c, v),
            lone_arg("subuidname"@, x@))),
{
    if older(v, PodmanVersion { major: 4, minor: 8 }) && proceeds(c, v) {
        v4_8_has_sub_uid_map(c);
        if let Some(t) = opt_seq(c.sub_uid_map) {
            lemma_lone_arg_len("subuidname"@, t);
            lemma_step_adds(c, v, args_before(c, v, 1), lone_arg("subuidname"@, t), 1);
            lemma_held_after_step(c, v, lone_arg("subuidname"@, t), 1);
        }
    }
}

/// The argument of the option `uid_map` stands among those of its group.
proof fn v4_8_has_uid_map(c: Container)
    ensures
        forall|i: int| 0 <= i < c.uid_map@.len() ==> occurs_in(lone_arg("uidmap"@,
            (#[trigger] c.uid_map@[i])@), v4_8_args(c)),
{
    let o0 = Seq::<char>::empty();
    let o1 = list_args(o0, "gidmap"@, c.gid_map@);
    let o2 = opt_arg(o1, "subgidname"@, opt_seq(c.sub_gid_map));
    let o3 = opt_arg(o2, "subuidname"@, opt_seq(c.sub_uid_map));
    let o4 = list_args(o3, "uidmap"@, c.uid_map@);
    assert(o4 == v4_8_args(c));
    assert forall|i: int| 0 <= i < c.uid_map@.len() implies occurs_in(lone_arg("uidmap"@,
        (#[trigger] c.uid_map@[i])@), v4_8_args(c)) by {
        lemma_list_args_has(o3, "uidmap"@, c.uid_map@, i);
    }
}

/// A downgrade keeps the option `uid_map` as its argument.
proof fn downgrade_keeps_uid_map(c: Container, v: PodmanVersion)
    ensures
        older(v, PodmanVersion { major: 4, minor: 8 }) && proceeds(c, v)
            ==> (forall|i: int| 0 <= i < c.uid_map@.len() ==> args_hold(container_downgraded_args(c,
            v), lone_arg("uidmap"@, (#[trigger] c.uid_map@[i])@))),
{
    if older(v, PodmanVersion { major: 4, minor: 8 }) && proceeds(c, v) {
        v4_8_has_uid_map(c);
        assert forall|i: int| 0 <= i < c.uid_map@.len() implies args_hold(container_downgraded_args(c,
            v), lone_arg("uidmap"@, (#[trigger] c.uid_map@[i])@)) by {
            lemma_lone_arg_len("uidmap"@, c.uid_map@[i]@);
            lemma_step_adds(c, v, args_before(c, v, 1), lone_arg("uidmap"@, c.uid_map@[i]@), 1);
            lemma_held_after_step(c, v, lone_arg("uidmap"@, c.uid_map@[i]@), 1);
        }
    }
}

/// The argument of the option `dns` stands among those of its group.
proof fn v4_7_has_dns(c: Container)
    ensures
        (c.dns == Dns::Disabled ==> occurs_in(lone_arg("dns"@, "none"@), v4_7_args(c)))
            && (c.dns matches Dns::Custom(w) ==> forall|i: int| 0 <= i < w@.len()
            ==> occurs_in(lone_arg("dns"@, (#[trigger] w@[i])@), v4_7_args(c))),
{
    let o0 = Seq::<char>::empty();
    let o1 = dns_args_text(o0, c.dns);
    let o2 = list_args(o1, "dns-option"@, c.dns_option@);
    let o3 = list_args(o2, "dns-search"@, c.dns_search@);
    let o4 = opt_arg(o3, "pids-limit"@, pids_text(c.pids_limit));
    let o5 = opt_arg(o4, "shm-size"@, opt_seq(c.shm_size));
    let o6 = list_args(o5, "ulimit"@, c.ulimit@);
    assert(o6 == v4_7_args(c));
    lemma_dns_args_has(o0, c.dns);
    if c.dns == Dns::Disabled {
        lemma_list_args_keeps(lone_arg("dns"@, "none"@), o1, "dns-option"@, c.dns_option@);
        lemma_list_args_keeps(lone_arg("dns"@, "none"@), o2, "dns-search"@, c.dns_search@);
        lemma_opt_arg_keeps(lone_arg("dns"@, "none"@), o3, "pids-limit"@, pids_text(c.pids_limit));
        lemma_opt_arg_keeps(lone_arg("dns"@, "none"@), o4, "shm-size"@, opt_seq(c.shm_size));
        lemma_list_args_keeps(lone_arg("dns"@, "none"@), o5, "ulimit"@, c.ulimit@);
    }
    if let Dns::Custom(w) = c.dns {
        assert forall|i: int| 0 <= i < w@.len() implies occurs_in(lone_arg("dns"@,
            (#[trigger] w@[i])@), v4_7_args(c)) by {
            lemma_list_args_keeps(lone_arg("dns"@, w@[i]@), o1, "dns-option"@, c.dns_option@);
            lemma_list_args_keeps(lone_arg("dns"@, w@[i]@), o2, "dns-search"@, c.dns_search@);
            lemma_opt_arg_keeps(lone_arg("dns"@, w@[i]@), o3, "pids-limit"@,
                pids_text(c.pids_limit));
            lemma_opt_arg_keeps(lone_arg("dns"@, w@[i]@), o4, "shm-size"@, opt_seq(c.shm_size));
            lemma_list_args_keeps(lone_arg("dns"@, w@[i]@), o5, "ulimit"@, c.ulimit@);
        }
    }
}

/// A downgrade keeps the option `dns` as its argument.
proof fn downgrade_keeps_dns(c: Container, v: PodmanVersion)
    ensures
        older(v, PodmanVersion { major: 4, minor: 7 }) && proceeds(c, v)
            ==> ((c.dns == Dns::Disabled ==> args_hold(container_downgraded_args(c, v),
            lone_arg("dns"@, "none"@))) && (c.dns matches Dns::Custom(w)
            ==> forall|i: int| 0 <= i < w@.len() ==> args_hold(container_downgraded_args(c, v),
            lone_arg("dns"@, (#[trigger] w@[i])@)))),
{
    if older(v, PodmanVersion { major: 4, minor: 7 }) && proceeds(c, v) {
        v4_7_has_dns(c);
        if c.dns == Dns::Disabled {
            lemma_lone_arg_len("dns"@, "none"@);
            lemma_step_adds(c, v, args_before(c, v, 2), lone_arg("dns"@, "none"@), 2);
            lemma_held_after_step(c, v, lone_arg("dns"@, "none"@), 2);
        }
        if let Dns::Custom(w) = c.dns {
            assert forall|i: int| 0 <= i < w@.len() implies args_hold(container_downgraded_args(c,
                v), lone_arg("dns"@, (#[trigger] w@[i])@)) by {
                lemma_lone_arg_len("dns"@, w@[i]@);
                lemma_step_adds(c, v, args_before(c, v, 2), lone_arg("dns"@, w@[i]@), 2);
                lemma_held_after_step(c, v, lone_arg("dns"@, w@[i]@), 2);
            }
        }
    }
}

/// The argument of the option `dns_option` stands among those of its group.
proof fn v4_7_has_dns_option(c: Container)
    ensures
        forall|i: int| 0 <= i < c.dns_option@.len() ==> occurs_in(lone_arg("dns-option"@,
            (#[trigger] c.dns_option@[i])@), v4_7_args(c)),
{
    let o0 = Seq::<char>::empty();
    let o1 = dns_args_text(o0, c.dns);
    let o2 = list_args(o1, "dns-option"@, c.dns_option@);
    let o3 = list_args(o2, "dns-search"@, c.dns_search@);
    let o4 = opt_arg(o3, "pids-limit"@, pids_text(c.pids_limit));
    let o5 = opt_arg(o4, "shm-size"@, opt_seq(c.shm_size));
    let o6 = list_args(o5, "ulimit"@, c.ulimit@);
    assert(o6 == v4_7_args(c));
    assert forall|i: int| 0 <= i < c.dns_option@.len() implies occurs_in(lone_arg("dns-option"@,
        (#[trigger] c.dns_option@[i])@), v4_7_args(c)) by {
        lemma_list_args_has(o1, "dns-option"@, c.dns_option@, i);
        lemma_list_args_keeps(lone_arg("dns-option"@, c.dns_option@[i]@), o2, "dns-search"@,
            c.dns_search@);
        lemma_opt_arg_keeps(lone_arg("dns-option"@, c.dns_option@[i]@), o3, "pids-limit"@,
            pids_text(c.pids_limit));
        lemma_opt_arg_keeps(lone_arg("dns-option"@, c.dns_option@[i]@), o4, "shm-size"@,
            opt_seq(c.shm_size));
        lemma_list_args_keeps(lone_arg("dns-option"@, c.dns_option@[i]@), o5, "ulimit"@, c.ulimit@);
    }
}

/// A downgrade keeps the option `dns_option` as its argument.
proof fn downgrade_keeps_dns_option(c: Container, v: PodmanVersion)
    ensures
        older(v, PodmanVersion { major: 4, minor: 7 }) && proceeds(c, v)
            ==> (forall|i: int| 0 <= i < c.dns_option@.len()
            ==> args_hold(container_downgraded_args(c, v), lone_arg("dns-option"@,
            (#[trigger] c.dns_option@[i])@))),
{
    if older(v, PodmanVersion { major: 4, minor: 7 }) && proceeds(c, v) {
        v4_7_has_dns_option(c);
        assert forall|i: int| 0 <= i < c.dns_option@.len() implies args_hold(container_downgraded_args(c,
            v), lone_arg("dns-option"@, (#[trigger] c.dns_option@[i])@)) by {
            lemma_lone_arg_len("dns-option"@, c.dns_option@[i]@);
            lemma_step_adds(c, v, args_before(c, v, 2), lone_arg("dns-option"@, c.dns_option@[i]@),
                2);
            lemma_held_after_step(c, v, lone_arg("dns-option"@, c.dns_option@[i]@), 2);
        }
    }
}

/// The argument of the option `dns_search` stands among those of its group.
proof fn v4_7_has_dns_search(c: Container)
    ensures
        forall|i: int| 0 <= i < c.dns_search@.len() ==> occurs_in(lone_arg("dns-search"@,
            (#[trigger] c.dns_search@[i])@), v4_7_args(c)),
{
    let o0 = Seq::<char>::empty();
    let o1 = dns_args_text(o0, c.dns);
    let o2 = list_args(o1, "dns-option"@, c.dns_option@);
    let o3 = list_args(o2, "dns-search"@, c.dns_search@);
    let o4 = opt_arg(o3, "pids-limit"@, pids_text(c.pids_limit));
    let o5 = opt_arg(o4, "shm-size"@, opt_seq(c.shm_size));
    let o6 = list_args(o5, "ulimit"@, c.ulimit@);
    assert(o6 == v4_7_args(c));
    assert forall|i: int| 0 <= i < c.dns_search@.len() implies occurs_in(lone_arg("dns-search"@,
        (#[trigger] c.dns_search@[i])@), v4_7_args(c)) by {
        lemma_list_args_has(o2, "dns-search"@, c.dns_search@, i);
        lemma_opt_arg_keeps(lone_arg("dns-search"@, c.dns_search@[i]@), o3, "pids-limit"@,
            pids_text(c.pids_limit));
        lemma_opt_arg_keeps(lone_arg("dns-search"@, c.dns_search@[i]@), o4, "shm-size"@,
            opt_seq(c.shm_size));
        lemma_list_args_keeps(lone_arg("dns-search"@, c.dns_search@[i]@), o5, "ulimit"@, c.ulimit@);
    }
}

/// A downgrade keeps the option `dns_search` as its argument.
proof fn downgrade_keeps_dns_search(c: Container, v: PodmanVersion)
    ensures
        older(v, PodmanVersion { major: 4, minor: 7 }) && proceeds(c, v)
            ==> (forall|i: int| 0 <= i < c.dns_search@.len()
            ==> args_hold(container_downgraded_args(c, v), lone_arg("dns-search"@,
            (#[trigger] c.dns_search@[i])@))),
{
    if older(v, PodmanVersion { major: 4, minor: 7 }) && proceeds(c, v) {
        v4_7_has_dns_search(c);
        assert forall|i: int| 0 <= i < c.dns_search@.len() implies args_hold(container_downgraded_args(c,
            v), lone_arg("dns-search"@, (#[trigger] c.dns_search@[i])@)) by {
            lemma_lone_arg_len("dns-search"@, c.dns_search@[i]@);
            lemma_step_adds(c, v, args_before(c, v, 2), lone_arg("dns-search"@, c.dns_search@[i]@),
                2);
            lemma_held_after_step(c, v, lone_arg("dns-search"@, c.dns_search@[i]@), 2);
        }
    }
}

/// The argument of the option `pids_limit` stands among those of its group.
proof fn v4_7_has_pids_limit(c: Container)
    ensures
        pids_text(c.pids_limit) matches Some(t) ==> occurs_in(lone_arg("pids-limit"@, t),
            v4_7_args(c)),
{
    let o0 = Seq::<char>::empty();
    let o1 = dns_args_text(o0, c.dns);
    let o2 = list_args(o1, "dns-option"@, c.dns_option@);
    let o3 = list_args(o2, "dns-search"@, c.dns_search@);
    let o4 = opt_arg(o3, "pids-limit"@, pids_text(c.pids_limit));
    let o5 = opt_arg(o4, "shm-size"@, opt_seq(c.shm_size));
    let o6 = list_args(o5, "ulimit"@, c.ulimit@);
    assert(o6 == v4_7_args(c));
    lemma_opt_arg_has(o3, "pids-limit"@, pids_text(c.pids_limit));
    if let Some(t) = pids_text(c.pids_limit) {
        lemma_opt_arg_keeps(lone_arg("pids-limit"@, t), o4, "shm-size"@, opt_seq(c.shm_size));
        lemma_list_args_keeps(lone_arg("pids-limit"@, t), o5, "ulimit"@, c.ulimit@);
    }
}

/// A downgrade keeps the option `pids_limit` as its argument.
proof fn downgrade_keeps_pids_limit(c: Container, v: PodmanVersion)
    ensures
        older(v, PodmanVersion { major: 4, minor: 7 }) && proceeds(c, v)
            ==> ((c.pids_limit matches Some(PidsLimit::Value(x))
            ==> args_hold(container_downgraded_args(c, v), lone_arg("pids-limit"@,
            decimal(x as nat)))) && (c.pids_limit == Some(PidsLimit::Unlimited)
            ==> args_hold(container_downgraded_args(c, v), lone_arg("pids-limit"@, "-1"@)))),
{
    if older(v, PodmanVersion { major: 4, minor: 7 }) && proceeds(c, v) {
        v4_7_has_pids_limit(c);
        if let Some(t) = pids_text(c.pids_limit) {
            lemma_lone_arg_len("pids-limit"@, t);
            lemma_step_adds(c, v, args_before(c, v, 2), lone_arg("pids-limit"@, t), 2);
            lemma_held_after_step(c, v, lone_arg("pids-limit"@, t), 2);
        }
    }
}

/// The argument of the option `shm_size` stands among those of its group.
proof fn v4_7_has_shm_size(c: Container)
    ensures
        opt_seq(c.shm_size) matches Some(t) ==> occurs_in(lone_arg("shm-size"@, t), v4_7_args(c)),
{
    let o0 = Seq::<char>::empty();
    let o1 = dns_args_text(o0, c.dns);
    let o2 = list_args(o1, "dns-option"@, c.dns_option@);
    let o3 = list_args(o2, "dns-search"@, c.dns_search@);
    let o4 = opt_arg(o3, "pids-limit"@, pids_text(c.pids_limit));
    let o5 = opt_arg(o4, "shm-size"@, opt_seq(c.shm_size));
    let o6 = list_args(o5, "ulimit"@, c.ulimit@);
    assert(o6 == v4_7_args(c));
    lemma_opt_arg_has(o4, "shm-size"@, opt_seq(c.shm_size));
    if let Some(t) = opt_seq(c.shm_size) {
        lemma_list_args_keeps(lone_arg("shm-size"@, t), o5, "ulimit"@, c.ulimit@);
    }
}

/// A downgrade keeps the option `shm_size` as its argument.
proof fn downgrade_keeps_shm_size(c: Container, v: PodmanVersion)
    ensures
        older(v, PodmanVersion { major: 4, minor: 7 }) && proceeds(c, v)
            ==> (c.shm_size matches Some(x) ==> args_hold(container_downgraded_args(c, v),
            lone_arg("shm-size"@, x@))),
{
    if older(v, PodmanVersion { major: 4, minor: 7 }) && proceeds(c, v) {
        v4_7_has_shm_size(c);
        if let Some(t) = opt_seq(c.shm_size) {
            lemma_lone_arg_len("shm-size"@, t);
            lemma_step_adds(c, v, args_before(c, v, 2), lone_arg("shm-size"@, t), 2);
            lemma_held_after_step(c, v, lone_arg("shm-size"@, t), 2);
        }
    }
}

/// The argument of the option `ulimit` stands among those of its group.
proof fn v4_7_has_ulimit(c: Container)
    ensures
        forall|i: int| 0 <= i < c.ulimit@.len() ==> occurs_in(lone_arg("ulimit"@,
            (#[trigger] c.ulimit@[i])@), v4_7_args(c)),
{
    let o0 = Seq::<char>::empty();
    let o1 = dns_args_text(o0, c.dns);
    let o2 = list_args(o1, "dns-option"@, c.dns_option@);
    let o3 = list_args(o2, "dns-search"@, c.dns_search@);
    let o4 = opt_arg(o3, "pids-limit"@, pids_text(c.pids_limit));
    let o5 = opt_arg(o4, "shm-size"@, opt_seq(c.shm_size));
    let o6 = list_args(o5, "ulimit"@, c.ulimit@);
    assert(o6 == v4_7_args(c));
    assert forall|i: int| 0 <= i < c.ulimit@.len() implies occurs_in(lone_arg("ulimit"@,
        (#[trigger] c.ulimit@[i])@), v4_7_args(c)) by {
        lemma_list_args_has(o5, "ulimit"@, c.ulimit@, i);
    }
}

/// A downgrade keeps the option `ulimit` as its argument.
proof fn downgrade_keeps_ulimit(c: Container, v: PodmanVersion)
    ensures
        older(v, PodmanVersion { major: 4, minor: 7 }) && proceeds(c, v)
            ==> (forall|i: int| 0 <= i < c.ulimit@.len() ==> args_hold(container_downgraded_args(c,
            v), lone_arg("ulimit"@, (#[trigger] c.ulimit@[i])@))),
{
    if older(v, PodmanVersion { major: 4, minor: 7 }) && proceeds(c, v) {
        v4_7_has_ulimit(c);
        assert forall|i: int| 0 <= i < c.ulimit@.len() implies args_hold(container_downgraded_args(c,
            v), lone_arg("ulimit"@, (#[trigger] c.ulimit@[i])@)) by {
            lemma_lone_arg_len("ulimit"@, c.ulimit@[i]@);
            lemma_step_adds(c, v, args_before(c, v, 2), lone_arg("ulimit"@, c.ulimit@[i]@), 2);
            lemma_held_after_step(c, v, lone_arg("ulimit"@, c.ulimit@[i]@), 2);
        }
    }
}

/// The argument of the option `sysctl` stands among those of its group.
proof fn v4_6_has_sysctl(c: Container)
    ensures
        forall|i: int| 0 <= i < c.sysctl@.len() ==> occurs_in(lone_arg("sysctl"@,
            (#[trigger] c.sysctl@[i])@), v4_6_args(c)),
{
    let o0 = Seq::<char>::empty();
    let o1 = list_args(o0, "sysctl"@, c.sysctl@);
    let o2 = opt_arg(o1, "hostname"@, opt_seq(c.host_name));
    let o3 = opt_arg(o2, "pull"@, pull_text(c.pull));
    let o4 = opt_arg(o3, "workdir"@, opt_seq(c.working_dir));
    assert(o4 == v4_6_args(c));
    assert forall|i: int| 0 <= i < c.sysctl@.len() implies occurs_in(lone_arg("sysctl"@,
        (#[trigger] c.sysctl@[i])@), v4_6_args(c)) by {
        lemma_list_args_has(o0, "sysctl"@, c.sysctl@, i);
        lemma_opt_arg_keeps(lone_arg("sysctl"@, c.sysctl@[i]@), o1, "hostname"@,
            opt_seq(c.host_name));
        lemma_opt_arg_keeps(lone_arg("sysctl"@, c.sysctl@[i]@), o2, "pull"@, pull_text(c.pull));
        lemma_opt_arg_keeps(lone_arg("sysctl"@, c.sysctl@[i]@), o3, "workdir"@,
            opt_seq(c.working_dir));
    }
}

/// A downgrade keeps the option `sysctl` as its argument.
proof fn downgrade_keeps_sysctl(c: Container, v: PodmanVersion)
    ensures
        older(v, PodmanVersion { major: 4, minor: 6 }) && proceeds(c, v)
            ==> (forall|i: int| 0 <= i < c.sysctl@.len() ==> args_hold(container_downgraded_args(c,
            v), lone_arg("sysctl"@, (#[trigger] c.sysctl@[i])@))),
{
    if older(v, PodmanVersion { major: 4, minor: 6 }) && proceeds(c, v) {
        v4_6_has_sysctl(c);
        assert forall|i: int| 0 <= i < c.sysctl@.len() implies args_hold(container_downgraded_args(c,
            v), lone_arg("sysctl"@, (#[trigger] c.sysctl@[i])@)) by {
            lemma_lone_arg_len("sysctl"@, c.sysctl@[i]@);
            lemma_step_adds(c, v, args_before(c, v, 3), lone_arg("sysctl"@, c.sysctl@[i]@), 3);
            lemma_held_after_step(c, v, lone_arg("sysctl"@, c.sysctl@[i]@), 3);
        }
    }
}

/// The argument of the option `host_name` stands among those of its group.
proof fn v4_6_has_host_name(c: Container)
    ensures
        opt_seq(c.host_name) matches Some(t) ==> occurs_in(lone_arg("hostname"@, t), v4_6_args(c)),
{
    let o0 = Seq::<char>::empty();
    let o1 = list_args(o0, "sysctl"@, c.sysctl@);
    let o2 = opt_arg(o1, "hostname"@, opt_seq(c.host_name));
    let o3 = opt_arg(o2, "pull"@, pull_text(c.pull));
    let o4 = opt_arg(o3, "workdir"@, opt_seq(c.working_dir));
    assert(o4 == v4_6_args(c));
    lemma_opt_arg_has(o1, "hostname"@, opt_seq(c.host_name));
    if let Some(t) = opt_seq(c.host_name) {
        lemma_opt_arg_keeps(lone_arg("hostname"@, t), o2, "pull"@, pull_text(c.pull));
        lemma_opt_arg_keeps(lone_arg("hostname"@, t), o3, "workdir"@, opt_seq(c.working_dir));
    }
}

/// A downgrade keeps the option `host_name` as its argument.
proof fn downgrade_keeps_host_name(c: Container, v: PodmanVersion)
    ensures
        older(v, PodmanVersion { major: 4, minor: 6 }) && proceeds(c, v)
            ==> (c.host_name matches Some(x) ==> args_hold(container_downgraded_args(c, v),
            lone_arg("hostname"@, x@))),
{
    if older(v, PodmanVersion { major: 4, minor: 6 }) && proceeds(c, v) {
        v4_6_has_host_name(c);
        if let Some(t) = opt_seq(c.host_name) {
            lemma_lone_arg_len("hostname"@, t);
            lemma_step_adds(c, v, args_before(c, v, 3), lone_arg("hostname"@, t), 3);
            lemma_held_after_step(c, v, lone_arg("hostname"@, t), 3);
        }
    }
}

/// The argument of the option `pull` stands among those of its group.
proof fn v4_6_has_pull(c: Container)
    ensures
        pull_text(c.pull) matches Some(t) ==> occurs_in(lone_arg("pull"@, t), v4_6_args(c)),
{
    let o0 = Seq::<char>::empty();
    let o1 = list_args(o0, "sysctl"@, c.sysctl@);
    let o2 = opt_arg(o1, "hostname"@, opt_seq(c.host_name));
    let o3 = opt_arg(o2, "pull"@, pull_text(c.pull));
    let o4 = opt_arg(o3, "workdir"@, opt_seq(c.working_dir));
    assert(o4 == v4_6_args(c));
    lemma_opt_arg_has(o2, "pull"@, pull_text(c.pull));
    if let Some(t) = pull_text(c.pull) {
        lemma_opt_arg_keeps(lone_arg("pull"@, t), o3, "workdir"@, opt_seq(c.working_dir));
    }
}

/// A downgrade keeps the option `pull` as its argument.
proof fn downgrade_keeps_pull(c: Container, v: PodmanVersion)
    ensures
        older(v, PodmanVersion { major: 4, minor: 6 }) && proceeds(c, v) ==> (c.pull matches Some(x)
            ==> args_hold(container_downgraded_args(c, v), lone_arg("pull"@, pull_policy_name(x)))),
{
    if older(v, PodmanVersion { major: 4, minor: 6 }) && proceeds(c, v) {
        v4_6_has_pull(c);
        if let Some(t) = pull_text(c.pull) {
            lemma_lone_arg_len("pull"@, t);
            lemma_step_adds(c, v, args_before(c, v, 3), lone_arg("pull"@, t), 3);
            lemma_held_after_step(c, v, lone_arg("pull"@, t), 3);
        }
    }
}

/// The argument of the option `working_dir` stands among those of its group.
proof fn v4_6_has_working_dir(c: Container)
    ensures
        opt_seq(c.working_dir) matches Some(t) ==> occurs_in(lone_arg("workdir"@, t), v4_6_args(c)),
{
    let o0 = Seq::<char>::empty();
    let o1 = list_args(o0, "sysctl"@, c.sysctl@);
    let o2 = opt_arg(o1, "hostname"@, opt_seq(c.host_name));
    let o3 = opt_arg(o2, "pull"@, pull_text(c.pull));
    let o4 = opt_arg(o3, "workdir"@, opt_seq(c.working_dir));
    assert(o4 == v4_6_args(c));
    lemma_opt_arg_has(o3, "workdir"@, opt_seq(c.working_dir));
    if let Some(t) = opt_seq(c.working_dir) {
    }
}

/// A downgrade keeps the option `working_dir` as its argument.
proof fn downgrade_keeps_working_dir(c: Container, v: PodmanVersion)
    ensures
        older(v, PodmanVersion { major: 4, minor: 6 }) && proceeds(c, v)
            ==> (c.working_dir matches Some(x) ==> args_hold(container_downgraded_args(c, v),
            lone_arg("workdir"@, x@))),
{
    if older(v, PodmanVersion { major: 4, minor: 6 }) && proceeds(c, v) {
        v4_6_has_working_dir(c);
        if let Some(t) = opt_seq(c.working_dir) {
            lemma_lone_arg_len("workdir"@, t);
            lemma_step_adds(c, v, args_before(c, v, 3), lone_arg("workdir"@, t), 3);
            lemma_held_after_step(c, v, lone_arg("workdir"@, t), 3);
        }
    }
}

/// The argument of the option `rootfs` stands among those of its group.
proof fn v4_5_has_rootfs(c: Container)
    ensures
        rootfs_opt_text(c.rootfs) matches Some(t) ==> occurs_in(lone_arg("rootfs"@, t),
            v4_5_args(c)),
{
    let o0 = Seq::<char>::empty();
    let o1 = opt_arg(o0, "rootfs"@, rootfs_opt_text(c.rootfs));
    let o2 = list_args(o1, "secret"@, c.secret@);
    let o3 = opt_arg(o2, "log-driver"@, opt_seq(c.log_driver));
    let o4 = texts_args(o3, "mount"@, mount_texts(c.mount@));
    let o5 = opt_arg(o4, "ip"@, opt_seq(c.ip));
    let o6 = opt_arg(o5, "ip6"@, opt_seq(c.ip6));
    let o7 = opt_arg(o6, "health-interval"@, opt_seq(c.health_interval));
    let o8 = opt_arg(o7, "health-on-failure"@, opt_seq(c.health_on_failure));
    let o9 = opt_arg(o8, "health-retries"@, u64_text(c.health_retries));
    let o10 = opt_arg(o9, "health-start-period"@, opt_seq(c.health_start_period));
    let o11 = opt_arg(o10, "health-startup-cmd"@, opt_seq(c.health_startup_cmd));
    let o12 = opt_arg(o11, "health-startup-interval"@, opt_seq(c.health_startup_interval));
    let o13 = opt_arg(o12, "health-startup-retries"@, u16_text(c.health_startup_retries));
    let o14 = opt_arg(o13, "health-startup-success"@, u16_text(c.health_startup_success));
    let o15 = opt_arg(o14, "health-startup-timeout"@, opt_seq(c.health_startup_timeout));
    let o16 = opt_arg(o15, "health-timeout"@, opt_seq(c.health_timeout));
    let o17 = list_args(o16, "tmpfs"@, c.tmpfs@);
    let o18 = opt_arg(o17, "userns"@, opt_seq(c.user_ns));
    assert(o18 == v4_5_args(c));
    lemma_opt_arg_has(o0, "rootfs"@, rootfs_opt_text(c.rootfs));
    if let Some(t) = rootfs_opt_text(c.rootfs) {
        lemma_list_args_keeps(lone_arg("rootfs"@, t), o1, "secret"@, c.secret@);
        lemma_opt_arg_keeps(lone_arg("rootfs"@, t), o2, "log-driver"@, opt_seq(c.log_driver));
        lemma_texts_args_keeps(lone_arg("rootfs"@, t), o3, "mount"@, mount_texts(c.mount@));
        lemma_opt_arg_keeps(lone_arg("rootfs"@, t), o4, "ip"@, opt_seq(c.ip));
        lemma_opt_arg_keeps(lone_arg("rootfs"@, t), o5, "ip6"@, opt_seq(c.ip6));
        lemma_opt_arg_keeps(lone_arg("rootfs"@, t), o6, "health-interval"@,
            opt_seq(c.health_interval));
        lemma_opt_arg_keeps(lone_arg("rootfs"@, t), o7, "health-on-failure"@,
            opt_seq(c.health_on_failure));
        lemma_opt_arg_keeps(lone_arg("rootfs"@, t), o8, "health-retries"@,
            u64_text(c.health_retries));
        lemma_opt_arg_keeps(lone_arg("rootfs"@, t), o9, "health-start-period"@,
            opt_seq(c.health_start_period));
        lemma_opt_arg_keeps(lone_arg("rootfs"@, t), o10, "health-startup-cmd"@,
            opt_seq(c.health_startup_cmd));
        lemma_opt_arg_keeps(lone_arg("rootfs"@, t), o11, "health-startup-interval"@,
            opt_seq(c.health_startup_interval));
        lemma_opt_arg_keeps(lone_arg("rootfs"@, t), o12, "health-startup-retries"@,
            u16_text(c.health_startup_retries));
        lemma_opt_arg_keeps(lone_arg("rootfs"@, t), o13, "health-startup-success"@,
            u16_text(c.health_startup_success));
        lemma_opt_arg_keeps(lone_arg("rootfs"@, t), o14, "health-startup-timeout"@,
            opt_seq(c.health_startup_timeout));
        lemma_opt_arg_keeps(lone_arg("rootfs"@, t), o15, "health-timeout"@,
            opt_seq(c.health_timeout));
        lemma_list_args_keeps(lone_arg("rootfs"@, t), o16, "tmpfs"@, c.tmpfs@);
        lemma_opt_arg_keeps(lone_arg("rootfs"@, t), o17, "userns"@, opt_seq(c.user_ns));
    }
}

/// A downgrade keeps the option `rootfs` as its argument.
proof fn downgrade_keeps_rootfs(c: Container, v: PodmanVersion)
    ensures
        older(v, PodmanVersion { major: 4, minor: 5 }) && proceeds(c, v)
            ==> (c.rootfs matches Some(x) ==> args_hold(container_downgraded_args(c, v),
            lone_arg("rootfs"@, rootfs_text(x@)))),
{
    if older(v, PodmanVersion { major: 4, minor: 5 }) && proceeds(c, v) {
        v4_5_has_rootfs(c);
        if let Some(t) = rootfs_opt_text(c.rootfs) {
            lemma_lone_arg_len("rootfs"@, t);
            lemma_step_adds(c, v, args_before(c, v, 4), lone_arg("rootfs"@, t), 4);
            lemma_held_after_step(c, v, lone_arg("rootfs"@, t), 4);
        }
    }
}

/// The argument of the option `secret` stands among those of its group.
proof fn v4_5_has_secret(c: Container)
    ensures
        forall|i: int| 0 <= i < c.secret@.len() ==> occurs_in(lone_arg("secret"@,
            (#[trigger] c.secret@[i])@), v4_5_args(c)),
{
    let o0 = Seq::<char>::empty();
    let o1 = opt_arg(o0, "rootfs"@, rootfs_opt_text(c.rootfs));
    let o2 = list_args(o1, "secret"@, c.secret@);
    let o3 = opt_arg(o2, "log-driver"@, opt_seq(c.log_driver));
    let o4 = texts_args(o3, "mount"@, mount_texts(c.mount@));
    let o5 = opt_arg(o4, "ip"@, opt_seq(c.ip));
    let o6 = opt_arg(o5, "ip6"@, opt_seq(c.ip6));
    let o7 = opt_arg(o6, "health-interval"@, opt_seq(c.health_interval));
    let o8 = opt_arg(o7, "health-on-failure"@, opt_seq(c.health_on_failure));
    let o9 = opt_arg(o8, "health-retries"@, u64_text(c.health_retries));
    let o10 = opt_arg(o9, "health-start-period"@, opt_seq(c.health_start_period));
    let o11 = opt_arg(o10, "health-startup-cmd"@, opt_seq(c.health_startup_cmd));
    let o12 = opt_arg(o11, "health-startup-interval"@, opt_seq(c.health_startup_interval));
    let o13 = opt_arg(o12, "health-startup-retries"@, u16_text(c.health_startup_retries));
    let o14 = opt_arg(o13, "health-startup-success"@, u16_text(c.health_startup_success));
    let o15 = opt_arg(o14, "health-startup-timeout"@, opt_seq(c.health_startup_timeout));
    let o16 = opt_arg(o15, "health-timeout"@, opt_seq(c.health_timeout));
    let o17 = list_args(o16, "tmpfs"@, c.tmpfs@);
    let o18 = opt_arg(o17, "userns"@, opt_seq(c.user_ns));
    assert(o18 == v4_5_args(c));
    assert forall|i: int| 0 <= i < c.secret@.len() implies occurs_in(lone_arg("secret"@,
        (#[trigger] c.secret@[i])@), v4_5_args(c)) by {
        lemma_list_args_has(o1, "secret"@, c.secret@, i);
        lemma_opt_arg_keeps(lone_arg("secret"@, c.secret@[i]@), o2, "log-driver"@,
            opt_seq(c.log_driver));
        lemma_texts_args_keeps(lone_arg("secret"@, c.secret@[i]@), o3, "mount"@,
            mount_texts(c.mount@));
        lemma_opt_arg_keeps(lone_arg("secret"@, c.secret@[i]@), o4, "ip"@, opt_seq(c.ip));
        lemma_opt_arg_keeps(lone_arg("secret"@, c.secret@[i]@), o5, "ip6"@, opt_seq(c.ip6));
        lemma_opt_arg_keeps(lone_arg("secret"@, c.secret@[i]@), o6, "health-interval"@,
            opt_seq(c.health_interval));
        lemma_opt_arg_keeps(lone_arg("secret"@, c.secret@[i]@), o7, "health-on-failure"@,
            opt_seq(c.health_on_failure));
        lemma_opt_arg_keeps(lone_arg("secret"@, c.secret@[i]@), o8, "health-retries"@,
            u64_text(c.health_retries));
        lemma_opt_arg_keeps(lone_arg("secret"@, c.secret@[i]@), o9, "health-start-period"@,
            opt_seq(c.health_start_period));
        lemma_opt_arg_keeps(lone_arg("secret"@, c.secret@[i]@), o10, "health-startup-cmd"@,
            opt_seq(c.health_startup_cmd));
        lemma_opt_arg_keeps(lone_arg("secret"@, c.secret@[i]@), o11, "health-startup-interval"@,
            opt_seq(c.health_startup_interval));
        lemma_opt_arg_keeps(lone_arg("secret"@, c.secret@[i]@), o12, "health-startup-retries"@,
            u16_text(c.health_startup_retries));
        lemma_opt_arg_keeps(lone_arg("secret"@, c.secret@[i]@), o13, "health-startup-success"@,
            u16_text(c.health_startup_success));
        lemma_opt_arg_keeps(lone_arg("secret"@, c.secret@[i]@), o14, "health-startup-timeout"@,
            opt_seq(c.health_startup_timeout));
        lemma_opt_arg_keeps(lone_arg("secret"@, c.secret@[i]@), o15, "health-timeout"@,
            opt_seq(c.health_timeout));
        lemma_list_args_keeps(lone_arg("secret"@, c.secret@[i]@), o16, "tmpfs"@, c.tmpfs@);
        lemma_opt_arg_keeps(lone_arg("secret"@, c.secret@[i]@), o17, "userns"@, opt_seq(c.user_ns));
    }
}

/// A downgrade keeps the option `secret` as its argument.
proof fn downgrade_keeps_secret(c: Container, v: PodmanVersion)
    ensures
        older(v, PodmanVersion { major: 4, minor: 5 }) && proceeds(c, v)
            ==> (forall|i: int| 0 <= i < c.secret@.len() ==> args_hold(container_downgraded_args(c,
            v), lone_arg("secret"@, (#[trigger] c.secret@[i])@))),
{
    if older(v, PodmanVersion { major: 4, minor: 5 }) && proceeds(c, v) {
        v4_5_has_secret(c);
        assert forall|i: int| 0 <= i < c.secret@.len() implies args_hold(container_downgraded_args(c,
            v), lone_arg("secret"@, (#[trigger] c.secret@[i])@)) by {
            lemma_lone_arg_len("secret"@, c.secret@[i]@);
            lemma_step_adds(c, v, args_before(c, v, 4), lone_arg("secret"@, c.secret@[i]@), 4);
            lemma_held_after_step(c, v, lone_arg("secret"@, c.secret@[i]@), 4);
        }
    }
}

/// The argument of the option `log_driver` stands among those of its group.
proof fn v4_5_has_log_driver(c: Container)
    ensures
        opt_seq(c.log_driver) matches Some(t) ==> occurs_in(lone_arg("log-driver"@, t),
            v4_5_args(c)),
{
    let o0 = Seq::<char>::empty();
    let o1 = opt_arg(o0, "rootfs"@, rootfs_opt_text(c.rootfs));
    let o2 = list_args(o1, "secret"@, c.secret@);
    let o3 = opt_arg(o2, "log-driver"@, opt_seq(c.log_driver));
    let o4 = texts_args(o3, "mount"@, mount_texts(c.mount@));
    let o5 = opt_arg(o4, "ip"@, opt_seq(c.ip));
    let o6 = opt_arg(o5, "ip6"@, opt_seq(c.ip6));
    let o7 = opt_arg(o6, "health-interval"@, opt_seq(c.health_interval));
    let o8 = opt_arg(o7, "health-on-failure"@, opt_seq(c.health_on_failure));
    let o9 = opt_arg(o8, "health-retries"@, u64_text(c.health_retries));
    let o10 = opt_arg(o9, "health-start-period"@, opt_seq(c.health_start_period));
    let o11 = opt_arg(o10, "health-startup-cmd"@, opt_seq(c.health_startup_cmd));
    let o12 = opt_arg(o11, "health-startup-interval"@, opt_seq(c.health_startup_interval));
    let o13 = opt_arg(o12, "health-startup-retries"@, u16_text(c.health_startup_retries));
    let o14 = opt_arg(o13, "health-startup-success"@, u16_text(c.health_startup_success));
    let o15 = opt_arg(o14, "health-startup-timeout"@, opt_seq(c.health_startup_timeout));
    let o16 = opt_arg(o15, "health-timeout"@, opt_seq(c.health_timeout));
    let o17 = list_args(o16, "tmpfs"@, c.tmpfs@);
    let o18 = opt_arg(o17, "userns"@, opt_seq(c.user_ns));
    assert(o18 == v4_5_args(c));
    lemma_opt_arg_has(o2, "log-driver"@, opt_seq(c.log_driver));
    if let Some(t) = opt_seq(c.log_driver) {
        lemma_texts_args_keeps(lone_arg("log-driver"@, t), o3, "mount"@, mount_texts(c.mount@));
        lemma_opt_arg_keeps(lone_arg("log-driver"@, t), o4, "ip"@, opt_seq(c.ip));
        lemma_opt_arg_keeps(lone_arg("log-driver"@, t), o5, "ip6"@, opt_seq(c.ip6));
        lemma_opt_arg_keeps(lone_arg("log-driver"@, t), o6, "health-interval"@,
            opt_seq(c.health_interval));
        lemma_opt_arg_keeps(lone_arg("log-driver"@, t), o7, "health-on-failure"@,
            opt_seq(c.health_on_failure));
        lemma_opt_arg_keeps(lone_arg("log-driver"@, t), o8, "health-retries"@,
            u64_text(c.health_retries));
        lemma_opt_arg_keeps(lone_arg("log-driver"@, t), o9, "health-start-period"@,
            opt_seq(c.health_start_period));
        lemma_opt_arg_keeps(lone_arg("log-driver"@, t), o10, "health-startup-cmd"@,
            opt_seq(c.health_startup_cmd));
        lemma_opt_arg_keeps(lone_arg("log-driver"@, t), o11, "health-startup-interval"@,
            opt_seq(c.health_startup_interval));
        lemma_opt_arg_keeps(lone_arg("log-driver"@, t), o12, "health-startup-retries"@,
            u16_text(c.health_startup_retries));
        lemma_opt_arg_keeps(lone_arg("log-driver"@, t), o13, "health-startup-success"@,
            u16_text(c.health_startup_success));
        lemma_opt_arg_keeps(lone_arg("log-driver"@, t), o14, "health-startup-timeout"@,
            opt_seq(c.health_startup_timeout));
        lemma_opt_arg_keeps(lone_arg("log-driver"@, t), o15, "health-timeout"@,
            opt_seq(c.health_timeout));
        lemma_list_args_keeps(lone_arg("log-driver"@, t), o16, "tmpfs"@, c.tmpfs@);
        lemma_opt_arg_keeps(lone_arg("log-driver"@, t), o17, "userns"@, opt_seq(c.user_ns));
    }
}

/// A downgrade keeps the option `log_driver` as its argument.
proof fn downgrade_keeps_log_driver(c: Container, v: PodmanVersion)
    ensures
        older(v, PodmanVersion { major: 4, minor: 5 }) && proceeds(c, v)
            ==> (c.log_driver matches Some(x) ==> args_hold(container_downgraded_args(c, v),
            lone_arg("log-driver"@, x@))),
{
    if older(v, PodmanVersion { major: 4, minor: 5 }) && proceeds(c, v) {
        v4_5_has_log_driver(c);
        if let Some(t) = opt_seq(c.log_driver) {
            lemma_lone_arg_len("log-driver"@, t);
            lemma_step_adds(c, v, args_before(c, v, 4), lone_arg("log-driver"@, t), 4);
            lemma_held_after_step(c, v, lone_arg("log-driver"@, t), 4);
        }
    }
}

/// The argument of the option `mount` stands among those of its group.
proof fn v4_5_has_mount(c: Container)
    ensures
        forall|i: int| 0 <= i < c.mount@.len() ==> occurs_in(lone_arg("mount"@,
            mount_text((#[trigger] c.mount@[i])@)), v4_5_args(c)),
{
    let o0 = Seq::<char>::empty();
    let o1 = opt_arg(o0, "rootfs"@, rootfs_opt_text(c.rootfs));
    let o2 = list_args(o1, "secret"@, c.secret@);
    let o3 = opt_arg(o2, "log-driver"@, opt_seq(c.log_driver));
    let o4 = texts_args(o3, "mount"@, mount_texts(c.mount@));
    let o5 = opt_arg(o4, "ip"@, opt_seq(c.ip));
    let o6 = opt_arg(o5, "ip6"@, opt_seq(c.ip6));
    let o7 = opt_arg(o6, "health-interval"@, opt_seq(c.health_interval));
    let o8 = opt_arg(o7, "health-on-failure"@, opt_seq(c.health_on_failure));
    let o9 = opt_arg(o8, "health-retries"@, u64_text(c.health_retries));
    let o10 = opt_arg(o9, "health-start-period"@, opt_seq(c.health_start_period));
    let o11 = opt_arg(o10, "health-startup-cmd"@, opt_seq(c.health_startup_cmd));
    let o12 = opt_arg(o11, "health-startup-interval"@, opt_seq(c.health_startup_interval));
    let o13 = opt_arg(o12, "health-startup-retries"@, u16_text(c.health_startup_retries));
    let o14 = opt_arg(o13, "health-startup-success"@, u16_text(c.health_startup_success));
    let o15 = opt_arg(o14, "health-startup-timeout"@, opt_seq(c.health_startup_timeout));
    let o16 = opt_arg(o15, "health-timeout"@, opt_seq(c.health_timeout));
    let o17 = list_args(o16, "tmpfs"@, c.tmpfs@);
    let o18 = opt_arg(o17, "userns"@, opt_seq(c.user_ns));
    assert(o18 == v4_5_args(c));
    assert forall|i: int| 0 <= i < c.mount@.len() implies occurs_in(lone_arg("mount"@,
        mount_text((#[trigger] c.mount@[i])@)), v4_5_args(c)) by {
        lemma_texts_args_has(o3, "mount"@, mount_texts(c.mount@), i);
        lemma_opt_arg_keeps(lone_arg("mount"@, mount_texts(c.mount@)[i]), o4, "ip"@, opt_seq(c.ip));
        lemma_opt_arg_keeps(lone_arg("mount"@, mount_texts(c.mount@)[i]), o5, "ip6"@,
            opt_seq(c.ip6));
        lemma_opt_arg_keeps(lone_arg("mount"@, mount_texts(c.mount@)[i]), o6, "health-interval"@,
            opt_seq(c.health_interval));
        lemma_opt_arg_keeps(lone_arg("mount"@, mount_texts(c.mount@)[i]), o7, "health-on-failure"@,
            opt_seq(c.health_on_failure));
        lemma_opt_arg_keeps(lone_arg("mount"@, mount_texts(c.mount@)[i]), o8, "health-retries"@,
            u64_text(c.health_retries));
        lemma_opt_arg_keeps(lone_arg("mount"@, mount_texts(c.mount@)[i]), o9,
            "health-start-period"@, opt_seq(c.health_start_period));
        lemma_opt_arg_keeps(lone_arg("mount"@, mount_texts(c.mount@)[i]), o10,
            "health-startup-cmd"@, opt_seq(c.health_startup_cmd));
        lemma_opt_arg_keeps(lone_arg("mount"@, mount_texts(c.mount@)[i]), o11,
            "health-startup-interval"@, opt_seq(c.health_startup_interval));
        lemma_opt_arg_keeps(lone_arg("mount"@, mount_texts(c.mount@)[i]), o12,
            "health-startup-retries"@, u16_text(c.health_startup_retries));
        lemma_opt_arg_keeps(lone_arg("mount"@, mount_texts(c.mount@)[i]), o13,
            "health-startup-success"@, u16_text(c.health_startup_success));
        lemma_opt_arg_keeps(lone_arg("mount"@, mount_texts(c.mount@)[i]), o14,
            "health-startup-timeout"@, opt_seq(c.health_startup_timeout));
        lemma_opt_arg_keeps(lone_arg("mount"@, mount_texts(c.mount@)[i]), o15, "health-timeout"@,
            opt_seq(c.health_timeout));
        lemma_list_args_keeps(lone_arg("mount"@, mount_texts(c.mount@)[i]), o16, "tmpfs"@,
            c.tmpfs@);
        lemma_opt_arg_keeps(lone_arg("mount"@, mount_texts(c.mount@)[i]), o17, "userns"@,
            opt_seq(c.user_ns));
    }
}

/// A downgrade keeps the option `mount` as its argument.
proof fn downgrade_keeps_mount(c: Container, v: PodmanVersion)
    ensures
        older(v, PodmanVersion { major: 4, minor: 5 }) && proceeds(c, v)
            ==> (forall|i: int| 0 <= i < c.mount@.len() ==> args_hold(container_downgraded_args(c,
            v), lone_arg("mount"@, mount_text((#[trigger] c.mount@[i])@)))),
{
    if older(v, PodmanVersion { major: 4, minor: 5 }) && proceeds(c, v) {
        v4_5_has_mount(c);
        assert forall|i: int| 0 <= i < c.mount@.len() implies args_hold(container_downgraded_args(c,
            v), lone_arg("mount"@, mount_text((#[trigger] c.mount@[i])@))) by {
            lemma_lone_arg_len("mount"@, mount_text(c.mount@[i]@));
            lemma_step_adds(c, v, args_before(c, v, 4), lone_arg("mount"@,
                mount_text(c.mount@[i]@)), 4);
            lemma_held_after_step(c, v, lone_arg("mount"@, mount_text(c.mount@[i]@)), 4);
        }
    }
}

/// The argument of the option `ip` stands among those of its group.
proof fn v4_5_has_ip(c: Container)
    ensures
        opt_seq(c.ip) matches Some(t) ==> occurs_in(lone_arg("ip"@, t), v4_5_args(c)),
{
    let o0 = Seq::<char>::empty();
    let o1 = opt_arg(o0, "rootfs"@, rootfs_opt_text(c.rootfs));
    let o2 = list_args(o1, "secret"@, c.secret@);
    let o3 = opt_arg(o2, "log-driver"@, opt_seq(c.log_driver));
    let o4 = texts_args(o3, "mount"@, mount_texts(c.mount@));
    let o5 = opt_arg(o4, "ip"@, opt_seq(c.ip));
    let o6 = opt_arg(o5, "ip6"@, opt_seq(c.ip6));
    let o7 = opt_arg(o6, "health-interval"@, opt_seq(c.health_interval));
    let o8 = opt_arg(o7, "health-on-failure"@, opt_seq(c.health_on_failure));
    let o9 = opt_arg(o8, "health-retries"@, u64_text(c.health_retries));
    let o10 = opt_arg(o9, "health-start-period"@, opt_seq(c.health_start_period));
    let o11 = opt_arg(o10, "health-startup-cmd"@, opt_seq(c.health_startup_cmd));
    let o12 = opt_arg(o11, "health-startup-interval"@, opt_seq(c.health_startup_interval));
    let o13 = opt_arg(o12, "health-startup-retries"@, u16_text(c.health_startup_retries));
    let o14 = opt_arg(o13, "health-startup-success"@, u16_text(c.health_startup_success));
    let o15 = opt_arg(o14, "health-startup-timeout"@, opt_seq(c.health_startup_timeout));
    let o16 = opt_arg(o15, "health-timeout"@, opt_seq(c.health_timeout));
    let o17 = list_args(o16, "tmpfs"@, c.tmpfs@);
    let o18 = opt_arg(o17, "userns"@, opt_seq(c.user_ns));
    assert(o18 == v4_5_args(c));
    lemma_opt_arg_has(o4, "ip"@, opt_seq(c.ip));
    if let Some(t) = opt_seq(c.ip) {
        lemma_opt_arg_keeps(lone_arg("ip"@, t), o5, "ip6"@, opt_seq(c.ip6));
        lemma_opt_arg_keeps(lone_arg("ip"@, t), o6, "health-interval"@, opt_seq(c.health_interval));
        lemma_opt_arg_keeps(lone_arg("ip"@, t), o7, "health-on-failure"@,
            opt_seq(c.health_on_failure));
        lemma_opt_arg_keeps(lone_arg("ip"@, t), o8, "health-retries"@, u64_text(c.health_retries));
        lemma_opt_arg_keeps(lone_arg("ip"@, t), o9, "health-start-period"@,
            opt_seq(c.health_start_period));
        lemma_opt_arg_keeps(lone_arg("ip"@, t), o10, "health-startup-cmd"@,
            opt_seq(c.health_startup_cmd));
        lemma_opt_arg_keeps(lone_arg("ip"@, t), o11, "health-startup-interval"@,
            opt_seq(c.health_startup_interval));
        lemma_opt_arg_keeps(lone_arg("ip"@, t), o12, "health-startup-retries"@,
            u16_text(c.health_startup_retries));
        lemma_opt_arg_keeps(lone_arg("ip"@, t), o13, "health-startup-success"@,
            u16_text(c.health_startup_success));
        lemma_opt_arg_keeps(lone_arg("ip"@, t), o14, "health-startup-timeout"@,
            opt_seq(c.health_startup_timeout));
        lemma_opt_arg_keeps(lone_arg("ip"@, t), o15, "health-timeout"@, opt_seq(c.health_timeout));
        lemma_list_args_keeps(lone_arg("ip"@, t), o16, "tmpfs"@, c.tmpfs@);
        lemma_opt_arg_keeps(lone_arg("ip"@, t), o17, "userns"@, opt_seq(c.user_ns));
    }
}

/// A downgrade keeps the option `ip` as its argument.
proof fn downgrade_keeps_ip(c: Container, v: PodmanVersion)
    ensures
        older(v, PodmanVersion { major: 4, minor: 5 }) && proceeds(c, v) ==> (c.ip matches Some(x)
            ==> args_hold(container_downgraded_args(c, v), lone_arg("ip"@, x@))),
{
    if older(v, PodmanVersion { major: 4, minor: 5 }) && proceeds(c, v) {
        v4_5_has_ip(c);
        if let Some(t) = opt_seq(c.ip) {
            lemma_lone_arg_len("ip"@, t);
            lemma_step_adds(c, v, args_before(c, v, 4), lone_arg("ip"@, t), 4);
            lemma_held_after_step(c, v, lone_arg("ip"@, t), 4);
        }
    }
}

/// The argument of the option `ip6` stands among those of its group.
proof fn v4_5_has_ip6(c: Container)
    ensures
        opt_seq(c.ip6) matches Some(t) ==> occurs_in(lone_arg("ip6"@, t), v4_5_args(c)),
{
    let o0 = Seq::<char>::empty();
    let o1 = opt_arg(o0, "rootfs"@, rootfs_opt_text(c.rootfs));
    let o2 = list_args(o1, "secret"@, c.secret@);
    let o3 = opt_arg(o2, "log-driver"@, opt_seq(c.log_driver));
    let o4 = texts_args(o3, "mount"@, mount_texts(c.mount@));
    let o5 = opt_arg(o4, "ip"@, opt_seq(c.ip));
    let o6 = opt_arg(o5, "ip6"@, opt_seq(c.ip6));
    let o7 = opt_arg(o6, "health-interval"@, opt_seq(c.health_interval));
    let o8 = opt_arg(o7, "health-on-failure"@, opt_seq(c.health_on_failure));
    let o9 = opt_arg(o8, "health-retries"@, u64_text(c.health_retries));
    let o10 = opt_arg(o9, "health-start-period"@, opt_seq(c.health_start_period));
    let o11 = opt_arg(o10, "health-startup-cmd"@, opt_seq(c.health_startup_cmd));
    let o12 = opt_arg(o11, "health-startup-interval"@, opt_seq(c.health_startup_interval));
    let o13 = opt_arg(o12, "health-startup-retries"@, u16_text(c.health_startup_retries));
    let o14 = opt_arg(o13, "health-startup-success"@, u16_text(c.health_startup_success));
    let o15 = opt_arg(o14, "health-startup-timeout"@, opt_seq(c.health_startup_timeout));
    let o16 = opt_arg(o15, "health-timeout"@, opt_seq(c.health_timeout));
    let o17 = list_args(o16, "tmpfs"@, c.tmpfs@);
    let o18 = opt_arg(o17, "userns"@, opt_seq(c.user_ns));
    assert(o18 == v4_5_args(c));
    lemma_opt_arg_has(o5, "ip6"@, opt_seq(c.ip6));
    if let Some(t) = opt_seq(c.ip6) {
        lemma_opt_arg_keeps(lone_arg("ip6"@, t), o6, "health-interval"@,
            opt_seq(c.health_interval));
        lemma_opt_arg_keeps(lone_arg("ip6"@, t), o7, "health-on-failure"@,
            opt_seq(c.health_on_failure));
        lemma_opt_arg_keeps(lone_arg("ip6"@, t), o8, "health-retries"@, u64_text(c.health_retries));
        lemma_opt_arg_keeps(lone_arg("ip6"@, t), o9, "health-start-period"@,
            opt_seq(c.health_start_period));
        lemma_opt_arg_keeps(lone_arg("ip6"@, t), o10, "health-startup-cmd"@,
            opt_seq(c.health_startup_cmd));
        lemma_opt_arg_keeps(lone_arg("ip6"@, t), o11, "health-startup-interval"@,
            opt_seq(c.health_startup_interval));
        lemma_opt_arg_keeps(lone_arg("ip6"@, t), o12, "health-startup-retries"@,
            u16_text(c.health_startup_retries));
        lemma_opt_arg_keeps(lone_arg("ip6"@, t), o13, "health-startup-success"@,
            u16_text(c.health_startup_success));
        lemma_opt_arg_keeps(lone_arg("ip6"@, t), o14, "health-startup-timeout"@,
            opt_seq(c.health_startup_timeout));
        lemma_opt_arg_keeps(lone_arg("ip6"@, t), o15, "health-timeout"@, opt_seq(c.health_timeout));
        lemma_list_args_keeps(lone_arg("ip6"@, t), o16, "tmpfs"@, c.tmpfs@);
        lemma_opt_arg_keeps(lone_arg("ip6"@, t), o17, "userns"@, opt_seq(c.user_ns));
    }
}

/// A downgrade keeps the option `ip6` as its argument.
proof fn downgrade_keeps_ip6(c: Container, v: PodmanVersion)
    ensures
        older(v, PodmanVersion { major: 4, minor: 5 }) && proceeds(c, v) ==> (c.ip6 matches Some(x)
            ==> args_hold(container_downgraded_args(c, v), lone_arg("ip6"@, x@))),
{
    if older(v, PodmanVersion { major: 4, minor: 5 }) && proceeds(c, v) {
        v4_5_has_ip6(c);
        if let Some(t) = opt_seq(c.ip6) {
            lemma_lone_arg_len("ip6"@, t);
            lemma_step_adds(c, v, args_before(c, v, 4), lone_arg("ip6"@, t), 4);
            lemma_held_after_step(c, v, lone_arg("ip6"@, t), 4);
        }
    }
}

/// The argument of the option `health_interval` stands among those of its group.
proof fn v4_5_has_health_interval(c: Container)
    ensures
        opt_seq(c.health_interval) matches Some(t) ==> occurs_in(lone_arg("health-interval"@, t),
            v4_5_args(c)),
{
    let o0 = Seq::<char>::empty();
    let o1 = opt_arg(o0, "rootfs"@, rootfs_opt_text(c.rootfs));
    let o2 = list_args(o1, "secret"@, c.secret@);
    let o3 = opt_arg(o2, "log-driver"@, opt_seq(c.log_driver));
    let o4 = texts_args(o3, "mount"@, mount_texts(c.mount@));
    let o5 = opt_arg(o4, "ip"@, opt_seq(c.ip));
    let o6 = opt_arg(o5, "ip6"@, opt_seq(c.ip6));
    let o7 = opt_arg(o6, "health-interval"@, opt_seq(c.health_interval));
    let o8 = opt_arg(o7, "health-on-failure"@, opt_seq(c.health_on_failure));
    let o9 = opt_arg(o8, "health-retries"@, u64_text(c.health_retries));
    let o10 = opt_arg(o9, "health-start-period"@, opt_seq(c.health_start_period));
    let o11 = opt_arg(o10, "health-startup-cmd"@, opt_seq(c.health_startup_cmd));
    let o12 = opt_arg(o11, "health-startup-interval"@, opt_seq(c.health_startup_interval));
    let o13 = opt_arg(o12, "health-startup-retries"@, u16_text(c.health_startup_retries));
    let o14 = opt_arg(o13, "health-startup-success"@, u16_text(c.health_startup_success));
    let o15 = opt_arg(o14, "health-startup-timeout"@, opt_seq(c.health_startup_timeout));
    let o16 = opt_arg(o15, "health-timeout"@, opt_seq(c.health_timeout));
    let o17 = list_args(o16, "tmpfs"@, c.tmpfs@);
    let o18 = opt_arg(o17, "userns"@, opt_seq(c.user_ns));
    assert(o18 == v4_5_args(c));
    lemma_opt_arg_has(o6, "health-interval"@, opt_seq(c.health_interval));
    if let Some(t) = opt_seq(c.health_interval) {
        lemma_opt_arg_keeps(lone_arg("health-interval"@, t), o7, "health-on-failure"@,
            opt_seq(c.health_on_failure));
        lemma_opt_arg_keeps(lone_arg("health-interval"@, t), o8, "health-retries"@,
            u64_text(c.health_retries));
        lemma_opt_arg_keeps(lone_arg("health-interval"@, t), o9, "health-start-period"@,
            opt_seq(c.health_start_period));
        lemma_opt_arg_keeps(lone_arg("health-interval"@, t), o10, "health-startup-cmd"@,
            opt_seq(c.health_startup_cmd));
        lemma_opt_arg_keeps(lone_arg("health-interval"@, t), o11, "health-startup-interval"@,
            opt_seq(c.health_startup_interval));
        lemma_opt_arg_keeps(lone_arg("health-interval"@, t), o12, "health-startup-retries"@,
            u16_text(c.health_startup_retries));
        lemma_opt_arg_keeps(lone_arg("health-interval"@, t), o13, "health-startup-success"@,
            u16_text(c.health_startup_success));
        lemma_opt_arg_keeps(lone_arg("health-interval"@, t), o14, "health-startup-timeout"@,
            opt_seq(c.health_startup_timeout));
        lemma_opt_arg_keeps(lone_arg("health-interval"@, t), o15, "health-timeout"@,
            opt_seq(c.health_timeout));
        lemma_list_args_keeps(lone_arg("health-interval"@, t), o16, "tmpfs"@, c.tmpfs@);
        lemma_opt_arg_keeps(lone_arg("health-interval"@, t), o17, "userns"@, opt_seq(c.user_ns));
    }
}

/// A downgrade keeps the option `health_interval` as its argument.
proof fn downgrade_keeps_health_interval(c: Container, v: PodmanVersion)
    ensures
        older(v, PodmanVersion { major: 4, minor: 5 }) && proceeds(c, v)
            ==> (c.health_interval matches Some(x) ==> args_hold(container_downgraded_args(c, v),
            lone_arg("health-interval"@, x@))),
{
    if older(v, PodmanVersion { major: 4, minor: 5 }) && proceeds(c, v) {
        v4_5_has_health_interval(c);
        if let Some(t) = opt_seq(c.health_interval) {
            lemma_lone_arg_len("health-interval"@, t);
            lemma_step_adds(c, v, args_before(c, v, 4), lone_arg("health-interval"@, t), 4);
            lemma_held_after_step(c, v, lone_arg("health-interval"@, t), 4);
        }
    }
}

/// The argument of the option `health_on_failure` stands among those of its group.
proof fn v4_5_has_health_on_failure(c: Container)
    ensures
        opt_seq(c.health_on_failure) matches Some(t) ==> occurs_in(lone_arg("health-on-failure"@,
            t), v4_5_args(c)),
{
    let o0 = Seq::<char>::empty();
    let o1 = opt_arg(o0, "rootfs"@, rootfs_opt_text(c.rootfs));
    let o2 = list_args(o1, "secret"@, c.secret@);
    let o3 = opt_arg(o2, "log-driver"@, opt_seq(c.log_driver));
    let o4 = texts_args(o3, "mount"@, mount_texts(c.mount@));
    let o5 = opt_arg(o4, "ip"@, opt_seq(c.ip));
    let o6 = opt_arg(o5, "ip6"@, opt_seq(c.ip6));
    let o7 = opt_arg(o6, "health-interval"@, opt_seq(c.health_interval));
    let o8 = opt_arg(o7, "health-on-failure"@, opt_seq(c.health_on_failure));
    let o9 = opt_arg(o8, "health-retries"@, u64_text(c.health_retries));
    let o10 = opt_arg(o9, "health-start-period"@, opt_seq(c.health_start_period));
    let o11 = opt_arg(o10, "health-startup-cmd"@, opt_seq(c.health_startup_cmd));
    let o12 = opt_arg(o11, "health-startup-interval"@, opt_seq(c.health_startup_interval));
    let o13 = opt_arg(o12, "health-startup-retries"@, u16_text(c.health_startup_retries));
    let o14 = opt_arg(o13, "health-startup-success"@, u16_text(c.health_startup_success));
    let o15 = opt_arg(o14, "health-startup-timeout"@, opt_seq(c.health_startup_timeout));
    let o16 = opt_arg(o15, "health-timeout"@, opt_seq(c.health_timeout));
    let o17 = list_args(o16, "tmpfs"@, c.tmpfs@);
    let o18 = opt_arg(o17, "userns"@, opt_seq(c.user_ns));
    assert(o18 == v4_5_args(c));
    lemma_opt_arg_has(o7, "health-on-failure"@, opt_seq(c.health_on_failure));
    if let Some(t) = opt_seq(c.health_on_failure) {
        lemma_opt_arg_keeps(lone_arg("health-on-failure"@, t), o8, "health-retries"@,
            u64_text(c.health_retries));
        lemma_opt_arg_keeps(lone_arg("health-on-failure"@, t), o9, "health-start-period"@,
            opt_seq(c.health_start_period));
        lemma_opt_arg_keeps(lone_arg("health-on-failure"@, t), o10, "health-startup-cmd"@,
            opt_seq(c.health_startup_cmd));
        lemma_opt_arg_keeps(lone_arg("health-on-failure"@, t), o11, "health-startup-interval"@,
            opt_seq(c.health_startup_interval));
        lemma_opt_arg_keeps(lone_arg("health-on-failure"@, t), o12, "health-startup-retries"@,
            u16_text(c.health_startup_retries));
        lemma_opt_arg_keeps(lone_arg("health-on-failure"@, t), o13, "health-startup-success"@,
            u16_text(c.health_startup_success));
        lemma_opt_arg_keeps(lone_arg("health-on-failure"@, t), o14, "health-startup-timeout"@,
            opt_seq(c.health_startup_timeout));
        lemma_opt_arg_keeps(lone_arg("health-on-failure"@, t), o15, "health-timeout"@,
            opt_seq(c.health_timeout));
        lemma_list_args_keeps(lone_arg("health-on-failure"@, t), o16, "tmpfs"@, c.tmpfs@);
        lemma_opt_arg_keeps(lone_arg("health-on-failure"@, t), o17, "userns"@, opt_seq(c.user_ns));
    }
}

/// A downgrade keeps the option `health_on_failure` as its argument.
proof fn downgrade_keeps_health_on_failure(c: Container, v: PodmanVersion)
    ensures
        older(v, PodmanVersion { major: 4, minor: 5 }) && proceeds(c, v)
            ==> (c.health_on_failure matches Some(x) ==> args_hold(container_downgraded_args(c, v),
            lone_arg("health-on-failure"@, x@))),
{
    if older(v, PodmanVersion { major: 4, minor: 5 }) && proceeds(c, v) {
        v4_5_has_health_on_failure(c);
        if let Some(t) = opt_seq(c.health_on_failure) {
            lemma_lone_arg_len("health-on-failure"@, t);
            lemma_step_adds(c, v, args_before(c, v, 4), lone_arg("health-on-failure"@, t), 4);
            lemma_held_after_step(c, v, lone_arg("health-on-failure"@, t), 4);
        }
    }
}

/// The argument of the option `health_retries` stands among those of its group.
proof fn v4_5_has_health_retries(c: Container)
    ensures
        u64_text(c.health_retries) matches Some(t) ==> occurs_in(lone_arg("health-retries"@, t),
            v4_5_args(c)),
{
    let o0 = Seq::<char>::empty();
    let o1 = opt_arg(o0, "rootfs"@, rootfs_opt_text(c.rootfs));
    let o2 = list_args(o1, "secret"@, c.secret@);
    let o3 = opt_arg(o2, "log-driver"@, opt_seq(c.log_driver));
    let o4 = texts_args(o3, "mount"@, mount_texts(c.mount@));
    let o5 = opt_arg(o4, "ip"@, opt_seq(c.ip));
    let o6 = opt_arg(o5, "ip6"@, opt_seq(c.ip6));
    let o7 = opt_arg(o6, "health-interval"@, opt_seq(c.health_interval));
    let o8 = opt_arg(o7, "health-on-failure"@, opt_seq(c.health_on_failure));
    let o9 = opt_arg(o8, "health-retries"@, u64_text(c.health_retries));
    let o10 = opt_arg(o9, "health-start-period"@, opt_seq(c.health_start_period));
    let o11 = opt_arg(o10, "health-startup-cmd"@, opt_seq(c.health_startup_cmd));
    let o12 = opt_arg(o11, "health-startup-interval"@, opt_seq(c.health_startup_interval));
    let o13 = opt_arg(o12, "health-startup-retries"@, u16_text(c.health_startup_retries));
    let o14 = opt_arg(o13, "health-startup-success"@, u16_text(c.health_startup_success));
    let o15 = opt_arg(o14, "health-startup-timeout"@, opt_seq(c.health_startup_timeout));
    let o16 = opt_arg(o15, "health-timeout"@, opt_seq(c.health_timeout));
    let o17 = list_args(o16, "tmpfs"@, c.tmpfs@);
    let o18 = opt_arg(o17, "userns"@, opt_seq(c.user_ns));
    assert(o18 == v4_5_args(c));
    lemma_opt_arg_has(o8, "health-retries"@, u64_text(c.health_retries));
    if let Some(t) = u64_text(c.health_retries) {
        lemma_opt_arg_keeps(lone_arg("health-retries"@, t), o9, "health-start-period"@,
            opt_seq(c.health_start_period));
        lemma_opt_arg_keeps(lone_arg("health-retries"@, t), o10, "health-startup-cmd"@,
            opt_seq(c.health_startup_cmd));
        lemma_opt_arg_keeps(lone_arg("health-retries"@, t), o11, "health-startup-interval"@,
            opt_seq(c.health_startup_interval));
        lemma_opt_arg_keeps(lone_arg("health-retries"@, t), o12, "health-startup-retries"@,
            u16_text(c.health_startup_retries));
        lemma_opt_arg_keeps(lone_arg("health-retries"@, t), o13, "health-startup-success"@,
            u16_text(c.health_startup_success));
        lemma_opt_arg_keeps(lone_arg("health-retries"@, t), o14, "health-startup-timeout"@,
            opt_seq(c.health_startup_timeout));
        lemma_opt_arg_keeps(lone_arg("health-retries"@, t), o15, "health-timeout"@,
            opt_seq(c.health_timeout));
        lemma_list_args_keeps(lone_arg("health-retries"@, t), o16, "tmpfs"@, c.tmpfs@);
        lemma_opt_arg_keeps(lone_arg("health-retries"@, t), o17, "userns"@, opt_seq(c.user_ns));
    }
}

/// A downgrade keeps the option `health_retries` as its argument.
proof fn downgrade_keeps_health_retries(c: Container, v: PodmanVersion)
    ensures
        older(v, PodmanVersion { major: 4, minor: 5 }) && proceeds(c, v)
            ==> (c.health_retries matches Some(x) ==> args_hold(container_downgraded_args(c, v),
            lone_arg("health-retries"@, decimal(x as nat)))),
{
    if older(v, PodmanVersion { major: 4, minor: 5 }) && proceeds(c, v) {
        v4_5_has_health_retries(c);
        if let Some(t) = u64_text(c.health_retries) {
            lemma_lone_arg_len("health-retries"@, t);
            lemma_step_adds(c, v, args_before(c, v, 4), lone_arg("health-retries"@, t), 4);
            lemma_held_after_step(c, v, lone_arg("health-retries"@, t), 4);
        }
    }
}

/// The argument of the option `health_start_period` stands among those of its group.
proof fn v4_5_has_health_start_period(c: Container)
    ensures
        opt_seq(c.health_start_period) matches Some(t)
            ==> occurs_in(lone_arg("health-start-period"@, t), v4_5_args(c)),
{
    let o0 = Seq::<char>::empty();
    let o1 = opt_arg(o0, "rootfs"@, rootfs_opt_text(c.rootfs));
    let o2 = list_args(o1, "secret"@, c.secret@);
    let o3 = opt_arg(o2, "log-driver"@, opt_seq(c.log_driver));
    let o4 = texts_args(o3, "mount"@, mount_texts(c.mount@));
    let o5 = opt_arg(o4, "ip"@, opt_seq(c.ip));
    let o6 = opt_arg(o5, "ip6"@, opt_seq(c.ip6));
    let o7 = opt_arg(o6, "health-interval"@, opt_seq(c.health_interval));
    let o8 = opt_arg(o7, "health-on-failure"@, opt_seq(c.health_on_failure));
    let o9 = opt_arg(o8, "health-retries"@, u64_text(c.health_retries));
    let o10 = opt_arg(o9, "health-start-period"@, opt_seq(c.health_start_period));
    let o11 = opt_arg(o10, "health-startup-cmd"@, opt_seq(c.health_startup_cmd));
    let o12 = opt_arg(o11, "health-startup-interval"@, opt_seq(c.health_startup_interval));
    let o13 = opt_arg(o12, "health-startup-retries"@, u16_text(c.health_startup_retries));
    let o14 = opt_arg(o13, "health-startup-success"@, u16_text(c.health_startup_success));
    let o15 = opt_arg(o14, "health-startup-timeout"@, opt_seq(c.health_startup_timeout));
    let o16 = opt_arg(o15, "health-timeout"@, opt_seq(c.health_timeout));
    let o17 = list_args(o16, "tmpfs"@, c.tmpfs@);
    let o18 = opt_arg(o17, "userns"@, opt_seq(c.user_ns));
    assert(o18 == v4_5_args(c));
    lemma_opt_arg_has(o9, "health-start-period"@, opt_seq(c.health_start_period));
    if let Some(t) = opt_seq(c.health_start_period) {
        lemma_opt_arg_keeps(lone_arg("health-start-period"@, t), o10, "health-startup-cmd"@,
            opt_seq(c.health_startup_cmd));
        lemma_opt_arg_keeps(lone_arg("health-start-period"@, t), o11, "health-startup-interval"@,
            opt_seq(c.health_startup_interval));
        lemma_opt_arg_keeps(lone_arg("health-start-period"@, t), o12, "health-startup-retries"@,
            u16_text(c.health_startup_retries));
        lemma_opt_arg_keeps(lone_arg("health-start-period"@, t), o13, "health-startup-success"@,
            u16_text(c.health_startup_success));
        lemma_opt_arg_keeps(lone_arg("health-start-period"@, t), o14, "health-startup-timeout"@,
            opt_seq(c.health_startup_timeout));
        lemma_opt_arg_keeps(lone_arg("health-start-period"@, t), o15, "health-timeout"@,
            opt_seq(c.health_timeout));
        lemma_list_args_keeps(lone_arg("health-start-period"@, t), o16, "tmpfs"@, c.tmpfs@);
        lemma_opt_arg_keeps(lone_arg("health-start-period"@, t), o17, "userns"@,
            opt_seq(c.user_ns));
    }
}

/// A downgrade keeps the option `health_start_period` as its argument.
proof fn downgrade_keeps_health_start_period(c: Container, v: PodmanVersion)
    ensures
        older(v, PodmanVersion { major: 4, minor: 5 }) && proceeds(c, v)
            ==> (c.health_start_period matches Some(x) ==> args_hold(container_downgraded_args(c,
            v), lone_arg("health-start-period"@, x@))),
{
    if older(v, PodmanVersion { major: 4, minor: 5 }) && proceeds(c, v) {
        v4_5_has_health_start_period(c);
        if let Some(t) = opt_seq(c.health_start_period) {
            lemma_lone_arg_len("health-start-period"@, t);
            lemma_step_adds(c, v, args_before(c, v, 4), lone_arg("health-start-period"@, t), 4);
            lemma_held_after_step(c, v, lone_arg("health-start-period"@, t), 4);
        }
    }
}

/// The argument of the option `health_startup_cmd` stands among those of its group.
proof fn v4_5_has_health_startup_cmd(c: Container)
    ensures
        opt_seq(c.health_startup_cmd) matches Some(t) ==> occurs_in(lone_arg("health-startup-cmd"@,
            t), v4_5_args(c)),
{
    let o0 = Seq::<char>::empty();
    let o1 = opt_arg(o0, "rootfs"@, rootfs_opt_text(c.rootfs));
    let o2 = list_args(o1, "secret"@, c.secret@);
    let o3 = opt_arg(o2, "log-driver"@, opt_seq(c.log_driver));
    let o4 = texts_args(o3, "mount"@, mount_texts(c.mount@));
    let o5 = opt_arg(o4, "ip"@, opt_seq(c.ip));
    let o6 = opt_arg(o5, "ip6"@, opt_seq(c.ip6));
    let o7 = opt_arg(o6, "health-interval"@, opt_seq(c.health_interval));
    let o8 = opt_arg(o7, "health-on-failure"@, opt_seq(c.health_on_failure));
    let o9 = opt_arg(o8, "health-retries"@, u64_text(c.health_retries));
    let o10 = opt_arg(o9, "health-start-period"@, opt_seq(c.health_start_period));
    let o11 = opt_arg(o10, "health-startup-cmd"@, opt_seq(c.health_startup_cmd));
    let o12 = opt_arg(o11, "health-startup-interval"@, opt_seq(c.health_startup_interval));
    let o13 = opt_arg(o12, "health-startup-retries"@, u16_text(c.health_startup_retries));
    let o14 = opt_arg(o13, "health-startup-success"@, u16_text(c.health_startup_success));
    let o15 = opt_arg(o14, "health-startup-timeout"@, opt_seq(c.health_startup_timeout));
    let o16 = opt_arg(o15, "health-timeout"@, opt_seq(c.health_timeout));
    let o17 = list_args(o16, "tmpfs"@, c.tmpfs@);
    let o18 = opt_arg(o17, "userns"@, opt_seq(c.user_ns));
    assert(o18 == v4_5_args(c));
    lemma_opt_arg_has(o10, "health-startup-cmd"@, opt_seq(c.health_startup_cmd));
    if let Some(t) = opt_seq(c.health_startup_cmd) {
        lemma_opt_arg_keeps(lone_arg("health-startup-cmd"@, t), o11, "health-startup-interval"@,
            opt_seq(c.health_startup_interval));
        lemma_opt_arg_keeps(lone_arg("health-startup-cmd"@, t), o12, "health-startup-retries"@,
            u16_text(c.health_startup_retries));
        lemma_opt_arg_keeps(lone_arg("health-startup-cmd"@, t), o13, "health-startup-success"@,
            u16_text(c.health_startup_success));
        lemma_opt_arg_keeps(lone_arg("health-startup-cmd"@, t), o14, "health-startup-timeout"@,
            opt_seq(c.health_startup_timeout));
        lemma_opt_arg_keeps(lone_arg("health-startup-cmd"@, t), o15, "health-timeout"@,
            opt_seq(c.health_timeout));
        lemma_list_args_keeps(lone_arg("health-startup-cmd"@, t), o16, "tmpfs"@, c.tmpfs@);
        lemma_opt_arg_keeps(lone_arg("health-startup-cmd"@, t), o17, "userns"@, opt_seq(c.user_ns));
    }
}

/// A downgrade keeps the option `health_startup_cmd` as its argument.
proof fn downgrade_keeps_health_startup_cmd(c: Container, v: PodmanVersion)
    ensures
        older(v, PodmanVersion { major: 4, minor: 5 }) && proceeds(c, v)
            ==> (c.health_startup_cmd matches Some(x) ==> args_hold(container_downgraded_args(c, v),
            lone_arg("health-startup-cmd"@, x@))),
{
    if older(v, PodmanVersion { major: 4, minor: 5 }) && proceeds(c, v) {
        v4_5_has_health_startup_cmd(c);
        if let Some(t) = opt_seq(c.health_startup_cmd) {
            lemma_lone_arg_len("health-startup-cmd"@, t);
            lemma_step_adds(c, v, args_before(c, v, 4), lone_arg("health-startup-cmd"@, t), 4);
            lemma_held_after_step(c, v, lone_arg("health-startup-cmd"@, t), 4);
        }
    }
}

/// The argument of the option `health_startup_interval` stands among those of its group.
proof fn v4_5_has_health_startup_interval(c: Container)
    ensures
        opt_seq(c.health_startup_interval) matches Some(t)
            ==> occurs_in(lone_arg("health-startup-interval"@, t), v4_5_args(c)),
{
    let o0 = Seq::<char>::empty();
    let o1 = opt_arg(o0, "rootfs"@, rootfs_opt_text(c.rootfs));
    let o2 = list_args(o1, "secret"@, c.secret@);
    let o3 = opt_arg(o2, "log-driver"@, opt_seq(c.log_driver));
    let o4 = texts_args(o3, "mount"@, mount_texts(c.mount@));
    let o5 = opt_arg(o4, "ip"@, opt_seq(c.ip));
    let o6 = opt_arg(o5, "ip6"@, opt_seq(c.ip6));
    let o7 = opt_arg(o6, "health-interval"@, opt_seq(c.health_interval));
    let o8 = opt_arg(o7, "health-on-failure"@, opt_seq(c.health_on_failure));
    let o9 = opt_arg(o8, "health-retries"@, u64_text(c.health_retries));
    let o10 = opt_arg(o9, "health-start-period"@, opt_seq(c.health_start_period));
    let o11 = opt_arg(o10, "health-startup-cmd"@, opt_seq(c.health_startup_cmd));
    let o12 = opt_arg(o11, "health-startup-interval"@, opt_seq(c.health_startup_interval));
    let o13 = opt_arg(o12, "health-startup-retries"@, u16_text(c.health_startup_retries));
    let o14 = opt_arg(o13, "health-startup-success"@, u16_text(c.health_startup_success));
    let o15 = opt_arg(o14, "health-startup-timeout"@, opt_seq(c.health_startup_timeout));
    let o16 = opt_arg(o15, "health-timeout"@, opt_seq(c.health_timeout));
    let o17 = list_args(o16, "tmpfs"@, c.tmpfs@);
    let o18 = opt_arg(o17, "userns"@, opt_seq(c.user_ns));
    assert(o18 == v4_5_args(c));
    lemma_opt_arg_has(o11, "health-startup-interval"@, opt_seq(c.health_startup_interval));
    if let Some(t) = opt_seq(c.health_startup_interval) {
        lemma_opt_arg_keeps(lone_arg("health-startup-interval"@, t), o12, "health-startup-retries"@,
            u16_text(c.health_startup_retries));
        lemma_opt_arg_keeps(lone_arg("health-startup-interval"@, t), o13, "health-startup-success"@,
            u16_text(c.health_startup_success));
        lemma_opt_arg_keeps(lone_arg("health-startup-interval"@, t), o14, "health-startup-timeout"@,
            opt_seq(c.health_startup_timeout));
        lemma_opt_arg_keeps(lone_arg("health-startup-interval"@, t), o15, "health-timeout"@,
            opt_seq(c.health_timeout));
        lemma_list_args_keeps(lone_arg("health-startup-interval"@, t), o16, "tmpfs"@, c.tmpfs@);
        lemma_opt_arg_keeps(lone_arg("health-startup-interval"@, t), o17, "userns"@,
            opt_seq(c.user_ns));
    }
}

/// A downgrade keeps the option `health_startup_interval` as its argument.
proof fn downgrade_keeps_health_startup_interval(c: Container, v: PodmanVersion)
    ensures
        older(v, PodmanVersion { major: 4, minor: 5 }) && proceeds(c, v)
            ==> (c.health_startup_interval matches Some(x)
            ==> args_hold(container_downgraded_args(c, v), lone_arg("health-startup-interval"@,
            x@))),
{
    if older(v, PodmanVersion { major: 4, minor: 5 }) && proceeds(c, v) {
        v4_5_has_health_startup_interval(c);
        if let Some(t) = opt_seq(c.health_startup_interval) {
            lemma_lone_arg_len("health-startup-interval"@, t);
            lemma_step_adds(c, v, args_before(c, v, 4), lone_arg("health-startup-interval"@, t), 4);
            lemma_held_after_step(c, v, lone_arg("health-startup-interval"@, t), 4);
        }
    }
}

/// The argument of the option `health_startup_retries` stands among those of its group.
proof fn v4_5_has_health_startup_retries(c: Container)
    ensures
        u16_text(c.health_startup_retries) matches Some(t)
            ==> occurs_in(lone_arg("health-startup-retries"@, t), v4_5_args(c)),
{
    let o0 = Seq::<char>::empty();
    let o1 = opt_arg(o0, "rootfs"@, rootfs_opt_text(c.rootfs));
    let o2 = list_args(o1, "secret"@, c.secret@);
    let o3 = opt_arg(o2, "log-driver"@, opt_seq(c.log_driver));
    let o4 = texts_args(o3, "mount"@, mount_texts(c.mount@));
    let o5 = opt_arg(o4, "ip"@, opt_seq(c.ip));
    let o6 = opt_arg(o5, "ip6"@, opt_seq(c.ip6));
    let o7 = opt_arg(o6, "health-interval"@, opt_seq(c.health_interval));
    let o8 = opt_arg(o7, "health-on-failure"@, opt_seq(c.health_on_failure));
    let o9 = opt_arg(o8, "health-retries"@, u64_text(c.health_retries));
    let o10 = opt_arg(o9, "health-start-period"@, opt_seq(c.health_start_period));
    let o11 = opt_arg(o10, "health-startup-cmd"@, opt_seq(c.health_startup_cmd));
    let o12 = opt_arg(o11, "health-startup-interval"@, opt_seq(c.health_startup_interval));
    let o13 = opt_arg(o12, "health-startup-retries"@, u16_text(c.health_startup_retries));
    let o14 = opt_arg(o13, "health-startup-success"@, u16_text(c.health_startup_success));
    let o15 = opt_arg(o14, "health-startup-timeout"@, opt_seq(c.health_startup_timeout));
    let o16 = opt_arg(o15, "health-timeout"@, opt_seq(c.health_timeout));
    let o17 = list_args(o16, "tmpfs"@, c.tmpfs@);
    let o18 = opt_arg(o17, "userns"@, opt_seq(c.user_ns));
    assert(o18 == v4_5_args(c));
    lemma_opt_arg_has(o12, "health-startup-retries"@, u16_text(c.health_startup_retries));
    if let Some(t) = u16_text(c.health_startup_retries) {
        lemma_opt_arg_keeps(lone_arg("health-startup-retries"@, t), o13, "health-startup-success"@,
            u16_text(c.health_startup_success));
        lemma_opt_arg_keeps(lone_arg("health-startup-retries"@, t), o14, "health-startup-timeout"@,
            opt_seq(c.health_startup_timeout));
        lemma_opt_arg_keeps(lone_arg("health-startup-retries"@, t), o15, "health-timeout"@,
            opt_seq(c.health_timeout));
        lemma_list_args_keeps(lone_arg("health-startup-retries"@, t), o16, "tmpfs"@, c.tmpfs@);
        lemma_opt_arg_keeps(lone_arg("health-startup-retries"@, t), o17, "userns"@,
            opt_seq(c.user_ns));
    }
}

/// A downgrade keeps the option `health_startup_retries` as its argument.
proof fn downgrade_keeps_health_startup_retries(c: Container, v: PodmanVersion)
    ensures
        older(v, PodmanVersion { major: 4, minor: 5 }) && proceeds(c, v)
            ==> (c.health_startup_retries matches Some(x) ==> args_hold(container_downgraded_args(c,
            v), lone_arg("health-startup-retries"@, decimal(x as nat)))),
{
    if older(v, PodmanVersion { major: 4, minor: 5 }) && proceeds(c, v) {
        v4_5_has_health_startup_retries(c);
        if let Some(t) = u16_text(c.health_startup_retries) {
            lemma_lone_arg_len("health-startup-retries"@, t);
            lemma_step_adds(c, v, args_before(c, v, 4), lone_arg("health-startup-retries"@, t), 4);
            lemma_held_after_step(c, v, lone_arg("health-startup-retries"@, t), 4);
        }
    }
}

/// The argument of the option `health_startup_success` stands among those of its group.
proof fn v4_5_has_health_startup_success(c: Container)
    ensures
        u16_text(c.health_startup_success) matches Some(t)
            ==> occurs_in(lone_arg("health-startup-success"@, t), v4_5_args(c)),
{
    let o0 = Seq::<char>::empty();
    let o1 = opt_arg(o0, "rootfs"@, rootfs_opt_text(c.rootfs));
    let o2 = list_args(o1, "secret"@, c.secret@);
    let o3 = opt_arg(o2, "log-driver"@, opt_seq(c.log_driver));
    let o4 = texts_args(o3, "mount"@, mount_texts(c.mount@));
    let o5 = opt_arg(o4, "ip"@, opt_seq(c.ip));
    let o6 = opt_arg(o5, "ip6"@, opt_seq(c.ip6));
    let o7 = opt_arg(o6, "health-interval"@, opt_seq(c.health_interval));
    let o8 = opt_arg(o7, "health-on-failure"@, opt_seq(c.health_on_failure));
    let o9 = opt_arg(o8, "health-retries"@, u64_text(c.health_retries));
    let o10 = opt_arg(o9, "health-start-period"@, opt_seq(c.health_start_period));
    let o11 = opt_arg(o10, "health-startup-cmd"@, opt_seq(c.health_startup_cmd));
    let o12 = opt_arg(o11, "health-startup-interval"@, opt_seq(c.health_startup_interval));
    let o13 = opt_arg(o12, "health-startup-retries"@, u16_text(c.health_startup_retries));
    let o14 = opt_arg(o13, "health-startup-success"@, u16_text(c.health_startup_success));
    let o15 = opt_arg(o14, "health-startup-timeout"@, opt_seq(c.health_startup_timeout));
    let o16 = opt_arg(o15, "health-timeout"@, opt_seq(c.health_timeout));
    let o17 = list_args(o16, "tmpfs"@, c.tmpfs@);
    let o18 = opt_arg(o17, "userns"@, opt_seq(c.user_ns));
    assert(o18 == v4_5_args(c));
    lemma_opt_arg_has(o13, "health-startup-success"@, u16_text(c.health_startup_success));
    if let Some(t) = u16_text(c.health_startup_success) {
        lemma_opt_arg_keeps(lone_arg("health-startup-success"@, t), o14, "health-startup-timeout"@,
            opt_seq(c.health_startup_timeout));
        lemma_opt_arg_keeps(lone_arg("health-startup-success"@, t), o15, "health-timeout"@,
            opt_seq(c.health_timeout));
        lemma_list_args_keeps(lone_arg("health-startup-success"@, t), o16, "tmpfs"@, c.tmpfs@);
        lemma_opt_arg_keeps(lone_arg("health-startup-success"@, t), o17, "userns"@,
            opt_seq(c.user_ns));
    }
}

/// A downgrade keeps the option `health_startup_success` as its argument.
proof fn downgrade_keeps_health_startup_success(c: Container, v: PodmanVersion)
    ensures
        older(v, PodmanVersion { major: 4, minor: 5 }) && proceeds(c, v)
            ==> (c.health_startup_success matches Some(x) ==> args_hold(container_downgraded_args(c,
            v), lone_arg("health-startup-success"@, decimal(x as nat)))),
{
    if older(v, PodmanVersion { major: 4, minor: 5 }) && proceeds(c, v) {
        v4_5_has_health_startup_success(c);
        if let Some(t) = u16_text(c.health_startup_success) {
            lemma_lone_arg_len("health-startup-success"@, t);
            lemma_step_adds(c, v, args_before(c, v, 4), lone_arg("health-startup-success"@, t), 4);
            lemma_held_after_step(c, v, lone_arg("health-startup-success"@, t), 4);
        }
    }
}

/// The argument of the option `health_startup_timeout` stands among those of its group.
proof fn v4_5_has_health_startup_timeout(c: Container)
    ensures
        opt_seq(c.health_startup_timeout) matches Some(t)
            ==> occurs_in(lone_arg("health-startup-timeout"@, t), v4_5_args(c)),
{
    let o0 = Seq::<char>::empty();
    let o1 = opt_arg(o0, "rootfs"@, rootfs_opt_text(c.rootfs));
    let o2 = list_args(o1, "secret"@, c.secret@);
    let o3 = opt_arg(o2, "log-driver"@, opt_seq(c.log_driver));
    let o4 = texts_args(o3, "mount"@, mount_texts(c.mount@));
    let o5 = opt_arg(o4, "ip"@, opt_seq(c.ip));
    let o6 = opt_arg(o5, "ip6"@, opt_seq(c.ip6));
    let o7 = opt_arg(o6, "health-interval"@, opt_seq(c.health_interval));
    let o8 = opt_arg(o7, "health-on-failure"@, opt_seq(c.health_on_failure));
    let o9 = opt_arg(o8, "health-retries"@, u64_text(c.health_retries));
    let o10 = opt_arg(o9, "health-start-period"@, opt_seq(c.health_start_period));
    let o11 = opt_arg(o10, "health-startup-cmd"@, opt_seq(c.health_startup_cmd));
    let o12 = opt_arg(o11, "health-startup-interval"@, opt_seq(c.health_startup_interval));
    let o13 = opt_arg(o12, "health-startup-retries"@, u16_text(c.health_startup_retries));
    let o14 = opt_arg(o13, "health-startup-success"@, u16_text(c.health_startup_success));
    let o15 = opt_arg(o14, "health-startup-timeout"@, opt_seq(c.health_startup_timeout));
    let o16 = opt_arg(o15, "health-timeout"@, opt_seq(c.health_timeout));
    let o17 = list_args(o16, "tmpfs"@, c.tmpfs@);
    let o18 = opt_arg(o17, "userns"@, opt_seq(c.user_ns));
    assert(o18 == v4_5_args(c));
    lemma_opt_arg_has(o14, "health-startup-timeout"@, opt_seq(c.health_startup_timeout));
    if let Some(t) = opt_seq(c.health_startup_timeout) {
        lemma_opt_arg_keeps(lone_arg("health-startup-timeout"@, t), o15, "health-timeout"@,
            opt_seq(c.health_timeout));
        lemma_list_args_keeps(lone_arg("health-startup-timeout"@, t), o16, "tmpfs"@, c.tmpfs@);
        lemma_opt_arg_keeps(lone_arg("health-startup-timeout"@, t), o17, "userns"@,
            opt_seq(c.user_ns));
    }
}

/// A downgrade keeps the option `health_startup_timeout` as its argument.
proof fn downgrade_keeps_health_startup_timeout(c: Container, v: PodmanVersion)
    ensures
        older(v, PodmanVersion { major: 4, minor: 5 }) && proceeds(c, v)
            ==> (c.health_startup_timeout matches Some(x) ==> args_hold(container_downgraded_args(c,
            v), lone_arg("health-startup-timeout"@, x@))),
{
    if older(v, PodmanVersion { major: 4, minor: 5 }) && proceeds(c, v) {
        v4_5_has_health_startup_timeout(c);
        if let Some(t) = opt_seq(c.health_startup_timeout) {
            lemma_lone_arg_len("health-startup-timeout"@, t);
            lemma_step_adds(c, v, args_before(c, v, 4), lone_arg("health-startup-timeout"@, t), 4);
            lemma_held_after_step(c, v, lone_arg("health-startup-timeout"@, t), 4);
        }
    }
}

/// The argument of the option `health_timeout` stands among those of its group.
proof fn v4_5_has_health_timeout(c: Container)
    ensures
        opt_seq(c.health_timeout) matches Some(t) ==> occurs_in(lone_arg("health-timeout"@, t),
            v4_5_args(c)),
{
    let o0 = Seq::<char>::empty();
    let o1 = opt_arg(o0, "rootfs"@, rootfs_opt_text(c.rootfs));
    let o2 = list_args(o1, "secret"@, c.secret@);
    let o3 = opt_arg(o2, "log-driver"@, opt_seq(c.log_driver));
    let o4 = texts_args(o3, "mount"@, mount_texts(c.mount@));
    let o5 = opt_arg(o4, "ip"@, opt_seq(c.ip));
    let o6 = opt_arg(o5, "ip6"@, opt_seq(c.ip6));
    let o7 = opt_arg(o6, "health-interval"@, opt_seq(c.health_interval));
    let o8 = opt_arg(o7, "health-on-failure"@, opt_seq(c.health_on_failure));
    let o9 = opt_arg(o8, "health-retries"@, u64_text(c.health_retries));
    let o10 = opt_arg(o9, "health-start-period"@, opt_seq(c.health_start_period));
    let o11 = opt_arg(o10, "health-startup-cmd"@, opt_seq(c.health_startup_cmd));
    let o12 = opt_arg(o11, "health-startup-interval"@, opt_seq(c.health_startup_interval));
    let o13 = opt_arg(o12, "health-startup-retries"@, u16_text(c.health_startup_retries));
    let o14 = opt_arg(o13, "health-startup-success"@, u16_text(c.health_startup_success));
    let o15 = opt_arg(o14, "health-startup-timeout"@, opt_seq(c.health_startup_timeout));
    let o16 = opt_arg(o15, "health-timeout"@, opt_seq(c.health_timeout));
    let o17 = list_args(o16, "tmpfs"@, c.tmpfs@);
    let o18 = opt_arg(o17, "userns"@, opt_seq(c.user_ns));
    assert(o18 == v4_5_args(c));
    lemma_opt_arg_has(o15, "health-timeout"@, opt_seq(c.health_timeout));
    if let Some(t) = opt_seq(c.health_timeout) {
        lemma_list_args_keeps(lone_arg("health-timeout"@, t), o16, "tmpfs"@, c.tmpfs@);
        lemma_opt_arg_keeps(lone_arg("health-timeout"@, t), o17, "userns"@, opt_seq(c.user_ns));
    }
}

/// A downgrade keeps the option `health_timeout` as its argument.
proof fn downgrade_keeps_health_timeout(c: Container, v: PodmanVersion)
    ensures
        older(v, PodmanVersion { major: 4, minor: 5 }) && proceeds(c, v)
            ==> (c.health_timeout matches Some(x) ==> args_hold(container_downgraded_args(c, v),
            lone_arg("health-timeout"@, x@))),
{
    if older(v, PodmanVersion { major: 4, minor: 5 }) && proceeds(c, v) {
        v4_5_has_health_timeout(c);
        if let Some(t) = opt_seq(c.health_timeout) {
            lemma_lone_arg_len("health-timeout"@, t);
            lemma_step_adds(c, v, args_before(c, v, 4), lone_arg("health-timeout"@, t), 4);
            lemma_held_after_step(c, v, lone_arg("health-timeout"@, t), 4);
        }
    }
}

/// The argument of the option `tmpfs` stands among those of its group.
proof fn v4_5_has_tmpfs(c: Container)
    ensures
        forall|i: int| 0 <= i < c.tmpfs@.len() ==> occurs_in(lone_arg("tmpfs"@,
            (#[trigger] c.tmpfs@[i])@), v4_5_args(c)),
{
    let o0 = Seq::<char>::empty();
    let o1 = opt_arg(o0, "rootfs"@, rootfs_opt_text(c.rootfs));
    let o2 = list_args(o1, "secret"@, c.secret@);
    let o3 = opt_arg(o2, "log-driver"@, opt_seq(c.log_driver));
    let o4 = texts_args(o3, "mount"@, mount_texts(c.mount@));
    let o5 = opt_arg(o4, "ip"@, opt_seq(c.ip));
    let o6 = opt_arg(o5, "ip6"@, opt_seq(c.ip6));
    let o7 = opt_arg(o6, "health-interval"@, opt_seq(c.health_interval));
    let o8 = opt_arg(o7, "health-on-failure"@, opt_seq(c.health_on_failure));
    let o9 = opt_arg(o8, "health-retries"@, u64_text(c.health_retries));
    let o10 = opt_arg(o9, "health-start-period"@, opt_seq(c.health_start_period));
    let o11 = opt_arg(o10, "health-startup-cmd"@, opt_seq(c.health_startup_cmd));
    let o12 = opt_arg(o11, "health-startup-interval"@, opt_seq(c.health_startup_interval));
    let o13 = opt_arg(o12, "health-startup-retries"@, u16_text(c.health_startup_retries));
    let o14 = opt_arg(o13, "health-startup-success"@, u16_text(c.health_startup_success));
    let o15 = opt_arg(o14, "health-startup-timeout"@, opt_seq(c.health_startup_timeout));
    let o16 = opt_arg(o15, "health-timeout"@, opt_seq(c.health_timeout));
    let o17 = list_args(o16, "tmpfs"@, c.tmpfs@);
    let o18 = opt_arg(o17, "userns"@, opt_seq(c.user_ns));
    assert(o18 == v4_5_args(c));
    assert forall|i: int| 0 <= i < c.tmpfs@.len() implies occurs_in(lone_arg("tmpfs"@,
        (#[trigger] c.tmpfs@[i])@), v4_5_args(c)) by {
        lemma_list_args_has(o16, "tmpfs"@, c.tmpfs@, i);
        lemma_opt_arg_keeps(lone_arg("tmpfs"@, c.tmpfs@[i]@), o17, "userns"@, opt_seq(c.user_ns));
    }
}

/// A downgrade keeps the option `tmpfs` as its argument.
proof fn downgrade_keeps_tmpfs(c: Container, v: PodmanVersion)
    ensures
        older(v, PodmanVersion { major: 4, minor: 5 }) && proceeds(c, v)
            ==> (forall|i: int| 0 <= i < c.tmpfs@.len() ==> args_hold(container_downgraded_args(c,
            v), lone_arg("tmpfs"@, (#[trigger] c.tmpfs@[i])@))),
{
    if older(v, PodmanVersion { major: 4, minor: 5 }) && proceeds(c, v) {
        v4_5_has_tmpfs(c);
        assert forall|i: int| 0 <= i < c.tmpfs@.len() implies args_hold(container_downgraded_args(c,
            v), lone_arg("tmpfs"@, (#[trigger] c.tmpfs@[i])@)) by {
            lemma_lone_arg_len("tmpfs"@, c.tmpfs@[i]@);
            lemma_step_adds(c, v, args_before(c, v, 4), lone_arg("tmpfs"@, c.tmpfs@[i]@), 4);
            lemma_held_after_step(c, v, lone_arg("tmpfs"@, c.tmpfs@[i]@), 4);
        }
    }
}

/// The argument of the option `user_ns` stands among those of its group.
proof fn v4_5_has_user_ns(c: Container)
    ensures
        opt_seq(c.user_ns) matches Some(t) ==> occurs_in(lone_arg("userns"@, t), v4_5_args(c)),
{
    let o0 = Seq::<char>::empty();
    let o1 = opt_arg(o0, "rootfs"@, rootfs_opt_text(c.rootfs));
    let o2 = list_args(o1, "secret"@, c.secret@);
    let o3 = opt_arg(o2, "log-driver"@, opt_seq(c.log_driver));
    let o4 = texts_args(o3, "mount"@, mount_texts(c.mount@));
    let o5 = opt_arg(o4, "ip"@, opt_seq(c.ip));
    let o6 = opt_arg(o5, "ip6"@, opt_seq(c.ip6));
    let o7 = opt_arg(o6, "health-interval"@, opt_seq(c.health_interval));
    let o8 = opt_arg(o7, "health-on-failure"@, opt_seq(c.health_on_failure));
    let o9 = opt_arg(o8, "health-retries"@, u64_text(c.health_retries));
    let o10 = opt_arg(o9, "health-start-period"@, opt_seq(c.health_start_period));
    let o11 = opt_arg(o10, "health-startup-cmd"@, opt_seq(c.health_startup_cmd));
    let o12 = opt_arg(o11, "health-startup-interval"@, opt_seq(c.health_startup_interval));
    let o13 = opt_arg(o12, "health-startup-retries"@, u16_text(c.health_startup_retries));
    let o14 = opt_arg(o13, "health-startup-success"@, u16_text(c.health_startup_success));
    let o15 = opt_arg(o14, "health-startup-timeout"@, opt_seq(c.health_startup_timeout));
    let o16 = opt_arg(o15, "health-timeout"@, opt_seq(c.health_timeout));
    let o17 = list_args(o16, "tmpfs"@, c.tmpfs@);
    let o18 = opt_arg(o17, "userns"@, opt_seq(c.user_ns));
    assert(o18 == v4_5_args(c));
    lemma_opt_arg_has(o17, "userns"@, opt_seq(c.user_ns));
    if let Some(t) = opt_seq(c.user_ns) {
    }
}

/// A downgrade keeps the option `user_ns` as its argument.
proof fn downgrade_keeps_user_ns(c: Container, v: PodmanVersion)
    ensures
        older(v, PodmanVersion { major: 4, minor: 5 }) && proceeds(c, v)
            ==> (c.user_ns matches Some(x) ==> args_hold(container_downgraded_args(c, v),
            lone_arg("userns"@, x@))),
{
    if older(v, PodmanVersion { major: 4, minor: 5 }) && proceeds(c, v) {
        v4_5_has_user_ns(c);
        if let Some(t) = opt_seq(c.user_ns) {
            lemma_lone_arg_len("userns"@, t);
            lemma_step_adds(c, v, args_before(c, v, 4), lone_arg("userns"@, t), 4);
            lemma_held_after_step(c, v, lone_arg("userns"@, t), 4);
        }
    }
}

/// Downgrading never loses an option: each option that a downgrade to an older Podman unsets
/// stands, as its `--flag value` argument, in the Podman arguments that come out. The options
/// added in 5.0 always do; the others where the downgrade proceeds: notifying when healthy as
/// `--sdnotify healthy`, read-write temporary file systems being off as
/// `--read-only-tmpfs=false`, and the security options as `--security-opt` arguments.
pub proof fn container_downgrade_keeps_every_option(c: Container, v: PodmanVersion)
    ensures
        older(v, PodmanVersion { major: 5, minor: 0 }) ==> (c.entrypoint matches Some(x)
            ==> args_hold(container_downgraded_args(c, v), lone_arg("entrypoint"@, x@))),
        older(v, PodmanVersion { major: 5, minor: 0 }) ==> (c.stop_timeout matches Some(x)
            ==> args_hold(container_downgraded_args(c, v), lone_arg("stop-timeout"@,
            decimal(x as nat)))),
        older(v, PodmanVersion { major: 4, minor: 8 }) && proceeds(c, v)
            ==> (forall|i: int| 0 <= i < c.gid_map@.len() ==> args_hold(container_downgraded_args(c,
            v), lone_arg("gidmap"@, (#[trigger] c.gid_map@[i])@))),
        older(v, PodmanVersion { major: 4, minor: 8 }) && proceeds(c, v)
            ==> (c.sub_gid_map matches Some(x) ==> args_hold(container_downgraded_args(c, v),
            lone_arg("subgidname"@, x@))),
        older(v, PodmanVersion { major: 4, minor: 8 }) && proceeds(c, v)
            ==> (c.sub_uid_map matches Some(x) ==> args_hold(container_downgraded_args(c, v),
            lone_arg("subuidname"@, x@))),
        older(v, PodmanVersion { major: 4, minor: 8 }) && proceeds(c, v)
            ==> (forall|i: int| 0 <= i < c.uid_map@.len() ==> args_hold(container_downgraded_args(c,
            v), lone_arg("uidmap"@, (#[trigger] c.uid_map@[i])@))),
        older(v, PodmanVersion { major: 4, minor: 7 }) && proceeds(c, v)
            ==> ((c.dns == Dns::Disabled ==> args_hold(container_downgraded_args(c, v),
            lone_arg("dns"@, "none"@))) && (c.dns matches Dns::Custom(w)
            ==> forall|i: int| 0 <= i < w@.len() ==> args_hold(container_downgraded_args(c, v),
            lone_arg("dns"@, (#[trigger] w@[i])@)))),
        older(v, PodmanVersion { major: 4, minor: 7 }) && proceeds(c, v)
            ==> (forall|i: int| 0 <= i < c.dns_option@.len()
            ==> args_hold(container_downgraded_args(c, v), lone_arg("dns-option"@,
            (#[trigger] c.dns_option@[i])@))),
        older(v, PodmanVersion { major: 4, minor: 7 }) && proceeds(c, v)
            ==> (forall|i: int| 0 <= i < c.dns_search@.len()
            ==> args_hold(container_downgraded_args(c, v), lone_arg("dns-search"@,
            (#[trigger] c.dns_search@[i])@))),
        older(v, PodmanVersion { major: 4, minor: 7 }) && proceeds(c, v)
            ==> ((c.pids_limit matches Some(PidsLimit::Value(x))
            ==> args_hold(container_downgraded_args(c, v), lone_arg("pids-limit"@,
            decimal(x as nat)))) && (c.pids_limit == Some(PidsLimit::Unlimited)
            ==> args_hold(container_downgraded_args(c, v), lone_arg("pids-limit"@, "-1"@)))),
        older(v, PodmanVersion { major: 4, minor: 7 }) && proceeds(c, v)
            ==> (c.shm_size matches Some(x) ==> args_hold(container_downgraded_args(c, v),
            lone_arg("shm-size"@, x@))),
        older(v, PodmanVersion { major: 4, minor: 7 }) && proceeds(c, v)
            ==> (forall|i: int| 0 <= i < c.ulimit@.len() ==> args_hold(container_downgraded_args(c,
            v), lone_arg("ulimit"@, (#[trigger] c.ulimit@[i])@))),
        older(v, PodmanVersion { major: 4, minor: 6 }) && proceeds(c, v)
            ==> (forall|i: int| 0 <= i < c.sysctl@.len() ==> args_hold(container_downgraded_args(c,
            v), lone_arg("sysctl"@, (#[trigger] c.sysctl@[i])@))),
        older(v, PodmanVersion { major: 4, minor: 6 }) && proceeds(c, v)
            ==> (c.host_name matches Some(x) ==> args_hold(container_downgraded_args(c, v),
            lone_arg("hostname"@, x@))),
        older(v, PodmanVersion { major: 4, minor: 6 }) && proceeds(c, v) ==> (c.pull matches Some(x)
            ==> args_hold(container_downgraded_args(c, v), lone_arg("pull"@, pull_policy_name(x)))),
        older(v, PodmanVersion { major: 4, minor: 6 }) && proceeds(c, v)
            ==> (c.working_dir matches Some(x) ==> args_hold(container_downgraded_args(c, v),
            lone_arg("workdir"@, x@))),
        older(v, PodmanVersion { major: 4, minor: 5 }) && proceeds(c, v)
            ==> (c.rootfs matches Some(x) ==> args_hold(container_downgraded_args(c, v),
            lone_arg("rootfs"@, rootfs_text(x@)))),
        older(v, PodmanVersion { major: 4, minor: 5 }) && proceeds(c, v)
            ==> (forall|i: int| 0 <= i < c.secret@.len() ==> args_hold(container_downgraded_args(c,
            v), lone_arg("secret"@, (#[trigger] c.secret@[i])@))),
        older(v, PodmanVersion { major: 4, minor: 5 }) && proceeds(c, v)
            ==> (c.log_driver matches Some(x) ==> args_hold(container_downgraded_args(c, v),
            lone_arg("log-driver"@, x@))),
        older(v, PodmanVersion { major: 4, minor: 5 }) && proceeds(c, v)
            ==> (forall|i: int| 0 <= i < c.mount@.len() ==> args_hold(container_downgraded_args(c,
            v), lone_arg("mount"@, mount_text((#[trigger] c.mount@[i])@)))),
        older(v, PodmanVersion { major: 4, minor: 5 }) && proceeds(c, v) ==> (c.ip matches Some(x)
            ==> args_hold(container_downgraded_args(c, v), lone_arg("ip"@, x@))),
        older(v, PodmanVersion { major: 4, minor: 5 }) && proceeds(c, v) ==> (c.ip6 matches Some(x)
            ==> args_hold(container_downgraded_args(c, v), lone_arg("ip6"@, x@))),
        older(v, PodmanVersion { major: 4, minor: 5 }) && proceeds(c, v)
            ==> (c.health_interval matches Some(x) ==> args_hold(container_downgraded_args(c, v),
            lone_arg("health-interval"@, x@))),
        older(v, PodmanVersion { major: 4, minor: 5 }) && proceeds(c, v)
            ==> (c.health_on_failure matches Some(x) ==> args_hold(container_downgraded_args(c, v),
            lone_arg("health-on-failure"@, x@))),
        older(v, PodmanVersion { major: 4, minor: 5 }) && proceeds(c, v)
            ==> (c.health_retries matches Some(x) ==> args_hold(container_downgraded_args(c, v),
            lone_arg("health-retries"@, decimal(x as nat)))),
        older(v, PodmanVersion { major: 4, minor: 5 }) && proceeds(c, v)
            ==> (c.health_start_period matches Some(x) ==> args_hold(container_downgraded_args(c,
            v), lone_arg("health-start-period"@, x@))),
        older(v, PodmanVersion { major: 4, minor: 5 }) && proceeds(c, v)
            ==> (c.health_startup_cmd matches Some(x) ==> args_hold(container_downgraded_args(c, v),
            lone_arg("health-startup-cmd"@, x@))),
        older(v, PodmanVersion { major: 4, minor: 5 }) && proceeds(c, v)
            ==> (c.health_startup_interval matches Some(x)
            ==> args_hold(container_downgraded_args(c, v), lone_arg("health-startup-interval"@,
            x@))),
        older(v, PodmanVersion { major: 4, minor: 5 }) && proceeds(c, v)
            ==> (c.health_startup_retries matches Some(x) ==> args_hold(container_downgraded_args(c,
            v), lone_arg("health-startup-retries"@, decimal(x as nat)))),
        older(v, PodmanVersion { major: 4, minor: 5 }) && proceeds(c, v)
            ==> (c.health_startup_success matches Some(x) ==> args_hold(container_downgraded_args(c,
            v), lone_arg("health-startup-success"@, decimal(x as nat)))),
        older(v, PodmanVersion { major: 4, minor: 5 }) && proceeds(c, v)
            ==> (c.health_startup_timeout matches Some(x) ==> args_hold(container_downgraded_args(c,
            v), lone_arg("health-startup-timeout"@, x@))),
        older(v, PodmanVersion { major: 4, minor: 5 }) && proceeds(c, v)
            ==> (c.health_timeout matches Some(x) ==> args_hold(container_downgraded_args(c, v),
            lone_arg("health-timeout"@, x@))),
        older(v, PodmanVersion { major: 4, minor: 5 }) && proceeds(c, v)
            ==> (forall|i: int| 0 <= i < c.tmpfs@.len() ==> args_hold(container_downgraded_args(c,
            v), lone_arg("tmpfs"@, (#[trigger] c.tmpfs@[i])@))),
        older(v, PodmanVersion { major: 4, minor: 5 }) && proceeds(c, v)
            ==> (c.user_ns matches Some(x) ==> args_hold(container_downgraded_args(c, v),
            lone_arg("userns"@, x@))),
        older(v, PodmanVersion { major: 5, minor: 0 }) && proceeds(c,
            v) && c.notify == Notify::Healthy
            ==> args_hold(container_downgraded_args(c, v), with_podman_arg(None, "sdnotify"@,
                "healthy"@)),
        older(v, PodmanVersion { major: 4, minor: 8 }) && proceeds(c, v) && !c.read_only_tmpfs
            ==> args_hold(container_downgraded_args(c, v), "--read-only-tmpfs=false"@),
        older(v, PodmanVersion { major: 4, minor: 6 }) && proceeds(c, v) && c.security_label_nested
            ==> args_hold(container_downgraded_args(c, v), with_podman_arg(None, "security-opt"@,
                "label=nested"@)),
        older(v, PodmanVersion { major: 4, minor: 6 }) && proceeds(c, v) && c.mask@.len() > 0
            ==> args_hold(
                container_downgraded_args(c, v),
                with_podman_arg(None, "security-opt"@,
                    "mask="@ + unmask_joined(UnmaskView::Paths(c.mask.deep_view()))),
            ),
        c.unmask matches Some(u) ==> older(v, PodmanVersion { major: 4, minor: 6 }) && proceeds(c,
            v)
            ==> args_hold(
                container_downgraded_args(c, v),
                with_podman_arg(None, "security-opt"@, "unmask="@ + unmask_joined(u@)),
            ),
{
    downgrade_keeps_entrypoint(c, v);
    downgrade_keeps_stop_timeout(c, v);
    downgrade_keeps_gid_map(c, v);
    downgrade_keeps_sub_gid_map(c, v);
    downgrade_keeps_sub_uid_map(c, v);
    downgrade_keeps_uid_map(c, v);
    downgrade_keeps_dns(c, v);
    downgrade_keeps_dns_option(c, v);
    downgrade_keeps_dns_search(c, v);
    downgrade_keeps_pids_limit(c, v);
    downgrade_keeps_shm_size(c, v);
    downgrade_keeps_ulimit(c, v);
    downgrade_keeps_sysctl(c, v);
    downgrade_keeps_host_name(c, v);
    downgrade_keeps_pull(c, v);
    downgrade_keeps_working_dir(c, v);
    downgrade_keeps_rootfs(c, v);
    downgrade_keeps_secret(c, v);
    downgrade_keeps_log_driver(c, v);
    downgrade_keeps_mount(c, v);
    downgrade_keeps_ip(c, v);
    downgrade_keeps_ip6(c, v);
    downgrade_keeps_health_interval(c, v);
    downgrade_keeps_health_on_failure(c, v);
    downgrade_keeps_health_retries(c, v);
    downgrade_keeps_health_start_period(c, v);
    downgrade_keeps_health_startup_cmd(c, v);
    downgrade_keeps_health_startup_interval(c, v);
    downgrade_keeps_health_startup_retries(c, v);
    downgrade_keeps_health_startup_success(c, v);
    downgrade_keeps_health_startup_timeout(c, v);
    downgrade_keeps_health_timeout(c, v);
    downgrade_keeps_tmpfs(c, v);
    downgrade_keeps_user_ns(c, v);
    downgrade_keeps_special_options(c, v);
}

} // verus!
