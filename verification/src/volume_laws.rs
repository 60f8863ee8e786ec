//! Volume options text parses back to the options it was written from.

use vstd::prelude::*;

use crate::idmap::{Mapping, idmap_round_trip, idmap_text, lemma_idmap_text_free};
use crate::mount_laws::{items_ok, text_ok};
use crate::mount_opts::{BindPropagation, SELinuxRelabel, propagation_name, propagation_round_trip, relabel_char};
use crate::text::{has_char, join, lemma_concat_free, lemma_free, lemma_join_push, lemma_len_ne, lemma_ne, lemma_split_join, lemma_split_once_concat, lemma_split_once_none, push_if, split, split_terminator, strip_prefix};
use crate::volume::{OptionsErr, OptionsView, SourceView, VolumeErr, VolumeView, default_options, fold_options, option_items, option_name_value, option_step, options_text, overlay_text, parse_options, parse_volume, source_of, source_text, volume_text};

verus! {

/// The options written before the overlay: read-only and relabeling.
spec fn head_items(o: OptionsView) -> Seq<Seq<char>> {
    let a = push_if(Seq::<Seq<char>>::empty(), o.read_only, "ro"@);
    match o.selinux_relabel {
        Some(r) => a.push(seq![relabel_char(r)]),
        None => a,
    }
}

/// The idmap option: bare for an empty idmap.
spec fn idmap_piece(m: (Seq<Mapping>, Seq<Mapping>)) -> Seq<char> {
    if m.0.len() == 0 && m.1.len() == 0 {
        "idmap"@
    } else {
        "idmap="@ + idmap_text(m.0, m.1)
    }
}

/// The options written after the overlay, appended to `c`.
spec fn tail_items(c: Seq<Seq<char>>, o: OptionsView) -> Seq<Seq<char>> {
    let d = push_if(c, o.chown, seq!['U']);
    let e = push_if(d, o.no_copy, "nocopy"@);
    let f = push_if(e, o.devices, "dev"@);
    let g = push_if(f, o.no_executables, "noexec"@);
    let h = push_if(g, o.suid, "suid"@);
    let i = push_if(h, o.recursive_bind, "rbind"@);
    let j = push_if(
        i,
        o.bind_propagation != BindPropagation::RPrivate,
        propagation_name(o.bind_propagation),
    );
    match o.idmap {
        Some(m) => j.push(idmap_piece(m)),
        None => j,
    }
}

/// The overlay option split at its ','s.
spec fn overlay_pieces(up: Option<Seq<char>>, work: Option<Seq<char>>) -> Seq<Seq<char>> {
    let a = push_if(seq![seq!['O']], up is Some, "upperdir="@ + up->Some_0);
    push_if(a, work is Some, "workdir="@ + work->Some_0)
}

/// The written options text cut at its ','s.
spec fn option_pieces(o: OptionsView) -> Seq<Seq<char>> {
    let b = head_items(o);
    tail_items(
        match o.overlay {
            Some((u, w)) => b + overlay_pieces(u, w),
            None => b,
        },
        o,
    )
}

/// The written options, as a head, the overlay option and a tail.
proof fn lemma_items_parts(o: OptionsView)
    ensures
        option_items(o) == tail_items(
            match o.overlay {
                Some((u, w)) => head_items(o).push(overlay_text(u, w)),
                None => head_items(o),
            },
            o,
        ),
{
    assert(match o.idmap {
        Some(m) => idmap_piece(m) == if m.0.len() == 0 && m.1.len() == 0 {
            "idmap"@
        } else {
            "idmap="@ + idmap_text(m.0, m.1)
        },
        None => true,
    });
}

/// Appending one piece to both of two lists with the same joined text keeps it the same.
proof fn lemma_join_same(c1: Seq<Seq<char>>, c2: Seq<Seq<char>>, cond: bool, x: Seq<char>)
    requires
        c1.len() >= 1,
        c2.len() >= 1,
        join(c1, seq![',']) == join(c2, seq![',']),
    ensures
        push_if(c1, cond, x).len() >= 1,
        push_if(c2, cond, x).len() >= 1,
        join(push_if(c1, cond, x), seq![',']) == join(push_if(c2, cond, x), seq![',']),
{
    if cond {
        lemma_join_push(c1, x, seq![',']);
        lemma_join_push(c2, x, seq![',']);
    }
}

/// The tail keeps two lists with the same joined text the same.
proof fn lemma_tail_same(c1: Seq<Seq<char>>, c2: Seq<Seq<char>>, o: OptionsView)
    requires
        c1.len() >= 1,
        c2.len() >= 1,
        join(c1, seq![',']) == join(c2, seq![',']),
    ensures
        join(tail_items(c1, o), seq![',']) == join(tail_items(c2, o), seq![',']),
{
    lemma_join_same(c1, c2, o.chown, seq!['U']);
    let d1 = push_if(c1, o.chown, seq!['U']);
    let d2 = push_if(c2, o.chown, seq!['U']);
    lemma_join_same(d1, d2, o.no_copy, "nocopy"@);
    let e1 = push_if(d1, o.no_copy, "nocopy"@);
    let e2 = push_if(d2, o.no_copy, "nocopy"@);
    lemma_join_same(e1, e2, o.devices, "dev"@);
    let f1 = push_if(e1, o.devices, "dev"@);
    let f2 = push_if(e2, o.devices, "dev"@);
    lemma_join_same(f1, f2, o.no_executables, "noexec"@);
    let g1 = push_if(f1, o.no_executables, "noexec"@);
    let g2 = push_if(f2, o.no_executables, "noexec"@);
    lemma_join_same(g1, g2, o.suid, "suid"@);
    let h1 = push_if(g1, o.suid, "suid"@);
    let h2 = push_if(g2, o.suid, "suid"@);
    lemma_join_same(h1, h2, o.recursive_bind, "rbind"@);
    let i1 = push_if(h1, o.recursive_bind, "rbind"@);
    let i2 = push_if(h2, o.recursive_bind, "rbind"@);
    let cp = o.bind_propagation != BindPropagation::RPrivate;
    let pn = propagation_name(o.bind_propagation);
    lemma_join_same(i1, i2, cp, pn);
    let j1 = push_if(i1, cp, pn);
    let j2 = push_if(i2, cp, pn);
    lemma_join_same(j1, j2, o.idmap is Some, idmap_piece(o.idmap->Some_0));
}

/// The overlay option, joined with the rest, reads as its pieces joined.
proof fn lemma_overlay_join(b: Seq<Seq<char>>, up: Option<Seq<char>>, work: Option<Seq<char>>)
    ensures
        join(b.push(overlay_text(up, work)), seq![',']) == join(b + overlay_pieces(up, work), seq![',']),
        (b + overlay_pieces(up, work)).len() >= 1,
{
    reveal_strlit(",upperdir=");
    reveal_strlit("upperdir=");
    reveal_strlit(",workdir=");
    reveal_strlit("workdir=");
    assert(",upperdir="@ =~= seq![','] + "upperdir="@);
    assert(",workdir="@ =~= seq![','] + "workdir="@);
    let sep = seq![','];
    let o1 = seq![seq!['O']];
    let u = "upperdir="@ + up->Some_0;
    let w = "workdir="@ + work->Some_0;
    let a1 = push_if(o1, up is Some, u);
    assert(b + o1 =~= b.push(seq!['O']));
    assert(b + a1 =~= push_if(b.push(seq!['O']), up is Some, u));
    assert(b + overlay_pieces(up, work) =~= push_if(b + a1, work is Some, w));
    lemma_join_push(b, seq!['O'], sep);
    lemma_join_push(b, overlay_text(up, work), sep);
    let p = b.push(seq!['O']);
    lemma_join_push(p, u, sep);
    let q = push_if(p, up is Some, u);
    lemma_join_push(q, w, sep);
    let pre = if b.len() == 0 {
        Seq::<char>::empty()
    } else {
        join(b, sep) + sep
    };
    assert(join(p, sep) =~= pre + seq!['O']);
    let up_text = match up {
        Some(x) => ",upperdir="@ + x,
        None => Seq::<char>::empty(),
    };
    let work_text = match work {
        Some(x) => ",workdir="@ + x,
        None => Seq::<char>::empty(),
    };
    assert(join(q, sep) =~= pre + seq!['O'] + up_text);
    assert(join(b + overlay_pieces(up, work), sep) =~= pre + seq!['O'] + up_text + work_text);
    assert(join(b.push(overlay_text(up, work)), sep) =~= pre + (seq!['O'] + up_text + work_text));
}

/// The written options text joins the same as its pieces.
#[verifier::spinoff_prover]
#[verifier::rlimit(40)]
proof fn lemma_pieces_join(o: OptionsView)
    ensures
        join(option_items(o), seq![',']) == join(option_pieces(o), seq![',']),
        option_items(o).len() == 0 <==> option_pieces(o).len() == 0,
{
    lemma_items_parts(o);
    let b = head_items(o);
    match o.overlay {
        Some((u, w)) => {
            lemma_overlay_join(b, u, w);
            assert(b.push(overlay_text(u, w)).len() >= 1);
            lemma_tail_same(b.push(overlay_text(u, w)), b + overlay_pieces(u, w), o);
        },
        None => {},
    }
}

/// Applying one more option when `cond` holds.
proof fn lemma_apply(r: Seq<Seq<char>>, v: OptionsView, cond: bool, x: Seq<char>, w: OptionsView)
    requires
        items_ok(r),
        fold_options(r) == Ok::<OptionsView, OptionsErr>(v),
        cond ==> text_ok(x),
        cond ==> option_step(v, x) == Ok::<OptionsView, OptionsErr>(w),
        !cond ==> w == v,
    ensures
        items_ok(push_if(r, cond, x)),
        fold_options(push_if(r, cond, x)) == Ok::<OptionsView, OptionsErr>(w),
{
    if cond {
        let q = r.push(x);
        assert(q.drop_last() =~= r);
        assert forall|k: int| 0 <= k < q.len() implies text_ok(#[trigger] q[k]) by {
            if k < r.len() {
                assert(q[k] == r[k]);
            }
        }
    }
}

/// An option of one letter or word, without '=' or ','.
proof fn lemma_word(w: Seq<char>)
    requires
        w.len() > 0,
        forall|i: int| 0 <= i < w.len() ==> #[trigger] w[i] != '=' && w[i] != ',',
    ensures
        text_ok(w),
        option_name_value(w) == (w, None::<Seq<char>>),
{
    lemma_free(w, '=');
    lemma_free(w, ',');
    lemma_split_once_none(w, '=');
}

/// The flag options that set a field away from its default.
proof fn lemma_flag_tokens(v: OptionsView)
    ensures
        text_ok("ro"@),
        option_step(v, "ro"@) == Ok::<OptionsView, OptionsErr>(OptionsView { read_only: true, ..v }),
        text_ok(seq!['z']),
        option_step(v, seq!['z']) == Ok::<OptionsView, OptionsErr>(
            OptionsView { selinux_relabel: Some(SELinuxRelabel::Shared), ..v },
        ),
        text_ok(seq!['Z']),
        option_step(v, seq!['Z']) == Ok::<OptionsView, OptionsErr>(
            OptionsView { selinux_relabel: Some(SELinuxRelabel::Private), ..v },
        ),
        text_ok(seq!['U']),
        option_step(v, seq!['U']) == Ok::<OptionsView, OptionsErr>(OptionsView { chown: true, ..v }),
        text_ok("nocopy"@),
        option_step(v, "nocopy"@) == Ok::<OptionsView, OptionsErr>(OptionsView { no_copy: true, ..v }),
        text_ok("dev"@),
        option_step(v, "dev"@) == Ok::<OptionsView, OptionsErr>(OptionsView { devices: true, ..v }),
        text_ok("noexec"@),
        option_step(v, "noexec"@) == Ok::<OptionsView, OptionsErr>(
            OptionsView { no_executables: true, ..v },
        ),
        text_ok("suid"@),
        option_step(v, "suid"@) == Ok::<OptionsView, OptionsErr>(OptionsView { suid: true, ..v }),
        text_ok("rbind"@),
        option_step(v, "rbind"@) == Ok::<OptionsView, OptionsErr>(
            OptionsView { recursive_bind: true, ..v },
        ),
{
    reveal_strlit("rw");
    reveal_strlit("ro");
    reveal_strlit("z");
    reveal_strlit("Z");
    reveal_strlit("U");
    reveal_strlit("nocopy");
    reveal_strlit("copy");
    reveal_strlit("nodev");
    reveal_strlit("dev");
    reveal_strlit("noexec");
    reveal_strlit("exec");
    reveal_strlit("nosuid");
    reveal_strlit("suid");
    reveal_strlit("rbind");
    reveal_strlit("bind");
    assert("z"@ =~= seq!['z']);
    assert("Z"@ =~= seq!['Z']);
    assert("U"@ =~= seq!['U']);
    lemma_ne("ro"@, "rw"@, 1);
    lemma_ne("z"@, "rw"@, 0);
    lemma_ne("z"@, "ro"@, 0);
    lemma_ne("Z"@, "rw"@, 0);
    lemma_ne("Z"@, "ro"@, 0);
    lemma_ne("Z"@, "z"@, 0);
    lemma_ne("U"@, "rw"@, 0);
    lemma_ne("U"@, "ro"@, 0);
    lemma_ne("U"@, "z"@, 0);
    lemma_ne("U"@, "Z"@, 0);
    lemma_ne("nocopy"@, "rw"@, 0);
    lemma_ne("nocopy"@, "ro"@, 0);
    lemma_ne("nocopy"@, "z"@, 0);
    lemma_ne("nocopy"@, "Z"@, 0);
    lemma_ne("nocopy"@, "U"@, 0);
    lemma_ne("dev"@, "rw"@, 0);
    lemma_ne("dev"@, "ro"@, 0);
    lemma_ne("dev"@, "z"@, 0);
    lemma_ne("dev"@, "Z"@, 0);
    lemma_ne("dev"@, "U"@, 0);
    lemma_ne("dev"@, "nocopy"@, 0);
    lemma_ne("dev"@, "copy"@, 0);
    lemma_ne("dev"@, "nodev"@, 0);
    lemma_ne("noexec"@, "rw"@, 0);
    lemma_ne("noexec"@, "ro"@, 0);
    lemma_ne("noexec"@, "z"@, 0);
    lemma_ne("noexec"@, "Z"@, 0);
    lemma_ne("noexec"@, "U"@, 0);
    lemma_ne("noexec"@, "nocopy"@, 2);
    lemma_ne("noexec"@, "copy"@, 0);
    lemma_ne("noexec"@, "nodev"@, 2);
    lemma_ne("noexec"@, "dev"@, 0);
    lemma_ne("suid"@, "rw"@, 0);
    lemma_ne("suid"@, "ro"@, 0);
    lemma_ne("suid"@, "z"@, 0);
    lemma_ne("suid"@, "Z"@, 0);
    lemma_ne("suid"@, "U"@, 0);
    lemma_ne("suid"@, "nocopy"@, 0);
    lemma_ne("suid"@, "copy"@, 0);
    lemma_ne("suid"@, "nodev"@, 0);
    lemma_ne("suid"@, "dev"@, 0);
    lemma_ne("suid"@, "noexec"@, 0);
    lemma_ne("suid"@, "exec"@, 0);
    lemma_ne("suid"@, "nosuid"@, 0);
    lemma_ne("rbind"@, "rw"@, 1);
    lemma_ne("rbind"@, "ro"@, 1);
    lemma_ne("rbind"@, "z"@, 0);
    lemma_ne("rbind"@, "Z"@, 0);
    lemma_ne("rbind"@, "U"@, 0);
    lemma_ne("rbind"@, "nocopy"@, 0);
    lemma_ne("rbind"@, "copy"@, 0);
    lemma_ne("rbind"@, "nodev"@, 0);
    lemma_ne("rbind"@, "dev"@, 0);
    lemma_ne("rbind"@, "noexec"@, 0);
    lemma_ne("rbind"@, "exec"@, 0);
    lemma_ne("rbind"@, "nosuid"@, 0);
    lemma_ne("rbind"@, "suid"@, 0);
    lemma_word("ro"@);
    lemma_word(seq!['z']);
    lemma_word(seq!['Z']);
    lemma_word(seq!['U']);
    lemma_word("nocopy"@);
    lemma_word("dev"@);
    lemma_word("noexec"@);
    lemma_word("suid"@);
    lemma_word("rbind"@);
}

/// The names of the options that take values, and of the bind propagations, are no flags.
proof fn lemma_valued_names()
    ensures
        "shared"@ != "rw"@,
        "shared"@ != "ro"@,
        "shared"@ != "z"@,
        "shared"@ != "Z"@,
        "shared"@ != "U"@,
        "shared"@ != "nocopy"@,
        "shared"@ != "copy"@,
        "shared"@ != "nodev"@,
        "shared"@ != "dev"@,
        "shared"@ != "noexec"@,
        "shared"@ != "exec"@,
        "shared"@ != "nosuid"@,
        "shared"@ != "suid"@,
        "shared"@ != "rbind"@,
        "shared"@ != "bind"@,
        "shared"@ != "O"@,
        "shared"@ != "upperdir"@,
        "shared"@ != "workdir"@,
        "shared"@ != "idmap"@,
        "slave"@ != "rw"@,
        "slave"@ != "ro"@,
        "slave"@ != "z"@,
        "slave"@ != "Z"@,
        "slave"@ != "U"@,
        "slave"@ != "nocopy"@,
        "slave"@ != "copy"@,
        "slave"@ != "nodev"@,
        "slave"@ != "dev"@,
        "slave"@ != "noexec"@,
        "slave"@ != "exec"@,
        "slave"@ != "nosuid"@,
        "slave"@ != "suid"@,
        "slave"@ != "rbind"@,
        "slave"@ != "bind"@,
        "slave"@ != "O"@,
        "slave"@ != "upperdir"@,
        "slave"@ != "workdir"@,
        "slave"@ != "idmap"@,
        "private"@ != "rw"@,
        "private"@ != "ro"@,
        "private"@ != "z"@,
        "private"@ != "Z"@,
        "private"@ != "U"@,
        "private"@ != "nocopy"@,
        "private"@ != "copy"@,
        "private"@ != "nodev"@,
        "private"@ != "dev"@,
        "private"@ != "noexec"@,
        "private"@ != "exec"@,
        "private"@ != "nosuid"@,
        "private"@ != "suid"@,
        "private"@ != "rbind"@,
        "private"@ != "bind"@,
        "private"@ != "O"@,
        "private"@ != "upperdir"@,
        "private"@ != "workdir"@,
        "private"@ != "idmap"@,
        "unbindable"@ != "rw"@,
        "unbindable"@ != "ro"@,
        "unbindable"@ != "z"@,
        "unbindable"@ != "Z"@,
        "unbindable"@ != "U"@,
        "unbindable"@ != "nocopy"@,
        "unbindable"@ != "copy"@,
        "unbindable"@ != "nodev"@,
        "unbindable"@ != "dev"@,
        "unbindable"@ != "noexec"@,
        "unbindable"@ != "exec"@,
        "unbindable"@ != "nosuid"@,
        "unbindable"@ != "suid"@,
        "unbindable"@ != "rbind"@,
        "unbindable"@ != "bind"@,
        "unbindable"@ != "O"@,
        "unbindable"@ != "upperdir"@,
        "unbindable"@ != "workdir"@,
        "unbindable"@ != "idmap"@,
        "rshared"@ != "rw"@,
        "rshared"@ != "ro"@,
        "rshared"@ != "z"@,
        "rshared"@ != "Z"@,
        "rshared"@ != "U"@,
        "rshared"@ != "nocopy"@,
        "rshared"@ != "copy"@,
        "rshared"@ != "nodev"@,
        "rshared"@ != "dev"@,
        "rshared"@ != "noexec"@,
        "rshared"@ != "exec"@,
        "rshared"@ != "nosuid"@,
        "rshared"@ != "suid"@,
        "rshared"@ != "rbind"@,
        "rshared"@ != "bind"@,
        "rshared"@ != "O"@,
        "rshared"@ != "upperdir"@,
        "rshared"@ != "workdir"@,
        "rshared"@ != "idmap"@,
        "rslave"@ != "rw"@,
        "rslave"@ != "ro"@,
        "rslave"@ != "z"@,
        "rslave"@ != "Z"@,
        "rslave"@ != "U"@,
        "rslave"@ != "nocopy"@,
        "rslave"@ != "copy"@,
        "rslave"@ != "nodev"@,
        "rslave"@ != "dev"@,
        "rslave"@ != "noexec"@,
        "rslave"@ != "exec"@,
        "rslave"@ != "nosuid"@,
        "rslave"@ != "suid"@,
        "rslave"@ != "rbind"@,
        "rslave"@ != "bind"@,
        "rslave"@ != "O"@,
        "rslave"@ != "upperdir"@,
        "rslave"@ != "workdir"@,
        "rslave"@ != "idmap"@,
        "runbindable"@ != "rw"@,
        "runbindable"@ != "ro"@,
        "runbindable"@ != "z"@,
        "runbindable"@ != "Z"@,
        "runbindable"@ != "U"@,
        "runbindable"@ != "nocopy"@,
        "runbindable"@ != "copy"@,
        "runbindable"@ != "nodev"@,
        "runbindable"@ != "dev"@,
        "runbindable"@ != "noexec"@,
        "runbindable"@ != "exec"@,
        "runbindable"@ != "nosuid"@,
        "runbindable"@ != "suid"@,
        "runbindable"@ != "rbind"@,
        "runbindable"@ != "bind"@,
        "runbindable"@ != "O"@,
        "runbindable"@ != "upperdir"@,
        "runbindable"@ != "workdir"@,
        "runbindable"@ != "idmap"@,
        "rprivate"@ != "rw"@,
        "rprivate"@ != "ro"@,
        "rprivate"@ != "z"@,
        "rprivate"@ != "Z"@,
        "rprivate"@ != "U"@,
        "rprivate"@ != "nocopy"@,
        "rprivate"@ != "copy"@,
        "rprivate"@ != "nodev"@,
        "rprivate"@ != "dev"@,
        "rprivate"@ != "noexec"@,
        "rprivate"@ != "exec"@,
        "rprivate"@ != "nosuid"@,
        "rprivate"@ != "suid"@,
        "rprivate"@ != "rbind"@,
        "rprivate"@ != "bind"@,
        "rprivate"@ != "O"@,
        "rprivate"@ != "upperdir"@,
        "rprivate"@ != "workdir"@,
        "rprivate"@ != "idmap"@,
        "O"@ != "rw"@,
        "O"@ != "ro"@,
        "O"@ != "z"@,
        "O"@ != "Z"@,
        "O"@ != "U"@,
        "O"@ != "nocopy"@,
        "O"@ != "copy"@,
        "O"@ != "nodev"@,
        "O"@ != "dev"@,
        "O"@ != "noexec"@,
        "O"@ != "exec"@,
        "O"@ != "nosuid"@,
        "O"@ != "suid"@,
        "O"@ != "rbind"@,
        "O"@ != "bind"@,
        "upperdir"@ != "rw"@,
        "upperdir"@ != "ro"@,
        "upperdir"@ != "z"@,
        "upperdir"@ != "Z"@,
        "upperdir"@ != "U"@,
        "upperdir"@ != "nocopy"@,
        "upperdir"@ != "copy"@,
        "upperdir"@ != "nodev"@,
        "upperdir"@ != "dev"@,
        "upperdir"@ != "noexec"@,
        "upperdir"@ != "exec"@,
        "upperdir"@ != "nosuid"@,
        "upperdir"@ != "suid"@,
        "upperdir"@ != "rbind"@,
        "upperdir"@ != "bind"@,
        "upperdir"@ != "O"@,
        "workdir"@ != "rw"@,
        "workdir"@ != "ro"@,
        "workdir"@ != "z"@,
        "workdir"@ != "Z"@,
        "workdir"@ != "U"@,
        "workdir"@ != "nocopy"@,
        "workdir"@ != "copy"@,
        "workdir"@ != "nodev"@,
        "workdir"@ != "dev"@,
        "workdir"@ != "noexec"@,
        "workdir"@ != "exec"@,
        "workdir"@ != "nosuid"@,
        "workdir"@ != "suid"@,
        "workdir"@ != "rbind"@,
        "workdir"@ != "bind"@,
        "workdir"@ != "O"@,
        "workdir"@ != "upperdir"@,
        "idmap"@ != "rw"@,
        "idmap"@ != "ro"@,
        "idmap"@ != "z"@,
        "idmap"@ != "Z"@,
        "idmap"@ != "U"@,
        "idmap"@ != "nocopy"@,
        "idmap"@ != "copy"@,
        "idmap"@ != "nodev"@,
        "idmap"@ != "dev"@,
        "idmap"@ != "noexec"@,
        "idmap"@ != "exec"@,
        "idmap"@ != "nosuid"@,
        "idmap"@ != "suid"@,
        "idmap"@ != "rbind"@,
        "idmap"@ != "bind"@,
        "idmap"@ != "O"@,
        "idmap"@ != "upperdir"@,
        "idmap"@ != "workdir"@,
{
    reveal_strlit("rw");
    reveal_strlit("ro");
    reveal_strlit("z");
    reveal_strlit("Z");
    reveal_strlit("U");
    reveal_strlit("nocopy");
    reveal_strlit("copy");
    reveal_strlit("nodev");
    reveal_strlit("dev");
    reveal_strlit("noexec");
    reveal_strlit("exec");
    reveal_strlit("nosuid");
    reveal_strlit("suid");
    reveal_strlit("rbind");
    reveal_strlit("bind");
    reveal_strlit("O");
    reveal_strlit("upperdir");
    reveal_strlit("workdir");
    reveal_strlit("idmap");
    reveal_strlit("shared");
    reveal_strlit("slave");
    reveal_strlit("private");
    reveal_strlit("unbindable");
    reveal_strlit("rshared");
    reveal_strlit("rslave");
    reveal_strlit("runbindable");
    reveal_strlit("rprivate");
    lemma_ne("O"@, "rw"@, 0);
    lemma_ne("O"@, "ro"@, 0);
    lemma_ne("O"@, "z"@, 0);
    lemma_ne("O"@, "Z"@, 0);
    lemma_ne("O"@, "U"@, 0);
    lemma_ne("O"@, "nocopy"@, 0);
    lemma_ne("O"@, "copy"@, 0);
    lemma_ne("O"@, "nodev"@, 0);
    lemma_ne("O"@, "dev"@, 0);
    lemma_ne("O"@, "noexec"@, 0);
    lemma_ne("O"@, "exec"@, 0);
    lemma_ne("O"@, "nosuid"@, 0);
    lemma_ne("O"@, "suid"@, 0);
    lemma_ne("O"@, "rbind"@, 0);
    lemma_ne("O"@, "bind"@, 0);
    lemma_ne("upperdir"@, "rw"@, 0);
    lemma_ne("upperdir"@, "ro"@, 0);
    lemma_ne("upperdir"@, "z"@, 0);
    lemma_ne("upperdir"@, "Z"@, 0);
    lemma_ne("upperdir"@, "U"@, 0);
    lemma_ne("upperdir"@, "nocopy"@, 0);
    lemma_ne("upperdir"@, "copy"@, 0);
    lemma_ne("upperdir"@, "nodev"@, 0);
    lemma_ne("upperdir"@, "dev"@, 0);
    lemma_ne("upperdir"@, "noexec"@, 0);
    lemma_ne("upperdir"@, "exec"@, 0);
    lemma_ne("upperdir"@, "nosuid"@, 0);
    lemma_ne("upperdir"@, "suid"@, 0);
    lemma_ne("upperdir"@, "rbind"@, 0);
    lemma_ne("upperdir"@, "bind"@, 0);
    lemma_ne("upperdir"@, "O"@, 0);
    lemma_ne("workdir"@, "rw"@, 0);
    lemma_ne("workdir"@, "ro"@, 0);
    lemma_ne("workdir"@, "z"@, 0);
    lemma_ne("workdir"@, "Z"@, 0);
    lemma_ne("workdir"@, "U"@, 0);
    lemma_ne("workdir"@, "nocopy"@, 0);
    lemma_ne("workdir"@, "copy"@, 0);
    lemma_ne("workdir"@, "nodev"@, 0);
    lemma_ne("workdir"@, "dev"@, 0);
    lemma_ne("workdir"@, "noexec"@, 0);
    lemma_ne("workdir"@, "exec"@, 0);
    lemma_ne("workdir"@, "nosuid"@, 0);
    lemma_ne("workdir"@, "suid"@, 0);
    lemma_ne("workdir"@, "rbind"@, 0);
    lemma_ne("workdir"@, "bind"@, 0);
    lemma_ne("workdir"@, "O"@, 0);
    lemma_ne("workdir"@, "upperdir"@, 0);
    lemma_ne("idmap"@, "rw"@, 0);
    lemma_ne("idmap"@, "ro"@, 0);
    lemma_ne("idmap"@, "z"@, 0);
    lemma_ne("idmap"@, "Z"@, 0);
    lemma_ne("idmap"@, "U"@, 0);
    lemma_ne("idmap"@, "nocopy"@, 0);
    lemma_ne("idmap"@, "copy"@, 0);
    lemma_ne("idmap"@, "nodev"@, 0);
    lemma_ne("idmap"@, "dev"@, 0);
    lemma_ne("idmap"@, "noexec"@, 0);
    lemma_ne("idmap"@, "exec"@, 0);
    lemma_ne("idmap"@, "nosuid"@, 0);
    lemma_ne("idmap"@, "suid"@, 0);
    lemma_ne("idmap"@, "rbind"@, 0);
    lemma_ne("idmap"@, "bind"@, 0);
    lemma_ne("idmap"@, "O"@, 0);
    lemma_ne("idmap"@, "upperdir"@, 0);
    lemma_ne("idmap"@, "workdir"@, 0);
    lemma_ne("shared"@, "rw"@, 0);
    lemma_ne("shared"@, "ro"@, 0);
    lemma_ne("shared"@, "z"@, 0);
    lemma_ne("shared"@, "Z"@, 0);
    lemma_ne("shared"@, "U"@, 0);
    lemma_ne("shared"@, "nocopy"@, 0);
    lemma_ne("shared"@, "copy"@, 0);
    lemma_ne("shared"@, "nodev"@, 0);
    lemma_ne("shared"@, "dev"@, 0);
    lemma_ne("shared"@, "noexec"@, 0);
    lemma_ne("shared"@, "exec"@, 0);
    lemma_ne("shared"@, "nosuid"@, 0);
    lemma_ne("shared"@, "suid"@, 1);
    lemma_ne("shared"@, "rbind"@, 0);
    lemma_ne("shared"@, "bind"@, 0);
    lemma_ne("shared"@, "O"@, 0);
    lemma_ne("shared"@, "upperdir"@, 0);
    lemma_ne("shared"@, "workdir"@, 0);
    lemma_ne("shared"@, "idmap"@, 0);
    lemma_ne("slave"@, "rw"@, 0);
    lemma_ne("slave"@, "ro"@, 0);
    lemma_ne("slave"@, "z"@, 0);
    lemma_ne("slave"@, "Z"@, 0);
    lemma_ne("slave"@, "U"@, 0);
    lemma_ne("slave"@, "nocopy"@, 0);
    lemma_ne("slave"@, "copy"@, 0);
    lemma_ne("slave"@, "nodev"@, 0);
    lemma_ne("slave"@, "dev"@, 0);
    lemma_ne("slave"@, "noexec"@, 0);
    lemma_ne("slave"@, "exec"@, 0);
    lemma_ne("slave"@, "nosuid"@, 0);
    lemma_ne("slave"@, "suid"@, 1);
    lemma_ne("slave"@, "rbind"@, 0);
    lemma_ne("slave"@, "bind"@, 0);
    lemma_ne("slave"@, "O"@, 0);
    lemma_ne("slave"@, "upperdir"@, 0);
    lemma_ne("slave"@, "workdir"@, 0);
    lemma_ne("slave"@, "idmap"@, 0);
    lemma_ne("private"@, "rw"@, 0);
    lemma_ne("private"@, "ro"@, 0);
    lemma_ne("private"@, "z"@, 0);
    lemma_ne("private"@, "Z"@, 0);
    lemma_ne("private"@, "U"@, 0);
    lemma_ne("private"@, "nocopy"@, 0);
    lemma_ne("private"@, "copy"@, 0);
    lemma_ne("private"@, "nodev"@, 0);
    lemma_ne("private"@, "dev"@, 0);
    lemma_ne("private"@, "noexec"@, 0);
    lemma_ne("private"@, "exec"@, 0);
    lemma_ne("private"@, "nosuid"@, 0);
    lemma_ne("private"@, "suid"@, 0);
    lemma_ne("private"@, "rbind"@, 0);
    lemma_ne("private"@, "bind"@, 0);
    lemma_ne("private"@, "O"@, 0);
    lemma_ne("private"@, "upperdir"@, 0);
    lemma_ne("private"@, "workdir"@, 0);
    lemma_ne("private"@, "idmap"@, 0);
    lemma_ne("unbindable"@, "rw"@, 0);
    lemma_ne("unbindable"@, "ro"@, 0);
    lemma_ne("unbindable"@, "z"@, 0);
    lemma_ne("unbindable"@, "Z"@, 0);
    lemma_ne("unbindable"@, "U"@, 0);
    lemma_ne("unbindable"@, "nocopy"@, 0);
    lemma_ne("unbindable"@, "copy"@, 0);
    lemma_ne("unbindable"@, "nodev"@, 0);
    lemma_ne("unbindable"@, "dev"@, 0);
    lemma_ne("unbindable"@, "noexec"@, 0);
    lemma_ne("unbindable"@, "exec"@, 0);
    lemma_ne("unbindable"@, "nosuid"@, 0);
    lemma_ne("unbindable"@, "suid"@, 0);
    lemma_ne("unbindable"@, "rbind"@, 0);
    lemma_ne("unbindable"@, "bind"@, 0);
    lemma_ne("unbindable"@, "O"@, 0);
    lemma_ne("unbindable"@, "upperdir"@, 1);
    lemma_ne("unbindable"@, "workdir"@, 0);
    lemma_ne("unbindable"@, "idmap"@, 0);
    lemma_ne("rshared"@, "rw"@, 1);
    lemma_ne("rshared"@, "ro"@, 1);
    lemma_ne("rshared"@, "z"@, 0);
    lemma_ne("rshared"@, "Z"@, 0);
    lemma_ne("rshared"@, "U"@, 0);
    lemma_ne("rshared"@, "nocopy"@, 0);
    lemma_ne("rshared"@, "copy"@, 0);
    lemma_ne("rshared"@, "nodev"@, 0);
    lemma_ne("rshared"@, "dev"@, 0);
    lemma_ne("rshared"@, "noexec"@, 0);
    lemma_ne("rshared"@, "exec"@, 0);
    lemma_ne("rshared"@, "nosuid"@, 0);
    lemma_ne("rshared"@, "suid"@, 0);
    lemma_ne("rshared"@, "rbind"@, 1);
    lemma_ne("rshared"@, "bind"@, 0);
    lemma_ne("rshared"@, "O"@, 0);
    lemma_ne("rshared"@, "upperdir"@, 0);
    lemma_ne("rshared"@, "workdir"@, 0);
    lemma_ne("rshared"@, "idmap"@, 0);
    lemma_ne("rslave"@, "rw"@, 1);
    lemma_ne("rslave"@, "ro"@, 1);
    lemma_ne("rslave"@, "z"@, 0);
    lemma_ne("rslave"@, "Z"@, 0);
    lemma_ne("rslave"@, "U"@, 0);
    lemma_ne("rslave"@, "nocopy"@, 0);
    lemma_ne("rslave"@, "copy"@, 0);
    lemma_ne("rslave"@, "nodev"@, 0);
    lemma_ne("rslave"@, "dev"@, 0);
    lemma_ne("rslave"@, "noexec"@, 0);
    lemma_ne("rslave"@, "exec"@, 0);
    lemma_ne("rslave"@, "nosuid"@, 0);
    lemma_ne("rslave"@, "suid"@, 0);
    lemma_ne("rslave"@, "rbind"@, 1);
    lemma_ne("rslave"@, "bind"@, 0);
    lemma_ne("rslave"@, "O"@, 0);
    lemma_ne("rslave"@, "upperdir"@, 0);
    lemma_ne("rslave"@, "workdir"@, 0);
    lemma_ne("rslave"@, "idmap"@, 0);
    lemma_ne("runbindable"@, "rw"@, 1);
    lemma_ne("runbindable"@, "ro"@, 1);
    lemma_ne("runbindable"@, "z"@, 0);
    lemma_ne("runbindable"@, "Z"@, 0);
    lemma_ne("runbindable"@, "U"@, 0);
    lemma_ne("runbindable"@, "nocopy"@, 0);
    lemma_ne("runbindable"@, "copy"@, 0);
    lemma_ne("runbindable"@, "nodev"@, 0);
    lemma_ne("runbindable"@, "dev"@, 0);
    lemma_ne("runbindable"@, "noexec"@, 0);
    lemma_ne("runbindable"@, "exec"@, 0);
    lemma_ne("runbindable"@, "nosuid"@, 0);
    lemma_ne("runbindable"@, "suid"@, 0);
    lemma_ne("runbindable"@, "rbind"@, 1);
    lemma_ne("runbindable"@, "bind"@, 0);
    lemma_ne("runbindable"@, "O"@, 0);
    lemma_ne("runbindable"@, "upperdir"@, 0);
    lemma_ne("runbindable"@, "workdir"@, 0);
    lemma_ne("runbindable"@, "idmap"@, 0);
    lemma_ne("rprivate"@, "rw"@, 1);
    lemma_ne("rprivate"@, "ro"@, 1);
    lemma_ne("rprivate"@, "z"@, 0);
    lemma_ne("rprivate"@, "Z"@, 0);
    lemma_ne("rprivate"@, "U"@, 0);
    lemma_ne("rprivate"@, "nocopy"@, 0);
    lemma_ne("rprivate"@, "copy"@, 0);
    lemma_ne("rprivate"@, "nodev"@, 0);
    lemma_ne("rprivate"@, "dev"@, 0);
    lemma_ne("rprivate"@, "noexec"@, 0);
    lemma_ne("rprivate"@, "exec"@, 0);
    lemma_ne("rprivate"@, "nosuid"@, 0);
    lemma_ne("rprivate"@, "suid"@, 0);
    lemma_ne("rprivate"@, "rbind"@, 1);
    lemma_ne("rprivate"@, "bind"@, 0);
    lemma_ne("rprivate"@, "O"@, 0);
    lemma_ne("rprivate"@, "upperdir"@, 0);
    lemma_ne("rprivate"@, "workdir"@, 0);
    lemma_ne("rprivate"@, "idmap"@, 0);
}

/// The overlay option.
proof fn lemma_overlay_token(v: OptionsView)
    requires
        v.overlay is None,
    ensures
        text_ok(seq!['O']),
        option_step(v, seq!['O']) == Ok::<OptionsView, OptionsErr>(
            OptionsView { overlay: Some((None, None)), ..v },
        ),
{
    reveal_strlit("O");
    assert("O"@ =~= seq!['O']);
    lemma_valued_names();
    lemma_word(seq!['O']);
}

/// A "name=value" option whose name holds no '='.
proof fn lemma_named(name: Seq<char>, value: Seq<char>)
    requires
        !has_char(name, '='),
        !has_char(name, ','),
        text_ok(value),
    ensures
        text_ok(name + seq!['='] + value),
        option_name_value(name + seq!['='] + value) == (name, Some(value)),
{
    lemma_split_once_concat(name, value, '=');
    assert(!has_char(seq!['='], ',')) by {
        if has_char(seq!['='], ',') {
            let i = choose|i: int| 0 <= i < 1 && seq!['='][i] == ',';
        }
    }
    lemma_concat_free(name, seq!['='], ',');
    lemma_concat_free(name + seq!['='], value, ',');
}

/// The overlay's upper directory option.
proof fn lemma_upper_token(v: OptionsView, u: Seq<char>, work: Option<Seq<char>>)
    requires
        v.overlay == Some((None::<Seq<char>>, work)),
        text_ok(u),
    ensures
        text_ok("upperdir="@ + u),
        option_step(v, "upperdir="@ + u) == Ok::<OptionsView, OptionsErr>(
            OptionsView { overlay: Some((Some(u), work)), ..v },
        ),
{
    reveal_strlit("upperdir=");
    reveal_strlit("upperdir");
    assert("upperdir="@ =~= "upperdir"@ + seq!['=']);
    lemma_free("upperdir"@, '=');
    lemma_free("upperdir"@, ',');
    lemma_named("upperdir"@, u);
    lemma_valued_names();
}

/// The overlay's work directory option.
proof fn lemma_work_token(v: OptionsView, w: Seq<char>, up: Option<Seq<char>>)
    requires
        v.overlay == Some((up, None::<Seq<char>>)),
        text_ok(w),
    ensures
        text_ok("workdir="@ + w),
        option_step(v, "workdir="@ + w) == Ok::<OptionsView, OptionsErr>(
            OptionsView { overlay: Some((up, Some(w))), ..v },
        ),
{
    reveal_strlit("workdir=");
    reveal_strlit("workdir");
    assert("workdir="@ =~= "workdir"@ + seq!['=']);
    lemma_free("workdir"@, '=');
    lemma_free("workdir"@, ',');
    lemma_named("workdir"@, w);
    lemma_valued_names();
}

/// The idmap option.
proof fn lemma_idmap_token(v: OptionsView, m: (Seq<Mapping>, Seq<Mapping>))
    requires
        v.idmap is None,
    ensures
        text_ok(idmap_piece(m)),
        option_step(v, idmap_piece(m)) == Ok::<OptionsView, OptionsErr>(
            OptionsView { idmap: Some(m), ..v },
        ),
{
    reveal_strlit("idmap=");
    reveal_strlit("idmap");
    lemma_valued_names();
    lemma_free("idmap"@, '=');
    lemma_free("idmap"@, ',');
    if m.0.len() == 0 && m.1.len() == 0 {
        lemma_word("idmap"@);
        assert(m.0 =~= Seq::<Mapping>::empty());
        assert(m.1 =~= Seq::<Mapping>::empty());
    } else {
        let text = idmap_text(m.0, m.1);
        lemma_idmap_text_free(m.0, m.1, ',');
        assert(text.len() > 0) by {
            reveal(idmap_text);
            reveal_strlit("uids=");
            reveal_strlit("gids=");
        }
        assert("idmap="@ =~= "idmap"@ + seq!['=']);
        lemma_named("idmap"@, text);
        idmap_round_trip(m.0, m.1);
    }
}

/// A bind propagation option.
proof fn lemma_propagation_token(v: OptionsView, p: BindPropagation)
    ensures
        text_ok(propagation_name(p)),
        option_step(v, propagation_name(p)) == Ok::<OptionsView, OptionsErr>(
            OptionsView { bind_propagation: p, ..v },
        ),
{
    lemma_valued_names();
    reveal_strlit("shared");
    reveal_strlit("slave");
    reveal_strlit("private");
    reveal_strlit("unbindable");
    reveal_strlit("rshared");
    reveal_strlit("rslave");
    reveal_strlit("runbindable");
    reveal_strlit("rprivate");
    lemma_word(propagation_name(p));
    propagation_round_trip(p);
}

/// The overlay directories of volume options can stand between ','s: none is empty or holds ','.
pub open spec fn options_texts_ok(o: OptionsView) -> bool {
    o.overlay matches Some((up, work)) ==> (up matches Some(u) ==> text_ok(u)) && (
    work matches Some(w) ==> text_ok(w))
}

/// The options after read-only and relabeling are applied.
spec fn head_view(o: OptionsView) -> OptionsView {
    OptionsView {
        read_only: o.read_only,
        selinux_relabel: o.selinux_relabel,
        ..default_options()
    }
}

/// The options after the overlay too is applied.
spec fn mid_view(o: OptionsView) -> OptionsView {
    OptionsView { overlay: o.overlay, ..head_view(o) }
}

/// The pieces up to the overlay's.
spec fn mid_items(o: OptionsView) -> Seq<Seq<char>> {
    match o.overlay {
        Some((u, w)) => head_items(o) + overlay_pieces(u, w),
        None => head_items(o),
    }
}

/// Read-only and relabeling.
proof fn lemma_head_fold(o: OptionsView)
    ensures
        items_ok(head_items(o)),
        fold_options(head_items(o)) == Ok::<OptionsView, OptionsErr>(head_view(o)),
{
    let r0 = Seq::<Seq<char>>::empty();
    let v0 = default_options();
    assert(fold_options(r0) == Ok::<OptionsView, OptionsErr>(v0));
    lemma_flag_tokens(v0);
    let v1 = OptionsView { read_only: o.read_only, ..v0 };
    lemma_apply(r0, v0, o.read_only, "ro"@, v1);
    let r1 = push_if(r0, o.read_only, "ro"@);
    lemma_flag_tokens(v1);
    let cr = o.selinux_relabel is Some;
    let xr = seq![relabel_char(o.selinux_relabel->Some_0)];
    lemma_apply(r1, v1, cr, xr, head_view(o));
    assert(push_if(r1, cr, xr) == head_items(o));
}

/// The overlay and its directories.
proof fn lemma_mid_fold(o: OptionsView)
    requires
        options_texts_ok(o),
    ensures
        items_ok(mid_items(o)),
        fold_options(mid_items(o)) == Ok::<OptionsView, OptionsErr>(mid_view(o)),
{
    lemma_head_fold(o);
    let r2 = head_items(o);
    let v2 = head_view(o);
    match o.overlay {
        Some((up, work)) => {
            lemma_overlay_token(v2);
            let w1 = OptionsView { overlay: Some((None, None)), ..v2 };
            lemma_apply(r2, v2, true, seq!['O'], w1);
            let q1 = r2.push(seq!['O']);
            let cu = up is Some;
            let xu = "upperdir="@ + up->Some_0;
            let w2 = OptionsView { overlay: Some((up, None)), ..v2 };
            if cu {
                lemma_upper_token(w1, up->Some_0, None);
            }
            lemma_apply(q1, w1, cu, xu, w2);
            let q2 = push_if(q1, cu, xu);
            let cw = work is Some;
            let xw = "workdir="@ + work->Some_0;
            if cw {
                lemma_work_token(w2, work->Some_0, up);
            }
            lemma_apply(q2, w2, cw, xw, mid_view(o));
            assert(push_if(q2, cw, xw) =~= mid_items(o));
        },
        None => {},
    }
}

/// The options after the overlay, applied after `c`.
#[verifier::spinoff_prover]
#[verifier::rlimit(40)]
proof fn lemma_tail_fold(c: Seq<Seq<char>>, o: OptionsView)
    requires
        items_ok(c),
        fold_options(c) == Ok::<OptionsView, OptionsErr>(mid_view(o)),
    ensures
        items_ok(tail_items(c, o)),
        fold_options(tail_items(c, o)) == Ok::<OptionsView, OptionsErr>(o),
{
    let v3 = mid_view(o);
    let v4 = OptionsView { chown: o.chown, ..v3 };
    assert(items_ok(push_if(c, o.chown, seq!['U'])) && fold_options(push_if(c, o.chown, seq!['U'])) == Ok::<OptionsView, OptionsErr>(v4)) by {
        lemma_flag_tokens(v3);
        lemma_apply(c, v3, o.chown, seq!['U'], v4);
    }
    let r4 = push_if(c, o.chown, seq!['U']);
    let v5 = OptionsView { no_copy: o.no_copy, ..v4 };
    assert(items_ok(push_if(r4, o.no_copy, "nocopy"@)) && fold_options(push_if(r4, o.no_copy, "nocopy"@)) == Ok::<OptionsView, OptionsErr>(v5)) by {
        lemma_flag_tokens(v4);
        lemma_apply(r4, v4, o.no_copy, "nocopy"@, v5);
    }
    let r5 = push_if(r4, o.no_copy, "nocopy"@);
    let v6 = OptionsView { devices: o.devices, ..v5 };
    assert(items_ok(push_if(r5, o.devices, "dev"@)) && fold_options(push_if(r5, o.devices, "dev"@)) == Ok::<OptionsView, OptionsErr>(v6)) by {
        lemma_flag_tokens(v5);
        lemma_apply(r5, v5, o.devices, "dev"@, v6);
    }
    let r6 = push_if(r5, o.devices, "dev"@);
    let v7 = OptionsView { no_executables: o.no_executables, ..v6 };
    assert(items_ok(push_if(r6, o.no_executables, "noexec"@)) && fold_options(push_if(r6, o.no_executables, "noexec"@)) == Ok::<OptionsView, OptionsErr>(v7)) by {
        lemma_flag_tokens(v6);
        lemma_apply(r6, v6, o.no_executables, "noexec"@, v7);
    }
    let r7 = push_if(r6, o.no_executables, "noexec"@);
    let v8 = OptionsView { suid: o.suid, ..v7 };
    assert(items_ok(push_if(r7, o.suid, "suid"@)) && fold_options(push_if(r7, o.suid, "suid"@)) == Ok::<OptionsView, OptionsErr>(v8)) by {
        lemma_flag_tokens(v7);
        lemma_apply(r7, v7, o.suid, "suid"@, v8);
    }
    let r8 = push_if(r7, o.suid, "suid"@);
    let v9 = OptionsView { recursive_bind: o.recursive_bind, ..v8 };
    assert(items_ok(push_if(r8, o.recursive_bind, "rbind"@)) && fold_options(push_if(r8, o.recursive_bind, "rbind"@)) == Ok::<OptionsView, OptionsErr>(v9)) by {
        lemma_flag_tokens(v8);
        lemma_apply(r8, v8, o.recursive_bind, "rbind"@, v9);
    }
    let r9 = push_if(r8, o.recursive_bind, "rbind"@);
    let cp = o.bind_propagation != BindPropagation::RPrivate;
    let xp = propagation_name(o.bind_propagation);
    let v10 = OptionsView { bind_propagation: o.bind_propagation, ..v9 };
    assert(items_ok(push_if(r9, cp, xp)) && fold_options(push_if(r9, cp, xp)) == Ok::<OptionsView, OptionsErr>(v10)) by {
        lemma_propagation_token(v9, o.bind_propagation);
        lemma_apply(r9, v9, cp, xp, v10);
    }
    let r10 = push_if(r9, cp, xp);
    let ci = o.idmap is Some;
    let xi = idmap_piece(o.idmap->Some_0);
    lemma_idmap_token(v10, o.idmap->Some_0);
    let v11 = OptionsView { idmap: o.idmap, ..v10 };
    lemma_apply(r10, v10, ci, xi, v11);
    assert(tail_items(c, o) == push_if(r10, ci, xi));
    assert(v11 == o);
}

/// The pieces of written options can stand between ','s, and applied in order they give the
/// options back.
proof fn lemma_pieces_fold(o: OptionsView)
    requires
        options_texts_ok(o),
    ensures
        items_ok(option_pieces(o)),
        fold_options(option_pieces(o)) == Ok::<OptionsView, OptionsErr>(o),
{
    lemma_mid_fold(o);
    lemma_tail_fold(mid_items(o), o);
}

/// Parsing the text written for volume options gives the options back, when the overlay
/// directories are not empty and hold no ','.
pub proof fn options_round_trip(o: OptionsView)
    requires
        options_texts_ok(o),
    ensures
        parse_options(options_text(o)) == Ok::<OptionsView, OptionsErr>(o),
{
    lemma_pieces_fold(o);
    lemma_pieces_join(o);
    let items = option_items(o);
    let pieces = option_pieces(o);
    if items.len() == 0 {
        assert(pieces.len() == 0);
        assert(o == default_options()) by {
            assert(fold_options(pieces) == Ok::<OptionsView, OptionsErr>(default_options()));
        }
        assert(options_text(o) == Seq::<char>::empty());
        assert(!seq![':'].is_prefix_of(Seq::<char>::empty()));
        assert(split(Seq::<char>::empty(), ',') == seq![Seq::<char>::empty()]);
        assert(split_terminator(Seq::<char>::empty(), ',') =~= Seq::<Seq<char>>::empty());
    } else {
        let body = join(pieces, seq![',']);
        let text = seq![':'] + join(items, seq![',']);
        assert(options_text(o) == text);
        assert(seq![':'].is_prefix_of(text));
        assert(strip_prefix(text, seq![':']) == Some(body)) by {
            assert(text.subrange(1, text.len() as int) =~= body);
        }
        assert forall|k: int| 0 <= k < pieces.len() implies !has_char(#[trigger] pieces[k], ',') by {
            assert(text_ok(pieces[k]));
        }
        lemma_split_join(pieces, ',');
        assert(text_ok(pieces[pieces.len() - 1]));
        assert(split_terminator(body, ',') == pieces);
    }
}

/// The first character of a joined text is that of its first piece.
proof fn lemma_join_first(p: Seq<Seq<char>>, sep: Seq<char>)
    requires
        p.len() >= 1,
        p[0].len() > 0,
    ensures
        join(p, sep).len() > 0,
        join(p, sep)[0] == p[0][0],
    decreases p.len(),
{
    if p.len() > 1 {
        lemma_join_first(p.drop_last(), sep);
    }
}

/// Every piece is not empty and does not start with ':'.
spec fn starts_ok(r: Seq<Seq<char>>) -> bool {
    forall|k: int| 0 <= k < r.len() ==> (#[trigger] r[k]).len() > 0 && r[k][0] != ':'
}

/// Appending a piece that starts well.
proof fn lemma_start_push(r: Seq<Seq<char>>, cond: bool, x: Seq<char>)
    requires
        starts_ok(r),
        cond ==> x.len() > 0 && x[0] != ':',
    ensures
        starts_ok(push_if(r, cond, x)),
{
    if cond {
        let q = r.push(x);
        assert forall|k: int| 0 <= k < q.len() implies (#[trigger] q[k]).len() > 0 && q[k][0]
            != ':' by {
            if k < r.len() {
                assert(q[k] == r[k]);
            }
        }
    }
}

/// No written option starts with ':'.
#[verifier::rlimit(40)]
proof fn lemma_items_start(o: OptionsView)
    ensures
        starts_ok(option_items(o)),
{
    reveal_strlit("ro");
    reveal_strlit("nocopy");
    reveal_strlit("dev");
    reveal_strlit("noexec");
    reveal_strlit("suid");
    reveal_strlit("rbind");
    reveal_strlit("idmap");
    reveal_strlit("idmap=");
    reveal_strlit("shared");
    reveal_strlit("slave");
    reveal_strlit("private");
    reveal_strlit("unbindable");
    reveal_strlit("rshared");
    reveal_strlit("rslave");
    reveal_strlit("runbindable");
    reveal_strlit("rprivate");
    let e = Seq::<Seq<char>>::empty();
    lemma_start_push(e, o.read_only, "ro"@);
    let a = push_if(e, o.read_only, "ro"@);
    let cr = o.selinux_relabel is Some;
    lemma_start_push(a, cr, seq![relabel_char(o.selinux_relabel->Some_0)]);
    let b = push_if(a, cr, seq![relabel_char(o.selinux_relabel->Some_0)]);
    let co = o.overlay is Some;
    let ov = overlay_text(o.overlay->Some_0.0, o.overlay->Some_0.1);
    assert(ov[0] == 'O' && ov.len() > 0);
    lemma_start_push(b, co, ov);
    let c = push_if(b, co, ov);
    lemma_start_push(c, o.chown, seq!['U']);
    let d = push_if(c, o.chown, seq!['U']);
    lemma_start_push(d, o.no_copy, "nocopy"@);
    let e2 = push_if(d, o.no_copy, "nocopy"@);
    lemma_start_push(e2, o.devices, "dev"@);
    let f = push_if(e2, o.devices, "dev"@);
    lemma_start_push(f, o.no_executables, "noexec"@);
    let g = push_if(f, o.no_executables, "noexec"@);
    lemma_start_push(g, o.suid, "suid"@);
    let h = push_if(g, o.suid, "suid"@);
    lemma_start_push(h, o.recursive_bind, "rbind"@);
    let i = push_if(h, o.recursive_bind, "rbind"@);
    let cp = o.bind_propagation != BindPropagation::RPrivate;
    let pn = propagation_name(o.bind_propagation);
    assert(pn.len() > 0 && pn[0] != ':');
    lemma_start_push(i, cp, pn);
    let j = push_if(i, cp, pn);
    let ci = o.idmap is Some;
    let xi = idmap_piece(o.idmap->Some_0);
    assert(xi.len() > 0 && xi[0] == 'i');
    lemma_start_push(j, ci, xi);
    lemma_items_parts(o);
    assert(option_items(o) == push_if(j, ci, xi));
}

/// Volume options text is empty exactly for the defaults; otherwise it is ':' and a text that
/// does not start with ':' and parses to the options.
#[verifier::rlimit(40)]
proof fn lemma_options_body(o: OptionsView)
    requires
        options_texts_ok(o),
    ensures
        options_text(o).len() == 0 <==> o == default_options(),
        options_text(o).len() > 0 ==> options_text(o)[0] == ':' && options_text(o).drop_first()[0]
            != ':' && parse_options(options_text(o).drop_first()) == Ok::<OptionsView, OptionsErr>(o),
{
    options_round_trip(o);
    let ot = options_text(o);
    let items = option_items(o);
    if ot.len() == 0 {
        assert(parse_options(Seq::<char>::empty()) == Ok::<OptionsView, OptionsErr>(
            default_options(),
        )) by {
            assert(!seq![':'].is_prefix_of(Seq::<char>::empty()));
            assert(split(Seq::<char>::empty(), ',') == seq![Seq::<char>::empty()]);
            assert(split_terminator(Seq::<char>::empty(), ',') =~= Seq::<Seq<char>>::empty());
        }
        assert(ot =~= Seq::<char>::empty());
    } else {
        let body = join(items, seq![',']);
        assert(ot == seq![':'] + body);
        assert(ot.drop_first() =~= body);
        lemma_items_start(o);
        assert(items[0].len() > 0 && items[0][0] != ':');
        lemma_join_first(items, seq![',']);
        if seq![':'].is_prefix_of(body) {
            assert(body.subrange(0, 1)[0] == body[0]);
        }
        assert(ot.subrange(1, ot.len() as int) =~= body);
        assert(seq![':'].is_prefix_of(ot));
        assert(parse_options(body) == parse_options(ot));
        assert(default_options() != o) by {
            assert(option_items(default_options()).len() == 0);
        }
    }
}

/// A volume source whose kind agrees with its first character: a host path starts with '.',
/// '/', '~' or '%', a named volume does not.
pub open spec fn source_ok(s: SourceView) -> bool {
    source_of(source_text(s)) == s
}

/// The texts of a volume that parse back: an absolute container path and a source without ':',
/// the source's kind agreeing with its text, overlay directories that can stand between ','s;
/// without a source, the options are the defaults.
pub open spec fn volume_texts_ok(v: VolumeView) -> bool {
    &&& v.container_path.len() > 0
    &&& v.container_path[0] == '/'
    &&& !has_char(v.container_path, ':')
    &&& match v.source {
        Some(s) => source_ok(s) && !has_char(source_text(s), ':'),
        None => v.options == default_options(),
    }
    &&& options_texts_ok(v.options)
}

/// Parsing the text written for a volume gives the volume back, when its texts parse back.
pub proof fn volume_round_trip(v: VolumeView)
    requires
        volume_texts_ok(v),
    ensures
        parse_volume(volume_text(v)) == Ok::<VolumeView, VolumeErr>(v),
{
    let o = v.options;
    let path = v.container_path;
    let ot = options_text(o);
    lemma_options_body(o);
    match v.source {
        Some(s) => {
            let st = source_text(s);
            let text = volume_text(v);
            assert(text =~= st + seq![':'] + (path + ot));
            lemma_split_once_concat(st, path + ot, ':');
            if ot.len() == 0 {
                assert(path + ot =~= path);
                lemma_split_once_none(path, ':');
            } else {
                assert(path + ot =~= path + seq![':'] + ot.drop_first());
                lemma_split_once_concat(path, ot.drop_first(), ':');
            }
        },
        None => {
            assert(ot.len() == 0);
            assert(volume_text(v) =~= path);
            lemma_split_once_none(path, ':');
        },
    }
}

/// The overlay, its upper and work directories and the idmap can each be given once: once one is
/// set, giving it again is refused as given multiple times, whatever value comes with it.
pub proof fn repeated_options_refused(o: OptionsView, value: Seq<char>)
    ensures
        o.overlay is Some ==> option_step(o, "O"@) == Err::<OptionsView, OptionsErr>(
            OptionsErr::Multiple("O"@),
        ),
        (o.overlay matches Some((up, _)) && up is Some && value.len() > 0) ==> option_step(
            o,
            "upperdir="@ + value,
        ) == Err::<OptionsView, OptionsErr>(OptionsErr::Multiple("upperdir"@)),
        (o.overlay matches Some((_, work)) && work is Some && value.len() > 0) ==> option_step(
            o,
            "workdir="@ + value,
        ) == Err::<OptionsView, OptionsErr>(OptionsErr::Multiple("workdir"@)),
        o.idmap is Some ==> option_step(o, "idmap"@) == Err::<OptionsView, OptionsErr>(
            OptionsErr::Multiple("idmap"@),
        ),
        o.idmap is Some ==> option_step(o, "idmap="@ + value) == Err::<OptionsView, OptionsErr>(
            OptionsErr::Multiple("idmap"@),
        ),
{
    reveal_strlit("O");
    reveal_strlit("upperdir=");
    reveal_strlit("upperdir");
    reveal_strlit("workdir=");
    reveal_strlit("workdir");
    reveal_strlit("idmap=");
    reveal_strlit("idmap");
    lemma_valued_names();
    lemma_word("O"@);
    lemma_word("idmap"@);
    lemma_free("upperdir"@, '=');
    lemma_free("workdir"@, '=');
    lemma_free("idmap"@, '=');
    assert("upperdir="@ =~= "upperdir"@ + seq!['=']);
    assert("workdir="@ =~= "workdir"@ + seq!['=']);
    assert("idmap="@ =~= "idmap"@ + seq!['=']);
    lemma_split_once_concat("upperdir"@, value, '=');
    lemma_split_once_concat("workdir"@, value, '=');
    lemma_split_once_concat("idmap"@, value, '=');
}

} // verus!
