//! Mount options text parses back to the mount it was written from.

use vstd::prelude::*;

use crate::idmap::{Mapping, foreign_to_idmap, idmap_round_trip, idmap_text, lemma_idmap_text_free};
use crate::mount::{BindView, DevPtsView, ImageView, MountErr, MountType, MountView, Slot, TmpfsView, Val, ValueKind, VolumeView, bind_items, bind_slot, build_mount, devpts_items, devpts_slot, fold_options, idmap_item, image_items, image_slot, kind_name, kind_of, kv, mount_items, mount_text, mount_type, octal, option_step, parse_mount, read_value, slot, slot_count, slot_of, tmpfs_items, tmpfs_slot, volume_items, volume_slot};
use crate::mount_options::{entries, key_value, kvs};
use crate::mount_opts::{BindPropagation, SELinuxRelabel, Size, propagation_name, propagation_round_trip, relabel_name, size_round_trip, size_text};
use crate::num::{decimal, digits_of, lemma_digits_of, lemma_parse_decimal, parse_unsigned};
use crate::text::{has_char, join, lemma_concat_free, lemma_ne, lemma_split_join, lemma_split_once_concat, lemma_split_once_none, push_if, push_some, split, split_once, split_terminator};

verus! {

/// A text that can stand as the value of a mount option: not empty, without ','.
pub open spec fn text_ok(t: Seq<char>) -> bool {
    t.len() > 0 && !has_char(t, ',')
}

/// A "key=value" item holds no ',' when neither part does.
proof fn lemma_kv_free(key: Seq<char>, value: Seq<char>)
    requires
        !has_char(key, ','),
        !has_char(value, ','),
    ensures
        !has_char(kv(key, value), ','),
{
    assert(!has_char(seq!['='], ',')) by {
        if has_char(seq!['='], ',') {
            let i = choose|i: int| 0 <= i < 1 && seq!['='][i] == ',';
        }
    }
    lemma_concat_free(key, seq!['='], ',');
    lemma_concat_free(key + seq!['='], value, ',');
}

/// The key and value of a "key=value" item.
proof fn lemma_kv_value(key: Seq<char>, value: Seq<char>)
    requires
        !has_char(key, '='),
        value.len() > 0,
    ensures
        key_value(kv(key, value)) == (key, Some(value)),
{
    lemma_split_once_concat(key, value, '=');
}

/// The key of an item without a value.
proof fn lemma_key_alone(key: Seq<char>)
    requires
        !has_char(key, '='),
    ensures
        key_value(key) == (key, None::<Seq<char>>),
{
    lemma_split_once_none(key, '=');
}

/// Digits hold neither ',' nor '='.
proof fn lemma_digits_free(n: nat, radix: nat)
    requires
        2 <= radix <= 10,
    ensures
        !has_char(digits_of(n, radix), ','),
        digits_of(n, radix).len() > 0,
{
    lemma_digits_of(n, radix);
    let d = digits_of(n, radix);
    if has_char(d, ',') {
        let i = choose|i: int| 0 <= i < d.len() && d[i] == ',';
        assert('0' <= d[i] <= '9');
    }
}

/// A mount type's name parses back to the mount type, and can stand as an option's value.
proof fn lemma_kind_name(t: MountType)
    ensures
        kind_of(kind_name(t)) == Some(t),
        text_ok(kind_name(t)),
{
    reveal_strlit("bind");
    reveal_strlit("devpts");
    reveal_strlit("glob");
    reveal_strlit("image");
    reveal_strlit("ramfs");
    reveal_strlit("tmpfs");
    reveal_strlit("volume");
    lemma_ne("glob"@, "bind"@, 0);
    lemma_ne("ramfs"@, "image"@, 0);
    lemma_ne("tmpfs"@, "image"@, 0);
    lemma_ne("tmpfs"@, "ramfs"@, 0);
    lemma_ne("volume"@, "devpts"@, 0);
    lemma_word_free("bind"@, ',');
    lemma_word_free("devpts"@, ',');
    lemma_word_free("glob"@, ',');
    lemma_word_free("image"@, ',');
    lemma_word_free("ramfs"@, ',');
    lemma_word_free("tmpfs"@, ',');
    lemma_word_free("volume"@, ',');
}

/// Every item can stand between ','s.
pub open spec fn items_ok(r: Seq<Seq<char>>) -> bool {
    forall|k: int| 0 <= k < r.len() ==> text_ok(#[trigger] r[k])
}

/// Parsing the mount options `items`, the first of them "type=TYPE", folds the others into the
/// slots of the type.
proof fn lemma_parse_items(t: MountType, items: Seq<Seq<char>>)
    requires
        items.len() >= 1,
        items[0] == kv("type"@, kind_name(t)),
        items_ok(items),
    ensures
        parse_mount(join(items, seq![','])) == match fold_options(t, kvs(items.drop_first())) {
            Ok(slots) => build_mount(t, slots),
            Err(e) => Err(e),
        },
{
    reveal_strlit("type");
    lemma_kind_name(t);
    lemma_word_free("type"@, '=');
    assert forall|k: int| 0 <= k < items.len() implies !has_char(#[trigger] items[k], ',') by {
        assert(text_ok(items[k]));
    }
    lemma_split_join(items, ',');
    let text = join(items, seq![',']);
    assert(text_ok(items[items.len() - 1]));
    assert(split_terminator(text, ',') == items);
    let es = entries(text);
    assert(es == kvs(items));
    lemma_kv_value("type"@, kind_name(t));
    assert(es[0] == key_value(items[0]));
    assert(es.drop_first() =~= kvs(items.drop_first()));
}

/// Folding an item appended to `r`.
proof fn lemma_fold_push(t: MountType, r: Seq<Seq<char>>, x: Seq<char>)
    ensures
        fold_options(t, kvs(r.push(x))) == match fold_options(t, kvs(r)) {
            Ok(s) => option_step(t, s, key_value(x)),
            Err(e) => Err(e),
        },
{
    assert(kvs(r.push(x)) =~= kvs(r).push(key_value(x)));
    assert(kvs(r).push(key_value(x)).drop_last() =~= kvs(r));
}

/// No slot filled yet.
pub open spec fn empty_slots(t: MountType) -> Seq<Option<Val>> {
    Seq::new(slot_count(t), |i: int| None::<Val>)
}

/// Before any option after "type", no slot is filled.
proof fn lemma_fold_start(t: MountType, a: Seq<Seq<char>>)
    requires
        a.len() == 1,
    ensures
        fold_options(t, kvs(a.drop_first())) == Ok::<Seq<Option<Val>>, MountErr>(empty_slots(t)),
{
    assert(kvs(a.drop_first()) =~= Seq::<(Seq<char>, Option<Seq<char>>)>::empty());
}

/// Appending an item when `cond` holds fills the slot of its option with its value.
proof fn lemma_step(
    t: MountType,
    r: Seq<Seq<char>>,
    s: Seq<Option<Val>>,
    cond: bool,
    x: Seq<char>,
    sl: Slot,
    v: Val,
)
    requires
        r.len() >= 1,
        items_ok(r),
        fold_options(t, kvs(r.drop_first())) == Ok::<Seq<Option<Val>>, MountErr>(s),
        cond ==> text_ok(x),
        cond ==> slot_of(t, key_value(x).0) == Some(sl),
        cond ==> !(sl.unique && s[sl.index] is Some),
        cond ==> read_value(sl.kind, sl.name, key_value(x).1) == Ok::<Val, MountErr>(v),
    ensures
        push_if(r, cond, x).len() >= 1,
        push_if(r, cond, x)[0] == r[0],
        items_ok(push_if(r, cond, x)),
        fold_options(t, kvs(push_if(r, cond, x).drop_first())) == Ok::<
            Seq<Option<Val>>,
            MountErr,
        >(
            if cond {
                s.update(sl.index, Some(v))
            } else {
                s
            },
        ),
{
    if cond {
        let q = r.push(x);
        assert(q.drop_first() =~= r.drop_first().push(x));
        lemma_fold_push(t, r.drop_first(), x);
        assert forall|k: int| 0 <= k < q.len() implies text_ok(#[trigger] q[k]) by {
            if k < r.len() {
                assert(q[k] == r[k]);
            }
        }
    }
}

/// The fixed "key=true" items.
proof fn lemma_true_items()
    ensures
        "readonly=true"@ == kv("readonly"@, "true"@),
        "readwrite=true"@ == kv("readwrite"@, "true"@),
        "bind-nonrecursive=true"@ == kv("bind-nonrecursive"@, "true"@),
        "chown=true"@ == kv("chown"@, "true"@),
        "true"@.len() > 0,
{
    reveal_strlit("readonly=true");
    reveal_strlit("readwrite=true");
    reveal_strlit("bind-nonrecursive=true");
    reveal_strlit("chown=true");
    reveal_strlit("readonly");
    reveal_strlit("readwrite");
    reveal_strlit("bind-nonrecursive");
    reveal_strlit("chown");
    reveal_strlit("true");
    assert("readonly=true"@ =~= kv("readonly"@, "true"@));
    assert("readwrite=true"@ =~= kv("readwrite"@, "true"@));
    assert("bind-nonrecursive=true"@ =~= kv("bind-nonrecursive"@, "true"@));
    assert("chown=true"@ =~= kv("chown"@, "true"@));
}

/// A flag option "key=true" can stand between ','s and reads as its key with value "true".
proof fn lemma_true_item(key: Seq<char>)
    requires
        !has_char(key, '='),
        !has_char(key, ','),
    ensures
        text_ok(kv(key, "true"@)),
        key_value(kv(key, "true"@)) == (key, Some("true"@)),
{
    lemma_true_items();
    lemma_keys_free();
    lemma_kv_free(key, "true"@);
    lemma_kv_value(key, "true"@);
}

/// A text option "key=text" can stand between ','s and reads as its key with the text.
proof fn lemma_text_item(key: Seq<char>, text: Seq<char>)
    requires
        !has_char(key, '='),
        !has_char(key, ','),
        text_ok(text),
    ensures
        text_ok(kv(key, text)),
        key_value(kv(key, text)) == (key, Some(text)),
{
    lemma_kv_free(key, text);
    lemma_kv_value(key, text);
}

/// The options of image mounts.
proof fn lemma_image_keys()
    ensures
        image_slot("source"@) == slot(0, ValueKind::Text, "source"@),
        image_slot("destination"@) == slot(1, ValueKind::Text, "destination"@),
        image_slot("readwrite"@) == slot(2, ValueKind::Flag, "readwrite"@),
{
    reveal_strlit("source");
    reveal_strlit("src");
    reveal_strlit("destination");
    reveal_strlit("dst");
    reveal_strlit("target");
    reveal_strlit("readwrite");
    reveal_strlit("rw");
    lemma_ne("destination"@, "source"@, 0);
    lemma_ne("destination"@, "src"@, 0);
    lemma_ne("readwrite"@, "source"@, 0);
    lemma_ne("readwrite"@, "src"@, 0);
    lemma_ne("readwrite"@, "destination"@, 0);
    lemma_ne("readwrite"@, "dst"@, 0);
    lemma_ne("readwrite"@, "target"@, 0);
}

/// The options of an image mount fold into slots that build it.
proof fn lemma_image_items(a: Seq<Seq<char>>, i: ImageView)
    requires
        a.len() == 1,
        items_ok(a),
        text_ok(i.source),
        text_ok(i.destination),
    ensures
        image_items(a, i).len() >= 1,
        image_items(a, i)[0] == a[0],
        items_ok(image_items(a, i)),
        fold_options(MountType::Image, kvs(image_items(a, i).drop_first())) matches Ok(s)
            && build_mount(MountType::Image, s) == Ok::<MountView, MountErr>(MountView::Image(i)),
{
    let t = MountType::Image;
    lemma_fold_start(t, a);
    lemma_image_keys();
    lemma_keys_free();
    lemma_no_eq_keys();
    lemma_true_items();
    let s0 = empty_slots(t);
    lemma_text_item("source"@, i.source);
    lemma_step(t, a, s0, true, kv("source"@, i.source), slot(0, ValueKind::Text, "source"@)->Some_0, Val::Text(i.source));
    let r1 = a.push(kv("source"@, i.source));
    let s1 = s0.update(0, Some(Val::Text(i.source)));
    lemma_text_item("destination"@, i.destination);
    lemma_step(t, r1, s1, true, kv("destination"@, i.destination), slot(1, ValueKind::Text, "destination"@)->Some_0, Val::Text(i.destination));
    let r2 = r1.push(kv("destination"@, i.destination));
    let s2 = s1.update(1, Some(Val::Text(i.destination)));
    lemma_true_item("readwrite"@);
    lemma_step(t, r2, s2, i.read_write, "readwrite=true"@, slot(2, ValueKind::Flag, "readwrite"@)->Some_0, Val::Flag(true));
    let s3 = if i.read_write { s2.update(2, Some(Val::Flag(true))) } else { s2 };
    assert(image_items(a, i) == push_if(r2, i.read_write, "readwrite=true"@));
    assert(build_mount(t, s3) == Ok::<MountView, MountErr>(MountView::Image(i)));
}

/// The options of bind and glob mounts.
proof fn lemma_bind_keys()
    ensures
        bind_slot("source"@) == slot(0, ValueKind::Text, "source"@),
        bind_slot("destination"@) == slot(1, ValueKind::Text, "destination"@),
        bind_slot("readonly"@) == slot(2, ValueKind::Flag, "readonly"@),
        bind_slot("bind-propagation"@) == slot(3, ValueKind::Propagation, "bind-propagation"@),
        bind_slot("bind-nonrecursive"@) == slot(4, ValueKind::Flag, "bind-nonrecursive"@),
        bind_slot("relabel"@) == slot(5, ValueKind::Relabel, "relabel"@),
        bind_slot("idmap"@) == slot(6, ValueKind::IdmapValue, "idmap"@),
        bind_slot("chown"@) == slot(7, ValueKind::Flag, "chown"@),
{
    reveal_strlit("U");
    reveal_strlit("bind-nonrecursive");
    reveal_strlit("bind-propagation");
    reveal_strlit("chown");
    reveal_strlit("destination");
    reveal_strlit("dst");
    reveal_strlit("idmap");
    reveal_strlit("readonly");
    reveal_strlit("relabel");
    reveal_strlit("ro");
    reveal_strlit("source");
    reveal_strlit("src");
    reveal_strlit("target");
    lemma_ne("destination"@, "source"@, 0);
    lemma_ne("destination"@, "src"@, 0);
    lemma_ne("readonly"@, "source"@, 0);
    lemma_ne("readonly"@, "src"@, 0);
    lemma_ne("readonly"@, "destination"@, 0);
    lemma_ne("readonly"@, "dst"@, 0);
    lemma_ne("readonly"@, "target"@, 0);
    lemma_ne("bind-propagation"@, "source"@, 0);
    lemma_ne("bind-propagation"@, "src"@, 0);
    lemma_ne("bind-propagation"@, "destination"@, 0);
    lemma_ne("bind-propagation"@, "dst"@, 0);
    lemma_ne("bind-propagation"@, "target"@, 0);
    lemma_ne("bind-propagation"@, "readonly"@, 0);
    lemma_ne("bind-propagation"@, "ro"@, 0);
    lemma_ne("bind-nonrecursive"@, "source"@, 0);
    lemma_ne("bind-nonrecursive"@, "src"@, 0);
    lemma_ne("bind-nonrecursive"@, "destination"@, 0);
    lemma_ne("bind-nonrecursive"@, "dst"@, 0);
    lemma_ne("bind-nonrecursive"@, "target"@, 0);
    lemma_ne("bind-nonrecursive"@, "readonly"@, 0);
    lemma_ne("bind-nonrecursive"@, "ro"@, 0);
    lemma_ne("bind-nonrecursive"@, "bind-propagation"@, 5);
    lemma_ne("relabel"@, "source"@, 0);
    lemma_ne("relabel"@, "src"@, 0);
    lemma_ne("relabel"@, "destination"@, 0);
    lemma_ne("relabel"@, "dst"@, 0);
    lemma_ne("relabel"@, "target"@, 0);
    lemma_ne("relabel"@, "readonly"@, 2);
    lemma_ne("relabel"@, "ro"@, 1);
    lemma_ne("relabel"@, "bind-propagation"@, 0);
    lemma_ne("relabel"@, "bind-nonrecursive"@, 0);
    lemma_ne("idmap"@, "source"@, 0);
    lemma_ne("idmap"@, "src"@, 0);
    lemma_ne("idmap"@, "destination"@, 0);
    lemma_ne("idmap"@, "dst"@, 0);
    lemma_ne("idmap"@, "target"@, 0);
    lemma_ne("idmap"@, "readonly"@, 0);
    lemma_ne("idmap"@, "ro"@, 0);
    lemma_ne("idmap"@, "bind-propagation"@, 0);
    lemma_ne("idmap"@, "bind-nonrecursive"@, 0);
    lemma_ne("idmap"@, "relabel"@, 0);
    lemma_ne("chown"@, "source"@, 0);
    lemma_ne("chown"@, "src"@, 0);
    lemma_ne("chown"@, "destination"@, 0);
    lemma_ne("chown"@, "dst"@, 0);
    lemma_ne("chown"@, "target"@, 0);
    lemma_ne("chown"@, "readonly"@, 0);
    lemma_ne("chown"@, "ro"@, 0);
    lemma_ne("chown"@, "bind-propagation"@, 0);
    lemma_ne("chown"@, "bind-nonrecursive"@, 0);
    lemma_ne("chown"@, "relabel"@, 0);
    lemma_ne("chown"@, "idmap"@, 0);
}

/// The options of devpts mounts.
proof fn lemma_devpts_keys()
    ensures
        devpts_slot("destination"@) == slot(0, ValueKind::Text, "destination"@),
        devpts_slot("uid"@) == slot(1, ValueKind::Number, "uid"@),
        devpts_slot("gid"@) == slot(2, ValueKind::Number, "gid"@),
        devpts_slot("mode"@) == slot(3, ValueKind::Octal, "mode"@),
        devpts_slot("max"@) == slot(4, ValueKind::Number, "max"@),
{
    reveal_strlit("destination");
    reveal_strlit("dst");
    reveal_strlit("gid");
    reveal_strlit("max");
    reveal_strlit("mode");
    reveal_strlit("target");
    reveal_strlit("uid");
    lemma_ne("uid"@, "destination"@, 0);
    lemma_ne("uid"@, "dst"@, 0);
    lemma_ne("uid"@, "target"@, 0);
    lemma_ne("gid"@, "destination"@, 0);
    lemma_ne("gid"@, "dst"@, 0);
    lemma_ne("gid"@, "target"@, 0);
    lemma_ne("gid"@, "uid"@, 0);
    lemma_ne("mode"@, "destination"@, 0);
    lemma_ne("mode"@, "dst"@, 0);
    lemma_ne("mode"@, "target"@, 0);
    lemma_ne("mode"@, "uid"@, 0);
    lemma_ne("mode"@, "gid"@, 0);
    lemma_ne("max"@, "destination"@, 0);
    lemma_ne("max"@, "dst"@, 0);
    lemma_ne("max"@, "target"@, 0);
    lemma_ne("max"@, "uid"@, 0);
    lemma_ne("max"@, "gid"@, 0);
    lemma_ne("max"@, "mode"@, 1);
}

/// The options of volume mounts.
proof fn lemma_volume_keys()
    ensures
        volume_slot("source"@) == slot(0, ValueKind::Text, "source"@),
        volume_slot("destination"@) == slot(1, ValueKind::Text, "destination"@),
        volume_slot("readonly"@) == slot(2, ValueKind::Flag, "readonly"@),
        volume_slot("chown"@) == slot(3, ValueKind::Flag, "chown"@),
        volume_slot("idmap"@) == slot(4, ValueKind::IdmapValue, "idmap"@),
{
    reveal_strlit("U");
    reveal_strlit("chown");
    reveal_strlit("destination");
    reveal_strlit("dst");
    reveal_strlit("idmap");
    reveal_strlit("readonly");
    reveal_strlit("ro");
    reveal_strlit("source");
    reveal_strlit("src");
    reveal_strlit("target");
    lemma_ne("destination"@, "source"@, 0);
    lemma_ne("destination"@, "src"@, 0);
    lemma_ne("readonly"@, "source"@, 0);
    lemma_ne("readonly"@, "src"@, 0);
    lemma_ne("readonly"@, "destination"@, 0);
    lemma_ne("readonly"@, "dst"@, 0);
    lemma_ne("readonly"@, "target"@, 0);
    lemma_ne("chown"@, "source"@, 0);
    lemma_ne("chown"@, "src"@, 0);
    lemma_ne("chown"@, "destination"@, 0);
    lemma_ne("chown"@, "dst"@, 0);
    lemma_ne("chown"@, "target"@, 0);
    lemma_ne("chown"@, "readonly"@, 0);
    lemma_ne("chown"@, "ro"@, 0);
    lemma_ne("idmap"@, "source"@, 0);
    lemma_ne("idmap"@, "src"@, 0);
    lemma_ne("idmap"@, "destination"@, 0);
    lemma_ne("idmap"@, "dst"@, 0);
    lemma_ne("idmap"@, "target"@, 0);
    lemma_ne("idmap"@, "readonly"@, 0);
    lemma_ne("idmap"@, "ro"@, 0);
    lemma_ne("idmap"@, "chown"@, 0);
    lemma_ne("idmap"@, "U"@, 0);
}

/// The options of tmpfs and ramfs mounts.
proof fn lemma_tmpfs_keys()
    ensures
        tmpfs_slot("destination"@) == slot(0, ValueKind::Text, "destination"@),
        tmpfs_slot("readonly"@) == Some(
            Slot { index: 1, kind: ValueKind::Flag, unique: false, name: "readonly"@ },
        ),
        tmpfs_slot("tmpfs-size"@) == slot(2, ValueKind::SizeValue, "tmpfs-size"@),
        tmpfs_slot("tmpfs-mode"@) == slot(3, ValueKind::Octal, "tmpfs-mode"@),
        tmpfs_slot("notmpcopyup"@) == Some(
            Slot { index: 4, kind: ValueKind::Switch(false), unique: false, name: "notmpcopyup"@ },
        ),
        tmpfs_slot("chown"@) == Some(
            Slot { index: 5, kind: ValueKind::Flag, unique: false, name: "chown"@ },
        ),
{
    reveal_strlit("U");
    reveal_strlit("chown");
    reveal_strlit("destination");
    reveal_strlit("dst");
    reveal_strlit("notmpcopyup");
    reveal_strlit("readonly");
    reveal_strlit("ro");
    reveal_strlit("target");
    reveal_strlit("tmpcopyup");
    reveal_strlit("tmpfs-mode");
    reveal_strlit("tmpfs-size");
    lemma_ne("readonly"@, "destination"@, 0);
    lemma_ne("readonly"@, "dst"@, 0);
    lemma_ne("readonly"@, "target"@, 0);
    lemma_ne("tmpfs-size"@, "destination"@, 0);
    lemma_ne("tmpfs-size"@, "dst"@, 0);
    lemma_ne("tmpfs-size"@, "target"@, 1);
    lemma_ne("tmpfs-size"@, "readonly"@, 0);
    lemma_ne("tmpfs-size"@, "ro"@, 0);
    lemma_ne("tmpfs-mode"@, "destination"@, 0);
    lemma_ne("tmpfs-mode"@, "dst"@, 0);
    lemma_ne("tmpfs-mode"@, "target"@, 1);
    lemma_ne("tmpfs-mode"@, "readonly"@, 0);
    lemma_ne("tmpfs-mode"@, "ro"@, 0);
    lemma_ne("tmpfs-mode"@, "tmpfs-size"@, 6);
    lemma_ne("notmpcopyup"@, "destination"@, 0);
    lemma_ne("notmpcopyup"@, "dst"@, 0);
    lemma_ne("notmpcopyup"@, "target"@, 0);
    lemma_ne("notmpcopyup"@, "readonly"@, 0);
    lemma_ne("notmpcopyup"@, "ro"@, 0);
    lemma_ne("notmpcopyup"@, "tmpfs-size"@, 0);
    lemma_ne("notmpcopyup"@, "tmpfs-mode"@, 0);
    lemma_ne("notmpcopyup"@, "tmpcopyup"@, 0);
    lemma_ne("chown"@, "destination"@, 0);
    lemma_ne("chown"@, "dst"@, 0);
    lemma_ne("chown"@, "target"@, 0);
    lemma_ne("chown"@, "readonly"@, 0);
    lemma_ne("chown"@, "ro"@, 0);
    lemma_ne("chown"@, "tmpfs-size"@, 0);
    lemma_ne("chown"@, "tmpfs-mode"@, 0);
    lemma_ne("chown"@, "tmpcopyup"@, 0);
    lemma_ne("chown"@, "notmpcopyup"@, 0);
}

/// A decimal option "key=N".
proof fn lemma_number_item(key: Seq<char>, n: u32, name: Seq<char>)
    requires
        !has_char(key, '='),
        !has_char(key, ','),
    ensures
        text_ok(kv(key, decimal(n as nat))),
        key_value(kv(key, decimal(n as nat))) == (key, Some(decimal(n as nat))),
        read_value(ValueKind::Number, name, Some(decimal(n as nat))) == Ok::<Val, MountErr>(
            Val::Number(n),
        ),
{
    lemma_digits_free(n as nat, 10);
    lemma_text_item(key, decimal(n as nat));
    lemma_parse_decimal(n as nat, u32::MAX as nat);
}

/// An octal option "key=N".
proof fn lemma_octal_item(key: Seq<char>, n: u32, name: Seq<char>)
    requires
        !has_char(key, '='),
        !has_char(key, ','),
    ensures
        text_ok(kv(key, octal(n))),
        key_value(kv(key, octal(n))) == (key, Some(octal(n))),
        read_value(ValueKind::Octal, name, Some(octal(n))) == Ok::<Val, MountErr>(Val::Number(n)),
{
    lemma_digits_free(n as nat, 8);
    lemma_text_item(key, octal(n));
    lemma_digits_of(n as nat, 8);
    assert(parse_unsigned(octal(n), 8, u32::MAX as nat) == Some(n as nat));
}

/// The "bind-propagation" option.
proof fn lemma_propagation_item(p: BindPropagation)
    ensures
        text_ok(kv("bind-propagation"@, propagation_name(p))),
        key_value(kv("bind-propagation"@, propagation_name(p))) == (
            "bind-propagation"@,
            Some(propagation_name(p)),
        ),
        read_value(ValueKind::Propagation, "bind-propagation"@, Some(propagation_name(p)))
            == Ok::<Val, MountErr>(Val::Propagation(p)),
{
    reveal_strlit("shared");
    reveal_strlit("slave");
    reveal_strlit("private");
    reveal_strlit("unbindable");
    reveal_strlit("rshared");
    reveal_strlit("rslave");
    reveal_strlit("runbindable");
    reveal_strlit("rprivate");
    lemma_word_free(propagation_name(p), ',');
    lemma_keys_free();
    lemma_no_eq_keys();
    lemma_text_item("bind-propagation"@, propagation_name(p));
    propagation_round_trip(p);
}

/// The "relabel" option.
proof fn lemma_relabel_item(r: SELinuxRelabel)
    ensures
        text_ok(kv("relabel"@, relabel_name(r))),
        key_value(kv("relabel"@, relabel_name(r))) == ("relabel"@, Some(relabel_name(r))),
        read_value(ValueKind::Relabel, "relabel"@, Some(relabel_name(r))) == Ok::<Val, MountErr>(
            Val::Relabel(r),
        ),
{
    reveal_strlit("shared");
    reveal_strlit("private");
    lemma_ne("private"@, "shared"@, 0);
    lemma_word_free(relabel_name(r), ',');
    lemma_keys_free();
    lemma_no_eq_keys();
    lemma_text_item("relabel"@, relabel_name(r));
}

/// The "idmap" option: bare for an empty idmap.
proof fn lemma_idmap_item(m: (Seq<Mapping>, Seq<Mapping>))
    ensures
        text_ok(idmap_item(m)),
        key_value(idmap_item(m)).0 == "idmap"@,
        read_value(ValueKind::IdmapValue, "idmap"@, key_value(idmap_item(m)).1) == Ok::<
            Val,
            MountErr,
        >(Val::IdmapValue(m)),
{
    lemma_keys_free();
    lemma_no_eq_keys();
    reveal_strlit("idmap");
    if m.0.len() == 0 && m.1.len() == 0 {
        lemma_key_alone("idmap"@);
        assert(m.0 =~= Seq::<Mapping>::empty());
        assert(m.1 =~= Seq::<Mapping>::empty());
    } else {
        let text = idmap_text(m.0, m.1);
        lemma_idmap_text_free(m.0, m.1, ',');
        assert(text.len() > 0) by {
            reveal(idmap_text);
            reveal_strlit("uids=");
            reveal_strlit("gids=");
        }
        lemma_text_item("idmap"@, text);
        idmap_round_trip(m.0, m.1);
    }
}

/// The "tmpfs-size" option of a limited size.
proof fn lemma_size_item(z: Size)
    requires
        z != Size::Unlimited,
    ensures
        text_ok(kv("tmpfs-size"@, size_text(z))),
        key_value(kv("tmpfs-size"@, size_text(z))) == ("tmpfs-size"@, Some(size_text(z))),
        read_value(ValueKind::SizeValue, "tmpfs-size"@, Some(size_text(z))) == Ok::<Val, MountErr>(
            Val::SizeValue(z),
        ),
{
    lemma_keys_free();
    lemma_no_eq_keys();
    let n: nat = match z {
        Size::Bytes(n) => n as nat,
        Size::Kibibytes(n) => n as nat,
        Size::Mebibytes(n) => n as nat,
        Size::Gibibytes(n) => n as nat,
        Size::Percent(n) => n as nat,
        Size::Unlimited => 0,
    };
    lemma_digits_free(n, 10);
    let d = decimal(n);
    if size_text(z) != d {
        let c = size_text(z).last();
        assert(size_text(z) == d.push(c));
        assert(c != ',');
        assert(!has_char(seq![c], ',')) by {
            if has_char(seq![c], ',') {
                let i = choose|i: int| 0 <= i < 1 && seq![c][i] == ',';
            }
        }
        lemma_concat_free(d, seq![c], ',');
        assert(d.push(c) =~= d + seq![c]);
    }
    lemma_text_item("tmpfs-size"@, size_text(z));
    size_round_trip(z);
}

/// The options of a bind or glob mount fold into slots that build it.
#[verifier::rlimit(40)]
proof fn lemma_bind_items(t: MountType, a: Seq<Seq<char>>, b: BindView)
    requires
        t == MountType::Bind || t == MountType::Glob,
        a.len() == 1,
        items_ok(a),
        text_ok(b.source),
        b.destination matches Some(d) ==> text_ok(d),
    ensures
        bind_items(a, b).len() >= 1,
        bind_items(a, b)[0] == a[0],
        items_ok(bind_items(a, b)),
        fold_options(t, kvs(bind_items(a, b).drop_first())) matches Ok(s) && build_mount(t, s)
            == Ok::<MountView, MountErr>(
            if t == MountType::Bind {
                MountView::Bind(b)
            } else {
                MountView::Glob(b)
            },
        ),
{
    lemma_fold_start(t, a);
    lemma_bind_keys();
    lemma_keys_free();
    lemma_no_eq_keys();
    lemma_true_items();
    let s0 = empty_slots(t);
    lemma_text_item("source"@, b.source);
    let x1 = kv("source"@, b.source);
    lemma_step(t, a, s0, true, x1, slot(0, ValueKind::Text, "source"@)->Some_0, Val::Text(b.source));
    let r1 = a.push(x1);
    let s1 = s0.update(0, Some(Val::Text(b.source)));
    let c2 = b.destination is Some;
    let x2 = kv("destination"@, b.destination->Some_0);
    if c2 {
        lemma_text_item("destination"@, b.destination->Some_0);
    }
    lemma_step(t, r1, s1, c2, x2, slot(1, ValueKind::Text, "destination"@)->Some_0, Val::Text(b.destination->Some_0));
    let r2 = push_if(r1, c2, x2);
    let s2 = if c2 { s1.update(1, Some(Val::Text(b.destination->Some_0))) } else { s1 };
    assert(r2 == push_some(r1, b.destination, |d: Seq<char>| kv("destination"@, d)));
    lemma_true_item("readonly"@);
    lemma_step(t, r2, s2, b.read_only, "readonly=true"@, slot(2, ValueKind::Flag, "readonly"@)->Some_0, Val::Flag(true));
    let r3 = push_if(r2, b.read_only, "readonly=true"@);
    let s3 = if b.read_only { s2.update(2, Some(Val::Flag(true))) } else { s2 };
    let c4 = b.bind_propagation != BindPropagation::RPrivate;
    let x4 = kv("bind-propagation"@, propagation_name(b.bind_propagation));
    lemma_propagation_item(b.bind_propagation);
    lemma_step(t, r3, s3, c4, x4, slot(3, ValueKind::Propagation, "bind-propagation"@)->Some_0, Val::Propagation(b.bind_propagation));
    let r4 = push_if(r3, c4, x4);
    let s4 = if c4 { s3.update(3, Some(Val::Propagation(b.bind_propagation))) } else { s3 };
    lemma_true_item("bind-nonrecursive"@);
    lemma_step(t, r4, s4, b.bind_nonrecursive, "bind-nonrecursive=true"@, slot(4, ValueKind::Flag, "bind-nonrecursive"@)->Some_0, Val::Flag(true));
    let r5 = push_if(r4, b.bind_nonrecursive, "bind-nonrecursive=true"@);
    let s5 = if b.bind_nonrecursive { s4.update(4, Some(Val::Flag(true))) } else { s4 };
    let c6 = b.relabel is Some;
    let x6 = kv("relabel"@, relabel_name(b.relabel->Some_0));
    lemma_relabel_item(b.relabel->Some_0);
    lemma_step(t, r5, s5, c6, x6, slot(5, ValueKind::Relabel, "relabel"@)->Some_0, Val::Relabel(b.relabel->Some_0));
    let r6 = push_if(r5, c6, x6);
    let s6 = if c6 { s5.update(5, Some(Val::Relabel(b.relabel->Some_0))) } else { s5 };
    assert(r6 == push_some(r5, b.relabel, |r: SELinuxRelabel| kv("relabel"@, relabel_name(r))));
    let c7 = b.idmap is Some;
    let x7 = idmap_item(b.idmap->Some_0);
    lemma_idmap_item(b.idmap->Some_0);
    lemma_step(t, r6, s6, c7, x7, slot(6, ValueKind::IdmapValue, "idmap"@)->Some_0, Val::IdmapValue(b.idmap->Some_0));
    let r7 = push_if(r6, c7, x7);
    let s7 = if c7 { s6.update(6, Some(Val::IdmapValue(b.idmap->Some_0))) } else { s6 };
    assert(r7 == push_some(r6, b.idmap, |m: (Seq<Mapping>, Seq<Mapping>)| idmap_item(m)));
    lemma_true_item("chown"@);
    lemma_step(t, r7, s7, b.chown, "chown=true"@, slot(7, ValueKind::Flag, "chown"@)->Some_0, Val::Flag(true));
    let s8 = if b.chown { s7.update(7, Some(Val::Flag(true))) } else { s7 };
    assert(bind_items(a, b) == push_if(r7, b.chown, "chown=true"@));
    assert(build_mount(t, s8) == Ok::<MountView, MountErr>(
        if t == MountType::Bind {
            MountView::Bind(b)
        } else {
            MountView::Glob(b)
        },
    ));
}

/// The options of a devpts mount fold into slots that build it.
#[verifier::rlimit(40)]
proof fn lemma_devpts_items(a: Seq<Seq<char>>, d: DevPtsView)
    requires
        a.len() == 1,
        items_ok(a),
        text_ok(d.destination),
    ensures
        devpts_items(a, d).len() >= 1,
        devpts_items(a, d)[0] == a[0],
        items_ok(devpts_items(a, d)),
        fold_options(MountType::DevPts, kvs(devpts_items(a, d).drop_first())) matches Ok(s)
            && build_mount(MountType::DevPts, s) == Ok::<MountView, MountErr>(MountView::DevPts(d)),
{
    let t = MountType::DevPts;
    lemma_fold_start(t, a);
    lemma_devpts_keys();
    lemma_keys_free();
    lemma_no_eq_keys();
    let s0 = empty_slots(t);
    lemma_text_item("destination"@, d.destination);
    let x1 = kv("destination"@, d.destination);
    lemma_step(t, a, s0, true, x1, slot(0, ValueKind::Text, "destination"@)->Some_0, Val::Text(d.destination));
    let r1 = a.push(x1);
    let s1 = s0.update(0, Some(Val::Text(d.destination)));
    let x2 = kv("uid"@, decimal(d.uid as nat));
    lemma_number_item("uid"@, d.uid, "uid"@);
    lemma_step(t, r1, s1, d.uid != 0, x2, slot(1, ValueKind::Number, "uid"@)->Some_0, Val::Number(d.uid));
    let r2 = push_if(r1, d.uid != 0, x2);
    let s2 = if d.uid != 0 { s1.update(1, Some(Val::Number(d.uid))) } else { s1 };
    let x3 = kv("gid"@, decimal(d.gid as nat));
    lemma_number_item("gid"@, d.gid, "gid"@);
    lemma_step(t, r2, s2, d.gid != 0, x3, slot(2, ValueKind::Number, "gid"@)->Some_0, Val::Number(d.gid));
    let r3 = push_if(r2, d.gid != 0, x3);
    let s3 = if d.gid != 0 { s2.update(2, Some(Val::Number(d.gid))) } else { s2 };
    let x4 = kv("mode"@, octal(d.mode));
    lemma_octal_item("mode"@, d.mode, "mode"@);
    lemma_step(t, r3, s3, d.mode != 0o600, x4, slot(3, ValueKind::Octal, "mode"@)->Some_0, Val::Number(d.mode));
    let r4 = push_if(r3, d.mode != 0o600, x4);
    let s4 = if d.mode != 0o600 { s3.update(3, Some(Val::Number(d.mode))) } else { s3 };
    let x5 = kv("max"@, decimal(d.max as nat));
    lemma_number_item("max"@, d.max, "max"@);
    lemma_step(t, r4, s4, d.max != 1_048_576, x5, slot(4, ValueKind::Number, "max"@)->Some_0, Val::Number(d.max));
    let s5 = if d.max != 1_048_576 { s4.update(4, Some(Val::Number(d.max))) } else { s4 };
    assert(devpts_items(a, d) == push_if(r4, d.max != 1_048_576, x5));
    assert(build_mount(t, s5) == Ok::<MountView, MountErr>(MountView::DevPts(d)));
}

/// The options of a volume mount fold into slots that build it.
#[verifier::rlimit(40)]
proof fn lemma_volume_items(a: Seq<Seq<char>>, v: VolumeView)
    requires
        a.len() == 1,
        items_ok(a),
        v.source matches Some(s) ==> text_ok(s),
        text_ok(v.destination),
    ensures
        volume_items(a, v).len() >= 1,
        volume_items(a, v)[0] == a[0],
        items_ok(volume_items(a, v)),
        fold_options(MountType::Volume, kvs(volume_items(a, v).drop_first())) matches Ok(s)
            && build_mount(MountType::Volume, s) == Ok::<MountView, MountErr>(MountView::Volume(v)),
{
    let t = MountType::Volume;
    lemma_fold_start(t, a);
    lemma_volume_keys();
    lemma_keys_free();
    lemma_no_eq_keys();
    lemma_true_items();
    let s0 = empty_slots(t);
    let c1 = v.source is Some;
    let x1 = kv("source"@, v.source->Some_0);
    if c1 {
        lemma_text_item("source"@, v.source->Some_0);
    }
    lemma_step(t, a, s0, c1, x1, slot(0, ValueKind::Text, "source"@)->Some_0, Val::Text(v.source->Some_0));
    let r1 = push_if(a, c1, x1);
    let s1 = if c1 { s0.update(0, Some(Val::Text(v.source->Some_0))) } else { s0 };
    assert(r1 == push_some(a, v.source, |s: Seq<char>| kv("source"@, s)));
    lemma_text_item("destination"@, v.destination);
    let x2 = kv("destination"@, v.destination);
    lemma_step(t, r1, s1, true, x2, slot(1, ValueKind::Text, "destination"@)->Some_0, Val::Text(v.destination));
    let r2 = r1.push(x2);
    let s2 = s1.update(1, Some(Val::Text(v.destination)));
    lemma_true_item("readonly"@);
    lemma_step(t, r2, s2, v.read_only, "readonly=true"@, slot(2, ValueKind::Flag, "readonly"@)->Some_0, Val::Flag(true));
    let r3 = push_if(r2, v.read_only, "readonly=true"@);
    let s3 = if v.read_only { s2.update(2, Some(Val::Flag(true))) } else { s2 };
    lemma_true_item("chown"@);
    lemma_step(t, r3, s3, v.chown, "chown=true"@, slot(3, ValueKind::Flag, "chown"@)->Some_0, Val::Flag(true));
    let r4 = push_if(r3, v.chown, "chown=true"@);
    let s4 = if v.chown { s3.update(3, Some(Val::Flag(true))) } else { s3 };
    let c5 = v.idmap is Some;
    let x5 = idmap_item(v.idmap->Some_0);
    lemma_idmap_item(v.idmap->Some_0);
    lemma_step(t, r4, s4, c5, x5, slot(4, ValueKind::IdmapValue, "idmap"@)->Some_0, Val::IdmapValue(v.idmap->Some_0));
    let s5 = if c5 { s4.update(4, Some(Val::IdmapValue(v.idmap->Some_0))) } else { s4 };
    assert(volume_items(a, v) == push_if(r4, c5, x5));
    assert(build_mount(t, s5) == Ok::<MountView, MountErr>(MountView::Volume(v)));
}

/// The options of a tmpfs or ramfs mount fold into slots that build it.
#[verifier::rlimit(40)]
proof fn lemma_tmpfs_items(t: MountType, a: Seq<Seq<char>>, m: TmpfsView)
    requires
        t == MountType::Tmpfs || t == MountType::Ramfs,
        a.len() == 1,
        items_ok(a),
        text_ok(m.destination),
    ensures
        tmpfs_items(a, m).len() >= 1,
        tmpfs_items(a, m)[0] == a[0],
        items_ok(tmpfs_items(a, m)),
        fold_options(t, kvs(tmpfs_items(a, m).drop_first())) matches Ok(s) && build_mount(t, s)
            == Ok::<MountView, MountErr>(
            if t == MountType::Ramfs {
                MountView::Ramfs(m)
            } else {
                MountView::Tmpfs(m)
            },
        ),
{
    lemma_fold_start(t, a);
    lemma_tmpfs_keys();
    lemma_keys_free();
    lemma_no_eq_keys();
    lemma_true_items();
    let s0 = empty_slots(t);
    lemma_text_item("destination"@, m.destination);
    let x1 = kv("destination"@, m.destination);
    lemma_step(t, a, s0, true, x1, slot(0, ValueKind::Text, "destination"@)->Some_0, Val::Text(m.destination));
    let r1 = a.push(x1);
    let s1 = s0.update(0, Some(Val::Text(m.destination)));
    lemma_true_item("readonly"@);
    let sl2 = Slot { index: 1, kind: ValueKind::Flag, unique: false, name: "readonly"@ };
    lemma_step(t, r1, s1, m.read_only, "readonly=true"@, sl2, Val::Flag(true));
    let r2 = push_if(r1, m.read_only, "readonly=true"@);
    let s2 = if m.read_only { s1.update(1, Some(Val::Flag(true))) } else { s1 };
    let c3 = m.size != Size::Unlimited;
    let x3 = kv("tmpfs-size"@, size_text(m.size));
    if c3 {
        lemma_size_item(m.size);
    }
    lemma_step(t, r2, s2, c3, x3, slot(2, ValueKind::SizeValue, "tmpfs-size"@)->Some_0, Val::SizeValue(m.size));
    let r3 = push_if(r2, c3, x3);
    let s3 = if c3 { s2.update(2, Some(Val::SizeValue(m.size))) } else { s2 };
    let c4 = m.mode != 0o1777;
    let x4 = kv("tmpfs-mode"@, octal(m.mode));
    lemma_octal_item("tmpfs-mode"@, m.mode, "tmpfs-mode"@);
    lemma_step(t, r3, s3, c4, x4, slot(3, ValueKind::Octal, "tmpfs-mode"@)->Some_0, Val::Number(m.mode));
    let r4 = push_if(r3, c4, x4);
    let s4 = if c4 { s3.update(3, Some(Val::Number(m.mode))) } else { s3 };
    reveal_strlit("notmpcopyup");
    lemma_key_alone("notmpcopyup"@);
    let sl5 = Slot { index: 4, kind: ValueKind::Switch(false), unique: false, name: "notmpcopyup"@ };
    lemma_step(t, r4, s4, !m.tmpcopyup, "notmpcopyup"@, sl5, Val::Flag(false));
    let r5 = push_if(r4, !m.tmpcopyup, "notmpcopyup"@);
    let s5 = if !m.tmpcopyup { s4.update(4, Some(Val::Flag(false))) } else { s4 };
    lemma_true_item("chown"@);
    let sl6 = Slot { index: 5, kind: ValueKind::Flag, unique: false, name: "chown"@ };
    lemma_step(t, r5, s5, m.chown, "chown=true"@, sl6, Val::Flag(true));
    let s6 = if m.chown { s5.update(5, Some(Val::Flag(true))) } else { s5 };
    assert(tmpfs_items(a, m) == push_if(r5, m.chown, "chown=true"@));
    assert(build_mount(t, s6) == Ok::<MountView, MountErr>(
        if t == MountType::Ramfs {
            MountView::Ramfs(m)
        } else {
            MountView::Tmpfs(m)
        },
    ));
}

/// The paths and names of a mount can stand as option values: none is empty or holds ','.
pub open spec fn mount_texts_ok(m: MountView) -> bool {
    match m {
        MountView::Bind(b) | MountView::Glob(b) => text_ok(b.source) && (b.destination matches Some(
            d,
        ) ==> text_ok(d)),
        MountView::DevPts(d) => text_ok(d.destination),
        MountView::Image(i) => text_ok(i.source) && text_ok(i.destination),
        MountView::Ramfs(t) | MountView::Tmpfs(t) => text_ok(t.destination),
        MountView::Volume(v) => (v.source matches Some(s) ==> text_ok(s)) && text_ok(v.destination),
    }
}

/// Parsing the mount options text written for a mount gives the mount back, when its paths and
/// names are not empty and hold no ','.
pub proof fn mount_round_trip(m: MountView)
    requires
        mount_texts_ok(m),
    ensures
        parse_mount(mount_text(m)) == Ok::<MountView, MountErr>(m),
{
    let t = mount_type(m);
    let a = seq![kv("type"@, kind_name(t))];
    reveal_strlit("type");
    lemma_kind_name(t);
    lemma_word_free("type"@, '=');
    lemma_word_free("type"@, ',');
    lemma_text_item("type"@, kind_name(t));
    assert(items_ok(a));
    match m {
        MountView::Bind(b) => lemma_bind_items(t, a, b),
        MountView::Glob(b) => lemma_bind_items(t, a, b),
        MountView::DevPts(d) => lemma_devpts_items(a, d),
        MountView::Image(i) => lemma_image_items(a, i),
        MountView::Ramfs(v) => lemma_tmpfs_items(t, a, v),
        MountView::Tmpfs(v) => lemma_tmpfs_items(t, a, v),
        MountView::Volume(v) => lemma_volume_items(a, v),
    }
    lemma_parse_items(t, mount_items(m));
}

/// The keys of mount options hold no '='.
proof fn lemma_no_eq_keys()
    ensures
        !has_char("source"@, '='),
        !has_char("destination"@, '='),
        !has_char("readwrite"@, '='),
        !has_char("readonly"@, '='),
        !has_char("bind-propagation"@, '='),
        !has_char("bind-nonrecursive"@, '='),
        !has_char("relabel"@, '='),
        !has_char("idmap"@, '='),
        !has_char("chown"@, '='),
        !has_char("uid"@, '='),
        !has_char("gid"@, '='),
        !has_char("mode"@, '='),
        !has_char("max"@, '='),
        !has_char("tmpfs-size"@, '='),
        !has_char("tmpfs-mode"@, '='),
        !has_char("notmpcopyup"@, '='),
{
    lemma_literals_free('=');
}

/// The keys and fixed values of mount options hold no ','.
proof fn lemma_keys_free()
    ensures
        !has_char("source"@, ','),
        !has_char("destination"@, ','),
        !has_char("readwrite"@, ','),
        !has_char("readonly"@, ','),
        !has_char("bind-propagation"@, ','),
        !has_char("bind-nonrecursive"@, ','),
        !has_char("relabel"@, ','),
        !has_char("idmap"@, ','),
        !has_char("chown"@, ','),
        !has_char("uid"@, ','),
        !has_char("gid"@, ','),
        !has_char("mode"@, ','),
        !has_char("max"@, ','),
        !has_char("tmpfs-size"@, ','),
        !has_char("tmpfs-mode"@, ','),
        !has_char("notmpcopyup"@, ','),
        !has_char("true"@, ','),
{
    reveal_strlit("true");
    lemma_literals_free(',');
    lemma_word_free("true"@, ',');
}

/// A word of lowercase letters and '-' holds no `c` outside of them.
proof fn lemma_word_free(w: Seq<char>, c: char)
    requires
        !('a' <= c <= 'z' || c == '-'),
        forall|i: int| 0 <= i < w.len() ==> ('a' <= #[trigger] w[i] <= 'z' || w[i] == '-'),
    ensures
        !has_char(w, c),
{
    if has_char(w, c) {
        let i = choose|i: int| 0 <= i < w.len() && w[i] == c;
        assert('a' <= w[i] <= 'z' || w[i] == '-');
    }
}

/// The keys of mount options hold no `c` that is neither a lowercase letter nor '-'.
proof fn lemma_literals_free(c: char)
    requires
        !('a' <= c <= 'z' || c == '-'),
    ensures
        !has_char("source"@, c),
        !has_char("destination"@, c),
        !has_char("readwrite"@, c),
        !has_char("readonly"@, c),
        !has_char("bind-propagation"@, c),
        !has_char("bind-nonrecursive"@, c),
        !has_char("relabel"@, c),
        !has_char("idmap"@, c),
        !has_char("chown"@, c),
        !has_char("uid"@, c),
        !has_char("gid"@, c),
        !has_char("mode"@, c),
        !has_char("max"@, c),
        !has_char("tmpfs-size"@, c),
        !has_char("tmpfs-mode"@, c),
        !has_char("notmpcopyup"@, c),
{
    reveal_strlit("source");
    reveal_strlit("destination");
    reveal_strlit("readwrite");
    reveal_strlit("readonly");
    reveal_strlit("bind-propagation");
    reveal_strlit("bind-nonrecursive");
    reveal_strlit("relabel");
    reveal_strlit("idmap");
    reveal_strlit("chown");
    reveal_strlit("uid");
    reveal_strlit("gid");
    reveal_strlit("mode");
    reveal_strlit("max");
    reveal_strlit("tmpfs-size");
    reveal_strlit("tmpfs-mode");
    reveal_strlit("notmpcopyup");
    lemma_word_free("source"@, c);
    lemma_word_free("destination"@, c);
    lemma_word_free("readwrite"@, c);
    lemma_word_free("readonly"@, c);
    lemma_word_free("bind-propagation"@, c);
    lemma_word_free("bind-nonrecursive"@, c);
    lemma_word_free("relabel"@, c);
    lemma_word_free("idmap"@, c);
    lemma_word_free("chown"@, c);
    lemma_word_free("uid"@, c);
    lemma_word_free("gid"@, c);
    lemma_word_free("mode"@, c);
    lemma_word_free("max"@, c);
    lemma_word_free("tmpfs-size"@, c);
    lemma_word_free("tmpfs-mode"@, c);
    lemma_word_free("notmpcopyup"@, c);
}

/// A key of the destination: "destination", "dst" or "target".
pub open spec fn destination_key(k: Seq<char>) -> bool {
    k == "destination"@ || k == "dst"@ || k == "target"@
}

/// Every mount type takes the destination under each of its three keys, and they all name the
/// same option.
pub proof fn destination_keys_alike(t: MountType, k1: Seq<char>, k2: Seq<char>)
    requires
        destination_key(k1),
        destination_key(k2),
    ensures
        slot_of(t, k1) == slot_of(t, k2),
        slot_of(t, k1) matches Some(s) && s.name == "destination"@,
{
    reveal_strlit("destination");
    reveal_strlit("dst");
    reveal_strlit("target");
    reveal_strlit("source");
    reveal_strlit("src");
    lemma_ne("dst"@, "src"@, 0);
    assert("destination"@ != "source"@) by {
        assert("destination"@.len() != "source"@.len());
    }
    assert("destination"@ != "src"@) by {
        assert("destination"@.len() != "src"@.len());
    }
    assert("target"@ != "src"@) by {
        assert("target"@.len() != "src"@.len());
    }
    lemma_ne("target"@, "source"@, 0);
}

/// Folding options where one destination key stands in for another gives the same.
proof fn lemma_fold_alias(
    t: MountType,
    es: Seq<(Seq<char>, Option<Seq<char>>)>,
    i: int,
    k: Seq<char>,
    n: int,
)
    requires
        0 <= i < es.len(),
        0 <= n <= es.len(),
        destination_key(es[i].0),
        destination_key(k),
    ensures
        fold_options(t, es.take(n)) == fold_options(t, es.update(i, (k, es[i].1)).take(n)),
    decreases n,
{
    let es2 = es.update(i, (k, es[i].1));
    if n > 0 {
        lemma_fold_alias(t, es, i, k, n - 1);
        assert(es.take(n).drop_last() =~= es.take(n - 1));
        assert(es2.take(n).drop_last() =~= es2.take(n - 1));
        assert(es.take(n).last() == es[n - 1]);
        assert(es2.take(n).last() == es2[n - 1]);
        if n - 1 == i {
            destination_keys_alike(t, es[i].0, k);
        } else {
            assert(es2[n - 1] == es[n - 1]);
        }
    } else {
        assert(es.take(0) =~= es2.take(0));
    }
}

/// Mount options that differ only in which of "destination", "dst" and "target" one option is
/// given under parse to the same result.
pub proof fn destination_keys_interchangeable(s1: Seq<char>, s2: Seq<char>, i: int, k: Seq<char>)
    requires
        1 <= i < entries(s1).len(),
        destination_key(entries(s1)[i].0),
        destination_key(k),
        entries(s2) == entries(s1).update(i, (k, entries(s1)[i].1)),
    ensures
        parse_mount(s1) == parse_mount(s2),
{
    let es = entries(s1);
    let es2 = entries(s2);
    assert(es2[0] == es[0]);
    let rest = es.drop_first();
    let j = i - 1;
    lemma_fold_alias(MountType::Bind, rest, j, k, rest.len() as int);
    lemma_fold_alias(MountType::DevPts, rest, j, k, rest.len() as int);
    lemma_fold_alias(MountType::Glob, rest, j, k, rest.len() as int);
    lemma_fold_alias(MountType::Image, rest, j, k, rest.len() as int);
    lemma_fold_alias(MountType::Ramfs, rest, j, k, rest.len() as int);
    lemma_fold_alias(MountType::Tmpfs, rest, j, k, rest.len() as int);
    lemma_fold_alias(MountType::Volume, rest, j, k, rest.len() as int);
    assert(rest.take(rest.len() as int) =~= rest);
    assert(es2.drop_first() =~= rest.update(j, (k, rest[j].1)));
    assert(rest.update(j, (k, rest[j].1)).take(rest.len() as int) =~= rest.update(j, (k, rest[j].1)));
}


/// The keys under which the option `name` is given: "destination", "dst" or "target";
/// "source" or "src"; "readonly" or "ro"; "readwrite" or "rw"; "chown" or "U".
pub open spec fn option_key(name: Seq<char>, k: Seq<char>) -> bool {
    ||| name == "destination"@ && destination_key(k)
    ||| name == "source"@ && (k == "source"@ || k == "src"@)
    ||| name == "readonly"@ && (k == "readonly"@ || k == "ro"@)
    ||| name == "readwrite"@ && (k == "readwrite"@ || k == "rw"@)
    ||| name == "chown"@ && (k == "chown"@ || k == "U"@)
}

/// How each mount type reads the keys of the options with a short key: the short key as the
/// long one, the option's own slot or none.
proof fn lemma_short_keys(t: MountType)
    ensures
        slot_of(t, "src"@) == slot_of(t, "source"@),
        slot_of(t, "ro"@) == slot_of(t, "readonly"@),
        slot_of(t, "rw"@) == slot_of(t, "readwrite"@),
        slot_of(t, "U"@) == slot_of(t, "chown"@),
        slot_of(t, "source"@) matches Some(s) ==> s.name == "source"@,
        slot_of(t, "readonly"@) matches Some(s) ==> s.name == "readonly"@,
        slot_of(t, "readwrite"@) matches Some(s) ==> s.name == "readwrite"@,
        slot_of(t, "chown"@) matches Some(s) ==> s.name == "chown"@,
        slot_of(t, "source"@) is Some <==> t != MountType::DevPts && t != MountType::Ramfs && t
            != MountType::Tmpfs,
        slot_of(t, "readonly"@) is Some <==> t != MountType::DevPts && t != MountType::Image,
        slot_of(t, "chown"@) is Some <==> t != MountType::DevPts && t != MountType::Image,
        slot_of(t, "readwrite"@) is Some <==> t == MountType::Image,
{
    reveal_strlit("source");
    reveal_strlit("src");
    reveal_strlit("destination");
    reveal_strlit("dst");
    reveal_strlit("target");
    reveal_strlit("readonly");
    reveal_strlit("ro");
    reveal_strlit("bind-propagation");
    reveal_strlit("bind-nonrecursive");
    reveal_strlit("relabel");
    reveal_strlit("idmap");
    reveal_strlit("chown");
    reveal_strlit("U");
    reveal_strlit("uid");
    reveal_strlit("gid");
    reveal_strlit("mode");
    reveal_strlit("max");
    reveal_strlit("readwrite");
    reveal_strlit("rw");
    reveal_strlit("tmpfs-size");
    reveal_strlit("tmpfs-mode");
    reveal_strlit("tmpcopyup");
    reveal_strlit("notmpcopyup");
    lemma_ne("destination"@, "notmpcopyup"@, 0);
    lemma_ne("dst"@, "src"@, 0);
    lemma_ne("dst"@, "uid"@, 0);
    lemma_ne("dst"@, "gid"@, 0);
    lemma_ne("dst"@, "max"@, 0);
    lemma_ne("target"@, "source"@, 0);
    lemma_ne("source"@, "target"@, 0);
    lemma_ne("src"@, "dst"@, 0);
    lemma_ne("src"@, "uid"@, 0);
    lemma_ne("src"@, "gid"@, 0);
    lemma_ne("src"@, "max"@, 0);
    lemma_ne("ro"@, "rw"@, 1);
    lemma_ne("readwrite"@, "tmpcopyup"@, 0);
    lemma_ne("rw"@, "ro"@, 1);
    lemma_ne("chown"@, "idmap"@, 0);
    assert("source"@.len() == 6);
    assert("src"@.len() == 3);
    assert("destination"@.len() == 11);
    assert("dst"@.len() == 3);
    assert("target"@.len() == 6);
    assert("readonly"@.len() == 8);
    assert("ro"@.len() == 2);
    assert("bind-propagation"@.len() == 16);
    assert("bind-nonrecursive"@.len() == 17);
    assert("relabel"@.len() == 7);
    assert("idmap"@.len() == 5);
    assert("chown"@.len() == 5);
    assert("U"@.len() == 1);
    assert("uid"@.len() == 3);
    assert("gid"@.len() == 3);
    assert("mode"@.len() == 4);
    assert("max"@.len() == 3);
    assert("readwrite"@.len() == 9);
    assert("rw"@.len() == 2);
    assert("tmpfs-size"@.len() == 10);
    assert("tmpfs-mode"@.len() == 10);
    assert("tmpcopyup"@.len() == 9);
    assert("notmpcopyup"@.len() == 11);
    match t {
        MountType::Bind | MountType::Glob => {},
        MountType::DevPts => {},
        MountType::Image => {},
        MountType::Volume => {},
        MountType::Ramfs | MountType::Tmpfs => {},
    }
}

/// The keys of one option are alike: every mount type reads them into the same slot, the
/// option's own, or takes none of them. Bind, glob, image and volume mounts take a source;
/// every type a destination; bind, glob, volume, tmpfs and ramfs mounts `readonly` and `chown`;
/// image mounts `readwrite`.
pub proof fn option_keys_alike(t: MountType, name: Seq<char>, k1: Seq<char>, k2: Seq<char>)
    requires
        option_key(name, k1),
        option_key(name, k2),
    ensures
        slot_of(t, k1) == slot_of(t, k2),
        slot_of(t, k1) matches Some(s) ==> s.name == name,
        name == "destination"@ ==> slot_of(t, k1) is Some,
        name == "source"@ ==> (slot_of(t, k1) is Some <==> t != MountType::DevPts && t
            != MountType::Ramfs && t != MountType::Tmpfs),
        name == "readonly"@ || name == "chown"@ ==> (slot_of(t, k1) is Some <==> t
            != MountType::DevPts && t != MountType::Image),
        name == "readwrite"@ ==> (slot_of(t, k1) is Some <==> t == MountType::Image),
{
    reveal_strlit("destination");
    reveal_strlit("source");
    reveal_strlit("readonly");
    reveal_strlit("readwrite");
    reveal_strlit("chown");
    assert("destination"@.len() == 11);
    assert("source"@.len() == 6);
    assert("readonly"@.len() == 8);
    assert("readwrite"@.len() == 9);
    assert("chown"@.len() == 5);
    if name == "destination"@ {
        destination_keys_alike(t, k1, k2);
    } else {
        lemma_short_keys(t);
    }
}

/// Folding options where one key of an option stands in for another gives the same.
proof fn lemma_fold_same_option(
    t: MountType,
    es: Seq<(Seq<char>, Option<Seq<char>>)>,
    i: int,
    name: Seq<char>,
    k: Seq<char>,
    n: int,
)
    requires
        0 <= i < es.len(),
        0 <= n <= es.len(),
        option_key(name, es[i].0),
        option_key(name, k),
        slot_of(t, es[i].0) is Some,
    ensures
        fold_options(t, es.take(n)) == fold_options(t, es.update(i, (k, es[i].1)).take(n)),
    decreases n,
{
    let es2 = es.update(i, (k, es[i].1));
    if n > 0 {
        lemma_fold_same_option(t, es, i, name, k, n - 1);
        assert(es.take(n).drop_last() =~= es.take(n - 1));
        assert(es2.take(n).drop_last() =~= es2.take(n - 1));
        assert(es.take(n).last() == es[n - 1]);
        assert(es2.take(n).last() == es2[n - 1]);
        if n - 1 == i {
            option_keys_alike(t, name, es[i].0, k);
        } else {
            assert(es2[n - 1] == es[n - 1]);
        }
    } else {
        assert(es.take(0) =~= es2.take(0));
    }
}

/// Mount options that differ only in which key of one option it is given under ("src" for
/// "source", "ro" for "readonly", "U" for "chown", ...) parse to the same result, where the
/// mount type that they name takes the option (an option that it does not take is refused under
/// the key as it was given).
pub proof fn option_keys_interchangeable(
    s1: Seq<char>,
    s2: Seq<char>,
    i: int,
    name: Seq<char>,
    k: Seq<char>,
)
    requires
        1 <= i < entries(s1).len(),
        option_key(name, entries(s1)[i].0),
        option_key(name, k),
        entries(s2) == entries(s1).update(i, (k, entries(s1)[i].1)),
        entries(s1)[0].1 matches Some(v) && kind_of(v) matches Some(t) ==> slot_of(t, name) is Some,
    ensures
        parse_mount(s1) == parse_mount(s2),
{
    let es = entries(s1);
    let es2 = entries(s2);
    assert(es2[0] == es[0]);
    let rest = es.drop_first();
    let j = i - 1;
    if let Some(v) = es[0].1 {
        if let Some(t) = kind_of(v) {
            option_keys_alike(t, name, es[i].0, name);
            lemma_fold_same_option(t, rest, j, name, k, rest.len() as int);
            assert(rest.take(rest.len() as int) =~= rest);
            assert(es2.drop_first() =~= rest.update(j, (k, rest[j].1)));
            assert(rest.update(j, (k, rest[j].1)).take(rest.len() as int) =~= rest.update(
                j,
                (k, rest[j].1),
            ));
        }
    }
}

} // verus!
