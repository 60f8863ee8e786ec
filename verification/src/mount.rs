//! [`Mount`] for the `Mount=` Quadlet option of a container and `podman run --mount`.
//!
//! A mount is written as mount options (see [`crate::mount_options`]): "type=TYPE" first, then
//! the options of that type. Each type accepts a fixed set of options, some under several names;
//! unknown options are refused, and so are repeated ones, except where noted.

pub mod ptys;

use vstd::prelude::*;

use crate::text::opt_seq;

use crate::idmap::{Idmap, IdmapErr, Mapping, ParseIdmapError, idmap_text, parse_idmap};
use crate::mount_opts::{BindPropagation, SELinuxRelabel, Size, propagation_name, propagation_of, relabel_name, size_text, parse_size};
use crate::mount_options::{Entry, bool_value, entries, entries_view, field_item, field_items, options_string, parse_bool};
use crate::num::{digits_of, decimal, parse_unsigned, parse_octal_u32, parse_u32};
use crate::text::{join, push_char, push_if, push_some, push_str, str_eq};
use crate::value::{Field, Scalar, Value, scalar};

verus! {

/// Mode bits with read and write permission for the owner, the default mode of a devpts mount.
///
/// Built with `umask`: `USER_READ.with(USER_WRITE)`, read back with `u32::from`. In `umask`,
/// `USER_READ` is 0o400, `USER_WRITE` is 0o200 and `with` is the bitwise or of the two modes, so
/// the contract claims 0o600.
#[verifier::external_body]
fn devpts_mode_default() -> (m: u32)
    ensures
        m == 0o600,
{
    u32::from(umask::USER_READ.with(umask::USER_WRITE))
}

/// Mode bits with all permissions for everybody and the sticky bit, the default mode of a tmpfs
/// or ramfs mount.
///
/// Built with `umask`: `Mode::all().with_extra(STICKY)`, read back with `u32::from`. In `umask`,
/// `Mode::all()` is 0o777, `STICKY` is 0o1000 and `with_extra` is the bitwise or, so the
/// contract claims 0o1777.
#[verifier::external_body]
fn tmpfs_mode_default() -> (m: u32)
    ensures
        m == 0o1777,
{
    u32::from(umask::Mode::all().with_extra(umask::STICKY))
}

/// Bind or glob type [`Mount`].
#[derive(Debug, Clone, PartialEq, Eq)]
pub struct Bind {
    /// Mount source spec.
    pub source: String,
    /// Mount destination spec.
    pub destination: Option<String>,
    /// Only read permissions.
    pub read_only: bool,
    /// Bind propagation type.
    pub bind_propagation: BindPropagation,
    /// Do not set up a recursive bind mount.
    pub bind_nonrecursive: bool,
    /// SELinux relabeling.
    pub relabel: Option<SELinuxRelabel>,
    /// Create an idmapped mount to the target user namespace in the container.
    pub idmap: Option<Idmap>,
    /// Change recursively the owner and group of the source to match the container.
    pub chown: bool,
}

/// devpts type [`Mount`].
#[derive(Debug, Clone, PartialEq, Eq)]
pub struct DevPts {
    /// Mount destination spec.
    pub destination: String,
    /// UID of the file owner.
    pub uid: u32,
    /// GID of the file owner.
    pub gid: u32,
    /// Permission mask for the file (default 0o600).
    pub mode: u32,
    /// Maximum number of PTYs (default 1048576).
    pub max: u32,
}

/// Image type [`Mount`].
#[derive(Debug, Clone, PartialEq, Eq)]
pub struct Image {
    /// Mount source spec.
    pub source: String,
    /// Mount destination spec.
    pub destination: String,
    /// Read-write permission.
    pub read_write: bool,
}

/// Volume type [`Mount`].
#[derive(Debug, Clone, PartialEq, Eq)]
pub struct Volume {
    /// Mount source spec.
    pub source: Option<String>,
    /// Mount destination spec.
    pub destination: String,
    /// Only read permissions.
    pub read_only: bool,
    /// Change recursively the owner and group of the source to match the container.
    pub chown: bool,
    /// Create an idmapped mount to the target user namespace in the container.
    pub idmap: Option<Idmap>,
}

/// tmpfs and ramfs type [`Mount`].
#[derive(Debug, Clone, PartialEq, Eq)]
pub struct Tmpfs {
    /// Mount destination spec.
    pub destination: String,
    /// Read only permission.
    pub read_only: bool,
    /// Size of the mount; unlimited by default.
    pub size: Size,
    /// File mode of the mount (default 0o1777).
    pub mode: u32,
    /// Copy up the image directory at the same location to the mount; on by default.
    pub tmpcopyup: bool,
    /// Change recursively the owner and group of the source to match the container.
    pub chown: bool,
}

/// Filesystem mount types to attach to a container.
#[derive(Debug, Clone, PartialEq, Eq)]
pub enum Mount {
    Bind(Bind),
    DevPts(DevPts),
    Glob(Bind),
    Image(Image),
    Ramfs(Tmpfs),
    Tmpfs(Tmpfs),
    Volume(Volume),
}

/// The mappings of an optional idmap.
pub open spec fn opt_idmap(o: Option<Idmap>) -> Option<(Seq<Mapping>, Seq<Mapping>)> {
    match o {
        Some(m) => Some(m@),
        None => None,
    }
}

/// [`Bind`] with its texts as character sequences.
pub ghost struct BindView {
    pub source: Seq<char>,
    pub destination: Option<Seq<char>>,
    pub read_only: bool,
    pub bind_propagation: BindPropagation,
    pub bind_nonrecursive: bool,
    pub relabel: Option<SELinuxRelabel>,
    pub idmap: Option<(Seq<Mapping>, Seq<Mapping>)>,
    pub chown: bool,
}

/// [`Image`] with its texts as character sequences.
pub ghost struct ImageView {
    pub source: Seq<char>,
    pub destination: Seq<char>,
    pub read_write: bool,
}

/// [`Volume`] with its texts as character sequences.
pub ghost struct VolumeView {
    pub source: Option<Seq<char>>,
    pub destination: Seq<char>,
    pub read_only: bool,
    pub chown: bool,
    pub idmap: Option<(Seq<Mapping>, Seq<Mapping>)>,
}

/// [`DevPts`] with its destination as a character sequence.
pub ghost struct DevPtsView {
    pub destination: Seq<char>,
    pub uid: u32,
    pub gid: u32,
    pub mode: u32,
    pub max: u32,
}

/// [`Tmpfs`] with its destination as a character sequence.
pub ghost struct TmpfsView {
    pub destination: Seq<char>,
    pub read_only: bool,
    pub size: Size,
    pub mode: u32,
    pub tmpcopyup: bool,
    pub chown: bool,
}

/// [`Mount`] with its texts as character sequences.
pub ghost enum MountView {
    Bind(BindView),
    DevPts(DevPtsView),
    Glob(BindView),
    Image(ImageView),
    Ramfs(TmpfsView),
    Tmpfs(TmpfsView),
    Volume(VolumeView),
}

impl View for Bind {
    type V = BindView;

    open spec fn view(&self) -> BindView {
        BindView {
            source: self.source@,
            destination: opt_seq(self.destination),
            read_only: self.read_only,
            bind_propagation: self.bind_propagation,
            bind_nonrecursive: self.bind_nonrecursive,
            relabel: self.relabel,
            idmap: opt_idmap(self.idmap),
            chown: self.chown,
        }
    }
}

impl View for DevPts {
    type V = DevPtsView;

    open spec fn view(&self) -> DevPtsView {
        DevPtsView {
            destination: self.destination@,
            uid: self.uid,
            gid: self.gid,
            mode: self.mode,
            max: self.max,
        }
    }
}

impl View for Image {
    type V = ImageView;

    open spec fn view(&self) -> ImageView {
        ImageView {
            source: self.source@,
            destination: self.destination@,
            read_write: self.read_write,
        }
    }
}

impl View for Volume {
    type V = VolumeView;

    open spec fn view(&self) -> VolumeView {
        VolumeView {
            source: opt_seq(self.source),
            destination: self.destination@,
            read_only: self.read_only,
            chown: self.chown,
            idmap: opt_idmap(self.idmap),
        }
    }
}

impl View for Tmpfs {
    type V = TmpfsView;

    open spec fn view(&self) -> TmpfsView {
        TmpfsView {
            destination: self.destination@,
            read_only: self.read_only,
            size: self.size,
            mode: self.mode,
            tmpcopyup: self.tmpcopyup,
            chown: self.chown,
        }
    }
}

impl View for Mount {
    type V = MountView;

    open spec fn view(&self) -> MountView {
        match self {
            Mount::Bind(b) => MountView::Bind(b@),
            Mount::DevPts(d) => MountView::DevPts(d@),
            Mount::Glob(b) => MountView::Glob(b@),
            Mount::Image(i) => MountView::Image(i@),
            Mount::Ramfs(t) => MountView::Ramfs(t@),
            Mount::Tmpfs(t) => MountView::Tmpfs(t@),
            Mount::Volume(v) => MountView::Volume(v@),
        }
    }
}

/// The types of [`Mount`], as named by the "type" option.
#[derive(Debug, Clone, Copy, PartialEq, Eq, Structural)]
pub enum MountType {
    Bind,
    DevPts,
    Glob,
    Image,
    Ramfs,
    Tmpfs,
    Volume,
}

/// The value of the "type" option for a mount type.
pub open spec fn kind_name(t: MountType) -> Seq<char> {
    match t {
        MountType::Bind => "bind"@,
        MountType::DevPts => "devpts"@,
        MountType::Glob => "glob"@,
        MountType::Image => "image"@,
        MountType::Ramfs => "ramfs"@,
        MountType::Tmpfs => "tmpfs"@,
        MountType::Volume => "volume"@,
    }
}

/// The mount type named `s`.
pub open spec fn kind_of(s: Seq<char>) -> Option<MountType> {
    if s == "bind"@ {
        Some(MountType::Bind)
    } else if s == "devpts"@ {
        Some(MountType::DevPts)
    } else if s == "glob"@ {
        Some(MountType::Glob)
    } else if s == "image"@ {
        Some(MountType::Image)
    } else if s == "ramfs"@ {
        Some(MountType::Ramfs)
    } else if s == "tmpfs"@ {
        Some(MountType::Tmpfs)
    } else if s == "volume"@ {
        Some(MountType::Volume)
    } else {
        None
    }
}

/// How the value of an option is read.
#[derive(Debug, Clone, Copy, PartialEq, Eq, Structural)]
pub enum ValueKind {
    /// A path or name; a value is required.
    Text,
    /// `true` or `false`; no value means `true`.
    Flag,
    /// A decimal `u32`; a value is required.
    Number,
    /// An octal `u32`; a value is required.
    Octal,
    /// A [`BindPropagation`] name; a value is required.
    Propagation,
    /// A [`SELinuxRelabel`] name; a value is required.
    Relabel,
    /// An [`Idmap`]; no value means an empty idmap.
    IdmapValue,
    /// A [`Size`]; a value is required.
    SizeValue,
    /// Sets the flag to the given state; any value is ignored.
    Switch(bool),
}

/// An option of a mount type: the slot it fills, how its value is read, whether giving it twice
/// is refused, and its name in errors.
pub ghost struct Slot {
    pub index: int,
    pub kind: ValueKind,
    pub unique: bool,
    pub name: Seq<char>,
}

/// The number of option slots of a mount type.
pub open spec fn slot_count(t: MountType) -> nat {
    match t {
        MountType::Bind | MountType::Glob => 8,
        MountType::DevPts => 5,
        MountType::Image => 3,
        MountType::Volume => 5,
        MountType::Ramfs | MountType::Tmpfs => 6,
    }
}

/// A slot whose repetition is refused.
pub open spec fn slot(index: int, kind: ValueKind, name: Seq<char>) -> Option<Slot> {
    Some(Slot { index, kind, unique: true, name })
}

/// The options of bind and glob mounts.
pub open spec fn bind_slot(key: Seq<char>) -> Option<Slot> {
    if key == "source"@ || key == "src"@ {
        slot(0, ValueKind::Text, "source"@)
    } else if key == "destination"@ || key == "dst"@ || key == "target"@ {
        slot(1, ValueKind::Text, "destination"@)
    } else if key == "readonly"@ || key == "ro"@ {
        slot(2, ValueKind::Flag, "readonly"@)
    } else if key == "bind-propagation"@ {
        slot(3, ValueKind::Propagation, "bind-propagation"@)
    } else if key == "bind-nonrecursive"@ {
        slot(4, ValueKind::Flag, "bind-nonrecursive"@)
    } else if key == "relabel"@ {
        slot(5, ValueKind::Relabel, "relabel"@)
    } else if key == "idmap"@ {
        slot(6, ValueKind::IdmapValue, "idmap"@)
    } else if key == "chown"@ || key == "U"@ {
        slot(7, ValueKind::Flag, "chown"@)
    } else {
        None
    }
}

/// The options of devpts mounts.
pub open spec fn devpts_slot(key: Seq<char>) -> Option<Slot> {
    if key == "destination"@ || key == "dst"@ || key == "target"@ {
        slot(0, ValueKind::Text, "destination"@)
    } else if key == "uid"@ {
        slot(1, ValueKind::Number, "uid"@)
    } else if key == "gid"@ {
        slot(2, ValueKind::Number, "gid"@)
    } else if key == "mode"@ {
        slot(3, ValueKind::Octal, "mode"@)
    } else if key == "max"@ {
        slot(4, ValueKind::Number, "max"@)
    } else {
        None
    }
}

/// The options of image mounts.
pub open spec fn image_slot(key: Seq<char>) -> Option<Slot> {
    if key == "source"@ || key == "src"@ {
        slot(0, ValueKind::Text, "source"@)
    } else if key == "destination"@ || key == "dst"@ || key == "target"@ {
        slot(1, ValueKind::Text, "destination"@)
    } else if key == "readwrite"@ || key == "rw"@ {
        slot(2, ValueKind::Flag, "readwrite"@)
    } else {
        None
    }
}

/// The options of volume mounts.
pub open spec fn volume_slot(key: Seq<char>) -> Option<Slot> {
    if key == "source"@ || key == "src"@ {
        slot(0, ValueKind::Text, "source"@)
    } else if key == "destination"@ || key == "dst"@ || key == "target"@ {
        slot(1, ValueKind::Text, "destination"@)
    } else if key == "readonly"@ || key == "ro"@ {
        slot(2, ValueKind::Flag, "readonly"@)
    } else if key == "chown"@ || key == "U"@ {
        slot(3, ValueKind::Flag, "chown"@)
    } else if key == "idmap"@ {
        slot(4, ValueKind::IdmapValue, "idmap"@)
    } else {
        None
    }
}

/// The options of tmpfs and ramfs mounts; `readonly`, `chown`, `tmpcopyup` and `notmpcopyup`
/// may be repeated, the last one counting.
pub open spec fn tmpfs_slot(key: Seq<char>) -> Option<Slot> {
    if key == "destination"@ || key == "dst"@ || key == "target"@ {
        slot(0, ValueKind::Text, "destination"@)
    } else if key == "readonly"@ || key == "ro"@ {
        Some(Slot { index: 1, kind: ValueKind::Flag, unique: false, name: "readonly"@ })
    } else if key == "tmpfs-size"@ {
        slot(2, ValueKind::SizeValue, "tmpfs-size"@)
    } else if key == "tmpfs-mode"@ {
        slot(3, ValueKind::Octal, "tmpfs-mode"@)
    } else if key == "tmpcopyup"@ {
        Some(Slot { index: 4, kind: ValueKind::Switch(true), unique: false, name: "tmpcopyup"@ })
    } else if key == "notmpcopyup"@ {
        Some(
            Slot { index: 4, kind: ValueKind::Switch(false), unique: false, name: "notmpcopyup"@ },
        )
    } else if key == "chown"@ || key == "U"@ {
        Some(Slot { index: 5, kind: ValueKind::Flag, unique: false, name: "chown"@ })
    } else {
        None
    }
}

/// The option `key` of mount type `t`.
pub open spec fn slot_of(t: MountType, key: Seq<char>) -> Option<Slot> {
    match t {
        MountType::Bind | MountType::Glob => bind_slot(key),
        MountType::DevPts => devpts_slot(key),
        MountType::Image => image_slot(key),
        MountType::Volume => volume_slot(key),
        MountType::Ramfs | MountType::Tmpfs => tmpfs_slot(key),
    }
}

/// A value read from an option.
pub ghost enum Val {
    Text(Seq<char>),
    Flag(bool),
    Number(u32),
    Propagation(BindPropagation),
    Relabel(SELinuxRelabel),
    IdmapValue((Seq<Mapping>, Seq<Mapping>)),
    SizeValue(Size),
}

/// Error returned when parsing a [`Mount`].
#[derive(Debug, Clone, PartialEq, Eq)]
pub enum ParseMountError {
    /// A required option was not given.
    MissingOption(String),
    /// The first option was not "type".
    TypeNotFirst,
    /// The "type" option named no mount type.
    UnknownType(String),
    /// An option that needs a value was given none.
    MissingValue(String),
    /// An option that the mount type does not have.
    UnknownOption(String),
    /// An option given twice.
    DuplicateOption(String),
    /// An option with a value that it cannot take: the option and the value.
    InvalidValue(String, String),
    /// An idmap option that does not parse.
    Idmap(ParseIdmapError),
    /// A size option that does not parse: the number that is not one.
    Size(String),
}

/// [`ParseMountError`] with its texts as character sequences.
pub ghost enum MountErr {
    MissingOption(Seq<char>),
    TypeNotFirst,
    UnknownType(Seq<char>),
    MissingValue(Seq<char>),
    UnknownOption(Seq<char>),
    DuplicateOption(Seq<char>),
    InvalidValue(Seq<char>, Seq<char>),
    Idmap(IdmapErr),
    Size(Seq<char>),
}

impl View for ParseMountError {
    type V = MountErr;

    open spec fn view(&self) -> MountErr {
        match self {
            ParseMountError::MissingOption(n) => MountErr::MissingOption(n@),
            ParseMountError::TypeNotFirst => MountErr::TypeNotFirst,
            ParseMountError::UnknownType(t) => MountErr::UnknownType(t@),
            ParseMountError::MissingValue(n) => MountErr::MissingValue(n@),
            ParseMountError::UnknownOption(n) => MountErr::UnknownOption(n@),
            ParseMountError::DuplicateOption(n) => MountErr::DuplicateOption(n@),
            ParseMountError::InvalidValue(n, v) => MountErr::InvalidValue(n@, v@),
            ParseMountError::Idmap(e) => MountErr::Idmap(e@),
            ParseMountError::Size(v) => MountErr::Size(v@),
        }
    }
}

/// Read the value of the option `name` as `kind`.
pub open spec fn read_value(kind: ValueKind, name: Seq<char>, value: Option<Seq<char>>) -> Result<
    Val,
    MountErr,
> {
    match kind {
        ValueKind::Flag => match bool_value(value) {
            Some(b) => Ok(Val::Flag(b)),
            None => Err(MountErr::InvalidValue(name, value->Some_0)),
        },
        ValueKind::IdmapValue => match value {
            None => Ok(Val::IdmapValue((Seq::<Mapping>::empty(), Seq::<Mapping>::empty()))),
            Some(v) => match parse_idmap(v) {
                Ok(m) => Ok(Val::IdmapValue(m)),
                Err(e) => Err(MountErr::Idmap(e)),
            },
        },
        ValueKind::Switch(b) => Ok(Val::Flag(b)),
        _ => match value {
            None => Err(MountErr::MissingValue(name)),
            Some(v) => match kind {
                ValueKind::Text => Ok(Val::Text(v)),
                ValueKind::Number => match parse_unsigned(v, 10, u32::MAX as nat) {
                    Some(n) => Ok(Val::Number(n as u32)),
                    None => Err(MountErr::InvalidValue(name, v)),
                },
                ValueKind::Octal => match parse_unsigned(v, 8, u32::MAX as nat) {
                    Some(n) => Ok(Val::Number(n as u32)),
                    None => Err(MountErr::InvalidValue(name, v)),
                },
                ValueKind::Propagation => match propagation_of(v) {
                    Some(p) => Ok(Val::Propagation(p)),
                    None => Err(MountErr::InvalidValue(name, v)),
                },
                ValueKind::Relabel => if v == "shared"@ {
                    Ok(Val::Relabel(SELinuxRelabel::Shared))
                } else if v == "private"@ {
                    Ok(Val::Relabel(SELinuxRelabel::Private))
                } else {
                    Err(MountErr::InvalidValue(name, v))
                },
                _ => match parse_size(v) {
                    Ok(z) => Ok(Val::SizeValue(z)),
                    Err(n) => Err(MountErr::Size(n)),
                },
            },
        },
    }
}

/// Fold one option into the slots of mount type `t`.
pub open spec fn option_step(
    t: MountType,
    slots: Seq<Option<Val>>,
    entry: (Seq<char>, Option<Seq<char>>),
) -> Result<Seq<Option<Val>>, MountErr> {
    match slot_of(t, entry.0) {
        None => Err(MountErr::UnknownOption(entry.0)),
        Some(s) => if s.unique && slots[s.index] is Some {
            Err(MountErr::DuplicateOption(s.name))
        } else {
            match read_value(s.kind, s.name, entry.1) {
                Ok(v) => Ok(slots.update(s.index, Some(v))),
                Err(e) => Err(e),
            }
        },
    }
}

/// Fold the options `es` into empty slots of mount type `t`.
pub open spec fn fold_options(t: MountType, es: Seq<(Seq<char>, Option<Seq<char>>)>) -> Result<
    Seq<Option<Val>>,
    MountErr,
>
    decreases es.len(),
{
    if es.len() == 0 {
        Ok(Seq::new(slot_count(t), |i: int| None::<Val>))
    } else {
        match fold_options(t, es.drop_last()) {
            Ok(slots) => option_step(t, slots, es.last()),
            Err(e) => Err(e),
        }
    }
}

/// The text in a slot, if it holds one.
pub open spec fn text_in(o: Option<Val>) -> Option<Seq<char>> {
    match o {
        Some(Val::Text(t)) => Some(t),
        _ => None,
    }
}

/// The flag in a slot, or `d`.
pub open spec fn flag_in(o: Option<Val>, d: bool) -> bool {
    match o {
        Some(Val::Flag(b)) => b,
        _ => d,
    }
}

/// The number in a slot, or `d`.
pub open spec fn number_in(o: Option<Val>, d: u32) -> u32 {
    match o {
        Some(Val::Number(n)) => n,
        _ => d,
    }
}

/// The bind propagation in a slot, or the default `rprivate`.
pub open spec fn propagation_in(o: Option<Val>) -> BindPropagation {
    match o {
        Some(Val::Propagation(p)) => p,
        _ => BindPropagation::RPrivate,
    }
}

/// The relabeling in a slot, if it holds one.
pub open spec fn relabel_in(o: Option<Val>) -> Option<SELinuxRelabel> {
    match o {
        Some(Val::Relabel(r)) => Some(r),
        _ => None,
    }
}

/// The idmap in a slot, if it holds one.
pub open spec fn idmap_in(o: Option<Val>) -> Option<(Seq<Mapping>, Seq<Mapping>)> {
    match o {
        Some(Val::IdmapValue(m)) => Some(m),
        _ => None,
    }
}

/// The size in a slot, or unlimited.
pub open spec fn size_in(o: Option<Val>) -> Size {
    match o {
        Some(Val::SizeValue(z)) => z,
        _ => Size::Unlimited,
    }
}

/// The mount of type `t` with the options in `s`; an error names the first required option
/// that is missing.
pub open spec fn build_mount(t: MountType, s: Seq<Option<Val>>) -> Result<MountView, MountErr> {
    match t {
        MountType::Bind | MountType::Glob => match text_in(s[0]) {
            None => Err(MountErr::MissingOption("source"@)),
            Some(source) => {
                let b = BindView {
                    source,
                    destination: text_in(s[1]),
                    read_only: flag_in(s[2], false),
                    bind_propagation: propagation_in(s[3]),
                    bind_nonrecursive: flag_in(s[4], false),
                    relabel: relabel_in(s[5]),
                    idmap: idmap_in(s[6]),
                    chown: flag_in(s[7], false),
                };
                Ok(
                    if t == MountType::Bind {
                        MountView::Bind(b)
                    } else {
                        MountView::Glob(b)
                    },
                )
            },
        },
        MountType::DevPts => match text_in(s[0]) {
            None => Err(MountErr::MissingOption("destination"@)),
            Some(destination) => Ok(
                MountView::DevPts(
                    DevPtsView {
                        destination,
                        uid: number_in(s[1], 0),
                        gid: number_in(s[2], 0),
                        mode: number_in(s[3], 0o600),
                        max: number_in(s[4], 1_048_576),
                    },
                ),
            ),
        },
        MountType::Image => match text_in(s[0]) {
            None => Err(MountErr::MissingOption("source"@)),
            Some(source) => match text_in(s[1]) {
                None => Err(MountErr::MissingOption("destination"@)),
                Some(destination) => Ok(
                    MountView::Image(
                        ImageView { source, destination, read_write: flag_in(s[2], false) },
                    ),
                ),
            },
        },
        MountType::Volume => match text_in(s[1]) {
            None => Err(MountErr::MissingOption("destination"@)),
            Some(destination) => Ok(
                MountView::Volume(
                    VolumeView {
                        source: text_in(s[0]),
                        destination,
                        read_only: flag_in(s[2], false),
                        chown: flag_in(s[3], false),
                        idmap: idmap_in(s[4]),
                    },
                ),
            ),
        },
        MountType::Ramfs | MountType::Tmpfs => match text_in(s[0]) {
            None => Err(MountErr::MissingOption("destination"@)),
            Some(destination) => {
                let v = TmpfsView {
                    destination,
                    read_only: flag_in(s[1], false),
                    size: size_in(s[2]),
                    mode: number_in(s[3], 0o1777),
                    tmpcopyup: flag_in(s[4], true),
                    chown: flag_in(s[5], false),
                };
                Ok(
                    if t == MountType::Ramfs {
                        MountView::Ramfs(v)
                    } else {
                        MountView::Tmpfs(v)
                    },
                )
            },
        },
    }
}

/// What parsing mount options "type=TYPE,option\[=value\],..." gives: "type" must come first
/// and name a mount type; the other options are folded into that type's slots.
pub open spec fn parse_mount(s: Seq<char>) -> Result<MountView, MountErr> {
    let es = entries(s);
    if es.len() == 0 {
        Err(MountErr::MissingOption("type"@))
    } else {
        match es[0].1 {
            None => Err(MountErr::MissingValue("type"@)),
            Some(v) => match kind_of(v) {
                None => Err(MountErr::UnknownType(v)),
                Some(t) => if es[0].0 != "type"@ {
                    Err(MountErr::TypeNotFirst)
                } else {
                    match fold_options(t, es.drop_first()) {
                        Ok(slots) => build_mount(t, slots),
                        Err(e) => Err(e),
                    }
                },
            },
        }
    }
}

/// A value read from an option, for executable code.
enum FieldValue {
    Text(String),
    Flag(bool),
    Number(u32),
    Propagation(BindPropagation),
    Relabel(SELinuxRelabel),
    IdmapValue(Idmap),
    SizeValue(Size),
}

/// The [`Val`] that a slot holds.
spec fn slot_view(o: Option<FieldValue>) -> Option<Val> {
    match o {
        None => None,
        Some(FieldValue::Text(t)) => Some(Val::Text(t@)),
        Some(FieldValue::Flag(b)) => Some(Val::Flag(b)),
        Some(FieldValue::Number(n)) => Some(Val::Number(n)),
        Some(FieldValue::Propagation(p)) => Some(Val::Propagation(p)),
        Some(FieldValue::Relabel(r)) => Some(Val::Relabel(r)),
        Some(FieldValue::IdmapValue(m)) => Some(Val::IdmapValue(m@)),
        Some(FieldValue::SizeValue(z)) => Some(Val::SizeValue(z)),
    }
}

/// The views of all slots.
spec fn slots_view(v: Seq<Option<FieldValue>>) -> Seq<Option<Val>> {
    v.map_values(|o: Option<FieldValue>| slot_view(o))
}

impl MountType {
    /// The mount type named `s`.
    pub fn from_name(s: &str) -> (r: Option<MountType>)
        ensures
            r == kind_of(s@),
    {
        if str_eq(s, "bind") {
            Some(MountType::Bind)
        } else if str_eq(s, "devpts") {
            Some(MountType::DevPts)
        } else if str_eq(s, "glob") {
            Some(MountType::Glob)
        } else if str_eq(s, "image") {
            Some(MountType::Image)
        } else if str_eq(s, "ramfs") {
            Some(MountType::Ramfs)
        } else if str_eq(s, "tmpfs") {
            Some(MountType::Tmpfs)
        } else if str_eq(s, "volume") {
            Some(MountType::Volume)
        } else {
            None
        }
    }

    /// The value of the "type" option for this mount type.
    pub fn as_str(&self) -> (s: &'static str)
        ensures
            s@ == kind_name(*self),
    {
        match self {
            MountType::Bind => "bind",
            MountType::DevPts => "devpts",
            MountType::Glob => "glob",
            MountType::Image => "image",
            MountType::Ramfs => "ramfs",
            MountType::Tmpfs => "tmpfs",
            MountType::Volume => "volume",
        }
    }
}

/// A found option: its slot, how its value is read, whether it is unique, and its name.
type SlotRef = (usize, ValueKind, bool, &'static str);

/// The slot that a found option stands for.
spec fn slot_ref_view(r: SlotRef) -> Slot {
    Slot { index: r.0 as int, kind: r.1, unique: r.2, name: r.3@ }
}

/// The slot that `r` stands for, as an option.
spec fn opt_slot_view(r: Option<SlotRef>) -> Option<Slot> {
    match r {
        Some(x) => Some(slot_ref_view(x)),
        None => None,
    }
}

/// Every option of a mount type fills one of its slots.
pub proof fn lemma_slot_in_range(t: MountType, key: Seq<char>)
    ensures
        slot_of(t, key) matches Some(s) ==> 0 <= s.index < slot_count(t),
{
}

/// Look up an option of bind and glob mounts.
fn bind_lookup(key: &str) -> (r: Option<SlotRef>)
    ensures
        opt_slot_view(r) == bind_slot(key@),
{
    if str_eq(key, "source") || str_eq(key, "src") {
        Some((0, ValueKind::Text, true, "source"))
    } else if str_eq(key, "destination") || str_eq(key, "dst") || str_eq(key, "target") {
        Some((1, ValueKind::Text, true, "destination"))
    } else if str_eq(key, "readonly") || str_eq(key, "ro") {
        Some((2, ValueKind::Flag, true, "readonly"))
    } else if str_eq(key, "bind-propagation") {
        Some((3, ValueKind::Propagation, true, "bind-propagation"))
    } else if str_eq(key, "bind-nonrecursive") {
        Some((4, ValueKind::Flag, true, "bind-nonrecursive"))
    } else if str_eq(key, "relabel") {
        Some((5, ValueKind::Relabel, true, "relabel"))
    } else if str_eq(key, "idmap") {
        Some((6, ValueKind::IdmapValue, true, "idmap"))
    } else if str_eq(key, "chown") || str_eq(key, "U") {
        Some((7, ValueKind::Flag, true, "chown"))
    } else {
        None
    }
}

/// Look up an option of devpts mounts.
fn devpts_lookup(key: &str) -> (r: Option<SlotRef>)
    ensures
        opt_slot_view(r) == devpts_slot(key@),
{
    if str_eq(key, "destination") || str_eq(key, "dst") || str_eq(key, "target") {
        Some((0, ValueKind::Text, true, "destination"))
    } else if str_eq(key, "uid") {
        Some((1, ValueKind::Number, true, "uid"))
    } else if str_eq(key, "gid") {
        Some((2, ValueKind::Number, true, "gid"))
    } else if str_eq(key, "mode") {
        Some((3, ValueKind::Octal, true, "mode"))
    } else if str_eq(key, "max") {
        Some((4, ValueKind::Number, true, "max"))
    } else {
        None
    }
}

/// Look up an option of image mounts.
fn image_lookup(key: &str) -> (r: Option<SlotRef>)
    ensures
        opt_slot_view(r) == image_slot(key@),
{
    if str_eq(key, "source") || str_eq(key, "src") {
        Some((0, ValueKind::Text, true, "source"))
    } else if str_eq(key, "destination") || str_eq(key, "dst") || str_eq(key, "target") {
        Some((1, ValueKind::Text, true, "destination"))
    } else if str_eq(key, "readwrite") || str_eq(key, "rw") {
        Some((2, ValueKind::Flag, true, "readwrite"))
    } else {
        None
    }
}

/// Look up an option of volume mounts.
fn volume_lookup(key: &str) -> (r: Option<SlotRef>)
    ensures
        opt_slot_view(r) == volume_slot(key@),
{
    if str_eq(key, "source") || str_eq(key, "src") {
        Some((0, ValueKind::Text, true, "source"))
    } else if str_eq(key, "destination") || str_eq(key, "dst") || str_eq(key, "target") {
        Some((1, ValueKind::Text, true, "destination"))
    } else if str_eq(key, "readonly") || str_eq(key, "ro") {
        Some((2, ValueKind::Flag, true, "readonly"))
    } else if str_eq(key, "chown") || str_eq(key, "U") {
        Some((3, ValueKind::Flag, true, "chown"))
    } else if str_eq(key, "idmap") {
        Some((4, ValueKind::IdmapValue, true, "idmap"))
    } else {
        None
    }
}

/// Look up an option of tmpfs and ramfs mounts.
fn tmpfs_lookup(key: &str) -> (r: Option<SlotRef>)
    ensures
        opt_slot_view(r) == tmpfs_slot(key@),
{
    if str_eq(key, "destination") || str_eq(key, "dst") || str_eq(key, "target") {
        Some((0, ValueKind::Text, true, "destination"))
    } else if str_eq(key, "readonly") || str_eq(key, "ro") {
        Some((1, ValueKind::Flag, false, "readonly"))
    } else if str_eq(key, "tmpfs-size") {
        Some((2, ValueKind::SizeValue, true, "tmpfs-size"))
    } else if str_eq(key, "tmpfs-mode") {
        Some((3, ValueKind::Octal, true, "tmpfs-mode"))
    } else if str_eq(key, "tmpcopyup") {
        Some((4, ValueKind::Switch(true), false, "tmpcopyup"))
    } else if str_eq(key, "notmpcopyup") {
        Some((4, ValueKind::Switch(false), false, "notmpcopyup"))
    } else if str_eq(key, "chown") || str_eq(key, "U") {
        Some((5, ValueKind::Flag, false, "chown"))
    } else {
        None
    }
}

/// Look up the option `key` of mount type `t`.
fn lookup(t: MountType, key: &str) -> (r: Option<SlotRef>)
    ensures
        opt_slot_view(r) == slot_of(t, key@),
{
    match t {
        MountType::Bind | MountType::Glob => bind_lookup(key),
        MountType::DevPts => devpts_lookup(key),
        MountType::Image => image_lookup(key),
        MountType::Volume => volume_lookup(key),
        MountType::Ramfs | MountType::Tmpfs => tmpfs_lookup(key),
    }
}

/// Read the value of the option `name` as `kind`.
#[verifier::rlimit(30)]
fn read_option_value(kind: ValueKind, name: &str, value: Option<String>) -> (r: Result<
    FieldValue,
    ParseMountError,
>)
    ensures
        match r {
            Ok(v) => read_value(kind, name@, opt_seq(value)) == Ok::<Val, MountErr>(
                slot_view(Some(v))->Some_0,
            ),
            Err(e) => read_value(kind, name@, opt_seq(value)) == Err::<Val, MountErr>(e@),
        },
{
    match kind {
        ValueKind::Flag => {
            let b = match &value {
                Some(v) => parse_bool(Some(v.as_str())),
                None => parse_bool(None),
            };
            match b {
                Some(b) => Ok(FieldValue::Flag(b)),
                None => match value {
                    Some(v) => Err(ParseMountError::InvalidValue(name.to_owned(), v)),
                    None => Ok(FieldValue::Flag(true)),
                },
            }
        },
        ValueKind::IdmapValue => match value {
            None => Ok(FieldValue::IdmapValue(Idmap::new())),
            Some(v) => match Idmap::parse(v.as_str()) {
                Ok(m) => Ok(FieldValue::IdmapValue(m)),
                Err(e) => Err(ParseMountError::Idmap(e)),
            },
        },
        ValueKind::Switch(b) => Ok(FieldValue::Flag(b)),
        _ => {
            let v = match value {
                None => {
                    return Err(ParseMountError::MissingValue(name.to_owned()));
                },
                Some(v) => v,
            };
            match kind {
                ValueKind::Text => Ok(FieldValue::Text(v)),
                ValueKind::Number => match parse_u32(v.as_str()) {
                    Some(n) => Ok(FieldValue::Number(n)),
                    None => Err(ParseMountError::InvalidValue(name.to_owned(), v)),
                },
                ValueKind::Octal => match parse_octal_u32(v.as_str()) {
                    Some(n) => Ok(FieldValue::Number(n)),
                    None => Err(ParseMountError::InvalidValue(name.to_owned(), v)),
                },
                ValueKind::Propagation => match BindPropagation::parse(v.as_str()) {
                    Ok(p) => Ok(FieldValue::Propagation(p)),
                    Err(_) => Err(ParseMountError::InvalidValue(name.to_owned(), v)),
                },
                ValueKind::Relabel => match SELinuxRelabel::from_name(v.as_str()) {
                    Some(r) => Ok(FieldValue::Relabel(r)),
                    None => Err(ParseMountError::InvalidValue(name.to_owned(), v)),
                },
                _ => match Size::parse(v.as_str()) {
                    Ok(z) => Ok(FieldValue::SizeValue(z)),
                    Err(e) => Err(ParseMountError::Size(e.value)),
                },
            }
        },
    }
}

/// An error at option `i` is the error of all the options.
proof fn lemma_fold_err(t: MountType, es: Seq<(Seq<char>, Option<Seq<char>>)>, i: int, e: MountErr)
    requires
        0 <= i < es.len(),
        fold_options(t, es.subrange(0, i + 1)) == Err::<Seq<Option<Val>>, MountErr>(e),
    ensures
        fold_options(t, es) == Err::<Seq<Option<Val>>, MountErr>(e),
    decreases es.len() - i,
{
    if i + 1 < es.len() {
        assert(es.subrange(0, i + 2).drop_last() =~= es.subrange(0, i + 1));
        lemma_fold_err(t, es, i + 1, e);
    } else {
        assert(es.subrange(0, i + 1) =~= es);
    }
}

/// Fold the options after the first of `es` into empty slots of mount type `t`.
fn fold_entries(t: MountType, es: &Vec<Entry>) -> (r: Result<Vec<Option<FieldValue>>, ParseMountError>)
    requires
        es@.len() > 0,
    ensures
        match r {
            Ok(v) => v@.len() == slot_count(t) && fold_options(t, entries_view(es@).drop_first())
                == Ok::<Seq<Option<Val>>, MountErr>(slots_view(v@)),
            Err(e) => fold_options(t, entries_view(es@).drop_first()) == Err::<
                Seq<Option<Val>>,
                MountErr,
            >(e@),
        },
{
    let ghost all = entries_view(es@).drop_first();
    let n: usize = match t {
        MountType::Bind | MountType::Glob => 8,
        MountType::DevPts => 5,
        MountType::Image => 3,
        MountType::Volume => 5,
        MountType::Ramfs | MountType::Tmpfs => 6,
    };
    let mut slots: Vec<Option<FieldValue>> = Vec::new();
    let mut j: usize = 0;
    while j < n
        invariant
            j <= n,
            n == slot_count(t),
            slots@.len() == j,
            forall|k: int| 0 <= k < j ==> slots@[k] is None,
        decreases n - j,
    {
        slots.push(None);
        j = j + 1;
    }
    assert(slots_view(slots@) =~= Seq::new(slot_count(t), |i: int| None::<Val>));
    assert(all.subrange(0, 0) =~= Seq::<(Seq<char>, Option<Seq<char>>)>::empty());
    let mut i: usize = 1;
    while i < es.len()
        invariant
            1 <= i <= es@.len(),
            all == entries_view(es@).drop_first(),
            slots@.len() == slot_count(t),
            fold_options(t, all.subrange(0, i - 1)) == Ok::<Seq<Option<Val>>, MountErr>(
                slots_view(slots@),
            ),
        decreases es@.len() - i,
    {
        let ghost pre = all.subrange(0, i as int);
        assert(pre.drop_last() =~= all.subrange(0, i - 1));
        assert(pre.last() == es@[i as int]@);
        let ghost before = slots_view(slots@);
        let e = &es[i];
        match lookup(t, e.key.as_str()) {
            None => {
                proof {
                    lemma_fold_err(t, all, i - 1, MountErr::UnknownOption(e.key@));
                }
                return Err(ParseMountError::UnknownOption(e.key.clone()));
            },
            Some((index, kind, unique, name)) => {
                proof {
                    lemma_slot_in_range(t, e.key@);
                }
                if unique && slots[index].is_some() {
                    proof {
                        lemma_fold_err(t, all, i - 1, MountErr::DuplicateOption(name@));
                    }
                    return Err(ParseMountError::DuplicateOption(name.to_owned()));
                }
                match read_option_value(kind, name, e.value.clone()) {
                    Ok(v) => {
                        slots.set(index, Some(v));
                        assert(slots_view(slots@) =~= before.update(
                            index as int,
                            slot_view(Some(v)),
                        ));
                    },
                    Err(err) => {
                        proof {
                            lemma_fold_err(t, all, i - 1, err@);
                        }
                        return Err(err);
                    },
                }
            },
        }
        i = i + 1;
    }
    assert(all.subrange(0, es@.len() - 1) =~= all);
    Ok(slots)
}

/// The text in a slot, if it holds one.
fn take_text(o: Option<FieldValue>) -> (r: Option<String>)
    ensures
        opt_seq(r) == text_in(slot_view(o)),
{
    match o {
        Some(FieldValue::Text(t)) => Some(t),
        _ => None,
    }
}

/// The flag in a slot, or `d`.
fn take_flag(o: Option<FieldValue>, d: bool) -> (r: bool)
    ensures
        r == flag_in(slot_view(o), d),
{
    match o {
        Some(FieldValue::Flag(b)) => b,
        _ => d,
    }
}

/// The number in a slot, or `d`.
fn take_number(o: Option<FieldValue>, d: u32) -> (r: u32)
    ensures
        r == number_in(slot_view(o), d),
{
    match o {
        Some(FieldValue::Number(n)) => n,
        _ => d,
    }
}

/// The bind propagation in a slot, or `rprivate`.
fn take_propagation(o: Option<FieldValue>) -> (r: BindPropagation)
    ensures
        r == propagation_in(slot_view(o)),
{
    match o {
        Some(FieldValue::Propagation(p)) => p,
        _ => BindPropagation::RPrivate,
    }
}

/// The relabeling in a slot, if it holds one.
fn take_relabel(o: Option<FieldValue>) -> (r: Option<SELinuxRelabel>)
    ensures
        r == relabel_in(slot_view(o)),
{
    match o {
        Some(FieldValue::Relabel(x)) => Some(x),
        _ => None,
    }
}

/// The idmap in a slot, if it holds one.
fn take_idmap(o: Option<FieldValue>) -> (r: Option<Idmap>)
    ensures
        opt_idmap(r) == idmap_in(slot_view(o)),
{
    match o {
        Some(FieldValue::IdmapValue(m)) => Some(m),
        _ => None,
    }
}

/// The size in a slot, or unlimited.
fn take_size(o: Option<FieldValue>) -> (r: Size)
    ensures
        r == size_in(slot_view(o)),
{
    match o {
        Some(FieldValue::SizeValue(z)) => z,
        _ => Size::Unlimited,
    }
}

/// Take the last slot.
fn pop_slot(slots: &mut Vec<Option<FieldValue>>) -> (r: Option<FieldValue>)
    requires
        old(slots)@.len() > 0,
    ensures
        final(slots)@ == old(slots)@.drop_last(),
        r == old(slots)@.last(),
{
    match slots.pop() {
        Some(o) => o,
        None => None,
    }
}

/// The mount of type `t` with the options in `slots`.
#[verifier::rlimit(40)]
fn build(t: MountType, slots: Vec<Option<FieldValue>>) -> (r: Result<Mount, ParseMountError>)
    requires
        slots@.len() == slot_count(t),
    ensures
        match r {
            Ok(m) => build_mount(t, slots_view(slots@)) == Ok::<MountView, MountErr>(m@),
            Err(e) => build_mount(t, slots_view(slots@)) == Err::<MountView, MountErr>(e@),
        },
{
    let ghost sv = slots_view(slots@);
    let ghost s0 = slots@;
    let mut slots = slots;
    match t {
        MountType::Bind | MountType::Glob => {
            let chown = pop_slot(&mut slots);
            let idmap = pop_slot(&mut slots);
            let relabel = pop_slot(&mut slots);
            let nonrecursive = pop_slot(&mut slots);
            let propagation = pop_slot(&mut slots);
            let read_only = pop_slot(&mut slots);
            let destination = pop_slot(&mut slots);
            let source = pop_slot(&mut slots);
            assert(sv[0] == slot_view(s0[0]) && sv[7] == slot_view(s0[7]));
            let source = match take_text(source) {
                None => {
                    return Err(ParseMountError::MissingOption("source".to_owned()));
                },
                Some(x) => x,
            };
            let b = Bind {
                source,
                destination: take_text(destination),
                read_only: take_flag(read_only, false),
                bind_propagation: take_propagation(propagation),
                bind_nonrecursive: take_flag(nonrecursive, false),
                relabel: take_relabel(relabel),
                idmap: take_idmap(idmap),
                chown: take_flag(chown, false),
            };
            if t == MountType::Bind {
                Ok(Mount::Bind(b))
            } else {
                Ok(Mount::Glob(b))
            }
        },
        MountType::DevPts => {
            let max = pop_slot(&mut slots);
            let mode = pop_slot(&mut slots);
            let gid = pop_slot(&mut slots);
            let uid = pop_slot(&mut slots);
            let destination = pop_slot(&mut slots);
            assert(sv[0] == slot_view(s0[0]) && sv[4] == slot_view(s0[4]));
            let destination = match take_text(destination) {
                None => {
                    return Err(ParseMountError::MissingOption("destination".to_owned()));
                },
                Some(x) => x,
            };
            Ok(
                Mount::DevPts(
                    DevPts {
                        destination,
                        uid: take_number(uid, 0),
                        gid: take_number(gid, 0),
                        mode: take_number(mode, devpts_mode_default()),
                        max: take_number(max, ptys::default()),
                    },
                ),
            )
        },
        MountType::Image => {
            let read_write = pop_slot(&mut slots);
            let destination = pop_slot(&mut slots);
            let source = pop_slot(&mut slots);
            assert(sv[0] == slot_view(s0[0]) && sv[2] == slot_view(s0[2]));
            let source = match take_text(source) {
                None => {
                    return Err(ParseMountError::MissingOption("source".to_owned()));
                },
                Some(x) => x,
            };
            let destination = match take_text(destination) {
                None => {
                    return Err(ParseMountError::MissingOption("destination".to_owned()));
                },
                Some(x) => x,
            };
            Ok(Mount::Image(Image { source, destination, read_write: take_flag(read_write, false) }))
        },
        MountType::Volume => {
            let idmap = pop_slot(&mut slots);
            let chown = pop_slot(&mut slots);
            let read_only = pop_slot(&mut slots);
            let destination = pop_slot(&mut slots);
            let source = pop_slot(&mut slots);
            assert(sv[0] == slot_view(s0[0]) && sv[4] == slot_view(s0[4]));
            let destination = match take_text(destination) {
                None => {
                    return Err(ParseMountError::MissingOption("destination".to_owned()));
                },
                Some(x) => x,
            };
            Ok(
                Mount::Volume(
                    Volume {
                        source: take_text(source),
                        destination,
                        read_only: take_flag(read_only, false),
                        chown: take_flag(chown, false),
                        idmap: take_idmap(idmap),
                    },
                ),
            )
        },
        MountType::Ramfs | MountType::Tmpfs => {
            let chown = pop_slot(&mut slots);
            let copyup = pop_slot(&mut slots);
            let mode = pop_slot(&mut slots);
            let size = pop_slot(&mut slots);
            let read_only = pop_slot(&mut slots);
            let destination = pop_slot(&mut slots);
            assert(sv[0] == slot_view(s0[0]) && sv[5] == slot_view(s0[5]));
            let destination = match take_text(destination) {
                None => {
                    return Err(ParseMountError::MissingOption("destination".to_owned()));
                },
                Some(x) => x,
            };
            let v = Tmpfs {
                destination,
                read_only: take_flag(read_only, false),
                size: take_size(size),
                mode: take_number(mode, tmpfs_mode_default()),
                tmpcopyup: take_flag(copyup, true),
                chown: take_flag(chown, false),
            };
            if t == MountType::Ramfs {
                Ok(Mount::Ramfs(v))
            } else {
                Ok(Mount::Tmpfs(v))
            }
        },
    }
}

impl Mount {
    /// Parse a [`Mount`] from mount options "type=TYPE,option\[=value\],...".
    pub fn parse(s: &str) -> (r: Result<Mount, ParseMountError>)
        ensures
            match r {
                Ok(m) => parse_mount(s@) == Ok::<MountView, MountErr>(m@),
                Err(e) => parse_mount(s@) == Err::<MountView, MountErr>(e@),
            },
    {
        let es = crate::mount_options::from_str(s);
        let ghost ev = entries_view(es@);
        if es.len() == 0 {
            return Err(ParseMountError::MissingOption("type".to_owned()));
        }
        assert(ev[0] == es@[0]@);
        let first = &es[0];
        let value = match &first.value {
            None => {
                return Err(ParseMountError::MissingValue("type".to_owned()));
            },
            Some(v) => v,
        };
        let t = match MountType::from_name(value.as_str()) {
            None => {
                return Err(ParseMountError::UnknownType(value.clone()));
            },
            Some(t) => t,
        };
        if !str_eq(first.key.as_str(), "type") {
            return Err(ParseMountError::TypeNotFirst);
        }
        match fold_entries(t, &es) {
            Ok(slots) => build(t, slots),
            Err(e) => Err(e),
        }
    }
}

/// "key=value".
pub open spec fn kv(key: Seq<char>, value: Seq<char>) -> Seq<char> {
    key + seq!['='] + value
}

/// The octal digits of a mode.
pub open spec fn octal(mode: u32) -> Seq<char> {
    digits_of(mode as nat, 8)
}

/// The idmap option: a bare "idmap" for an empty idmap.
pub open spec fn idmap_item(m: (Seq<Mapping>, Seq<Mapping>)) -> Seq<char> {
    if m.0.len() == 0 && m.1.len() == 0 {
        "idmap"@
    } else {
        kv("idmap"@, idmap_text(m.0, m.1))
    }
}

/// The options of a bind or glob mount after `a`, leaving out those at their defaults.
pub open spec fn bind_items(a: Seq<Seq<char>>, b: BindView) -> Seq<Seq<char>> {
    let a = a.push(kv("source"@, b.source));
    let a = push_some(a, b.destination, |d: Seq<char>| kv("destination"@, d));
    let a = push_if(a, b.read_only, "readonly=true"@);
    let a = push_if(
        a,
        b.bind_propagation != BindPropagation::RPrivate,
        kv("bind-propagation"@, propagation_name(b.bind_propagation)),
    );
    let a = push_if(a, b.bind_nonrecursive, "bind-nonrecursive=true"@);
    let a = push_some(a, b.relabel, |r: SELinuxRelabel| kv("relabel"@, relabel_name(r)));
    let a = push_some(a, b.idmap, |m: (Seq<Mapping>, Seq<Mapping>)| idmap_item(m));
    push_if(a, b.chown, "chown=true"@)
}

/// The options of a devpts mount after `a`, leaving out those at their defaults.
pub open spec fn devpts_items(a: Seq<Seq<char>>, d: DevPtsView) -> Seq<Seq<char>> {
    let a = a.push(kv("destination"@, d.destination));
    let a = push_if(a, d.uid != 0, kv("uid"@, decimal(d.uid as nat)));
    let a = push_if(a, d.gid != 0, kv("gid"@, decimal(d.gid as nat)));
    let a = push_if(a, d.mode != 0o600, kv("mode"@, octal(d.mode)));
    push_if(a, d.max != 1_048_576, kv("max"@, decimal(d.max as nat)))
}

/// The options of an image mount after `a`, leaving out those at their defaults.
pub open spec fn image_items(a: Seq<Seq<char>>, i: ImageView) -> Seq<Seq<char>> {
    let a = a.push(kv("source"@, i.source));
    let a = a.push(kv("destination"@, i.destination));
    push_if(a, i.read_write, "readwrite=true"@)
}

/// The options of a volume mount after `a`, leaving out those at their defaults.
pub open spec fn volume_items(a: Seq<Seq<char>>, v: VolumeView) -> Seq<Seq<char>> {
    let a = push_some(a, v.source, |s: Seq<char>| kv("source"@, s));
    let a = a.push(kv("destination"@, v.destination));
    let a = push_if(a, v.read_only, "readonly=true"@);
    let a = push_if(a, v.chown, "chown=true"@);
    push_some(a, v.idmap, |m: (Seq<Mapping>, Seq<Mapping>)| idmap_item(m))
}

/// The options of a tmpfs or ramfs mount after `a`, leaving out those at their defaults.
pub open spec fn tmpfs_items(a: Seq<Seq<char>>, t: TmpfsView) -> Seq<Seq<char>> {
    let a = a.push(kv("destination"@, t.destination));
    let a = push_if(a, t.read_only, "readonly=true"@);
    let a = push_if(a, t.size != Size::Unlimited, kv("tmpfs-size"@, size_text(t.size)));
    let a = push_if(a, t.mode != 0o1777, kv("tmpfs-mode"@, octal(t.mode)));
    let a = push_if(a, !t.tmpcopyup, "notmpcopyup"@);
    push_if(a, t.chown, "chown=true"@)
}

/// The type of a mount.
pub open spec fn mount_type(m: MountView) -> MountType {
    match m {
        MountView::Bind(_) => MountType::Bind,
        MountView::DevPts(_) => MountType::DevPts,
        MountView::Glob(_) => MountType::Glob,
        MountView::Image(_) => MountType::Image,
        MountView::Ramfs(_) => MountType::Ramfs,
        MountView::Tmpfs(_) => MountType::Tmpfs,
        MountView::Volume(_) => MountType::Volume,
    }
}

/// The options of a mount: "type=TYPE", then those of its type.
pub open spec fn mount_items(m: MountView) -> Seq<Seq<char>> {
    let a = seq![kv("type"@, kind_name(mount_type(m)))];
    match m {
        MountView::Bind(b) => bind_items(a, b),
        MountView::DevPts(d) => devpts_items(a, d),
        MountView::Glob(b) => bind_items(a, b),
        MountView::Image(i) => image_items(a, i),
        MountView::Ramfs(t) => tmpfs_items(a, t),
        MountView::Tmpfs(t) => tmpfs_items(a, t),
        MountView::Volume(v) => volume_items(a, v),
    }
}

/// The mount options text of a mount: its options joined by ','.
pub open spec fn mount_text(m: MountView) -> Seq<char> {
    join(mount_items(m), seq![','])
}

/// The items written so far, when all fields could be written.
spec fn written(fields: Seq<Field>) -> Seq<Seq<char>> {
    field_items(fields)->Some_0
}

/// Append the field `key` with `value`, a value written as text or as a bare key.
fn push_field(fields: &mut Vec<Field>, key: &str, value: Value)
    requires
        field_items(old(fields)@) is Some,
        field_item(key@, value) matches Some(Some(_)),
    ensures
        field_items(final(fields)@) == Some(
            written(old(fields)@).push(field_item(key@, value)->Some_0->Some_0),
        ),
{
    let ghost before = fields@;
    let f = Field { key: key.to_owned(), value };
    fields.push(f);
    assert(fields@.drop_last() =~= before);
}

/// Append the field `key` with the text `t`, written as "key=t".
fn push_text(fields: &mut Vec<Field>, key: &str, t: String)
    requires
        field_items(old(fields)@) is Some,
    ensures
        field_items(final(fields)@) == Some(written(old(fields)@).push(kv(key@, t@))),
{
    push_field(fields, key, Value::Str(t));
}

/// Append the field `key` with the value `true`, written as "key=true".
fn push_true(fields: &mut Vec<Field>, key: &str)
    requires
        field_items(old(fields)@) is Some,
    ensures
        field_items(final(fields)@) == Some(written(old(fields)@).push(kv(key@, "true"@))),
{
    push_field(fields, key, Value::Bool(true));
}

/// Append the field `key` with the number `n`, written in decimal.
fn push_number(fields: &mut Vec<Field>, key: &str, n: u32)
    requires
        field_items(old(fields)@) is Some,
    ensures
        field_items(final(fields)@) == Some(
            written(old(fields)@).push(kv(key@, decimal(n as nat))),
        ),
{
    push_field(fields, key, Value::Unsigned(n as u128));
}

/// `Some(v)`, as the serde data model has it.
fn some(v: Value) -> (r: Value)
    ensures
        r == Value::OptionSome(Box::new(v)),
        scalar(r) == scalar(v),
{
    Value::OptionSome(Box::new(v))
}

/// The octal digits of a mode.
fn octal_string(mode: u32) -> (s: String)
    ensures
        s@ == octal(mode),
{
    let mut s = String::new();
    crate::num::write_digits(&mut s, mode as u128, 8);
    assert(s@ =~= octal(mode));
    s
}

/// Append the idmap field: a bare "idmap" for an empty idmap.
fn push_idmap(fields: &mut Vec<Field>, m: &Idmap)
    requires
        field_items(old(fields)@) is Some,
    ensures
        field_items(final(fields)@) == Some(written(old(fields)@).push(idmap_item(m@))),
{
    proof {
        reveal_strlit("idmap");
    }
    if m.is_empty() {
        push_field(fields, "idmap", some(Value::Unit));
    } else {
        push_field(fields, "idmap", some(Value::Str(m.to_string())));
    }
}

impl Bind {
    /// Append the fields of this bind mount.
    fn push_fields(&self, fields: &mut Vec<Field>)
        requires
            field_items(old(fields)@) is Some,
        ensures
            field_items(final(fields)@) == Some(bind_items(written(old(fields)@), self@)),
    {
        let ghost a0 = written(fields@);
        push_text(fields, "source", self.source.clone());
        match &self.destination {
            Some(d) => push_field(fields, "destination", some(Value::Str(d.clone()))),
            None => {},
        }
        if self.read_only {
            push_true(fields, "readonly");
        }
        if self.bind_propagation != BindPropagation::RPrivate {
            let name = self.bind_propagation.to_string();
            push_field(
                fields,
                "bind-propagation",
                Value::UnitVariant { name: "BindPropagation".to_owned(), variant: name },
            );
        }
        if self.bind_nonrecursive {
            push_true(fields, "bind-nonrecursive");
        }
        match self.relabel {
            Some(r) => push_field(
                fields,
                "relabel",
                some(
                    Value::UnitVariant {
                        name: "SELinuxRelabel".to_owned(),
                        variant: r.as_str().to_owned(),
                    },
                ),
            ),
            None => {},
        }
        match &self.idmap {
            Some(m) => push_idmap(fields, m),
            None => {},
        }
        if self.chown {
            push_true(fields, "chown");
        }
        proof {
            reveal_strlit("readonly=true");
            reveal_strlit("readonly");
            reveal_strlit("true");
            reveal_strlit("bind-nonrecursive=true");
            reveal_strlit("bind-nonrecursive");
            reveal_strlit("chown=true");
            reveal_strlit("chown");
            assert(kv("readonly"@, "true"@) =~= "readonly=true"@);
            assert(kv("bind-nonrecursive"@, "true"@) =~= "bind-nonrecursive=true"@);
            assert(kv("chown"@, "true"@) =~= "chown=true"@);
        }
    }
}

impl DevPts {
    /// Append the fields of this devpts mount.
    fn push_fields(&self, fields: &mut Vec<Field>)
        requires
            field_items(old(fields)@) is Some,
        ensures
            field_items(final(fields)@) == Some(devpts_items(written(old(fields)@), self@)),
    {
        push_text(fields, "destination", self.destination.clone());
        if self.uid != 0 {
            push_number(fields, "uid", self.uid);
        }
        if self.gid != 0 {
            push_number(fields, "gid", self.gid);
        }
        if self.mode != devpts_mode_default() {
            push_text(fields, "mode", octal_string(self.mode));
        }
        if !ptys::skip_default(self.max) {
            push_number(fields, "max", self.max);
        }
    }
}

impl Image {
    /// Append the fields of this image mount.
    fn push_fields(&self, fields: &mut Vec<Field>)
        requires
            field_items(old(fields)@) is Some,
        ensures
            field_items(final(fields)@) == Some(image_items(written(old(fields)@), self@)),
    {
        push_text(fields, "source", self.source.clone());
        push_text(fields, "destination", self.destination.clone());
        if self.read_write {
            push_true(fields, "readwrite");
        }
        proof {
            reveal_strlit("readwrite=true");
            reveal_strlit("readwrite");
            reveal_strlit("true");
            assert(kv("readwrite"@, "true"@) =~= "readwrite=true"@);
        }
    }
}

impl Volume {
    /// Append the fields of this volume mount.
    fn push_fields(&self, fields: &mut Vec<Field>)
        requires
            field_items(old(fields)@) is Some,
        ensures
            field_items(final(fields)@) == Some(volume_items(written(old(fields)@), self@)),
    {
        match &self.source {
            Some(x) => push_field(fields, "source", some(Value::Str(x.clone()))),
            None => {},
        }
        push_text(fields, "destination", self.destination.clone());
        if self.read_only {
            push_true(fields, "readonly");
        }
        if self.chown {
            push_true(fields, "chown");
        }
        match &self.idmap {
            Some(m) => push_idmap(fields, m),
            None => {},
        }
        proof {
            reveal_strlit("readonly=true");
            reveal_strlit("readonly");
            reveal_strlit("true");
            reveal_strlit("chown=true");
            reveal_strlit("chown");
            assert(kv("readonly"@, "true"@) =~= "readonly=true"@);
            assert(kv("chown"@, "true"@) =~= "chown=true"@);
        }
    }
}

impl Tmpfs {
    /// Append the fields of this tmpfs or ramfs mount.
    fn push_fields(&self, fields: &mut Vec<Field>)
        requires
            field_items(old(fields)@) is Some,
        ensures
            field_items(final(fields)@) == Some(tmpfs_items(written(old(fields)@), self@)),
    {
        push_text(fields, "destination", self.destination.clone());
        if self.read_only {
            push_true(fields, "readonly");
        }
        if self.size != Size::Unlimited {
            push_text(fields, "tmpfs-size", self.size.to_string());
        }
        if self.mode != tmpfs_mode_default() {
            push_text(fields, "tmpfs-mode", octal_string(self.mode));
        }
        if !self.tmpcopyup {
            push_field(fields, "notmpcopyup", Value::Unit);
        }
        if self.chown {
            push_true(fields, "chown");
        }
        proof {
            reveal_strlit("readonly=true");
            reveal_strlit("readonly");
            reveal_strlit("true");
            reveal_strlit("chown=true");
            reveal_strlit("chown");
            assert(kv("readonly"@, "true"@) =~= "readonly=true"@);
            assert(kv("chown"@, "true"@) =~= "chown=true"@);
        }
    }
}

impl Mount {
    /// The type of this mount.
    pub fn mount_type(&self) -> (t: MountType)
        ensures
            t == mount_type(self@),
    {
        match self {
            Mount::Bind(_) => MountType::Bind,
            Mount::DevPts(_) => MountType::DevPts,
            Mount::Glob(_) => MountType::Glob,
            Mount::Image(_) => MountType::Image,
            Mount::Ramfs(_) => MountType::Ramfs,
            Mount::Tmpfs(_) => MountType::Tmpfs,
            Mount::Volume(_) => MountType::Volume,
        }
    }

    /// This mount as the serde data model has it: a struct whose first field, "type", names the
    /// mount type, followed by the fields of that type that are not at their defaults.
    pub fn to_value(&self) -> (v: Value)
        ensures
            options_string(v) == Some(mount_text(self@)),
    {
        let mut fields: Vec<Field> = Vec::new();
        assert(field_items(fields@) == Some(Seq::<Seq<char>>::empty()));
        push_text(&mut fields, "type", self.mount_type().as_str().to_owned());
        let ghost a = written(fields@);
        assert(a =~= seq![kv("type"@, kind_name(mount_type(self@)))]);
        let name = match self {
            Mount::Bind(b) => {
                b.push_fields(&mut fields);
                "Bind"
            },
            Mount::DevPts(d) => {
                d.push_fields(&mut fields);
                "DevPts"
            },
            Mount::Glob(b) => {
                b.push_fields(&mut fields);
                "Bind"
            },
            Mount::Image(i) => {
                i.push_fields(&mut fields);
                "Image"
            },
            Mount::Ramfs(t) => {
                t.push_fields(&mut fields);
                "Tmpfs"
            },
            Mount::Tmpfs(t) => {
                t.push_fields(&mut fields);
                "Tmpfs"
            },
            Mount::Volume(v) => {
                v.push_fields(&mut fields);
                "Volume"
            },
        };
        Value::Struct { name: name.to_owned(), fields }
    }

    /// The mount options text of this mount: "type=TYPE" and the options that are not at their
    /// defaults, joined by ','.
    pub fn to_string(&self) -> (s: String)
        ensures
            s@ == mount_text(self@),
    {
        let v = self.to_value();
        match crate::mount_options::to_string(&v) {
            Ok(s) => s,
            Err(_) => {
                assert(false);
                String::new()
            },
        }
    }
}

} // verus!
