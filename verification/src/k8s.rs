//! Helpers for turning compose services into Kubernetes objects: volume targets and names,
//! health check durations, and the annotations of Podman volumes.

use vstd::prelude::*;

use crate::text::opt_seq;

use crate::num::{decimal, decimal_string, parse_u32, parse_unsigned};
use crate::text::{has_char, push_char, push_str, push_string, split, str_eq, str_has_char, str_split, str_strip_prefix, strip_prefix};

verus! {

/// Apply one volume option to the target and the read-only flag: "ro" sets the flag, "rw" is
/// dropped, any other option is appended to the target, after ':' for the first and ',' for the
/// others.
pub open spec fn target_step(state: (Seq<char>, bool), option: Seq<char>) -> (Seq<char>, bool) {
    if option == "ro"@ {
        (state.0, true)
    } else if option == "rw"@ {
        state
    } else if has_char(state.0, ':') {
        (state.0 + seq![','] + option, state.1)
    } else {
        (state.0 + seq![':'] + option, state.1)
    }
}

/// Apply the volume options in order.
pub open spec fn fold_target(state: (Seq<char>, bool), options: Seq<Seq<char>>) -> (Seq<char>, bool)
    decreases options.len(),
{
    if options.len() == 0 {
        state
    } else {
        target_step(fold_target(state, options.drop_last()), options.last())
    }
}

/// The target with its options, and whether it is read-only, from a target and its ','-separated
/// options.
pub fn parse_target_and_read_only(target: &str, options: &str) -> (r: (String, bool))
    ensures
        (r.0@, r.1) == fold_target((target@, false), split(options@, ',')),
{
    let pieces = str_split(options, ',');
    let ghost all = split(options@, ',');
    let mut t = target.to_owned();
    let mut read_only = false;
    let mut i: usize = 0;
    while i < pieces.len()
        invariant
            i <= pieces@.len(),
            all == pieces.deep_view(),
            (t@, read_only) == fold_target((target@, false), all.subrange(0, i as int)),
        decreases pieces@.len() - i,
    {
        let ghost pre = all.subrange(0, i + 1);
        assert(pre.drop_last() =~= all.subrange(0, i as int));
        assert(pre.last() == pieces[i as int]@);
        let option = pieces[i].as_str();
        if str_eq(option, "ro") {
            read_only = true;
        } else if str_eq(option, "rw") {
        } else if str_has_char(t.as_str(), ':') {
            push_char(&mut t, ',');
            push_str(&mut t, option);
        } else {
            push_char(&mut t, ':');
            push_str(&mut t, option);
        }
        i = i + 1;
    }
    assert(all.subrange(0, pieces@.len() as int) =~= all);
    (t, read_only)
}

/// A path with each '/' and '\\' replaced by '-'.
pub open spec fn dashed(path: Seq<char>) -> Seq<char> {
    path.map_values(|c: char| if c == '/' || c == '\\' { '-' } else { c })
}

/// The name of a volume of a container: the container's name followed by the path of the volume
/// with each '/' and '\\' replaced by '-'.
pub fn volume_name(container_name: &str, path: &str) -> (r: String)
    ensures
        r@ == container_name@ + dashed(path@),
{
    let mut s = container_name.to_owned();
    let ghost start = s@;
    let v = crate::text::chars(path);
    let mut i: usize = 0;
    while i < v.len()
        invariant
            i <= v@.len(),
            v@ == path@,
            start == container_name@,
            s@ == start + dashed(v@.subrange(0, i as int)),
        decreases v@.len() - i,
    {
        let c = v[i];
        if c == '/' || c == '\\' {
            push_char(&mut s, '-');
        } else {
            push_char(&mut s, c);
        }
        i = i + 1;
        assert(s@ =~= start + dashed(v@.subrange(0, i as int)));
    }
    assert(v@.subrange(0, v@.len() as int) =~= v@);
    s
}

/// A duration in whole seconds, rounded to the nearest second and at least 1.
pub open spec fn round_seconds(secs: u64, subsec_micros: u32) -> int {
    let r = if subsec_micros >= 500_000 {
        secs + 1
    } else {
        secs as int
    };
    if r < 1 {
        1
    } else {
        r
    }
}

/// A duration of `secs` seconds and `subsec_micros` microseconds in whole seconds, rounded to the
/// nearest second and at least 1.
pub fn duration_round_seconds(secs: u64, subsec_micros: u32) -> (r: u64)
    requires
        !(secs == u64::MAX && subsec_micros >= 500_000),
    ensures
        r == round_seconds(secs, subsec_micros),
{
    let mut s = secs;
    if subsec_micros >= 500_000 {
        s = s + 1;
    }
    if s < 1 {
        1
    } else {
        s
    }
}

/// Volume options that become annotations of a Kubernetes persistent volume claim.
#[derive(Debug, Clone, PartialEq, Eq)]
pub struct VolumeAnnotations {
    pub driver: Option<String>,
    pub device: Option<String>,
    pub fs_type: Option<String>,
    pub uid: Option<u32>,
    pub gid: Option<u32>,
    pub mount_options: Option<String>,
    pub import_source: Option<String>,
    pub image: Option<String>,
}

/// Append the annotation `key` with `value` when there is a value.
pub open spec fn push_annotation(
    items: Seq<(Seq<char>, Seq<char>)>,
    key: Seq<char>,
    value: Option<Seq<char>>,
) -> Seq<(Seq<char>, Seq<char>)> {
    match value {
        Some(v) => items.push((key, v)),
        None => items,
    }
}

/// The decimal text of an optional number.
pub open spec fn opt_decimal(o: Option<u32>) -> Option<Seq<char>> {
    match o {
        Some(n) => Some(crate::num::decimal(n as nat)),
        None => None,
    }
}

/// The annotations of a volume, in a fixed order, for the options that are set.
pub open spec fn volume_annotations(a: VolumeAnnotations) -> Seq<(Seq<char>, Seq<char>)> {
    let s = Seq::<(Seq<char>, Seq<char>)>::empty();
    let s = push_annotation(s, "volume.podman.io/driver"@, opt_seq(a.driver));
    let s = push_annotation(s, "volume.podman.io/device"@, opt_seq(a.device));
    let s = push_annotation(s, "volume.podman.io/type"@, opt_seq(a.fs_type));
    let s = push_annotation(s, "volume.podman.io/uid"@, opt_decimal(a.uid));
    let s = push_annotation(s, "volume.podman.io/gid"@, opt_decimal(a.gid));
    let s = push_annotation(s, "volume.podman.io/mount-options"@, opt_seq(a.mount_options));
    let s = push_annotation(s, "volume.podman.io/import-source"@, opt_seq(a.import_source));
    push_annotation(s, "volume.podman.io/image"@, opt_seq(a.image))
}

/// The views of a sequence of annotations.
pub open spec fn annotations_view(v: Seq<(String, String)>) -> Seq<(Seq<char>, Seq<char>)> {
    v.map_values(|p: (String, String)| (p.0@, p.1@))
}

/// Append the annotation `key` with `value` when there is a value.
fn push_pair(items: &mut Vec<(String, String)>, key: &str, value: Option<String>)
    ensures
        annotations_view(final(items)@) == push_annotation(
            annotations_view(old(items)@),
            key@,
            opt_seq(value),
        ),
{
    if let Some(v) = value {
        let ghost before = items@;
        items.push((key.to_owned(), v));
        assert(annotations_view(items@) =~= annotations_view(before).push((key@, v@)));
    }
}

/// The decimal text of an optional number.
fn decimal_opt(o: Option<u32>) -> (r: Option<String>)
    ensures
        opt_seq(r) == opt_decimal(o),
{
    match o {
        Some(n) => Some(crate::num::decimal_string(n as u128)),
        None => None,
    }
}

impl VolumeAnnotations {
    /// The annotations of this volume, in a fixed order, for the options that are set.
    pub fn into_annotations(self) -> (r: Vec<(String, String)>)
        ensures
            annotations_view(r@) == volume_annotations(self),
    {
        let ghost a = self;
        let mut v: Vec<(String, String)> = Vec::new();
        assert(annotations_view(v@) =~= Seq::<(Seq<char>, Seq<char>)>::empty());
        push_pair(&mut v, "volume.podman.io/driver", self.driver);
        push_pair(&mut v, "volume.podman.io/device", self.device);
        push_pair(&mut v, "volume.podman.io/type", self.fs_type);
        push_pair(&mut v, "volume.podman.io/uid", decimal_opt(self.uid));
        push_pair(&mut v, "volume.podman.io/gid", decimal_opt(self.gid));
        push_pair(&mut v, "volume.podman.io/mount-options", self.mount_options);
        push_pair(&mut v, "volume.podman.io/import-source", self.import_source);
        push_pair(&mut v, "volume.podman.io/image", self.image);
        v
    }
}

/// [`VolumeAnnotations`] with its texts as character sequences.
pub ghost struct AnnotationsView {
    pub driver: Option<Seq<char>>,
    pub device: Option<Seq<char>>,
    pub fs_type: Option<Seq<char>>,
    pub uid: Option<u32>,
    pub gid: Option<u32>,
    pub mount_options: Option<Seq<char>>,
    pub import_source: Option<Seq<char>>,
    pub image: Option<Seq<char>>,
}

impl View for VolumeAnnotations {
    type V = AnnotationsView;

    open spec fn view(&self) -> AnnotationsView {
        AnnotationsView {
            driver: opt_seq(self.driver),
            device: opt_seq(self.device),
            fs_type: opt_seq(self.fs_type),
            uid: self.uid,
            gid: self.gid,
            mount_options: opt_seq(self.mount_options),
            import_source: opt_seq(self.import_source),
            image: opt_seq(self.image),
        }
    }
}

/// The value of a volume driver option in a compose file.
#[derive(Debug, Clone, PartialEq, Eq)]
pub enum DriverOptValue {
    /// A string.
    Text(String),
    /// A number that is an unsigned integer.
    Unsigned(u64),
    /// Another number, as its text.
    OtherNumber(String),
}

/// [`DriverOptValue`] with its texts as character sequences.
pub ghost enum DriverOptValueView {
    Text(Seq<char>),
    Unsigned(u64),
    OtherNumber(Seq<char>),
}

impl View for DriverOptValue {
    type V = DriverOptValueView;

    open spec fn view(&self) -> DriverOptValueView {
        match self {
            DriverOptValue::Text(t) => DriverOptValueView::Text(t@),
            DriverOptValue::Unsigned(n) => DriverOptValueView::Unsigned(*n),
            DriverOptValue::OtherNumber(t) => DriverOptValueView::OtherNumber(t@),
        }
    }
}

/// The text of a driver option's value.
pub open spec fn value_text(v: DriverOptValueView) -> Seq<char> {
    match v {
        DriverOptValueView::Text(t) => t,
        DriverOptValueView::Unsigned(n) => crate::num::decimal(n as nat),
        DriverOptValueView::OtherNumber(t) => t,
    }
}

/// Error returned for a volume driver option that cannot become an annotation.
#[derive(Debug, Clone, PartialEq, Eq)]
pub enum DriverOptError {
    /// "uid" or "gid", by name, whose value is no unsigned integer.
    NotUnsigned(String),
    /// "UID" or "GID", by name, with a value too large for `u32`.
    TooLarge(String, u64),
    /// The "o" option, whose value is no string.
    NotText,
    /// A "uid=" or "gid=" mount option, named "UID" or "GID", whose value does not parse as `u32`.
    ParseId(String, String),
    /// An option that is not known, by key.
    Unknown(String),
}

/// [`DriverOptError`] with its texts as character sequences.
pub ghost enum DriverOptErr {
    NotUnsigned(Seq<char>),
    TooLarge(Seq<char>, u64),
    NotText,
    ParseId(Seq<char>, Seq<char>),
    Unknown(Seq<char>),
}

impl View for DriverOptError {
    type V = DriverOptErr;

    open spec fn view(&self) -> DriverOptErr {
        match self {
            DriverOptError::NotUnsigned(n) => DriverOptErr::NotUnsigned(n@),
            DriverOptError::TooLarge(n, v) => DriverOptErr::TooLarge(n@, *v),
            DriverOptError::NotText => DriverOptErr::NotText,
            DriverOptError::ParseId(n, v) => DriverOptErr::ParseId(n@, v@),
            DriverOptError::Unknown(k) => DriverOptErr::Unknown(k@),
        }
    }
}

/// Add one mount option: "uid=N" and "gid=N" set the IDs, others are appended to the mount
/// options, separated by ','.
pub open spec fn mount_option_step(a: AnnotationsView, opt: Seq<char>) -> Result<
    AnnotationsView,
    DriverOptErr,
> {
    match strip_prefix(opt, "uid="@) {
        Some(v) => match parse_unsigned(v, 10, u32::MAX as nat) {
            Some(n) => Ok(AnnotationsView { uid: Some(n as u32), ..a }),
            None => Err(DriverOptErr::ParseId("UID"@, v)),
        },
        None => match strip_prefix(opt, "gid="@) {
            Some(v) => match parse_unsigned(v, 10, u32::MAX as nat) {
                Some(n) => Ok(AnnotationsView { gid: Some(n as u32), ..a }),
                None => Err(DriverOptErr::ParseId("GID"@, v)),
            },
            None => Ok(
                AnnotationsView {
                    mount_options: Some(
                        match a.mount_options {
                            Some(m) => m + seq![','] + opt,
                            None => opt,
                        },
                    ),
                    ..a
                },
            ),
        },
    }
}

/// Add the mount options `opts` in order: the annotations after the last one added, and the
/// error of the one that could not be added, if any.
pub open spec fn mount_options_fold(a: AnnotationsView, opts: Seq<Seq<char>>) -> (
    AnnotationsView,
    Option<DriverOptErr>,
)
    decreases opts.len(),
{
    if opts.len() == 0 {
        (a, None)
    } else {
        let (b, e) = mount_options_fold(a, opts.drop_last());
        match e {
            Some(_) => (b, e),
            None => match mount_option_step(b, opts.last()) {
                Ok(c) => (c, None),
                Err(x) => (b, Some(x)),
            },
        }
    }
}

/// Add the driver option `key` with `value`: the annotations after it, and its error, if any.
pub open spec fn driver_opt_step(a: AnnotationsView, key: Seq<char>, value: DriverOptValueView) -> (
    AnnotationsView,
    Option<DriverOptErr>,
) {
    if key == "device"@ {
        (AnnotationsView { device: Some(value_text(value)), ..a }, None)
    } else if key == "type"@ {
        (AnnotationsView { fs_type: Some(value_text(value)), ..a }, None)
    } else if key == "uid"@ {
        match value {
            DriverOptValueView::Unsigned(n) => if n <= u32::MAX {
                (AnnotationsView { uid: Some(n as u32), ..a }, None)
            } else {
                (a, Some(DriverOptErr::TooLarge("UID"@, n)))
            },
            _ => (a, Some(DriverOptErr::NotUnsigned("uid"@))),
        }
    } else if key == "gid"@ {
        match value {
            DriverOptValueView::Unsigned(n) => if n <= u32::MAX {
                (AnnotationsView { gid: Some(n as u32), ..a }, None)
            } else {
                (a, Some(DriverOptErr::TooLarge("GID"@, n)))
            },
            _ => (a, Some(DriverOptErr::NotUnsigned("gid"@))),
        }
    } else if key == "import-source"@ {
        (AnnotationsView { import_source: Some(value_text(value)), ..a }, None)
    } else if key == "image"@ {
        (AnnotationsView { image: Some(value_text(value)), ..a }, None)
    } else if key == "o"@ {
        match value {
            DriverOptValueView::Text(t) => mount_options_fold(a, split(t, ',')),
            _ => (a, Some(DriverOptErr::NotText)),
        }
    } else {
        (a, Some(DriverOptErr::Unknown(key)))
    }
}

/// Add the driver options `opts` in order to `a`.
pub open spec fn driver_opts_fold(a: AnnotationsView, opts: Seq<(Seq<char>, DriverOptValueView)>) -> Result<
    AnnotationsView,
    DriverOptErr,
>
    decreases opts.len(),
{
    if opts.len() == 0 {
        Ok(a)
    } else {
        match driver_opts_fold(a, opts.drop_last()) {
            Err(e) => Err(e),
            Ok(b) => match driver_opt_step(b, opts.last().0, opts.last().1) {
                (c, None) => Ok(c),
                (_, Some(e)) => Err(e),
            },
        }
    }
}

/// A copy of a driver option's value.
fn copy_value(value: &DriverOptValue) -> (r: DriverOptValue)
    ensures
        r@ == value@,
{
    match value {
        DriverOptValue::Text(t) => DriverOptValue::Text(t.clone()),
        DriverOptValue::Unsigned(n) => DriverOptValue::Unsigned(*n),
        DriverOptValue::OtherNumber(t) => DriverOptValue::OtherNumber(t.clone()),
    }
}

/// The text of a driver option's value.
fn value_string(value: &DriverOptValue) -> (r: String)
    ensures
        r@ == value_text(value@),
{
    match value {
        DriverOptValue::Text(t) => t.clone(),
        DriverOptValue::Unsigned(n) => crate::num::decimal_string(*n as u128),
        DriverOptValue::OtherNumber(t) => t.clone(),
    }
}

impl VolumeAnnotations {
    /// Add the mount options `mount_options`, separated by ','; "uid=N" and "gid=N" set the IDs.
    pub fn add_mount_options(&mut self, mount_options: &str) -> (r: Result<(), DriverOptError>)
        ensures
            final(self)@ == mount_options_fold(old(self)@, split(mount_options@, ',')).0,
            match r {
                Ok(()) => mount_options_fold(old(self)@, split(mount_options@, ',')).1 is None,
                Err(e) => mount_options_fold(old(self)@, split(mount_options@, ',')).1 == Some(
                    e@,
                ),
            },
    {
        let opts = str_split(mount_options, ',');
        let ghost all = opts.deep_view();
        let ghost start = self@;
        let mut i: usize = 0;
        while i < opts.len()
            invariant
                i <= opts@.len(),
                all == opts.deep_view(),
                all == split(mount_options@, ','),
                start == old(self)@,
                mount_options_fold(start, all.subrange(0, i as int)) == (self@, None::<DriverOptErr>),
            decreases opts.len() - i,
        {
            let ghost next = all.subrange(0, i + 1);
            assert(next.drop_last() =~= all.subrange(0, i as int));
            let opt = opts[i].as_str();
            assert(next.last() == opt@);
            let ghost prev = self@;
            if let Some(v) = str_strip_prefix(opt, "uid=") {
                match parse_u32(v.as_str()) {
                    Some(n) => {
                        self.uid = Some(n);
                    },
                    None => {
                        let e = DriverOptError::ParseId("UID".to_owned(), v);
                        assert(mount_option_step(self@, opt@) == Err::<AnnotationsView, DriverOptErr>(e@));
                        assert(mount_options_fold(start, next) == (self@, Some(e@)));
                        proof {
                            lemma_mount_fold_stops(start, all, i + 1);
                        }
                        return Err(e);
                    },
                }
            } else if let Some(v) = str_strip_prefix(opt, "gid=") {
                match parse_u32(v.as_str()) {
                    Some(n) => {
                        self.gid = Some(n);
                    },
                    None => {
                        proof {
                            lemma_mount_fold_stops(start, all, i + 1);
                        }
                        return Err(DriverOptError::ParseId("GID".to_owned(), v));
                    },
                }
            } else {
                let joined = match &self.mount_options {
                    Some(m) => {
                        let mut joined = m.clone();
                        push_char(&mut joined, ',');
                        push_str(&mut joined, opt);
                        assert(joined@ =~= m@ + seq![','] + opt@);
                        joined
                    },
                    None => opt.to_owned(),
                };
                self.mount_options = Some(joined);
                assert(mount_option_step(prev, opt@) == Ok::<AnnotationsView, DriverOptErr>(self@));
            }
            assert(mount_option_step(prev, opt@) == Ok::<AnnotationsView, DriverOptErr>(self@));
            assert(mount_options_fold(start, next) == (self@, None::<DriverOptErr>));
            i = i + 1;
        }
        assert(all.subrange(0, i as int) =~= all);
        Ok(())
    }

    /// Add the driver option `key` with `value`.
    pub fn parse_add(&mut self, key: &str, value: DriverOptValue) -> (r: Result<(), DriverOptError>)
        ensures
            final(self)@ == driver_opt_step(old(self)@, key@, value@).0,
            match r {
                Ok(()) => driver_opt_step(old(self)@, key@, value@).1 is None,
                Err(e) => driver_opt_step(old(self)@, key@, value@).1 == Some(e@),
            },
    {
        if str_eq(key, "device") {
            self.device = Some(value_string(&value));
        } else if str_eq(key, "type") {
            self.fs_type = Some(value_string(&value));
        } else if str_eq(key, "uid") {
            match value {
                DriverOptValue::Unsigned(n) => {
                    if n <= u32::MAX as u64 {
                        self.uid = Some(n as u32);
                    } else {
                        return Err(DriverOptError::TooLarge("UID".to_owned(), n));
                    }
                },
                _ => {
                    return Err(DriverOptError::NotUnsigned("uid".to_owned()));
                },
            }
        } else if str_eq(key, "gid") {
            match value {
                DriverOptValue::Unsigned(n) => {
                    if n <= u32::MAX as u64 {
                        self.gid = Some(n as u32);
                    } else {
                        return Err(DriverOptError::TooLarge("GID".to_owned(), n));
                    }
                },
                _ => {
                    return Err(DriverOptError::NotUnsigned("gid".to_owned()));
                },
            }
        } else if str_eq(key, "import-source") {
            self.import_source = Some(value_string(&value));
        } else if str_eq(key, "image") {
            self.image = Some(value_string(&value));
        } else if str_eq(key, "o") {
            match value {
                DriverOptValue::Text(t) => {
                    return self.add_mount_options(t.as_str());
                },
                _ => {
                    return Err(DriverOptError::NotText);
                },
            }
        } else {
            return Err(DriverOptError::Unknown(key.to_owned()));
        }
        Ok(())
    }

    /// The annotations of a compose volume with `driver` and the driver options `driver_opts`,
    /// added in order.
    pub fn try_from_compose(driver: Option<String>, driver_opts: Vec<(String, DriverOptValue)>) -> (r: Result<
        VolumeAnnotations,
        DriverOptError,
    >)
        ensures
            match r {
                Ok(a) => driver_opts_fold(no_annotations(opt_seq(driver)), driver_opts_view(driver_opts@))
                    == Ok::<AnnotationsView, DriverOptErr>(a@),
                Err(e) => driver_opts_fold(no_annotations(opt_seq(driver)), driver_opts_view(driver_opts@))
                    == Err::<AnnotationsView, DriverOptErr>(e@),
            },
    {
        let ghost all = driver_opts_view(driver_opts@);
        let ghost start = no_annotations(opt_seq(driver));
        let mut a = VolumeAnnotations {
            driver,
            device: None,
            fs_type: None,
            uid: None,
            gid: None,
            mount_options: None,
            import_source: None,
            image: None,
        };
        let opts = driver_opts;
        let ghost original = opts@;
        let mut i: usize = 0;
        while i < opts.len()
            invariant
                i <= opts@.len(),
                opts@ == original,
                all == driver_opts_view(original),
                start == no_annotations(opt_seq(driver)),
                original == driver_opts@,
                driver_opts_fold(start, all.subrange(0, i as int)) == Ok::<AnnotationsView, DriverOptErr>(a@),
            decreases opts.len() - i,
        {
            let ghost next = all.subrange(0, i + 1);
            assert(next.drop_last() =~= all.subrange(0, i as int));
            assert(next.last() == (opts@[i as int].0@, opts@[i as int].1@));
            let key = opts[i].0.clone();
            let value = copy_value(&opts[i].1);
            let ghost before = a@;
            match a.parse_add(key.as_str(), value) {
                Ok(()) => {},
                Err(e) => {
                    assert(driver_opt_step(before, next.last().0, next.last().1).1 == Some(e@));
                    assert(driver_opts_fold(start, next) == Err::<AnnotationsView, DriverOptErr>(e@));
                    proof {
                        lemma_driver_fold_err(start, all, i + 1, e@);
                    }
                    return Err(e);
                },
            }
            i = i + 1;
        }
        assert(all.subrange(0, i as int) =~= all);
        Ok(a)
    }
}

/// No annotation but the driver.
pub open spec fn no_annotations(driver: Option<Seq<char>>) -> AnnotationsView {
    AnnotationsView {
        driver,
        device: None,
        fs_type: None,
        uid: None,
        gid: None,
        mount_options: None,
        import_source: None,
        image: None,
    }
}

/// The keys and values of driver options.
pub open spec fn driver_opts_view(v: Seq<(String, DriverOptValue)>) -> Seq<(Seq<char>, DriverOptValueView)> {
    v.map_values(|p: (String, DriverOptValue)| (p.0@, p.1@))
}

/// Once a mount option fails, the fold keeps its state and error.
proof fn lemma_mount_fold_stops(a: AnnotationsView, opts: Seq<Seq<char>>, n: int)
    requires
        0 <= n <= opts.len(),
        mount_options_fold(a, opts.subrange(0, n)).1 is Some,
    ensures
        mount_options_fold(a, opts) == mount_options_fold(a, opts.subrange(0, n)),
    decreases opts.len() - n,
{
    if n < opts.len() {
        let next = opts.subrange(0, n + 1);
        assert(next.drop_last() =~= opts.subrange(0, n));
        lemma_mount_fold_stops(a, opts, n + 1);
    } else {
        assert(opts.subrange(0, n) =~= opts);
    }
}

/// An error in the first `n` driver options is the error of all of them.
proof fn lemma_driver_fold_err(
    a: AnnotationsView,
    opts: Seq<(Seq<char>, DriverOptValueView)>,
    n: int,
    e: DriverOptErr,
)
    requires
        0 <= n <= opts.len(),
        driver_opts_fold(a, opts.subrange(0, n)) == Err::<AnnotationsView, DriverOptErr>(e),
    ensures
        driver_opts_fold(a, opts) == Err::<AnnotationsView, DriverOptErr>(e),
    decreases opts.len() - n,
{
    if n < opts.len() {
        let next = opts.subrange(0, n + 1);
        assert(next.drop_last() =~= opts.subrange(0, n));
        lemma_driver_fold_err(a, opts, n + 1, e);
    } else {
        assert(opts.subrange(0, n) =~= opts);
    }
}

/// Whether an argument of a container's create command is kept, and whether the subcommand has
/// been seen after it: before the subcommand, "container" is dropped and "run" or "create" is
/// dropped as the subcommand.
pub open spec fn command_step(seen: bool, arg: Seq<char>) -> (bool, bool) {
    if !seen && arg == "container"@ {
        (false, false)
    } else if !seen && (arg == "run"@ || arg == "create"@) {
        (false, true)
    } else {
        (true, seen)
    }
}

/// The kept arguments of `args`, and whether the subcommand has been seen.
pub open spec fn filter_args(args: Seq<Seq<char>>) -> (Seq<Seq<char>>, bool)
    decreases args.len(),
{
    if args.len() == 0 {
        (Seq::<Seq<char>>::empty(), false)
    } else {
        let (kept, seen) = filter_args(args.drop_last());
        let (keep, seen2) = command_step(seen, args.last());
        (
            if keep {
                kept.push(args.last())
            } else {
                kept
            },
            seen2,
        )
    }
}

/// The arguments of a container's create command after "podman" and its subcommand ("run",
/// "create" or "container create").
pub open spec fn create_command_args(command: Seq<Seq<char>>) -> Seq<Seq<char>> {
    if command.len() == 0 {
        command
    } else {
        filter_args(command.drop_first()).0
    }
}

/// The arguments of a container's create command after "podman" and its subcommand.
pub fn filter_container_create_command(command: &Vec<String>) -> (r: Vec<String>)
    ensures
        r.deep_view() == create_command_args(command.deep_view()),
{
    let mut out: Vec<String> = Vec::new();
    if command.len() == 0 {
        assert(out.deep_view() =~= command.deep_view());
        return out;
    }
    let ghost args = command.deep_view().drop_first();
    let mut seen = false;
    let mut i: usize = 1;
    assert(args.subrange(0, 0) =~= Seq::<Seq<char>>::empty());
    assert(out.deep_view() =~= Seq::<Seq<char>>::empty());
    while i < command.len()
        invariant
            1 <= i <= command@.len(),
            args == command.deep_view().drop_first(),
            (out.deep_view(), seen) == filter_args(args.subrange(0, i - 1)),
        decreases command@.len() - i,
    {
        let ghost pre = args.subrange(0, i as int);
        assert(pre.drop_last() =~= args.subrange(0, i - 1));
        assert(pre.last() == command[i as int]@);
        let arg = command[i].as_str();
        let keep = if !seen && str_eq(arg, "container") {
            false
        } else if !seen && (str_eq(arg, "run") || str_eq(arg, "create")) {
            seen = true;
            false
        } else {
            true
        };
        if keep {
            push_string(&mut out, command[i].clone());
        }
        i = i + 1;
    }
    assert(args.subrange(0, command@.len() - 1) =~= args);
    out
}

/// Where a volume is mounted in a container of a pod: the path, the volume's name, and whether
/// it is read-only.
#[derive(Debug, Clone, PartialEq, Eq)]
pub struct VolumeMount {
    pub mount_path: String,
    pub name: String,
    pub read_only: bool,
}

/// A volume of a pod.
#[derive(Debug, Clone, PartialEq, Eq)]
pub enum PodVolume {
    /// An empty directory, for an anonymous volume.
    EmptyDir { name: String },
    /// A path of the host, for a bind mount.
    HostPath { name: String, path: String },
    /// A persistent volume claim of the same name, for a named volume.
    Claim { name: String },
    /// An empty directory in memory, for a tmpfs mount, with an optional size limit as a
    /// Kubernetes quantity.
    Memory { name: String, size_limit: Option<String> },
}

/// [`VolumeMount`] with its texts as character sequences.
pub ghost struct VolumeMountView {
    pub mount_path: Seq<char>,
    pub name: Seq<char>,
    pub read_only: bool,
}

/// [`PodVolume`] with its texts as character sequences.
pub ghost enum PodVolumeView {
    EmptyDir(Seq<char>),
    HostPath(Seq<char>, Seq<char>),
    Claim(Seq<char>),
    Memory(Seq<char>, Option<Seq<char>>),
}

impl View for VolumeMount {
    type V = VolumeMountView;

    open spec fn view(&self) -> VolumeMountView {
        VolumeMountView { mount_path: self.mount_path@, name: self.name@, read_only: self.read_only }
    }
}

impl View for PodVolume {
    type V = PodVolumeView;

    open spec fn view(&self) -> PodVolumeView {
        match self {
            PodVolume::EmptyDir { name } => PodVolumeView::EmptyDir(name@),
            PodVolume::HostPath { name, path } => PodVolumeView::HostPath(name@, path@),
            PodVolume::Claim { name } => PodVolumeView::Claim(name@),
            PodVolume::Memory { name, size_limit } => PodVolumeView::Memory(name@, opt_seq(*size_limit)),
        }
    }
}

/// Error returned when a short volume has more than three ':'-separated parts.
#[derive(Debug, Clone, Copy, PartialEq, Eq, Structural)]
pub enum ShortVolumeError {
    /// More than two ':' in the volume.
    TooManyColons,
}

/// A source is a host path when it starts with '.', '/' or '~'.
pub open spec fn is_host_source(s: Seq<char>) -> bool {
    s.len() > 0 && (s[0] == '.' || s[0] == '/' || s[0] == '~')
}

/// The mount at `target` of a bind mount of `source` or of the named volume `source`.
pub open spec fn source_volume(
    container: Seq<char>,
    source: Seq<char>,
    target: Seq<char>,
    mount_path: Seq<char>,
    read_only: bool,
) -> (VolumeMountView, PodVolumeView) {
    if is_host_source(source) {
        let name = container + dashed(target);
        (
            VolumeMountView { mount_path, name, read_only },
            PodVolumeView::HostPath(name, source),
        )
    } else {
        (VolumeMountView { mount_path, name: source, read_only }, PodVolumeView::Claim(source))
    }
}

/// What a short volume "\[source:\]target\[:options\]" of a compose service becomes in a pod:
/// an anonymous volume for a target alone or with options, a bind mount for a source that is a
/// host path, else a named volume.
pub open spec fn short_volume(volume: Seq<char>, container: Seq<char>) -> Result<
    (VolumeMountView, PodVolumeView),
    ShortVolumeError,
> {
    let parts = split(volume, ':');
    if parts.len() == 1 {
        let name = container + dashed(volume);
        Ok((VolumeMountView { mount_path: volume, name, read_only: false }, PodVolumeView::EmptyDir(name)))
    } else if parts.len() == 2 {
        if has_char(parts[1], '/') {
            Ok(source_volume(container, parts[0], parts[1], parts[1], false))
        } else {
            let (target, read_only) = fold_target((parts[0], false), split(parts[1], ','));
            let name = container + dashed(target);
            Ok(
                (
                    VolumeMountView { mount_path: target, name, read_only },
                    PodVolumeView::EmptyDir(name),
                ),
            )
        }
    } else if parts.len() == 3 {
        let (target, read_only) = fold_target((parts[1], false), split(parts[2], ','));
        Ok(source_volume(container, parts[0], parts[1], target, read_only))
    } else {
        Err(ShortVolumeError::TooManyColons)
    }
}

/// The mount and volume of a bind mount of `source` or of the named volume `source`.
fn source_volume_exec(
    container: &str,
    source: &str,
    target: &str,
    mount_path: String,
    read_only: bool,
) -> (r: (VolumeMount, PodVolume))
    ensures
        (r.0@, r.1@) == source_volume(container@, source@, target@, mount_path@, read_only),
{
    let host = if source.unicode_len() > 0 {
        let c = source.get_char(0);
        c == '.' || c == '/' || c == '~'
    } else {
        false
    };
    if host {
        let name = volume_name(container, target);
        (volume_mount(mount_path, name.clone(), read_only), bind_volume(name, source.to_owned()))
    } else {
        (volume_mount(mount_path, source.to_owned(), read_only), named_volume(source.to_owned()))
    }
}

/// What a short volume "\[source:\]target\[:options\]" of a compose service becomes in a pod.
pub fn parse_short_volume(volume: &str, container_name: &str) -> (r: Result<
    (VolumeMount, PodVolume),
    ShortVolumeError,
>)
    ensures
        match r {
            Ok((m, v)) => short_volume(volume@, container_name@) == Ok::<
                (VolumeMountView, PodVolumeView),
                ShortVolumeError,
            >((m@, v@)),
            Err(e) => short_volume(volume@, container_name@) == Err::<
                (VolumeMountView, PodVolumeView),
                ShortVolumeError,
            >(e),
        },
{
    let parts = str_split(volume, ':');
    if parts.len() == 1 {
        let name = volume_name(container_name, volume);
        Ok((volume_mount(volume.to_owned(), name.clone(), false), anonymous_volume(name)))
    } else if parts.len() == 2 {
        let first = parts[0].as_str();
        let second = parts[1].as_str();
        if str_has_char(second, '/') {
            Ok(source_volume_exec(container_name, first, second, second.to_owned(), false))
        } else {
            let (target, read_only) = parse_target_and_read_only(first, second);
            let name = volume_name(container_name, target.as_str());
            Ok((volume_mount(target, name.clone(), read_only), anonymous_volume(name)))
        }
    } else if parts.len() == 3 {
        let (target, read_only) = parse_target_and_read_only(parts[1].as_str(), parts[2].as_str());
        Ok(source_volume_exec(container_name, parts[0].as_str(), parts[1].as_str(), target, read_only))
    } else {
        Err(ShortVolumeError::TooManyColons)
    }
}

/// The mount at `mount_path` of the pod volume `name`.
pub fn volume_mount(mount_path: String, name: String, read_only: bool) -> (m: VolumeMount)
    ensures
        m@ == (VolumeMountView { mount_path: mount_path@, name: name@, read_only }),
{
    VolumeMount { mount_path, name, read_only }
}

/// An empty directory named `name`, for an anonymous volume.
pub fn anonymous_volume(name: String) -> (v: PodVolume)
    ensures
        v@ == PodVolumeView::EmptyDir(name@),
{
    PodVolume::EmptyDir { name }
}

/// The host path `path`, named `name`, for a bind mount.
pub fn bind_volume(name: String, path: String) -> (v: PodVolume)
    ensures
        v@ == PodVolumeView::HostPath(name@, path@),
{
    PodVolume::HostPath { name, path }
}

/// The persistent volume claim `name`, for a named volume.
pub fn named_volume(name: String) -> (v: PodVolume)
    ensures
        v@ == PodVolumeView::Claim(name@),
{
    PodVolume::Claim { name }
}

/// A byte count as a Kubernetes quantity: its decimal digits.
pub open spec fn quantity_of(size: Option<u64>) -> Option<Seq<char>> {
    match size {
        Some(n) => Some(decimal(n as nat)),
        None => None,
    }
}

/// A volume in memory named `name`, for a tmpfs mount, of at most `size_limit` bytes.
pub fn tmpfs_volume(name: String, size_limit: Option<u64>) -> (v: PodVolume)
    ensures
        v@ == PodVolumeView::Memory(name@, quantity_of(size_limit)),
{
    let size_limit = match size_limit {
        Some(n) => Some(decimal_string(n as u128)),
        None => None,
    };
    PodVolume::Memory { name, size_limit }
}

/// Where a pod volume of a mount comes from: a compose volume of that name, or the container of
/// that name.
#[derive(Debug, Clone, PartialEq, Eq)]
pub enum MountSource {
    /// A named compose volume, a persistent volume claim.
    Volume(String),
    /// Another source, named after the container and the mount path.
    Other(String),
}

/// The name of the pod volume of a mount at `mount_path`.
pub open spec fn mount_volume_name(source: MountSource, mount_path: Seq<char>) -> Seq<char> {
    match source {
        MountSource::Volume(v) => v@,
        MountSource::Other(container) => container@ + dashed(mount_path),
    }
}

impl MountSource {
    /// The name of the pod volume of a mount at `mount_path`: the compose volume's name, or the
    /// container's name followed by the mount path with '/' and '\' as '-'.
    pub fn into_volume_name(self, mount_path: &str) -> (r: String)
        ensures
            r@ == mount_volume_name(self, mount_path@),
    {
        match self {
            MountSource::Volume(v) => v,
            MountSource::Other(container) => volume_name(container.as_str(), mount_path),
        }
    }
}

/// A volume of a compose service in the long syntax.
#[derive(Debug, Clone, PartialEq, Eq)]
pub struct AdvancedVolume {
    pub source: Option<String>,
    pub target: String,
    /// The type: "bind", "volume" or "tmpfs" are supported.
    pub kind: String,
    pub read_only: bool,
    /// Whether bind options are given.
    pub bind: bool,
    /// Whether volume options are given.
    pub volume: bool,
    /// The size of a tmpfs, when tmpfs options are given.
    pub tmpfs_size: Option<u64>,
}

/// Error returned when a compose volume in the long syntax cannot be mounted in a pod.
#[derive(Debug, Clone, PartialEq, Eq)]
pub enum AdvancedVolumeError {
    /// Bind options: bind propagation is not supported by pods.
    BindOptions,
    /// A bind mount without a source.
    BindWithoutSource,
    /// Volume options: the nocopy option is not supported by pods.
    VolumeOptions,
    /// A type other than "bind", "volume" and "tmpfs".
    UnsupportedType(String),
}

/// [`AdvancedVolumeError`] with its text as a character sequence.
pub ghost enum AdvancedVolumeErr {
    BindOptions,
    BindWithoutSource,
    VolumeOptions,
    UnsupportedType(Seq<char>),
}

impl View for AdvancedVolumeError {
    type V = AdvancedVolumeErr;

    open spec fn view(&self) -> AdvancedVolumeErr {
        match self {
            AdvancedVolumeError::BindOptions => AdvancedVolumeErr::BindOptions,
            AdvancedVolumeError::BindWithoutSource => AdvancedVolumeErr::BindWithoutSource,
            AdvancedVolumeError::VolumeOptions => AdvancedVolumeErr::VolumeOptions,
            AdvancedVolumeError::UnsupportedType(t) => AdvancedVolumeErr::UnsupportedType(t@),
        }
    }
}

/// The name of a pod volume.
pub open spec fn pod_volume_name(v: PodVolumeView) -> Seq<char> {
    match v {
        PodVolumeView::EmptyDir(n) => n,
        PodVolumeView::HostPath(n, _) => n,
        PodVolumeView::Claim(n) => n,
        PodVolumeView::Memory(n, _) => n,
    }
}

/// What a compose volume in the long syntax becomes in a pod: a host path for a bind mount, a
/// claim for a named volume or an empty directory for an anonymous one, memory for a tmpfs;
/// mounted at the target, read-only as given.
pub open spec fn advanced_volume(v: AdvancedVolume, container: Seq<char>) -> Result<
    (VolumeMountView, PodVolumeView),
    AdvancedVolumeErr,
> {
    let generated = container + dashed(v.target@);
    let volume = if v.kind@ == "bind"@ {
        if v.bind {
            Err(AdvancedVolumeErr::BindOptions)
        } else {
            match v.source {
                None => Err(AdvancedVolumeErr::BindWithoutSource),
                Some(s) => Ok(PodVolumeView::HostPath(generated, s@)),
            }
        }
    } else if v.kind@ == "volume"@ {
        if v.volume {
            Err(AdvancedVolumeErr::VolumeOptions)
        } else {
            match v.source {
                None => Ok(PodVolumeView::EmptyDir(generated)),
                Some(s) => Ok(PodVolumeView::Claim(s@)),
            }
        }
    } else if v.kind@ == "tmpfs"@ {
        Ok(PodVolumeView::Memory(generated, quantity_of(v.tmpfs_size)))
    } else {
        Err(AdvancedVolumeErr::UnsupportedType(v.kind@))
    };
    match volume {
        Err(e) => Err(e),
        Ok(pv) => Ok(
            (
                VolumeMountView {
                    mount_path: v.target@,
                    name: pod_volume_name(pv),
                    read_only: v.read_only,
                },
                pv,
            ),
        ),
    }
}

/// The name of a pod volume.
fn name_of(v: &PodVolume) -> (r: String)
    ensures
        r@ == pod_volume_name(v@),
{
    match v {
        PodVolume::EmptyDir { name } => name.clone(),
        PodVolume::HostPath { name, .. } => name.clone(),
        PodVolume::Claim { name } => name.clone(),
        PodVolume::Memory { name, .. } => name.clone(),
    }
}

/// The mount and volume of a pod for a compose volume in the long syntax.
pub fn advanced_volume_try_into_volume_mount(volume: AdvancedVolume, container_name: &str) -> (r: Result<
    (VolumeMount, PodVolume),
    AdvancedVolumeError,
>)
    ensures
        match r {
            Ok((m, v)) => advanced_volume(volume, container_name@) == Ok::<
                (VolumeMountView, PodVolumeView),
                AdvancedVolumeErr,
            >((m@, v@)),
            Err(e) => advanced_volume(volume, container_name@) == Err::<
                (VolumeMountView, PodVolumeView),
                AdvancedVolumeErr,
            >(e@),
        },
{
    let ghost v = volume;
    let AdvancedVolume { source, target, kind, read_only, bind, volume, tmpfs_size } = volume;
    let pod_volume = if str_eq(kind.as_str(), "bind") {
        if bind {
            return Err(AdvancedVolumeError::BindOptions);
        }
        match source {
            None => {
                return Err(AdvancedVolumeError::BindWithoutSource);
            },
            Some(s) => bind_volume(volume_name(container_name, target.as_str()), s),
        }
    } else if str_eq(kind.as_str(), "volume") {
        if volume {
            return Err(AdvancedVolumeError::VolumeOptions);
        }
        match source {
            None => anonymous_volume(volume_name(container_name, target.as_str())),
            Some(s) => named_volume(s),
        }
    } else if str_eq(kind.as_str(), "tmpfs") {
        tmpfs_volume(volume_name(container_name, target.as_str()), tmpfs_size)
    } else {
        return Err(AdvancedVolumeError::UnsupportedType(kind));
    };
    let name = name_of(&pod_volume);
    Ok((volume_mount(target, name, read_only), pod_volume))
}

} // verus!
