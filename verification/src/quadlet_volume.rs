//! The `[Volume]` section of a Quadlet `.volume` file: its options, its text, and how it is made
//! from `podman volume create` options or from a volume of a compose file.

use vstd::prelude::*;

use crate::text::opt_seq;

use crate::downgrade::{older, push_podman_arg, with_podman_arg, DowngradeErr, DowngradeError, PodmanVersion};
use crate::quadlet_lines::{copy_text, flag_line, joined_line, opt_line, push_flag, push_joined, push_option, section_text};
use crate::quadlet_ser::header;
use crate::text::str_eq;
use crate::value::Field;
use crate::volume_opt::{fold_opts, parse_opt, DriverOptions, DriverOptionsView, Opt, OptView, ParseOptError};

verus! {

/// Options of the `[Volume]` section of a `.volume` Quadlet file.
#[derive(Debug, Clone, PartialEq, Eq)]
pub struct Volume {
    /// Copy the contents of the image's directory into the volume on first mount.
    pub copy: bool,
    /// The path of a device to mount.
    pub device: Option<String>,
    /// The volume driver.
    pub driver: Option<String>,
    /// The host group that owns the volume.
    pub group: Option<String>,
    /// The image the volume is based on, for the `image` driver.
    pub image: Option<String>,
    /// OCI labels of the volume.
    pub label: Vec<String>,
    /// Mount options of the volume.
    pub options: Option<String>,
    /// Arguments passed directly to the end of `podman volume create`.
    pub podman_args: Option<String>,
    /// The type of the file system, for `Type=`.
    pub fs_type: Option<String>,
    /// The host user that owns the volume.
    pub user: Option<String>,
}

/// The lines of the options of a `[Volume]` section: one for each option that is set, in the
/// order of the fields; the labels on one line.
pub open spec fn volume_lines(v: Volume) -> Seq<char> {
    flag_line("Copy"@, v.copy) + opt_line("Device"@, v.device) + opt_line("Driver"@, v.driver)
        + opt_line("Group"@, v.group) + opt_line("Image"@, v.image) + joined_line("Label"@, v.label@)
        + opt_line("Options"@, v.options) + opt_line("PodmanArgs"@, v.podman_args) + opt_line(
        "Type"@,
        v.fs_type,
    ) + opt_line("User"@, v.user)
}

/// The text of a `[Volume]` section: its header, then the lines of its options.
pub open spec fn volume_text(v: Volume) -> Seq<char> {
    header(false, "Volume"@) + volume_lines(v)
}

/// The options of a volume that driver options set.
pub open spec fn driver_options_of(v: Volume) -> DriverOptionsView {
    DriverOptionsView {
        fs_type: opt_seq(v.fs_type),
        device: opt_seq(v.device),
        copy: v.copy,
        user: opt_seq(v.user),
        group: opt_seq(v.group),
        options: opt_seq(v.options),
        image: opt_seq(v.image),
    }
}

/// The views of driver options.
pub open spec fn opts_view(opts: Seq<Opt>) -> Seq<OptView> {
    opts.map_values(|o: Opt| o@)
}

/// A volume of a compose file.
#[derive(Debug, Clone, PartialEq, Eq)]
pub struct ComposeVolume {
    pub driver: Option<String>,
    /// The driver options, each a key and the text of its value.
    pub driver_opts: Vec<(String, String)>,
    /// The labels, each "key=value".
    pub labels: Vec<String>,
    pub name: Option<String>,
    /// Whether the volume has compose extensions.
    pub extensions: bool,
}

/// Error returned when a compose volume cannot become a Quadlet volume.
#[derive(Debug, Clone, PartialEq, Eq)]
pub enum ComposeVolumeError {
    /// `name` is not supported.
    Name,
    /// Compose extensions are not supported.
    Extensions,
    /// The driver option of this index is not one of a volume.
    DriverOpt(usize, ParseOptError),
}

/// [`ComposeVolumeError`] with its text as a character sequence.
pub ghost enum ComposeVolumeErr {
    Name,
    Extensions,
    DriverOpt(usize, Seq<char>),
}

impl View for ComposeVolumeError {
    type V = ComposeVolumeErr;

    open spec fn view(&self) -> ComposeVolumeErr {
        match self {
            ComposeVolumeError::Name => ComposeVolumeErr::Name,
            ComposeVolumeError::Extensions => ComposeVolumeErr::Extensions,
            ComposeVolumeError::DriverOpt(i, ParseOptError::InvalidVolumeDriverOption(t)) => {
                ComposeVolumeErr::DriverOpt(*i, t@)
            },
        }
    }
}

/// The value of a compose driver option as a volume option takes it: none where it is empty,
/// or where the option is `copy` and the value `true` or `1`.
pub open spec fn compose_opt_value(option: Seq<char>, value: Seq<char>) -> Option<Seq<char>> {
    if value.len() > 0 && (option != "copy"@ || !(value == "true"@ || value == "1"@)) {
        Some(value)
    } else {
        None
    }
}

/// The volume options of compose driver options, parsed in order; the index and text of the
/// first that is not one.
pub open spec fn compose_opts(opts: Seq<(String, String)>) -> Result<Seq<OptView>, (usize, Seq<char>)>
    decreases opts.len(),
{
    if opts.len() == 0 {
        Ok(Seq::empty())
    } else {
        match compose_opts(opts.drop_last()) {
            Err(e) => Err(e),
            Ok(done) => {
                let (option, value) = opts.last();
                match parse_opt(option@, compose_opt_value(option@, value@)) {
                    Ok(o) => Ok(done.push(o)),
                    Err(t) => Err(((opts.len() - 1) as usize, t)),
                }
            },
        }
    }
}

/// The volume options of a compose volume, or the first error: its name, its extensions, then
/// each driver option.
pub open spec fn compose_volume_check(v: ComposeVolume) -> Result<Seq<OptView>, ComposeVolumeErr> {
    if v.name is Some {
        Err(ComposeVolumeErr::Name)
    } else if v.extensions {
        Err(ComposeVolumeErr::Extensions)
    } else {
        match compose_opts(v.driver_opts@) {
            Ok(os) => Ok(os),
            Err((i, t)) => Err(ComposeVolumeErr::DriverOpt(i, t)),
        }
    }
}

/// After the first driver option that fails, more options give that error.
proof fn lemma_opts_stop(opts: Seq<(String, String)>, j: int, n: int)
    requires
        0 <= j <= n <= opts.len(),
        compose_opts(opts.subrange(0, j)) is Err,
    ensures
        compose_opts(opts.subrange(0, n)) == compose_opts(opts.subrange(0, j)),
    decreases n - j,
{
    if n > j {
        lemma_opts_stop(opts, j, n - 1);
        assert(opts.subrange(0, n).drop_last() =~= opts.subrange(0, n - 1));
    }
}

/// The options of `podman volume create`.
#[derive(Debug, Clone, PartialEq, Eq)]
pub struct Create {
    pub driver: Option<String>,
    pub opt: Vec<Opt>,
    pub label: Vec<String>,
    /// The name of the volume.
    pub name: String,
}

/// What converting the compose volume `volume` gives: the Quadlet volume with its driver,
/// labels and what its driver options set, or the error of [`compose_volume_check`].
pub open spec fn compose_volume_converted(volume: ComposeVolume, r: Result<Volume, ComposeVolumeError>) -> bool {
    match r {
        Ok(v) => compose_volume_check(volume) matches Ok(os) && driver_options_of(v) == fold_opts(os)
            && v.driver == volume.driver && v.label == volume.labels && v.podman_args is None,
        Err(e) => compose_volume_check(volume) == Err::<Seq<OptView>, ComposeVolumeErr>(e@),
    }
}

impl Volume {
    /// A volume section with no option set.
    pub fn new() -> (v: Volume)
        ensures
            driver_options_of(v) == crate::volume_opt::no_options(),
            v.driver is None && v.label@.len() == 0 && v.podman_args is None,
    {
        Volume {
            copy: false,
            device: None,
            driver: None,
            group: None,
            image: None,
            label: Vec::new(),
            options: None,
            podman_args: None,
            fs_type: None,
            user: None,
        }
    }

    /// The text of the `[Volume]` section.
    pub fn to_string(&self) -> (r: String)
        ensures
            r@ == volume_text(*self),
    {
        let mut fields: Vec<Field> = Vec::new();
        let ghost mut t = Seq::<char>::empty();
        push_flag(&mut fields, "Copy", self.copy, Ghost(t));
        proof {
            assert(t + flag_line("Copy"@, self.copy) =~= flag_line("Copy"@, self.copy));
            t = flag_line("Copy"@, self.copy);
        }
        push_option(&mut fields, "Device", copy_text(&self.device), Ghost(t));
        proof {
            t = t + opt_line("Device"@, self.device);
        }
        push_option(&mut fields, "Driver", copy_text(&self.driver), Ghost(t));
        proof {
            t = t + opt_line("Driver"@, self.driver);
        }
        push_option(&mut fields, "Group", copy_text(&self.group), Ghost(t));
        proof {
            t = t + opt_line("Group"@, self.group);
        }
        push_option(&mut fields, "Image", copy_text(&self.image), Ghost(t));
        proof {
            t = t + opt_line("Image"@, self.image);
        }
        push_joined(&mut fields, "Label", &self.label, Ghost(t));
        proof {
            t = t + joined_line("Label"@, self.label@);
        }
        push_option(&mut fields, "Options", copy_text(&self.options), Ghost(t));
        proof {
            t = t + opt_line("Options"@, self.options);
        }
        push_option(&mut fields, "PodmanArgs", copy_text(&self.podman_args), Ghost(t));
        proof {
            t = t + opt_line("PodmanArgs"@, self.podman_args);
        }
        push_option(&mut fields, "Type", copy_text(&self.fs_type), Ghost(t));
        proof {
            t = t + opt_line("Type"@, self.fs_type);
        }
        push_option(&mut fields, "User", copy_text(&self.user), Ghost(t));
        proof {
            t = t + opt_line("User"@, self.user);
        }
        section_text("Volume", fields, Ghost(t))
    }

    /// The volume that the driver options `opts` set, applied in order; no other option is set.
    pub fn from_opts(opts: &Vec<Opt>) -> (v: Volume)
        ensures
            driver_options_of(v) == fold_opts(opts_view(opts@)),
            v.driver is None && v.label@.len() == 0 && v.podman_args is None,
    {
        let d = DriverOptions::from_opts(opts);
        assert(opts_view(opts@) == opts@.map_values(|o: Opt| o@));
        let DriverOptions { fs_type, device, copy, user, group, options, image } = d;
        Volume {
            copy,
            device,
            driver: None,
            group,
            image,
            label: Vec::new(),
            options,
            podman_args: None,
            fs_type,
            user,
        }
    }

    /// The Quadlet volume of `podman volume create` options: the driver and labels as they are,
    /// and what the driver options set.
    pub fn from_create(create: Create) -> (v: Volume)
        ensures
            driver_options_of(v) == fold_opts(opts_view(create.opt@)),
            v.driver == create.driver && v.label == create.label && v.podman_args is None,
    {
        let Create { driver, opt, label, name: _ } = create;
        let mut v = Volume::from_opts(&opt);
        v.driver = driver;
        v.label = label;
        v
    }

    /// The Quadlet volume of a compose volume: its driver and labels, and what its driver
    /// options set. A driver option's empty value, and the value `true` or `1` of `copy`, count
    /// as no value.
    ///
    /// Fails where the volume has a name or compose extensions, or a driver option is not one of
    /// a volume.
    #[verifier::loop_isolation(false)]
    pub fn try_from_compose(volume: ComposeVolume) -> (r: Result<Volume, ComposeVolumeError>)
        ensures
            compose_volume_converted(volume, r),
    {
        let ComposeVolume { driver, driver_opts, labels, name, extensions } = volume;
        if name.is_some() {
            return Err(ComposeVolumeError::Name);
        }
        if extensions {
            return Err(ComposeVolumeError::Extensions);
        }
        let ghost all = driver_opts@;
        let mut opts: Vec<Opt> = Vec::new();
        let mut i: usize = 0;
        assert(all.subrange(0, 0) =~= Seq::<(String, String)>::empty());
        assert(opts_view(opts@) =~= Seq::<OptView>::empty());
        while i < driver_opts.len()
            invariant
                i <= all.len(),
                all == driver_opts@,
                compose_opts(all.subrange(0, i as int)) == Ok::<
                    Seq<OptView>,
                    (usize, Seq<char>),
                >(opts_view(opts@)),
            decreases all.len() - i,
        {
            let ghost pre = all.subrange(0, i + 1);
            assert(pre.drop_last() =~= all.subrange(0, i as int));
            assert(pre.last() == all[i as int]);
            let (option, value) = &driver_opts[i];
            let keep = value.as_str().unicode_len() > 0 && (!str_eq(option.as_str(), "copy") || !(
            str_eq(value.as_str(), "true") || str_eq(value.as_str(), "1")));
            let value = if keep {
                Some(value.clone())
            } else {
                None
            };
            match Opt::parse(option.as_str(), value) {
                Ok(o) => {
                    let ghost before = opts@;
                    opts.push(o);
                    assert(opts_view(opts@) =~= opts_view(before).push(o@));
                },
                Err(e) => {
                    proof {
                        lemma_opts_stop(all, i + 1, all.len() as int);
                        assert(all.subrange(0, all.len() as int) =~= all);
                    }
                    return Err(ComposeVolumeError::DriverOpt(i, e));
                },
            }
            i = i + 1;
        }
        assert(all.subrange(0, all.len() as int) =~= all);
        let mut v = Volume::from_opts(&opts);
        v.driver = driver;
        v.label = labels;
        Ok(v)
    }
}

impl Default for Volume {
    fn default() -> (v: Volume)
        ensures
            driver_options_of(v) == crate::volume_opt::no_options(),
            v.driver is None && v.label@.len() == 0 && v.podman_args is None,
    {
        Volume::new()
    }
}

/// Podman's arguments after an optional `--flag arg`.
pub open spec fn opt_podman_arg(args: Option<Seq<char>>, flag: Seq<char>, arg: Option<Seq<char>>) -> Option<
    Seq<char>,
> {
    match arg {
        Some(a) => Some(with_podman_arg(args, flag, a)),
        None => args,
    }
}

/// A volume made to fit Podman `version`: its driver, its image, its Podman arguments, and the
/// error, if any. Before 4.8 the driver becomes `--driver` and the image `--opt image=`; before
/// 4.6 Podman arguments are an error, and are taken out.
pub open spec fn volume_downgraded(v: Volume, version: PodmanVersion) -> (
    Option<Seq<char>>,
    Option<Seq<char>>,
    Option<Seq<char>>,
    Option<DowngradeErr>,
) {
    let args = opt_seq(v.podman_args);
    let (driver, image, args) = if older(version, PodmanVersion { major: 4, minor: 8 }) {
        let a = opt_podman_arg(args, "driver"@, opt_seq(v.driver));
        let a = opt_podman_arg(
            a,
            "opt"@,
            match v.image {
                Some(i) => Some("image="@ + i@),
                None => None,
            },
        );
        (None, None, a)
    } else {
        (opt_seq(v.driver), opt_seq(v.image), args)
    };
    if older(version, PodmanVersion { major: 4, minor: 6 }) && args is Some {
        (
            driver,
            image,
            None,
            Some(
                DowngradeErr::Option {
                    quadlet_option: "PodmanArgs"@,
                    value: args->Some_0,
                    supported_version: PodmanVersion { major: 4, minor: 6 },
                },
            ),
        )
    } else {
        (driver, image, args, None)
    }
}

impl Volume {
    /// Makes the volume fit Podman `version`; see [`volume_downgraded`]. The other options stay
    /// as they are.
    pub fn downgrade(&mut self, version: PodmanVersion) -> (r: Result<(), DowngradeError>)
        ensures
            !older(version, PodmanVersion { major: 4, minor: 8 }) ==> r is Ok && *final(self)
                == *old(self),
            ({
                let (driver, image, args, err) = volume_downgraded(*old(self), version);
                &&& opt_seq(final(self).driver) == driver && opt_seq(final(self).image) == image
                &&& opt_seq(final(self).podman_args) == args
                &&& match r {
                    Ok(()) => err is None,
                    Err(e) => err == Some(e@),
                }
            }),
            final(self).copy == old(self).copy && final(self).device == old(self).device,
            final(self).group == old(self).group && final(self).label == old(self).label,
            final(self).options == old(self).options && final(self).fs_type == old(self).fs_type,
            final(self).user == old(self).user,
    {
        let mut args = self.podman_args.take();
        if version.is_older_than(PodmanVersion::new(4, 8)) {
            if let Some(driver) = self.driver.take() {
                push_podman_arg(&mut args, "driver", driver.as_str());
            }
            if let Some(image) = self.image.take() {
                let mut opt = "image=".to_owned();
                crate::text::push_str(&mut opt, image.as_str());
                proof {
                    reveal_strlit("image=");
                }
                push_podman_arg(&mut args, "opt", opt.as_str());
            }
        }
        if version.is_older_than(PodmanVersion::new(4, 6)) {
            if let Some(a) = args {
                return Err(
                    DowngradeError::Option {
                        quadlet_option: "PodmanArgs".to_owned(),
                        value: a,
                        supported_version: PodmanVersion::new(4, 6),
                    },
                );
            }
        }
        self.podman_args = args;
        Ok(())
    }
}

} // verus!
