//! The options of `podman run` for a container, and the Quadlet `[Container]` section they give.

use vstd::prelude::*;

use crate::escape::{arg_quoted, char_is_whitespace, command_join, is_whitespace};
use crate::image::{image_name, image_to_name};
use crate::podman_args::{podman_args_empty, podman_args_text, PodmanArgs};
use crate::quadlet_container::{container_from_options, from_options, Container as QuadletContainer};
use crate::quadlet_options::{options_empty, QuadletOptions};
use crate::security_opt::{
    add_security_spec, empty_options, QuadletOptions as SecurityOptions, QuadletOptionsView,
    SecurityOpt, SecurityOptView,
};
use crate::text::{chars, join, opt_seq, push_char, push_str};

verus! {

/// The options of `podman run`: those with a Quadlet option, those without one, the security
/// options, the image, and the command with its arguments.
pub struct Container {
    pub quadlet_options: QuadletOptions,
    pub podman_args: PodmanArgs,
    pub security_opt: Vec<SecurityOpt>,
    pub image: String,
    pub command: Vec<String>,
}

/// The views of security options.
pub open spec fn security_views(opts: Seq<SecurityOpt>) -> Seq<SecurityOptView> {
    opts.map_values(|o: SecurityOpt| o@)
}

/// The security options folded into Quadlet options, in order.
pub open spec fn security_folded(opts: Seq<SecurityOptView>) -> QuadletOptionsView
    decreases opts.len(),
{
    if opts.len() == 0 {
        empty_options()
    } else {
        add_security_spec(security_folded(opts.drop_last()), opts.last())
    }
}

/// `s` followed by ` --security-opt ARG` for each argument.
pub open spec fn with_security_args(s: Seq<char>, args: Seq<Seq<char>>) -> Seq<char>
    decreases args.len(),
{
    if args.len() == 0 {
        s
    } else {
        with_security_args(s, args.drop_last()) + " --security-opt "@ + args.last()
    }
}

/// `s` without its leading whitespace.
pub open spec fn trim_start(s: Seq<char>) -> Seq<char>
    decreases s.len(),
{
    if s.len() > 0 && is_whitespace(s[0]) {
        trim_start(s.subrange(1, s.len() as int))
    } else {
        s
    }
}

/// `s` without its trailing whitespace.
pub open spec fn trim_end(s: Seq<char>) -> Seq<char>
    decreases s.len(),
{
    if s.len() > 0 && is_whitespace(s.last()) {
        trim_end(s.drop_last())
    } else {
        s
    }
}

/// `str::trim`: `s` without leading and trailing whitespace.
pub open spec fn trimmed(s: Seq<char>) -> Seq<char> {
    trim_end(trim_start(s))
}

/// The Podman arguments of the container section: the arguments without a Quadlet option,
/// then ` --security-opt ARG` for each security option without one, trimmed; none where that
/// is empty.
pub open spec fn container_args(c: Container) -> Option<Seq<char>> {
    let q = security_folded(security_views(c.security_opt@));
    let a = with_security_args(podman_args_text(c.podman_args), q.podman_args);
    if a.len() > 0 {
        Some(trimmed(a))
    } else {
        None
    }
}

/// The `Exec=` value: the command and its arguments, each quoted for a shell, joined by
/// spaces; none without a command.
pub open spec fn exec_text(command: Vec<String>) -> Option<Seq<char>> {
    if command@.len() > 0 {
        Some(join(command.deep_view().map_values(|a: Seq<char>| arg_quoted(a)), seq![' ']))
    } else {
        None
    }
}

/// `str::trim`.
fn trim(s: &str) -> (r: String)
    ensures
        r@ == trimmed(s@),
{
    let v = chars(s);
    let n = v.len();
    let mut i: usize = 0;
    assert(v@.subrange(0, n as int) =~= v@);
    while i < n && char_is_whitespace(v[i])
        invariant
            i <= n,
            n == v@.len(),
            v@ == s@,
            trim_start(s@) == trim_start(v@.subrange(i as int, n as int)),
        decreases n - i,
    {
        assert(v@.subrange(i as int, n as int).subrange(1, (n - i) as int) =~= v@.subrange(
            i + 1,
            n as int,
        ));
        i = i + 1;
    }
    assert(trim_start(s@) == v@.subrange(i as int, n as int));
    let mut j: usize = n;
    while j > i && char_is_whitespace(v[j - 1])
        invariant
            i <= j <= n,
            n == v@.len(),
            v@ == s@,
            trimmed(s@) == trim_end(v@.subrange(i as int, j as int)),
        decreases j - i,
    {
        assert(v@.subrange(i as int, j as int).drop_last() =~= v@.subrange(i as int, j - 1));
        j = j - 1;
    }
    let mut r = String::new();
    let mut k: usize = i;
    while k < j
        invariant
            i <= k <= j <= n,
            n == v@.len(),
            r@ == v@.subrange(i as int, k as int),
        decreases j - k,
    {
        push_char(&mut r, v[k]);
        k = k + 1;
        assert(r@ =~= v@.subrange(i as int, k as int));
    }
    r
}

impl Default for Container {
    /// No option set, no image and no command.
    fn default() -> (c: Container)
        ensures
            options_empty(c.quadlet_options),
            podman_args_empty(c.podman_args),
            c.security_opt@.len() == 0 && c.image@.len() == 0 && c.command@.len() == 0,
    {
        Container {
            quadlet_options: QuadletOptions::default(),
            podman_args: PodmanArgs::default(),
            security_opt: Vec::new(),
            image: String::new(),
            command: Vec::new(),
        }
    }
}

impl Container {
    /// The name of the file to generate: the container's name where it is set, else the name
    /// taken from the image.
    pub fn name(&self) -> (r: String)
        ensures
            r@ == match self.quadlet_options.name {
                Some(n) => n@,
                None => image_name(self.image@),
            },
    {
        match &self.quadlet_options.name {
            Some(n) => n.clone(),
            None => image_to_name(self.image.as_str()),
        }
    }

    /// The `[Container]` section that these options give: the Quadlet options as
    /// [`container_from_options`] gives them, the security options folded into their Quadlet
    /// options, the other arguments in `PodmanArgs=` (see [`container_args`]), the image, and
    /// the command in `Exec=`.
    pub fn into_quadlet(self) -> (r: QuadletContainer)
        ensures
            from_options(self.quadlet_options, r),
            r.image == self.image,
            ({
                let q = security_folded(security_views(self.security_opt@));
                &&& r.mask.deep_view() == q.mask
                &&& r.no_new_privileges == q.no_new_privileges
                &&& opt_seq(r.seccomp_profile) == q.seccomp_profile
                &&& r.security_label_disable == q.security_label_disable
                &&& opt_seq(r.security_label_file_type) == q.security_label_file_type
                &&& opt_seq(r.security_label_level) == q.security_label_level
                &&& r.security_label_nested == q.security_label_nested
                &&& opt_seq(r.security_label_type) == q.security_label_type
                &&& match r.unmask {
                    Some(u) => q.unmask == Some(u@),
                    None => q.unmask is None,
                }
            }),
            opt_seq(r.podman_args) == container_args(self),
            opt_seq(r.exec_command) == exec_text(self.command),
    {
        let ghost me = self;
        let Container { quadlet_options, podman_args, security_opt, image, command } = self;
        let ghost all = security_opt@;
        let ghost views = security_views(all);
        let mut sec = SecurityOptions::new();
        let mut opts = security_opt;
        let ghost mut k: int = 0;
        assert(views.subrange(0, 0) =~= Seq::<SecurityOptView>::empty());
        while opts.len() > 0
            invariant
                0 <= k <= all.len(),
                views == security_views(all),
                opts@ == all.subrange(k, all.len() as int),
                sec@ == security_folded(views.subrange(0, k)),
            decreases opts@.len(),
        {
            let o = opts.remove(0);
            assert(o == all[k]);
            sec.add_security_opt(o);
            proof {
                k = k + 1;
                assert(views.subrange(0, k).drop_last() =~= views.subrange(0, k - 1));
                assert(opts@ =~= all.subrange(k, all.len() as int));
            }
        }
        assert(views.subrange(0, all.len() as int) =~= views);
        let mut args = podman_args.to_string();
        let ghost base = args@;
        let mut i: usize = 0;
        assert(sec.podman_args.deep_view().subrange(0, 0) =~= Seq::<Seq<char>>::empty());
        while i < sec.podman_args.len()
            invariant
                i <= sec.podman_args@.len(),
                args@ == with_security_args(base, sec.podman_args.deep_view().subrange(0, i as int)),
            decreases sec.podman_args@.len() - i,
        {
            let ghost pre = sec.podman_args.deep_view().subrange(0, i + 1);
            assert(pre.drop_last() =~= sec.podman_args.deep_view().subrange(0, i as int));
            push_str(&mut args, " --security-opt ");
            push_str(&mut args, sec.podman_args[i].as_str());
            i = i + 1;
        }
        assert(sec.podman_args.deep_view().subrange(0, sec.podman_args@.len() as int)
            =~= sec.podman_args.deep_view());
        let podman = if args.as_str().unicode_len() > 0 {
            Some(trim(args.as_str()))
        } else {
            None
        };
        let exec = if command.len() > 0 {
            Some(command_join(&command))
        } else {
            None
        };
        let mut c = container_from_options(quadlet_options);
        c.image = image;
        c.mask = sec.mask;
        c.no_new_privileges = sec.no_new_privileges;
        c.seccomp_profile = sec.seccomp_profile;
        c.security_label_disable = sec.security_label_disable;
        c.security_label_file_type = sec.security_label_file_type;
        c.security_label_level = sec.security_label_level;
        c.security_label_nested = sec.security_label_nested;
        c.security_label_type = sec.security_label_type;
        c.unmask = sec.unmask;
        c.podman_args = podman;
        c.exec_command = exec;
        c
    }
}

} // verus!
