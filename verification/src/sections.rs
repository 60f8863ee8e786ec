//! The generic sections of a Quadlet file: `[Unit]`, `[Install]` and `[Globals]`, as values for
//! the Quadlet serializer.

use vstd::prelude::*;

use crate::text::opt_seq;

use crate::downgrade::{older, DowngradeErr, DowngradeError, PodmanVersion};
use crate::escape::{escape_spaces_join, space_quoted};
use crate::quadlet_ser::{quoted_strings, seq_quote_whitespace};
use crate::text::{join, push_str, push_string};
use crate::value::{Field, Value};

verus! {

/// Common systemd unit options of the `[Unit]` section.
#[derive(Debug, Clone, PartialEq, Eq)]
pub struct Unit {
    /// `Description=`
    pub description: Option<String>,
    /// `Wants=`
    pub wants: Vec<String>,
    /// `Requires=`
    pub requires: Vec<String>,
    /// `BindsTo=`
    pub binds_to: Vec<String>,
    /// `Before=`
    pub before: Vec<String>,
    /// `After=`
    pub after: Vec<String>,
}

/// `v` is `Some(text)` for `Some`, `None` for `None`.
pub open spec fn option_value(v: Value, o: Option<Seq<char>>) -> bool {
    match o {
        Some(t) => v matches Value::OptionSome(b) && *b matches Value::Str(s) && s@ == t,
        None => v == Value::OptionNone,
    }
}

/// `v` is the words joined by spaces, each in double quotes when it holds a space.
pub open spec fn joined_words(v: Value, words: Seq<Seq<char>>) -> bool {
    v matches Value::Str(s) && s@ == join(
        words.map_values(|w: Seq<char>| space_quoted(w)),
        seq![' '],
    )
}

/// Append the field `key` with `value`.
fn push_field(fields: &mut Vec<Field>, key: &str, value: Value)
    ensures
        final(fields)@ == old(fields)@.push(Field { key: final(fields)@.last().key, value }),
        final(fields)@.last().key@ == key@,
{
    fields.push(Field { key: key.to_owned(), value });
}

/// `Some(text)` for `Some`, `None` for `None`.
fn optional_text(o: &Option<String>) -> (v: Value)
    ensures
        option_value(v, opt_seq(*o)),
{
    match o {
        Some(s) => Value::OptionSome(Box::new(Value::Str(s.clone()))),
        None => Value::OptionNone,
    }
}

impl Default for Unit {
    /// A unit section with nothing set.
    fn default() -> (u: Unit)
        ensures
            u.description is None,
            u.wants@.len() == 0 && u.requires@.len() == 0 && u.binds_to@.len() == 0,
            u.before@.len() == 0 && u.after@.len() == 0,
    {
        Unit::new()
    }
}

impl Unit {
    /// A unit section with nothing set.
    pub fn new() -> (u: Unit)
        ensures
            u.description is None,
            u.wants@.len() == 0 && u.requires@.len() == 0 && u.binds_to@.len() == 0,
            u.before@.len() == 0 && u.after@.len() == 0,
    {
        Unit {
            description: None,
            wants: Vec::new(),
            requires: Vec::new(),
            binds_to: Vec::new(),
            before: Vec::new(),
            after: Vec::new(),
        }
    }

    /// Returns `true` if all fields are empty.
    pub fn is_empty(&self) -> (b: bool)
        ensures
            b == (self.description is None && self.wants@.len() == 0 && self.requires@.len() == 0
                && self.binds_to@.len() == 0 && self.before@.len() == 0 && self.after@.len() == 0),
    {
        self.description.is_none() && self.wants.len() == 0 && self.requires.len() == 0
            && self.binds_to.len() == 0 && self.before.len() == 0 && self.after.len() == 0
    }

    /// The `[Unit]` section as a value: the description, then each list that is not empty,
    /// joined by spaces.
    pub fn to_value(&self) -> (v: Value)
        ensures
            v matches Value::Struct { name, fields } && name@ == "Unit"@ && fields@.len() >= 1
                && fields@[0].key@ == "Description"@ && option_value(
                fields@[0].value,
                opt_seq(self.description),
            ) && listed(fields@, unit_lists(*self)),
    {
        let mut fields: Vec<Field> = Vec::new();
        push_field(&mut fields, "Description", optional_text(&self.description));
        let ghost lists = Seq::<(Seq<char>, Seq<Seq<char>>)>::empty();
        assert(listed(fields@, lists));
        let Ghost(lists) = push_list(&mut fields, "Wants", &self.wants, Ghost(lists));
        let Ghost(lists) = push_list(&mut fields, "Requires", &self.requires, Ghost(lists));
        let Ghost(lists) = push_list(&mut fields, "BindsTo", &self.binds_to, Ghost(lists));
        let Ghost(lists) = push_list(&mut fields, "Before", &self.before, Ghost(lists));
        let Ghost(lists) = push_list(&mut fields, "After", &self.after, Ghost(lists));
        assert(lists == unit_lists(*self));
        Value::Struct { name: "Unit".to_owned(), fields }
    }
}

/// The lists of a unit that are not empty, in order, each with its key.
pub open spec fn unit_lists(u: Unit) -> Seq<(Seq<char>, Seq<Seq<char>>)> {
    let a = Seq::<(Seq<char>, Seq<Seq<char>>)>::empty();
    let a = with_list(a, "Wants"@, u.wants.deep_view());
    let a = with_list(a, "Requires"@, u.requires.deep_view());
    let a = with_list(a, "BindsTo"@, u.binds_to.deep_view());
    let a = with_list(a, "Before"@, u.before.deep_view());
    with_list(a, "After"@, u.after.deep_view())
}

/// `lists` with the list `key` appended when it is not empty.
pub open spec fn with_list(
    lists: Seq<(Seq<char>, Seq<Seq<char>>)>,
    key: Seq<char>,
    list: Seq<Seq<char>>,
) -> Seq<(Seq<char>, Seq<Seq<char>>)> {
    if list.len() > 0 {
        lists.push((key, list))
    } else {
        lists
    }
}

/// After the first field, the fields are the lists, each under its key and joined by spaces.
pub open spec fn listed(fields: Seq<Field>, lists: Seq<(Seq<char>, Seq<Seq<char>>)>) -> bool {
    &&& fields.len() == lists.len() + 1
    &&& forall|k: int|
        0 <= k < lists.len() ==> (#[trigger] fields[k + 1]).key@ == lists[k].0 && joined_words(
            fields[k + 1].value,
            lists[k].1,
        )
}

/// Append the field `key` with the words of `list` joined by spaces, when it is not empty.
fn push_list(
    fields: &mut Vec<Field>,
    key: &str,
    list: &Vec<String>,
    Ghost(lists): Ghost<Seq<(Seq<char>, Seq<Seq<char>>)>>,
) -> (r: Ghost<Seq<(Seq<char>, Seq<Seq<char>>)>>)
    requires
        old(fields)@.len() >= 1,
        listed(old(fields)@, lists),
    ensures
        final(fields)@.len() >= 1,
        final(fields)@[0] == old(fields)@[0],
        r@ == with_list(lists, key@, list.deep_view()),
        listed(final(fields)@, r@),
{
    if list.len() > 0 {
        let ghost before = fields@;
        push_field(fields, key, Value::Str(escape_spaces_join(list)));
        assert(fields@[0] == before[0]);
        let ghost next = lists.push((key@, list.deep_view()));
        assert forall|k: int| 0 <= k < next.len() implies (#[trigger] fields@[k + 1]).key@
            == next[k].0 && joined_words(fields@[k + 1].value, next[k].1) by {
            if k < lists.len() {
                assert(fields@[k + 1] == before[k + 1]);
            }
        }
        Ghost(next)
    } else {
        Ghost(lists)
    }
}

/// When a compose service dependency counts as met.
#[derive(Debug, Clone, Copy, PartialEq, Eq, Structural)]
pub enum Condition {
    /// The dependency has started.
    ServiceStarted,
    /// The dependency is healthy.
    ServiceHealthy,
    /// The dependency has run to completion.
    ServiceCompletedSuccessfully,
}

/// A dependency of a compose service on another service.
#[derive(Debug, Clone, Copy, PartialEq, Eq, Structural)]
pub struct Dependency {
    /// When the dependency counts as met.
    pub condition: Condition,
    /// Restart this service when the dependency is updated.
    pub restart: bool,
    /// The dependency must start.
    pub required: bool,
}

/// Error returned when a compose service dependency has no counterpart in a unit.
#[derive(Debug, Clone, Copy, PartialEq, Eq, Structural)]
pub enum DependencyError {
    /// The condition `service_healthy`; `Notify=healthy` in the dependency's `[Container]`
    /// section comes close.
    ServiceHealthy,
    /// The condition `service_completed_successfully`; `Type=oneshot` in the dependency's
    /// `[Service]` section comes close.
    ServiceCompletedSuccessfully,
    /// Restarting for a dependency that is not required.
    RestartNotRequired,
}

/// What adding a dependency gives: an error for a condition other than "started" or for a
/// restart without a requirement; else which list the unit's name goes to: 0 for `Wants=`, 1
/// for `Requires=`, 2 for `BindsTo=`.
pub open spec fn dependency_list(d: Dependency) -> Result<int, DependencyError> {
    match d.condition {
        Condition::ServiceHealthy => Err(DependencyError::ServiceHealthy),
        Condition::ServiceCompletedSuccessfully => Err(DependencyError::ServiceCompletedSuccessfully),
        Condition::ServiceStarted => if d.restart && d.required {
            Ok(2)
        } else if d.restart {
            Err(DependencyError::RestartNotRequired)
        } else if d.required {
            Ok(1)
        } else {
            Ok(0)
        },
    }
}

/// `list` with `name` appended when `k` is the list chosen.
pub open spec fn added_to(list: Seq<Seq<char>>, k: int, chosen: int, name: Seq<char>) -> Seq<
    Seq<char>,
> {
    if k == chosen {
        list.push(name)
    } else {
        list
    }
}

impl Unit {
    /// Add a dependency on the compose service `name`: "NAME.service" goes to `Wants=`,
    /// `Requires=` or `BindsTo=` by whether the dependency is required and restarts this unit,
    /// and to `After=`.
    pub fn add_dependency(&mut self, name: &str, dependency: Dependency) -> (r: Result<
        (),
        DependencyError,
    >)
        ensures
            match dependency_list(dependency) {
                Err(e) => r == Err::<(), DependencyError>(e) && *final(self) == *old(self),
                Ok(k) => {
                    let unit = name@ + ".service"@;
                    &&& r is Ok
                    &&& final(self).description == old(self).description
                    &&& final(self).wants.deep_view() == added_to(old(self).wants.deep_view(), 0, k, unit)
                    &&& final(self).requires.deep_view() == added_to(old(self).requires.deep_view(), 1, k, unit)
                    &&& final(self).binds_to.deep_view() == added_to(old(self).binds_to.deep_view(), 2, k, unit)
                    &&& final(self).before.deep_view() == old(self).before.deep_view()
                    &&& final(self).after.deep_view() == old(self).after.deep_view().push(unit)
                },
            },
    {
        match dependency.condition {
            Condition::ServiceStarted => {},
            Condition::ServiceHealthy => {
                return Err(DependencyError::ServiceHealthy);
            },
            Condition::ServiceCompletedSuccessfully => {
                return Err(DependencyError::ServiceCompletedSuccessfully);
            },
        }
        if dependency.restart && !dependency.required {
            return Err(DependencyError::RestartNotRequired);
        }
        let mut unit = name.to_owned();
        push_str(&mut unit, ".service");
        if dependency.restart {
            push_string(&mut self.binds_to, unit.clone());
        } else if dependency.required {
            push_string(&mut self.requires, unit.clone());
        } else {
            push_string(&mut self.wants, unit.clone());
        }
        push_string(&mut self.after, unit);
        Ok(())
    }
}

/// The `[Install]` section of a systemd unit or Quadlet file.
#[derive(Debug, Clone, PartialEq, Eq)]
pub struct Install {
    /// Weak parent dependencies of the unit.
    pub wanted_by: Vec<String>,
    /// Stronger parent dependencies of the unit.
    pub required_by: Vec<String>,
}

impl Install {
    /// Returns `true` if all fields are empty.
    pub fn is_empty(&self) -> (b: bool)
        ensures
            b == (self.wanted_by@.len() == 0 && self.required_by@.len() == 0),
    {
        self.wanted_by.len() == 0 && self.required_by.len() == 0
    }

    /// The install section that `--install` gives: wanted by `default.target` when neither
    /// `--wanted-by` nor `--required-by` is given.
    pub fn from_cli(wanted_by: Vec<String>, required_by: Vec<String>) -> (i: Install)
        ensures
            i.wanted_by.deep_view() == (if wanted_by@.len() == 0 && required_by@.len() == 0 {
                seq!["default.target"@]
            } else {
                wanted_by.deep_view()
            }),
            i.required_by.deep_view() == required_by.deep_view(),
    {
        if wanted_by.len() == 0 && required_by.len() == 0 {
            let mut w: Vec<String> = Vec::new();
            push_string(&mut w, "default.target".to_owned());
            assert(w.deep_view() =~= seq!["default.target"@]);
            Install { wanted_by: w, required_by }
        } else {
            Install { wanted_by, required_by }
        }
    }

    /// The `[Install]` section as a value: each list of units, each quoted when it holds
    /// whitespace.
    pub fn to_value(&self) -> (v: Value)
        ensures
            v matches Value::Struct { name, fields } && name@ == "Install"@ && fields@.len() == 2
                && fields@[0].key@ == "WantedBy"@ && quoted_strings(
                fields@[0].value,
                self.wanted_by.deep_view(),
            ) && fields@[1].key@ == "RequiredBy"@ && quoted_strings(
                fields@[1].value,
                self.required_by.deep_view(),
            ),
    {
        let mut fields: Vec<Field> = Vec::new();
        push_field(&mut fields, "WantedBy", seq_quote_whitespace(&self.wanted_by));
        push_field(&mut fields, "RequiredBy", seq_quote_whitespace(&self.required_by));
        Value::Struct { name: "Install".to_owned(), fields }
    }
}

/// Global Quadlet options that apply to all resource types.
#[derive(Debug, Clone, PartialEq, Eq)]
pub struct Globals {
    /// Load the specified containers.conf modules.
    pub containers_conf_module: Vec<String>,
    /// Arguments passed directly after `podman`.
    pub global_args: Option<String>,
}

impl Globals {
    /// No global options.
    pub fn new() -> (g: Globals)
        ensures
            g.containers_conf_module@.len() == 0,
            g.global_args is None,
    {
        Globals { containers_conf_module: Vec::new(), global_args: None }
    }

    /// The `[Globals]` section as a value.
    pub fn to_value(&self) -> (v: Value)
        ensures
            v matches Value::Struct { name, fields } && name@ == "Globals"@ && fields@.len() == 2
                && fields@[0].key@ == "ContainersConfModule"@ && (fields@[0].value matches Value::SeqOf(
                es,
            ) && es@.len() == self.containers_conf_module@.len() && forall|i: int|
                0 <= i < es@.len() ==> (#[trigger] es@[i] matches Value::Str(s) && s@
                    == self.containers_conf_module@[i]@)) && fields@[1].key@ == "GlobalArgs"@
                && option_value(fields@[1].value, opt_seq(self.global_args)),
    {
        let mut fields: Vec<Field> = Vec::new();
        push_field(
            &mut fields,
            "ContainersConfModule",
            crate::quadlet_ser::serialize_display_seq(&self.containers_conf_module),
        );
        push_field(&mut fields, "GlobalArgs", optional_text(&self.global_args));
        Value::Struct { name: "Globals".to_owned(), fields }
    }
}

impl Default for Globals {
    fn default() -> (g: Globals)
        ensures
            g.containers_conf_module@.len() == 0,
            g.global_args is None,
    {
        Globals::new()
    }
}

/// Globals made to fit Podman `version`: their modules, their global arguments, and the
/// error, if any. Before 4.8 both are errors: the modules are taken out and the first is the
/// error; where there are none, the global arguments are taken out and are the error.
pub open spec fn globals_downgraded(g: Globals, version: PodmanVersion) -> (
    Seq<Seq<char>>,
    Option<Seq<char>>,
    Option<DowngradeErr>,
) {
    let modules = g.containers_conf_module.deep_view();
    let args = opt_seq(g.global_args);
    let v48 = PodmanVersion { major: 4, minor: 8 };
    if !older(version, v48) {
        (modules, args, None)
    } else if modules.len() > 0 {
        (
            Seq::empty(),
            args,
            Some(
                DowngradeErr::Option {
                    quadlet_option: "ContainersConfModule"@,
                    value: modules[0],
                    supported_version: v48,
                },
            ),
        )
    } else if args is Some {
        (
            modules,
            None,
            Some(
                DowngradeErr::Option {
                    quadlet_option: "GlobalArgs"@,
                    value: args->Some_0,
                    supported_version: v48,
                },
            ),
        )
    } else {
        (modules, args, None)
    }
}

impl Globals {
    /// Makes the globals fit Podman `version`; see [`globals_downgraded`].
    pub fn downgrade(&mut self, version: PodmanVersion) -> (r: Result<(), DowngradeError>)
        ensures
            !older(version, PodmanVersion { major: 4, minor: 8 }) ==> r is Ok && *final(self)
                == *old(self),
            ({
                let (modules, args, err) = globals_downgraded(*old(self), version);
                &&& final(self).containers_conf_module.deep_view() == modules
                &&& opt_seq(final(self).global_args) == args
                &&& match r {
                    Ok(()) => err is None,
                    Err(e) => err == Some(e@),
                }
            }),
    {
        if version.is_older_than(PodmanVersion::new(4, 8)) {
            let mut modules: Vec<String> = Vec::new();
            std::mem::swap(&mut modules, &mut self.containers_conf_module);
            assert(self.containers_conf_module.deep_view() =~= Seq::<Seq<char>>::empty());
            if modules.len() > 0 {
                let first = modules[0].clone();
                return Err(
                    DowngradeError::Option {
                        quadlet_option: "ContainersConfModule".to_owned(),
                        value: first,
                        supported_version: PodmanVersion::new(4, 8),
                    },
                );
            }
            if let Some(args) = self.global_args.take() {
                return Err(
                    DowngradeError::Option {
                        quadlet_option: "GlobalArgs".to_owned(),
                        value: args,
                        supported_version: PodmanVersion::new(4, 8),
                    },
                );
            }
        }
        Ok(())
    }
}

} // verus!
