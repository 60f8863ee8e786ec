//! The auto-update policy of a container, as the `io.containers.autoupdate` label names it.

use vstd::prelude::*;

use crate::text::{str_eq, str_strip_prefix, strip_prefix};

verus! {

/// Auto-update policy for `podman auto-update`.
#[derive(Debug, Clone, Copy, PartialEq, Eq, Structural)]
pub enum AutoUpdate {
    /// Pull the image from the registry when it changed there.
    Registry,
    /// Restart the container when the local image changed.
    Local,
}

/// The name of an auto-update policy.
pub open spec fn policy_name(a: AutoUpdate) -> Seq<char> {
    match a {
        AutoUpdate::Registry => "registry"@,
        AutoUpdate::Local => "local"@,
    }
}

/// The auto-update policy named `s`.
pub open spec fn policy_of(s: Seq<char>) -> Option<AutoUpdate> {
    if s == "registry"@ {
        Some(AutoUpdate::Registry)
    } else if s == "local"@ {
        Some(AutoUpdate::Local)
    } else {
        None
    }
}

/// The key of the label and annotation that set the auto-update policy.
pub open spec fn label_key_spec() -> Seq<char> {
    "io.containers.autoupdate"@
}

impl AutoUpdate {
    /// The key of the label and annotation that set the auto-update policy.
    pub fn label_key() -> (s: &'static str)
        ensures
            s@ == label_key_spec(),
    {
        "io.containers.autoupdate"
    }

    /// Parse an auto-update policy from its name.
    pub fn parse(s: &str) -> (r: Option<AutoUpdate>)
        ensures
            r == policy_of(s@),
    {
        if str_eq(s, "registry") {
            Some(AutoUpdate::Registry)
        } else if str_eq(s, "local") {
            Some(AutoUpdate::Local)
        } else {
            None
        }
    }

    /// The name of this policy.
    pub fn as_str(&self) -> (s: &'static str)
        ensures
            s@ == policy_name(*self),
    {
        match self {
            AutoUpdate::Registry => "registry",
            AutoUpdate::Local => "local",
        }
    }
}

/// A policy's name parses back to the policy.
pub proof fn policy_round_trip(a: AutoUpdate)
    ensures
        policy_of(policy_name(a)) == Some(a),
{
    reveal_strlit("registry");
    reveal_strlit("local");
    assert("local"@.len() != "registry"@.len());
}

/// The policy that one label sets: "io.containers.autoupdate=" followed by a valid policy name.
pub open spec fn label_policy_of(label: Seq<char>) -> Option<AutoUpdate> {
    match strip_prefix(label, label_key_spec()) {
        Some(rest) => match strip_prefix(rest, seq!['=']) {
            Some(name) => policy_of(name),
            None => None,
        },
        None => None,
    }
}

/// The policy that the last label setting one sets, if any label sets one.
pub open spec fn label_policy(labels: Seq<Seq<char>>) -> Option<AutoUpdate>
    decreases labels.len(),
{
    if labels.len() == 0 {
        None
    } else {
        match label_policy_of(labels.last()) {
            Some(p) => Some(p),
            None => label_policy(labels.drop_last()),
        }
    }
}

/// The labels that set no policy, in order.
pub open spec fn labels_without_policy(labels: Seq<Seq<char>>) -> Seq<Seq<char>>
    decreases labels.len(),
{
    if labels.len() == 0 {
        labels
    } else {
        let rest = labels_without_policy(labels.drop_last());
        if label_policy_of(labels.last()) is Some {
            rest
        } else {
            rest.push(labels.last())
        }
    }
}

/// Extracting the policy keeps, in order, exactly the labels that set none, and gives the
/// policy of the last label that sets one.
pub proof fn policy_extraction_filters(labels: Seq<Seq<char>>)
    ensures
        labels_without_policy(labels) == labels.filter(|l: Seq<char>| label_policy_of(l) is None),
        ({
            let ps = labels.filter_map(|l: Seq<char>| label_policy_of(l));
            label_policy(labels) == if ps.len() > 0 {
                Some(ps.last())
            } else {
                None
            }
        }),
    decreases labels.len(),
{
    reveal(Seq::filter);
    if labels.len() > 0 {
        policy_extraction_filters(labels.drop_last());
        let rest = labels.drop_last();
        match label_policy_of(labels.last()) {
            Some(p) => {
                let ps = rest.filter_map(|l: Seq<char>| label_policy_of(l)) + seq![p];
                assert(ps.last() == p);
            },
            None => {},
        }
    }
}

/// The policy that one label sets.
fn label_policy_exec(label: &str) -> (r: Option<AutoUpdate>)
    ensures
        r == label_policy_of(label@),
{
    let rest = str_strip_prefix(label, AutoUpdate::label_key())?;
    let name = str_strip_prefix(rest.as_str(), "=");
    proof {
        reveal_strlit("=");
        assert("="@ =~= seq!['=']);
    }
    let name = name?;
    AutoUpdate::parse(name.as_str())
}

impl AutoUpdate {
    /// Takes the labels that set an auto-update policy, "io.containers.autoupdate=" and a valid
    /// policy name, out of `labels` and returns the policy of the last of them; the other
    /// labels stay, in order, those with an invalid policy among them.
    pub fn extract_from_labels(labels: &mut Vec<String>) -> (r: Option<AutoUpdate>)
        ensures
            r == label_policy(old(labels).deep_view()),
            final(labels).deep_view() == labels_without_policy(old(labels).deep_view()),
            final(labels).deep_view() == old(labels).deep_view().filter(
                |l: Seq<char>| label_policy_of(l) is None,
            ),
            ({
                let ps = old(labels).deep_view().filter_map(|l: Seq<char>| label_policy_of(l));
                r == if ps.len() > 0 {
                    Some(ps.last())
                } else {
                    None
                }
            }),
    {
        proof {
            policy_extraction_filters(labels.deep_view());
        }
        let ghost all = labels.deep_view();
        let mut kept: Vec<String> = Vec::new();
        let mut policy: Option<AutoUpdate> = None;
        let mut i: usize = 0;
        assert(all.subrange(0, 0) =~= Seq::<Seq<char>>::empty());
        assert(kept.deep_view() =~= Seq::<Seq<char>>::empty());
        while i < labels.len()
            invariant
                i <= labels@.len(),
                all == labels.deep_view(),
                policy == label_policy(all.subrange(0, i as int)),
                kept.deep_view() == labels_without_policy(all.subrange(0, i as int)),
            decreases labels@.len() - i,
        {
            let ghost pre = all.subrange(0, i + 1);
            assert(pre.drop_last() =~= all.subrange(0, i as int));
            assert(pre.last() == labels@[i as int]@);
            match label_policy_exec(labels[i].as_str()) {
                Some(p) => {
                    policy = Some(p);
                },
                None => {
                    let ghost before = kept.deep_view();
                    kept.push(labels[i].clone());
                    assert(kept.deep_view() =~= before.push(labels@[i as int]@));
                },
            }
            i = i + 1;
        }
        assert(all.subrange(0, labels@.len() as int) =~= all);
        *labels = kept;
        policy
    }
}

} // verus!
