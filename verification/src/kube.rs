//! The `AutoUpdate=` option of a Quadlet `.kube` file, taken from the `io.containers.autoupdate`
//! annotations of a Kubernetes YAML file.

use vstd::prelude::*;

use crate::auto_update::{AutoUpdate as Policy, label_key_spec, policy_name, policy_of};
use crate::text::{has_char, lemma_split_once_concat, push_char, push_str, push_string, split_once, str_split_once, str_strip_prefix, strip_prefix};

verus! {

/// A value of the `AutoUpdate=` Quadlet option of a `.kube` file.
#[derive(Debug, Clone, PartialEq, Eq)]
pub enum AutoUpdate {
    /// The policy of all containers.
    All(Policy),
    /// The policy of one container.
    Container { container: String, auto_update: Policy },
}

/// [`AutoUpdate`] with its container name as a character sequence.
pub ghost enum AutoUpdateView {
    All(Policy),
    Container(Seq<char>, Policy),
}

impl View for AutoUpdate {
    type V = AutoUpdateView;

    open spec fn view(&self) -> AutoUpdateView {
        match self {
            AutoUpdate::All(p) => AutoUpdateView::All(*p),
            AutoUpdate::Container { container, auto_update } => AutoUpdateView::Container(
                container@,
                *auto_update,
            ),
        }
    }
}

/// The auto-update that an annotation sets: "io.containers.autoupdate=POLICY" for all containers,
/// "io.containers.autoupdate/CONTAINER=POLICY" for one; `None` for any other annotation.
pub open spec fn annotation_auto_update(a: Seq<char>) -> Option<AutoUpdateView> {
    match strip_prefix(a, label_key_spec()) {
        None => None,
        Some(rest) => match split_once(rest, '=') {
            None => None,
            Some((container, value)) => match policy_of(value) {
                None => None,
                Some(p) => match strip_prefix(container, seq!['/']) {
                    Some(c) => Some(AutoUpdateView::Container(c, p)),
                    None => if container.len() == 0 {
                        Some(AutoUpdateView::All(p))
                    } else {
                        None
                    },
                },
            },
        },
    }
}

/// The auto-updates that the annotations `as_` set, in order.
pub open spec fn extracted(as_: Seq<Seq<char>>) -> Seq<AutoUpdateView>
    decreases as_.len(),
{
    if as_.len() == 0 {
        Seq::<AutoUpdateView>::empty()
    } else {
        match annotation_auto_update(as_.last()) {
            Some(u) => extracted(as_.drop_last()).push(u),
            None => extracted(as_.drop_last()),
        }
    }
}

/// The annotations of `as_` that set no auto-update, in order.
pub open spec fn kept(as_: Seq<Seq<char>>) -> Seq<Seq<char>>
    decreases as_.len(),
{
    if as_.len() == 0 {
        Seq::<Seq<char>>::empty()
    } else {
        match annotation_auto_update(as_.last()) {
            Some(_) => kept(as_.drop_last()),
            None => kept(as_.drop_last()).push(as_.last()),
        }
    }
}

/// Extracting auto-updates keeps, in order, exactly the annotations that set none, and gives,
/// in order, the auto-updates that the others set.
pub proof fn extraction_filters(as_: Seq<Seq<char>>)
    ensures
        kept(as_) == as_.filter(|a: Seq<char>| annotation_auto_update(a) is None),
        extracted(as_) == as_.filter_map(|a: Seq<char>| annotation_auto_update(a)),
    decreases as_.len(),
{
    reveal(Seq::filter);
    if as_.len() > 0 {
        extraction_filters(as_.drop_last());
        let rest = as_.drop_last();
        match annotation_auto_update(as_.last()) {
            Some(u) => {
                assert(extracted(rest).push(u) =~= rest.filter_map(
                    |a: Seq<char>| annotation_auto_update(a),
                ) + seq![u]);
            },
            None => {},
        }
    }
}

/// The annotation that sets an auto-update.
pub open spec fn annotation_text(u: AutoUpdateView) -> Seq<char> {
    match u {
        AutoUpdateView::All(p) => label_key_spec() + seq!['='] + policy_name(p),
        AutoUpdateView::Container(c, p) => label_key_spec() + seq!['/'] + c + seq!['='] + policy_name(
            p,
        ),
    }
}

/// The value of the `AutoUpdate=` option: "POLICY" or "CONTAINER/POLICY".
pub open spec fn option_text(u: AutoUpdateView) -> Seq<char> {
    match u {
        AutoUpdateView::All(p) => policy_name(p),
        AutoUpdateView::Container(c, p) => c + seq!['/'] + policy_name(p),
    }
}

/// The auto-update that one annotation sets.
fn parse_annotation(a: &str) -> (r: Option<AutoUpdate>)
    ensures
        match r {
            Some(u) => annotation_auto_update(a@) == Some(u@),
            None => annotation_auto_update(a@) is None,
        },
{
    let rest = str_strip_prefix(a, Policy::label_key())?;
    let (container, value) = str_split_once(rest.as_str(), '=')?;
    let p = Policy::parse(value.as_str())?;
    proof {
        reveal_strlit("/");
        assert("/"@ =~= seq!['/']);
    }
    match str_strip_prefix(container.as_str(), "/") {
        Some(c) => Some(AutoUpdate::Container { container: c, auto_update: p }),
        None => {
            if container.as_str().is_empty() {
                Some(AutoUpdate::All(p))
            } else {
                None
            }
        },
    }
}

impl AutoUpdate {
    /// Takes the annotations that set an auto-update out of `annotations` and returns what they
    /// set, in order; the other annotations stay, in order.
    pub fn extract_from_annotations(annotations: &mut Vec<String>) -> (r: Vec<AutoUpdate>)
        ensures
            r@.map_values(|u: AutoUpdate| u@) == extracted(old(annotations).deep_view()),
            final(annotations).deep_view() == kept(old(annotations).deep_view()),
            final(annotations).deep_view() == old(annotations).deep_view().filter(
                |a: Seq<char>| annotation_auto_update(a) is None,
            ),
            r@.map_values(|u: AutoUpdate| u@) == old(annotations).deep_view().filter_map(
                |a: Seq<char>| annotation_auto_update(a),
            ),
    {
        let ghost all = annotations.deep_view();
        let mut auto_updates: Vec<AutoUpdate> = Vec::new();
        let mut rest: Vec<String> = Vec::new();
        let mut i: usize = 0;
        while i < annotations.len()
            invariant
                i <= annotations@.len(),
                all == annotations.deep_view(),
                auto_updates@.map_values(|u: AutoUpdate| u@) == extracted(all.subrange(0, i as int)),
                rest.deep_view() == kept(all.subrange(0, i as int)),
            decreases annotations@.len() - i,
        {
            let ghost pre = all.subrange(0, i + 1);
            assert(pre.drop_last() =~= all.subrange(0, i as int));
            assert(pre.last() == annotations[i as int]@);
            let ghost before = auto_updates@;
            match parse_annotation(annotations[i].as_str()) {
                Some(u) => {
                    auto_updates.push(u);
                    assert(auto_updates@.map_values(|u: AutoUpdate| u@) =~= before.map_values(
                        |u: AutoUpdate| u@,
                    ).push(u@));
                },
                None => {
                    push_string(&mut rest, annotations[i].clone());
                },
            }
            i = i + 1;
        }
        assert(all.subrange(0, annotations@.len() as int) =~= all);
        proof {
            extraction_filters(all);
        }
        *annotations = rest;
        auto_updates
    }

    /// The annotation that sets this auto-update.
    pub fn to_annotation(&self) -> (s: String)
        ensures
            s@ == annotation_text(self@),
    {
        let mut s = String::new();
        push_str(&mut s, Policy::label_key());
        match self {
            AutoUpdate::All(p) => {
                push_char(&mut s, '=');
                push_str(&mut s, p.as_str());
            },
            AutoUpdate::Container { container, auto_update } => {
                push_char(&mut s, '/');
                push_str(&mut s, container.as_str());
                push_char(&mut s, '=');
                push_str(&mut s, auto_update.as_str());
            },
        }
        assert(s@ =~= annotation_text(self@));
        s
    }

    /// The value of the `AutoUpdate=` option: "POLICY" or "CONTAINER/POLICY".
    pub fn to_string(&self) -> (s: String)
        ensures
            s@ == option_text(self@),
    {
        match self {
            AutoUpdate::All(p) => p.as_str().to_owned(),
            AutoUpdate::Container { container, auto_update } => {
                let mut s = String::new();
                push_str(&mut s, container.as_str());
                push_char(&mut s, '/');
                push_str(&mut s, auto_update.as_str());
                assert(s@ =~= option_text(self@));
                s
            },
        }
    }
}

/// The annotation of an auto-update sets that auto-update, when the container name holds no
/// '='.
pub proof fn annotation_round_trip(u: AutoUpdateView)
    requires
        u matches AutoUpdateView::Container(c, _) ==> !has_char(c, '='),
    ensures
        annotation_auto_update(annotation_text(u)) == Some(u),
{
    let key = label_key_spec();
    match u {
        AutoUpdateView::All(p) => {
            let rest = seq!['='] + policy_name(p);
            assert(annotation_text(u) =~= key + rest);
            assert(key.is_prefix_of(key + rest));
            assert((key + rest).subrange(key.len() as int, (key + rest).len() as int) =~= rest);
            lemma_split_once_concat(Seq::<char>::empty(), policy_name(p), '=');
            assert(Seq::<char>::empty() + seq!['='] + policy_name(p) =~= rest);
            crate::auto_update::policy_round_trip(p);
            assert(!seq!['/'].is_prefix_of(Seq::<char>::empty()));
        },
        AutoUpdateView::Container(c, p) => {
            let container = seq!['/'] + c;
            let rest = container + seq!['='] + policy_name(p);
            assert(annotation_text(u) =~= key + rest);
            assert(key.is_prefix_of(key + rest));
            assert((key + rest).subrange(key.len() as int, (key + rest).len() as int) =~= rest);
            assert(!has_char(container, '=')) by {
                if has_char(container, '=') {
                    let j = choose|j: int| 0 <= j < container.len() && container[j] == '=';
                    assert(c[j - 1] == '=');
                }
            }
            lemma_split_once_concat(container, policy_name(p), '=');
            crate::auto_update::policy_round_trip(p);
            assert(seq!['/'].is_prefix_of(container));
            assert(container.subrange(1, container.len() as int) =~= c);
        },
    }
}

/// The serialization of a URL that the `url` crate parses from `s`, if it parses one.
pub uninterp spec fn parsed_url(s: Seq<char>) -> Option<Seq<char>>;

/// Parses a URL with `url::Url::parse` and gives back its serialization (`Url::as_str`); what
/// comes back is named [`parsed_url`], as URL parsing and normalization are left to that crate.
#[verifier::external_body]
fn parse_url(s: &str) -> (r: Option<String>)
    ensures
        match r {
            Some(u) => parsed_url(s@) == Some(u@),
            None => parsed_url(s@) is None,
        },
{
    match url::Url::parse(s) {
        Ok(u) => Some(u.as_str().to_owned()),
        Err(_) => None,
    }
}

/// The Kubernetes YAML file of a `.kube` Quadlet file: a URL, or a path.
#[derive(Debug, Clone, PartialEq, Eq)]
pub enum YamlFile {
    /// A URL, as its serialization.
    Url(String),
    /// A path.
    Path(String),
}

/// [`YamlFile`] with its text as a character sequence.
pub ghost enum YamlFileView {
    Url(Seq<char>),
    Path(Seq<char>),
}

impl View for YamlFile {
    type V = YamlFileView;

    open spec fn view(&self) -> YamlFileView {
        match self {
            YamlFile::Url(u) => YamlFileView::Url(u@),
            YamlFile::Path(p) => YamlFileView::Path(p@),
        }
    }
}

/// The YAML file that `s` names: a URL where it parses as one, else a path.
pub open spec fn yaml_file_of(s: Seq<char>) -> YamlFileView {
    match parsed_url(s) {
        Some(u) => YamlFileView::Url(u),
        None => YamlFileView::Path(s),
    }
}

/// The YAML file that `s` names: a URL where it parses as one, else a path.
pub fn parse_yaml_file(s: &str) -> (r: YamlFile)
    ensures
        r@ == yaml_file_of(s@),
{
    match parse_url(s) {
        Some(u) => YamlFile::Url(u),
        None => YamlFile::Path(s.to_owned()),
    }
}

impl YamlFile {
    /// The text of the file: the URL's serialization, or the path.
    pub fn to_string(&self) -> (r: String)
        ensures
            r@ == match self@ {
                YamlFileView::Url(u) => u,
                YamlFileView::Path(p) => p,
            },
    {
        match self {
            YamlFile::Url(u) => u.clone(),
            YamlFile::Path(p) => p.clone(),
        }
    }
}

/// The segments of the path of the URL that the `url` crate parses from `u`, if it parses one
/// whose path has segments.
pub uninterp spec fn url_path_segments_of(u: Seq<char>) -> Option<Seq<Seq<char>>>;

/// Parses a URL with `url::Url::parse` and gives back its `path_segments`, if it parses and has
/// them; what comes back is named [`url_path_segments_of`], as URL parsing is left to that
/// crate.
#[verifier::external_body]
fn url_path_segments(u: &str) -> (r: Option<Vec<String>>)
    ensures
        match r {
            Some(segs) => url_path_segments_of(u@) == Some(segs.deep_view()),
            None => url_path_segments_of(u@) is None,
        },
{
    match url::Url::parse(u) {
        Ok(url) => url.path_segments().map(|segments| segments.map(|seg| seg.to_owned()).collect()),
        Err(_) => None,
    }
}

/// The stem of the path `p` (its file name without the extension) that
/// `std::path::Path::file_stem` gives, where there is one and it is valid Unicode.
pub uninterp spec fn file_stem_of(p: Seq<char>) -> Option<Seq<char>>;

/// The file stem of a path, by `std::path::Path::file_stem`; what comes back is named
/// [`file_stem_of`], as the splitting of paths into components is left to `std`.
#[verifier::external_body]
fn path_file_stem(p: &str) -> (r: Option<String>)
    ensures
        match r {
            Some(stem) => file_stem_of(p@) == Some(stem@),
            None => file_stem_of(p@) is None,
        },
{
    std::path::Path::new(p).file_stem().and_then(|stem| stem.to_str()).map(|stem| stem.to_owned())
}

/// The text before the first '.', or all of it.
pub open spec fn before_dot(s: Seq<char>) -> Seq<char> {
    match split_once(s, '.') {
        Some((a, _)) => a,
        None => s,
    }
}

/// The name of a YAML file: for a URL, its last path segment where that is not empty, up to
/// the first '.'; for a path, its file stem.
pub open spec fn yaml_name(y: YamlFileView) -> Option<Seq<char>> {
    match y {
        YamlFileView::Url(u) => match url_path_segments_of(u) {
            Some(segs) => if segs.len() > 0 && segs.last().len() > 0 {
                Some(before_dot(segs.last()))
            } else {
                None
            },
            None => None,
        },
        YamlFileView::Path(p) => file_stem_of(p),
    }
}

impl YamlFile {
    /// The name of the YAML file, without its extension; see [`yaml_name`].
    pub fn name(&self) -> (r: Option<String>)
        ensures
            match r {
                Some(n) => yaml_name(self@) == Some(n@),
                None => yaml_name(self@) is None,
            },
    {
        match self {
            YamlFile::Url(u) => match url_path_segments(u.as_str()) {
                Some(segs) => {
                    if segs.len() == 0 || segs[segs.len() - 1].as_str().unicode_len() == 0 {
                        None
                    } else {
                        let seg = segs[segs.len() - 1].clone();
                        match str_split_once(seg.as_str(), '.') {
                            Some((a, _)) => Some(a),
                            None => Some(seg),
                        }
                    }
                },
                None => None,
            },
            YamlFile::Path(p) => path_file_stem(p.as_str()),
        }
    }
}

} // verus!
