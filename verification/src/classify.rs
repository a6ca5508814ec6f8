//! The path classifier: which of the paths that a raw change event names are
//! worth reporting.
//!
//! A path is dropped when it is a directory, when it has no string form, or
//! when it names a probe file. A probe file is any path whose string form
//! begins with the exclusion root followed by `.probe-`.

use notify::Error;
use vstd::prelude::*;
use vstd::string::*;

verus! {

/// `notify::Error`, the backend's error. A value of it is carried through
/// unread.
#[verifier::external_type_specification]
#[verifier::external_body]
pub struct ExNotifyError(Error);

/// One path that a raw event names, as it was found when the event arrived.
#[derive(Debug, PartialEq, Eq)]
pub struct RawPath {
    /// The path's string form; `None` where it has none.
    pub text: Option<String>,
    /// Whether the path resolved to a directory.
    pub is_dir: bool,
}

/// A raw change event: the paths it affects, in the order the source gave them.
#[derive(Debug, PartialEq, Eq)]
pub struct RawEvent {
    pub affected_paths: Vec<RawPath>,
}

/// What a contract reads of a [`RawPath`].
pub struct PathView {
    pub text: Option<Seq<char>>,
    pub is_dir: bool,
}

impl View for RawPath {
    type V = PathView;

    open spec fn view(&self) -> PathView {
        PathView {
            text: match self.text {
                Some(text) => Some(text@),
                None => None,
            },
            is_dir: self.is_dir,
        }
    }
}

impl View for RawEvent {
    type V = Seq<PathView>;

    open spec fn view(&self) -> Seq<PathView> {
        self.affected_paths@.map_values(|path: RawPath| path@)
    }
}

/// The characters of each string of a sequence.
pub open spec fn texts(strings: Seq<String>) -> Seq<Seq<char>> {
    strings.map_values(|s: String| s@)
}

/// The prefix that marks a probe file under `exclusion_root`.
pub open spec fn probe_prefix(exclusion_root: Seq<char>) -> Seq<char> {
    exclusion_root + ".probe-"@
}

/// Whether `path` names a probe file under `exclusion_root`.
pub open spec fn is_probe(path: Seq<char>, exclusion_root: Seq<char>) -> bool {
    probe_prefix(exclusion_root).is_prefix_of(path)
}

/// Whether a path is kept: it is no directory, has a string form, and is no
/// probe file.
pub open spec fn is_relevant(path: PathView, exclusion_root: Seq<char>) -> bool {
    &&& !path.is_dir
    &&& path.text is Some
    &&& !is_probe(path.text->0, exclusion_root)
}

/// The string forms of the paths that are kept, in their order in `paths`.
pub open spec fn classify_spec(paths: Seq<PathView>, exclusion_root: Seq<char>) -> Seq<Seq<char>>
    decreases paths.len(),
{
    if paths.len() == 0 {
        Seq::empty()
    } else {
        let earlier = classify_spec(paths.drop_last(), exclusion_root);
        if is_relevant(paths.last(), exclusion_root) {
            earlier.push(paths.last().text->0)
        } else {
            earlier
        }
    }
}

/// Whether `text` is the string form of a path of `paths` that is no
/// directory and no probe file.
pub open spec fn is_relevant_path_of(
    text: Seq<char>,
    paths: Seq<PathView>,
    exclusion_root: Seq<char>,
) -> bool {
    exists|i: int|
        0 <= i < paths.len() && is_relevant(#[trigger] paths[i], exclusion_root) && paths[i].text
            == Some(text)
}

/// Every path that the classifier keeps is the string form of a path of the
/// event that is no directory and no probe file.
pub proof fn lemma_classified_are_relevant(paths: Seq<PathView>, exclusion_root: Seq<char>)
    ensures
        forall|j: int|
            0 <= j < classify_spec(paths, exclusion_root).len() ==> is_relevant_path_of(
                #[trigger] classify_spec(paths, exclusion_root)[j],
                paths,
                exclusion_root,
            ),
    decreases paths.len(),
{
    if paths.len() > 0 {
        let earlier = paths.drop_last();
        lemma_classified_are_relevant(earlier, exclusion_root);
        let kept = classify_spec(paths, exclusion_root);
        assert forall|j: int| 0 <= j < kept.len() implies is_relevant_path_of(
            #[trigger] kept[j],
            paths,
            exclusion_root,
        ) by {
            if j < classify_spec(earlier, exclusion_root).len() {
                let text = classify_spec(earlier, exclusion_root)[j];
                let i = choose|i: int|
                    0 <= i < earlier.len() && is_relevant(#[trigger] earlier[i], exclusion_root)
                        && earlier[i].text == Some(text);
            } else {
            }
        }
    }
}

/// Every path of the event that is no directory and no probe file is among
/// the paths that the classifier keeps.
pub proof fn lemma_relevant_are_classified(paths: Seq<PathView>, exclusion_root: Seq<char>)
    ensures
        forall|i: int|
            0 <= i < paths.len() && is_relevant(#[trigger] paths[i], exclusion_root)
                ==> classify_spec(paths, exclusion_root).contains(paths[i].text->0),
    decreases paths.len(),
{
    if paths.len() > 0 {
        let earlier = paths.drop_last();
        lemma_relevant_are_classified(earlier, exclusion_root);
        let kept = classify_spec(paths, exclusion_root);
        let before = classify_spec(earlier, exclusion_root);
        assert forall|i: int|
            0 <= i < paths.len() && is_relevant(
                #[trigger] paths[i],
                exclusion_root,
            ) implies kept.contains(paths[i].text->0) by {
            if i < earlier.len() {
                let j = choose|j: int| 0 <= j < before.len() && before[j] == earlier[i].text->0;
                assert(kept[j] == before[j]);
            } else {
                assert(kept[kept.len() - 1] == paths[i].text->0);
            }
        }
    }
}

/// An event of which every path is a directory, a probe file or without a
/// string form leaves nothing to report.
pub proof fn lemma_irrelevant_event_is_dropped(paths: Seq<PathView>, exclusion_root: Seq<char>)
    requires
        forall|i: int| 0 <= i < paths.len() ==> !is_relevant(#[trigger] paths[i], exclusion_root),
    ensures
        classify_spec(paths, exclusion_root) == Seq::<Seq<char>>::empty(),
    decreases paths.len(),
{
    if paths.len() > 0 {
        let earlier = paths.drop_last();
        assert forall|i: int| 0 <= i < earlier.len() implies !is_relevant(
            #[trigger] earlier[i],
            exclusion_root,
        ) by {
        }
        lemma_irrelevant_event_is_dropped(earlier, exclusion_root);
    }
}

/// `str::starts_with` with a string as the pattern: whether `text` begins with
/// `prefix`.
#[verifier::external_body]
fn starts_with(text: &str, prefix: &str) -> (found: bool)
    ensures
        found == prefix@.is_prefix_of(text@),
{
    text.starts_with(prefix)
}

/// Whether `path` names a probe file under `exclusion_root`.
pub fn is_probe_path(path: &str, exclusion_root: &str) -> (probe: bool)
    ensures
        probe == is_probe(path@, exclusion_root@),
{
    let mut prefix = String::from_str(exclusion_root);
    prefix.append(".probe-");
    starts_with(path, prefix.as_str())
}

/// The paths of `event` that are worth reporting: every path that is no
/// directory, has a string form and is no probe file under `exclusion_root`,
/// in the order of the event. The result may be empty.
pub fn classify(event: &RawEvent, exclusion_root: &str) -> (kept: Vec<String>)
    ensures
        texts(kept@) == classify_spec(event@, exclusion_root@),
{
    let mut kept: Vec<String> = Vec::new();
    let mut i: usize = 0;
    while i < event.affected_paths.len()
        invariant
            0 <= i <= event.affected_paths.len(),
            texts(kept@) == classify_spec(event@.take(i as int), exclusion_root@),
        decreases event.affected_paths.len() - i,
    {
        let path = &event.affected_paths[i];
        proof {
            let next = event@.take(i + 1);
            assert(next.drop_last() =~= event@.take(i as int));
        }
        if !path.is_dir {
            match &path.text {
                Some(text) => {
                    if !is_probe_path(text.as_str(), exclusion_root) {
                        kept.push(text.clone());
                    }
                },
                None => {},
            }
        }
        i += 1;
    }
    assert(event@.take(i as int) =~= event@);
    kept
}

/// The relevant paths of a received event, if there are any: `None` for a
/// receive error, and for an event of which no path is kept.
pub fn get_paths_from_event_result(
    event_result: &Result<RawEvent, Error>,
    git_dir_path: &str,
) -> (paths: Option<Vec<String>>)
    ensures
        match *event_result {
            Ok(event) => {
                let kept = classify_spec(event@, git_dir_path@);
                if kept.len() == 0 {
                    paths is None
                } else {
                    paths is Some && texts(paths->0@) == kept
                }
            },
            Err(_) => paths is None,
        },
{
    match event_result {
        Ok(event) => {
            let kept = classify(event, git_dir_path);
            if kept.len() == 0 {
                None
            } else {
                Some(kept)
            }
        },
        Err(_) => None,
    }
}

} // verus!
