//! Decides whether a raw filesystem event qualifies as a restart-worthy
//! change: the event kind must be a creation or a modification, and at least
//! one attached path must not be ignored and must carry an allowed extension.

use vstd::prelude::*;

use crate::config::WatchConfig;
use crate::path_match::{extension_of, should_ignore, spec_extension, spec_ignored};

verus! {

/// The kind of a filesystem event, reduced to what the filter reads.
/// Renames and metadata-only changes are their own kinds and never qualify.
#[derive(Clone, Copy, Debug, PartialEq, Eq, Structural)]
pub enum EventKind {
    Create,
    Modify,
    Remove,
    Rename,
    Metadata,
    Unknown,
}

/// A filesystem event: its kind and the paths it touched, in string form
/// with `/` as the separator.
pub struct FsEvent {
    pub kind: EventKind,
    pub paths: Vec<String>,
}

/// Only creations and modifications are eligible for a restart.
pub open spec fn spec_eligible(kind: EventKind) -> bool {
    kind is Create || kind is Modify
}

/// One path warrants a restart when it is not ignored and its extension is
/// in the allow-list. A path with no extension never qualifies.
pub open spec fn spec_path_qualifies(
    path: Seq<char>,
    extensions: Seq<Seq<char>>,
    patterns: Seq<Seq<char>>,
) -> bool {
    &&& !spec_ignored(path, patterns)
    &&& match spec_extension(path) {
        Some(e) => extensions.contains(e),
        None => false,
    }
}

/// An event qualifies when its kind is eligible and some attached path
/// qualifies; an event with zero qualifying paths does not.
pub open spec fn spec_qualifies(
    kind: EventKind,
    paths: Seq<Seq<char>>,
    extensions: Seq<Seq<char>>,
    patterns: Seq<Seq<char>>,
) -> bool {
    &&& spec_eligible(kind)
    &&& exists|m: int|
        0 <= m < paths.len() && spec_path_qualifies(#[trigger] paths[m], extensions, patterns)
}

/// What `should_restart_for_event` decides for an event under a watch
/// configuration.
pub open spec fn spec_event_qualifies(event: FsEvent, config: WatchConfig) -> bool {
    spec_qualifies(
        event.kind,
        event.paths.deep_view(),
        config.file_extensions.deep_view(),
        config.ignore_patterns.deep_view(),
    )
}

/// Whether some entry of `items` equals `s`.
fn contains_string(items: &Vec<String>, s: &String) -> (r: bool)
    ensures
        r == items.deep_view().contains(s@),
{
    let mut idx: usize = 0;
    while idx < items.len()
        invariant
            0 <= idx <= items@.len(),
            forall|m: int| 0 <= m < idx ==> #[trigger] items.deep_view()[m] != s@,
        decreases items@.len() - idx,
    {
        assert(items.deep_view()[idx as int] == items@[idx as int]@);
        if items[idx].eq(s) {
            return true;
        }
        idx += 1;
    }
    assert(forall|m: int| 0 <= m < items.deep_view().len() ==> items.deep_view()[m] != s@);
    false
}

/// Whether this event warrants a restart under the given configuration.
/// The paths are checked in order and the first qualifying one decides.
pub fn should_restart_for_event(event: &FsEvent, config: &WatchConfig) -> (r: bool)
    ensures
        r == spec_event_qualifies(*event, *config),
{
    match event.kind {
        EventKind::Create => (),
        EventKind::Modify => (),
        _ => {
            return false;
        },
    }
    let mut idx: usize = 0;
    while idx < event.paths.len()
        invariant
            0 <= idx <= event.paths@.len(),
            spec_eligible(event.kind),
            forall|m: int| 0 <= m < idx ==> !spec_path_qualifies(
                #[trigger] event.paths.deep_view()[m],
                config.file_extensions.deep_view(),
                config.ignore_patterns.deep_view(),
            ),
        decreases event.paths@.len() - idx,
    {
        let path = &event.paths[idx];
        assert(event.paths.deep_view()[idx as int] == event.paths@[idx as int]@);
        if !should_ignore(path.as_str(), &config.ignore_patterns) {
            if let Some(ext) = extension_of(path.as_str()) {
                if contains_string(&config.file_extensions, &ext) {
                    assert(spec_extension(path@) == Some(ext@));
                    assert(spec_path_qualifies(
                        event.paths.deep_view()[idx as int],
                        config.file_extensions.deep_view(),
                        config.ignore_patterns.deep_view(),
                    ));
                    return true;
                }
            }
        }
        idx += 1;
    }
    false
}

/// An event whose paths all match an ignore pattern never qualifies,
/// whatever the extensions: ignoring is checked before the allow-list.
pub proof fn lemma_ignored_event_never_qualifies(
    kind: EventKind,
    paths: Seq<Seq<char>>,
    extensions: Seq<Seq<char>>,
    patterns: Seq<Seq<char>>,
)
    requires
        forall|m: int| 0 <= m < paths.len() ==> spec_ignored(#[trigger] paths[m], patterns),
    ensures
        !spec_qualifies(kind, paths, extensions, patterns),
{
}

/// An event of a kind other than a creation or a modification never
/// qualifies, whatever its paths.
pub proof fn lemma_ineligible_kind_never_qualifies(
    kind: EventKind,
    paths: Seq<Seq<char>>,
    extensions: Seq<Seq<char>>,
    patterns: Seq<Seq<char>>,
)
    requires
        !(kind is Create || kind is Modify),
    ensures
        !spec_qualifies(kind, paths, extensions, patterns),
{
}

} // verus!
