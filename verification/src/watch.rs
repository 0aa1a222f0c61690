//! The decisions of watch mode: which file-system events call for a new
//! run, and how often runs may follow each other.

use crate::text::same_text;
use vstd::prelude::*;

verus! {

/// The least time between two runs in watch mode, in nanoseconds.
pub const DEBOUNCE_NANOS: u128 = 1_000_000_000;

/// A file with this extension is watched: Rust sources and TOML files.
pub open spec fn watched_extension(ext: Seq<char>) -> bool {
    ext == "rs"@ || ext == "toml"@
}

/// An event calls for a new run: it modified or created something, and one
/// of its paths has a watched extension.  `extensions` holds the extension
/// of each path of the event, `None` for a path without one (or whose
/// extension is not valid UTF-8).
pub open spec fn relevant_change(modify_or_create: bool, extensions: Seq<Option<String>>) -> bool {
    modify_or_create && exists|i: int| 0 <= i < extensions.len() && #[trigger] watched(extensions[i])
}

/// A path's extension is present and watched.
pub open spec fn watched(ext: Option<String>) -> bool {
    match ext {
        Some(e) => watched_extension(e@),
        None => false,
    }
}

/// Whether an event with these properties calls for a new run.
pub fn is_relevant_change(modify_or_create: bool, extensions: &Vec<Option<String>>) -> (r: bool)
    ensures
        r == relevant_change(modify_or_create, extensions@),
{
    if !modify_or_create {
        return false;
    }
    let mut i: usize = 0;
    while i < extensions.len()
        invariant
            modify_or_create,
            i <= extensions@.len(),
            forall|k: int|
                0 <= k < i ==> !#[trigger] watched(extensions@[k]),
        decreases extensions@.len() - i,
    {
        match &extensions[i] {
            Some(e) => {
                if same_text(e.as_str(), "rs") || same_text(e.as_str(), "toml") {
                    assert(watched(extensions@[i as int]));
                    return true;
                }
            },
            None => {},
        }
        i = i + 1;
    }
    false
}

/// Whether enough time has passed since the last run, `since_last_nanos`
/// nanoseconds ago, to start another: strictly more than one second.
pub fn should_rerun(since_last_nanos: u128) -> (r: bool)
    ensures
        r == (since_last_nanos > DEBOUNCE_NANOS),
{
    since_last_nanos > DEBOUNCE_NANOS
}

/// Watch mode runs the checks again on an event: it is a relevant change,
/// and more than one second has passed since the last run ended,
/// `since_last_nanos` nanoseconds ago.
pub open spec fn rerun_after(
    modify_or_create: bool,
    extensions: Seq<Option<String>>,
    since_last_nanos: u128,
) -> bool {
    relevant_change(modify_or_create, extensions) && since_last_nanos > DEBOUNCE_NANOS
}

/// Whether watch mode runs the checks again on an event that modified or
/// created something or not, on paths with the extensions `extensions`,
/// `since_last_nanos` nanoseconds after the last run ended.
pub fn watch_step(
    modify_or_create: bool,
    extensions: &Vec<Option<String>>,
    since_last_nanos: u128,
) -> (r: bool)
    ensures
        r == rerun_after(modify_or_create, extensions@, since_last_nanos),
{
    is_relevant_change(modify_or_create, extensions) && should_rerun(since_last_nanos)
}

/// Watch mode runs the checks again only after an event that modified or
/// created a path ending in `.rs` or `.toml`, and only when more than one
/// second has passed since the last run.
pub proof fn lemma_rerun_rule(
    modify_or_create: bool,
    extensions: Seq<Option<String>>,
    since_last_nanos: u128,
)
    requires
        rerun_after(modify_or_create, extensions, since_last_nanos),
    ensures
        modify_or_create,
        exists|i: int|
            0 <= i < extensions.len() && (#[trigger] extensions[i] matches Some(e) && (e@ == "rs"@
                || e@ == "toml"@)),
        since_last_nanos > 1_000_000_000,
{
    let i = choose|i: int| 0 <= i < extensions.len() && #[trigger] watched(extensions[i]);
    assert(extensions[i] matches Some(e) && (e@ == "rs"@ || e@ == "toml"@));
}

/// An event that neither modifies nor creates anything, or that touches no
/// path ending in `.rs` or `.toml`, never starts a run, however long ago
/// the last one was.
pub proof fn lemma_irrelevant_events_ignored(
    modify_or_create: bool,
    extensions: Seq<Option<String>>,
    since_last_nanos: u128,
)
    requires
        !modify_or_create || forall|i: int|
            0 <= i < extensions.len() ==> !(#[trigger] extensions[i] matches Some(e) && (e@ == "rs"@
                || e@ == "toml"@)),
    ensures
        !rerun_after(modify_or_create, extensions, since_last_nanos),
{
    if modify_or_create {
        assert forall|i: int| 0 <= i < extensions.len() implies !#[trigger] watched(extensions[i]) by {
            assert(!(extensions[i] matches Some(e) && (e@ == "rs"@ || e@ == "toml"@)));
        }
    }
}

} // verus!
