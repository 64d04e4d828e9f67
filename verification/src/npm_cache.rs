//! The npx cache: where it lies, and how the server's package is dropped from it.

use crate::place::{in_directory, in_folder, place_in, Place, PlaceView};
use crate::text::{
    blank, decode_lossy, law_trim_finds_the_text, lossy_utf8, trim, trimmed, white_space,
};
use std::path::PathBuf;
use vstd::prelude::*;
use vstd::utf8::{decode_utf8, valid_utf8};

verus! {

/// The command line that asks npm for its cache directory.
pub const NPM_CACHE_COMMAND: &'static str = "npm config get cache";

/// The environment variable with the parent of the default cache directory.
pub const LOCAL_APP_DATA: &'static str = "LOCALAPPDATA";

/// The default cache directory, in the parent directory.
pub const DEFAULT_CACHE_FOLDER: &'static str = "npm-cache";

/// The directory of npx in the cache directory.
pub const NPX_FOLDER: &'static str = "_npx";

/// The directory of installed packages.
pub const PACKAGES_FOLDER: &'static str = "node_modules";

/// The scope of the server's package among the installed packages.
pub const DSH_SCOPE: &'static str = "@deepseek-ai";

/// How many times the removal is tried.
pub const PURGE_ATTEMPTS: u32 = 5;

/// Pause after a removal that removed nothing, in milliseconds.
pub const PURGE_PAUSE_MILLIS: u64 = 400;

/// How a command that ran to its end came out.
pub struct CommandOutput {
    /// The command reported success.
    pub success: bool,
    /// What it wrote.
    pub stdout: Vec<u8>,
}

/// Where the npm cache is to be found.
#[derive(Debug)]
pub enum CacheSource {
    /// In the directory that npm reported.
    Reported(String),
    /// In the default place.
    Default { place: Place },
}

/// What a `CacheSource` says.
pub enum CacheSourceView {
    Reported(Seq<char>),
    Default { place: PlaceView },
}

impl View for CacheSource {
    type V = CacheSourceView;

    open spec fn view(&self) -> CacheSourceView {
        match *self {
            CacheSource::Reported(dir) => CacheSourceView::Reported(dir@),
            CacheSource::Default { place } => CacheSourceView::Default { place: place@ },
        }
    }
}

/// What a `CacheSource` that may be missing says.
pub open spec fn source_of(source: Option<CacheSource>) -> Option<CacheSourceView> {
    match source {
        Some(source) => Some(source@),
        None => None,
    }
}

/// The default place of the cache: `DEFAULT_CACHE_FOLDER` in the directory `local`
/// that `LOCAL_APP_DATA` names, if it names one.
pub open spec fn cache_default(local: Option<PathBuf>) -> Option<CacheSourceView> {
    match local {
        Some(local) => Some(
            CacheSourceView::Default { place: place_in(local, DEFAULT_CACHE_FOLDER@) },
        ),
        None => None,
    }
}

/// Where the cache is after npm wrote `text`: in the directory that the text
/// names, white space around it aside, or in the default place where it names none.
pub open spec fn cache_reported(text: Seq<char>, local: Option<PathBuf>) -> Option<
    CacheSourceView,
> {
    if trimmed(text).len() > 0 {
        Some(CacheSourceView::Reported(trimmed(text)))
    } else {
        cache_default(local)
    }
}

/// Where the cache is after npm was asked: `answer` is whether it reported success
/// and what it wrote, and none where it could not be run.
pub open spec fn cache_source(answer: Option<(bool, Seq<char>)>, local: Option<PathBuf>) -> Option<
    CacheSourceView,
> {
    match answer {
        Some((success, text)) => if success {
            cache_reported(text, local)
        } else {
            cache_default(local)
        },
        None => cache_default(local),
    }
}

/// The directory that npm names is taken, without the white space around it. Where
/// npm names none, fails or cannot be run, the default place is taken, if there is
/// one.
pub proof fn law_cache_is_where_npm_says(
    before: Seq<char>,
    dir: Seq<char>,
    after: Seq<char>,
    text: Seq<char>,
    local: PathBuf,
    any: Option<PathBuf>,
)
    requires
        blank(before),
        blank(after),
        dir.len() > 0,
        !white_space(dir[0]),
        !white_space(dir.last()),
    ensures
        cache_source(Some((true, before + dir + after)), any) == Some(
            CacheSourceView::Reported(dir),
        ),
        ({
            let usual = Some(
                CacheSourceView::Default {
                    place: PlaceView { base: local, parts: seq!["npm-cache"@] },
                },
            );
            &&& cache_source(Some((true, before)), Some(local)) == usual
            &&& cache_source(Some((false, text)), Some(local)) == usual
            &&& cache_source(None, Some(local)) == usual
        }),
        cache_source(Some((true, before)), None) is None,
        cache_source(Some((false, text)), None) is None,
        cache_source(None, None) is None,
{
    let none = Seq::<char>::empty();
    law_trim_finds_the_text(before, dir, after);
    law_trim_finds_the_text(before, none, none);
    assert(before + none + none =~= before);
    assert(place_in(local, DEFAULT_CACHE_FOLDER@) =~= PlaceView {
        base: local,
        parts: seq!["npm-cache"@],
    });
}

/// The default place of the cache.
fn default_cache(local: Option<PathBuf>) -> (source: Option<CacheSource>)
    ensures
        source_of(source) == cache_default(local),
{
    match local {
        Some(local) => Some(
            CacheSource::Default { place: in_directory(local, DEFAULT_CACHE_FOLDER) },
        ),
        None => None,
    }
}

/// Where the cache is after npm wrote `text`.
pub fn reported_cache(text: &str, local: Option<PathBuf>) -> (source: Option<CacheSource>)
    ensures
        source_of(source) == cache_reported(text@, local),
{
    let dir = trim(text);
    if dir.as_str().is_empty() {
        default_cache(local)
    } else {
        Some(CacheSource::Reported(dir))
    }
}

/// Where the npm cache is. `output` is the outcome of asking npm, and none where
/// the command could not be run; `local` is the directory that `LOCAL_APP_DATA`
/// names, if it names one. Whenever npm reports no directory, for whatever reason,
/// the default place is taken.
pub fn get_npm_cache_dir(output: Option<&CommandOutput>, local: Option<PathBuf>) -> (source: Option<
    CacheSource,
>)
    ensures
        source_of(source) == (match output {
            Some(output) => if output.success {
                cache_reported(lossy_utf8(output.stdout@), local)
            } else {
                cache_default(local)
            },
            None => cache_default(local),
        }),
        output matches Some(output) ==> output.success && valid_utf8(output.stdout@) ==> source_of(
            source,
        ) == cache_reported(decode_utf8(output.stdout@), local),
        local is Some ==> source is Some,
        source_of(source) == cache_source(
            match output {
                Some(output) => Some((output.success, lossy_utf8(output.stdout@))),
                None => None,
            },
            local,
        ),
{
    match output {
        Some(output) => {
            if output.success {
                let text = decode_lossy(output.stdout.as_slice());
                reported_cache(text.as_str(), local)
            } else {
                default_cache(local)
            }
        },
        None => default_cache(local),
    }
}

// ---------------------------------------------------------------------------
// Removal
// ---------------------------------------------------------------------------

/// The place of the npx directory in the cache directory `cache`.
pub fn npx_place(cache: PathBuf) -> (place: Place)
    ensures
        place@ == place_in(cache, NPX_FOLDER@),
{
    in_directory(cache, NPX_FOLDER)
}

/// The place of the package under `root`.
pub open spec fn scope_place(root: PathBuf) -> PlaceView {
    PlaceView { base: root, parts: seq![PACKAGES_FOLDER@, DSH_SCOPE@] }
}

/// The places where the package may lie: under each of `entries` of the npx
/// directory, and under the npx directory itself.
pub open spec fn package_places(entries: Seq<PathBuf>, npx_dir: PathBuf) -> Seq<PlaceView> {
    entries.push(npx_dir).map_values(|root: PathBuf| scope_place(root))
}

/// Every entry of the npx directory is looked into, in its order, and then the npx
/// directory itself, and nothing else.
pub proof fn law_every_entry_is_looked_into(entries: Seq<PathBuf>, npx_dir: PathBuf, i: int)
    requires
        0 <= i < entries.len(),
    ensures
        ({
            let places = package_places(entries, npx_dir);
            &&& places.len() == entries.len() + 1
            &&& places[i] == (PlaceView {
                base: entries[i],
                parts: seq!["node_modules"@, "@deepseek-ai"@],
            })
            &&& places.last() == (PlaceView {
                base: npx_dir,
                parts: seq!["node_modules"@, "@deepseek-ai"@],
            })
            &&& package_places(Seq::empty(), npx_dir) == seq![places.last()]
        }),
{
    assert(package_places(Seq::empty(), npx_dir) =~= seq![
        package_places(entries, npx_dir).last(),
    ]);
}

/// The places where the package may lie: under each entry of the npx directory,
/// and under the npx directory itself.
pub fn scope_places(entries: Vec<PathBuf>, npx_dir: PathBuf) -> (places: Vec<Place>)
    ensures
        places@.map_values(|place: Place| place@) == entries@.push(npx_dir).map_values(
            |root: PathBuf| scope_place(root),
        ),
        places@.map_values(|place: Place| place@) == package_places(entries@, npx_dir),
{
    let ghost roots = entries@.push(npx_dir);
    let mut places: Vec<Place> = Vec::new();
    for root in it: entries
        invariant
            it.seq() == entries@,
            places@.len() == it.index(),
            forall|i: int| 0 <= i < places@.len() ==> (#[trigger] places@[i])@ == scope_place(
                entries@[i],
            ),
    {
        places.push(in_folder(root, PACKAGES_FOLDER, DSH_SCOPE));
    }
    places.push(in_folder(npx_dir, PACKAGES_FOLDER, DSH_SCOPE));
    assert(places@.map_values(|place: Place| place@) =~= roots.map_values(
        |root: PathBuf| scope_place(root),
    ));
    places
}

/// How the removal of the package from one directory came out.
#[derive(Clone, Copy, PartialEq, Eq, Structural, Debug)]
pub enum ScopeOutcome {
    /// The package is not there.
    Absent,
    /// The package was there and is removed.
    Removed,
    /// The package is there and could not be removed.
    Failed,
}

/// The package was removed from at least one directory.
pub open spec fn any_removed(outcomes: Seq<ScopeOutcome>) -> bool {
    exists|i: int| 0 <= i < outcomes.len() && (#[trigger] outcomes[i]) is Removed
}

/// The package was removed anywhere, in an earlier pass if `before` or in the one
/// that came out as `outcomes`.
pub open spec fn removed_by(before: bool, outcomes: Seq<ScopeOutcome>) -> bool {
    before || any_removed(outcomes)
}

/// Whether a pass over the directories removed the package anywhere.
pub fn remove_dsh_from_npx_once(outcomes: &Vec<ScopeOutcome>) -> (removed: bool)
    ensures
        removed == any_removed(outcomes@),
{
    let mut i: usize = 0;
    while i < outcomes.len()
        invariant
            i <= outcomes@.len(),
            forall|j: int| 0 <= j < i ==> !((#[trigger] outcomes@[j]) is Removed),
        decreases outcomes@.len() - i,
    {
        if outcomes[i] == ScopeOutcome::Removed {
            return true;
        }
        i = i + 1;
    }
    false
}

/// Whether the package was removed anywhere, in an earlier pass if `before` or in
/// the one that came out as `outcomes`.
pub fn removed_so_far(before: bool, outcomes: &Vec<ScopeOutcome>) -> (removed: bool)
    ensures
        removed == (before || any_removed(outcomes@)),
        removed == removed_by(before, outcomes@),
{
    before || remove_dsh_from_npx_once(outcomes)
}

/// The package is still held in at least one directory.
pub open spec fn any_failed(outcomes: Seq<ScopeOutcome>) -> bool {
    exists|i: int| 0 <= i < outcomes.len() && (#[trigger] outcomes[i]) is Failed
}

/// Whether a pass over the directories left the package in any of them.
fn scope_is_held(outcomes: &Vec<ScopeOutcome>) -> (held: bool)
    ensures
        held == any_failed(outcomes@),
{
    let mut i: usize = 0;
    while i < outcomes.len()
        invariant
            i <= outcomes@.len(),
            forall|j: int| 0 <= j < i ==> !((#[trigger] outcomes@[j]) is Failed),
        decreases outcomes@.len() - i,
    {
        if outcomes[i] == ScopeOutcome::Failed {
            return true;
        }
        i = i + 1;
    }
    false
}

/// What to do after a pass over the directories.
#[derive(Clone, Copy, PartialEq, Eq, Structural, Debug)]
pub enum PurgeStep {
    /// Report that the package was removed.
    Removed,
    /// Pause, then make pass number `attempt`.
    PauseAndRetry { attempt: u32 },
    /// Pause, then report that nothing was removed.
    PauseAndGiveUp,
}

/// What to do after pass number `attempt`, the first being 1, that came out as
/// `outcomes`, where `removed_before` says whether an earlier pass removed the
/// package anywhere. As long as the package is held somewhere, or has been removed
/// nowhere, another pass is made, up to `PURGE_ATTEMPTS`.
pub open spec fn purge_step(
    attempt: u32,
    removed_before: bool,
    outcomes: Seq<ScopeOutcome>,
) -> PurgeStep {
    let removed = removed_before || any_removed(outcomes);
    if (any_failed(outcomes) || !removed) && attempt < PURGE_ATTEMPTS {
        PurgeStep::PauseAndRetry { attempt: (attempt + 1) as u32 }
    } else if removed {
        PurgeStep::Removed
    } else {
        PurgeStep::PauseAndGiveUp
    }
}

/// What to do after pass number `attempt`, the first being 1, that came out as
/// `outcomes`, where `removed_before` says whether an earlier pass removed the
/// package anywhere.
pub fn remove_dsh_from_npx(
    attempt: u32,
    removed_before: bool,
    outcomes: &Vec<ScopeOutcome>,
) -> (step: PurgeStep)
    ensures
        step == purge_step(attempt, removed_before, outcomes@),
{
    let removed = removed_so_far(removed_before, outcomes);
    if (scope_is_held(outcomes) || !removed) && attempt < PURGE_ATTEMPTS {
        PurgeStep::PauseAndRetry { attempt: attempt + 1 }
    } else if removed {
        PurgeStep::Removed
    } else {
        PurgeStep::PauseAndGiveUp
    }
}

/// How a removal ends.
pub struct PurgeEnd {
    /// What is reported.
    pub removed: bool,
    /// The number of the last pass.
    pub last: u32,
}

/// The end of a removal in which pass number `n` comes out as `passes[n - 1]`, and
/// pass number `attempt` is the next to be made.
pub open spec fn purge_run(
    passes: Seq<Seq<ScopeOutcome>>,
    attempt: u32,
    removed_before: bool,
) -> PurgeEnd
    decreases PURGE_ATTEMPTS - attempt,
{
    let outcomes = passes[attempt - 1];
    match purge_step(attempt, removed_before, outcomes) {
        PurgeStep::Removed => PurgeEnd { removed: true, last: attempt },
        PurgeStep::PauseAndRetry { attempt: next } => purge_run(
            passes,
            next,
            removed_by(removed_before, outcomes),
        ),
        PurgeStep::PauseAndGiveUp => PurgeEnd { removed: false, last: attempt },
    }
}

/// The package counts as removed exactly if one of the first `PURGE_ATTEMPTS`
/// passes removes it anywhere, and no more than that many passes are made.
pub proof fn law_purge_tries_a_few_times(passes: Seq<Seq<ScopeOutcome>>)
    ensures
        1 <= purge_run(passes, 1, false).last <= 5,
        purge_run(passes, 1, false).removed <==> exists|i: int|
            0 <= i < 5 && any_removed(#[trigger] passes[i]),
{
    lemma_purge_run(passes, 1, false);
}

/// A held package is not left behind while passes remain: a removal that ends
/// before the last of them ends with a pass that found the package held nowhere,
/// and the package was removed.
pub proof fn law_held_scope_is_retried(passes: Seq<Seq<ScopeOutcome>>)
    ensures
        ({
            let end = purge_run(passes, 1, false);
            end.last < 5 ==> end.removed && !any_failed(passes[end.last - 1])
        }),
{
    lemma_purge_run(passes, 1, false);
}

proof fn lemma_purge_run(passes: Seq<Seq<ScopeOutcome>>, attempt: u32, removed_before: bool)
    requires
        1 <= attempt <= PURGE_ATTEMPTS,
    ensures
        ({
            let end = purge_run(passes, attempt, removed_before);
            &&& attempt <= end.last <= PURGE_ATTEMPTS
            &&& end.removed <==> removed_before || exists|i: int|
                attempt - 1 <= i < PURGE_ATTEMPTS && any_removed(#[trigger] passes[i])
            &&& end.last < PURGE_ATTEMPTS ==> end.removed && !any_failed(passes[end.last - 1])
            &&& forall|i: int, j: int|
                #![trigger passes[i], passes[j]]
                attempt - 1 <= j <= i < end.last - 1 && (removed_before || any_removed(passes[j]))
                    ==> any_failed(passes[i])
        }),
    decreases PURGE_ATTEMPTS - attempt,
{
    let outcomes = passes[attempt - 1];
    let removed = removed_before || any_removed(outcomes);
    if (any_failed(outcomes) || !removed) && attempt < PURGE_ATTEMPTS {
        lemma_purge_run(passes, (attempt + 1) as u32, removed);
    }
}

/// No pass is made in vain: each one after which another is made either left the
/// package in some directory, or came before the package was removed from any.
pub proof fn law_no_pass_is_made_in_vain(passes: Seq<Seq<ScopeOutcome>>, i: int, j: int)
    requires
        0 <= j <= i < purge_run(passes, 1, false).last - 1,
        any_removed(passes[j]),
    ensures
        any_failed(passes[i]),
{
    lemma_purge_run(passes, 1, false);
    assert(any_removed(passes[j]) && 0 <= j <= i);
}

/// The package counts as removed from some directories, or as held in them, exactly
/// if it does so in some part of them, and in one directory exactly if that is how
/// the removal there came out.
pub proof fn law_outcomes_add_up(
    a: Seq<ScopeOutcome>,
    b: Seq<ScopeOutcome>,
    one: ScopeOutcome,
)
    ensures
        any_removed(a + b) <==> any_removed(a) || any_removed(b),
        any_failed(a + b) <==> any_failed(a) || any_failed(b),
        any_removed(seq![one]) <==> one == ScopeOutcome::Removed,
        any_failed(seq![one]) <==> one == ScopeOutcome::Failed,
        !any_removed(Seq::empty()),
        !any_failed(Seq::empty()),
{
    let all = a + b;
    assert forall|i: int| 0 <= i < a.len() implies all[i] == #[trigger] a[i] by {}
    assert forall|i: int| 0 <= i < b.len() implies all[a.len() + i] == #[trigger] b[i] by {}
    if any_removed(a) {
        let i = choose|i: int| 0 <= i < a.len() && (#[trigger] a[i]) is Removed;
        assert(all[i] is Removed);
    }
    if any_removed(b) {
        let i = choose|i: int| 0 <= i < b.len() && (#[trigger] b[i]) is Removed;
        assert(all[a.len() + i] is Removed);
    }
    if any_removed(all) {
        let i = choose|i: int| 0 <= i < all.len() && (#[trigger] all[i]) is Removed;
        if i < a.len() {
            assert(a[i] is Removed);
        } else {
            assert(b[i - a.len()] is Removed);
        }
    }
    if any_failed(a) {
        let i = choose|i: int| 0 <= i < a.len() && (#[trigger] a[i]) is Failed;
        assert(all[i] is Failed);
    }
    if any_failed(b) {
        let i = choose|i: int| 0 <= i < b.len() && (#[trigger] b[i]) is Failed;
        assert(all[a.len() + i] is Failed);
    }
    if any_failed(all) {
        let i = choose|i: int| 0 <= i < all.len() && (#[trigger] all[i]) is Failed;
        if i < a.len() {
            assert(a[i] is Failed);
        } else {
            assert(b[i - a.len()] is Failed);
        }
    }
    assert(seq![one][0] == one);
}

/// After a pass the next one follows, and none follows the fifth. The removal is
/// over with success only if the package was removed, and without only if it was
/// not.
pub proof fn law_purge_goes_on_or_ends(
    attempt: u32,
    removed_before: bool,
    outcomes: Seq<ScopeOutcome>,
)
    ensures
        ({
            let removed = removed_before || any_removed(outcomes);
            match purge_step(attempt, removed_before, outcomes) {
                PurgeStep::PauseAndRetry { attempt: next } => {
                    &&& attempt < 5
                    &&& next == attempt + 1
                    &&& removed ==> any_failed(outcomes)
                },
                PurgeStep::Removed => removed && (attempt < 5 ==> !any_failed(outcomes)),
                PurgeStep::PauseAndGiveUp => !removed && attempt >= 5,
            }
        }),
{
}

} // verus!
