use vstd::prelude::*;
use vstd::pervasive::unreached;

use crate::error::ErrorModel;
use crate::error::InstallationError;
use crate::release::ReleaseInfo;
use crate::release::ReleaseModel;
use crate::release::expected_asset_name;
use crate::release::expected_name;
use crate::release::find_asset;
use crate::release::first_match;

verus! {

/// Where a resolution attempt stands between two host interactions.
enum Phase {
    /// No attempt under way; the next event must be `Start`.
    Idle,
    /// Waiting to hear whether the cached path still names a regular file.
    AwaitCachedStat { path: String },
    /// Waiting for the release feed's answer.
    AwaitFeed,
    /// Waiting to hear whether the expected asset file is already present
    /// in the working directory.
    AwaitAssetStat { name: String, url: String },
    /// Waiting for the download to finish.
    AwaitDownload { name: String, url: String },
    /// Waiting for the working directory to be swept.
    AwaitSweep { name: String },
    /// Waiting for the asset file name to be made absolute.
    AwaitAbsolute { name: String },
}

/// Mathematical image of a `Phase`.
#[verifier::ext_equal]
pub enum PhaseModel {
    Idle,
    AwaitCachedStat { path: Seq<char> },
    AwaitFeed,
    AwaitAssetStat { name: Seq<char>, url: Seq<char> },
    AwaitDownload { name: Seq<char>, url: Seq<char> },
    AwaitSweep { name: Seq<char> },
    AwaitAbsolute { name: Seq<char> },
}

impl View for Phase {
    type V = PhaseModel;

    closed spec fn view(&self) -> PhaseModel {
        match self {
            Phase::Idle => PhaseModel::Idle,
            Phase::AwaitCachedStat { path } => PhaseModel::AwaitCachedStat { path: path@ },
            Phase::AwaitFeed => PhaseModel::AwaitFeed,
            Phase::AwaitAssetStat { name, url } => PhaseModel::AwaitAssetStat {
                name: name@,
                url: url@,
            },
            Phase::AwaitDownload { name, url } => PhaseModel::AwaitDownload {
                name: name@,
                url: url@,
            },
            Phase::AwaitSweep { name } => PhaseModel::AwaitSweep { name: name@ },
            Phase::AwaitAbsolute { name } => PhaseModel::AwaitAbsolute { name: name@ },
        }
    }
}

/// What the host must do next on the resolver's behalf. Every request
/// is answered by the `Event` of the same name.
#[derive(Debug, Clone, PartialEq, Eq)]
pub enum Action {
    /// Ask the filesystem whether `path` names a regular file.
    StatCachedFile { path: String },
    /// Report `CheckingForUpdate`, then query the release feed for the
    /// latest release that has assets and is not a pre-release.
    QueryFeed,
    /// Ask the filesystem whether a file called `name` is already present
    /// in the working directory.
    StatAssetFile { name: String },
    /// Report `Downloading`, then fetch `url` verbatim (no decompression)
    /// into the file `destination`.
    DownloadAsset { url: String, destination: String },
    /// Remove every working-directory entry whose name differs from
    /// `keep`, best effort: removal failures are ignored.
    SweepDirectory { keep: String },
    /// Turn the file name `name` into an absolute textual path.
    ResolveAbsolute { name: String },
    /// The attempt succeeded: `path` is the artifact's absolute path.
    Complete { path: String },
    /// The attempt failed; the error is terminal for this attempt.
    Fail { error: InstallationError },
}

/// Mathematical image of an `Action`.
#[verifier::ext_equal]
pub enum ActionModel {
    StatCachedFile { path: Seq<char> },
    QueryFeed,
    StatAssetFile { name: Seq<char> },
    DownloadAsset { url: Seq<char>, destination: Seq<char> },
    SweepDirectory { keep: Seq<char> },
    ResolveAbsolute { name: Seq<char> },
    Complete { path: Seq<char> },
    Fail { error: ErrorModel },
}

impl View for Action {
    type V = ActionModel;

    open spec fn view(&self) -> ActionModel {
        match self {
            Action::StatCachedFile { path } => ActionModel::StatCachedFile { path: path@ },
            Action::QueryFeed => ActionModel::QueryFeed,
            Action::StatAssetFile { name } => ActionModel::StatAssetFile { name: name@ },
            Action::DownloadAsset { url, destination } => ActionModel::DownloadAsset {
                url: url@,
                destination: destination@,
            },
            Action::SweepDirectory { keep } => ActionModel::SweepDirectory { keep: keep@ },
            Action::ResolveAbsolute { name } => ActionModel::ResolveAbsolute { name: name@ },
            Action::Complete { path } => ActionModel::Complete { path: path@ },
            Action::Fail { error } => ActionModel::Fail { error: error@ },
        }
    }
}

/// The host's answer to the resolver's last request.
#[derive(Debug, Clone, PartialEq, Eq)]
pub enum Event {
    /// A resolution attempt begins.
    Start,
    /// Whether the cached path names a regular file.
    CachedStat { is_file: bool },
    /// The feed returned its latest qualifying release.
    FeedOk { release: ReleaseInfo },
    /// The feed was unreachable or had no qualifying release.
    FeedErr { message: String },
    /// Whether the expected asset file is already present.
    AssetStat { is_file: bool },
    /// The download finished.
    DownloadOk,
    /// The download failed.
    DownloadErr { message: String },
    /// The working directory was swept.
    SweepDone,
    /// The asset file name resolved to this absolute path.
    AbsoluteOk { path: String },
    /// The asset file name could not be made absolute, or the result was
    /// not representable as text.
    AbsoluteErr { message: String },
}

/// Mathematical image of an `Event`.
#[verifier::ext_equal]
pub enum EventModel {
    Start,
    CachedStat { is_file: bool },
    FeedOk { release: ReleaseModel },
    FeedErr { message: Seq<char> },
    AssetStat { is_file: bool },
    DownloadOk,
    DownloadErr { message: Seq<char> },
    SweepDone,
    AbsoluteOk { path: Seq<char> },
    AbsoluteErr { message: Seq<char> },
}

impl View for Event {
    type V = EventModel;

    open spec fn view(&self) -> EventModel {
        match self {
            Event::Start => EventModel::Start,
            Event::CachedStat { is_file } => EventModel::CachedStat { is_file: *is_file },
            Event::FeedOk { release } => EventModel::FeedOk { release: release@ },
            Event::FeedErr { message } => EventModel::FeedErr { message: message@ },
            Event::AssetStat { is_file } => EventModel::AssetStat { is_file: *is_file },
            Event::DownloadOk => EventModel::DownloadOk,
            Event::DownloadErr { message } => EventModel::DownloadErr { message: message@ },
            Event::SweepDone => EventModel::SweepDone,
            Event::AbsoluteOk { path } => EventModel::AbsoluteOk { path: path@ },
            Event::AbsoluteErr { message } => EventModel::AbsoluteErr { message: message@ },
        }
    }
}

/// The resolver's mathematical state: the memoized absolute path (absent
/// until the first successful attempt) and the phase of the attempt
/// under way.
#[verifier::ext_equal]
pub struct ResolverModel {
    pub cached: Option<Seq<char>>,
    pub phase: PhaseModel,
}

/// States the resolver can actually be in: the cached-file check is only
/// ever made for the path that is memoized. It holds of a fresh resolver
/// and is preserved by every transition.
pub open spec fn wf(s: ResolverModel) -> bool {
    match s.phase {
        PhaseModel::AwaitCachedStat { path } => s.cached == Some(path),
        _ => true,
    }
}

/// Whether `e` is the event that answers the request issued in `phase`.
pub open spec fn accepts(phase: PhaseModel, e: EventModel) -> bool {
    match (phase, e) {
        (PhaseModel::Idle, EventModel::Start) => true,
        (PhaseModel::AwaitCachedStat { .. }, EventModel::CachedStat { .. }) => true,
        (PhaseModel::AwaitFeed, EventModel::FeedOk { .. }) => true,
        (PhaseModel::AwaitFeed, EventModel::FeedErr { .. }) => true,
        (PhaseModel::AwaitAssetStat { .. }, EventModel::AssetStat { .. }) => true,
        (PhaseModel::AwaitDownload { .. }, EventModel::DownloadOk) => true,
        (PhaseModel::AwaitDownload { .. }, EventModel::DownloadErr { .. }) => true,
        (PhaseModel::AwaitSweep { .. }, EventModel::SweepDone) => true,
        (PhaseModel::AwaitAbsolute { .. }, EventModel::AbsoluteOk { .. }) => true,
        (PhaseModel::AwaitAbsolute { .. }, EventModel::AbsoluteErr { .. }) => true,
        _ => false,
    }
}

/// The transition function of the resolution procedure: from a state and
/// the host's answer to the new state and the next request.
///
/// A cached path is trusted as long as it still names a regular file;
/// otherwise the feed is queried, the asset named by the template is
/// looked up, downloaded only if not already present (the existence check
/// is name-based only, deliberately), superseded files are swept after a
/// download, and the absolute path is memoized on completion. Failures
/// return to rest without touching the memoized path.
pub open spec fn next(s: ResolverModel, e: EventModel) -> (ResolverModel, ActionModel) {
    match (s.phase, e) {
        (PhaseModel::Idle, EventModel::Start) => match s.cached {
            Some(p) => (
                ResolverModel { cached: s.cached, phase: PhaseModel::AwaitCachedStat { path: p } },
                ActionModel::StatCachedFile { path: p },
            ),
            None => (
                ResolverModel { cached: s.cached, phase: PhaseModel::AwaitFeed },
                ActionModel::QueryFeed,
            ),
        },
        (PhaseModel::AwaitCachedStat { path }, EventModel::CachedStat { is_file }) => if is_file {
            (
                ResolverModel { cached: s.cached, phase: PhaseModel::Idle },
                ActionModel::Complete { path },
            )
        } else {
            (
                ResolverModel { cached: s.cached, phase: PhaseModel::AwaitFeed },
                ActionModel::QueryFeed,
            )
        },
        (PhaseModel::AwaitFeed, EventModel::FeedErr { message }) => (
            ResolverModel { cached: s.cached, phase: PhaseModel::Idle },
            ActionModel::Fail { error: ErrorModel::Feed { message } },
        ),
        (PhaseModel::AwaitFeed, EventModel::FeedOk { release }) => {
            let name = expected_name(release.version);
            match first_match(release.assets, name) {
                Some(i) => (
                    ResolverModel {
                        cached: s.cached,
                        phase: PhaseModel::AwaitAssetStat { name, url: release.assets[i].url },
                    },
                    ActionModel::StatAssetFile { name },
                ),
                None => (
                    ResolverModel { cached: s.cached, phase: PhaseModel::Idle },
                    ActionModel::Fail { error: ErrorModel::AssetNotFound { asset_name: name } },
                ),
            }
        },
        (PhaseModel::AwaitAssetStat { name, url }, EventModel::AssetStat { is_file }) => if is_file {
            (
                ResolverModel { cached: s.cached, phase: PhaseModel::AwaitAbsolute { name } },
                ActionModel::ResolveAbsolute { name },
            )
        } else {
            (
                ResolverModel { cached: s.cached, phase: PhaseModel::AwaitDownload { name, url } },
                ActionModel::DownloadAsset { url, destination: name },
            )
        },
        (PhaseModel::AwaitDownload { name, .. }, EventModel::DownloadOk) => (
            ResolverModel { cached: s.cached, phase: PhaseModel::AwaitSweep { name } },
            ActionModel::SweepDirectory { keep: name },
        ),
        (PhaseModel::AwaitDownload { .. }, EventModel::DownloadErr { message }) => (
            ResolverModel { cached: s.cached, phase: PhaseModel::Idle },
            ActionModel::Fail { error: ErrorModel::Download { message } },
        ),
        (PhaseModel::AwaitSweep { name }, EventModel::SweepDone) => (
            ResolverModel { cached: s.cached, phase: PhaseModel::AwaitAbsolute { name } },
            ActionModel::ResolveAbsolute { name },
        ),
        (PhaseModel::AwaitAbsolute { .. }, EventModel::AbsoluteOk { path }) => (
            ResolverModel { cached: Some(path), phase: PhaseModel::Idle },
            ActionModel::Complete { path },
        ),
        (PhaseModel::AwaitAbsolute { .. }, EventModel::AbsoluteErr { message }) => (
            ResolverModel { cached: s.cached, phase: PhaseModel::Idle },
            ActionModel::Fail { error: ErrorModel::Path { message } },
        ),
        _ => arbitrary(),
    }
}

/// Resolves the language-server artifact for the host: returns the
/// cached path while it is still a regular file, and otherwise walks
/// the fetch path (feed query, template lookup, conditional download,
/// sweep, absolute path), memoizing the result.
pub struct ArtifactResolver {
    cached_jar_path: Option<String>,
    phase: Phase,
}

impl View for ArtifactResolver {
    type V = ResolverModel;

    closed spec fn view(&self) -> ResolverModel {
        ResolverModel {
            cached: match self.cached_jar_path {
                Some(p) => Some(p@),
                None => None,
            },
            phase: self.phase@,
        }
    }
}

impl ArtifactResolver {
    /// A fresh resolver: nothing cached, no attempt under way.
    pub fn new() -> (r: ArtifactResolver)
        ensures
            r@.cached is None,
            r@.phase is Idle,
            wf(r@),
    {
        ArtifactResolver { cached_jar_path: None, phase: Phase::Idle }
    }

    /// Whether no resolution attempt is under way.
    pub fn is_idle(&self) -> (r: bool)
        ensures
            r == (self@.phase is Idle),
    {
        match &self.phase {
            Phase::Idle => true,
            _ => false,
        }
    }

    /// Whether `e` is the event the current phase is waiting for.
    pub fn accepts_event(&self, e: &Event) -> (r: bool)
        ensures
            r == accepts(self@.phase, e@),
    {
        match (&self.phase, e) {
            (Phase::Idle, Event::Start) => true,
            (Phase::AwaitCachedStat { .. }, Event::CachedStat { .. }) => true,
            (Phase::AwaitFeed, Event::FeedOk { .. }) => true,
            (Phase::AwaitFeed, Event::FeedErr { .. }) => true,
            (Phase::AwaitAssetStat { .. }, Event::AssetStat { .. }) => true,
            (Phase::AwaitDownload { .. }, Event::DownloadOk) => true,
            (Phase::AwaitDownload { .. }, Event::DownloadErr { .. }) => true,
            (Phase::AwaitSweep { .. }, Event::SweepDone) => true,
            (Phase::AwaitAbsolute { .. }, Event::AbsoluteOk { .. }) => true,
            (Phase::AwaitAbsolute { .. }, Event::AbsoluteErr { .. }) => true,
            _ => false,
        }
    }

    /// Feed the resolver the host's answer to its last request; it
    /// returns the next request, exactly as the transition function
    /// `next` prescribes.
    pub fn step(&mut self, e: Event) -> (a: Action)
        requires
            accepts(old(self)@.phase, e@),
        ensures
            final(self)@ == next(old(self)@, e@).0,
            a@ == next(old(self)@, e@).1,
    {
        let mut ph = Phase::Idle;
        core::mem::swap(&mut ph, &mut self.phase);
        match (ph, e) {
            (Phase::Idle, Event::Start) => match &self.cached_jar_path {
                Some(p) => {
                    let path = p.clone();
                    self.phase = Phase::AwaitCachedStat { path: p.clone() };
                    Action::StatCachedFile { path }
                },
                None => {
                    self.phase = Phase::AwaitFeed;
                    Action::QueryFeed
                },
            },
            (Phase::AwaitCachedStat { path }, Event::CachedStat { is_file }) => {
                if is_file {
                    Action::Complete { path }
                } else {
                    self.phase = Phase::AwaitFeed;
                    Action::QueryFeed
                }
            },
            (Phase::AwaitFeed, Event::FeedErr { message }) => {
                Action::Fail { error: InstallationError::Feed { message } }
            },
            (Phase::AwaitFeed, Event::FeedOk { release }) => {
                let name = expected_asset_name(release.version.as_str());
                match find_asset(&release.assets, &name) {
                    Some(i) => {
                        let url = release.assets[i].download_url.clone();
                        let action = Action::StatAssetFile { name: name.clone() };
                        self.phase = Phase::AwaitAssetStat { name, url };
                        action
                    },
                    None => Action::Fail {
                        error: InstallationError::AssetNotFound { asset_name: name },
                    },
                }
            },
            (Phase::AwaitAssetStat { name, url }, Event::AssetStat { is_file }) => {
                if is_file {
                    let action = Action::ResolveAbsolute { name: name.clone() };
                    self.phase = Phase::AwaitAbsolute { name };
                    action
                } else {
                    let action = Action::DownloadAsset {
                        url: url.clone(),
                        destination: name.clone(),
                    };
                    self.phase = Phase::AwaitDownload { name, url };
                    action
                }
            },
            (Phase::AwaitDownload { name, url: _ }, Event::DownloadOk) => {
                let action = Action::SweepDirectory { keep: name.clone() };
                self.phase = Phase::AwaitSweep { name };
                action
            },
            (Phase::AwaitDownload { .. }, Event::DownloadErr { message }) => {
                Action::Fail { error: InstallationError::Download { message } }
            },
            (Phase::AwaitSweep { name }, Event::SweepDone) => {
                let action = Action::ResolveAbsolute { name: name.clone() };
                self.phase = Phase::AwaitAbsolute { name };
                action
            },
            (Phase::AwaitAbsolute { .. }, Event::AbsoluteOk { path }) => {
                self.cached_jar_path = Some(path.clone());
                Action::Complete { path }
            },
            (Phase::AwaitAbsolute { .. }, Event::AbsoluteErr { message }) => {
                Action::Fail { error: InstallationError::Path { message } }
            },
            _ => unreached(),
        }
    }

    /// Begin building the launch command. The Java runtime must be on the
    /// search path before any resolution work starts: without it the call
    /// fails at once, the resolver is left untouched, and no request is
    /// issued. With it, a resolution attempt begins and the runtime's
    /// path is handed back for the eventual `java -jar` invocation.
    pub fn begin_launch(&mut self, java: Option<String>) -> (r: Result<
        (String, Action),
        InstallationError,
    >)
        requires
            old(self)@.phase is Idle,
        ensures
            match r {
                Ok(p) => java == Some(p.0) && final(self)@ == next(old(self)@, EventModel::Start).0
                    && p.1@ == next(old(self)@, EventModel::Start).1,
                Err(e) => java is None && e == InstallationError::JavaNotFound && *final(self)
                    == *old(self),
            },
    {
        match java {
            None => Err(InstallationError::JavaNotFound),
            Some(j) => {
                let a = self.step(Event::Start);
                Ok((j, a))
            },
        }
    }
}

/// A cached path that the filesystem still reports as a regular file is
/// returned as it stands: the run stats that path, completes with it,
/// leaves the resolver exactly as it was, and never asks for the feed.
pub proof fn lemma_cache_hit_avoids_feed(s: ResolverModel, p: Seq<char>)
    requires
        (s.phase is Idle),
        (s.cached == Some(p)),
    ensures
        (next(s, EventModel::Start).1 == ActionModel::StatCachedFile { path: p }),
        (next(next(s, EventModel::Start).0, EventModel::CachedStat { is_file: true }).1
            == ActionModel::Complete { path: p }),
        (next(next(s, EventModel::Start).0, EventModel::CachedStat { is_file: true }).0 =~= s),
{
}

/// A cached path that no longer names a regular file sends the run into
/// the full fetch path: the request after the stat is the feed query.
pub proof fn lemma_stale_cache_refetches(s: ResolverModel, p: Seq<char>)
    requires
        (s.phase is Idle),
        (s.cached == Some(p)),
    ensures
        (next(s, EventModel::Start).1 == ActionModel::StatCachedFile { path: p }),
        (next(next(s, EventModel::Start).0, EventModel::CachedStat { is_file: false }).1
            == ActionModel::QueryFeed),
        (next(next(s, EventModel::Start).0, EventModel::CachedStat { is_file: false }).0.phase
            is AwaitFeed),
{
}

/// The resolver selects exactly the earliest asset whose name equals the
/// computed template, whatever else the release carries: the asset it
/// goes on to stat (and, if need be, download) is that one and no other.
pub proof fn lemma_selects_exact_match(s: ResolverModel, r: ReleaseModel, i: int)
    requires
        (s.phase is AwaitFeed),
        (0 <= i < r.assets.len()),
        (r.assets[i].name == expected_name(r.version)),
        (forall|j: int| 0 <= j < i ==> r.assets[j].name != expected_name(r.version)),
    ensures
        (next(s, EventModel::FeedOk { release: r }).1 == ActionModel::StatAssetFile {
            name: expected_name(r.version),
        }),
        (next(s, EventModel::FeedOk { release: r }).0.phase == PhaseModel::AwaitAssetStat {
            name: expected_name(r.version),
            url: r.assets[i].url,
        }),
{
    crate::release::lemma_first_match_spec(r.assets, expected_name(r.version));
    let fm = first_match(r.assets, expected_name(r.version));
    match fm {
        Some(k) => {
            assert(k == i) by {
                if k < i {
                    assert(r.assets[k].name != expected_name(r.version));
                } else if i < k {
                    assert(r.assets[i].name != expected_name(r.version));
                }
            }
        },
        None => {
            assert(r.assets[i].name != expected_name(r.version));
        },
    }
}

/// A release with no asset named by the template fails with the
/// asset-not-found error: no download is requested, the memoized path is
/// untouched, and the resolver returns to rest.
pub proof fn lemma_no_match_fails_without_download(s: ResolverModel, r: ReleaseModel)
    requires
        (s.phase is AwaitFeed),
        (forall|j: int| 0 <= j < r.assets.len() ==> r.assets[j].name != expected_name(r.version)),
    ensures
        (next(s, EventModel::FeedOk { release: r }).1 == ActionModel::Fail {
            error: ErrorModel::AssetNotFound { asset_name: expected_name(r.version) },
        }),
        (next(s, EventModel::FeedOk { release: r }).0.phase is Idle),
        (next(s, EventModel::FeedOk { release: r }).0.cached == s.cached),
{
    crate::release::lemma_first_match_spec(r.assets, expected_name(r.version));
    if let Some(k) = first_match(r.assets, expected_name(r.version)) {
        assert(r.assets[k].name != expected_name(r.version));
    }
}

/// No failure changes the memoized path, and every failure returns the
/// resolver to rest, ready for a fresh attempt.
pub proof fn lemma_failure_preserves_cache(s: ResolverModel, e: EventModel)
    requires
        (accepts(s.phase, e)),
        (next(s, e).1 is Fail),
    ensures
        (next(s, e).0.cached == s.cached),
        (next(s, e).0.phase is Idle),
{
}

/// The feed is asked for only when an attempt begins with no cached path,
/// or when the cached path turned out not to be a regular file: no later
/// phase of a run ever queries it again.
pub proof fn lemma_feed_query_only_on_entry(s: ResolverModel, e: EventModel)
    requires
        (accepts(s.phase, e)),
        (next(s, e).1 is QueryFeed),
    ensures
        ((s.phase is Idle && e is Start && s.cached is None) || (s.phase is AwaitCachedStat && e
            == EventModel::CachedStat { is_file: false })),
{
}

/// Every transition keeps the resolver in a state it can actually be in.
pub proof fn lemma_next_preserves_wf(s: ResolverModel, e: EventModel)
    requires
        (wf(s)),
        (accepts(s.phase, e)),
    ensures
        (wf(next(s, e).0)),
{
}

/// Every successful attempt memoizes exactly the path it returned and
/// leaves the resolver at rest.
pub proof fn lemma_complete_memoizes(s: ResolverModel, e: EventModel, p: Seq<char>)
    requires
        (wf(s)),
        (accepts(s.phase, e)),
        (next(s, e).1 == ActionModel::Complete { path: p }),
    ensures
        (next(s, e).0.cached == Some(p)),
        (next(s, e).0.phase is Idle),
{
}

/// Resolution is idempotent: after any step that completed with a path,
/// a second attempt with no intervening filesystem change (the completed
/// path still names a regular file) stats that path, returns the very
/// same path, and never queries the feed.
pub proof fn lemma_resolution_idempotent(s: ResolverModel, e: EventModel, p: Seq<char>)
    requires
        (wf(s)),
        (accepts(s.phase, e)),
        (next(s, e).1 == ActionModel::Complete { path: p }),
    ensures
        (next(next(s, e).0, EventModel::Start).1 == ActionModel::StatCachedFile { path: p }),
        (next(next(next(s, e).0, EventModel::Start).0, EventModel::CachedStat { is_file: true }).1
            == ActionModel::Complete { path: p }),
        (next(next(next(s, e).0, EventModel::Start).0, EventModel::CachedStat { is_file: true }).0
            =~= next(s, e).0),
{
    lemma_complete_memoizes(s, e, p);
    lemma_cache_hit_avoids_feed(next(s, e).0, p);
}

/// The sweep policy after a successful download: a working-directory
/// entry is removed exactly when its name differs from the asset file
/// being kept.
pub fn should_remove(entry_name: &String, keep: &String) -> (r: bool)
    ensures
        r == (entry_name@ != keep@),
{
    !(*entry_name == *keep)
}

} // verus!
