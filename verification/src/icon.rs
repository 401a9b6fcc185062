//! Icon identity and the in-memory icon cache.
//!
//! An [`IconType`] is the equivalence class under which resolved icons
//! are memoized: URL-backed targets share one icon per URL *scheme*,
//! file targets share one icon per canonical path, and explicit
//! overrides share one icon per override path.  The [`IconCache`]
//! tracks, for each key, whether its icon is still unrequested, has a
//! resolution in flight, or has been resolved; it queues at most one
//! resolution request per key for the lifetime of the cache.

use vstd::multiset::Multiset;
use vstd::pervasive::VecAdditionalExecFns;
use vstd::prelude::*;

verus! {

broadcast use vstd::multiset::group_multiset_axioms;

/// The scheme of `s` when the `url` crate accepts `s` as an absolute
/// URL, and nothing otherwise.
pub uninterp spec fn url_scheme_of(s: Seq<char>) -> Option<Seq<char>>;

/// Relies on url::Url::parse and url::Url::scheme: whether a string
/// parses as a URL, and its scheme, are functions of the string alone.
#[verifier::external_body]
pub(crate) fn parse_url_scheme(s: &str) -> (r: Option<String>)
    ensures
        match r {
            Some(scheme) => url_scheme_of(s@) == Some(scheme@),
            None => url_scheme_of(s@) is None,
        },
{
    match url::Url::parse(s) {
        Ok(u) => Some(u.scheme().to_string()),
        Err(_) => None,
    }
}

/// The identity under which an icon is cached.
pub enum IconKey {
    /// Only the scheme of a URL-backed target.
    Url(Seq<char>),
    /// The (caller-canonicalized) path of a file target.
    File(Seq<char>),
    /// The path of an explicit icon override.
    CustomIcon(Seq<char>),
}

/// The information an entry carries for icon lookup.  Two values with
/// equal views are the same cache key: URL-backed entries keep only
/// the URL scheme, so all targets of one scheme share one icon.
#[derive(Debug, Clone, PartialEq, Eq, Hash)]
pub enum IconType {
    Url(String),
    File(String),
    CustomIcon(String),
}

impl View for IconType {
    type V = IconKey;

    open spec fn view(&self) -> IconKey {
        match self {
            IconType::Url(s) => IconKey::Url(s@),
            IconType::File(s) => IconKey::File(s@),
            IconType::CustomIcon(s) => IconKey::CustomIcon(s@),
        }
    }
}

impl IconType {
    /// Key for an explicit icon override at `path`.
    pub fn custom(path: String) -> (r: IconType)
        ensures
            r@ == IconKey::CustomIcon(path@),
    {
        IconType::CustomIcon(path)
    }

    /// Key for the icon of the file at `path`.  Paths are compared
    /// verbatim, so the caller canonicalizes them first.
    pub fn file(path: String) -> (r: IconType)
        ensures
            r@ == IconKey::File(path@),
    {
        IconType::File(path)
    }

    /// Key for the icon of a URL-backed target: everything but the
    /// scheme is discarded.  Yields nothing when `url_str` is not an
    /// absolute URL.
    pub fn url(url_str: &str) -> (r: Option<IconType>)
        ensures
            match r {
                Some(it) => url_scheme_of(url_str@) matches Some(sch) && it@ == IconKey::Url(sch),
                None => url_scheme_of(url_str@) is None,
            },
    {
        match parse_url_scheme(url_str) {
            Some(scheme) => Some(IconType::Url(scheme)),
            None => None,
        }
    }

    /// Whether two values denote the same cache key.
    pub fn same_key(&self, other: &IconType) -> (r: bool)
        ensures
            r == (self@ == other@),
    {
        match (self, other) {
            (IconType::Url(a), IconType::Url(b)) => crate::strutil::str_eq(a.as_str(), b.as_str()),
            (IconType::File(a), IconType::File(b)) => crate::strutil::str_eq(
                a.as_str(),
                b.as_str(),
            ),
            (IconType::CustomIcon(a), IconType::CustomIcon(b)) => crate::strutil::str_eq(
                a.as_str(),
                b.as_str(),
            ),
            _ => false,
        }
    }

    /// A copy with the same view.
    pub fn dup(&self) -> (r: IconType)
        ensures
            r@ == self@,
    {
        match self {
            IconType::Url(s) => IconType::Url(s.clone()),
            IconType::File(s) => IconType::File(s.clone()),
            IconType::CustomIcon(s) => IconType::CustomIcon(s.clone()),
        }
    }
}

/// The abstract value of an icon: its dimensions and RGBA pixels.
pub struct IconData {
    pub width: int,
    pub height: int,
    pub pixels: Seq<u8>,
}

/// An immutable bitmap, four bytes per pixel.
#[derive(Debug, PartialEq, Eq, Hash)]
pub struct Icon {
    pub width: u32,
    pub height: u32,
    pub pixels: Vec<u8>,
}

impl View for Icon {
    type V = IconData;

    open spec fn view(&self) -> IconData {
        IconData { width: self.width as int, height: self.height as int, pixels: self.pixels@ }
    }
}

impl Icon {
    /// A copy with the same view.
    pub fn dup(&self) -> (r: Icon)
        ensures
            r@ == self@,
    {
        let mut pixels: Vec<u8> = Vec::new();
        let mut i: usize = 0;
        while i < self.pixels.len()
            invariant
                0 <= i <= self.pixels.len(),
                pixels@ == self.pixels@.take(i as int),
            decreases self.pixels.len() - i,
        {
            pixels.push(self.pixels[i]);
            proof {
                assert(pixels@ =~= self.pixels@.take(i + 1));
            }
            i += 1;
        }
        proof {
            assert(pixels@ =~= self.pixels@);
        }
        Icon { width: self.width, height: self.height, pixels }
    }
}

/// The view of the deterministic placeholder icon: a single
/// mid-grey, fully opaque pixel.
pub open spec fn fallback_icon_data() -> IconData {
    IconData { width: 1, height: 1, pixels: seq![127u8, 127u8, 127u8, 255u8] }
}

/// The deterministic placeholder shown until (or instead of) a real
/// icon: the platform resolver substitutes it on any internal failure,
/// so icon resolution is infallible as seen from the cache.
pub fn fallback_icon() -> (r: Icon)
    ensures
        r@ == fallback_icon_data(),
{
    let mut pixels: Vec<u8> = Vec::new();
    pixels.push(127);
    pixels.push(127);
    pixels.push(127);
    pixels.push(255);
    proof {
        assert(pixels@ =~= seq![127u8, 127u8, 127u8, 255u8]);
    }
    Icon { width: 1, height: 1, pixels }
}

/// The observable resolution state of one cache key.
pub enum CacheState {
    /// The key was never asked for.
    Unrequested,
    /// The key was asked for and its resolution may be in flight.
    Pending,
    /// The key's icon arrived; this state is terminal.
    Resolved(IconData),
}

/// State lookup over the cache's backing sequence: the first entry
/// with the key decides, and absence means the key was never
/// requested.
pub open spec fn find_state(s: Seq<(IconType, Option<Icon>)>, k: IconKey) -> CacheState
    decreases s.len(),
{
    if s.len() == 0 {
        CacheState::Unrequested
    } else if s[0].0@ == k {
        match s[0].1 {
            Option::None => CacheState::Pending,
            Option::Some(i) => CacheState::Resolved(i@),
        }
    } else {
        find_state(s.drop_first(), k)
    }
}

proof fn lemma_find_state_skip(s: Seq<(IconType, Option<Icon>)>, k: IconKey, j: int)
    requires
        0 <= j <= s.len(),
        forall|i: int| 0 <= i < j ==> s[i].0@ != k,
    ensures
        find_state(s, k) == find_state(s.skip(j), k),
    decreases j,
{
    if j == 0 {
        assert(s.skip(0) =~= s);
    } else {
        assert(s.drop_first().skip(j - 1) =~= s.skip(j));
        lemma_find_state_skip(s.drop_first(), k, j - 1);
    }
}

proof fn lemma_find_state_found(s: Seq<(IconType, Option<Icon>)>, k: IconKey, j: int)
    requires
        0 <= j < s.len(),
        forall|i: int| 0 <= i < j ==> s[i].0@ != k,
        s[j].0@ == k,
    ensures
        find_state(s, k) == match s[j].1 {
            Option::None => CacheState::Pending,
            Option::Some(i) => CacheState::Resolved(i@),
        },
    decreases j,
{
    if j > 0 {
        lemma_find_state_found(s.drop_first(), k, j - 1);
    }
}

proof fn lemma_find_state_update(
    s: Seq<(IconType, Option<Icon>)>,
    j: int,
    e: (IconType, Option<Icon>),
    k: IconKey,
)
    requires
        0 <= j < s.len(),
        s[j].0@ == e.0@,
        k != e.0@,
    ensures
        find_state(s.update(j, e), k) == find_state(s, k),
    decreases j,
{
    if j == 0 {
        assert(s.update(0, e).drop_first() =~= s.drop_first());
    } else {
        assert(s.update(j, e).drop_first() =~= s.drop_first().update(j - 1, e));
        lemma_find_state_update(s.drop_first(), j - 1, e, k);
    }
}

proof fn lemma_find_state_push(s: Seq<(IconType, Option<Icon>)>, e: (IconType, Option<Icon>), k: IconKey)
    requires
        forall|i: int| 0 <= i < s.len() ==> s[i].0@ != e.0@,
    ensures
        find_state(s.push(e), e.0@) == match e.1 {
            Option::None => CacheState::Pending,
            Option::Some(i) => CacheState::Resolved(i@),
        },
        k != e.0@ ==> find_state(s.push(e), k) == find_state(s, k),
    decreases s.len(),
{
    if s.len() == 0 {
        assert(s.push(e)[0] == e);
        assert(s.push(e).drop_first() =~= Seq::<(IconType, Option<Icon>)>::empty());
        if k != e.0@ {
            assert(s.push(e)[0].0@ != k);
            assert(find_state(s.push(e), k) == find_state(s.push(e).drop_first(), k));
            assert(find_state(s.push(e), k) is Unrequested);
            assert(find_state(s, k) is Unrequested);
        }
    } else {
        assert(s.push(e)[0] == s[0]);
        assert(s.push(e).drop_first() =~= s.drop_first().push(e));
        lemma_find_state_push(s.drop_first(), e, k);
        if k != e.0@ {
            if s[0].0@ == k {
                assert(find_state(s.push(e), k) == find_state(s, k));
            } else {
                assert(find_state(s.push(e), k) == find_state(s.drop_first().push(e), k));
                assert(find_state(s, k) == find_state(s.drop_first(), k));
            }
        }
    }
}

proof fn lemma_unrequested_no_key(s: Seq<(IconType, Option<Icon>)>, k: IconKey)
    requires
        find_state(s, k) is Unrequested,
    ensures
        forall|i: int| 0 <= i < s.len() ==> s[i].0@ != k,
    decreases s.len(),
{
    if s.len() > 0 {
        lemma_unrequested_no_key(s.drop_first(), k);
        assert forall|i: int| 0 <= i < s.len() implies s[i].0@ != k by {
            if i > 0 {
                assert(s.drop_first()[i - 1] == s[i]);
            }
        }
    }
}

/// Index of the entry for `key`, if the key is in the table.
fn find_index(entries: &Vec<(IconType, Option<Icon>)>, key: &IconType) -> (r: Option<usize>)
    ensures
        match r {
            Some(i) => i < entries@.len() && entries@[i as int].0@ == key@ && find_state(
                entries@,
                key@,
            ) == (match entries@[i as int].1 {
                Option::None => CacheState::Pending,
                Option::Some(ic) => CacheState::Resolved(ic@),
            }),
            None => find_state(entries@, key@) is Unrequested,
        },
{
    let n = entries.len();
    let mut i: usize = 0;
    while i < n
        invariant
            n == entries@.len(),
            0 <= i <= n,
            forall|j: int| 0 <= j < i ==> entries@[j].0@ != key@,
        decreases n - i,
    {
        if entries[i].0.same_key(key) {
            proof {
                lemma_find_state_found(entries@, key@, i as int);
            }
            return Some(i);
        }
        i += 1;
    }
    proof {
        lemma_find_state_skip(entries@, key@, n as int);
        assert(entries@.skip(n as int) =~= Seq::<(IconType, Option<Icon>)>::empty());
    }
    None
}

/// The caller-side icon table.  It is owned and mutated by a single
/// control thread; a background worker only ever receives the keys
/// queued here and reports icons back through the caller, which
/// applies them with [`IconCache::add_icon`].
pub struct IconCache {
    entries: Vec<(IconType, Option<Icon>)>,
    worker: bool,
    outbox: Vec<IconType>,
    requested: Ghost<Multiset<IconKey>>,
}

impl IconCache {
    /// The resolution state of key `k`.
    pub closed spec fn state_of(&self, k: IconKey) -> CacheState {
        find_state(self.entries@, k)
    }

    /// Whether a worker command channel has been registered.
    pub closed spec fn worker_registered(&self) -> bool {
        self.worker
    }

    /// Every resolution request this cache ever queued, one occurrence
    /// per queued `LoadIcon` message.
    pub closed spec fn requested(&self) -> Multiset<IconKey> {
        self.requested@
    }

    /// The queued requests not yet handed to the worker channel.
    pub closed spec fn outbox_view(&self) -> Seq<IconKey> {
        Seq::new(self.outbox@.len(), |i: int| self.outbox@[i]@)
    }

    /// Internal consistency: each key appears at most once in the
    /// table, and at most one request was ever queued per key --
    /// a request is queued only when its key enters the table.
    pub closed spec fn wf(&self) -> bool {
        &&& forall|i: int, j: int|
            0 <= i < j < self.entries@.len() ==> self.entries@[i].0@ != self.entries@[j].0@
        &&& forall|k: IconKey| #[trigger] self.requested@.count(k) <= 1
        &&& forall|k: IconKey|
            #[trigger] self.requested@.count(k) == 1 ==> !(self.state_of(k) is Unrequested)
    }

    /// An empty cache: every key unrequested, no worker registered.
    pub fn new() -> (r: IconCache)
        ensures
            r.wf(),
            !r.worker_registered(),
            forall|k: IconKey| r.state_of(k) is Unrequested,
            r.requested() == Multiset::<IconKey>::empty(),
            r.outbox_view() == Seq::<IconKey>::empty(),
    {
        let r = IconCache {
            entries: Vec::new(),
            worker: false,
            outbox: Vec::new(),
            requested: Ghost(Multiset::empty()),
        };
        proof {
            assert(r.outbox_view() =~= Seq::<IconKey>::empty());
        }
        r
    }

    /// Marks the worker command channel as registered: from now on a
    /// first lookup of a key queues a resolution request for it.
    pub fn register_worker(&mut self)
        requires
            old(self).wf(),
        ensures
            final(self).wf(),
            final(self).worker_registered(),
            forall|k: IconKey| final(self).state_of(k) == old(self).state_of(k),
            final(self).requested() == old(self).requested(),
            final(self).outbox_view() == old(self).outbox_view(),
    {
        self.worker = true;
    }

    /// Looks up the icon for `key`.
    ///
    /// A resolved key yields its icon.  A pending key yields nothing
    /// and -- the deduplication invariant -- queues no further
    /// request.  An absent key becomes pending and, when a worker is
    /// registered, exactly one request for it is queued; without a
    /// worker it stays pending with no request.
    pub fn get(&mut self, key: &IconType) -> (r: Option<Icon>)
        requires
            old(self).wf(),
        ensures
            final(self).wf(),
            final(self).worker_registered() == old(self).worker_registered(),
            match old(self).state_of(key@) {
                CacheState::Resolved(ic) => {
                    &&& r matches Some(i) && i@ == ic
                    &&& forall|k: IconKey| final(self).state_of(k) == old(self).state_of(k)
                    &&& final(self).requested() == old(self).requested()
                    &&& final(self).outbox_view() == old(self).outbox_view()
                },
                CacheState::Pending => {
                    &&& r is None
                    &&& forall|k: IconKey| final(self).state_of(k) == old(self).state_of(k)
                    &&& final(self).requested() == old(self).requested()
                    &&& final(self).outbox_view() == old(self).outbox_view()
                },
                CacheState::Unrequested => {
                    &&& r is None
                    &&& final(self).state_of(key@) is Pending
                    &&& forall|k: IconKey|
                        k != key@ ==> final(self).state_of(k) == old(self).state_of(k)
                    &&& if old(self).worker_registered() {
                        final(self).requested() == old(self).requested().insert(key@)
                            && final(self).requested().count(key@) == 1
                            && final(self).outbox_view() == old(self).outbox_view().push(key@)
                    } else {
                        final(self).requested() == old(self).requested() && final(self).outbox_view()
                            == old(self).outbox_view()
                    }
                },
            },
    {
        if let Some(i) = find_index(&self.entries, key) {
            return match &self.entries[i].1 {
                Some(icon) => Some(icon.dup()),
                None => None,
            };
        }
        let ghost pre = self.entries@;
        proof {
            lemma_unrequested_no_key(pre, key@);
        }
        self.entries.push((key.dup(), None));
        proof {
            assert forall|k: IconKey| true implies find_state(self.entries@, k) == (if k == key@ {
                CacheState::Pending
            } else {
                find_state(pre, k)
            }) by {
                lemma_find_state_push(pre, (self.entries@[pre.len() as int].0, None), k);
                assert(self.entries@ =~= pre.push((self.entries@[pre.len() as int].0, None)));
            }
        }
        if self.worker {
            let ghost pre_out = self.outbox_view();
            self.outbox.push(key.dup());
            proof {
                self.requested@ = self.requested@.insert(key@);
                assert(self.outbox_view() =~= pre_out.push(key@));
            }
        }
        None
    }

    /// Records the icon resolved for `it`, whatever state the key was
    /// in: applying the same result twice is harmless, and the
    /// resolved state is terminal.
    pub fn add_icon(&mut self, it: IconType, i: Icon)
        requires
            old(self).wf(),
        ensures
            final(self).wf(),
            final(self).worker_registered() == old(self).worker_registered(),
            final(self).state_of(it@) == CacheState::Resolved(i@),
            forall|k: IconKey| k != it@ ==> final(self).state_of(k) == old(self).state_of(k),
            final(self).requested() == old(self).requested(),
            final(self).outbox_view() == old(self).outbox_view(),
    {
        if let Some(idx) = find_index(&self.entries, &it) {
            let ghost pre = self.entries@;
            let ghost k0 = it@;
            self.entries.set(idx, (it, Some(i)));
            proof {
                lemma_find_state_found(self.entries@, k0, idx as int);
                assert forall|k: IconKey| k != k0 implies find_state(self.entries@, k)
                    == find_state(pre, k) by {
                    lemma_find_state_update(pre, idx as int, self.entries@[idx as int], k);
                    assert(self.entries@ =~= pre.update(idx as int, self.entries@[idx as int]));
                }
            }
            return ;
        }
        let ghost pre = self.entries@;
        let ghost k0 = it@;
        proof {
            lemma_unrequested_no_key(pre, k0);
        }
        self.entries.push((it, Some(i)));
        proof {
            assert forall|k: IconKey| true implies find_state(self.entries@, k) == (if k == k0 {
                CacheState::Resolved(self.entries@[pre.len() as int].1->Some_0@)
            } else {
                find_state(pre, k)
            }) by {
                lemma_find_state_push(pre, self.entries@[pre.len() as int], k);
                assert(self.entries@ =~= pre.push(self.entries@[pre.len() as int]));
            }
        }
    }

    /// Hands over the queued resolution requests, in the order they
    /// were queued, leaving the queue empty.  The driver sends each as
    /// one `LoadIcon` command to the worker.
    pub fn take_requests(&mut self) -> (r: Vec<IconType>)
        requires
            old(self).wf(),
        ensures
            final(self).wf(),
            final(self).worker_registered() == old(self).worker_registered(),
            forall|k: IconKey| final(self).state_of(k) == old(self).state_of(k),
            final(self).requested() == old(self).requested(),
            Seq::new(r@.len(), |i: int| r@[i]@) == old(self).outbox_view(),
            final(self).outbox_view() == Seq::<IconKey>::empty(),
    {
        let mut r: Vec<IconType> = Vec::new();
        core::mem::swap(&mut r, &mut self.outbox);
        proof {
            assert(Seq::new(r@.len(), |i: int| r@[i]@) =~= old(self).outbox_view());
            assert(self.outbox_view() =~= Seq::<IconKey>::empty());
        }
        r
    }
}

/// For any key, however often it is looked up and in whatever order
/// results arrive, a well-formed cache has queued at most one
/// resolution request for it.
pub proof fn lemma_at_most_one_request_per_key(cache: &IconCache, k: IconKey)
    requires
        cache.wf(),
    ensures
        cache.requested().count(k) <= 1,
{
}

/// URL-backed keys are one equivalence class per URL scheme: two of
/// them are the same cache key exactly when their schemes agree,
/// whatever the rest of either URL was.
pub proof fn lemma_url_key_equivalence(k1: &IconType, k2: &IconType, s1: Seq<char>, s2: Seq<char>)
    requires
        k1@ == IconKey::Url(s1),
        k2@ == IconKey::Url(s2),
    ensures
        (k1@ == k2@) <==> (s1 == s2),
{
}

/// File keys are one equivalence class per stored (canonical) path:
/// two of them are the same cache key exactly when those paths
/// agree, however the paths were originally spelled before the
/// caller canonicalized them.
pub proof fn lemma_file_key_equivalence(k1: &IconType, k2: &IconType, p1: Seq<char>, p2: Seq<char>)
    requires
        k1@ == IconKey::File(p1),
        k2@ == IconKey::File(p2),
    ensures
        (k1@ == k2@) <==> (p1 == p2),
{
}

/// The abstract value of the worker's platform configuration.
pub struct IconSettingsData {
    pub theme: Seq<char>,
    pub xdg_folder: Option<Seq<char>>,
}

/// Platform configuration the resolver needs: the icon theme to look
/// up, and an optional override of the desktop data directory.
#[derive(Debug, Clone, PartialEq, Eq)]
pub struct IconSettings {
    pub theme: String,
    pub xdg_folder: Option<String>,
}

impl View for IconSettings {
    type V = IconSettingsData;

    open spec fn view(&self) -> IconSettingsData {
        IconSettingsData {
            theme: self.theme@,
            xdg_folder: match &self.xdg_folder {
                Option::Some(s) => Option::Some(s@),
                Option::None => Option::None,
            },
        }
    }
}

/// A command for the background resolution worker.
#[derive(Debug, Clone, PartialEq)]
pub enum IconCommand {
    /// Must come first: the platform configuration to resolve with.
    LoadSettings(IconSettings),
    /// Resolve the icon for one key.
    LoadIcon(IconType),
}

/// What the worker observed on its command channel.
#[derive(Debug, Clone, PartialEq)]
pub enum WorkerEvent {
    Command(IconCommand),
    /// The sending side was dropped.
    Disconnected,
}

/// The worker's protocol phase.
#[derive(Debug, Clone, PartialEq)]
pub enum WorkerState {
    /// Started, and still waiting for the one `LoadSettings` command.
    AwaitingSettings,
    /// Configured: `LoadIcon` commands are served.
    Ready(IconSettings),
    /// Terminated; no further command is processed.
    Stopped,
}

/// What the worker loop does next.
#[derive(Debug, Clone, PartialEq)]
pub enum WorkerAction {
    /// Settings stored; keep receiving.
    Configured,
    /// Resolve this key and report its icon back, then keep
    /// receiving.
    Resolve(IconType),
    /// Leave the loop.
    Stop,
}

/// One step of the worker protocol: the first command must be
/// `LoadSettings`; afterwards each `LoadIcon` is resolved and
/// reported back, and any other command -- or a closed channel --
/// terminates the worker cleanly.
pub fn worker_step(state: WorkerState, event: WorkerEvent) -> (r: (WorkerState, WorkerAction))
    ensures
        match state {
            WorkerState::AwaitingSettings => match event {
                WorkerEvent::Command(IconCommand::LoadSettings(s)) => r.0 matches WorkerState::Ready(s2)
                    && s2@ == s@ && r.1 is Configured,
                _ => r.0 is Stopped && r.1 is Stop,
            },
            WorkerState::Ready(s) => match event {
                WorkerEvent::Command(IconCommand::LoadIcon(k)) => r.0 matches WorkerState::Ready(s2)
                    && s2@ == s@ && (r.1 matches WorkerAction::Resolve(k2) && k2@ == k@),
                _ => r.0 is Stopped && r.1 is Stop,
            },
            WorkerState::Stopped => r.0 is Stopped && r.1 is Stop,
        },
{
    match (state, event) {
        (WorkerState::AwaitingSettings, WorkerEvent::Command(IconCommand::LoadSettings(s))) => (
            WorkerState::Ready(s),
            WorkerAction::Configured,
        ),
        (WorkerState::Ready(s), WorkerEvent::Command(IconCommand::LoadIcon(k))) => (
            WorkerState::Ready(s),
            WorkerAction::Resolve(k),
        ),
        _ => (WorkerState::Stopped, WorkerAction::Stop),
    }
}

} // verus!
