//! The status cache: for each stack the state last fetched from its
//! server, and the one fetched before that.

use vstd::prelude::*;
use crate::registry::StringMap;
use crate::text::same_text;

verus! {

/// The lifecycle state of a stack as its server reports it.
#[derive(Clone, Copy, Debug, PartialEq, Eq, Structural)]
pub enum StackState {
    Deploying,
    Running,
    Paused,
    Stopped,
    Created,
    Restarting,
    Dead,
    Removing,
    Unhealthy,
    Down,
    Unknown,
}

/// One reading of a stack: its state and the names of its services.
#[derive(Clone, Debug, PartialEq, Eq)]
pub struct StackStatus {
    pub state: StackState,
    pub services: Vec<String>,
}

/// A reading as a mathematical value.
pub struct StatusView {
    pub state: StackState,
    pub services: Seq<Seq<char>>,
}

/// The two latest readings of a stack. `previous` is absent until the
/// stack has been read twice.
#[derive(Clone, Debug, PartialEq, Eq)]
pub struct Snapshot {
    pub previous: Option<StackStatus>,
    pub curr: StackStatus,
}

/// A snapshot as a mathematical value.
pub struct SnapshotView {
    pub previous: Option<StatusView>,
    pub curr: StatusView,
}

/// A reading that was just fetched, with the id of the stack it is of.
#[derive(Clone, Debug, PartialEq, Eq)]
pub struct FetchedStatus {
    pub stack_id: String,
    pub status: StackStatus,
}

/// The views of a sequence of strings.
pub open spec fn text_views(texts: Seq<String>) -> Seq<Seq<char>> {
    texts.map_values(|text: String| text@)
}

impl View for StackStatus {
    type V = StatusView;

    open spec fn view(&self) -> StatusView {
        StatusView { state: self.state, services: text_views(self.services@) }
    }
}

impl View for Snapshot {
    type V = SnapshotView;

    open spec fn view(&self) -> SnapshotView {
        SnapshotView {
            previous: match self.previous {
                Some(status) => Some(status@),
                None => None,
            },
            curr: self.curr@,
        }
    }
}

/// The reading assumed of a stack that was never read.
pub open spec fn unknown_status() -> StatusView {
    StatusView { state: StackState::Unknown, services: Seq::empty() }
}

/// The snapshot assumed of a stack that has no entry.
pub open spec fn default_snapshot() -> SnapshotView {
    SnapshotView { previous: None, curr: unknown_status() }
}

/// A copy of a list of strings.
pub fn duplicate_texts(texts: &Vec<String>) -> (copy: Vec<String>)
    ensures
        text_views(copy@) == text_views(texts@),
{
    let mut copy: Vec<String> = Vec::new();
    let mut i: usize = 0;
    while i < texts.len()
        invariant
            i <= texts@.len(),
            copy@.len() == i,
            forall|k: int| 0 <= k < i ==> (#[trigger] copy@[k])@ == texts@[k]@,
        decreases texts@.len() - i,
    {
        copy.push(texts[i].clone());
        i += 1;
    }
    assert(text_views(copy@) =~= text_views(texts@));
    copy
}

impl StackStatus {
    /// The reading assumed of a stack that was never read: state
    /// `Unknown`, no services.
    pub fn unknown() -> (status: StackStatus)
        ensures
            status@ == unknown_status(),
    {
        let status = StackStatus { state: StackState::Unknown, services: Vec::new() };
        assert(status@.services =~= Seq::empty());
        status
    }

    /// A copy of the reading.
    pub fn duplicate(&self) -> (copy: StackStatus)
        ensures
            copy@ == self@,
    {
        StackStatus { state: self.state, services: duplicate_texts(&self.services) }
    }
}

impl Snapshot {
    /// The snapshot assumed of a stack that has no entry.
    pub fn unknown() -> (snapshot: Snapshot)
        ensures
            snapshot@ == default_snapshot(),
    {
        Snapshot { previous: None, curr: StackStatus::unknown() }
    }

    /// A copy of the snapshot.
    pub fn duplicate(&self) -> (copy: Snapshot)
        ensures
            copy@ == self@,
    {
        let previous = match &self.previous {
            Some(status) => Some(status.duplicate()),
            None => None,
        };
        Snapshot { previous, curr: self.curr.duplicate() }
    }
}

/// What was current of a stack before a refresh; absent for a stack
/// without an entry.
pub open spec fn prior(cache: Map<Seq<char>, SnapshotView>, id: Seq<char>) -> Option<StatusView> {
    if cache.contains_key(id) {
        Some(cache[id].curr)
    } else {
        None
    }
}

/// The reading a fetch holds of the stack `id`: the last one, where the
/// fetch lists the stack more than once.
pub open spec fn last_reading(fetched: Seq<(Seq<char>, StatusView)>, id: Seq<char>) -> Option<
    StatusView,
>
    decreases fetched.len(),
{
    if fetched.len() == 0 {
        None
    } else if fetched.last().0 == id {
        Some(fetched.last().1)
    } else {
        last_reading(fetched.drop_last(), id)
    }
}

/// The views of a sequence of fetched readings.
pub open spec fn fetched_views(fetched: Seq<FetchedStatus>) -> Seq<(Seq<char>, StatusView)> {
    fetched.map_values(|item: FetchedStatus| (item.stack_id@, item.status@))
}

/// Whether a stack has an entry that says it lives on the server.
pub open spec fn resident(
    cache: Map<Seq<char>, SnapshotView>,
    servers: Map<Seq<char>, Seq<char>>,
    server_id: Seq<char>,
    id: Seq<char>,
) -> bool {
    cache.contains_key(id) && servers.contains_key(id) && servers[id] == server_id
}

/// Whether a refresh for the server replaces the snapshot of the stack:
/// it does for every stack the fetch reads and for every stack resident
/// on the server.
pub open spec fn replaced(
    cache: Map<Seq<char>, SnapshotView>,
    servers: Map<Seq<char>, Seq<char>>,
    server_id: Seq<char>,
    fetched: Seq<(Seq<char>, StatusView)>,
    id: Seq<char>,
) -> bool {
    last_reading(fetched, id) is Some || resident(cache, servers, server_id, id)
}

/// The snapshot of a stack after a refresh. A snapshot that is replaced is
/// replaced whole: what was current before the refresh becomes previous,
/// and the fetched reading becomes current, or the unknown reading for a
/// resident stack that the fetch does not mention.
pub open spec fn refreshed_snapshot(
    cache: Map<Seq<char>, SnapshotView>,
    servers: Map<Seq<char>, Seq<char>>,
    server_id: Seq<char>,
    fetched: Seq<(Seq<char>, StatusView)>,
    id: Seq<char>,
) -> SnapshotView {
    if replaced(cache, servers, server_id, fetched, id) {
        SnapshotView {
            previous: prior(cache, id),
            curr: match last_reading(fetched, id) {
                Some(status) => status,
                None => unknown_status(),
            },
        }
    } else {
        cache[id]
    }
}

/// The cache after the readings fetched from a server came in.
pub open spec fn refreshed(
    cache: Map<Seq<char>, SnapshotView>,
    servers: Map<Seq<char>, Seq<char>>,
    server_id: Seq<char>,
    fetched: Seq<(Seq<char>, StatusView)>,
) -> Map<Seq<char>, SnapshotView> {
    Map::new(
        |id: Seq<char>| cache.contains_key(id) || last_reading(fetched, id) is Some,
        |id: Seq<char>| refreshed_snapshot(cache, servers, server_id, fetched, id),
    )
}

/// The server of each stack after the readings fetched from a server came
/// in: a stack the fetch reads lives on that server.
pub open spec fn servers_after(
    servers: Map<Seq<char>, Seq<char>>,
    server_id: Seq<char>,
    fetched: Seq<(Seq<char>, StatusView)>,
) -> Map<Seq<char>, Seq<char>> {
    Map::new(
        |id: Seq<char>| servers.contains_key(id) || last_reading(fetched, id) is Some,
        |id: Seq<char>|
            if last_reading(fetched, id) is Some {
                server_id
            } else {
                servers[id]
            },
    )
}

/// The snapshot of `id`, or the default one where the stack has no entry.
pub open spec fn snapshot_of(cache: Map<Seq<char>, SnapshotView>, id: Seq<char>) -> SnapshotView {
    if cache.contains_key(id) {
        cache[id]
    } else {
        default_snapshot()
    }
}

/// Whether `fetched` holds a reading of the stack `id`.
pub open spec fn read_in(fetched: Seq<(Seq<char>, StatusView)>, id: Seq<char>) -> bool {
    exists|k: int| 0 <= k < fetched.len() && (#[trigger] fetched[k]).0 == id
}

/// A fetch holds a last reading of exactly the stacks it reads, and that
/// reading is one of the fetch.
pub proof fn lemma_last_reading(fetched: Seq<(Seq<char>, StatusView)>, id: Seq<char>)
    ensures
        last_reading(fetched, id) is Some <==> read_in(fetched, id),
        last_reading(fetched, id) matches Some(status) ==> exists|k: int|
            0 <= k < fetched.len() && #[trigger] fetched[k] == (id, status),
    decreases fetched.len(),
{
    if fetched.len() > 0 {
        let front = fetched.drop_last();
        lemma_last_reading(front, id);
        if fetched.last().0 == id {
            assert(fetched[fetched.len() - 1] == (id, fetched.last().1));
        } else {
            if read_in(fetched, id) {
                let k = choose|k: int| 0 <= k < fetched.len() && (#[trigger] fetched[k]).0 == id;
                assert(front[k].0 == id);
            }
            if read_in(front, id) {
                let k = choose|k: int| 0 <= k < front.len() && (#[trigger] front[k]).0 == id;
                assert(fetched[k].0 == id);
            }
            if last_reading(front, id) is Some {
                let status = last_reading(front, id)->Some_0;
                let k = choose|k: int| 0 <= k < front.len() && #[trigger] front[k] == (id, status);
                assert(fetched[k] == (id, status));
            }
        }
    }
}

/// A refresh replaces snapshots whole, and `previous` lags `curr` by one
/// refresh. After a refresh for a server, every stack that the fetch
/// reads or that is resident on the server has as `previous` what was its
/// `curr` before the refresh (absent if it had no entry), never a reading
/// of the same fetch, and as `curr` a reading of this fetch, or the
/// unknown reading where the fetch does not mention it. Every other stack
/// keeps its snapshot, or stays without one.
pub proof fn law_refresh_shifts_snapshots(
    cache: Map<Seq<char>, SnapshotView>,
    servers: Map<Seq<char>, Seq<char>>,
    server_id: Seq<char>,
    fetched: Seq<(Seq<char>, StatusView)>,
    id: Seq<char>,
)
    ensures
        ({
            let after = refreshed(cache, servers, server_id, fetched);
            &&& replaced(cache, servers, server_id, fetched, id) ==> {
                &&& after.contains_key(id)
                &&& after[id].previous == prior(cache, id)
                &&& read_in(fetched, id) ==> exists|k: int|
                    0 <= k < fetched.len() && #[trigger] fetched[k] == (id, after[id].curr)
                &&& !read_in(fetched, id) ==> after[id].curr == unknown_status()
            }
            &&& !replaced(cache, servers, server_id, fetched, id) ==> {
                &&& after.contains_key(id) == cache.contains_key(id)
                &&& cache.contains_key(id) ==> after[id] == cache[id]
            }
        }),
{
    lemma_last_reading(fetched, id);
}

/// A second refresh moves the first refresh's readings to `previous`:
/// for a stack that both fetches read, `previous` is the reading of the
/// first fetch and `curr` the reading of the second.
pub proof fn law_previous_is_the_reading_before(
    cache: Map<Seq<char>, SnapshotView>,
    servers: Map<Seq<char>, Seq<char>>,
    server_id: Seq<char>,
    first: Seq<(Seq<char>, StatusView)>,
    second: Seq<(Seq<char>, StatusView)>,
    id: Seq<char>,
)
    requires
        read_in(first, id),
        read_in(second, id),
    ensures
        ({
            let once = refreshed(cache, servers, server_id, first);
            let twice = refreshed(once, servers_after(servers, server_id, first), server_id, second);
            &&& twice[id].previous == last_reading(first, id)
            &&& Some(twice[id].curr) == last_reading(second, id)
        }),
{
    lemma_last_reading(first, id);
    lemma_last_reading(second, id);
}

/// What the cache holds of one stack.
struct CacheEntry {
    server_id: String,
    snapshot: Snapshot,
}

/// The status cache, keyed by stack id. Each entry knows the server the
/// stack was last read on.
pub struct StatusCache {
    entries: StringMap<CacheEntry>,
}

impl View for StatusCache {
    type V = Map<Seq<char>, SnapshotView>;

    closed spec fn view(&self) -> Map<Seq<char>, SnapshotView> {
        Map::new(
            |id: Seq<char>| self.entries@.contains_key(id),
            |id: Seq<char>| self.entries@[id].snapshot@,
        )
    }
}

/// Finds the reading a fetch holds of a stack.
pub fn find_last_reading(fetched: &Vec<FetchedStatus>, id: &str) -> (found: Option<StackStatus>)
    ensures
        match found {
            Some(status) => last_reading(fetched_views(fetched@), id@) == Some(status@),
            None => last_reading(fetched_views(fetched@), id@) is None,
        },
{
    let ghost views = fetched_views(fetched@);
    let mut i: usize = fetched.len();
    assert(views.subrange(0, i as int) =~= views);
    while i > 0
        invariant
            i <= fetched@.len(),
            views == fetched_views(fetched@),
            last_reading(views, id@) == last_reading(views.subrange(0, i as int), id@),
        decreases i,
    {
        i -= 1;
        proof {
            assert(views.subrange(0, i + 1).drop_last() =~= views.subrange(0, i as int));
            assert(views.subrange(0, i + 1).last() == (
                fetched@[i as int].stack_id@,
                fetched@[i as int].status@,
            ));
        }
        if same_text(fetched[i].stack_id.as_str(), id) {
            return Some(fetched[i].status.duplicate());
        }
    }
    None
}

impl StatusCache {
    /// No stack has two entries.
    pub closed spec fn wf(&self) -> bool {
        self.entries.wf()
    }

    /// The server each stack was last read on.
    pub closed spec fn servers(&self) -> Map<Seq<char>, Seq<char>> {
        Map::new(
            |id: Seq<char>| self.entries@.contains_key(id),
            |id: Seq<char>| self.entries@[id].server_id@,
        )
    }

    /// A stack has a server exactly when it has a snapshot.
    pub proof fn lemma_servers_known(&self, id: Seq<char>)
        ensures
            self.servers().contains_key(id) == self@.contains_key(id),
    {
    }

    /// An empty cache.
    pub fn new() -> (cache: Self)
        ensures
            cache.wf(),
            cache@ == Map::<Seq<char>, SnapshotView>::empty(),
            cache.servers() == Map::<Seq<char>, Seq<char>>::empty(),
    {
        let cache = StatusCache { entries: StringMap::new() };
        assert(cache@ =~= Map::<Seq<char>, SnapshotView>::empty());
        assert(cache.servers() =~= Map::<Seq<char>, Seq<char>>::empty());
        cache
    }

    /// The snapshot of a stack, if it has an entry.
    pub fn get(&self, id: &str) -> (found: Option<Snapshot>)
        requires
            self.wf(),
        ensures
            match found {
                Some(snapshot) => self@.contains_key(id@) && snapshot@ == self@[id@],
                None => !self@.contains_key(id@),
            },
    {
        match self.entries.get(id) {
            Some(entry) => Some(entry.snapshot.duplicate()),
            None => None,
        }
    }

    /// The snapshot of a stack; the default one, with state `Unknown` and
    /// no services, where it has no entry.
    pub fn get_or_default(&self, id: &str) -> (snapshot: Snapshot)
        requires
            self.wf(),
        ensures
            snapshot@ == snapshot_of(self@, id@),
    {
        match self.entries.get(id) {
            Some(entry) => entry.snapshot.duplicate(),
            None => Snapshot::unknown(),
        }
    }

    /// The current state of a stack; `Unknown` where it has no entry.
    pub fn state(&self, id: &str) -> (state: StackState)
        requires
            self.wf(),
        ensures
            state == snapshot_of(self@, id@).curr.state,
    {
        match self.entries.get(id) {
            Some(entry) => entry.snapshot.curr.state,
            None => StackState::Unknown,
        }
    }

    /// The server a stack was last read on, if it has an entry.
    pub fn server_of(&self, id: &str) -> (found: Option<String>)
        requires
            self.wf(),
        ensures
            match found {
                Some(server_id) => self.servers().contains_key(id@) && server_id@
                    == self.servers()[id@],
                None => !self.servers().contains_key(id@),
            },
    {
        match self.entries.get(id) {
            Some(entry) => Some(entry.server_id.clone()),
            None => None,
        }
    }

    /// Whether `entry` is what a refresh leaves of the stack `id`.
    closed spec fn refreshed_entry(
        entry: CacheEntry,
        cache: Map<Seq<char>, SnapshotView>,
        servers: Map<Seq<char>, Seq<char>>,
        server_id: Seq<char>,
        fetched: Seq<(Seq<char>, StatusView)>,
        id: Seq<char>,
    ) -> bool {
        &&& entry.snapshot@ == refreshed_snapshot(cache, servers, server_id, fetched, id)
        &&& entry.server_id@ == servers_after(servers, server_id, fetched)[id]
    }

    /// Takes in the readings fetched from one server. The snapshot of
    /// every stack that the fetch reads, and of every stack resident on
    /// the server, is replaced whole; the cache changes in one step, once
    /// every new snapshot is made.
    pub fn refresh(&mut self, server_id: &str, fetched: &Vec<FetchedStatus>)
        requires
            old(self).wf(),
        ensures
            final(self).wf(),
            final(self)@ == refreshed(
                old(self)@,
                old(self).servers(),
                server_id@,
                fetched_views(fetched@),
            ),
            final(self).servers() == servers_after(
                old(self).servers(),
                server_id@,
                fetched_views(fetched@),
            ),
    {
        let ghost cache = self@;
        let ghost servers = self.servers();
        let ghost views = fetched_views(fetched@);
        let mut next: StringMap<CacheEntry> = StringMap::new();
        let n = self.entries.len();
        let mut j: usize = 0;
        proof {
            self.entries.lemma_keys();
        }
        while j < n
            invariant
                j <= n,
                n == self.entries.count(),
                self.entries.wf(),
                cache == self@,
                servers == self.servers(),
                views == fetched_views(fetched@),
                next.wf(),
                forall|id: Seq<char>|
                    next@.contains_key(id) <==> exists|k: int|
                        0 <= k < j && #[trigger] self.entries.key_at(k) == id,
                forall|id: Seq<char>| #[trigger]
                    next@.contains_key(id) ==> Self::refreshed_entry(
                        next@[id],
                        cache,
                        servers,
                        server_id@,
                        views,
                        id,
                    ),
            decreases n - j,
        {
            let (key, entry) = self.entries.entry(j);
            let ghost id = key@;
            let ghost held = next@;
            let previous = Some(entry.snapshot.curr.duplicate());
            let made = match find_last_reading(fetched, key.as_str()) {
                Some(status) => CacheEntry {
                    server_id: server_id.to_owned(),
                    snapshot: Snapshot { previous, curr: status },
                },
                None => {
                    if same_text(entry.server_id.as_str(), server_id) {
                        CacheEntry {
                            server_id: entry.server_id.clone(),
                            snapshot: Snapshot { previous, curr: StackStatus::unknown() },
                        }
                    } else {
                        CacheEntry {
                            server_id: entry.server_id.clone(),
                            snapshot: entry.snapshot.duplicate(),
                        }
                    }
                },
            };
            assert(Self::refreshed_entry(made, cache, servers, server_id@, views, id));
            next.insert(key.as_str(), made);
            proof {
                assert forall|other: Seq<char>|
                    next@.contains_key(other) <==> exists|k: int|
                        0 <= k < j + 1 && #[trigger] self.entries.key_at(k) == other by {
                    if next@.contains_key(other) {
                        if other == id {
                            assert(self.entries.key_at(j as int) == other);
                        } else {
                            assert(held.contains_key(other));
                            let k = choose|k: int|
                                0 <= k < j && #[trigger] self.entries.key_at(k) == other;
                            assert(self.entries.key_at(k) == other);
                        }
                    }
                    if exists|k: int| 0 <= k < j + 1 && #[trigger] self.entries.key_at(k) == other {
                        let k = choose|k: int|
                            0 <= k < j + 1 && #[trigger] self.entries.key_at(k) == other;
                        if k < j {
                            assert(held.contains_key(other));
                        }
                    }
                }
            }
            j += 1;
        }
        proof {
            self.entries.lemma_keys();
            assert forall|id: Seq<char>| next@.contains_key(id) <==> cache.contains_key(id) by {
                if cache.contains_key(id) {
                    let k = choose|k: int|
                        0 <= k < self.entries.count() && #[trigger] self.entries.key_at(k) == id;
                    assert(self.entries.key_at(k) == id);
                }
                if next@.contains_key(id) {
                    let k = choose|k: int| 0 <= k < j && #[trigger] self.entries.key_at(k) == id;
                    assert(self.entries@.contains_key(self.entries.key_at(k)));
                }
            }
        }
        let mut i: usize = 0;
        while i < fetched.len()
            invariant
                i <= fetched@.len(),
                self.entries.wf(),
                cache == self@,
                servers == self.servers(),
                views == fetched_views(fetched@),
                next.wf(),
                forall|id: Seq<char>|
                    next@.contains_key(id) <==> (cache.contains_key(id) || read_in(
                        views.subrange(0, i as int),
                        id,
                    )),
                forall|id: Seq<char>| #[trigger]
                    next@.contains_key(id) ==> Self::refreshed_entry(
                        next@[id],
                        cache,
                        servers,
                        server_id@,
                        views,
                        id,
                    ),
            decreases fetched@.len() - i,
        {
            let ghost id = fetched@[i as int].stack_id@;
            let ghost held = next@;
            let ghost seen = views.subrange(0, i as int);
            let key = fetched[i].stack_id.as_str();
            let known = self.entries.get(key).is_some();
            assert(known == cache.contains_key(id));
            if !known {
                proof {
                    assert(views[i as int].0 == id);
                    lemma_last_reading(views, id);
                }
                match find_last_reading(fetched, key) {
                    Some(status) => {
                        let made = CacheEntry {
                            server_id: server_id.to_owned(),
                            snapshot: Snapshot { previous: None, curr: status },
                        };
                        assert(Self::refreshed_entry(made, cache, servers, server_id@, views, id));
                        next.insert(key, made);
                    },
                    None => {},
                }
            }
            proof {
                let more = views.subrange(0, i + 1);
                assert(more[i as int].0 == id);
                assert forall|other: Seq<char>|
                    next@.contains_key(other) <==> (cache.contains_key(other) || read_in(
                        more,
                        other,
                    )) by {
                    if other == id {
                        assert(next@.contains_key(id));
                        assert(read_in(more, other));
                    } else {
                        assert(next@.contains_key(other) == held.contains_key(other));
                        assert(held.contains_key(other) <==> (cache.contains_key(other)
                            || read_in(seen, other)));
                    }
                    if read_in(more, other) {
                        let k = choose|k: int|
                            0 <= k < more.len() && (#[trigger] more[k]).0 == other;
                        if k < i {
                            assert(seen[k].0 == other);
                        }
                    }
                    if read_in(seen, other) {
                        let k = choose|k: int|
                            0 <= k < seen.len() && (#[trigger] seen[k]).0 == other;
                        assert(more[k].0 == other);
                    }
                }
            }
            i += 1;
        }
        proof {
            assert(views.subrange(0, i as int) =~= views);
            assert forall|id: Seq<char>| read_in(views, id) <==> last_reading(views, id)
                is Some by {
                lemma_last_reading(views, id);
            }
        }
        self.entries = next;
        assert(self@ =~= refreshed(cache, servers, server_id@, views));
        assert(self.servers() =~= servers_after(servers, server_id@, views));
    }

    /// Takes in one reading of one stack: what was current becomes
    /// previous, the reading becomes current, and the stack is noted as
    /// living on the server. Other stacks are not touched.
    pub fn record(&mut self, server_id: &str, id: &str, status: StackStatus)
        requires
            old(self).wf(),
        ensures
            final(self).wf(),
            final(self)@ == old(self)@.insert(
                id@,
                SnapshotView { previous: prior(old(self)@, id@), curr: status@ },
            ),
            final(self).servers() == old(self).servers().insert(id@, server_id@),
    {
        let previous = match self.entries.get(id) {
            Some(entry) => Some(entry.snapshot.curr.duplicate()),
            None => None,
        };
        let made = CacheEntry {
            server_id: server_id.to_owned(),
            snapshot: Snapshot { previous, curr: status },
        };
        self.entries.insert(id, made);
        assert(self@ =~= old(self)@.insert(
            id@,
            SnapshotView { previous: prior(old(self)@, id@), curr: status@ },
        ));
        assert(self.servers() =~= old(self).servers().insert(id@, server_id@));
    }
}

} // verus!
