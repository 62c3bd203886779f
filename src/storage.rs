//! Time-bounded, in-memory store for generated artifacts.
//!
//! Each artifact lives under an identifier drawn at random and re-drawn
//! deterministically on a collision, so every `store` hands out an identifier
//! that no live entry holds. Expired entries are dropped lazily on `retrieve`
//! and eagerly by `cleanup_expired`. Locking and the periodic sweep belong to
//! whoever shares the store.
use std::collections::HashMap;
use vstd::prelude::*;

verus! {

/// Seconds that a stored artifact stays available.
pub const FILE_EXPIRATION_SECS: u64 = 3600;

/// Seconds between two sweeps of expired artifacts.
pub const CLEANUP_INTERVAL_SECS: u64 = 300;

/// What a stored artifact holds, as mathematical values.
pub ghost struct FileView {
    pub data: Seq<u8>,
    pub created_at: u64,
    pub expires_at: u64,
    pub filename: Seq<char>,
}

impl FileView {
    pub open spec fn expired_at(self, now: u64) -> bool {
        now >= self.expires_at
    }
}

/// The expiry time of an artifact created at `now` (saturating at the end of time).
pub open spec fn expiry_after(now: u64) -> u64 {
    if now <= u64::MAX - FILE_EXPIRATION_SECS {
        (now + FILE_EXPIRATION_SECS) as u64
    } else {
        u64::MAX
    }
}

/// The artifact that `store` creates at time `now`.
pub open spec fn stored_view(data: Seq<u8>, filename: Seq<char>, now: u64) -> FileView {
    FileView { data, created_at: now, expires_at: expiry_after(now), filename }
}

/// The entries of `m` that are still live at time `now`.
pub open spec fn live_at(m: Map<u128, FileView>, now: u64) -> Map<u128, FileView> {
    m.filter_keys(|k: u128| !m[k].expired_at(now))
}

/// What `retrieve` at time `now` hands back.
pub open spec fn retrieved(m: Map<u128, FileView>, id: u128, now: u64) -> Option<FileView> {
    if m.contains_key(id) && !m[id].expired_at(now) {
        Some(m[id])
    } else {
        None
    }
}

/// The contents after `retrieve` at time `now`: an expired entry is dropped.
pub open spec fn after_retrieve(m: Map<u128, FileView>, id: u128, now: u64) -> Map<u128, FileView> {
    if m.contains_key(id) && m[id].expired_at(now) {
        m.remove(id)
    } else {
        m
    }
}

/// An artifact stored at `now` and looked up before it expires comes back with
/// the same bytes and filename, and the lookup leaves the store as it was.
pub proof fn lemma_store_then_retrieve(
    m: Map<u128, FileView>,
    id: u128,
    data: Seq<u8>,
    filename: Seq<char>,
    now: u64,
    later: u64,
)
    requires
        later < expiry_after(now),
    ensures
        ({
            let stored = m.insert(id, stored_view(data, filename, now));
            &&& retrieved(stored, id, later) is Some
            &&& retrieved(stored, id, later).unwrap().data == data
            &&& retrieved(stored, id, later).unwrap().filename == filename
            &&& after_retrieve(stored, id, later) == stored
        }),
{
}

/// A stored artifact looked up at or after its expiry is a miss, and the
/// identifier is gone afterwards, whether a lookup or a sweep ran.
pub proof fn lemma_expired_is_dropped(m: Map<u128, FileView>, id: u128, now: u64)
    requires
        m.dom().finite(),
        m.contains_key(id),
        m[id].expired_at(now),
    ensures
        retrieved(m, id, now) is None,
        !after_retrieve(m, id, now).contains_key(id),
        after_retrieve(m, id, now).len() == m.len() - 1,
        !live_at(m, now).contains_key(id),
{
}

/// Any run of stores, with nothing removed in between (as the store's lock
/// serializes concurrent calls), hands out pairwise distinct identifiers:
/// `maps[i]` is the store before the `i`-th call, which files `views[i]`
/// under `ids[i]`.
pub proof fn lemma_store_run_ids_distinct(
    maps: Seq<Map<u128, FileView>>,
    ids: Seq<u128>,
    views: Seq<FileView>,
)
    requires
        maps.len() == ids.len() + 1,
        views.len() == ids.len(),
        forall|i: int|
            0 <= i < ids.len() ==> !(#[trigger] maps[i]).contains_key(ids[i]) && maps[i + 1]
                == maps[i].insert(ids[i], views[i]),
    ensures
        forall|i: int, j: int| 0 <= i < ids.len() && 0 <= j < ids.len() && i != j ==> ids[i] != ids[j],
{
    assert forall|i: int, j: int| 0 <= i < ids.len() && 0 <= j < ids.len() && i < j implies ids[i]
        != ids[j] by {
        lemma_store_run_keeps(maps, ids, views, i, j);
    }
    assert forall|i: int, j: int| 0 <= i < ids.len() && 0 <= j < ids.len() && i != j implies ids[i]
        != ids[j] by {
        if j < i {
            lemma_store_run_keeps(maps, ids, views, j, i);
        } else {
            lemma_store_run_keeps(maps, ids, views, i, j);
        }
    }
}

/// In such a run, the identifier of the `i`-th store is still held at any
/// later step `k`.
proof fn lemma_store_run_keeps(
    maps: Seq<Map<u128, FileView>>,
    ids: Seq<u128>,
    views: Seq<FileView>,
    i: int,
    k: int,
)
    requires
        maps.len() == ids.len() + 1,
        views.len() == ids.len(),
        forall|i: int|
            0 <= i < ids.len() ==> !(#[trigger] maps[i]).contains_key(ids[i]) && maps[i + 1]
                == maps[i].insert(ids[i], views[i]),
        0 <= i < k <= ids.len(),
    ensures
        maps[k].contains_key(ids[i]),
    decreases k - i,
{
    if k == i + 1 {
        assert(maps[i + 1] == maps[i].insert(ids[i], views[i]));
    } else {
        lemma_store_run_keeps(maps, ids, views, i, k - 1);
        assert(maps[k] == maps[k - 1].insert(ids[k - 1], views[k - 1]));
    }
}

/// A stored artifact with its timestamps (seconds since the Unix epoch).
pub struct StoredFile {
    pub data: Vec<u8>,
    pub created_at: u64,
    pub expires_at: u64,
    pub filename: String,
}

impl View for StoredFile {
    type V = FileView;

    open spec fn view(&self) -> FileView {
        FileView {
            data: self.data@,
            created_at: self.created_at,
            expires_at: self.expires_at,
            filename: self.filename@,
        }
    }
}

/// Relies on std's `SystemTime::now`, read as whole seconds since the Unix epoch
/// (0 for a clock set before it). Nothing is promised of the value.
#[verifier::external_body]
fn now_secs() -> u64 {
    match std::time::SystemTime::now().duration_since(std::time::UNIX_EPOCH) {
        Ok(d) => d.as_secs(),
        Err(_) => 0,
    }
}

/// Relies on uuid's `Uuid::new_v4`, read as its 128-bit value. Nothing is
/// promised of the value: it is random.
#[verifier::external_body]
fn random_id() -> u128 {
    uuid::Uuid::new_v4().as_u128()
}

impl StoredFile {
    /// An artifact created at `now`, expiring one lifetime later.
    pub fn created(data: Vec<u8>, filename: String, now: u64) -> (r: StoredFile)
        ensures
            r@ == stored_view(data@, filename@, now),
    {
        let expires_at: u64 = if now <= u64::MAX - FILE_EXPIRATION_SECS {
            now + FILE_EXPIRATION_SECS
        } else {
            u64::MAX
        };
        StoredFile { data, created_at: now, expires_at, filename }
    }

    /// Whether the artifact has expired at time `now`.
    pub fn is_expired_at(&self, now: u64) -> (r: bool)
        ensures
            r == self@.expired_at(now),
    {
        now >= self.expires_at
    }

    /// Whether the artifact is still live at time `now`.
    pub fn is_live_at(&self, now: u64) -> (r: bool)
        ensures
            r == !self@.expired_at(now),
    {
        now < self.expires_at
    }

    /// Whether the artifact has expired by the clock.
    pub fn is_expired(&self) -> (r: bool)
        ensures
            self.expires_at == 0 ==> r,
    {
        let now: u64 = now_secs();
        self.is_expired_at(now)
    }

    /// A copy holding the same bytes, name and timestamps.
    pub fn duplicate(&self) -> (r: StoredFile)
        ensures
            r@ == self@,
    {
        let data = self.data.clone();
        assert(data@ =~= self.data@);
        StoredFile {
            data,
            created_at: self.created_at,
            expires_at: self.expires_at,
            filename: self.filename.clone(),
        }
    }
}

/// Relies on std's `HashMap::retain`: it keeps exactly the pairs for which the
/// predicate holds, here the artifacts that have not expired at `now`.
#[verifier::external_body]
fn retain_live(files: &mut HashMap<u128, StoredFile>, now: u64)
    ensures
        final(files)@ == old(files)@.filter_keys(|k: u128| !(now >= old(files)@[k].expires_at)),
{
    files.retain(|_, f| f.is_live_at(now));
}

/// The store: a map from identifier to artifact.
pub struct FileStorage {
    files: HashMap<u128, StoredFile>,
}

impl View for FileStorage {
    type V = Map<u128, FileView>;

    closed spec fn view(&self) -> Map<u128, FileView> {
        self.files@.map_values(|f: StoredFile| f@)
    }
}

impl FileStorage {
    /// The store holds finitely many artifacts, and every one expires one
    /// lifetime after it was created.
    pub open spec fn wf(&self) -> bool {
        &&& self@.dom().finite()
        &&& forall|k: u128| #[trigger]
            self@.contains_key(k) ==> self@[k].expires_at == expiry_after(self@[k].created_at)
    }

    proof fn lemma_dom(&self)
        ensures
            self@.dom() == self.files@.dom(),
            self@.dom().finite(),
    {
        assert(self@.dom() =~= self.files@.dom());
    }

    /// An empty store.
    pub fn new() -> (r: FileStorage)
        ensures
            r@ == Map::<u128, FileView>::empty(),
            r.wf(),
    {
        let r = FileStorage { files: HashMap::new() };
        assert(r@ =~= Map::<u128, FileView>::empty());
        r
    }

    /// The number of entries held, expired or not.
    pub fn count(&self) -> (r: usize)
        ensures
            r == self@.len(),
    {
        assert(self@.dom() =~= self.files@.dom());
        self.files.len()
    }

    /// An identifier that no entry holds: `seed` itself if it is free, else the
    /// first free one of `seed ^ 1`, `seed ^ 2`, ...
    pub fn fresh_id(&self, seed: u128) -> (id: u128)
        ensures
            !self@.contains_key(id),
    {
        let n: u128 = self.files.len() as u128;
        let ghost dom = self.files@.dom();
        let ghost mut seen: Set<u128> = Set::empty();
        let mut i: u128 = 0;
        assert(self@.dom() =~= dom);
        while i <= n
            invariant
                dom == self.files@.dom(),
                dom.finite(),
                dom.len() == n,
                n < u128::MAX,
                seen.finite(),
                seen.len() == i,
                seen.subset_of(dom),
                forall|x: u128| #[trigger] seen.contains(x) ==> (x ^ seed) < i,
                self@.dom() == dom,
            decreases n + 1 - i,
        {
            let cand: u128 = seed ^ i;
            if !self.files.contains_key(&cand) {
                return cand;
            }
            proof {
                assert((cand ^ seed) == i) by (bit_vector)
                    requires
                        cand == seed ^ i,
                ;
                assert(!seen.contains(cand));
                seen = seen.insert(cand);
            }
            i = i + 1;
        }
        proof {
            vstd::set_lib::lemma_len_subset(seen, dom);
        }
        seed
    }

    /// Stores an artifact created at `now` under a fresh identifier derived
    /// from `seed`, and returns that identifier.
    pub fn store_at(&mut self, data: Vec<u8>, filename: String, now: u64, seed: u128) -> (id: u128)
        requires
            old(self).wf(),
        ensures
            !old(self)@.contains_key(id),
            final(self)@ == old(self)@.insert(id, stored_view(data@, filename@, now)),
            final(self)@.len() == old(self)@.len() + 1,
            final(self).wf(),
    {
        let id: u128 = self.fresh_id(seed);
        let file = StoredFile::created(data, filename, now);
        self.files.insert(id, file);
        assert(self@ =~= old(self)@.insert(id, stored_view(data@, filename@, now)));
        proof {
            self.lemma_dom();
        }
        id
    }

    /// Stores an artifact stamped with the clock under a fresh random
    /// identifier, and returns that identifier.
    pub fn store(&mut self, data: Vec<u8>, filename: String) -> (id: u128)
        requires
            old(self).wf(),
        ensures
            !old(self)@.contains_key(id),
            final(self)@ == old(self)@.insert(id, stored_view(data@, filename@, final(self)@[id].created_at)),
            final(self)@.len() == old(self)@.len() + 1,
            final(self).wf(),
    {
        let now: u64 = now_secs();
        let seed: u128 = random_id();
        self.store_at(data, filename, now, seed)
    }

    /// Looks up `id` at time `now`: a live artifact is copied out and stays;
    /// an expired one is removed and reported as a miss.
    pub fn retrieve_at(&mut self, id: u128, now: u64) -> (r: Option<StoredFile>)
        requires
            old(self).wf(),
        ensures
            final(self)@ == after_retrieve(old(self)@, id, now),
            match r {
                Some(f) => retrieved(old(self)@, id, now) == Some(f@),
                None => retrieved(old(self)@, id, now) is None,
            },
            final(self).wf(),
    {
        let expired = match self.files.get(&id) {
            Some(file) => {
                if file.is_expired_at(now) {
                    true
                } else {
                    return Some(file.duplicate());
                }
            },
            None => false,
        };
        if expired {
            self.files.remove(&id);
            assert(self@ =~= old(self)@.remove(id));
        }
        proof {
            self.lemma_dom();
        }
        None
    }

    /// Looks up `id` by the clock, as `retrieve_at` does.
    pub fn retrieve(&mut self, id: u128) -> (r: Option<StoredFile>)
        requires
            old(self).wf(),
        ensures
            !old(self)@.contains_key(id) ==> r is None,
            match r {
                Some(f) => old(self)@.contains_key(id) && f@ == old(self)@[id] && final(self)@ == old(self)@,
                None => final(self)@ == old(self)@.remove(id),
            },
            final(self).wf(),
    {
        let now: u64 = now_secs();
        self.retrieve_at(id, now)
    }

    /// Removes every artifact that has expired at time `now`.
    pub fn cleanup_expired_at(&mut self, now: u64)
        requires
            old(self).wf(),
        ensures
            final(self)@ == live_at(old(self)@, now),
            final(self).wf(),
    {
        retain_live(&mut self.files, now);
        assert(self@ =~= live_at(old(self)@, now));
        proof {
            self.lemma_dom();
        }
    }

    /// Removes every artifact that has expired by the clock.
    pub fn cleanup_expired(&mut self)
        requires
            old(self).wf(),
        ensures
            exists|now: u64| final(self)@ == #[trigger] live_at(old(self)@, now),
            final(self).wf(),
    {
        let now: u64 = now_secs();
        self.cleanup_expired_at(now);
    }
}

} // verus!
