//! The warm S3 backend: its transition client, the client's shared state, and
//! the bucket-location cache it consults.

use std::sync::Arc;
use vstd::prelude::*;

verus! {

/// The errors of the transition client.
#[derive(Debug, PartialEq, Eq, Structural)]
pub enum Error {
    /// The location cache holds no entry for the bucket.
    BucketLocationNotFound,
}

/// The location recorded for a bucket whose location is not yet cached.
pub const DEFAULT_BUCKET_LOCATION: &'static str = "aaa";

/// The accelerate endpoint that object removal installs.
pub const REMOVAL_ACCELERATE_ENDPOINT: &'static str = "aaaaa";

/// The bucket whose location object removal looks up.
pub const REMOVAL_LOCATION_BUCKET: &'static str = "bbb";

/// Bucket locations, by bucket name.
pub struct BucketLocationCache {
    entries: Vec<(String, String)>,
}

impl BucketLocationCache {
    /// No bucket name occurs twice among the entries.
    #[verifier::type_invariant]
    closed spec fn names_distinct(self) -> bool {
        forall|i: int, j: int|
            0 <= i < j < self.entries.len() ==> (#[trigger] self.entries[i]).0@
                != (#[trigger] self.entries[j]).0@
    }

    /// Whether some entry is for `bucket`.
    closed spec fn has_entry(self, bucket: Seq<char>) -> bool {
        exists|i: int| 0 <= i < self.entries.len() && (#[trigger] self.entries[i]).0@ == bucket
    }

    /// The position of the entry for `bucket`.
    closed spec fn entry_index(self, bucket: Seq<char>) -> int {
        choose|i: int| 0 <= i < self.entries.len() && (#[trigger] self.entries[i]).0@ == bucket
    }

    /// The cached locations, by bucket name.
    pub closed spec fn locations(self) -> Map<Seq<char>, Seq<char>> {
        Map::new(
            |bucket: Seq<char>| self.has_entry(bucket),
            |bucket: Seq<char>| self.entries[self.entry_index(bucket)].1@,
        )
    }

    /// With distinct names, the entry found for a name is the only one.
    proof fn entry_index_is_unique(self, i: int)
        requires
            self.names_distinct(),
            0 <= i < self.entries.len(),
        ensures
            self.has_entry(self.entries[i].0@),
            self.entry_index(self.entries[i].0@) == i,
    {
        let bucket = self.entries[i].0@;
        assert(self.has_entry(bucket));
        let j = self.entry_index(bucket);
        if j < i {
            assert(self.entries[j].0@ != self.entries[i].0@);
        } else if i < j {
            assert(self.entries[i].0@ != self.entries[j].0@);
        }
    }

    /// An empty cache.
    pub fn new() -> (cache: BucketLocationCache)
        ensures
            cache@ == Map::<Seq<char>, Seq<char>>::empty(),
    {
        let cache = BucketLocationCache { entries: Vec::new() };
        assert(cache.locations() =~= Map::<Seq<char>, Seq<char>>::empty());
        cache
    }

    /// The position of the entry for `bucket`, if there is one.
    fn find(&self, bucket: &String) -> (found: Option<usize>)
        ensures
            found matches Some(i) ==> i < self.entries.len() && self.entries[i as int].0@
                == bucket@,
            found is None ==> !self.has_entry(bucket@),
    {
        let mut i: usize = 0;
        while i < self.entries.len()
            invariant
                i <= self.entries.len(),
                forall|j: int| 0 <= j < i ==> (#[trigger] self.entries[j]).0@ != bucket@,
            decreases self.entries.len() - i,
        {
            if self.entries[i].0 == *bucket {
                return Some(i);
            }
            i = i + 1;
        }
        None
    }

    /// The cached location of `bucket`, or `BucketLocationNotFound` when none
    /// is cached.
    pub fn get(&self, bucket: &str) -> (location: Result<String, Error>)
        ensures
            match location {
                Ok(found) => self@.contains_key(bucket@) && found@ == self@[bucket@],
                Err(e) => !self@.contains_key(bucket@) && e == Error::BucketLocationNotFound,
            },
    {
        proof { use_type_invariant(self); }
        let name = String::from_str(bucket);
        match self.find(&name) {
            Some(i) => {
                proof { self.entry_index_is_unique(i as int); }
                Ok(self.entries[i].1.clone())
            },
            None => Err(Error::BucketLocationNotFound),
        }
    }

    /// Records `location` as the location of `bucket`, replacing any location
    /// cached for it before.
    pub fn set(&mut self, bucket: &str, location: &str)
        ensures
            final(self)@ == old(self)@.insert(bucket@, location@),
    {
        proof { use_type_invariant(&*self); }
        let ghost before = *self;
        let name = String::from_str(bucket);
        let value = String::from_str(location);
        let found = self.find(&name);
        let mut entries: Vec<(String, String)> = Vec::new();
        std::mem::swap(&mut entries, &mut self.entries);
        match found {
            Some(i) => {
                entries.set(i, (name, value));
                self.entries = entries;
                proof {
                    assert forall|p: int, q: int|
                        0 <= p < q < self.entries.len() implies (#[trigger] self.entries[p]).0@
                        != (#[trigger] self.entries[q]).0@ by {
                        assert(before.entries[p].0@ == self.entries[p].0@);
                        assert(before.entries[q].0@ == self.entries[q].0@);
                        assert(before.entries[p].0@ != before.entries[q].0@);
                    }
                    assert forall|k: Seq<char>| #[trigger] self.has_entry(k) == before.has_entry(
                        k,
                    ) by {
                        if self.has_entry(k) {
                            let j = self.entry_index(k);
                            assert(before.entries[j].0@ == k);
                        }
                        if before.has_entry(k) {
                            let j = before.entry_index(k);
                            assert(self.entries[j].0@ == k);
                        }
                    }
                    assert forall|k: Seq<char>| #[trigger]
                        self.has_entry(k) && k != bucket@ implies self.entries[self.entry_index(
                        k,
                    )].1@ == before.entries[before.entry_index(k)].1@ by {
                        let j = self.entry_index(k);
                        self.entry_index_is_unique(j);
                        before.entry_index_is_unique(j);
                    }
                    self.entry_index_is_unique(i as int);
                    assert(self.locations() =~= before.locations().insert(bucket@, location@));
                }
            },
            None => {
                entries.push((name, value));
                self.entries = entries;
                proof {
                    let n = before.entries.len() as int;
                    assert forall|p: int, q: int|
                        0 <= p < q < self.entries.len() implies (#[trigger] self.entries[p]).0@
                        != (#[trigger] self.entries[q]).0@ by {
                        if q < n {
                            assert(before.entries[p].0@ != before.entries[q].0@);
                        } else {
                            assert(self.entries[p] == before.entries[p]);
                        }
                    }
                    assert forall|k: Seq<char>| #[trigger]
                        self.has_entry(k) == (before.has_entry(k) || k == bucket@) by {
                        if self.has_entry(k) {
                            let j = self.entry_index(k);
                            if j < n {
                                assert(before.entries[j].0@ == k);
                            }
                        }
                        if before.has_entry(k) {
                            let j = before.entry_index(k);
                            assert(self.entries[j].0@ == k);
                        }
                        if k == bucket@ {
                            assert(self.entries[n].0@ == k);
                        }
                    }
                    assert forall|k: Seq<char>| #[trigger]
                        self.has_entry(k) && k != bucket@ implies self.entries[self.entry_index(
                        k,
                    )].1@ == before.entries[before.entry_index(k)].1@ by {
                        let j = self.entry_index(k);
                        self.entry_index_is_unique(j);
                        assert(j < n);
                        before.entry_index_is_unique(j);
                    }
                    self.entry_index_is_unique(n);
                    assert(self.locations() =~= before.locations().insert(bucket@, location@));
                }
            },
        }
    }
}

impl View for BucketLocationCache {
    type V = Map<Seq<char>, Seq<char>>;

    closed spec fn view(&self) -> Map<Seq<char>, Seq<char>> {
        self.locations()
    }
}

/// The asynchronous mutex of `tokio`, through which the client shares its
/// mutable state with the tasks that use it.
#[verifier::external_type_specification]
#[verifier::external_body]
#[verifier::reject_recursive_types(T)]
pub struct ExTokioMutex<T: ?Sized>(tokio::sync::Mutex<T>);

/// Calls `tokio::sync::Mutex::new`, which wraps `value` in a new, unlocked
/// mutex. The mutex is opaque here: nothing is claimed of what it holds.
#[verifier::external_body]
fn new_mutex<T>(value: T) -> (mutex: tokio::sync::Mutex<T>) {
    tokio::sync::Mutex::new(value)
}

/// Calls `Arc::clone`, which makes another pointer to the same allocation, so
/// that the value seen through it is the value seen through `shared`.
#[verifier::external_body]
fn share<T>(shared: &Arc<T>) -> (copy: Arc<T>)
    ensures
        copy == *shared,
{
    Arc::clone(shared)
}

/// What `url::Url::parse` makes of `s`: `None` when `s` is no absolute URL,
/// otherwise the URL's serialization.
pub uninterp spec fn parsed_url(s: Seq<char>) -> Option<Seq<char>>;

/// The view of a parsed URL.
pub open spec fn url_view(r: Option<String>) -> Option<Seq<char>> {
    match r {
        None => None,
        Some(url) => Some(url@),
    }
}

/// Calls `url::Url::parse` and, on success, turns the URL into its
/// serialization (`From<Url> for String`). The outcome is a function of `s`
/// alone, named `parsed_url`.
#[verifier::external_body]
fn parse_url(s: &str) -> (url: Option<String>)
    ensures
        url_view(url) == parsed_url(s@),
{
    match url::Url::parse(s) {
        Ok(url) => Some(String::from(url)),
        Err(_) => None,
    }
}

/// The location that a lookup of `bucket` reports, and the cache after it: a
/// cached location is reported as it is; otherwise the default location is
/// recorded for the bucket and reported.
pub open spec fn location_lookup(
    cache: Map<Seq<char>, Seq<char>>,
    bucket: Seq<char>,
) -> (Seq<char>, Map<Seq<char>, Seq<char>>) {
    if cache.contains_key(bucket) {
        (cache[bucket], cache)
    } else {
        (DEFAULT_BUCKET_LOCATION@, cache.insert(bucket, DEFAULT_BUCKET_LOCATION@))
    }
}

/// The default location is `aaa`.
pub proof fn default_location_is_aaa()
    ensures
        DEFAULT_BUCKET_LOCATION@ == seq!['a', 'a', 'a'],
{
    reveal_strlit("aaa");
    assert(DEFAULT_BUCKET_LOCATION@ =~= seq!['a', 'a', 'a']);
}

/// A lookup of a bucket that is not cached reports the default location,
/// whatever the bucket's name, and records exactly that location for the
/// bucket, leaving every other bucket as it was; a lookup of a cached bucket
/// reports the cached location and leaves the cache unchanged.
pub proof fn lookup_reports_cached_or_default(
    cache: Map<Seq<char>, Seq<char>>,
    bucket: Seq<char>,
    other: Seq<char>,
)
    ensures
        !cache.contains_key(bucket) ==> location_lookup(cache, bucket).0 == seq!['a', 'a', 'a'],
        !cache.contains_key(bucket) ==> location_lookup(cache, bucket).1.contains_key(bucket)
            && location_lookup(cache, bucket).1[bucket] == seq!['a', 'a', 'a'],
        cache.contains_key(bucket) ==> location_lookup(cache, bucket).0 == cache[bucket]
            && location_lookup(cache, bucket).1 == cache,
        other != bucket ==> (location_lookup(cache, bucket).1.contains_key(other)
            == cache.contains_key(other)),
        other != bucket && cache.contains_key(other) ==> location_lookup(cache, bucket).1[other]
            == cache[other],
        location_lookup(cache, bucket).1.dom() == cache.dom().insert(bucket),
{
    default_location_is_aaa();
    assert(location_lookup(cache, bucket).1.dom() =~= cache.dom().insert(bucket));
}

/// Two buckets that are both not cached are reported at the same location,
/// whatever their names.
pub proof fn uncached_buckets_share_a_location(
    cache: Map<Seq<char>, Seq<char>>,
    b1: Seq<char>,
    b2: Seq<char>,
)
    requires
        !cache.contains_key(b1),
        !cache.contains_key(b2),
    ensures
        location_lookup(cache, b1).0 == location_lookup(cache, b2).0,
{
}

/// A lookup leaves the location it reported in the cache, so that looking the
/// same bucket up again reports the same location and changes nothing.
pub proof fn location_lookup_is_idempotent(cache: Map<Seq<char>, Seq<char>>, bucket: Seq<char>)
    ensures
        location_lookup(location_lookup(cache, bucket).1, bucket) == location_lookup(
            cache,
            bucket,
        ),
{
}

/// The location reported for a bucket does not depend on the lookups made
/// before it: after looking up any bucket `other`, `bucket` is reported at the
/// location it would have been reported at before.
pub proof fn location_lookup_is_stable(
    cache: Map<Seq<char>, Seq<char>>,
    other: Seq<char>,
    bucket: Seq<char>,
)
    ensures
        location_lookup(location_lookup(cache, other).1, bucket).0 == location_lookup(
            cache,
            bucket,
        ).0,
{
}

/// What a cache reports after a write: the location just written for that
/// bucket, and for every other bucket what it reported before.
pub proof fn cache_reads_back_writes(
    cache: Map<Seq<char>, Seq<char>>,
    bucket: Seq<char>,
    location: Seq<char>,
    other: Seq<char>,
)
    ensures
        cache.insert(bucket, location).contains_key(bucket),
        cache.insert(bucket, location)[bucket] == location,
        other != bucket ==> (cache.insert(bucket, location).contains_key(other)
            == cache.contains_key(other)),
        other != bucket && cache.contains_key(other) ==> cache.insert(bucket, location)[other]
            == cache[other],
{
}

/// The client through which the warm backend transitions objects to S3.
pub struct TransitionClient11 {
    pub secure: bool,
    /// The accelerate endpoint, shared with the tasks that update it.
    pub s3_accelerate_endpoint: Arc<tokio::sync::Mutex<String>>,
    pub region: String,
    /// The serialization of the endpoint URL.
    pub endpoint_url: String,
    /// The bucket-location cache, shared with the tasks that consult it.
    pub bucket_loc_cache: Arc<tokio::sync::Mutex<BucketLocationCache>>,
}

/// The core of the warm backend: the shared transition client.
pub struct TransitionCore11(pub Arc<TransitionClient11>);

impl TransitionClient11 {
    /// Builds the accelerate endpoint from `s3_accelerate_endpoint` followed by
    /// `accelerate_endpoint` in a string of its own, which it then drops: the
    /// endpoint it is given is left as it was.
    pub fn set_s3_transfer_accelerate(&self, accelerate_endpoint: &str, s3_accelerate_endpoint: &mut String)
        ensures
            final(s3_accelerate_endpoint)@ == old(s3_accelerate_endpoint)@,
    {
        let mut endpoint = String::from_str(s3_accelerate_endpoint.as_str());
        endpoint.append(accelerate_endpoint);
    }

    /// Replaces the accelerate endpoint with `accelerate_endpoint`.
    pub fn set_s3_transfer_accelerate2(&self, accelerate_endpoint: &str, s3_accelerate_endpoint: &mut String)
        ensures
            final(s3_accelerate_endpoint)@ == accelerate_endpoint@,
    {
        *s3_accelerate_endpoint = String::from_str(accelerate_endpoint);
    }

    /// The location of `bucket_name`: the cached one, or else the default
    /// location, which is then cached for the bucket. It always succeeds.
    pub fn get_bucket_location(&self, bucket_name: &str, bucket_loc_cache: &mut BucketLocationCache) -> (location: Result<String, Error>)
        ensures
            location is Ok,
            location matches Ok(found) ==> (found@, final(bucket_loc_cache)@) == location_lookup(
                old(bucket_loc_cache)@,
                bucket_name@,
            ),
            old(bucket_loc_cache)@.contains_key(bucket_name@) ==> (location matches Ok(found)
                && found@ == old(bucket_loc_cache)@[bucket_name@] && final(bucket_loc_cache)@
                == old(bucket_loc_cache)@),
            !old(bucket_loc_cache)@.contains_key(bucket_name@) ==> (location matches Ok(found)
                && found@ == DEFAULT_BUCKET_LOCATION@ && final(bucket_loc_cache)@ == old(
                bucket_loc_cache,
            )@.insert(bucket_name@, DEFAULT_BUCKET_LOCATION@)),
    {
        match self.get_bucket_location_inner(bucket_name, bucket_loc_cache) {
            Ok(location) => Ok(location),
            Err(e) => Err(e),
        }
    }

    /// The lookup behind `get_bucket_location`.
    fn get_bucket_location_inner(&self, bucket_name: &str, bucket_loc_cache: &mut BucketLocationCache) -> (location: Result<String, Error>)
        ensures
            location is Ok,
            location matches Ok(found) ==> (found@, final(bucket_loc_cache)@) == location_lookup(
                old(bucket_loc_cache)@,
                bucket_name@,
            ),
            old(bucket_loc_cache)@.contains_key(bucket_name@) ==> (location matches Ok(found)
                && found@ == old(bucket_loc_cache)@[bucket_name@] && final(bucket_loc_cache)@
                == old(bucket_loc_cache)@),
            !old(bucket_loc_cache)@.contains_key(bucket_name@) ==> (location matches Ok(found)
                && found@ == DEFAULT_BUCKET_LOCATION@ && final(bucket_loc_cache)@ == old(
                bucket_loc_cache,
            )@.insert(bucket_name@, DEFAULT_BUCKET_LOCATION@)),
    {
        let cached = bucket_loc_cache.get(bucket_name);
        if let Ok(location) = cached {
            return Ok(location);
        }
        let location = String::from_str(DEFAULT_BUCKET_LOCATION);
        bucket_loc_cache.set(bucket_name, location.as_str());
        Ok(location)
    }
}

/// Whether `client` is the client that `s1` and `tier` set up: not secure,
/// in region `tier`, with the endpoint URL that `s1` parses to.
pub open spec fn is_new_client(client: TransitionClient11, s1: Seq<char>, tier: Seq<char>) -> bool {
    &&& !client.secure
    &&& client.region@ == tier
    &&& parsed_url(s1) == Some(client.endpoint_url@)
}

/// The clients that `WarmBackendS3::new11` and `test_move_box` set up for the
/// same URL and tier agree: both are not secure, and they have the same region
/// and the same endpoint URL.
pub proof fn new_clients_agree(
    c1: TransitionClient11,
    c2: TransitionClient11,
    s1: Seq<char>,
    tier: Seq<char>,
)
    requires
        is_new_client(c1, s1, tier),
        is_new_client(c2, s1, tier),
    ensures
        c1.secure == c2.secure,
        c1.region@ == c2.region@,
        c1.endpoint_url@ == c2.endpoint_url@,
{
}

/// The warm S3 backend.
pub struct WarmBackendS3 {
    pub core11: TransitionCore11,
    pub client11: Arc<TransitionClient11>,
    pub bucket: String,
    pub prefix: String,
    pub storage_class: String,
}

/// Whether `backend` is the backend that `s1` and `tier` set up: one new
/// client shared by the core and the backend, and empty bucket, prefix and
/// storage class.
pub open spec fn is_new_backend(backend: WarmBackendS3, s1: Seq<char>, tier: Seq<char>) -> bool {
    &&& is_new_client(*backend.client11, s1, tier)
    &&& *backend.core11.0 == *backend.client11
    &&& backend.bucket@ == Seq::<char>::empty()
    &&& backend.prefix@ == Seq::<char>::empty()
    &&& backend.storage_class@ == Seq::<char>::empty()
}

impl WarmBackendS3 {
    /// Sets up the backend for the endpoint URL `s1` in region `tier`. The URL
    /// must parse; the backend is always built.
    pub fn new11(s1: &str, tier: &str) -> (backend: Result<Self, Error>)
        requires
            parsed_url(s1@) is Some,
        ensures
            backend matches Ok(b) && is_new_backend(b, s1@, tier@),
    {
        let client = TransitionClient11 {
            secure: false,
            region: String::from_str(tier),
            s3_accelerate_endpoint: Arc::new(new_mutex(String::new())),
            endpoint_url: parse_url(s1).unwrap(),
            bucket_loc_cache: Arc::new(new_mutex(BucketLocationCache::new())),
        };
        let client11 = Arc::new(client);
        let client111 = share(&client11);
        let core11 = TransitionCore11(client11);
        Ok(Self {
            core11,
            client11: client111,
            bucket: String::new(),
            prefix: String::new(),
            storage_class: String::new(),
        })
    }

    /// Sets up the backend when `s1` parses as a URL, and gives `None` when it
    /// does not.
    pub fn checked_new11(s1: &str, tier: &str) -> (backend: Option<Self>)
        ensures
            backend is None <==> parsed_url(s1@) is None,
            backend matches Some(b) ==> is_new_backend(b, s1@, tier@),
    {
        if parse_url(s1).is_none() {
            return None;
        }
        match Self::new11(s1, tier) {
            Ok(backend) => Some(backend),
            Err(_) => None,
        }
    }
}

/// Sets up a client for the endpoint URL `s1` in region `tier`, on the heap.
fn test_move_box(s1: &str, tier: &str) -> (client: Box<TransitionClient11>)
    requires
        parsed_url(s1@) is Some,
    ensures
        is_new_client(*client, s1@, tier@),
{
    let client = TransitionClient11 {
        secure: false,
        region: String::from_str(tier),
        s3_accelerate_endpoint: Arc::new(new_mutex(String::new())),
        endpoint_url: parse_url(s1).unwrap(),
        bucket_loc_cache: Arc::new(new_mutex(BucketLocationCache::new())),
    };
    let client = Box::new(client);
    client
}

/// An enumeration whose default is its `Baz` variant with `a` = 12, `b` = 0,
/// `c` = `Some(0)`, `d` = `[1, 2, 3]`, `e` = `"four"` and `ty` empty.
pub enum Foo {
    Bar,
    Baz { a: i32, b: i32, c: Option<i32>, d: Vec<u32>, e: String, ty: String },
    Qux(i32),
}

impl Default for Foo {
    fn default() -> (foo: Self)
        ensures
            foo matches Foo::Baz { a, b, c, d, e, ty } && a == 12 && b == 0 && c == Some(0i32)
                && d@ == seq![1u32, 2, 3] && e@ == "four"@ && ty@ == Seq::<char>::empty(),
    {
        Foo::Baz {
            a: 12,
            b: 0,
            c: Some(0),
            d: vec![1, 2, 3],
            e: String::from_str("four"),
            ty: String::new(),
        }
    }
}

} // verus!
