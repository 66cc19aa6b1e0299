//! Caches run-time feature detection so that it only needs to be computed
//! once.
//!
//! This module holds the single-word layout: the whole bitset lives in one
//! 64-bit word. The top bit of the word is reserved as the "uninitialized"
//! sentinel, so only the low 63 bits carry capabilities.

use vstd::prelude::*;

verus! {

/// Maximum number of features that can be cached.
pub const CACHE_CAPACITY: u32 = 63;

/// Does `x` have the bit `bit` set?
pub open spec fn bit_set(x: u64, bit: u32) -> bool {
    x & (1u64 << bit) != 0
}

/// Setting a bit makes it test true and leaves every other bit as it was.
pub proof fn lemma_set_bit(x: u64, bit: u32)
    by (bit_vector)
    requires
        bit < 64,
    ensures
        forall|i: u32| i < 64 ==> #[trigger] bit_set(x | (1u64 << bit), i) == (i == bit
            || bit_set(x, i)),
{
}

/// Sets the `bit` of `x`.
pub fn set_bit(x: u64, bit: u32) -> (r: u64)
    requires
        bit < 64,
    ensures
        r == (x | (1u64 << bit)),
        forall|i: u32| i < 64 ==> #[trigger] bit_set(r, i) == (i == bit || bit_set(x, i)),
{
    proof {
        lemma_set_bit(x, bit);
    }
    x | 1 << bit
}

/// Tests the `bit` of `x`.
pub fn test_bit(x: u64, bit: u32) -> (r: bool)
    requires
        bit < 64,
    ensures
        r == bit_set(x, bit),
{
    x & (1 << bit) != 0
}

/// This type is used to initialize the cache: the detection routine fills
/// one in, bit by bit, and hands it to the cache's store operation.
///
/// Bit `i` set means capability `i` is available. The top bit is reserved
/// for the cache's "uninitialized" sentinel and can never be set here: the
/// only way to raise a bit is [`Initializer::set`], which takes capability
/// indices only.
#[derive(Clone, Copy)]
pub struct Initializer(u64);

impl Initializer {
    /// The bitset an `Initializer` holds, as a plain word.
    pub closed spec fn value(self) -> u64 {
        self.0
    }

    /// The sentinel bit stays clear for the whole of the value's life.
    #[verifier::type_invariant]
    spec fn sentinel_clear(self) -> bool {
        !bit_set(self.0, 63)
    }

    /// Tests the `bit` of the cache-to-be.
    pub fn test(&self, bit: u32) -> (r: bool)
        requires
            bit < CACHE_CAPACITY,
        ensures
            r == bit_set(self.value(), bit),
    {
        test_bit(self.0, bit)
    }

    /// Sets the `bit` of the cache-to-be.
    pub fn set(&mut self, bit: u32)
        requires
            bit < CACHE_CAPACITY,
        ensures
            final(self).value() == (old(self).value() | (1u64 << bit)),
            forall|i: u32| i < 64 ==> #[trigger] bit_set(final(self).value(), i) == (i == bit
                || bit_set(old(self).value(), i)),
    {
        proof {
            use_type_invariant(&*self);
            lemma_set_bit(self.0, bit);
        }
        let v = self.0;
        self.0 = set_bit(v, bit);
    }

    /// The whole bitset as a plain word, for storage the cache logic does
    /// not own.
    pub fn bits(&self) -> (r: u64)
        ensures
            r == self.value(),
            !bit_set(r, 63),
    {
        proof {
            use_type_invariant(&*self);
        }
        self.0
    }
}

impl Default for Initializer {
    /// An empty bitset: no capability reported.
    fn default() -> (r: Self)
        ensures
            r.value() == 0,
    {
        proof {
            lemma_zero_sentinel_clear();
        }
        Initializer(0)
    }
}

/// The empty bitset has every bit clear, the sentinel bit among them.
proof fn lemma_zero_sentinel_clear()
    by (bit_vector)
    ensures
        forall|i: u32| !bit_set(0u64, i),
{
}

/// A word whose sentinel bit is clear is never the all-ones sentinel.
proof fn lemma_sentinel_distinguishes(v: u64)
    by (bit_vector)
    requires
        !bit_set(v, 63),
    ensures
        v != u64::MAX,
{
}

/// Feature cache with capacity for `CACHE_CAPACITY` features.
///
/// The bitset lives in one word; the all-ones pattern is the
/// "uninitialized" sentinel, told apart from every stored value by its top
/// bit, which no [`Initializer`] can set.
pub struct Cache(u64);

impl Cache {
    /// The word the cache holds.
    pub closed spec fn word(self) -> u64 {
        self.0
    }

    /// Either nothing has been stored yet, or the stored word came from an
    /// `Initializer` and so has the sentinel bit clear.
    #[verifier::type_invariant]
    spec fn inv(self) -> bool {
        self.0 == u64::MAX || !bit_set(self.0, 63)
    }

    /// Has no value been stored yet?
    pub open spec fn is_uninit(self) -> bool {
        self.word() == u64::MAX
    }

    /// Creates an uninitialized cache.
    pub fn uninitialized() -> (r: Self)
        ensures
            r.is_uninit(),
    {
        Cache(u64::MAX)
    }

    /// Is the cache uninitialized?
    pub fn is_uninitialized(&self) -> (r: bool)
        ensures
            r == self.is_uninit(),
    {
        self.0 == u64::MAX
    }

    /// Is the `bit` in the cache set?
    pub fn test(&self, bit: u32) -> (r: bool)
        requires
            bit < 64,
        ensures
            r == bit_set(self.word(), bit),
    {
        test_bit(self.0, bit)
    }

    /// Initializes the cache. Once a value is stored the cache can never
    /// again read as uninitialized: the stored word has the sentinel bit
    /// clear, so it differs from the all-ones sentinel.
    pub fn initialize(&mut self, value: Initializer)
        ensures
            final(self).word() == value.value(),
            !final(self).is_uninit(),
    {
        proof {
            use_type_invariant(&value);
            lemma_sentinel_distinguishes(value.value());
        }
        self.0 = value.bits();
    }
}

/// The word the cache holds after a query, given the word `w` it held
/// before and the word `v` the detection routine would hand a storing
/// query: an uninitialized cache takes `v`, an initialized one keeps `w`.
pub open spec fn word_after_query(w: u64, v: u64) -> u64 {
    if w == u64::MAX {
        v
    } else {
        w
    }
}

/// The boolean a query returns for `bit`, under the same reading of `w`
/// and `v` as [`word_after_query`].
pub open spec fn query_result(w: u64, v: u64, bit: u32) -> bool {
    bit_set(word_after_query(w, v), bit)
}

/// Test the `bit` of the cache. If the cache has not been initialized,
/// initializes it with the result of `f()`.
///
/// On its first invocation it runs the detection routine `f` and stores
/// the resulting bitset; every later invocation answers from the stored
/// word without running `f` again.
pub fn test<F: FnOnce() -> Initializer>(cache: &mut Cache, bit: u32, f: F) -> (r: bool)
    requires
        bit < CACHE_CAPACITY,
        old(cache).is_uninit() ==> call_requires(f, ()),
    ensures
        !old(cache).is_uninit() ==> *final(cache) == *old(cache),
        old(cache).is_uninit() ==> exists|init: Initializer|
            {
                &&& #[trigger] call_ensures(f, (), init)
                &&& final(cache).word() == init.value()
            },
        !final(cache).is_uninit(),
        r == bit_set(final(cache).word(), bit),
        r == query_result(old(cache).word(), final(cache).word(), bit),
{
    if cache.is_uninitialized() {
        cache.initialize(f());
    }
    proof {
        use_type_invariant(&*cache);
        lemma_sentinel_distinguishes(cache.word());
    }
    cache.test(bit)
}

/// Idempotence: once a query has settled the word, a later query changes
/// nothing and answers the same boolean, whatever value `v2` a renewed
/// detection would have produced.
pub proof fn lemma_query_idempotent(w: u64, v1: u64, v2: u64, bit: u32)
    requires
        !bit_set(v1, 63),
    ensures
        word_after_query(word_after_query(w, v1), v2) == word_after_query(w, v1),
        query_result(word_after_query(w, v1), v2, bit) == query_result(w, v1, bit),
{
    lemma_sentinel_distinguishes(v1);
}

/// Monotonic initialization: a query always leaves the cache initialized,
/// and an already initialized cache is left exactly as it was — the word
/// moves away from the sentinel at most once and never back.
pub proof fn lemma_monotonic_initialization(w: u64, v: u64)
    requires
        !bit_set(v, 63),
    ensures
        word_after_query(w, v) != u64::MAX,
        w != u64::MAX ==> word_after_query(w, v) == w,
{
    lemma_sentinel_distinguishes(v);
}

/// Bit isolation: a detector value with only bit `k` set answers true for
/// `k` and false for every other capability bit.
pub proof fn lemma_bit_isolation(k: u32, j: u32)
    by (bit_vector)
    requires
        k < CACHE_CAPACITY,
        j < CACHE_CAPACITY,
        j != k,
    ensures
        bit_set(1u64 << k, k),
        !bit_set(1u64 << k, j),
{
}

/// Round trip: setting any capability bit makes it test true, leaves every
/// other bit unchanged, and keeps the sentinel bit clear.
pub proof fn lemma_set_test_round_trip(x: u64, bit: u32)
    requires
        bit < CACHE_CAPACITY,
    ensures
        bit_set(x | (1u64 << bit), bit),
        forall|j: u32| j < 64 && j != bit ==> #[trigger] bit_set(x | (1u64 << bit), j) == bit_set(
            x,
            j,
        ),
        !bit_set(x, 63) ==> !bit_set(x | (1u64 << bit), 63),
{
    lemma_set_bit(x, bit);
}

/// Sentinel safety: every value a detector can hand over — even one with
/// all 63 capability bits set — differs from the all-ones sentinel, so a
/// cache that stored it never reads as uninitialized again.
pub proof fn lemma_sentinel_safety(v: u64)
    requires
        !bit_set(v, 63),
    ensures
        v != u64::MAX,
        word_after_query(u64::MAX, v) == v,
        word_after_query(u64::MAX, v) != u64::MAX,
{
    lemma_sentinel_distinguishes(v);
}

/// Benign race: with a deterministic detector every racing query stores
/// the same value `v`, so a query that found the word already stored
/// answers exactly as the query that stored it — every thread observes the
/// same boolean, and the settled word does not depend on which store came
/// last.
pub proof fn lemma_benign_race(v: u64, bit: u32)
    requires
        !bit_set(v, 63),
    ensures
        word_after_query(u64::MAX, v) == word_after_query(v, v),
        query_result(u64::MAX, v, bit) == bit_set(v, bit),
        query_result(v, v, bit) == bit_set(v, bit),
{
    lemma_sentinel_distinguishes(v);
}

} // verus!
