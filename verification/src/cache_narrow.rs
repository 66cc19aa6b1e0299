//! Caches run-time feature detection on targets whose natural atomic word
//! is half the width of the bitset.
//!
//! The bitset is split across two 32-bit words, low half and high half,
//! each loadable and storable on its own. The store is not one atomic
//! transaction: the low half is written first, the high half after. The
//! "uninitialized" check therefore inspects the high half only — the word
//! that carries the sentinel's distinguishing bit — so a reader that
//! catches the store half way, low half written and high half not, still
//! reads "uninitialized" rather than a corrupted initialized state.

use vstd::prelude::*;

verus! {

use crate::cache::{bit_set, test_bit, Initializer, CACHE_CAPACITY};

/// Does the pair of half words, high half `hi`, still read as
/// uninitialized? Only the high half is consulted: it is the half that
/// holds the sentinel's distinguishing bit.
pub open spec fn half_words_uninit(lo: u32, hi: u32) -> bool {
    hi == u32::MAX
}

/// The full word composed of two half words.
pub open spec fn combined(lo: u32, hi: u32) -> u64 {
    ((hi as u64) << 32) | (lo as u64)
}

/// Splitting a word into half words and composing them again gives the
/// word back.
proof fn lemma_split_combine(v: u64)
    by (bit_vector)
    ensures
        combined(v as u32, (v >> 32) as u32) == v,
{
}

/// A word's sentinel bit is the top bit of its high half; with it clear,
/// the high half differs from the all-ones pattern.
proof fn lemma_sentinel_in_high_half(v: u64)
    by (bit_vector)
    requires
        !bit_set(v, 63),
    ensures
        (v >> 32) as u32 != u32::MAX,
        !bit_set(((v >> 32) as u32) as u64, 31),
{
}

/// For a bit in the low half, testing the low half word alone agrees with
/// testing the composed word.
proof fn lemma_test_low_half(lo: u32, hi: u32, bit: u32)
    by (bit_vector)
    requires
        bit < 32,
    ensures
        bit_set(combined(lo, hi), bit) == bit_set(lo as u64, bit),
{
}

/// For a bit in the high half, testing the high half word at the shifted
/// position agrees with testing the composed word.
proof fn lemma_test_high_half(lo: u32, hi: u32, bit: u32)
    by (bit_vector)
    requires
        32 <= bit < 64,
    ensures
        bit_set(combined(lo, hi), bit) == bit_set(hi as u64, (bit - 32) as u32),
{
}

/// Feature cache with capacity for `CACHE_CAPACITY` features, held in two
/// half-width words.
///
/// The all-ones pattern in the high half is the "uninitialized" sentinel;
/// no stored value can reproduce it, because the top bit of a stored high
/// half comes from an [`Initializer`]'s sentinel bit, which is always
/// clear.
pub struct Cache(u32, u32);

impl Cache {
    /// The low half word.
    pub closed spec fn lo(self) -> u32 {
        self.0
    }

    /// The high half word.
    pub closed spec fn hi(self) -> u32 {
        self.1
    }

    /// The bitset the cache holds, composed from its two half words.
    pub open spec fn word(self) -> u64 {
        combined(self.lo(), self.hi())
    }

    /// Either the high half still holds the sentinel, or it came from a
    /// stored value and its top bit — the sentinel bit of the composed
    /// word — is clear.
    #[verifier::type_invariant]
    spec fn inv(self) -> bool {
        self.1 == u32::MAX || !bit_set(self.1 as u64, 31)
    }

    /// Has no value been stored yet? A half-written store, low half down
    /// and high half pending, still counts as uninitialized.
    pub open spec fn is_uninit(self) -> bool {
        half_words_uninit(self.lo(), self.hi())
    }

    /// Creates an uninitialized cache.
    pub fn uninitialized() -> (r: Self)
        ensures
            r.is_uninit(),
    {
        Cache(u32::MAX, u32::MAX)
    }

    /// Is the cache uninitialized? Only the high half is read.
    pub fn is_uninitialized(&self) -> (r: bool)
        ensures
            r == self.is_uninit(),
    {
        self.1 == u32::MAX
    }

    /// Is the `bit` in the cache set? Bits below 32 are answered from the
    /// low half alone, the rest from the high half alone.
    pub fn test(&self, bit: u32) -> (r: bool)
        requires
            bit < 64,
        ensures
            r == bit_set(self.word(), bit),
    {
        if bit < 32 {
            proof {
                lemma_test_low_half(self.0, self.1, bit);
            }
            test_bit(self.0 as u64, bit)
        } else {
            proof {
                lemma_test_high_half(self.0, self.1, bit);
            }
            test_bit(self.1 as u64, bit - 32)
        }
    }

    /// Initializes the cache: stores the low half first, then the high
    /// half. Once the high half is down the cache can never again read as
    /// uninitialized.
    pub fn initialize(&mut self, value: Initializer)
        ensures
            final(self).word() == value.value(),
            !final(self).is_uninit(),
    {
        let v = value.bits();
        let lo: u32 = #[verifier::truncate] (v as u32);
        let hi: u32 = #[verifier::truncate] ((v >> 32) as u32);
        proof {
            use_type_invariant(&*self);
            lemma_split_combine(v);
            lemma_sentinel_in_high_half(v);
        }
        self.0 = lo;
        self.1 = hi;
    }
}

/// Test the `bit` of the cache. If the cache has not been initialized,
/// initializes it with the result of `f()`.
///
/// The half-width counterpart of [`crate::cache::test`]: on its first
/// invocation it runs the detection routine `f` and stores the resulting
/// bitset across the two half words; every later invocation answers from
/// the stored halves without running `f` again.
pub fn test<F: FnOnce() -> Initializer>(cache: &mut Cache, bit: u32, f: F) -> (r: bool)
    requires
        bit < CACHE_CAPACITY,
        old(cache).is_uninit() ==> call_requires(f, ()),
    ensures
        !old(cache).is_uninit() ==> *final(cache) == *old(cache),
        old(cache).is_uninit() ==> exists|init: Initializer|
            {
                &&& #[trigger] call_ensures(f, (), init)
                &&& final(cache).word() == init.value()
            },
        !final(cache).is_uninit(),
        r == bit_set(final(cache).word(), bit),
{
    if cache.is_uninitialized() {
        cache.initialize(f());
    }
    cache.test(bit)
}

/// Split-store safety: the store writes the low half first; whatever
/// detector value `v` is on its way in, a reader that sees only that
/// partial write — low half of `v` down, high half still all ones — reads
/// the pair as uninitialized, never as an initialized state with wrong
/// bits.
pub proof fn lemma_split_store_partial(v: u64)
    ensures
        half_words_uninit(v as u32, u32::MAX),
{
}

} // verus!
