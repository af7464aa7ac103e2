//! Bit-per-row null tracking for a vector.
//!
//! A mask covers `capacity` rows, one bit per row packed into 64-bit words,
//! bit value 1 meaning "valid" (non-null). A mask that was never written
//! holds no words at all: that is the all-valid fast path, and reading it
//! reports every row as valid. Writing a null first materializes an
//! all-valid mask, then clears the row's bit.

use vstd::prelude::*;

verus! {

/// Number of 64-bit words that give each of `capacity` rows one bit.
pub open spec fn word_count(capacity: nat) -> nat {
    capacity / 64 + if capacity % 64 == 0 {
        0nat
    } else {
        1nat
    }
}

/// Whether bit `bit` of `word` is set.
pub open spec fn word_bit(word: u64, bit: int) -> bool {
    (word >> (bit as u64)) & 1 == 1
}

/// Per-row validity bitmap: bit `row % 64` of word `row / 64` is 1 exactly
/// when row `row` is valid (non-null).
pub struct ValidityMask {
    words: Vec<u64>,
    capacity: usize,
}

impl ValidityMask {
    /// The mask holds backing words. An unmaterialized mask (no words)
    /// means every row is valid.
    pub closed spec fn materialized(&self) -> bool {
        self.words@.len() > 0
    }

    /// Number of rows the mask covers.
    pub closed spec fn spec_capacity(&self) -> nat {
        self.capacity as nat
    }

    /// Either unmaterialized, or exactly one bit per row, with the spare
    /// bits of the last word left set: rows past the capacity never read as
    /// null, so extending the mask keeps them valid.
    pub closed spec fn wf(&self) -> bool {
        !self.materialized() || {
            &&& self.words@.len() == word_count(self.capacity as nat)
            &&& forall|r: int|
                self.spec_capacity() <= r < self.words@.len() * 64 ==> self.is_valid(r)
        }
    }

    /// Row `row` is valid (non-null). Meaningful for `0 <= row < capacity`.
    pub closed spec fn is_valid(&self, row: int) -> bool {
        !self.materialized() || word_bit(self.words@[row / 64], row % 64)
    }

    /// Every row the mask covers is valid.
    pub open spec fn all_valid(&self) -> bool {
        forall|r: int| 0 <= r < self.spec_capacity() ==> self.is_valid(r)
    }

    /// What a null check reads: the negation of "valid".
    pub open spec fn spec_row_is_null(&self, row: int) -> bool {
        !self.is_valid(row)
    }

    /// A fresh mask: covers `capacity` rows, all of them valid, and no
    /// backing words yet.
    pub fn new(capacity: usize) -> (r: ValidityMask)
        ensures
            r.wf(),
            r.spec_capacity() == capacity,
            !r.materialized(),
            r.all_valid(),
    {
        ValidityMask { words: Vec::new(), capacity }
    }

    /// True exactly when row `row` is null. When the mask was never
    /// materialized there is no per-row bit to test and the answer is
    /// `false` for every row.
    pub fn row_is_null(&self, row: u64) -> (r: bool)
        requires
            self.wf(),
            row < self.spec_capacity(),
        ensures
            r == self.spec_row_is_null(row as int),
    {
        if self.words.len() == 0 {
            false
        } else {
            proof {
                lemma_row_word_index(row as int, self.capacity as int);
            }
            let word_index: usize = (row / 64) as usize;
            let bit: u64 = row % 64;
            let word: u64 = self.words[word_index];
            proof {
                assert((word >> bit) & 1 == 0 || (word >> bit) & 1 == 1) by (bit_vector);
            }
            (word >> bit) & 1 == 0
        }
    }

    /// Marks row `row` null: materializes an all-valid mask if none is
    /// backing the vector yet, then clears the row's bit. Every other row
    /// keeps its validity.
    pub fn set_null(&mut self, row: usize)
        requires
            old(self).wf(),
            row < old(self).spec_capacity(),
        ensures
            final(self).wf(),
            final(self).spec_capacity() == old(self).spec_capacity(),
            !final(self).is_valid(row as int),
            forall|r: int|
                0 <= r < old(self).spec_capacity() && r != row ==> final(self).is_valid(r)
                    == old(self).is_valid(r),
    {
        self.ensure_writable();
        let ghost writable: ValidityMask = *self;
        proof {
            lemma_row_word_index(row as int, self.capacity as int);
        }
        let word_index: usize = row / 64;
        let bit: u64 = (row % 64) as u64;
        let word: u64 = self.words[word_index];
        let cleared: u64 = word & !(1u64 << bit);
        proof {
            lemma_clear_bit(word, bit);
        }
        self.words.set(word_index, cleared);
        proof {
            assert forall|r: int|
                0 <= r < old(self).spec_capacity() && r != row implies self.is_valid(r) == old(
                self,
            ).is_valid(r) by {
                lemma_row_word_index(r, self.capacity as int);
                if r / 64 == row as int / 64 {
                    lemma_distinct_rows(r, row as int);
                }
            }
            assert forall|r: int|
                self.spec_capacity() <= r < self.words@.len() * 64 implies self.is_valid(r) by {
                lemma_word_span(r, self.words@.len() as int);
                if r / 64 == row as int / 64 {
                    lemma_distinct_rows(r, row as int);
                }
                assert(writable.is_valid(r));
            }
        }
    }

    /// Extends the mask to cover `capacity` rows. Rows the mask already
    /// covered keep their validity; the new rows start out valid.
    pub fn grow(&mut self, capacity: usize)
        requires
            old(self).wf(),
            old(self).spec_capacity() <= capacity,
        ensures
            final(self).wf(),
            final(self).spec_capacity() == capacity,
            final(self).materialized() == old(self).materialized(),
            forall|r: int|
                0 <= r < old(self).spec_capacity() ==> final(self).is_valid(r) == old(
                    self,
                ).is_valid(r),
            forall|r: int| old(self).spec_capacity() <= r < capacity ==> final(self).is_valid(r),
    {
        if self.words.len() == 0 {
            self.capacity = capacity;
            return ;
        }
        assert(capacity / 64 <= capacity) by (nonlinear_arith);
        let mut target: usize = capacity / 64;
        if capacity % 64 != 0 {
            target = target + 1;
        }
        proof {
            assert(word_count(self.capacity as nat) <= word_count(capacity as nat))
                by (nonlinear_arith)
                requires
                    self.capacity <= capacity,
            ;
        }
        let ghost old_words: Seq<u64> = self.words@;
        while self.words.len() < target
            invariant
                old_words.len() <= self.words@.len() <= target,
                self.words@.subrange(0, old_words.len() as int) == old_words,
                forall|k: int|
                    old_words.len() <= k < self.words@.len() ==> self.words@[k] == u64::MAX,
            decreases target - self.words@.len(),
        {
            self.words.push(u64::MAX);
            proof {
                assert(self.words@.subrange(0, old_words.len() as int) =~= old_words);
            }
        }
        self.capacity = capacity;
        proof {
            assert forall|r: int|
                0 <= r < old(self).spec_capacity() implies self.is_valid(r) == old(
                self,
            ).is_valid(r) by {
                lemma_row_word_index(r, old(self).spec_capacity() as int);
                assert(self.words@[r / 64] == old_words[r / 64]);
            }
            assert forall|r: int|
                old(self).spec_capacity() <= r < self.words@.len() * 64 implies self.is_valid(
                r,
            ) by {
                lemma_word_span(r, self.words@.len() as int);
                if r / 64 < old_words.len() {
                    assert(r < old_words.len() * 64) by (nonlinear_arith)
                        requires
                            0 <= r,
                            r / 64 < old_words.len(),
                    ;
                    assert(old(self).is_valid(r));
                    assert(self.words@[r / 64] == old_words[r / 64]);
                } else {
                    assert(self.words@[r / 64] == u64::MAX);
                    lemma_max_bit(r % 64);
                }
            }
            lemma_capacity_words(capacity as int);
        }
    }

    /// Materializes the backing words if the mask has none, leaving every
    /// row valid; a materialized mask is left as it is.
    fn ensure_writable(&mut self)
        requires
            old(self).wf(),
        ensures
            final(self).wf(),
            final(self).materialized() || final(self).spec_capacity() == 0,
            final(self).spec_capacity() == old(self).spec_capacity(),
            forall|r: int|
                0 <= r < old(self).spec_capacity() ==> final(self).is_valid(r) == old(
                    self,
                ).is_valid(r),
            final(self).words@.len() == word_count(old(self).spec_capacity()),
    {
        if self.words.len() > 0 {
            return ;
        }
        assert(self.capacity / 64 <= self.capacity) by (nonlinear_arith);
        let mut target: usize = self.capacity / 64;
        if self.capacity % 64 != 0 {
            target = target + 1;
        }
        let mut words: Vec<u64> = Vec::new();
        while words.len() < target
            invariant
                words@.len() <= target,
                forall|k: int| 0 <= k < words@.len() ==> words@[k] == u64::MAX,
            decreases target - words@.len(),
        {
            words.push(u64::MAX);
        }
        self.words = words;
        proof {
            assert forall|r: int| 0 <= r < self.words@.len() * 64 implies self.is_valid(r) by {
                lemma_word_span(r, self.words@.len() as int);
                lemma_max_bit(r % 64);
            }
            lemma_capacity_words(self.capacity as int);
        }
    }
}

/// The word and bit a row maps to lie inside a mask of `word_count(cap)`
/// words, and a bit index is below 64.
proof fn lemma_row_word_index(row: int, cap: int)
    requires
        0 <= row < cap,
    ensures
        0 <= row / 64 < word_count(cap as nat),
        0 <= row % 64 < 64,
{
    assert(0 <= row / 64 && 0 <= row % 64 < 64 && row / 64 < cap / 64 + if cap % 64 == 0 {
        0int
    } else {
        1int
    }) by (nonlinear_arith)
        requires
            0 <= row < cap,
    ;
}

/// A row below `n * 64` maps to one of the first `n` words.
proof fn lemma_word_span(r: int, n: int)
    requires
        0 <= r < n * 64,
    ensures
        0 <= r / 64 < n,
        0 <= r % 64 < 64,
{
    assert(0 <= r / 64 < n && 0 <= r % 64 < 64) by (nonlinear_arith)
        requires
            0 <= r < n * 64,
    ;
}

/// A mask's words cover at least its capacity in bits.
proof fn lemma_capacity_words(cap: int)
    requires
        0 <= cap,
    ensures
        cap <= word_count(cap as nat) * 64,
{
    assert(cap <= (cap / 64 + if cap % 64 == 0 {
        0int
    } else {
        1int
    }) * 64) by (nonlinear_arith)
        requires
            0 <= cap,
    ;
}

/// Two distinct rows that share a word use distinct bits.
proof fn lemma_distinct_rows(r: int, row: int)
    requires
        0 <= r,
        0 <= row,
        r != row,
        r / 64 == row / 64,
    ensures
        r % 64 != row % 64,
{
    vstd::arithmetic::div_mod::lemma_fundamental_div_mod(r, 64);
    vstd::arithmetic::div_mod::lemma_fundamental_div_mod(row, 64);
}

/// Clearing one bit of a word leaves every other bit as it was.
proof fn lemma_clear_bit(word: u64, bit: u64)
    requires
        bit < 64,
    ensures
        !word_bit(word & !(1u64 << bit), bit as int),
        forall|i: int|
            0 <= i < 64 && i != bit ==> word_bit(word & !(1u64 << bit), i) == word_bit(word, i),
{
    assert(((word & !(1u64 << bit)) >> bit) & 1 != 1) by (bit_vector)
        requires
            bit < 64,
    ;
    assert forall|i: int| 0 <= i < 64 && i != bit implies word_bit(word & !(1u64 << bit), i)
        == word_bit(word, i) by {
        let j: u64 = i as u64;
        assert(((word & !(1u64 << bit)) >> j) & 1 == (word >> j) & 1) by (bit_vector)
            requires
                j < 64,
                bit < 64,
                j != bit,
        ;
    }
}

/// Every bit of an all-ones word is set.
proof fn lemma_max_bit(i: int)
    requires
        0 <= i < 64,
    ensures
        word_bit(u64::MAX, i),
{
    let j: u64 = i as u64;
    assert((0xffff_ffff_ffff_ffffu64 >> j) & 1 == 1) by (bit_vector)
        requires
            j < 64,
    ;
}

/// A row marked null reads back as null.
pub proof fn lemma_marked_row_reads_null(m: &ValidityMask, row: int)
    requires
        !m.is_valid(row),
    ensures
        m.spec_row_is_null(row),
{
}

/// On a mask whose rows were never marked null, no row reads as null.
pub proof fn lemma_fresh_row_reads_not_null(m: &ValidityMask, row: int)
    requires
        m.all_valid(),
        0 <= row < m.spec_capacity(),
    ensures
        !m.spec_row_is_null(row),
{
}

} // verus!
