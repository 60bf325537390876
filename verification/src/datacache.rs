//! The host-call data cache: a content-addressed store of 64-bit words,
//! keyed by a 256-bit hash fed in as four 64-bit limbs.
//!
//! This is the decision core of the cache protocol.  The backing record
//! store is external: when the fourth hash limb arrives, the context hands
//! the caller a fetch or store action for the store to perform; a fetch's
//! result is handed back through [`CacheContext::provide_fetched`].  Reading
//! the fetched data follows the host convention: the first read returns the
//! length, each further read pops the next word.
//!
//! The record store itself keeps bytes: a record is its words laid out in
//! little-endian order, eight bytes per word, converted by
//! [`words_to_le_bytes`] and [`le_bytes_to_words`]; the conversion is proved
//! to round-trip.

use vstd::arithmetic::div_mod::{lemma_div_denominator, lemma_fundamental_div_mod};
use vstd::prelude::*;

verus! {

/// The mode value selecting fetches.
pub const FETCH_MODE: u64 = 0;

/// The mode value selecting stores.
pub const STORE_MODE: u64 = 1;

/// What the external record store must do once a full hash has arrived.
pub enum CacheAction {
    Fetch { hash: Vec<u64> },
    Store { hash: Vec<u64>, data: Vec<u64> },
}

pub struct CacheContext {
    pub mode: u64,
    pub hash: Vec<u64>,
    pub data: Vec<u64>,
    pub fetch: bool,
}

impl CacheContext {
    /// Between calls the hash accumulator holds fewer than four limbs.
    pub open spec fn wf(self) -> bool {
        self.hash@.len() < 4
    }

    pub fn new() -> (r: CacheContext)
        ensures
            r.wf(),
            r.mode == 0,
            r.hash@.len() == 0,
            r.data@.len() == 0,
            !r.fetch,
    {
        CacheContext { mode: 0, hash: Vec::new(), data: Vec::new(), fetch: false }
    }

    /// Select fetch or store mode and drop any buffered data.
    pub fn set_mode(&mut self, v: u64)
        requires
            old(self).wf(),
        ensures
            final(self).wf(),
            final(self).mode == v,
            final(self).data@.len() == 0,
            final(self).hash@ == old(self).hash@,
            final(self).fetch == old(self).fetch,
    {
        self.mode = v;
        self.data = Vec::new();
    }

    /// Feed one hash limb.  The fourth limb completes the key and yields the
    /// action the record store must perform: a fetch in fetch mode, a store
    /// of the buffered data in store mode (none when nothing is buffered).
    pub fn set_data_hash(&mut self, v: u64) -> (r: Option<CacheAction>)
        requires
            old(self).wf(),
        ensures
            final(self).wf(),
            final(self).mode == old(self).mode,
            old(self).hash@.len() < 3 ==> (r is None && final(self).hash@ == old(self).hash@.push(
                v,
            ) && final(self).data@ == old(self).data@ && final(self).fetch == old(self).fetch),
            old(self).hash@.len() == 3 ==> (final(self).hash@.len() == 0 && ({
                let full = old(self).hash@.push(v);
                if old(self).mode == FETCH_MODE {
                    (r matches Some(CacheAction::Fetch { hash }) && hash@ == full
                        && !final(self).fetch && final(self).data@ == old(self).data@)
                } else if old(self).mode == STORE_MODE && old(self).data@.len() > 0 {
                    (r matches Some(CacheAction::Store { hash, data }) && hash@ == full && data@
                        == old(self).data@ && final(self).data@ == old(self).data@)
                } else {
                    (r is None && final(self).data@ == old(self).data@)
                }
            })),
    {
        self.hash.push(v);
        if self.hash.len() == 4 {
            let mut hash: Vec<u64> = Vec::new();
            core::mem::swap(&mut hash, &mut self.hash);
            if self.mode == FETCH_MODE {
                self.fetch = false;
                Some(CacheAction::Fetch { hash })
            } else if self.mode == STORE_MODE && self.data.len() > 0 {
                let mut data: Vec<u64> = Vec::new();
                let mut k: usize = 0;
                let n = self.data.len();
                while k < n
                    invariant
                        k <= n,
                        n == self.data@.len(),
                        data@ == self.data@.subrange(0, k as int),
                    decreases n - k,
                {
                    let x = self.data[k];
                    data.push(x);
                    proof {
                        assert(data@ == self.data@.subrange(0, k + 1));
                    }
                    k = k + 1;
                }
                proof {
                    assert(data@ == self.data@);
                }
                Some(CacheAction::Store { hash, data })
            } else {
                None
            }
        } else {
            None
        }
    }

    /// Hand back the words an earlier fetch action read from the record
    /// store (an absent record is the empty sequence).
    pub fn provide_fetched(&mut self, data: Vec<u64>)
        requires
            old(self).wf(),
        ensures
            final(self).wf(),
            final(self).data@ == data@,
            !final(self).fetch,
            final(self).mode == old(self).mode,
            final(self).hash@ == old(self).hash@,
    {
        self.data = data;
        self.fetch = false;
    }

    /// Read the fetched data: the first call returns the word count and
    /// turns the buffer around; each further call pops the next word.
    pub fn fetch_data(&mut self) -> (r: u64)
        requires
            old(self).wf(),
            old(self).fetch ==> old(self).data@.len() > 0,
        ensures
            final(self).wf(),
            final(self).fetch,
            final(self).mode == old(self).mode,
            final(self).hash@ == old(self).hash@,
            !old(self).fetch ==> (r == old(self).data@.len() && final(self).data@ == old(
                self,
            ).data@.reverse()),
            old(self).fetch ==> (r == old(self).data@.last() && final(self).data@ == old(
                self,
            ).data@.drop_last()),
    {
        if !self.fetch {
            self.fetch = true;
            let n = self.data.len();
            let mut rev: Vec<u64> = Vec::new();
            let mut k: usize = 0;
            while k < n
                invariant
                    k <= n,
                    n == self.data@.len(),
                    rev@.len() == k,
                    forall|i: int| 0 <= i < k ==> rev@[i] == self.data@[n - 1 - i],
                decreases n - k,
            {
                let x = self.data[n - 1 - k];
                rev.push(x);
                k = k + 1;
            }
            self.data = rev;
            proof {
                assert(self.data@ =~= old(self).data@.reverse());
            }
            n as u64
        } else {
            let r = self.data.pop().unwrap();
            r
        }
    }

    /// Buffer one word for a later store action.
    pub fn store_data(&mut self, v: u64)
        requires
            old(self).wf(),
        ensures
            final(self).wf(),
            final(self).data@ == old(self).data@.push(v),
            final(self).mode == old(self).mode,
            final(self).hash@ == old(self).hash@,
            final(self).fetch == old(self).fetch,
    {
        self.data.push(v);
    }
}

/// The little-endian bytes of a word: byte `k` holds bits `8k..8k+8`.
pub open spec fn word_byte(w: u64, k: int) -> u8
    recommends
        0 <= k < 8,
{
    ((w as int / if k == 0 {
        1int
    } else if k == 1 {
        0x100int
    } else if k == 2 {
        0x1_0000int
    } else if k == 3 {
        0x100_0000int
    } else if k == 4 {
        0x1_0000_0000int
    } else if k == 5 {
        0x100_0000_0000int
    } else if k == 6 {
        0x1_0000_0000_0000int
    } else {
        0x100_0000_0000_0000int
    }) % 0x100) as u8
}

/// The word starting at byte `8j` of a little-endian record.
pub open spec fn word_of_le_bytes(bytes: Seq<u8>, j: int) -> int
    recommends
        0 <= j,
        8 * j + 8 <= bytes.len(),
{
    bytes[8 * j] + bytes[8 * j + 1] * 0x100 + bytes[8 * j + 2] * 0x1_0000 + bytes[8 * j + 3]
        * 0x100_0000 + bytes[8 * j + 4] * 0x1_0000_0000 + bytes[8 * j + 5] * 0x100_0000_0000
        + bytes[8 * j + 6] * 0x1_0000_0000_0000 + bytes[8 * j + 7] * 0x100_0000_0000_0000
}

/// Every word is the weighted sum of its eight little-endian bytes.
pub proof fn lemma_word_bytes(w: u64)
    ensures
        word_byte(w, 0) + word_byte(w, 1) * 0x100 + word_byte(w, 2) * 0x1_0000 + word_byte(w, 3)
            * 0x100_0000 + word_byte(w, 4) * 0x1_0000_0000 + word_byte(w, 5) * 0x100_0000_0000
            + word_byte(w, 6) * 0x1_0000_0000_0000 + word_byte(w, 7) * 0x100_0000_0000_0000 == w,
{
    let a = w as int;
    lemma_fundamental_div_mod(a, 0x100);
    lemma_fundamental_div_mod(a / 0x100, 0x100);
    lemma_div_denominator(a, 0x100, 0x100);
    lemma_fundamental_div_mod(a / 0x1_0000, 0x100);
    lemma_div_denominator(a, 0x1_0000, 0x100);
    lemma_fundamental_div_mod(a / 0x100_0000, 0x100);
    lemma_div_denominator(a, 0x100_0000, 0x100);
    lemma_fundamental_div_mod(a / 0x1_0000_0000, 0x100);
    lemma_div_denominator(a, 0x1_0000_0000, 0x100);
    lemma_fundamental_div_mod(a / 0x100_0000_0000, 0x100);
    lemma_div_denominator(a, 0x100_0000_0000, 0x100);
    lemma_fundamental_div_mod(a / 0x1_0000_0000_0000, 0x100);
    lemma_div_denominator(a, 0x1_0000_0000_0000, 0x100);
    assert((a / 0x100_0000_0000_0000) % 0x100 == a / 0x100_0000_0000_0000) by {
        lemma_fundamental_div_mod(a, 0x100_0000_0000_0000);
        lemma_fundamental_div_mod(a / 0x100_0000_0000_0000, 0x100);
    }
}

/// Lay the words out as a little-endian byte record, eight bytes per word.
/// The stated byte values make the conversion injective: decoding the record
/// recovers every word.
pub fn words_to_le_bytes(data: &Vec<u64>) -> (r: Vec<u8>)
    ensures
        r@.len() == 8 * data@.len(),
        forall|j: int, k: int|
            0 <= j < data@.len() && 0 <= k < 8 ==> #[trigger] r@[8 * j + k] == word_byte(
                data@[j],
                k,
            ),
        forall|j: int| 0 <= j < data@.len() ==> word_of_le_bytes(r@, j) == #[trigger] data@[j],
{
    let mut r: Vec<u8> = Vec::new();
    let mut j: usize = 0;
    let n = data.len();
    while j < n
        invariant
            j <= n,
            n == data@.len(),
            r@.len() == 8 * j,
            forall|j2: int, k: int|
                0 <= j2 < j && 0 <= k < 8 ==> #[trigger] r@[8 * j2 + k] == word_byte(
                    data@[j2],
                    k,
                ),
        decreases n - j,
    {
        let w = data[j];
        r.push((w % 0x100) as u8);
        r.push(((w / 0x100) % 0x100) as u8);
        r.push(((w / 0x1_0000) % 0x100) as u8);
        r.push(((w / 0x100_0000) % 0x100) as u8);
        r.push(((w / 0x1_0000_0000) % 0x100) as u8);
        r.push(((w / 0x100_0000_0000) % 0x100) as u8);
        r.push(((w / 0x1_0000_0000_0000) % 0x100) as u8);
        r.push(((w / 0x100_0000_0000_0000) % 0x100) as u8);
        j = j + 1;
    }
    proof {
        assert forall|j2: int| 0 <= j2 < data@.len() implies word_of_le_bytes(r@, j2)
            == #[trigger] data@[j2] by {
            assert(r@[8 * j2 + 0] == word_byte(data@[j2], 0));
            assert(r@[8 * j2 + 1] == word_byte(data@[j2], 1));
            assert(r@[8 * j2 + 2] == word_byte(data@[j2], 2));
            assert(r@[8 * j2 + 3] == word_byte(data@[j2], 3));
            assert(r@[8 * j2 + 4] == word_byte(data@[j2], 4));
            assert(r@[8 * j2 + 5] == word_byte(data@[j2], 5));
            assert(r@[8 * j2 + 6] == word_byte(data@[j2], 6));
            assert(r@[8 * j2 + 7] == word_byte(data@[j2], 7));
            lemma_word_bytes(data@[j2]);
        }
    }
    r
}

/// Decode a little-endian byte record back into its words.
pub fn le_bytes_to_words(bytes: &Vec<u8>) -> (r: Vec<u64>)
    requires
        bytes@.len() % 8 == 0,
    ensures
        r@.len() == bytes@.len() / 8,
        forall|j: int| 0 <= j < r@.len() ==> #[trigger] r@[j] == word_of_le_bytes(bytes@, j),
{
    let mut r: Vec<u64> = Vec::new();
    let mut j: usize = 0;
    let n = bytes.len() / 8;
    proof {
        lemma_fundamental_div_mod(bytes@.len() as int, 8);
    }
    while j < n
        invariant
            j <= n,
            8 * n == bytes@.len(),
            8 * n <= usize::MAX,
            r@.len() == j,
            forall|j2: int| 0 <= j2 < j ==> #[trigger] r@[j2] == word_of_le_bytes(bytes@, j2),
        decreases n - j,
    {
        proof {
            assert(8 * j + 8 <= bytes@.len());
        }
        let base = 8 * j;
        let w: u64 = bytes[base] as u64 + (bytes[base + 1] as u64) * 0x100 + (bytes[base
            + 2] as u64) * 0x1_0000 + (bytes[base + 3] as u64) * 0x100_0000 + (bytes[base
            + 4] as u64) * 0x1_0000_0000 + (bytes[base + 5] as u64) * 0x100_0000_0000 + (bytes[base
            + 6] as u64) * 0x1_0000_0000_0000 + (bytes[base + 7] as u64) * 0x100_0000_0000_0000;
        r.push(w);
        j = j + 1;
    }
    r
}

} // verus!
