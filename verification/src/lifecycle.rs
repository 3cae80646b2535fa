//! The lifecycle ledger: a coarse marker of how far the previous run got,
//! persisted across hardware resets in two retained 32-bit words.
//!
//! Word 0 holds the marker value, word 1 holds the marker XORed with a fixed
//! checksum constant. A read is valid only if both words agree under the
//! checksum; anything else degrades to "no prior marker", which is a normal
//! case (cold power-on) and never an error.

use vstd::prelude::*;

verus! {

/// The checksum XOR constant tying the two retained words together.
pub const CHECKSUM_XOR: u32 = 0x2144DF9C;

/// Checksum word that accompanies a stored marker.
pub open spec fn checksum_of(marker: u32) -> u32 {
    marker ^ CHECKSUM_XOR
}

/// A retained word pair is valid iff word 0 equals word 1 XOR the constant.
pub open spec fn valid_pair(word0: u32, word1: u32) -> bool {
    word0 == word1 ^ CHECKSUM_XOR
}

/// What a load of the retained words yields: the marker when the checksum
/// holds, nothing when the pair is absent, torn or corrupted.
pub open spec fn decoded(word0: u32, word1: u32) -> Option<u32> {
    if valid_pair(word0, word1) {
        Some(word0)
    } else {
        None
    }
}

/// The lifecycle ledger: the two reset-surviving scratch words.
pub struct Lifecycle {
    /// Retained word 0: the raw marker value.
    pub word0: u32,
    /// Retained word 1: the marker XORed with the checksum constant.
    pub word1: u32,
}

impl Lifecycle {
    /// The watchdog has been started, but not much more happened.
    pub const WATCHDOG_STARTED: u32 = 367300213;
    /// The radio peripheral has been initialized.
    pub const RADIO_READY: u32 = 968074460;
    /// The main application logic has been entered.
    pub const APP_ENTERED: u32 = 3422455895;
    /// The cycle finished gracefully and the node went to sleep.
    pub const CYCLE_COMPLETE: u32 = 156439317;

    /// Wraps the two retained words as they were found after a reset,
    /// whatever they hold.
    pub fn from_words(word0: u32, word1: u32) -> (r: Self)
        ensures
            r.word0 == word0,
            r.word1 == word1,
    {
        Lifecycle { word0, word1 }
    }

    /// Persists the given marker: writes the raw value and its checksum word.
    pub fn store(&mut self, marker: u32)
        ensures
            final(self).word0 == marker,
            final(self).word1 == checksum_of(marker),
            decoded(final(self).word0, final(self).word1) == Some(marker),
    {
        self.word0 = marker;
        self.word1 = marker ^ CHECKSUM_XOR;
        proof {
            lemma_store_load_round_trip(marker);
        }
    }

    /// Loads the last-persisted marker, or nothing if the retained words do
    /// not agree under the checksum (first boot, torn write, corruption).
    pub fn load(&self) -> (r: Option<u32>)
        ensures
            r == decoded(self.word0, self.word1),
    {
        if self.word0 == self.word1 ^ CHECKSUM_XOR {
            Some(self.word0)
        } else {
            None
        }
    }
}

/// Storing any marker and loading it back yields exactly that marker.
pub proof fn lemma_store_load_round_trip(marker: u32)
    ensures
        decoded(marker, checksum_of(marker)) == Some(marker),
{
    assert(marker == (marker ^ 0x2144DF9Cu32) ^ 0x2144DF9Cu32) by (bit_vector);
}

/// Corrupting the marker word alone is always detected: a load yields nothing.
pub proof fn lemma_corrupt_marker_word_detected(marker: u32, word0: u32)
    requires
        word0 != marker,
    ensures
        decoded(word0, checksum_of(marker)) is None,
{
    assert(word0 != marker ==> word0 != (marker ^ 0x2144DF9Cu32) ^ 0x2144DF9Cu32) by (bit_vector);
}

/// Corrupting the checksum word alone is always detected: a load yields
/// nothing.
pub proof fn lemma_corrupt_checksum_word_detected(marker: u32, word1: u32)
    requires
        word1 != checksum_of(marker),
    ensures
        decoded(marker, word1) is None,
{
    assert(word1 != (marker ^ 0x2144DF9Cu32) ==> marker != word1 ^ 0x2144DF9Cu32) by (bit_vector);
}

} // verus!
