//! The fixed dictionary of passphrase words.

use vstd::prelude::*;

verus! {

/// The fixed, ordered list of words that passphrases draw from.  It is
/// loaded once per use and never mutated.
pub struct Dictionary {
    words: Vec<String>,
}

impl View for Dictionary {
    type V = Seq<Seq<char>>;

    closed spec fn view(&self) -> Seq<Seq<char>> {
        self.words@.map_values(|w: String| w@)
    }
}

/// Every word of the list is non-empty and free of the separator.
pub open spec fn all_words_shaped(ws: Seq<Seq<char>>) -> bool {
    forall|k: int| 0 <= k < ws.len() ==> (#[trigger] ws[k]).len() > 0 && !ws[k].contains(' ')
}

impl Dictionary {
    /// A usable dictionary: non-empty, small enough for an unbiased 13-bit
    /// index draw, and made of words that can stand in a passphrase.
    pub open spec fn wf(&self) -> bool {
        0 < self@.len() <= 8192 && all_words_shaped(self@)
    }

    /// The dictionary shipped with the library: exactly the fixed asset
    /// `standard_words()`, 7776 distinct five-letter words.
    pub fn standard() -> (d: Dictionary)
        ensures
            d.wf(),
            d@ == crate::wordlist::standard_words(),
            d@.len() == 7776,
            forall|i: int, j: int| 0 <= i < j < d@.len() ==> d@[i] != d@[j],
            forall|k: int| 0 <= k < d@.len() ==> (#[trigger] d@[k]).len() == 5,
    {
        proof {
            crate::wordlist::lemma_standard_words_distinct();
            crate::wordlist::lemma_standard_words_shaped();
        }
        Dictionary { words: crate::wordlist::words() }
    }

    /// How many words the dictionary holds.
    pub fn len(&self) -> (n: usize)
        ensures
            n == self@.len(),
    {
        self.words.len()
    }

    /// The word at index `i`.
    pub fn word(&self, i: usize) -> (w: &str)
        requires
            i < self@.len(),
        ensures
            w@ == self@[i as int],
    {
        self.words[i].as_str()
    }
}

} // verus!
