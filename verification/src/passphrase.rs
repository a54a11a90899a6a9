//! Passphrase generation: uniform word draws joined by single spaces.

use vstd::prelude::*;

use crate::dictionary::Dictionary;
use crate::os_random::os_random_pair;
use crate::wordlist::standard_words;

verus! {

/// Why a passphrase could not be generated.
#[derive(Clone, Copy, PartialEq, Eq, Structural, Debug)]
pub enum GenerateError {
    /// The secure random source could not produce output.  The generator
    /// never falls back to a weaker source.
    RandomSourceUnavailable,
}

/// The words joined by single spaces: no leading or trailing space, and the
/// empty sequence of words gives the empty string.
pub open spec fn join_spaces(ws: Seq<Seq<char>>) -> Seq<char>
    decreases ws.len(),
{
    if ws.len() == 0 {
        Seq::empty()
    } else if ws.len() == 1 {
        ws[0]
    } else {
        join_spaces(ws.drop_last()) + seq![' '] + ws.last()
    }
}

/// `p` is a passphrase of `n` words of `dict` joined by single spaces.
pub open spec fn is_passphrase(dict: Seq<Seq<char>>, n: nat, p: Seq<char>) -> bool {
    exists|ws: Seq<Seq<char>>|
        #[trigger] ws.len() == n && (forall|k: int|
            0 <= k < ws.len() ==> dict.contains(#[trigger] ws[k])) && p == join_spaces(ws)
}

/// Joins the words with exactly one space between neighbours.
pub fn join_with_spaces(words: &Vec<&str>) -> (r: String)
    ensures
        r@ == join_spaces(words@.map_values(|w: &str| w@)),
{
    let ghost vs = words@.map_values(|w: &str| w@);
    let mut r = String::new();
    let mut i: usize = 0;
    while i < words.len()
        invariant
            i <= words.len(),
            vs == words@.map_values(|w: &str| w@),
            r@ == join_spaces(vs.take(i as int)),
        decreases words.len() - i,
    {
        if i > 0 {
            r.append(" ");
        }
        r.append(words[i]);
        proof {
            reveal_strlit(" ");
            assert(vs.take(i as int + 1).drop_last() =~= vs.take(i as int));
            assert(vs.take(i as int + 1).last() == vs[i as int]);
        }
        i = i + 1;
    }
    proof {
        assert(vs.take(words@.len() as int) =~= vs);
    }
    r
}

/// The 13-bit draw candidate held in a random byte pair: the low five bits
/// of the first byte above the whole second byte.
fn candidate_from_pair(hi: u8, lo: u8) -> (v: usize)
    ensures
        v == (hi as int % 32) * 256 + lo as int,
        v < 8192,
{
    (hi as usize % 32) * 256 + (lo as usize)
}

/// One uniform index below `len`, drawn by rejection from 13 random bits, so
/// that every index is equally likely.  After 64 rejected draws in a row
/// (vanishing probability under a working source) the source is treated as
/// unavailable.
fn draw_index(len: usize) -> (r: Result<usize, GenerateError>)
    requires
        0 < len <= 8192,
    ensures
        r matches Ok(i) ==> i < len,
{
    let mut attempts: u8 = 0;
    while attempts < 64
        invariant
            0 < len <= 8192,
        decreases 64 - attempts,
    {
        let pair = match os_random_pair() {
            Ok(pair) => pair,
            Err(_) => {
                return Err(GenerateError::RandomSourceUnavailable);
            },
        };
        let v = candidate_from_pair(pair.0, pair.1);
        if v < len {
            return Ok(v);
        }
        attempts = attempts + 1;
    }
    Err(GenerateError::RandomSourceUnavailable)
}

/// Generates a passphrase of `word_count` words drawn uniformly and
/// independently, with replacement, from `dict`.  Zero words always succeed
/// with the empty string; otherwise the draw fails only when the secure
/// random source does.
pub fn generate_from_dictionary(dict: &Dictionary, word_count: u8) -> (r: Result<
    String,
    GenerateError,
>)
    requires
        dict.wf(),
    ensures
        (r matches Ok(p) ==> is_passphrase(dict@, word_count as nat, p@)),
        word_count == 0 ==> (r matches Ok(p) && p@ == Seq::<char>::empty()),
{
    let mut chosen: Vec<&str> = Vec::new();
    let mut i: u8 = 0;
    while i < word_count
        invariant
            i <= word_count,
            dict.wf(),
            chosen@.len() == i as nat,
            forall|k: int| 0 <= k < chosen@.len() ==> dict@.contains(#[trigger] chosen@[k]@),
        decreases word_count - i,
    {
        let idx = match draw_index(dict.len()) {
            Ok(idx) => idx,
            Err(e) => {
                return Err(e);
            },
        };
        let w = dict.word(idx);
        proof {
            assert(dict@[idx as int] == w@);
            assert(dict@.contains(w@));
        }
        chosen.push(w);
        i = i + 1;
    }
    let p = join_with_spaces(&chosen);
    proof {
        let ws = chosen@.map_values(|w: &str| w@);
        assert(forall|k: int| 0 <= k < ws.len() ==> dict@.contains(#[trigger] ws[k]));
        assert(ws.len() == word_count as nat && (forall|k: int|
            0 <= k < ws.len() ==> dict@.contains(#[trigger] ws[k])) && p@ == join_spaces(ws));
    }
    Ok(p)
}

/// Generates a passphrase of `word_count` words drawn uniformly and
/// independently from the standard dictionary, the fixed 7776-word asset
/// `standard_words()`.  Zero words give the empty string.
pub fn generate_passphrase(word_count: u8) -> (r: Result<String, GenerateError>)
    ensures
        (r matches Ok(p) ==> is_passphrase(standard_words(), word_count as nat, p@)),
        word_count == 0 ==> (r matches Ok(p) && p@ == Seq::<char>::empty()),
{
    let dict = Dictionary::standard();
    generate_from_dictionary(&dict, word_count)
}

} // verus!
