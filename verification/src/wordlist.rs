//! The standard word list: the fixed, ordered dictionary the passphrase
//! generator draws from.
//!
//! The 7776 words are the five-letter spellings of the indices 0..7776 in
//! base six: one fixed six-letter alphabet per position, a consonant-vowel
//! alternation so the words can be read aloud.  Because the letters of a
//! word are exactly the base-six digits of its index, the list is distinct
//! by construction, and that is proved below.

use vstd::arithmetic::div_mod::lemma_fundamental_div_mod;
use vstd::prelude::*;

use crate::dictionary::all_words_shaped;

verus! {

/// The alphabet of letter position `p` (0..5): six distinct letters, never
/// the separator.
pub open spec fn alphabet(p: int) -> Seq<char> {
    if p == 0 {
        seq!['b', 'd', 'f', 'g', 'k', 'm']
    } else if p == 1 {
        seq!['a', 'e', 'i', 'o', 'u', 'y']
    } else if p == 2 {
        seq!['l', 'n', 'r', 's', 't', 'z']
    } else if p == 3 {
        seq!['a', 'e', 'i', 'o', 'u', 'y']
    } else {
        seq!['c', 'h', 'j', 'p', 'v', 'x']
    }
}

/// The word at index `k`: one letter per base-six digit of `k`, most
/// significant digit first.
pub open spec fn word_for(k: int) -> Seq<char> {
    let d0 = k / 1296;
    let r0 = k % 1296;
    let d1 = r0 / 216;
    let r1 = r0 % 216;
    let d2 = r1 / 36;
    let r2 = r1 % 36;
    let d3 = r2 / 6;
    let d4 = r2 % 6;
    seq![
        alphabet(0)[d0],
        alphabet(1)[d1],
        alphabet(2)[d2],
        alphabet(3)[d3],
        alphabet(4)[d4],
    ]
}

/// The standard dictionary as a sequence: the 7776 words in index order.
pub open spec fn standard_words() -> Seq<Seq<char>> {
    Seq::new(7776, |k: int| word_for(k))
}

/// Within one position, different digits spell different letters.
proof fn lemma_alphabet_injective(p: int, a: int, b: int)
    requires
        0 <= p < 5,
        0 <= a < 6,
        0 <= b < 6,
        alphabet(p)[a] == alphabet(p)[b],
    ensures
        a == b,
{
}

/// Different indices spell different words: the letters recover the base-six
/// digits, and the digits recover the index.
proof fn lemma_word_for_injective(i: int, j: int)
    requires
        0 <= i < 7776,
        0 <= j < 7776,
        word_for(i) == word_for(j),
    ensures
        i == j,
{
    assert(word_for(i)[0] == word_for(j)[0]);
    assert(word_for(i)[1] == word_for(j)[1]);
    assert(word_for(i)[2] == word_for(j)[2]);
    assert(word_for(i)[3] == word_for(j)[3]);
    assert(word_for(i)[4] == word_for(j)[4]);
    lemma_alphabet_injective(0, i / 1296, j / 1296);
    lemma_alphabet_injective(1, (i % 1296) / 216, (j % 1296) / 216);
    lemma_alphabet_injective(2, ((i % 1296) % 216) / 36, ((j % 1296) % 216) / 36);
    lemma_alphabet_injective(3, (((i % 1296) % 216) % 36) / 6, (((j % 1296) % 216) % 36) / 6);
    lemma_alphabet_injective(4, (((i % 1296) % 216) % 36) % 6, (((j % 1296) % 216) % 36) % 6);
    lemma_fundamental_div_mod(i, 1296);
    lemma_fundamental_div_mod(j, 1296);
    lemma_fundamental_div_mod(i % 1296, 216);
    lemma_fundamental_div_mod(j % 1296, 216);
    lemma_fundamental_div_mod((i % 1296) % 216, 36);
    lemma_fundamental_div_mod((j % 1296) % 216, 36);
    lemma_fundamental_div_mod(((i % 1296) % 216) % 36, 6);
    lemma_fundamental_div_mod(((j % 1296) % 216) % 36, 6);
}

/// No two entries of the standard dictionary coincide.
pub proof fn lemma_standard_words_distinct()
    ensures
        forall|i: int, j: int|
            0 <= i < j < standard_words().len() ==> standard_words()[i] != standard_words()[j],
{
    assert forall|i: int, j: int|
        0 <= i < j < standard_words().len() implies standard_words()[i]
        != standard_words()[j] by {
        if standard_words()[i] == standard_words()[j] {
            lemma_word_for_injective(i, j);
        }
    }
}

/// Every standard word has exactly five letters and no separator.
pub proof fn lemma_standard_words_shaped()
    ensures
        all_words_shaped(standard_words()),
        forall|k: int|
            0 <= k < standard_words().len() ==> (#[trigger] standard_words()[k]).len() == 5,
{
    assert forall|k: int|
        0 <= k < standard_words().len() implies ((#[trigger] standard_words()[k]).len() == 5
        && standard_words()[k].len() > 0 && !standard_words()[k].contains(' ')) by {
        assert(standard_words()[k] == word_for(k));
        assert(!word_for(k).contains(' ')) by {
            assert forall|t: int| 0 <= t < word_for(k).len() implies #[trigger] word_for(k)[t]
                != ' ' by {
                assert(0 <= k % 1296 < 1296);
                assert(0 <= (k % 1296) % 216 < 216);
                assert(0 <= ((k % 1296) % 216) % 36 < 36);
            }
        }
    }
}

/// The letter of position 0 for digit `d`.
fn letter_0(d: usize) -> (s: &'static str)
    requires
        d < 6,
    ensures
        s@ == seq![alphabet(0)[d as int]],
{
    proof {
        reveal_strlit("b");
        reveal_strlit("d");
        reveal_strlit("f");
        reveal_strlit("g");
        reveal_strlit("k");
        reveal_strlit("m");
    }
    match d {
        0 => "b",
        1 => "d",
        2 => "f",
        3 => "g",
        4 => "k",
        _ => "m",
    }
}

/// The letter of positions 1 and 3 for digit `d`.
fn letter_vowel(d: usize) -> (s: &'static str)
    requires
        d < 6,
    ensures
        s@ == seq![alphabet(1)[d as int]],
        s@ == seq![alphabet(3)[d as int]],
{
    proof {
        reveal_strlit("a");
        reveal_strlit("e");
        reveal_strlit("i");
        reveal_strlit("o");
        reveal_strlit("u");
        reveal_strlit("y");
    }
    match d {
        0 => "a",
        1 => "e",
        2 => "i",
        3 => "o",
        4 => "u",
        _ => "y",
    }
}

/// The letter of position 2 for digit `d`.
fn letter_2(d: usize) -> (s: &'static str)
    requires
        d < 6,
    ensures
        s@ == seq![alphabet(2)[d as int]],
{
    proof {
        reveal_strlit("l");
        reveal_strlit("n");
        reveal_strlit("r");
        reveal_strlit("s");
        reveal_strlit("t");
        reveal_strlit("z");
    }
    match d {
        0 => "l",
        1 => "n",
        2 => "r",
        3 => "s",
        4 => "t",
        _ => "z",
    }
}

/// The letter of position 4 for digit `d`.
fn letter_4(d: usize) -> (s: &'static str)
    requires
        d < 6,
    ensures
        s@ == seq![alphabet(4)[d as int]],
{
    proof {
        reveal_strlit("c");
        reveal_strlit("h");
        reveal_strlit("j");
        reveal_strlit("p");
        reveal_strlit("v");
        reveal_strlit("x");
    }
    match d {
        0 => "c",
        1 => "h",
        2 => "j",
        3 => "p",
        4 => "v",
        _ => "x",
    }
}

/// The standard dictionary words, built in index order.
pub(crate) fn words() -> (v: Vec<String>)
    ensures
        v@.len() == 7776,
        v@.map_values(|w: String| w@) == standard_words(),
{
    let mut v: Vec<String> = Vec::new();
    let mut k: usize = 0;
    while k < 7776
        invariant
            k <= 7776,
            v@.len() == k,
            forall|t: int| 0 <= t < k ==> (#[trigger] v@[t])@ == word_for(t),
        decreases 7776 - k,
    {
        let d0 = k / 1296;
        let r0 = k % 1296;
        let d1 = r0 / 216;
        let r1 = r0 % 216;
        let d2 = r1 / 36;
        let r2 = r1 % 36;
        let d3 = r2 / 6;
        let d4 = r2 % 6;
        let word = String::from_str(letter_0(d0)).concat(letter_vowel(d1)).concat(
            letter_2(d2),
        ).concat(letter_vowel(d3)).concat(letter_4(d4));
        proof {
            assert(word@ =~= word_for(k as int));
        }
        v.push(word);
        k = k + 1;
    }
    proof {
        assert(v@.map_values(|w: String| w@) =~= standard_words());
    }
    v
}

} // verus!
