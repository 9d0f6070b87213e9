//! The structural fingerprint accumulator.
//!
//! A fingerprint is an order-sensitive, type-tagged stream of words: each
//! widget appends a kind marker and then every field that affects its layout,
//! in a fixed order. The encoding is injective on those fields, so two widget
//! trees carry the same fingerprint exactly when all their layout-relevant
//! fields agree — a changed field can never be mistaken for an unchanged one.

use vstd::prelude::*;
use vstd::string::StrSliceExecFns;
use crate::length::Length;

verus! {

/// One word per character of a string.
pub open spec fn char_words(s: Seq<char>) -> Seq<u64> {
    Seq::new(s.len(), |i: int| s[i] as u64)
}

/// The encoding of a string: its length, then its characters. The length
/// prefix keeps the encoding injective inside a longer stream.
pub open spec fn str_words(s: Seq<char>) -> Seq<u64> {
    seq![s.len() as u64] + char_words(s)
}

/// The encoding of an optional 16-bit value: a presence tag, then the value.
pub open spec fn opt_u16_words(v: Option<u16>) -> Seq<u64> {
    match v {
        None => seq![0u64, 0u64],
        Some(x) => seq![1u64, x as u64],
    }
}

/// The encoding of a sizing policy: a variant tag, then its payload.
pub open spec fn length_words(l: Length) -> Seq<u64> {
    match l {
        Length::Fill => seq![0u64, 0u64],
        Length::FillPortion(p) => seq![1u64, p as u64],
        Length::Shrink => seq![2u64, 0u64],
        Length::Units(u) => seq![3u64, u as u64],
    }
}

/// The accumulator a widget tree's fingerprint is threaded through.
pub struct Hasher {
    pub words: Vec<u64>,
}

impl View for Hasher {
    type V = Seq<u64>;

    open spec fn view(&self) -> Seq<u64> {
        self.words@
    }
}

impl Hasher {
    /// An empty accumulator.
    pub fn new() -> (h: Hasher)
        ensures
            h@ == Seq::<u64>::empty(),
    {
        Hasher { words: Vec::new() }
    }

    /// Appends one word.
    pub fn write(&mut self, word: u64)
        ensures
            final(self)@ == old(self)@.push(word),
    {
        self.words.push(word);
    }

    /// Appends a string as its injective word encoding.
    pub fn write_str(&mut self, s: &str)
        ensures
            final(self)@ == old(self)@ + str_words(s@),
    {
        let ghost initial: Seq<u64> = self@;
        let n = s.unicode_len();
        self.write(n as u64);
        let mut i: usize = 0;
        while i < n
            invariant
                i <= n,
                n as nat == s@.len(),
                self@ == initial + seq![n as u64] + char_words(s@).subrange(0, i as int),
            decreases n - i,
        {
            let c = s.get_char(i);
            self.write(c as u64);
            proof {
                assert(self@ =~= initial + seq![n as u64] + char_words(s@).subrange(
                    0,
                    i as int + 1,
                ));
            }
            i = i + 1;
        }
        proof {
            assert(char_words(s@).subrange(0, n as int) =~= char_words(s@));
            assert(self@ =~= initial + str_words(s@));
        }
    }

    /// Appends an optional 16-bit value.
    pub fn write_opt_u16(&mut self, v: Option<u16>)
        ensures
            final(self)@ == old(self)@ + opt_u16_words(v),
    {
        match v {
            None => {
                self.write(0);
                self.write(0);
            },
            Some(x) => {
                self.write(1);
                self.write(x as u64);
            },
        }
        proof {
            assert(self@ =~= old(self)@ + opt_u16_words(v));
        }
    }

    /// Appends a sizing policy.
    pub fn write_length(&mut self, l: Length)
        ensures
            final(self)@ == old(self)@ + length_words(l),
    {
        match l {
            Length::Fill => {
                self.write(0);
                self.write(0);
            },
            Length::FillPortion(p) => {
                self.write(1);
                self.write(p as u64);
            },
            Length::Shrink => {
                self.write(2);
                self.write(0);
            },
            Length::Units(u) => {
                self.write(3);
                self.write(u as u64);
            },
        }
        proof {
            assert(self@ =~= old(self)@ + length_words(l));
        }
    }

    /// The accumulated fingerprint.
    pub fn finish(self) -> (r: Vec<u64>)
        ensures
            r@ == self@,
    {
        self.words
    }
}

/// Characters are their code points: equal words decode to equal
/// characters.
pub proof fn lemma_char_cast_injective(x: char, y: char)
    requires
        x as u64 == y as u64,
    ensures
        x == y,
{
}

/// The string encoding is injective: equal encodings come from equal
/// strings.
pub proof fn lemma_str_words_injective(s: Seq<char>, t: Seq<char>)
    requires
        str_words(s) == str_words(t),
    ensures
        s == t,
{
    assert(str_words(s).len() == 1 + s.len());
    assert(str_words(t).len() == 1 + t.len());
    assert(s.len() == t.len());
    assert forall|i: int| 0 <= i < s.len() implies s[i] == t[i] by {
        assert(str_words(s)[1 + i] == char_words(s)[i]);
        assert(str_words(t)[1 + i] == char_words(t)[i]);
        assert(str_words(s)[1 + i] == str_words(t)[1 + i]);
        assert(char_words(s)[i] == s[i] as u64);
        assert(char_words(t)[i] == t[i] as u64);
        lemma_char_cast_injective(s[i], t[i]);
    };
    assert(s =~= t);
}

/// The optional-value encoding is injective.
pub proof fn lemma_opt_u16_words_injective(x: Option<u16>, y: Option<u16>)
    requires
        opt_u16_words(x) == opt_u16_words(y),
    ensures
        x == y,
{
    assert(opt_u16_words(x)[0] == opt_u16_words(y)[0]);
    assert(opt_u16_words(x)[1] == opt_u16_words(y)[1]);
    match (x, y) {
        (None, None) => {},
        (Some(a), Some(b)) => {
            assert(a as u64 == b as u64);
        },
        (None, Some(_)) => {
            assert(false);
        },
        (Some(_), None) => {
            assert(false);
        },
    }
}

/// The sizing-policy encoding is injective.
pub proof fn lemma_length_words_injective(x: Length, y: Length)
    requires
        length_words(x) == length_words(y),
    ensures
        x == y,
{
    assert(length_words(x)[0] == length_words(y)[0]);
    assert(length_words(x)[1] == length_words(y)[1]);
    match (x, y) {
        (Length::Fill, Length::Fill) => {},
        (Length::Shrink, Length::Shrink) => {},
        (Length::FillPortion(a), Length::FillPortion(b)) => {
            assert(a as u64 == b as u64);
        },
        (Length::Units(a), Length::Units(b)) => {
            assert(a as u64 == b as u64);
        },
        _ => {
            assert(false);
        },
    }
}

/// Compares two fingerprints word for word.
pub fn words_eq(a: &Vec<u64>, b: &Vec<u64>) -> (r: bool)
    ensures
        r == (a@ == b@),
{
    if a.len() != b.len() {
        return false;
    }
    let mut i: usize = 0;
    while i < a.len()
        invariant
            i <= a@.len(),
            a@.len() == b@.len(),
            forall|j: int| 0 <= j < i ==> a@[j] == b@[j],
        decreases a@.len() - i,
    {
        if a[i] != b[i] {
            return false;
        }
        i = i + 1;
    }
    proof {
        assert(a@ =~= b@);
    }
    true
}

} // verus!
