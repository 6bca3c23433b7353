use vstd::prelude::*;

verus! {

/// The byte that separates the words of a list.
pub const SPACE: u8 = 32;

/// `word` stands in `list` from position `at` on, as a whole word: with
/// the start of the list or a space before it, and a space or the end of
/// the list behind it.
pub open spec fn word_at(list: Seq<u8>, word: Seq<u8>, at: int) -> bool {
    &&& 0 <= at
    &&& at + word.len() <= list.len()
    &&& list.subrange(at, at + word.len()) == word
    &&& at == 0 || list[at - 1] == SPACE
    &&& at + word.len() == list.len() || list[at + word.len()] == SPACE
}

/// `word` is one of the words of the space-separated `list`. The empty
/// word and a word with a space in it are words of no list.
pub open spec fn has_word(list: Seq<u8>, word: Seq<u8>) -> bool {
    &&& word.len() > 0
    &&& forall|k: int| 0 <= k < word.len() ==> word[k] != SPACE
    &&& exists|at: int| word_at(list, word, at)
}

/// Whether the bytes of `list` from `at` on begin with `word`.
fn starts_with_at(list: &[u8], word: &[u8], at: usize) -> (r: bool)
    requires
        at + word@.len() <= list@.len(),
    ensures
        r == (list@.subrange(at as int, at + word@.len()) == word@),
{
    let n: usize = list.len();
    let mut k: usize = 0;
    while k < word.len()
        invariant
            k <= word@.len(),
            n == list@.len(),
            at + word@.len() <= list@.len(),
            forall|j: int| 0 <= j < k ==> list@[at + j] == word@[j],
        decreases word@.len() - k,
    {
        if list[at + k] != word[k] {
            proof {
                let piece = list@.subrange(at as int, at + word@.len());
                assert(piece[k as int] == list@[at + k]);
            }
            return false;
        }
        k += 1;
    }
    proof {
        assert(list@.subrange(at as int, at + word@.len()) =~= word@);
    }
    true
}

/// Tells whether `word` is one of the words of the space-separated
/// `list`.
pub fn list_has_word(list: &[u8], word: &[u8]) -> (r: bool)
    ensures
        r == has_word(list@, word@),
{
    if word.len() == 0 {
        return false;
    }
    let mut k: usize = 0;
    while k < word.len()
        invariant
            k <= word@.len(),
            forall|j: int| 0 <= j < k ==> word@[j] != SPACE,
        decreases word@.len() - k,
    {
        if word[k] == SPACE {
            return false;
        }
        k += 1;
    }
    if word.len() > list.len() {
        proof {
            assert forall|at: int| !word_at(list@, word@, at) by {}
        }
        return false;
    }
    let last: usize = list.len() - word.len();
    let mut at: usize = 0;
    while at <= last
        invariant
            at <= last + 1,
            last == list@.len() - word@.len(),
            word@.len() > 0,
            forall|j: int| 0 <= j < word@.len() ==> word@[j] != SPACE,
            forall|before: int| 0 <= before < at ==> !word_at(list@, word@, before),
        decreases last + 1 - at,
    {
        let starts = at == 0 || list[at - 1] == SPACE;
        let ends = at == last || list[at + word.len()] == SPACE;
        if starts && ends && starts_with_at(list, word, at) {
            proof {
                assert(word_at(list@, word@, at as int));
            }
            return true;
        }
        at += 1;
    }
    proof {
        assert forall|at: int| !word_at(list@, word@, at) by {}
    }
    false
}

} // verus!
