//! Passage building: a random sample of corpus words, lowercased and joined
//! with single spaces.

use vstd::prelude::*;

use rand::seq::SliceRandom;

use crate::constants::PASSAGE_WORD_COUNT;

verus! {

/// What `str::to_lowercase` returns for a given character sequence. The result
/// depends on the characters alone; the library never relies on particular
/// character values of it.
pub uninterp spec fn lower_of(s: Seq<char>) -> Seq<char>;

/// Relies on `str::to_lowercase`: the result is a function of the characters
/// alone, and each character lowercases to at least one character, so a
/// non-empty word stays non-empty and an empty word stays empty.
#[verifier::external_body]
fn lowercase(word: &str) -> (r: String)
    ensures
        r@ == lower_of(word@),
        word@.len() > 0 ==> r@.len() > 0,
        word@.len() == 0 ==> r@.len() == 0,
{
    word.to_lowercase()
}

/// Relies on rand's `SliceRandom::choose_multiple`: returns `min(amount, len)`
/// elements cloned from distinct positions of the slice. Which elements come
/// back depends on the thread's random generator, so only the count and
/// membership are promised.
#[verifier::external_body]
fn sample_words(corpus: &Vec<String>, amount: usize) -> (r: Vec<String>)
    ensures
        r@.len() == if amount as int <= corpus@.len() {
            amount as int
        } else {
            corpus@.len() as int
        },
        forall|k: int| 0 <= k < r@.len() ==> corpus@.contains(r@[k]),
{
    corpus.choose_multiple(&mut rand::thread_rng(), amount).cloned().collect()
}

/// The views of a sequence of strings.
pub open spec fn views(ws: Seq<String>) -> Seq<Seq<char>> {
    ws.map_values(|w: String| w@)
}

/// The words joined with a single space between neighbours.
pub open spec fn joined(ws: Seq<Seq<char>>) -> Seq<char>
    decreases ws.len(),
{
    if ws.len() == 0 {
        Seq::empty()
    } else if ws.len() == 1 {
        ws[0]
    } else {
        joined(ws.drop_last()) + seq![' '] + ws.last()
    }
}

/// Lowercases every word, keeping order and count.
pub fn lowercase_all(words: &Vec<String>) -> (r: Vec<String>)
    ensures
        r@.len() == words@.len(),
        forall|k: int| 0 <= k < words@.len() ==> r@[k]@ == lower_of(words@[k]@),
        forall|k: int|
            0 <= k < words@.len() ==> (words@[k]@.len() > 0 ==> r@[k]@.len() > 0),
{
    let mut lowered: Vec<String> = Vec::new();
    let mut i: usize = 0;
    while i < words.len()
        invariant
            i <= words@.len(),
            lowered@.len() == i as int,
            forall|k: int| 0 <= k < i as int ==> lowered@[k]@ == lower_of(words@[k]@),
            forall|k: int|
                0 <= k < i as int ==> (words@[k]@.len() > 0 ==> lowered@[k]@.len() > 0),
        decreases words@.len() - i,
    {
        let w = lowercase(words[i].as_str());
        lowered.push(w);
        i = i + 1;
    }
    lowered
}

/// Joins the words with single spaces, exactly as `joined` describes.
pub fn join_words(words: &Vec<String>) -> (r: String)
    ensures
        r@ == joined(views(words@)),
{
    let mut out = String::new();
    let mut i: usize = 0;
    proof {
        assert(views(words@).subrange(0, 0) =~= Seq::<Seq<char>>::empty());
    }
    while i < words.len()
        invariant
            i <= words@.len(),
            out@ == joined(views(words@).subrange(0, i as int)),
        decreases words@.len() - i,
    {
        if i > 0 {
            out.append(" ");
        }
        out.append(words[i].as_str());
        proof {
            reveal_strlit(" ");
            let p = views(words@);
            let s = p.subrange(0, i as int + 1);
            assert(s.last() == p[i as int]);
            if i as int == 0 {
                assert(out@ == joined(s));
            } else {
                assert(s.drop_last() =~= p.subrange(0, i as int));
                assert(" "@ =~= seq![' ']);
                assert(out@ == joined(s));
            }
        }
        i = i + 1;
    }
    proof {
        assert(views(words@).subrange(0, words@.len() as int) =~= views(words@));
    }
    out
}

/// A fresh passage: a random sample of the corpus, lowercased and joined with
/// spaces. The result is never empty, and is cut to the cursor's range in the
/// extreme case of a sample whose joined length exceeds `i32::MAX` characters.
pub fn build_passage(corpus: &Vec<String>) -> (r: String)
    requires
        corpus@.len() >= 1,
        forall|k: int| 0 <= k < corpus@.len() ==> corpus@[k]@.len() >= 1,
    ensures
        0 < r@.len() <= i32::MAX as int,
{
    let sampled = sample_words(corpus, PASSAGE_WORD_COUNT);
    proof {
        assert forall|k: int|
            0 <= k < sampled@.len() implies #[trigger] sampled@[k]@.len() >= 1 by {
            assert(corpus@.contains(sampled@[k]));
        }
    }
    let lowered = lowercase_all(&sampled);
    let passage = join_words(&lowered);
    proof {
        let p = views(lowered@);
        assert(p[0].len() > 0);
        if p.len() == 1 {
            assert(joined(p) == p[0]);
        } else {
            assert(joined(p) == joined(p.drop_last()) + seq![' '] + p.last());
        }
        assert(joined(p).len() > 0);
    }
    let n = passage.as_str().unicode_len();
    if n <= i32::MAX as usize {
        passage
    } else {
        passage.as_str().substring_char(0, i32::MAX as usize).to_owned()
    }
}

} // verus!
