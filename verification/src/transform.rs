//! From a row of the phrase book to the phrase that it holds.

use crate::model::Phrase;
use crate::persistence::{phrase_rows, phrase_views, phrases_of, PhraseRecord};
use vstd::prelude::*;
use vstd::std_specs::convert::FromSpecImpl;

verus! {

impl From<PhraseRecord> for Phrase {
    fn from(value: PhraseRecord) -> (phrase: Phrase) {
        Phrase { original: value.original, pinyin: value.pinyin, translation: value.translation }
    }
}

impl FromSpecImpl<PhraseRecord> for Phrase {
    open spec fn obeys_from_spec() -> bool {
        true
    }

    /// The three texts of the row, without its id and its language.
    open spec fn from_spec(value: PhraseRecord) -> Phrase {
        Phrase { original: value.original, pinyin: value.pinyin, translation: value.translation }
    }
}

/// The phrases of some rows, in their order.
pub fn phrases_from(rows: Vec<PhraseRecord>) -> (phrases: Vec<Phrase>)
    ensures
        phrase_views(phrases@) == phrases_of(phrase_rows(rows@)),
{
    let ghost all = rows@;
    let mut phrases: Vec<Phrase> = Vec::new();
    for row in it: rows.into_iter()
        invariant
            it.seq() == all,
            phrases@.len() == it.index(),
            phrase_views(phrases@) == phrases_of(phrase_rows(all.take(it.index() as int))),
    {
        let ghost before = phrase_views(phrases@);
        let ghost i = it.index() as int;
        phrases.push(Phrase::from(row));
        proof {
            let after = phrase_views(phrases@);
            let wanted = phrases_of(phrase_rows(all.take(i + 1)));
            assert(after.len() == wanted.len());
            assert forall|k: int| 0 <= k < after.len() implies after[k] == wanted[k] by {
                if k < i {
                    assert(after[k] == before[k]);
                    assert(before[k] == phrases_of(phrase_rows(all.take(i)))[k]);
                }
            }
            assert(after =~= wanted);
        }
    }
    assert(all.take(all.len() as int) =~= all);
    phrases
}

} // verus!
