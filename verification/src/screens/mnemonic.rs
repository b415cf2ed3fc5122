//! The screens that show the mnemonic of this computer's signer, and that
//! recover a signer from a mnemonic.

use vstd::prelude::*;
use crate::screens::common::{copy_optional, copy_strings, owned, progress_text};
use crate::text::{decimal, push_decimal, ratio_text};

verus! {

/// The number in front of the word at position `i`: `#1` for the first.
pub open spec fn word_label(i: int) -> Seq<char> {
    seq!['#'] + decimal((i + 1) as nat)
}

/// The word at position `i` is numbered `#` followed by `i + 1` in
/// decimal: the first word is `#1`, the twelfth `#12`.
pub proof fn lemma_word_label(i: int)
    requires
        0 <= i,
    ensures
        word_label(i) == seq!['#'] + decimal((i + 1) as nat),
        word_label(0) == seq!['#', '1'],
{
    assert(decimal(1) == seq!['1']);
    assert(seq!['#'] + decimal(1) =~= seq!['#', '1']);
}

/// Writes the number in front of the word at position `i`.
fn word_label_string(i: usize) -> (s: String)
    requires
        i < 12,
    ensures
        s@ == word_label(i as int),
{
    proof {
        reveal_strlit("#");
    }
    let mut s = String::from_str("#");
    push_decimal(&mut s, (i + 1) as u64);
    s
}

/// A word of the mnemonic with its number.
#[derive(Debug)]
pub struct WordRow {
    pub label: String,
    pub word: &'static str,
}

/// The screen that shows the mnemonic to back it up.
#[derive(Debug)]
pub struct BackupMnemonicView {
    pub progress: String,
    /// The twelve words, in order, each with its number.
    pub words: Vec<WordRow>,
    /// Whether the next button can be pressed.
    pub next_enabled: bool,
}

/// The screen that shows the mnemonic `words`; `done` tells that the user
/// confirmed having backed them up.
pub fn backup_mnemonic(progress: (usize, usize), words: &[&'static str; 12], done: bool) -> (v:
    BackupMnemonicView)
    ensures
        v.progress@ == ratio_text(progress.0 as nat, progress.1 as nat),
        v.words@.len() == 12,
        forall|i: int|
            0 <= i < 12 ==> #[trigger] v.words@[i].label@ == word_label(i) && v.words@[i].word
                == words@[i],
        v.next_enabled == done,
{
    let mut rows: Vec<WordRow> = Vec::new();
    let mut i: usize = 0;
    while i < 12
        invariant
            i <= 12,
            rows@.len() == i,
            forall|j: int|
                0 <= j < i ==> #[trigger] rows@[j].label@ == word_label(j) && rows@[j].word
                    == words@[j],
        decreases 12 - i,
    {
        rows.push(WordRow { label: word_label_string(i), word: words[i] });
        i += 1;
    }
    BackupMnemonicView { progress: progress_text(progress), words: rows, next_enabled: done }
}

/// A word field of the recovery form.
#[derive(Debug)]
pub struct RecoverRow {
    /// The number in front of the field.
    pub label: String,
    /// What the field holds.
    pub word: String,
    /// Whether the field shows the mark of a valid word.
    pub valid: bool,
}

/// The recovery form.
#[derive(Debug)]
pub struct RecoverForm {
    /// The words offered for the field being typed in, each a button that
    /// puts it in field `current`.
    pub suggestions: Vec<String>,
    pub current: usize,
    /// The twelve fields.
    pub words: Vec<RecoverRow>,
    /// The text of the error card, if one shows.
    pub error: Option<String>,
    /// Whether the next button can be pressed.
    pub next_enabled: bool,
}

/// What the recovery screen shows.
#[derive(Debug)]
pub enum RecoverBody {
    /// The choice between importing a mnemonic and skipping the step.
    Choose,
    /// The form that takes the mnemonic.
    Recover(RecoverForm),
}

/// The screen that recovers a signer from a mnemonic.
#[derive(Debug)]
pub struct RecoverMnemonicView {
    pub progress: String,
    pub body: RecoverBody,
}

/// Whether the field `row` shows the word `word` at position `i`: its
/// number, its text and its mark.
pub open spec fn row_shows(row: RecoverRow, word: (String, bool), i: int) -> bool {
    &&& row.label@ == word_label(i)
    &&& row.word == word.0
    &&& row.valid == word.1
}

/// Whether every word of the form is marked valid.
pub open spec fn all_words_valid(words: Seq<(String, bool)>) -> bool {
    forall|i: int| 0 <= i < words.len() ==> #[trigger] words[i].1
}

/// The recovery screen: with `recover` the form holding `words`, the word
/// being typed in at `current` and its `suggestions`; otherwise the choice
/// to import a mnemonic or skip.
pub fn recover_mnemonic(
    progress: (usize, usize),
    words: &[(String, bool); 12],
    current: usize,
    suggestions: &Vec<String>,
    recover: bool,
    error: Option<&String>,
) -> (v: RecoverMnemonicView)
    ensures
        v.progress@ == ratio_text(progress.0 as nat, progress.1 as nat),
        v.body is Choose <==> !recover,
        v.body matches RecoverBody::Recover(f) ==> {
            &&& f.suggestions@ == suggestions@
            &&& f.current == current
            &&& f.words@.len() == 12
            &&& forall|i: int| 0 <= i < 12 ==> row_shows(#[trigger] f.words@[i], words@[i], i)
            &&& f.error == owned(error)
            &&& f.next_enabled == (all_words_valid(words@) && error is None)
            &&& f.next_enabled <==> (forall|i: int| 0 <= i < 12 ==> #[trigger] words@[i].1)
                && error is None
        },
{
    if !recover {
        return RecoverMnemonicView { progress: progress_text(progress), body: RecoverBody::Choose };
    }
    let mut rows: Vec<RecoverRow> = Vec::new();
    let mut all_valid = true;
    let mut i: usize = 0;
    while i < 12
        invariant
            i <= 12,
            rows@.len() == i,
            forall|j: int| 0 <= j < i ==> row_shows(#[trigger] rows@[j], words@[j], j),
            all_valid == (forall|j: int| 0 <= j < i ==> #[trigger] words@[j].1),
        decreases 12 - i,
    {
        let valid = words[i].1;
        let word = words[i].0.clone();
        assert(valid == words@[i as int].1 && word == words@[i as int].0);
        let ghost before = rows@;
        rows.push(RecoverRow { label: word_label_string(i), word, valid });
        assert forall|j: int| 0 <= j < i implies #[trigger] rows@[j] == before[j] by {}
        all_valid = all_valid && valid;
        i += 1;
    }
    let form = RecoverForm {
        suggestions: copy_strings(suggestions),
        current,
        words: rows,
        error: copy_optional(error),
        next_enabled: all_valid && error.is_none(),
    };
    RecoverMnemonicView { progress: progress_text(progress), body: RecoverBody::Recover(form) }
}

} // verus!
