//! Pieces shared by the installer screens.

use vstd::prelude::*;
use crate::text::{decimal, ratio_string, ratio_text};

verus! {

/// The content of a text field together with whether it passed validation.
#[derive(Debug, Clone)]
pub struct FormValue {
    pub value: String,
    pub valid: bool,
}

/// An owned copy of an optional text.
pub open spec fn owned(o: Option<&String>) -> Option<String> {
    match o {
        Some(s) => Some(*s),
        None => None,
    }
}

/// Copies an optional text.
pub fn copy_optional(o: Option<&String>) -> (r: Option<String>)
    ensures
        r == owned(o),
{
    match o {
        Some(s) => Some(s.clone()),
        None => None,
    }
}

/// Copies a list of texts.
pub fn copy_strings(v: &Vec<String>) -> (r: Vec<String>)
    ensures
        r@ == v@,
{
    let mut r: Vec<String> = Vec::new();
    let mut i: usize = 0;
    while i < v.len()
        invariant
            i <= v.len(),
            r@ == v@.take(i as int),
        decreases v.len() - i,
    {
        r.push(v[i].clone());
        assert(v@.take(i + 1) =~= v@.take(i as int).push(v@[i as int]));
        i += 1;
    }
    assert(v@.take(v.len() as int) =~= v@);
    r
}

/// The step counter `current/total` at the top of a screen.
pub fn progress_text(progress: (usize, usize)) -> (s: String)
    ensures
        s@ == ratio_text(progress.0 as nat, progress.1 as nat),
        s@ == decimal(progress.0 as nat) + seq!['/'] + decimal(progress.1 as nat),
{
    ratio_string(progress.0 as u64, progress.1 as u64)
}

/// Whether a text field holds a value that passed validation.
pub open spec fn filled_and_valid(f: FormValue) -> bool {
    f.valid && f.value@.len() > 0
}

/// A field counts as filled in exactly when it passed validation and is not
/// empty.
pub proof fn lemma_filled_and_valid(f: FormValue)
    ensures
        filled_and_valid(f) <==> f.valid && f.value@.len() > 0,
{
}

/// The threshold picker that a spending path shows: its current value out
/// of the number of keys.
#[derive(Debug, Clone, Copy, PartialEq, Eq, Structural)]
pub struct ThresholdChoice {
    pub value: usize,
    pub max: usize,
}

/// A path with more than one key shows a threshold picker; a path with one
/// key or none shows none.
pub open spec fn spec_threshold(threshold: usize, n_keys: usize) -> Option<ThresholdChoice> {
    if n_keys > 1 {
        Some(ThresholdChoice { value: threshold, max: n_keys })
    } else {
        None
    }
}

/// A path shows a threshold picker exactly when it has more than one key,
/// whatever its current threshold; the picker starts at that threshold and
/// goes up to the number of keys.
pub proof fn lemma_threshold_picker_shown(threshold: usize, n_keys: usize)
    ensures
        n_keys > 1 ==> spec_threshold(threshold, n_keys) == Some(
            ThresholdChoice { value: threshold, max: n_keys },
        ),
        n_keys <= 1 ==> spec_threshold(threshold, n_keys) is None,
{
}

/// The threshold picker of a path with `n_keys` keys, if it shows one.
pub fn threshold_choice(threshold: usize, n_keys: usize) -> (t: Option<ThresholdChoice>)
    ensures
        t == spec_threshold(threshold, n_keys),
        n_keys > 1 ==> t == Some(ThresholdChoice { value: threshold, max: n_keys }),
        n_keys <= 1 ==> t is None,
{
    if n_keys > 1 {
        Some(ThresholdChoice { value: threshold, max: n_keys })
    } else {
        None
    }
}

} // verus!
