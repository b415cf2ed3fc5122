//! The texts that describe the timelock of a recovery path.

use vstd::prelude::*;
use crate::duration::{duration_from_sequence, spec_duration};
use crate::text::{decimal, parse_u16, parse_u16_spec, push_decimal};
use crate::screens::common::FormValue;

verus! {

/// `n` followed by `unit`, as in `3d`; nothing when `n` is zero.
pub open spec fn short_part(n: int, unit: Seq<char>) -> Seq<Seq<char>> {
    if n > 0 {
        seq![decimal(n as nat) + unit]
    } else {
        seq![]
    }
}

/// `n`, a space and `unit`, plural when `n` is more than one, as in
/// `3 days`; nothing when `n` is zero.
pub open spec fn long_part(n: int, unit: Seq<char>) -> Seq<Seq<char>> {
    if n > 0 {
        seq![
            decimal(n as nat) + seq![' '] + unit + if n > 1 {
                seq!['s']
            } else {
                Seq::<char>::empty()
            },
        ]
    } else {
        seq![]
    }
}

/// The short form of the duration of `sequence` blocks: one part per
/// unit with a non-zero count, largest unit first (`1y 2m 3d 4h 50mn`).
pub open spec fn short_parts(sequence: u16) -> Seq<Seq<char>> {
    let d = spec_duration(sequence);
    short_part(d.0, "y"@) + short_part(d.1, "m"@) + short_part(d.2, "d"@) + short_part(d.3, "h"@)
        + short_part(d.4, "mn"@)
}

/// The long form of the duration of `sequence` blocks: one part per unit
/// with a non-zero count, largest unit first (`1 year`, `2 months`, ...).
pub open spec fn long_parts(sequence: u16) -> Seq<Seq<char>> {
    let d = spec_duration(sequence);
    long_part(d.0, "year"@) + long_part(d.1, "month"@) + long_part(d.2, "day"@) + long_part(
        d.3,
        "hour"@,
    ) + long_part(d.4, "minute"@)
}

/// A recovery path with a timelock of at least one block always shows some
/// duration, in the short form and in the long form.
pub proof fn lemma_nonzero_sequence_shows_duration(sequence: u16)
    requires
        sequence > 0,
    ensures
        short_parts(sequence).len() > 0,
        long_parts(sequence).len() > 0,
{
    crate::duration::lemma_nonzero_duration(sequence);
}

/// The short form lists, largest unit first, each non-zero count of the
/// split followed by its unit letter (`y`, `m`, `d`, `h`, `mn`), leaving out
/// the units whose count is zero.
pub proof fn lemma_short_parts_layout(sequence: u16)
    ensures
        ({
            let (y, m, d, h, mn) = spec_duration(sequence);
            short_parts(sequence) == (if y > 0 {
                seq![decimal(y as nat) + "y"@]
            } else {
                Seq::<Seq<char>>::empty()
            }) + (if m > 0 {
                seq![decimal(m as nat) + "m"@]
            } else {
                Seq::<Seq<char>>::empty()
            }) + (if d > 0 {
                seq![decimal(d as nat) + "d"@]
            } else {
                Seq::<Seq<char>>::empty()
            }) + (if h > 0 {
                seq![decimal(h as nat) + "h"@]
            } else {
                Seq::<Seq<char>>::empty()
            }) + (if mn > 0 {
                seq![decimal(mn as nat) + "mn"@]
            } else {
                Seq::<Seq<char>>::empty()
            })
        }),
{
}

/// The long form of one unit: nothing for a zero count, `1 day` for a
/// count of one, `3 days` for more: the unit takes an `s` exactly when the
/// count is above one.
pub proof fn lemma_long_part_plural(n: int, unit: Seq<char>)
    ensures
        n <= 0 ==> long_part(n, unit).len() == 0,
        n == 1 ==> long_part(n, unit) == seq![seq!['1', ' '] + unit],
        n > 1 ==> long_part(n, unit) == seq![decimal(n as nat) + seq![' '] + unit + seq!['s']],
{
    if n == 1 {
        assert(decimal(1) == seq!['1']);
        assert(decimal(1) + seq![' '] + unit + Seq::<char>::empty() =~= seq!['1', ' '] + unit);
    }
}

/// The long form lists, largest unit first, each non-zero count of the
/// split with its unit word (`year`, `month`, `day`, `hour`, `minute`).
pub proof fn lemma_long_parts_layout(sequence: u16)
    ensures
        ({
            let (y, m, d, h, mn) = spec_duration(sequence);
            long_parts(sequence) == long_part(y, "year"@) + long_part(m, "month"@) + long_part(
                d,
                "day"@,
            ) + long_part(h, "hour"@) + long_part(mn, "minute"@)
        }),
{
}

/// The headline of a recovery path is `Available after `, the number of
/// blocks in decimal, and ` blocks`.
pub proof fn lemma_blocks_text(sequence: u16)
    ensures
        blocks_text(sequence) == "Available after "@ + decimal(sequence as nat) + " blocks"@,
{
}

/// Appends the short part for `n` and `unit` to `parts`.
fn push_short_part(parts: &mut Vec<String>, n: u32, unit: &str)
    ensures
        final(parts).deep_view() == old(parts).deep_view() + short_part(n as int, unit@),
{
    let ghost before = parts.deep_view();
    if n > 0 {
        let mut s = String::new();
        push_decimal(&mut s, n as u64);
        s.append(unit);
        parts.push(s);
        assert(parts.deep_view() =~= before + short_part(n as int, unit@));
    } else {
        assert(parts.deep_view() =~= before + short_part(n as int, unit@));
    }
}

/// Appends the long part for `n` and `unit` to `parts`.
fn push_long_part(parts: &mut Vec<String>, n: u32, unit: &str)
    ensures
        final(parts).deep_view() == old(parts).deep_view() + long_part(n as int, unit@),
{
    let ghost before = parts.deep_view();
    if n > 0 {
        let mut s = String::new();
        push_decimal(&mut s, n as u64);
        proof {
            reveal_strlit(" ");
            reveal_strlit("s");
        }
        s.append(" ");
        s.append(unit);
        if n > 1 {
            s.append("s");
        }
        assert(s@ =~= decimal(n as nat) + seq![' '] + unit@ + if n > 1 {
            seq!['s']
        } else {
            Seq::<char>::empty()
        });
        parts.push(s);
        assert(parts.deep_view() =~= before + long_part(n as int, unit@));
    } else {
        assert(parts.deep_view() =~= before + long_part(n as int, unit@));
    }
}

/// The short form of the duration of `sequence` blocks.
pub fn short_duration_parts(sequence: u16) -> (parts: Vec<String>)
    ensures
        parts.deep_view() == short_parts(sequence),
{
    let (n_years, n_months, n_days, n_hours, n_minutes) = duration_from_sequence(sequence);
    let mut parts: Vec<String> = Vec::new();
    assert(parts.deep_view() =~= Seq::<Seq<char>>::empty());
    push_short_part(&mut parts, n_years, "y");
    push_short_part(&mut parts, n_months, "m");
    push_short_part(&mut parts, n_days, "d");
    push_short_part(&mut parts, n_hours, "h");
    push_short_part(&mut parts, n_minutes, "mn");
    assert(parts.deep_view() =~= short_parts(sequence));
    parts
}

/// The long form of the duration of `sequence` blocks.
pub fn long_duration_parts(sequence: u16) -> (parts: Vec<String>)
    ensures
        parts.deep_view() == long_parts(sequence),
{
    let (n_years, n_months, n_days, n_hours, n_minutes) = duration_from_sequence(sequence);
    let mut parts: Vec<String> = Vec::new();
    assert(parts.deep_view() =~= Seq::<Seq<char>>::empty());
    push_long_part(&mut parts, n_years, "year");
    push_long_part(&mut parts, n_months, "month");
    push_long_part(&mut parts, n_days, "day");
    push_long_part(&mut parts, n_hours, "hour");
    push_long_part(&mut parts, n_minutes, "minute");
    assert(parts.deep_view() =~= long_parts(sequence));
    parts
}

/// The headline of a recovery path: `Available after <sequence> blocks`.
pub open spec fn blocks_text(sequence: u16) -> Seq<char> {
    "Available after "@ + decimal(sequence as nat) + " blocks"@
}

/// How a recovery path shows its timelock.
#[derive(Debug)]
pub struct DefinedSequenceView {
    /// Whether the warning that another path has the same timelock shows.
    pub duplicate_warning: bool,
    /// `Available after <sequence> blocks`.
    pub blocks: String,
    /// The duration in short form.
    pub parts: Vec<String>,
}

/// How a recovery path with a timelock of `sequence` blocks shows it;
/// `duplicate_sequence` tells that another path has the same timelock.
pub fn defined_sequence(sequence: u16, duplicate_sequence: bool) -> (v: DefinedSequenceView)
    ensures
        v.duplicate_warning == duplicate_sequence,
        v.blocks@ == blocks_text(sequence),
        v.parts.deep_view() == short_parts(sequence),
{
    let mut blocks = String::from_str("Available after ");
    push_decimal(&mut blocks, sequence as u64);
    blocks.append(" blocks");
    DefinedSequenceView {
        duplicate_warning: duplicate_sequence,
        blocks,
        parts: short_duration_parts(sequence),
    }
}

/// What the timelock editor shows below its field once the field holds a
/// block count: the duration in long form and the position of the slider.
#[derive(Debug)]
pub struct SequencePreview {
    pub parts: Vec<String>,
    pub slider: u16,
}

/// The timelock editor.
#[derive(Debug)]
pub struct EditSequenceView {
    /// The preview; present when the field is valid and reads as a `u16`.
    pub preview: Option<SequencePreview>,
    /// Whether the apply button can be pressed.
    pub apply_enabled: bool,
}

/// The timelock editor for the content of its field.
pub fn edit_sequence_modal(sequence: &FormValue) -> (v: EditSequenceView)
    ensures
        v.apply_enabled == sequence.valid,
        v.preview is Some <==> sequence.valid && parse_u16_spec(sequence.value@) is Some,
        v.preview matches Some(p) ==> p.slider == parse_u16_spec(sequence.value@)->0
            && p.parts.deep_view() == long_parts(p.slider),
{
    let mut preview = None;
    if sequence.valid {
        if let Some(blocks) = parse_u16(sequence.value.as_str()) {
            preview = Some(SequencePreview { parts: long_duration_parts(blocks), slider: blocks });
        }
    }
    EditSequenceView { preview, apply_enabled: sequence.valid }
}

} // verus!
