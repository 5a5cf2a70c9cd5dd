//! The timeline's time ruler: timestamps and the frames of the frame grid.
use vstd::prelude::*;
use vstd::arithmetic::div_mod::{
    lemma_div_is_ordered, lemma_div_pos_is_pos, lemma_fundamental_div_mod, lemma_mod_multiples_basic,
    lemma_mod_pos_bound,
};
use crate::text::{decimal, push_decimal, string_from_chars};

verus! {

/// `n` written with at least two digits, as `{:02}` writes it.
pub open spec fn two_digits(n: nat) -> Seq<char> {
    if n < 10 {
        seq!['0'] + decimal(n)
    } else {
        decimal(n)
    }
}

/// The hours part of a timestamp of `total` seconds.
pub open spec fn timestamp_hours(total: nat) -> nat {
    (total / 60) / 60
}

/// The minutes part of a timestamp of `total` seconds.
pub open spec fn timestamp_minutes(total: nat) -> nat {
    (total / 60) % 60
}

/// The seconds part of a timestamp of `total` seconds.
pub open spec fn timestamp_seconds(total: nat) -> nat {
    total % 60
}

/// `HH:MM:SS` for a whole number of seconds; hours take more digits when needed.
pub open spec fn timestamp_text(total: nat) -> Seq<char> {
    two_digits(timestamp_hours(total)) + seq![':'] + two_digits(timestamp_minutes(total)) + seq![':']
        + two_digits(timestamp_seconds(total))
}

fn push_two_digits(out: &mut Vec<char>, n: u64)
    ensures
        final(out)@ == old(out)@ + two_digits(n as nat),
{
    if n < 10 {
        out.push('0');
    }
    push_decimal(out, n);
    assert(out@ =~= old(out)@ + two_digits(n as nat));
}

/// Writes a whole number of seconds as `HH:MM:SS`.
pub fn format_timestamp_seconds(total_seconds: u64) -> (res: String)
    ensures
        res@ == timestamp_text(total_seconds as nat),
{
    let seconds = total_seconds % 60;
    let total_minutes = total_seconds / 60;
    let minutes = total_minutes % 60;
    let hours = total_minutes / 60;
    let mut out: Vec<char> = Vec::new();
    push_two_digits(&mut out, hours);
    out.push(':');
    push_two_digits(&mut out, minutes);
    out.push(':');
    push_two_digits(&mut out, seconds);
    assert(out@ =~= timestamp_text(total_seconds as nat));
    string_from_chars(&out)
}

proof fn lemma_decimal_one_digit(n: nat)
    requires
        n < 10,
    ensures
        decimal(n).len() == 1,
{
}

proof fn lemma_decimal_two_digits(n: nat)
    requires
        10 <= n < 100,
    ensures
        decimal(n).len() == 2,
{
    assert(n / 10 < 10) by (nonlinear_arith)
        requires
            n < 100,
    ;
    lemma_decimal_one_digit(n / 10);
}

/// A timestamp denotes its number of seconds: hours, minutes and seconds add
/// up to it, minutes and seconds are below 60 and are written with exactly
/// two digits.
pub proof fn lemma_timestamp_denotes_total(total: nat)
    ensures
        timestamp_hours(total) * 3600 + timestamp_minutes(total) * 60 + timestamp_seconds(total)
            == total,
        timestamp_minutes(total) < 60,
        timestamp_seconds(total) < 60,
        two_digits(timestamp_minutes(total)).len() == 2,
        two_digits(timestamp_seconds(total)).len() == 2,
{
    let m = total / 60;
    lemma_fundamental_div_mod(total as int, 60);
    lemma_fundamental_div_mod(m as int, 60);
    lemma_mod_pos_bound(total as int, 60);
    lemma_mod_pos_bound(m as int, 60);
    let mm = timestamp_minutes(total);
    let ss = timestamp_seconds(total);
    if mm < 10 {
        lemma_decimal_one_digit(mm);
    } else {
        lemma_decimal_two_digits(mm);
    }
    if ss < 10 {
        lemma_decimal_one_digit(ss);
    } else {
        lemma_decimal_two_digits(ss);
    }
}

/// `a - b`, or 0 when that underflows.
pub open spec fn saturating_sub_spec(a: u64, b: u64) -> u64 {
    if a < b { 0 } else { (a - b) as u64 }
}

/// `a + b`, or `u64::MAX` when that overflows.
pub open spec fn saturating_add_spec(a: int, b: int) -> u64 {
    if a + b > u64::MAX { u64::MAX } else { (a + b) as u64 }
}

/// `a * b`, or `u64::MAX` when that overflows.
pub open spec fn saturating_mul_spec(a: int, b: int) -> int {
    if a * b > u64::MAX { u64::MAX as int } else { a * b }
}

/// The first grid frame: one step before the first visible frame, rounded
/// down to a multiple of the step.
pub open spec fn first_grid_frame(first_visible: u64, step: u64) -> u64 {
    ((saturating_sub_spec(first_visible, step) / step) * step) as u64
}

/// How many grid frames are drawn.
pub open spec fn grid_frame_count(first_visible: u64, last_visible: u64, step: u64) -> int {
    (saturating_sub_spec(last_visible, first_grid_frame(first_visible, step)) as int) / (step as int) + 2
}

/// The `index`-th grid frame.
pub open spec fn grid_frame(first_visible: u64, step: u64, index: int) -> u64 {
    saturating_add_spec(first_grid_frame(first_visible, step) as int, saturating_mul_spec(index, step as int))
}

/// The frames of the frame grid for the visible frames
/// `first_visible..=last_visible`, every `step_frames` frames.
pub fn grid_frames(first_visible: u64, last_visible: u64, step_frames: u64) -> (res: Vec<u64>)
    requires
        step_frames > 0,
        grid_frame_count(first_visible, last_visible, step_frames) <= usize::MAX,
    ensures
        res@.len() == grid_frame_count(first_visible, last_visible, step_frames),
        forall|i: int| 0 <= i < res@.len() ==> #[trigger] res@[i] == grid_frame(first_visible, step_frames, i),
{
    assert(saturating_sub_spec(first_visible, step_frames) / step_frames * step_frames
        <= saturating_sub_spec(first_visible, step_frames)) by (nonlinear_arith)
        requires
            step_frames > 0,
    ;
    let first = first_visible.saturating_sub(step_frames) / step_frames * step_frames;
    let count = last_visible.saturating_sub(first) / step_frames + 2;
    let mut frames: Vec<u64> = Vec::new();
    let mut index: u64 = 0;
    while index < count
        invariant
            index <= count,
            count == grid_frame_count(first_visible, last_visible, step_frames),
            first == first_grid_frame(first_visible, step_frames),
            frames@.len() == index,
            forall|i: int| 0 <= i < index ==> #[trigger] frames@[i] == grid_frame(first_visible, step_frames, i),
        decreases count - index,
    {
        let offset = match index.checked_mul(step_frames) {
            Some(product) => product,
            None => u64::MAX,
        };
        frames.push(first.saturating_add(offset));
        index = index + 1;
    }
    frames
}

/// When nothing saturates, the grid frames are increasing multiples of the
/// step and every multiple of the step in the visible range is among them.
pub proof fn lemma_grid_covers_visible_range(first_visible: u64, last_visible: u64, step: u64, frame: u64)
    requires
        step > 0,
        first_visible <= frame <= last_visible,
        frame % step == 0,
        first_grid_frame(first_visible, step) + (grid_frame_count(first_visible, last_visible, step) - 1)
            * step <= u64::MAX,
    ensures
        exists|i: int|
            0 <= i < grid_frame_count(first_visible, last_visible, step) && #[trigger] grid_frame(
                first_visible,
                step,
                i,
            ) == frame,
        forall|i: int|
            0 <= i < grid_frame_count(first_visible, last_visible, step) ==> #[trigger] grid_frame(
                first_visible,
                step,
                i,
            ) % step == 0 && grid_frame(first_visible, step, i) == first_grid_frame(first_visible, step) + i * step,
{
    let st = step as int;
    let a = saturating_sub_spec(first_visible, step) as int;
    let q = a / st;
    let first = first_grid_frame(first_visible, step) as int;
    let count = grid_frame_count(first_visible, last_visible, step);
    lemma_fundamental_div_mod(a, st);
    lemma_mod_pos_bound(a, st);
    assert(q * st == st * q) by (nonlinear_arith);
    assert(first == q * st);
    assert(first <= a);
    assert(q >= 0) by {
        lemma_div_pos_is_pos(a, st);
    }
    assert forall|i: int| 0 <= i < count implies #[trigger] grid_frame(first_visible, step, i) % step == 0
        && grid_frame(first_visible, step, i) == first + i * st by {
        assert(i * st <= (count - 1) * st) by (nonlinear_arith)
            requires
                0 <= i < count,
                st > 0,
        ;
        assert(0 <= i * st) by (nonlinear_arith)
            requires
                0 <= i,
                st > 0,
        ;
        assert(first + i * st == (q + i) * st) by (nonlinear_arith)
            requires
                first == q * st,
        ;
        lemma_mod_multiples_basic(q + i, st);
    }
    let f = frame as int;
    lemma_fundamental_div_mod(f, st);
    let k = f / st;
    assert(f == st * k);
    let d = f - first;
    assert(d == (k - q) * st) by (nonlinear_arith)
        requires
            f == st * k,
            first == q * st,
            d == f - first,
    ;
    lemma_mod_multiples_basic(k - q, st);
    lemma_fundamental_div_mod(d, st);
    let i = d / st;
    assert(i * st == d) by (nonlinear_arith)
        requires
            d == st * i + d % st,
            d % st == 0,
    ;
    assert(d >= 0);
    lemma_div_is_ordered(d, last_visible - first, st);
    lemma_div_pos_is_pos(d, st);
    assert(i < count);
    assert(grid_frame(first_visible, step, i) == frame);
}

} // verus!
