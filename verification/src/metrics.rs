//! Derived session metrics: accuracy as a rounded percentage of the passage
//! that was typed without a counted mistake, and net words-per-minute from
//! the typed character count, the mistake count and the elapsed time.
use vstd::prelude::*;
use vstd::arithmetic::div_mod::lemma_div_is_ordered;
use vstd::arithmetic::div_mod::lemma_div_pos_is_pos;
use vstd::arithmetic::div_mod::lemma_fundamental_div_mod_converse_div;

verus! {

/// Longest passage the engine accepts. The bound keeps every metric
/// computation comfortably inside `u64` arithmetic.
pub const MAX_PASSAGE_LEN: usize = 1000000;

/// Division rounded to the nearest integer, halves rounding up:
/// `round(n / d)` for a non-negative numerator and a positive denominator.
pub open spec fn round_div(n: int, d: int) -> int
    recommends
        0 <= n,
        0 < d,
{
    (2 * n + d) / (2 * d)
}

/// `round(100 * (len - mistakes) / len)`: the share of the passage not lost
/// to counted mistakes, as a whole percentage. An empty passage has nothing
/// to get wrong, so it scores 100.
pub open spec fn accuracy_of(len: int, mistakes: int) -> int
    recommends
        0 <= mistakes <= len,
{
    if len == 0 {
        100
    } else {
        round_div(100 * (len - mistakes), len)
    }
}

/// Characters credited to the typist: typed characters net of counted
/// mistakes, never below zero.
pub open spec fn net_chars(typed: int, mistakes: int) -> int {
    if typed >= mistakes {
        typed - mistakes
    } else {
        0
    }
}

/// Net words-per-minute, one word being five characters:
/// `round(60 * net / (5 * seconds))`. Before a full second has elapsed the
/// rate is reported as 0 rather than dividing by zero.
pub open spec fn wpm_of(typed: int, mistakes: int, seconds: int) -> int
    recommends
        0 <= typed,
        0 <= mistakes,
{
    if seconds <= 0 {
        0
    } else {
        round_div(60 * net_chars(typed, mistakes), 5 * seconds)
    }
}

/// Computes `accuracy_of` on machine integers.
pub fn compute_accuracy(len: usize, mistakes: u64) -> (acc: u64)
    requires
        mistakes <= len,
        len <= MAX_PASSAGE_LEN,
    ensures
        acc == accuracy_of(len as int, mistakes as int),
{
    if len == 0 {
        100
    } else {
        let l: u64 = len as u64;
        let num: u64 = 200 * (l - mistakes) + l;
        num / (2 * l)
    }
}

/// Computes `wpm_of` on machine integers.
pub fn compute_wpm(typed: usize, mistakes: u64, seconds: u64) -> (w: u64)
    requires
        typed <= MAX_PASSAGE_LEN,
        mistakes <= MAX_PASSAGE_LEN as u64,
        seconds <= u64::MAX / 10,
    ensures
        w == wpm_of(typed as int, mistakes as int, seconds as int),
{
    if seconds == 0 {
        0
    } else {
        let t: u64 = typed as u64;
        let net: u64 = if t >= mistakes {
            t - mistakes
        } else {
            0
        };
        let num: u64 = 120 * net + 5 * seconds;
        num / (10 * seconds)
    }
}

/// Accuracy never increases as the mistake count grows.
pub proof fn lemma_accuracy_monotonic(len: int, m1: int, m2: int)
    requires
        0 < len,
        0 <= m1 <= m2 <= len,
    ensures
        accuracy_of(len, m2) <= accuracy_of(len, m1),
{
    lemma_div_is_ordered(2 * (100 * (len - m2)) + len, 2 * (100 * (len - m1)) + len, 2 * len);
}

/// Accuracy always lands in the percentage range 0 to 100.
pub proof fn lemma_accuracy_bounds(len: int, mistakes: int)
    requires
        0 <= mistakes <= len,
    ensures
        0 <= accuracy_of(len, mistakes) <= 100,
{
    if len > 0 {
        let d = 2 * len;
        let n = 2 * (100 * (len - mistakes)) + len;
        lemma_div_pos_is_pos(n, d);
        lemma_div_is_ordered(n, 100 * d + len, d);
        lemma_fundamental_div_mod_converse_div(100 * d + len, d, 100, len);
    }
}

/// An attempt with no counted mistake scores exactly 100.
pub proof fn lemma_accuracy_perfect(len: int)
    requires
        0 <= len,
    ensures
        accuracy_of(len, 0) == 100,
{
    if len > 0 {
        lemma_fundamental_div_mod_converse_div(2 * (100 * len) + len, 2 * len, 100, len);
    }
}

} // verus!
