//! The draw resolver: the deterministic mapping from a 32-byte random value
//! and a probability table to a prize outcome.
//!
//! The first eight bytes of the random value are read as an unsigned 64-bit
//! little-endian integer and reduced modulo 10000, yielding a draw in
//! `[0, 9999]`. The occupied table entries are walked in index order,
//! accumulating their weights (in basis points) with saturating addition; the
//! first entry whose cumulative band covers the draw wins. Entries of weight
//! zero are skipped without consuming a band. If no band covers the draw —
//! because the weights undershoot 10000 — the play is a loss.

use vstd::prelude::*;

verus! {

/// Capacity of a game's probability table.
pub const MAX_PRIZES: usize = 16;

/// The value of `bytes[from..to]` read as an unsigned little-endian integer
/// (`bytes[from]` is the least significant byte).
pub open spec fn le_value(bytes: Seq<u8>, from: int, to: int) -> int
    decreases to - from,
{
    if from >= to {
        0
    } else {
        bytes[from] + 256 * le_value(bytes, from + 1, to)
    }
}

/// `256^k`: the number of values a span of `k` bytes can take.
pub open spec fn pow256(k: nat) -> int
    decreases k,
{
    if k == 0 {
        1
    } else {
        256 * pow256((k - 1) as nat)
    }
}

proof fn lemma_le_value_bound(bytes: Seq<u8>, from: int, to: int)
    requires
        0 <= from,
    ensures
        0 <= le_value(bytes, from, to),
        to - from >= 0 ==> le_value(bytes, from, to) < pow256((to - from) as nat),
    decreases to - from,
{
    if from < to {
        lemma_le_value_bound(bytes, from + 1, to);
        let inner = le_value(bytes, from + 1, to);
        let bound = pow256((to - from - 1) as nat);
        assert(256 * inner <= 256 * (bound - 1)) by (nonlinear_arith)
            requires
                inner <= bound - 1,
        ;
    }
}

proof fn lemma_pow256_monotonic(a: nat, b: nat)
    requires
        a <= b,
    ensures
        pow256(a) <= pow256(b),
    decreases b,
{
    if a < b {
        lemma_pow256_monotonic(a, (b - 1) as nat);
        assert(pow256(b) == 256 * pow256((b - 1) as nat));
        assert(pow256((b - 1) as nat) >= 1) by {
            lemma_pow256_positive((b - 1) as nat);
        }
    }
}

proof fn lemma_pow256_positive(k: nat)
    ensures
        pow256(k) >= 1,
    decreases k,
{
    if k > 0 {
        lemma_pow256_positive((k - 1) as nat);
    }
}

proof fn lemma_pow256_values()
    ensures
        pow256(7) == 0x100_0000_0000_0000,
        pow256(8) == 0x1_0000_0000_0000_0000,
{
    reveal_with_fuel(pow256, 9);
}

/// The draw obtained from a 32-byte random value: its low eight bytes read
/// little-endian, reduced modulo 10000.
pub open spec fn draw_of(random_value: Seq<u8>) -> int {
    le_value(random_value, 0, 8) % 10000
}

/// A `u16` sum saturating at `u16::MAX`, as the accumulation of weights uses.
pub open spec fn saturating_add_u16(a: int, b: int) -> int {
    if a + b > 0xffff {
        0xffff
    } else {
        a + b
    }
}

/// The scan of the table from entry `idx` on, with `cum` already accumulated:
/// the first entry of nonzero weight whose cumulative band covers `draw`.
pub open spec fn scan_winner(
    weights: Seq<u16>,
    count: int,
    draw: int,
    idx: int,
    cum: int,
) -> Option<int>
    decreases count - idx,
{
    if idx < 0 || idx >= count {
        None
    } else if weights[idx] == 0 {
        scan_winner(weights, count, draw, idx + 1, cum)
    } else {
        let next = saturating_add_u16(cum, weights[idx] as int);
        if draw < next {
            Some(idx)
        } else {
            scan_winner(weights, count, draw, idx + 1, next)
        }
    }
}

/// The winning entry for a draw against the first `count` entries of a table,
/// or `None` for a loss.
pub open spec fn winning_index(weights: Seq<u16>, count: int, draw: int) -> Option<int> {
    scan_winner(weights, count, draw, 0, 0)
}

/// The outcome of resolving a 32-byte random value against a table: the whole
/// resolver as one function of its inputs.
pub open spec fn resolve_outcome(weights: Seq<u16>, count: int, random_value: Seq<u8>) -> Option<
    int,
> {
    winning_index(weights, count, draw_of(random_value))
}

proof fn lemma_scan_winner_in_range(weights: Seq<u16>, count: int, draw: int, idx: int, cum: int)
    ensures
        scan_winner(weights, count, draw, idx, cum) matches Some(w) ==> idx <= w < count,
    decreases count - idx,
{
    if 0 <= idx < count {
        if weights[idx] == 0 {
            lemma_scan_winner_in_range(weights, count, draw, idx + 1, cum);
        } else {
            let next = saturating_add_u16(cum, weights[idx] as int);
            if draw >= next {
                lemma_scan_winner_in_range(weights, count, draw, idx + 1, next);
            }
        }
    }
}

/// A winner, where there is one, is an occupied index.
pub proof fn lemma_winning_index_in_range(weights: Seq<u16>, count: int, draw: int)
    ensures
        winning_index(weights, count, draw) matches Some(w) ==> 0 <= w < count,
{
    lemma_scan_winner_in_range(weights, count, draw, 0, 0);
}

/// Reads the low eight bytes of `bytes` as an unsigned little-endian 64-bit
/// integer.
pub fn le_u64_prefix(bytes: &Vec<u8>) -> (r: u64)
    requires
        bytes@.len() >= 8,
    ensures
        r == le_value(bytes@, 0, 8),
{
    let mut acc: u64 = 0;
    let mut k: usize = 8;
    while k > 0
        invariant
            k <= 8,
            bytes@.len() >= 8,
            acc == le_value(bytes@, k as int, 8),
            acc < pow256((8 - k) as nat),
        decreases k,
    {
        proof {
            lemma_le_value_bound(bytes@, k as int, 8);
            lemma_pow256_values();
            assert(pow256((8 - (k - 1)) as nat) == 256 * pow256((8 - k) as nat));
            assert(256 * acc <= 256 * (pow256((8 - k) as nat) - 1)) by (nonlinear_arith)
                requires
                    acc <= pow256((8 - k) as nat) - 1,
            ;
            assert(pow256((8 - k) as nat) <= pow256(7)) by {
                lemma_pow256_monotonic((8 - k) as nat, 7);
            }
        }
        k = k - 1;
        acc = (bytes[k] as u64) + 256 * acc;
    }
    acc
}

/// Selects the winning prize index for a random value against a probability
/// table, walking the first `prize_count` entries; `None` is a loss. The
/// outcome is a pure function of the arguments: the same table and the same
/// bytes always select the same entry.
pub fn select_prize_index(
    probabilities: &Vec<u16>,
    prize_count: u8,
    random_value: &Vec<u8>,
) -> (r: Option<usize>)
    requires
        probabilities@.len() == MAX_PRIZES,
        prize_count as int <= MAX_PRIZES,
        random_value@.len() == 32,
    ensures
        r is None <==> resolve_outcome(
            probabilities@,
            prize_count as int,
            random_value@,
        ) is None,
        r matches Some(i) ==> resolve_outcome(probabilities@, prize_count as int, random_value@)
            == Some(i as int) && i < prize_count,
{
    let rand_u64 = le_u64_prefix(random_value);
    let draw = (rand_u64 % 10000) as u16;
    let ghost d = draw_of(random_value@);
    let count = prize_count as usize;
    let mut cumulative: u16 = 0;
    let mut idx: usize = 0;
    while idx < count
        invariant
            idx <= count,
            count == prize_count as int,
            count <= MAX_PRIZES,
            probabilities@.len() == MAX_PRIZES,
            random_value@.len() == 32,
            draw == d,
            d == draw_of(random_value@),
            winning_index(probabilities@, count as int, d) == scan_winner(
                probabilities@,
                count as int,
                d,
                idx as int,
                cumulative as int,
            ),
        decreases count - idx,
    {
        let prob = probabilities[idx];
        if prob != 0 {
            let prev = cumulative;
            cumulative = prev.saturating_add(prob);
            proof {
                assert(cumulative == saturating_add_u16(prev as int, prob as int));
            }
            if draw < cumulative {
                proof {
                    assert(scan_winner(probabilities@, count as int, d, idx as int, prev as int)
                        == Some(idx as int));
                }
                return Some(idx);
            }
        }
        idx = idx + 1;
    }
    None
}

} // verus!
