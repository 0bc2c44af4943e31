//! Tokens: the numbers under which the notifier reports events. Token 0 is the
//! listener's; the pair `n` has the tokens `2 * n` and `2 * n + 1`.

use vstd::prelude::*;

verus! {

/// The token under which the listener is watched. No pair has it.
pub const LISTENER_TOKEN: usize = 0;

/// The token that the notifier keeps for itself: `mio` refuses to watch anything
/// under it. No pair has it.
pub const NOTIFIER_TOKEN: usize = usize::MAX;

/// The pair that a token belongs to.
pub open spec fn conn_of(tok: int) -> int {
    tok / 2
}

/// Whether a token is that of its pair's listener side.
pub open spec fn is_l(tok: int) -> bool {
    tok % 2 == 0
}

/// The token of the listener side of the pair `conn_id`.
pub open spec fn tok_l(conn_id: int) -> int {
    2 * conn_id
}

/// The token of the connector side of the pair `conn_id`.
pub open spec fn tok_s(conn_id: int) -> int {
    2 * conn_id + 1
}

/// The largest identifier whose two tokens fit a `usize` below the notifier's own
/// token.
pub open spec fn max_conn_id() -> int {
    (usize::MAX - 2) / 2
}

/// Splits a token into its pair's identifier and whether it is the listener side's.
pub fn tok_to_conn(tok_idx: usize) -> (r: (usize, bool))
    ensures
        r.0 == conn_of(tok_idx as int),
        r.1 == is_l(tok_idx as int),
{
    let is_l = tok_idx % 2 == 0;
    let idx = tok_idx / 2;
    (idx, is_l)
}

/// The two tokens of the pair `idx`, listener side first; `None` when they do not
/// fit a `usize` below the notifier's own token.
pub fn conn_to_toks(idx: usize) -> (r: Option<(usize, usize)>)
    ensures
        match r {
            Some((a, b)) => idx <= max_conn_id() && a == tok_l(idx as int) && b == tok_s(idx as int),
            None => idx > max_conn_id(),
        },
{
    if idx > (usize::MAX - 2) / 2 {
        None
    } else {
        let tok_a = idx * 2;
        let tok_b = tok_a + 1;
        Some((tok_a, tok_b))
    }
}

/// From either token of a pair, the pair and the side are had back.
pub proof fn lemma_token_round_trip(conn_id: int)
    requires
        0 <= conn_id,
    ensures
        conn_of(tok_l(conn_id)) == conn_id,
        is_l(tok_l(conn_id)),
        conn_of(tok_s(conn_id)) == conn_id,
        !is_l(tok_s(conn_id)),
{
}

/// A token is the one that its pair and its side give.
pub proof fn lemma_token_of_parts(tok: int)
    requires
        0 <= tok,
    ensures
        is_l(tok) ==> tok == tok_l(conn_of(tok)),
        !is_l(tok) ==> tok == tok_s(conn_of(tok)),
{
}

/// The tokens of pairs, whose identifiers start at 1, never meet the listener's
/// token nor the notifier's.
pub proof fn lemma_pair_tokens_are_free(conn_id: int)
    requires
        1 <= conn_id <= max_conn_id(),
    ensures
        tok_l(conn_id) != LISTENER_TOKEN,
        tok_s(conn_id) != LISTENER_TOKEN,
        tok_l(conn_id) < NOTIFIER_TOKEN,
        tok_s(conn_id) < NOTIFIER_TOKEN,
        conn_of(LISTENER_TOKEN as int) == 0,
{
}

/// Splitting a token is a shift and a mask.
pub proof fn lemma_token_bits(tok: usize)
    ensures
        conn_of(tok as int) == (tok >> 1),
        is_l(tok as int) == (tok & 1 == 0),
{
    assert(tok / 2 == tok >> 1) by (bit_vector);
    assert((tok % 2 == 0) == (tok & 1 == 0)) by (bit_vector);
}

} // verus!
