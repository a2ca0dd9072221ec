//! The play-session state machine: one player's paid attempt, from payment
//! through resolution and optional claim.
//!
//! A session is created in a pending state once the play fee has been
//! collected. A privileged resolver later supplies a 32-byte random value;
//! resolution draws against the game's live table, decrements supply on a
//! win, deactivates the game the instant its total remaining supply reaches
//! zero, and marks the session fulfilled — exactly once. A won prize is
//! claimed either inline at resolution or by a separate claim step, and a
//! session can be torn down only after resolution and, if won, claim.

use vstd::prelude::*;

use crate::draw::{resolve_outcome, select_prize_index, MAX_PRIZES};
use crate::game::{Config, ErrorCode, Game, Prize};
use crate::ids::AccountId;

verus! {

/// The record of one paid play attempt.
pub struct PlaySession {
    /// The player who paid.
    pub user: AccountId,
    /// Identifier of the game being played.
    pub game: u64,
    /// Token amount paid.
    pub amount_paid: u64,
    /// Client-chosen unique seed, distinguishing repeat plays by one player.
    pub session_seed: Vec<u8>,
    /// Whether a random value has been supplied and resolved.
    pub is_fulfilled: bool,
    /// The random value, once supplied; zeroes until then.
    pub random_value: Vec<u8>,
    /// The winning prize index; `None` means no win (or not yet resolved).
    pub prize_index: Option<u8>,
    /// Whether the won prize has been claimed.
    pub is_claimed: bool,
}

impl PlaySession {
    /// Well-formedness: the seed and the random value are 32 bytes wide, a
    /// recorded winning index lies within the table, and only a session with
    /// a winning index can be claimed.
    pub open spec fn wf(self) -> bool {
        &&& self.session_seed@.len() == 32
        &&& self.random_value@.len() == 32
        &&& (self.prize_index matches Some(i) ==> i < MAX_PRIZES)
        &&& (self.is_claimed ==> self.is_fulfilled && self.prize_index is Some)
    }
}

/// A verified byte-for-byte copy of a 32-byte value.
fn copy_bytes32(src: &Vec<u8>) -> (r: Vec<u8>)
    requires
        src@.len() == 32,
    ensures
        r@ == src@,
{
    let mut v: Vec<u8> = Vec::new();
    let mut k: usize = 0;
    while k < 32
        invariant
            k <= 32,
            src@.len() == 32,
            v@.len() == k,
            forall|i: int| 0 <= i < k ==> v@[i] == src@[i],
        decreases 32 - k,
    {
        v.push(src[k]);
        k = k + 1;
    }
    proof {
        assert(v@ =~= src@);
    }
    v
}

/// The failure, if any, of [`play_game`] on the given inputs.
pub open spec fn play_game_error(
    game: Game,
    user: AccountId,
    token_amount: u64,
    user_token_owner: AccountId,
    user_token_mint: AccountId,
    treasury_token_mint: AccountId,
) -> Option<ErrorCode> {
    if !game.is_active {
        Some(ErrorCode::GameInactive)
    } else if game.total_supply_remaining == 0 {
        Some(ErrorCode::OutOfStock)
    } else if token_amount == 0 {
        Some(ErrorCode::InvalidTokenAmount)
    } else if user_token_owner != user || user_token_mint != game.token_mint
        || treasury_token_mint != game.token_mint {
        Some(ErrorCode::Unauthorized)
    } else {
        None
    }
}

/// Opens a play: the game must be active with remaining supply, the payment
/// positive, and the paying token account owned by the player and of the
/// game's denomination. On success the caller moves `token_amount` from the
/// player to the game treasury through the token ledger, and the returned
/// session awaits resolution in its pending state.
pub fn play_game(
    game: &Game,
    user: AccountId,
    token_amount: u64,
    session_seed: Vec<u8>,
    user_token_owner: AccountId,
    user_token_mint: AccountId,
    treasury_token_mint: AccountId,
) -> (r: Result<PlaySession, ErrorCode>)
    requires
        game.wf(),
        session_seed@.len() == 32,
    ensures
        (match r {
            Ok(s) => {
                &&& play_game_error(
                    *game,
                    user,
                    token_amount,
                    user_token_owner,
                    user_token_mint,
                    treasury_token_mint,
                ) is None
                &&& s.wf()
                &&& s.user == user
                &&& s.game == game.game_id
                &&& s.amount_paid == token_amount
                &&& s.session_seed@ == session_seed@
                &&& !s.is_fulfilled
                &&& (forall|i: int| 0 <= i < 32 ==> s.random_value@[i] == 0)
                &&& s.prize_index is None
                &&& !s.is_claimed
            },
            Err(e) => Some(e) == play_game_error(
                *game,
                user,
                token_amount,
                user_token_owner,
                user_token_mint,
                treasury_token_mint,
            ),
        }),
{
    if !game.is_active {
        return Err(ErrorCode::GameInactive);
    }
    if game.total_supply_remaining == 0 {
        return Err(ErrorCode::OutOfStock);
    }
    if token_amount == 0 {
        return Err(ErrorCode::InvalidTokenAmount);
    }
    if !(user_token_owner == user) {
        return Err(ErrorCode::Unauthorized);
    }
    if !(user_token_mint == game.token_mint) {
        return Err(ErrorCode::Unauthorized);
    }
    if !(treasury_token_mint == game.token_mint) {
        return Err(ErrorCode::Unauthorized);
    }
    let mut zeroes: Vec<u8> = Vec::new();
    let mut k: usize = 0;
    while k < 32
        invariant
            k <= 32,
            zeroes@.len() == k,
            forall|i: int| 0 <= i < k ==> zeroes@[i] == 0,
        decreases 32 - k,
    {
        zeroes.push(0);
        k = k + 1;
    }
    Ok(
        PlaySession {
            user,
            game: game.game_id,
            amount_paid: token_amount,
            session_seed,
            is_fulfilled: false,
            random_value: zeroes,
            prize_index: None,
            is_claimed: false,
        },
    )
}

/// The failure, if any, of [`finalize_play`] on the given inputs.
pub open spec fn finalize_play_error(
    game: Game,
    session: PlaySession,
    prize: Prize,
    config: Config,
    resolver: AccountId,
    random_value: Seq<u8>,
) -> Option<ErrorCode> {
    if session.game != game.game_id {
        Some(ErrorCode::Unauthorized)
    } else if resolver != config.authority {
        Some(ErrorCode::Unauthorized)
    } else if session.is_fulfilled {
        Some(ErrorCode::AlreadyFulfilled)
    } else {
        match resolve_outcome(game.prize_probabilities@, game.prize_count as int, random_value) {
            Some(w) => {
                if prize.game != game.game_id {
                    Some(ErrorCode::Unauthorized)
                } else if prize.prize_index != w {
                    Some(ErrorCode::PrizeNotFound)
                } else if prize.supply_remaining == 0 {
                    Some(ErrorCode::OutOfStock)
                } else if game.total_supply_remaining == 0 || game.total_plays == u64::MAX {
                    // a live prize under a zero game total is an internal
                    // inconsistency: the decrement fails closed
                    Some(ErrorCode::MathOverflow)
                } else {
                    None
                }
            },
            None => {
                if game.total_plays == u64::MAX {
                    Some(ErrorCode::MathOverflow)
                } else {
                    None
                }
            },
        }
    }
}

/// The failure, if any, of [`finalize_play_no_prize`] on the given inputs.
pub open spec fn finalize_play_no_prize_error(
    game: Game,
    session: PlaySession,
    config: Config,
    resolver: AccountId,
    random_value: Seq<u8>,
) -> Option<ErrorCode> {
    if session.game != game.game_id {
        Some(ErrorCode::Unauthorized)
    } else if resolver != config.authority {
        Some(ErrorCode::Unauthorized)
    } else if session.is_fulfilled {
        Some(ErrorCode::AlreadyFulfilled)
    } else if resolve_outcome(
        game.prize_probabilities@,
        game.prize_count as int,
        random_value,
    ) is Some {
        Some(ErrorCode::PrizeNotFound)
    } else if game.total_plays == u64::MAX {
        Some(ErrorCode::MathOverflow)
    } else {
        None
    }
}

/// Resolves a pending session against the game's live table, with the prize
/// record the resolver expects to win. The session must belong to this game,
/// and the caller must present the capability of the designated resolver:
/// the program configuration's authority. A session resolves at most once:
/// resolving a fulfilled session fails with [`ErrorCode::AlreadyFulfilled`]
/// and changes nothing.
///
/// On a win the supplied prize must be the winning record of this game with
/// live supply — a draw landing on a depleted prize is rejected with
/// [`ErrorCode::OutOfStock`], never silently downgraded to a loss. The win
/// decrements the prize's and the game's remaining supply by one — checked
/// subtraction that fails closed with [`ErrorCode::MathOverflow`] if the
/// game's total is already zero, a state no consistent run reaches — and the
/// instant the game's total reaches zero its activity flag is cleared in the
/// same step. With `inline_issuance` the caller mints the collectible in the
/// same transaction and the session is recorded claimed; otherwise the win
/// awaits [`claim_prize`].
///
/// Either way the resolution is recorded: the session holds the random value
/// and the winning index (or none, on a loss), the game counts the play and
/// keeps the value as its audit trail. All updates land together or not at
/// all.
pub fn finalize_play(
    game: &mut Game,
    session: &mut PlaySession,
    prize: &mut Prize,
    config: &Config,
    resolver: AccountId,
    random_value: &Vec<u8>,
    inline_issuance: bool,
) -> (r: Result<Option<u8>, ErrorCode>)
    requires
        old(game).wf(),
        old(session).wf(),
        old(prize).wf(),
        random_value@.len() == 32,
    ensures
        final(game).wf(),
        final(session).wf(),
        final(prize).wf(),
        (match r {
            Ok(w) => {
                let outcome = resolve_outcome(
                    old(game).prize_probabilities@,
                    old(game).prize_count as int,
                    random_value@,
                );
                &&& finalize_play_error(*old(game), *old(session), *old(prize), *config,
                    resolver, random_value@) is None
                &&& (match outcome {
                    Some(i) => w == Some(i as u8),
                    None => w is None,
                })
                &&& final(session).is_fulfilled
                &&& final(session).random_value@ == random_value@
                &&& final(session).prize_index == w
                &&& final(session).is_claimed == (w is Some && inline_issuance)
                &&& final(session).user == old(session).user
                &&& final(session).game == old(session).game
                &&& final(session).amount_paid == old(session).amount_paid
                &&& final(session).session_seed == old(session).session_seed
                &&& final(game).total_plays == old(game).total_plays + 1
                &&& final(game).last_random_value@ == random_value@
                &&& (match w {
                    Some(_) => {
                        &&& final(prize).supply_remaining == old(prize).supply_remaining - 1
                        &&& *final(prize) == (Prize {
                            supply_remaining: final(prize).supply_remaining,
                            ..*old(prize)
                        })
                        &&& final(game).total_supply_remaining == old(
                            game,
                        ).total_supply_remaining - 1
                        &&& final(game).is_active == (final(game).total_supply_remaining > 0
                            && old(game).is_active)
                    },
                    None => {
                        &&& *final(prize) == *old(prize)
                        &&& final(game).total_supply_remaining == old(
                            game,
                        ).total_supply_remaining
                        &&& final(game).is_active == old(game).is_active
                    },
                })
                &&& *final(game) == (Game {
                    total_plays: final(game).total_plays,
                    last_random_value: final(game).last_random_value,
                    total_supply_remaining: final(game).total_supply_remaining,
                    is_active: final(game).is_active,
                    ..*old(game)
                })
            },
            Err(e) => {
                &&& Some(e) == finalize_play_error(*old(game), *old(session), *old(prize),
                    *config, resolver, random_value@)
                &&& *final(game) == *old(game)
                &&& *final(session) == *old(session)
                &&& *final(prize) == *old(prize)
            },
        }),
{
    if session.game != game.game_id {
        return Err(ErrorCode::Unauthorized);
    }
    if !(resolver == config.authority) {
        return Err(ErrorCode::Unauthorized);
    }
    if session.is_fulfilled {
        return Err(ErrorCode::AlreadyFulfilled);
    }

    let winning_index = select_prize_index(&game.prize_probabilities, game.prize_count,
        random_value);

    let won: Option<u8> = match winning_index {
        Some(idx) => {
            if prize.game != game.game_id {
                return Err(ErrorCode::Unauthorized);
            }
            if prize.prize_index as usize != idx {
                return Err(ErrorCode::PrizeNotFound);
            }
            if prize.supply_remaining == 0 {
                return Err(ErrorCode::OutOfStock);
            }
            if game.total_supply_remaining == 0 {
                return Err(ErrorCode::MathOverflow);
            }
            if game.total_plays == u64::MAX {
                return Err(ErrorCode::MathOverflow);
            }
            Some(idx as u8)
        },
        None => {
            if game.total_plays == u64::MAX {
                return Err(ErrorCode::MathOverflow);
            }
            None
        },
    };

    session.is_fulfilled = true;
    session.random_value = copy_bytes32(random_value);
    session.prize_index = won;

    game.total_plays = game.total_plays + 1;
    game.last_random_value = copy_bytes32(random_value);

    if won.is_some() {
        prize.supply_remaining = prize.supply_remaining - 1;
        game.total_supply_remaining = game.total_supply_remaining - 1;
        if game.total_supply_remaining == 0 {
            game.is_active = false;
        }
        session.is_claimed = inline_issuance;
    }

    Ok(won)
}

/// Resolves a pending session when the resolver supplied no prize record.
/// The session must belong to this game and the caller must be the
/// configured resolver. Only a losing draw can be recorded this way: a draw
/// that selects a winner fails with [`ErrorCode::PrizeNotFound`] before any
/// state changes, since the winning prize record is missing.
pub fn finalize_play_no_prize(
    game: &mut Game,
    session: &mut PlaySession,
    config: &Config,
    resolver: AccountId,
    random_value: &Vec<u8>,
) -> (r: Result<(), ErrorCode>)
    requires
        old(game).wf(),
        old(session).wf(),
        random_value@.len() == 32,
    ensures
        final(game).wf(),
        final(session).wf(),
        (match r {
            Ok(()) => {
                &&& finalize_play_no_prize_error(*old(game), *old(session), *config, resolver,
                    random_value@) is None
                &&& final(session).is_fulfilled
                &&& final(session).random_value@ == random_value@
                &&& final(session).prize_index is None
                &&& final(session).is_claimed == old(session).is_claimed
                &&& final(session).user == old(session).user
                &&& final(session).game == old(session).game
                &&& final(session).amount_paid == old(session).amount_paid
                &&& final(session).session_seed == old(session).session_seed
                &&& *final(game) == (Game {
                    total_plays: final(game).total_plays,
                    last_random_value: final(game).last_random_value,
                    ..*old(game)
                })
                &&& final(game).total_plays == old(game).total_plays + 1
                &&& final(game).last_random_value@ == random_value@
            },
            Err(e) => {
                &&& Some(e) == finalize_play_no_prize_error(*old(game), *old(session), *config,
                    resolver, random_value@)
                &&& *final(game) == *old(game)
                &&& *final(session) == *old(session)
            },
        }),
{
    if session.game != game.game_id {
        return Err(ErrorCode::Unauthorized);
    }
    if !(resolver == config.authority) {
        return Err(ErrorCode::Unauthorized);
    }
    if session.is_fulfilled {
        return Err(ErrorCode::AlreadyFulfilled);
    }

    let winning_index = select_prize_index(&game.prize_probabilities, game.prize_count,
        random_value);
    if winning_index.is_some() {
        return Err(ErrorCode::PrizeNotFound);
    }
    if game.total_plays == u64::MAX {
        return Err(ErrorCode::MathOverflow);
    }

    session.is_fulfilled = true;
    session.random_value = copy_bytes32(random_value);
    session.prize_index = None;

    game.total_plays = game.total_plays + 1;
    game.last_random_value = copy_bytes32(random_value);

    Ok(())
}

/// The failure, if any, of [`claim_prize`] on the given inputs.
pub open spec fn claim_prize_error(
    session: PlaySession,
    game: Game,
    prize: Prize,
    user: AccountId,
) -> Option<ErrorCode> {
    if session.game != game.game_id || session.user != user {
        Some(ErrorCode::Unauthorized)
    } else if !session.is_fulfilled {
        Some(ErrorCode::NotFulfilled)
    } else if session.prize_index is None {
        Some(ErrorCode::NoPrize)
    } else if session.is_claimed {
        Some(ErrorCode::AlreadyClaimed)
    } else if prize.game != game.game_id {
        Some(ErrorCode::Unauthorized)
    } else if Some(prize.prize_index) != session.prize_index {
        Some(ErrorCode::PrizeNotFound)
    } else {
        None
    }
}

/// Claims a won prize: the session must be resolved with a winning index,
/// unclaimed, owned by the calling player, and the supplied prize record
/// must be the winning one. On success the caller mints the collectible to
/// the player through the collectible issuer, and the session is recorded
/// claimed — a second claim fails with [`ErrorCode::AlreadyClaimed`].
pub fn claim_prize(
    session: &mut PlaySession,
    game: &Game,
    prize: &Prize,
    user: AccountId,
) -> (r: Result<(), ErrorCode>)
    requires
        old(session).wf(),
    ensures
        final(session).wf(),
        (match r {
            Ok(()) => {
                &&& claim_prize_error(*old(session), *game, *prize, user) is None
                &&& *final(session) == (PlaySession { is_claimed: true, ..*old(session) })
            },
            Err(e) => {
                &&& Some(e) == claim_prize_error(*old(session), *game, *prize, user)
                &&& *final(session) == *old(session)
            },
        }),
{
    if session.game != game.game_id {
        return Err(ErrorCode::Unauthorized);
    }
    if !(session.user == user) {
        return Err(ErrorCode::Unauthorized);
    }
    if !session.is_fulfilled {
        return Err(ErrorCode::NotFulfilled);
    }
    let winning = match session.prize_index {
        Some(i) => i,
        None => {
            return Err(ErrorCode::NoPrize);
        },
    };
    if session.is_claimed {
        return Err(ErrorCode::AlreadyClaimed);
    }
    if prize.game != game.game_id {
        return Err(ErrorCode::Unauthorized);
    }
    if prize.prize_index != winning {
        return Err(ErrorCode::PrizeNotFound);
    }
    session.is_claimed = true;
    Ok(())
}

/// The failure, if any, of [`close_play_session`] on the given inputs.
pub open spec fn close_play_session_error(session: PlaySession, user: AccountId) -> Option<
    ErrorCode,
> {
    if session.user != user {
        Some(ErrorCode::Unauthorized)
    } else if !session.is_fulfilled {
        Some(ErrorCode::NotFulfilled)
    } else if session.prize_index is Some && !session.is_claimed {
        Some(ErrorCode::NotClaimed)
    } else {
        None
    }
}

/// Validates tearing a session down: only its player may reclaim it, only
/// after resolution, and a won prize must have been claimed first — an
/// unclaimed win would be orphaned by the teardown.
pub fn close_play_session(session: &PlaySession, user: AccountId) -> (r: Result<(), ErrorCode>)
    ensures
        (match r {
            Ok(()) => close_play_session_error(*session, user) is None,
            Err(e) => Some(e) == close_play_session_error(*session, user),
        }),
{
    if !(session.user == user) {
        return Err(ErrorCode::Unauthorized);
    }
    if !session.is_fulfilled {
        return Err(ErrorCode::NotFulfilled);
    }
    if session.prize_index.is_some() && !session.is_claimed {
        return Err(ErrorCode::NotClaimed);
    }
    Ok(())
}

} // verus!
