use gachapon::game::{
    add_prize, initialize_game, initialize_program, update_game_status, Config, ErrorCode, Game,
    Prize, PrizeTier,
};
use gachapon::ids::AccountId;
use gachapon::session::{
    claim_prize, close_play_session, finalize_play, finalize_play_no_prize, play_game, PlaySession,
};

fn key(n: u64) -> AccountId {
    AccountId::new(n, 0, 0, 0)
}

const MINT: u64 = 100;

fn new_game(authority: AccountId) -> (Config, Game) {
    let config = initialize_program(authority);
    let game = initialize_game(
        &config,
        authority,
        7,
        "Capsule Game".to_string(),
        "A weighted blind-box draw".to_string(),
        "https://example.invalid/game.png".to_string(),
        500,
        key(MINT),
        key(101),
    )
    .unwrap();
    (config, game)
}

fn simple_prize(game: &mut Game, authority: AccountId, index: u8, weight: u16, supply: u32) -> Prize {
    add_prize(
        game,
        authority,
        index,
        1000 + index as u64,
        format!("Prize {index}"),
        "A collectible".to_string(),
        "https://example.invalid/prize.png".to_string(),
        "https://example.invalid/prize.json".to_string(),
        "SKU-1".to_string(),
        PrizeTier::Rare,
        weight,
        250,
        120,
        650,
        300,
        200,
        supply,
    )
    .unwrap()
}

fn open_session(game: &Game, user: AccountId, seed_byte: u8) -> PlaySession {
    play_game(game, user, 500, vec![seed_byte; 32], user, key(MINT), key(MINT)).unwrap()
}

fn random_with_low_u64(low: u64) -> Vec<u8> {
    let mut bytes = vec![0u8; 32];
    bytes[..8].copy_from_slice(&low.to_le_bytes());
    bytes
}

#[test]
fn play_game_guards_reject_before_any_transfer() {
    let authority = key(1);
    let user = key(2);
    let (_config, mut game) = new_game(authority);

    // inactive: no prizes yet
    let attempt = play_game(&game, user, 500, vec![0; 32], user, key(MINT), key(MINT));
    assert!(matches!(attempt, Err(ErrorCode::GameInactive)));

    // active but without supply
    update_game_status(&mut game, authority, true).unwrap();
    let attempt = play_game(&game, user, 500, vec![0; 32], user, key(MINT), key(MINT));
    assert!(matches!(attempt, Err(ErrorCode::OutOfStock)));

    simple_prize(&mut game, authority, 0, 5000, 1);

    let attempt = play_game(&game, user, 0, vec![0; 32], user, key(MINT), key(MINT));
    assert!(matches!(attempt, Err(ErrorCode::InvalidTokenAmount)));

    let attempt = play_game(&game, user, 500, vec![0; 32], key(9), key(MINT), key(MINT));
    assert!(matches!(attempt, Err(ErrorCode::Unauthorized)));

    let attempt = play_game(&game, user, 500, vec![0; 32], user, key(9), key(MINT));
    assert!(matches!(attempt, Err(ErrorCode::Unauthorized)));

    let attempt = play_game(&game, user, 500, vec![0; 32], user, key(MINT), key(9));
    assert!(matches!(attempt, Err(ErrorCode::Unauthorized)));
}

#[test]
fn play_game_opens_a_pending_session() {
    let authority = key(1);
    let user = key(2);
    let (_config, mut game) = new_game(authority);
    simple_prize(&mut game, authority, 0, 5000, 1);

    let session = open_session(&game, user, 7);
    assert_eq!(session.user, user);
    assert_eq!(session.game, game.game_id);
    assert_eq!(session.amount_paid, 500);
    assert_eq!(session.session_seed, vec![7u8; 32]);
    assert!(!session.is_fulfilled);
    assert_eq!(session.prize_index, None);
    assert!(!session.is_claimed);
}

#[test]
fn single_prize_win_depletes_supply_and_deactivates() {
    let authority = key(1);
    let user = key(2);
    let (config, mut game) = new_game(authority);
    let mut prize = simple_prize(&mut game, authority, 0, 5000, 1);

    let mut session = open_session(&game, user, 1);
    let mut later = open_session(&game, user, 2);

    // low eight bytes congruent to 4999 mod 10000: inside the [0,5000) band
    let result = finalize_play(&mut game, &mut session, &mut prize, &config, authority, &random_with_low_u64(4999), true);
    assert_eq!(result, Ok(Some(0)));
    assert_eq!(session.prize_index, Some(0));
    assert!(session.is_fulfilled);
    assert!(session.is_claimed, "inline issuance records the claim at resolution");
    assert_eq!(prize.supply_remaining, 0);
    assert_eq!(game.total_supply_remaining, 0);
    assert!(!game.is_active, "supply hitting zero deactivates in the same step");
    assert_eq!(game.total_plays, 1);
    assert_eq!(game.last_random_value, random_with_low_u64(4999));

    // draw 5000 against the exhausted table: no band covers it — a loss
    let result = finalize_play_no_prize(&mut game, &mut later, &config, authority, &random_with_low_u64(5000));
    assert_eq!(result, Ok(()));
    assert_eq!(later.prize_index, None);
    assert!(later.is_fulfilled);
    assert_eq!(game.total_plays, 2);
}

#[test]
fn depleted_prize_win_is_rejected_not_downgraded() {
    let authority = key(1);
    let user = key(2);
    let (config, mut game) = new_game(authority);
    let mut prize = simple_prize(&mut game, authority, 0, 5000, 1);
    // a second prize keeps the game's total supply positive
    let mut other = simple_prize(&mut game, authority, 1, 1000, 5);

    let mut first = open_session(&game, user, 1);
    let mut second = open_session(&game, user, 2);

    assert_eq!(
        finalize_play(&mut game, &mut first, &mut prize, &config, authority, &random_with_low_u64(10), true),
        Ok(Some(0))
    );
    assert_eq!(prize.supply_remaining, 0);

    // the same band hits again, but the prize is out of stock: rejected
    let before_plays = game.total_plays;
    let result = finalize_play(&mut game, &mut second, &mut prize, &config, authority, &random_with_low_u64(20), true);
    assert_eq!(result, Err(ErrorCode::OutOfStock));
    assert!(!second.is_fulfilled, "a rejected resolution changes nothing");
    assert_eq!(game.total_plays, before_plays);

    // a draw in the second band still wins normally
    assert_eq!(
        finalize_play(&mut game, &mut second, &mut other, &config, authority, &random_with_low_u64(5500), true),
        Ok(Some(1))
    );
}

#[test]
fn resolution_happens_exactly_once() {
    let authority = key(1);
    let user = key(2);
    let (config, mut game) = new_game(authority);
    let mut prize = simple_prize(&mut game, authority, 0, 5000, 5);

    let mut session = open_session(&game, user, 1);
    assert_eq!(
        finalize_play(&mut game, &mut session, &mut prize, &config, authority, &random_with_low_u64(4999), false),
        Ok(Some(0))
    );
    let recorded = session.prize_index;

    // a second resolution fails and leaves the outcome as recorded
    assert_eq!(
        finalize_play(&mut game, &mut session, &mut prize, &config, authority, &random_with_low_u64(9999), false),
        Err(ErrorCode::AlreadyFulfilled)
    );
    assert_eq!(session.prize_index, recorded);
    assert_eq!(
        finalize_play_no_prize(&mut game, &mut session, &config, authority, &random_with_low_u64(9999)),
        Err(ErrorCode::AlreadyFulfilled)
    );
    assert_eq!(session.prize_index, recorded);
    assert_eq!(prize.supply_remaining, 4, "only the first resolution consumed supply");
}

#[test]
fn winning_draw_without_prize_record_is_rejected() {
    let authority = key(1);
    let user = key(2);
    let (config, mut game) = new_game(authority);
    simple_prize(&mut game, authority, 0, 5000, 5);

    let mut session = open_session(&game, user, 1);
    let result = finalize_play_no_prize(&mut game, &mut session, &config, authority, &random_with_low_u64(4999));
    assert_eq!(result, Err(ErrorCode::PrizeNotFound));
    assert!(!session.is_fulfilled);
}

#[test]
fn finalize_rejects_mismatched_prize_records() {
    let authority = key(1);
    let user = key(2);
    let (config, mut game) = new_game(authority);
    let mut prize = simple_prize(&mut game, authority, 0, 5000, 5);
    let mut wrong_index = simple_prize(&mut game, authority, 1, 1000, 5);

    let mut session = open_session(&game, user, 1);

    // a prize record of another game
    let mut foreign = simple_prize(&mut game, authority, 2, 1000, 5);
    foreign.game = game.game_id + 1;
    assert_eq!(
        finalize_play(&mut game, &mut session, &mut foreign, &config, authority, &random_with_low_u64(0), true),
        Err(ErrorCode::Unauthorized)
    );

    // the record of a prize other than the winning index
    assert_eq!(
        finalize_play(&mut game, &mut session, &mut wrong_index, &config, authority, &random_with_low_u64(0), true),
        Err(ErrorCode::PrizeNotFound)
    );
    assert!(!session.is_fulfilled);
}

#[test]
fn total_plays_overflow_fails_closed() {
    let authority = key(1);
    let user = key(2);
    let (config, mut game) = new_game(authority);
    let mut prize = simple_prize(&mut game, authority, 0, 5000, 5);
    let mut session = open_session(&game, user, 1);

    game.total_plays = u64::MAX;
    assert_eq!(
        finalize_play(&mut game, &mut session, &mut prize, &config, authority, &random_with_low_u64(0), true),
        Err(ErrorCode::MathOverflow)
    );
    assert_eq!(
        finalize_play_no_prize(&mut game, &mut session, &config, authority, &random_with_low_u64(5001)),
        Err(ErrorCode::MathOverflow)
    );
    assert!(!session.is_fulfilled);
    assert_eq!(prize.supply_remaining, 5);
}

#[test]
fn claim_requires_a_win_and_happens_once() {
    let authority = key(1);
    let user = key(2);
    let (config, mut game) = new_game(authority);
    let mut prize = simple_prize(&mut game, authority, 0, 5000, 5);

    // a losing session has nothing to claim
    let mut lost = open_session(&game, user, 1);
    finalize_play_no_prize(&mut game, &mut lost, &config, authority, &random_with_low_u64(5001)).unwrap();
    assert_eq!(claim_prize(&mut lost, &game, &prize, user), Err(ErrorCode::NoPrize));

    // an unresolved session cannot be claimed
    let mut pending = open_session(&game, user, 2);
    assert_eq!(claim_prize(&mut pending, &game, &prize, user), Err(ErrorCode::NotFulfilled));

    // a deferred-issuance win claims exactly once
    let mut won = open_session(&game, user, 3);
    finalize_play(&mut game, &mut won, &mut prize, &config, authority, &random_with_low_u64(0), false).unwrap();
    assert!(!won.is_claimed);
    assert_eq!(claim_prize(&mut won, &game, &prize, key(9)), Err(ErrorCode::Unauthorized));
    assert_eq!(claim_prize(&mut won, &game, &prize, user), Ok(()));
    assert!(won.is_claimed);
    assert_eq!(claim_prize(&mut won, &game, &prize, user), Err(ErrorCode::AlreadyClaimed));
}

#[test]
fn claim_rejects_the_wrong_prize_record() {
    let authority = key(1);
    let user = key(2);
    let (config, mut game) = new_game(authority);
    let mut prize = simple_prize(&mut game, authority, 0, 5000, 5);
    let other = simple_prize(&mut game, authority, 1, 1000, 5);

    let mut won = open_session(&game, user, 1);
    finalize_play(&mut game, &mut won, &mut prize, &config, authority, &random_with_low_u64(0), false).unwrap();
    assert_eq!(claim_prize(&mut won, &game, &other, user), Err(ErrorCode::PrizeNotFound));

    let mut foreign = simple_prize(&mut game, authority, 2, 1000, 5);
    foreign.game = game.game_id + 1;
    assert_eq!(claim_prize(&mut won, &game, &foreign, user), Err(ErrorCode::Unauthorized));
    assert!(!won.is_claimed);
}

#[test]
fn teardown_requires_resolution_and_claim() {
    let authority = key(1);
    let user = key(2);
    let (config, mut game) = new_game(authority);
    let mut prize = simple_prize(&mut game, authority, 0, 5000, 5);

    let pending = open_session(&game, user, 1);
    assert_eq!(close_play_session(&pending, user), Err(ErrorCode::NotFulfilled));
    assert_eq!(close_play_session(&pending, key(9)), Err(ErrorCode::Unauthorized));

    let mut lost = open_session(&game, user, 2);
    finalize_play_no_prize(&mut game, &mut lost, &config, authority, &random_with_low_u64(5001)).unwrap();
    assert_eq!(close_play_session(&lost, user), Ok(()));

    let mut won = open_session(&game, user, 3);
    finalize_play(&mut game, &mut won, &mut prize, &config, authority, &random_with_low_u64(0), false).unwrap();
    assert_eq!(close_play_session(&won, user), Err(ErrorCode::NotClaimed));
    claim_prize(&mut won, &game, &prize, user).unwrap();
    assert_eq!(close_play_session(&won, user), Ok(()));
}

#[test]
fn supply_is_monotone_across_a_run_of_wins() {
    let authority = key(1);
    let user = key(2);
    let (config, mut game) = new_game(authority);
    let mut prize = simple_prize(&mut game, authority, 0, 10000, 3);

    let mut observed = vec![prize.supply_remaining];
    for seed in 0..3u8 {
        let mut session = open_session(&game, user, seed);
        finalize_play(&mut game, &mut session, &mut prize, &config, authority, &random_with_low_u64(seed as u64), true)
            .unwrap();
        observed.push(prize.supply_remaining);
    }
    assert_eq!(observed, vec![3, 2, 1, 0], "each win consumes exactly one unit");
    assert!(!game.is_active);

    // exactly as many wins as initial supply reached zero; further plays are rejected
    let attempt = play_game(&game, user, 500, vec![9; 32], user, key(MINT), key(MINT));
    assert!(matches!(attempt, Err(ErrorCode::GameInactive)));
}

#[test]
fn play_game_zeroes_the_random_value() {
    let authority = key(1);
    let user = key(2);
    let (_config, mut game) = new_game(authority);
    simple_prize(&mut game, authority, 0, 5000, 1);
    let session = open_session(&game, user, 7);
    assert_eq!(session.random_value, vec![0u8; 32]);
}

#[test]
fn new_game_audit_trail_starts_zeroed() {
    let authority = key(1);
    let (_config, game) = new_game(authority);
    assert_eq!(game.last_random_value, vec![0u8; 32]);
}

#[test]
fn resolution_requires_the_configured_resolver() {
    let authority = key(1);
    let user = key(2);
    let (config, mut game) = new_game(authority);
    let mut prize = simple_prize(&mut game, authority, 0, 5000, 5);
    let mut session = open_session(&game, user, 1);

    assert_eq!(
        finalize_play(&mut game, &mut session, &mut prize, &config, key(9), &random_with_low_u64(0), true),
        Err(ErrorCode::Unauthorized)
    );
    assert_eq!(
        finalize_play_no_prize(&mut game, &mut session, &config, key(9), &random_with_low_u64(5001)),
        Err(ErrorCode::Unauthorized)
    );
    assert!(!session.is_fulfilled, "an unauthorized resolution changes nothing");
    assert_eq!(prize.supply_remaining, 5);
    assert_eq!(game.total_plays, 0);
}

#[test]
fn resolution_rejects_a_session_of_another_game() {
    let authority = key(1);
    let user = key(2);
    let (config, mut game) = new_game(authority);
    let mut prize = simple_prize(&mut game, authority, 0, 5000, 5);
    let mut session = open_session(&game, user, 1);
    session.game = game.game_id + 1;

    assert_eq!(
        finalize_play(&mut game, &mut session, &mut prize, &config, authority, &random_with_low_u64(0), true),
        Err(ErrorCode::Unauthorized)
    );
    assert_eq!(
        finalize_play_no_prize(&mut game, &mut session, &config, authority, &random_with_low_u64(5001)),
        Err(ErrorCode::Unauthorized)
    );
    assert!(!session.is_fulfilled);
    assert_eq!(game.total_plays, 0);
}

#[test]
fn zero_game_total_with_live_prize_fails_closed() {
    let authority = key(1);
    let user = key(2);
    let (config, mut game) = new_game(authority);
    let mut prize = simple_prize(&mut game, authority, 0, 5000, 1);
    let mut session = open_session(&game, user, 1);

    // an inconsistent ledger: the prize still has a unit, the game total none
    game.total_supply_remaining = 0;
    let result = finalize_play(&mut game, &mut session, &mut prize, &config, authority, &random_with_low_u64(0), true);
    assert_eq!(result, Err(ErrorCode::MathOverflow), "the decrement fails closed");
    assert!(!session.is_fulfilled);
    assert_eq!(prize.supply_remaining, 1);
    assert_eq!(game.total_plays, 0);
}
