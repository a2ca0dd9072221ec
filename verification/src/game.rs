//! The game records and their administrative operations: configuration,
//! game creation, the probability table, and the supply ledger.
//!
//! A [`Game`] owns a fixed-capacity table of prize weights in basis points,
//! whose sum never exceeds the 10000 bp budget; the shortfall is the implicit
//! loss probability. Each [`Prize`] is a separately addressable record keyed
//! by `(game_id, prize_index)`, holding its weight, supply and descriptive
//! metadata. Prizes are appended in index order, and supply replenishment and
//! depletion keep the game's activity flag in lock-step with its total
//! remaining supply.

use vstd::prelude::*;

use crate::draw::MAX_PRIZES;
use crate::ids::AccountId;

verus! {

/// Character limit for a game or prize name.
pub const NAME_MAX: usize = 50;

/// Character limit for a game description.
pub const GAME_DESCRIPTION_MAX: usize = 200;

/// Character limit for a prize description.
pub const PRIZE_DESCRIPTION_MAX: usize = 150;

/// Character limit for an image or metadata URL.
pub const URL_MAX: usize = 200;

/// Character limit for a physical SKU.
pub const SKU_MAX: usize = 50;

/// The typed failure reasons of the game engine.
#[derive(Clone, Copy, PartialEq, Eq, Structural, Debug)]
pub enum ErrorCode {
    /// A prize addition would push the table's weight sum past 10000 bp.
    InvalidProbabilities,
    /// The game's activity flag is off.
    GameInactive,
    /// No remaining supply covers the request.
    OutOfStock,
    /// The caller is not the recorded authority, owner or treasury.
    Unauthorized,
    /// The supplied prize record does not match the expected index.
    PrizeNotFound,
    /// The token ledger reported missing funds.
    InsufficientFunds,
    /// A play was requested with a zero payment.
    InvalidTokenAmount,
    /// A checked arithmetic operation would wrap.
    MathOverflow,
    /// A descriptive string exceeds its length limit.
    StringTooLong,
    /// The prize table is full.
    TooManyPrizes,
    /// The session was already resolved.
    AlreadyFulfilled,
    /// The session has not been resolved yet.
    NotFulfilled,
    /// The session holds no winning index.
    NoPrize,
    /// The session's prize was already claimed.
    AlreadyClaimed,
    /// A won prize must be claimed before the session is closed.
    NotClaimed,
    /// Prizes must be appended at the next unused index.
    InvalidPrizeIndex,
}

/// Display tiers of a prize, ordered from most to least common.
#[derive(Clone, Copy, PartialEq, Eq, Structural, Debug)]
pub enum PrizeTier {
    Common,
    Uncommon,
    Rare,
    Legendary,
}

/// The program-wide configuration: the single authority allowed to create
/// games and resolve plays.
#[derive(Clone, Copy, PartialEq, Eq, Structural, Debug)]
pub struct Config {
    pub authority: AccountId,
}

/// One configured draw offering: a fee, a token denomination, a treasury and
/// a probability table over prizes.
pub struct Game {
    pub authority: AccountId,
    pub game_id: u64,
    pub name: String,
    pub description: String,
    pub image_url: String,
    pub token_mint: AccountId,
    pub cost_usd: u64,
    pub treasury: AccountId,
    /// Number of occupied table slots; prizes are appended in index order.
    pub prize_count: u8,
    /// Weight of each prize in basis points; a resolution-performance cache
    /// kept in lock-step with the prize records.
    pub prize_probabilities: Vec<u16>,
    /// Total remaining supply across all prizes.
    pub total_supply_remaining: u32,
    pub total_plays: u64,
    pub is_active: bool,
    /// Audit trail: the random value of the latest resolution.
    pub last_random_value: Vec<u8>,
}

/// One possible draw outcome: weight, supply and collectible metadata,
/// parented by its game's identifier.
pub struct Prize {
    /// Identifier of the parent game.
    pub game: u64,
    /// Stable position within the parent's table.
    pub prize_index: u8,
    pub prize_id: u64,
    pub name: String,
    pub description: String,
    pub image_url: String,
    pub metadata_uri: String,
    pub physical_sku: String,
    pub tier: PrizeTier,
    /// Probability weight in basis points; immutable once set.
    pub probability_bp: u16,
    pub cost_usd: u64,
    pub weight_grams: u32,
    /// Length in hundredths of an inch.
    pub length_hundredths: u16,
    /// Width in hundredths of an inch.
    pub width_hundredths: u16,
    /// Height in hundredths of an inch.
    pub height_hundredths: u16,
    pub supply_total: u32,
    pub supply_remaining: u32,
}

/// The sum of the first `n` weights of a table.
pub open spec fn weight_sum_prefix(weights: Seq<u16>, n: int) -> int
    decreases n,
{
    if n <= 0 {
        0
    } else {
        weight_sum_prefix(weights, n - 1) + weights[n - 1]
    }
}

/// The sum of all weights of a table, in basis points.
pub open spec fn weight_sum(weights: Seq<u16>) -> int {
    weight_sum_prefix(weights, weights.len() as int)
}

pub proof fn lemma_weight_sum_prefix_bounds(weights: Seq<u16>, n: int)
    requires
        0 <= n <= weights.len(),
    ensures
        0 <= weight_sum_prefix(weights, n),
        weight_sum_prefix(weights, n) <= n * 0xffff,
    decreases n,
{
    if n > 0 {
        lemma_weight_sum_prefix_bounds(weights, n - 1);
        assert(weight_sum_prefix(weights, n) == weight_sum_prefix(weights, n - 1) + weights[n
            - 1]);
        assert((n - 1) * 0xffff + 0xffff == n * 0xffff) by (nonlinear_arith);
    }
}

/// Updating one slot moves the sum by the difference at that slot.
pub proof fn lemma_weight_sum_prefix_update(weights: Seq<u16>, n: int, j: int, v: u16)
    requires
        0 <= j < weights.len(),
        n <= weights.len(),
    ensures
        weight_sum_prefix(weights.update(j, v), n) == weight_sum_prefix(weights, n) + if j < n {
            v - weights[j]
        } else {
            0
        },
    decreases n,
{
    if n > 0 {
        lemma_weight_sum_prefix_update(weights, n - 1, j, v);
    }
}

impl Game {
    /// Well-formedness: the table has its full capacity of slots, only the
    /// first `prize_count` may be occupied, the weights respect the 10000 bp
    /// budget, and the audit trail is 32 bytes wide.
    pub open spec fn wf(self) -> bool {
        &&& self.prize_probabilities@.len() == MAX_PRIZES
        &&& self.prize_count <= MAX_PRIZES
        &&& weight_sum(self.prize_probabilities@) <= 10000
        &&& forall|i: int|
            self.prize_count <= i < MAX_PRIZES ==> self.prize_probabilities@[i] == 0
        &&& self.last_random_value@.len() == 32
    }
}

impl Prize {
    /// Well-formedness: remaining supply never exceeds the total, and the
    /// index lies within the table.
    pub open spec fn wf(self) -> bool {
        &&& self.supply_remaining <= self.supply_total
        &&& self.prize_index < MAX_PRIZES
    }
}

/// A vector of `n` zero bytes.
fn zero_bytes(n: usize) -> (r: Vec<u8>)
    ensures
        r@.len() == n,
        forall|i: int| 0 <= i < n ==> r@[i] == 0,
{
    let mut v: Vec<u8> = Vec::new();
    let mut k: usize = 0;
    while k < n
        invariant
            k <= n,
            v@.len() == k,
            forall|i: int| 0 <= i < k ==> v@[i] == 0,
        decreases n - k,
    {
        v.push(0);
        k = k + 1;
    }
    v
}

/// An empty probability table: every slot unoccupied.
fn zero_table() -> (r: Vec<u16>)
    ensures
        r@.len() == MAX_PRIZES,
        forall|i: int| 0 <= i < MAX_PRIZES ==> r@[i] == 0,
{
    let mut v: Vec<u16> = Vec::new();
    let mut k: usize = 0;
    while k < MAX_PRIZES
        invariant
            k <= MAX_PRIZES,
            v@.len() == k,
            forall|i: int| 0 <= i < k ==> v@[i] == 0,
        decreases MAX_PRIZES - k,
    {
        v.push(0);
        k = k + 1;
    }
    v
}

proof fn lemma_zero_prefix_sums_to_zero(weights: Seq<u16>, n: int)
    requires
        forall|i: int| 0 <= i < n ==> weights[i] == 0,
    ensures
        weight_sum_prefix(weights, n) == 0,
    decreases n,
{
    if n > 0 {
        lemma_zero_prefix_sums_to_zero(weights, n - 1);
    }
}

/// Sums the whole weight table as an exec value.
fn table_weight_total(weights: &Vec<u16>) -> (r: u32)
    requires
        weights@.len() == MAX_PRIZES,
    ensures
        r == weight_sum(weights@),
{
    let mut total: u32 = 0;
    let mut k: usize = 0;
    while k < MAX_PRIZES
        invariant
            k <= MAX_PRIZES,
            weights@.len() == MAX_PRIZES,
            total == weight_sum_prefix(weights@, k as int),
            total <= k * 0xffff,
        decreases MAX_PRIZES - k,
    {
        total = total + weights[k] as u32;
        k = k + 1;
    }
    total
}

/// Creates the program configuration with its initial authority.
pub fn initialize_program(authority: AccountId) -> (c: Config)
    ensures
        c.authority == authority,
{
    Config { authority }
}

/// Replaces the program authority. Only the recorded authority may do so.
pub fn update_program_authority(
    config: &mut Config,
    authority: AccountId,
    new_authority: AccountId,
) -> (r: Result<(), ErrorCode>)
    ensures
        r is Ok <==> old(config).authority == authority,
        r is Ok ==> final(config).authority == new_authority,
        r is Err ==> *final(config) == *old(config) && r == Err::<(), ErrorCode>(
            ErrorCode::Unauthorized,
        ),
{
    if config.authority == authority {
        config.authority = new_authority;
        Ok(())
    } else {
        Err(ErrorCode::Unauthorized)
    }
}

/// The failure, if any, of [`initialize_game`] on the given inputs.
pub open spec fn initialize_game_error(
    config: Config,
    authority: AccountId,
    name: Seq<char>,
    description: Seq<char>,
    image_url: Seq<char>,
) -> Option<ErrorCode> {
    if authority != config.authority {
        Some(ErrorCode::Unauthorized)
    } else if name.len() > NAME_MAX || description.len() > GAME_DESCRIPTION_MAX || image_url.len()
        > URL_MAX {
        Some(ErrorCode::StringTooLong)
    } else {
        None
    }
}

/// Creates a game without prizes: inactive, with an empty table, to be
/// populated by [`add_prize`]. Only the program authority may create games.
pub fn initialize_game(
    config: &Config,
    authority: AccountId,
    game_id: u64,
    name: String,
    description: String,
    image_url: String,
    cost_usd: u64,
    token_mint: AccountId,
    treasury: AccountId,
) -> (r: Result<Game, ErrorCode>)
    ensures
        (match r {
            Ok(g) => {
                &&& initialize_game_error(*config, authority, name@, description@, image_url@)
                    is None
                &&& g.wf()
                &&& g.authority == authority
                &&& g.game_id == game_id
                &&& g.name == name
                &&& g.description == description
                &&& g.image_url == image_url
                &&& g.token_mint == token_mint
                &&& g.cost_usd == cost_usd
                &&& g.treasury == treasury
                &&& g.prize_count == 0
                &&& weight_sum(g.prize_probabilities@) == 0
                &&& g.total_supply_remaining == 0
                &&& g.total_plays == 0
                &&& !g.is_active
                &&& (forall|i: int| 0 <= i < 32 ==> g.last_random_value@[i] == 0)
            },
            Err(e) => Some(e) == initialize_game_error(
                *config,
                authority,
                name@,
                description@,
                image_url@,
            ),
        }),
{
    if !(authority == config.authority) {
        return Err(ErrorCode::Unauthorized);
    }
    if name.as_str().unicode_len() > NAME_MAX {
        return Err(ErrorCode::StringTooLong);
    }
    if description.as_str().unicode_len() > GAME_DESCRIPTION_MAX {
        return Err(ErrorCode::StringTooLong);
    }
    if image_url.as_str().unicode_len() > URL_MAX {
        return Err(ErrorCode::StringTooLong);
    }
    let table = zero_table();
    proof {
        lemma_zero_prefix_sums_to_zero(table@, MAX_PRIZES as int);
    }
    Ok(
        Game {
            authority,
            game_id,
            name,
            description,
            image_url,
            token_mint,
            cost_usd,
            treasury,
            prize_count: 0,
            prize_probabilities: table,
            total_supply_remaining: 0,
            total_plays: 0,
            is_active: false,
            last_random_value: zero_bytes(32),
        },
    )
}

/// The failure, if any, of [`add_prize`] on the given inputs.
pub open spec fn add_prize_error(
    game: Game,
    authority: AccountId,
    prize_index: u8,
    name: Seq<char>,
    description: Seq<char>,
    image_url: Seq<char>,
    metadata_uri: Seq<char>,
    physical_sku: Seq<char>,
    probability_bp: u16,
    supply_total: u32,
) -> Option<ErrorCode> {
    if authority != game.authority {
        Some(ErrorCode::Unauthorized)
    } else if prize_index >= MAX_PRIZES {
        Some(ErrorCode::TooManyPrizes)
    } else if prize_index != game.prize_count {
        Some(ErrorCode::InvalidPrizeIndex)
    } else if name.len() > NAME_MAX || description.len() > PRIZE_DESCRIPTION_MAX || image_url.len()
        > URL_MAX || metadata_uri.len() > URL_MAX || physical_sku.len() > SKU_MAX {
        Some(ErrorCode::StringTooLong)
    } else if weight_sum(game.prize_probabilities@) + probability_bp > 10000 {
        Some(ErrorCode::InvalidProbabilities)
    } else if game.total_supply_remaining + supply_total > u32::MAX {
        Some(ErrorCode::MathOverflow)
    } else {
        None
    }
}

/// Appends a prize at the next unused table slot. The addition is rejected
/// if the slot is out of sequence, the table is full, a string exceeds its
/// limit, or the new weight would push the table's sum past 10000 bp. On
/// success the weight is recorded, the game-level remaining supply grows by
/// the prize's supply, and the game activates if that supply is positive.
/// Only the game authority may add prizes.
pub fn add_prize(
    game: &mut Game,
    authority: AccountId,
    prize_index: u8,
    prize_id: u64,
    name: String,
    description: String,
    image_url: String,
    metadata_uri: String,
    physical_sku: String,
    tier: PrizeTier,
    probability_bp: u16,
    cost_usd: u64,
    weight_grams: u32,
    length_hundredths: u16,
    width_hundredths: u16,
    height_hundredths: u16,
    supply_total: u32,
) -> (r: Result<Prize, ErrorCode>)
    requires
        old(game).wf(),
    ensures
        final(game).wf(),
        (match r {
            Ok(p) => {
                &&& add_prize_error(
                    *old(game),
                    authority,
                    prize_index,
                    name@,
                    description@,
                    image_url@,
                    metadata_uri@,
                    physical_sku@,
                    probability_bp,
                    supply_total,
                ) is None
                &&& p.wf()
                &&& p.game == old(game).game_id
                &&& p.prize_index == prize_index
                &&& p.prize_id == prize_id
                &&& p.name == name
                &&& p.description == description
                &&& p.image_url == image_url
                &&& p.metadata_uri == metadata_uri
                &&& p.physical_sku == physical_sku
                &&& p.tier == tier
                &&& p.probability_bp == probability_bp
                &&& p.cost_usd == cost_usd
                &&& p.weight_grams == weight_grams
                &&& p.length_hundredths == length_hundredths
                &&& p.width_hundredths == width_hundredths
                &&& p.height_hundredths == height_hundredths
                &&& p.supply_total == supply_total
                &&& p.supply_remaining == supply_total
                &&& final(game).prize_probabilities@ == old(game).prize_probabilities@.update(
                    prize_index as int,
                    probability_bp,
                )
                &&& weight_sum(final(game).prize_probabilities@) == weight_sum(
                    old(game).prize_probabilities@,
                ) + probability_bp
                &&& final(game).prize_count == prize_index + 1
                &&& final(game).total_supply_remaining == old(game).total_supply_remaining
                    + supply_total
                &&& final(game).is_active == (final(game).total_supply_remaining > 0 || old(
                    game,
                ).is_active)
                &&& final(game).authority == old(game).authority
                &&& final(game).game_id == old(game).game_id
                &&& final(game).name == old(game).name
                &&& final(game).token_mint == old(game).token_mint
                &&& final(game).treasury == old(game).treasury
                &&& final(game).cost_usd == old(game).cost_usd
                &&& final(game).total_plays == old(game).total_plays
                &&& final(game).last_random_value == old(game).last_random_value
            },
            Err(e) => {
                &&& Some(e) == add_prize_error(
                    *old(game),
                    authority,
                    prize_index,
                    name@,
                    description@,
                    image_url@,
                    metadata_uri@,
                    physical_sku@,
                    probability_bp,
                    supply_total,
                )
                &&& *final(game) == *old(game)
            },
        }),
{
    if !(authority == game.authority) {
        return Err(ErrorCode::Unauthorized);
    }
    if prize_index as usize >= MAX_PRIZES {
        return Err(ErrorCode::TooManyPrizes);
    }
    if prize_index != game.prize_count {
        return Err(ErrorCode::InvalidPrizeIndex);
    }
    if name.as_str().unicode_len() > NAME_MAX {
        return Err(ErrorCode::StringTooLong);
    }
    if description.as_str().unicode_len() > PRIZE_DESCRIPTION_MAX {
        return Err(ErrorCode::StringTooLong);
    }
    if image_url.as_str().unicode_len() > URL_MAX {
        return Err(ErrorCode::StringTooLong);
    }
    if metadata_uri.as_str().unicode_len() > URL_MAX {
        return Err(ErrorCode::StringTooLong);
    }
    if physical_sku.as_str().unicode_len() > SKU_MAX {
        return Err(ErrorCode::StringTooLong);
    }

    let current_total = table_weight_total(&game.prize_probabilities);
    proof {
        lemma_weight_sum_prefix_bounds(game.prize_probabilities@, MAX_PRIZES as int);
    }
    let new_total = current_total + probability_bp as u32;
    if new_total > 10000 {
        return Err(ErrorCode::InvalidProbabilities);
    }
    let new_supply = match game.total_supply_remaining.checked_add(supply_total) {
        Some(s) => s,
        None => {
            return Err(ErrorCode::MathOverflow);
        },
    };

    let ghost old_table = game.prize_probabilities@;
    game.prize_probabilities[prize_index as usize] = probability_bp;
    proof {
        lemma_weight_sum_prefix_update(old_table, MAX_PRIZES as int, prize_index as int,
            probability_bp);
    }
    game.prize_count = prize_index + 1;
    game.total_supply_remaining = new_supply;
    if game.total_supply_remaining > 0 {
        game.is_active = true;
    }

    Ok(
        Prize {
            game: game.game_id,
            prize_index,
            prize_id,
            name,
            description,
            image_url,
            metadata_uri,
            physical_sku,
            tier,
            probability_bp,
            cost_usd,
            weight_grams,
            length_hundredths,
            width_hundredths,
            height_hundredths,
            supply_total,
            supply_remaining: supply_total,
        },
    )
}

/// Toggles the game's activity flag. Only the game authority may do so.
pub fn update_game_status(game: &mut Game, authority: AccountId, is_active: bool) -> (r: Result<
    (),
    ErrorCode,
>)
    requires
        old(game).wf(),
    ensures
        final(game).wf(),
        r is Ok <==> old(game).authority == authority,
        r is Ok ==> *final(game) == (Game { is_active, ..*old(game) }),
        r is Err ==> *final(game) == *old(game) && r == Err::<(), ErrorCode>(
            ErrorCode::Unauthorized,
        ),
{
    if !(authority == game.authority) {
        return Err(ErrorCode::Unauthorized);
    }
    game.is_active = is_active;
    Ok(())
}

/// The failure, if any, of [`replenish_prize_supply`] on the given inputs.
pub open spec fn replenish_error(
    game: Game,
    prize: Prize,
    authority: AccountId,
    additional_supply: u32,
) -> Option<ErrorCode> {
    if authority != game.authority {
        Some(ErrorCode::Unauthorized)
    } else if prize.game != game.game_id {
        Some(ErrorCode::Unauthorized)
    } else if prize.prize_index >= game.prize_count {
        Some(ErrorCode::PrizeNotFound)
    } else if prize.supply_total + additional_supply > u32::MAX || prize.supply_remaining
        + additional_supply > u32::MAX || game.total_supply_remaining + additional_supply
        > u32::MAX {
        Some(ErrorCode::MathOverflow)
    } else {
        None
    }
}

/// Adds supply to a prize and to its game's total, reactivating an inactive
/// game when the added amount is positive. The prize must belong to the game
/// and occupy a slot within its table. All three counters are updated
/// together or not at all. Only the game authority may replenish.
pub fn replenish_prize_supply(
    game: &mut Game,
    prize: &mut Prize,
    authority: AccountId,
    additional_supply: u32,
) -> (r: Result<(), ErrorCode>)
    requires
        old(game).wf(),
        old(prize).wf(),
    ensures
        final(game).wf(),
        final(prize).wf(),
        (match r {
            Ok(()) => {
                &&& replenish_error(*old(game), *old(prize), authority, additional_supply) is None
                &&& final(prize).supply_total == old(prize).supply_total + additional_supply
                &&& final(prize).supply_remaining == old(prize).supply_remaining
                    + additional_supply
                &&& final(game).total_supply_remaining == old(game).total_supply_remaining
                    + additional_supply
                &&& final(game).is_active == (old(game).is_active || additional_supply > 0)
                &&& *final(prize) == (Prize {
                    supply_total: final(prize).supply_total,
                    supply_remaining: final(prize).supply_remaining,
                    ..*old(prize)
                })
                &&& *final(game) == (Game {
                    total_supply_remaining: final(game).total_supply_remaining,
                    is_active: final(game).is_active,
                    ..*old(game)
                })
            },
            Err(e) => {
                &&& Some(e) == replenish_error(*old(game), *old(prize), authority,
                    additional_supply)
                &&& *final(game) == *old(game)
                &&& *final(prize) == *old(prize)
            },
        }),
{
    if !(authority == game.authority) {
        return Err(ErrorCode::Unauthorized);
    }
    if prize.game != game.game_id {
        return Err(ErrorCode::Unauthorized);
    }
    if prize.prize_index >= game.prize_count {
        return Err(ErrorCode::PrizeNotFound);
    }
    let new_total = match prize.supply_total.checked_add(additional_supply) {
        Some(s) => s,
        None => {
            return Err(ErrorCode::MathOverflow);
        },
    };
    let new_remaining = match prize.supply_remaining.checked_add(additional_supply) {
        Some(s) => s,
        None => {
            return Err(ErrorCode::MathOverflow);
        },
    };
    let new_game_supply = match game.total_supply_remaining.checked_add(additional_supply) {
        Some(s) => s,
        None => {
            return Err(ErrorCode::MathOverflow);
        },
    };
    prize.supply_total = new_total;
    prize.supply_remaining = new_remaining;
    game.total_supply_remaining = new_game_supply;
    if additional_supply > 0 && !game.is_active {
        game.is_active = true;
    }
    Ok(())
}

/// The failure, if any, of [`withdraw_treasury`] on the given inputs.
pub open spec fn withdraw_treasury_error(
    game: Game,
    authority: AccountId,
    treasury: AccountId,
    treasury_token_owner: AccountId,
    treasury_token_mint: AccountId,
    destination_token_mint: AccountId,
) -> Option<ErrorCode> {
    if authority != game.authority || treasury != game.treasury || treasury_token_owner != treasury
        || treasury_token_mint != game.token_mint || destination_token_mint != game.token_mint {
        Some(ErrorCode::Unauthorized)
    } else {
        None
    }
}

/// Validates a treasury withdrawal: the caller must be the game authority,
/// the signing treasury must be the recorded one, and both token accounts
/// must carry the game's denomination. On success the caller transfers
/// `amount` from the treasury account to the destination through the token
/// ledger.
pub fn withdraw_treasury(
    game: &Game,
    authority: AccountId,
    treasury: AccountId,
    treasury_token_owner: AccountId,
    treasury_token_mint: AccountId,
    destination_token_mint: AccountId,
    amount: u64,
) -> (r: Result<u64, ErrorCode>)
    ensures
        (match r {
            Ok(a) => a == amount && withdraw_treasury_error(
                *game,
                authority,
                treasury,
                treasury_token_owner,
                treasury_token_mint,
                destination_token_mint,
            ) is None,
            Err(e) => Some(e) == withdraw_treasury_error(
                *game,
                authority,
                treasury,
                treasury_token_owner,
                treasury_token_mint,
                destination_token_mint,
            ),
        }),
{
    if !(authority == game.authority) {
        return Err(ErrorCode::Unauthorized);
    }
    if !(treasury == game.treasury) {
        return Err(ErrorCode::Unauthorized);
    }
    if !(treasury_token_owner == treasury) {
        return Err(ErrorCode::Unauthorized);
    }
    if !(treasury_token_mint == game.token_mint) {
        return Err(ErrorCode::Unauthorized);
    }
    if !(destination_token_mint == game.token_mint) {
        return Err(ErrorCode::Unauthorized);
    }
    Ok(amount)
}

/// Validates tearing a game down: only its authority may reclaim it.
pub fn close_game(game: &Game, authority: AccountId) -> (r: Result<(), ErrorCode>)
    ensures
        r is Ok <==> game.authority == authority,
        r is Err ==> r == Err::<(), ErrorCode>(ErrorCode::Unauthorized),
{
    if game.authority == authority {
        Ok(())
    } else {
        Err(ErrorCode::Unauthorized)
    }
}

/// Validates tearing a prize record down: only the parent game's authority
/// may reclaim it, and the record must belong to that game.
pub fn close_prize(game: &Game, prize: &Prize, authority: AccountId) -> (r: Result<(), ErrorCode>)
    ensures
        r is Ok <==> game.authority == authority && prize.game == game.game_id,
        r is Err ==> r == Err::<(), ErrorCode>(ErrorCode::Unauthorized),
{
    if !(game.authority == authority) {
        return Err(ErrorCode::Unauthorized);
    }
    if prize.game != game.game_id {
        return Err(ErrorCode::Unauthorized);
    }
    Ok(())
}

} // verus!
