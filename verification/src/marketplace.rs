//! The marketplace escrow: listing, buying and cancelling resales of won
//! collectibles, settled through the same token-ledger collaborator as the
//! game's treasury.
//!
//! A [`Listing`] escrows exactly one collectible unit under a delegated
//! authority scoped to the listing, so the component — not any one keypair —
//! moves escrowed funds. A purchase splits the price into a 2% platform fee,
//! rounded down, and the seller's remainder. A listing is `Active` until it
//! is either `Sold` or `Cancelled`, terminally.

use vstd::prelude::*;

use crate::ids::AccountId;

verus! {

/// Platform fee in basis points: 2% of the price, rounded down.
pub const PLATFORM_FEE_BPS: u16 = 200;

/// The typed failure reasons of the marketplace.
#[derive(Clone, Copy, PartialEq, Eq, Structural, Debug)]
pub enum ErrorCode {
    /// The caller is not the recorded authority or owner.
    Unauthorized,
    /// The listing was already sold or cancelled.
    ListingInactive,
    /// A listing's price must be positive.
    InvalidPrice,
    /// The payment's denomination does not match the listing's.
    InvalidCurrency,
    /// A checked arithmetic operation would wrap.
    MathOverflow,
}

/// The marketplace configuration: its administrator and the treasury that
/// collects platform fees.
#[derive(Clone, Copy, PartialEq, Eq, Structural, Debug)]
pub struct Config {
    pub authority: AccountId,
    pub platform_treasury: AccountId,
}

/// One collectible offered for resale, and its escrow state.
pub struct Listing {
    pub seller: AccountId,
    /// The escrowed collectible.
    pub nft_mint: AccountId,
    /// The denomination the price is quoted in.
    pub currency_mint: AccountId,
    pub price_in_tokens: u64,
    pub is_active: bool,
    pub listed_at: i64,
    pub cancelled_at: Option<i64>,
    pub sold_at: Option<i64>,
    pub buyer: Option<AccountId>,
}

impl Listing {
    /// Well-formedness: at most one of the terminal timestamps is set, and
    /// either implies the listing is no longer active.
    pub open spec fn wf(self) -> bool {
        &&& !(self.cancelled_at is Some && self.sold_at is Some)
        &&& (self.cancelled_at is Some || self.sold_at is Some ==> !self.is_active)
        &&& (self.buyer is Some <==> self.sold_at is Some)
    }
}

/// The platform's cut of a sale: `floor(price * 200 / 10000)`.
pub open spec fn platform_fee(price: u64) -> int {
    (price * PLATFORM_FEE_BPS) / 10000
}

/// The fee never exceeds the price, so the seller's remainder never
/// underflows.
pub proof fn lemma_platform_fee_le_price(price: u64)
    ensures
        0 <= platform_fee(price) <= price,
{
    assert(price * 200 / 10000 <= price) by (nonlinear_arith);
}

/// Creates the marketplace configuration.
pub fn initialize_config(admin: AccountId, platform_treasury: AccountId) -> (c: Config)
    ensures
        c.authority == admin,
        c.platform_treasury == platform_treasury,
{
    Config { authority: admin, platform_treasury }
}

/// Replaces the platform treasury and/or the administrator; a `None` leaves
/// the field as it was. Only the recorded administrator may update.
pub fn update_config(
    config: &mut Config,
    admin: AccountId,
    new_platform_treasury: Option<AccountId>,
    new_authority: Option<AccountId>,
) -> (r: Result<(), ErrorCode>)
    ensures
        r is Ok <==> old(config).authority == admin,
        r is Ok ==> final(config).platform_treasury == (match new_platform_treasury {
            Some(t) => t,
            None => old(config).platform_treasury,
        }) && final(config).authority == (match new_authority {
            Some(a) => a,
            None => old(config).authority,
        }),
        r is Err ==> *final(config) == *old(config) && r == Err::<(), ErrorCode>(
            ErrorCode::Unauthorized,
        ),
{
    if !(config.authority == admin) {
        return Err(ErrorCode::Unauthorized);
    }
    if let Some(treasury) = new_platform_treasury {
        config.platform_treasury = treasury;
    }
    if let Some(auth) = new_authority {
        config.authority = auth;
    }
    Ok(())
}

/// The failure, if any, of [`list_nft`] on the given inputs.
pub open spec fn list_nft_error(
    price_in_tokens: u64,
    seller: AccountId,
    seller_nft_owner: AccountId,
) -> Option<ErrorCode> {
    if price_in_tokens == 0 {
        Some(ErrorCode::InvalidPrice)
    } else if seller_nft_owner != seller {
        Some(ErrorCode::Unauthorized)
    } else {
        None
    }
}

/// Opens a listing at a positive price, escrowing the collectible: on
/// success the caller moves exactly one unit of `nft_mint` from the seller's
/// account into the listing's custodial account. `now` is the environment's
/// clock reading, recorded as the listing time.
pub fn list_nft(
    seller: AccountId,
    nft_mint: AccountId,
    currency_mint: AccountId,
    price_in_tokens: u64,
    seller_nft_owner: AccountId,
    now: i64,
) -> (r: Result<Listing, ErrorCode>)
    ensures
        (match r {
            Ok(l) => {
                &&& list_nft_error(price_in_tokens, seller, seller_nft_owner) is None
                &&& l.wf()
                &&& l.seller == seller
                &&& l.nft_mint == nft_mint
                &&& l.currency_mint == currency_mint
                &&& l.price_in_tokens == price_in_tokens
                &&& l.is_active
                &&& l.listed_at == now
                &&& l.cancelled_at is None
                &&& l.sold_at is None
                &&& l.buyer is None
            },
            Err(e) => Some(e) == list_nft_error(price_in_tokens, seller, seller_nft_owner),
        }),
{
    if price_in_tokens == 0 {
        return Err(ErrorCode::InvalidPrice);
    }
    if !(seller_nft_owner == seller) {
        return Err(ErrorCode::Unauthorized);
    }
    Ok(
        Listing {
            seller,
            nft_mint,
            currency_mint,
            price_in_tokens,
            is_active: true,
            listed_at: now,
            cancelled_at: None,
            sold_at: None,
            buyer: None,
        },
    )
}

/// The failure, if any, of [`cancel_listing`] on the given inputs.
pub open spec fn cancel_listing_error(listing: Listing, seller: AccountId) -> Option<ErrorCode> {
    if listing.seller != seller {
        Some(ErrorCode::Unauthorized)
    } else if !listing.is_active {
        Some(ErrorCode::ListingInactive)
    } else {
        None
    }
}

/// Cancels an active listing: only its seller may, and on success the caller
/// returns the escrowed unit to the seller. The listing records the
/// cancellation time and is terminally inactive.
pub fn cancel_listing(listing: &mut Listing, seller: AccountId, now: i64) -> (r: Result<
    (),
    ErrorCode,
>)
    requires
        old(listing).wf(),
    ensures
        final(listing).wf(),
        (match r {
            Ok(()) => {
                &&& cancel_listing_error(*old(listing), seller) is None
                &&& *final(listing) == (Listing {
                    is_active: false,
                    cancelled_at: Some(now),
                    ..*old(listing)
                })
            },
            Err(e) => {
                &&& Some(e) == cancel_listing_error(*old(listing), seller)
                &&& *final(listing) == *old(listing)
            },
        }),
{
    if !(listing.seller == seller) {
        return Err(ErrorCode::Unauthorized);
    }
    if !listing.is_active {
        return Err(ErrorCode::ListingInactive);
    }
    listing.is_active = false;
    listing.cancelled_at = Some(now);
    Ok(())
}

/// The failure, if any, of [`buy_nft`] on the given inputs.
pub open spec fn buy_nft_error(
    listing: Listing,
    config: Config,
    currency_mint: AccountId,
    platform_treasury_owner: AccountId,
) -> Option<ErrorCode> {
    if !listing.is_active {
        Some(ErrorCode::ListingInactive)
    } else if currency_mint != listing.currency_mint {
        Some(ErrorCode::InvalidCurrency)
    } else if platform_treasury_owner != config.platform_treasury {
        Some(ErrorCode::Unauthorized)
    } else {
        None
    }
}

/// Buys an active listing. The price splits into the platform fee —
/// `floor(price * 200 / 10000)`, two percent rounded down — and the seller's
/// remainder; on success the caller performs the three ledger transfers
/// (buyer to seller, buyer to platform treasury, escrow to buyer) with the
/// returned `(seller_amount, fee)`, all under one transactional boundary.
/// The listing records the buyer and the sale time and is terminally
/// inactive.
pub fn buy_nft(
    listing: &mut Listing,
    config: &Config,
    buyer: AccountId,
    currency_mint: AccountId,
    platform_treasury_owner: AccountId,
    now: i64,
) -> (r: Result<(u64, u64), ErrorCode>)
    requires
        old(listing).wf(),
    ensures
        final(listing).wf(),
        (match r {
            Ok((seller_amount, fee)) => {
                &&& buy_nft_error(*old(listing), *config, currency_mint, platform_treasury_owner)
                    is None
                &&& fee == platform_fee(old(listing).price_in_tokens)
                &&& seller_amount == old(listing).price_in_tokens - fee
                &&& *final(listing) == (Listing {
                    is_active: false,
                    sold_at: Some(now),
                    buyer: Some(buyer),
                    ..*old(listing)
                })
            },
            Err(e) => {
                &&& Some(e) == buy_nft_error(*old(listing), *config, currency_mint,
                    platform_treasury_owner)
                &&& *final(listing) == *old(listing)
            },
        }),
{
    if !listing.is_active {
        return Err(ErrorCode::ListingInactive);
    }
    if !(currency_mint == listing.currency_mint) {
        return Err(ErrorCode::InvalidCurrency);
    }
    if !(platform_treasury_owner == config.platform_treasury) {
        return Err(ErrorCode::Unauthorized);
    }

    let price = listing.price_in_tokens;
    proof {
        lemma_platform_fee_le_price(price);
        assert(price as u128 * PLATFORM_FEE_BPS as u128 <= u64::MAX as u128 * 200)
            by (nonlinear_arith);
    }
    let fee = ((price as u128 * PLATFORM_FEE_BPS as u128) / 10000) as u64;
    let seller_amount = price - fee;

    listing.is_active = false;
    listing.sold_at = Some(now);
    listing.buyer = Some(buyer);

    Ok((seller_amount, fee))
}

/// The failure, if any, of [`update_listing_price`] on the given inputs.
pub open spec fn update_listing_price_error(
    listing: Listing,
    seller: AccountId,
    new_price_in_tokens: u64,
) -> Option<ErrorCode> {
    if listing.seller != seller {
        Some(ErrorCode::Unauthorized)
    } else if !listing.is_active {
        Some(ErrorCode::ListingInactive)
    } else if new_price_in_tokens == 0 {
        Some(ErrorCode::InvalidPrice)
    } else {
        None
    }
}

/// Reprices an active listing to a positive price. Only its seller may.
pub fn update_listing_price(
    listing: &mut Listing,
    seller: AccountId,
    new_price_in_tokens: u64,
) -> (r: Result<u64, ErrorCode>)
    requires
        old(listing).wf(),
    ensures
        final(listing).wf(),
        (match r {
            Ok(old_price) => {
                &&& update_listing_price_error(*old(listing), seller, new_price_in_tokens)
                    is None
                &&& old_price == old(listing).price_in_tokens
                &&& *final(listing) == (Listing {
                    price_in_tokens: new_price_in_tokens,
                    ..*old(listing)
                })
            },
            Err(e) => {
                &&& Some(e) == update_listing_price_error(*old(listing), seller,
                    new_price_in_tokens)
                &&& *final(listing) == *old(listing)
            },
        }),
{
    if !(listing.seller == seller) {
        return Err(ErrorCode::Unauthorized);
    }
    if !listing.is_active {
        return Err(ErrorCode::ListingInactive);
    }
    if new_price_in_tokens == 0 {
        return Err(ErrorCode::InvalidPrice);
    }
    let old_price = listing.price_in_tokens;
    listing.price_in_tokens = new_price_in_tokens;
    Ok(old_price)
}

/// The failure, if any, of [`withdraw_platform_fees`] on the given inputs.
pub open spec fn withdraw_platform_fees_error(
    config: Config,
    admin: AccountId,
    treasury_authority: AccountId,
    treasury_token_owner: AccountId,
    treasury_token_mint: AccountId,
    destination_token_mint: AccountId,
) -> Option<ErrorCode> {
    if admin != config.authority || treasury_token_owner != treasury_authority
        || treasury_token_owner != config.platform_treasury || destination_token_mint
        != treasury_token_mint {
        Some(ErrorCode::Unauthorized)
    } else {
        None
    }
}

/// Validates a platform-fee withdrawal: the caller must be the
/// administrator, the treasury account must be owned by the signing treasury
/// authority recorded in the configuration, and the destination must carry
/// the same denomination. On success the caller transfers `amount` from the
/// platform treasury to the destination through the token ledger.
pub fn withdraw_platform_fees(
    config: &Config,
    admin: AccountId,
    treasury_authority: AccountId,
    treasury_token_owner: AccountId,
    treasury_token_mint: AccountId,
    destination_token_mint: AccountId,
    amount: u64,
) -> (r: Result<u64, ErrorCode>)
    ensures
        (match r {
            Ok(a) => a == amount && withdraw_platform_fees_error(
                *config,
                admin,
                treasury_authority,
                treasury_token_owner,
                treasury_token_mint,
                destination_token_mint,
            ) is None,
            Err(e) => Some(e) == withdraw_platform_fees_error(
                *config,
                admin,
                treasury_authority,
                treasury_token_owner,
                treasury_token_mint,
                destination_token_mint,
            ),
        }),
{
    if !(admin == config.authority) {
        return Err(ErrorCode::Unauthorized);
    }
    if !(treasury_token_owner == treasury_authority) {
        return Err(ErrorCode::Unauthorized);
    }
    if !(treasury_token_owner == config.platform_treasury) {
        return Err(ErrorCode::Unauthorized);
    }
    if !(destination_token_mint == treasury_token_mint) {
        return Err(ErrorCode::Unauthorized);
    }
    Ok(amount)
}

} // verus!
