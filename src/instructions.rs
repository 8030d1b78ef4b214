use vstd::prelude::*;

use crate::effects::{Authority, Effect};
use crate::keys::Pubkey;
use crate::state::{
    name_len, AdminSettings, Auction, AuctionError, Constraint, InstructionError,
    AUCTION_EXTENSION_PERIOD, AUCTION_GRACE_PERIOD, MAX_NAME_LEN,
};

verus! {

/// Accounts of the one-time creation of the administrator record.
#[derive(Clone, Copy, Debug)]
pub struct InitAdmin {
    /// The signer.
    pub authority: Pubkey,
    /// The upgrade authority recorded in the program's deployment data.
    pub upgrade_authority: Option<Pubkey>,
}

/// Accounts of an administrator rotation.
#[derive(Clone, Copy, Debug)]
pub struct SetAdmin {
    pub authority: Pubkey,
    pub upgrade_authority: Option<Pubkey>,
}

/// Accounts of the opening of an auction.
#[derive(Clone, Copy, Debug)]
pub struct Initialize {
    pub admin_settings: AdminSettings,
    /// The seller, who must be the administrator.
    pub authority: Pubkey,
    /// The seller's token account.
    pub authority_token_account: Pubkey,
    /// The native balance of the seller's token account right now.
    pub authority_token_lamports: u64,
    /// The auction's escrow token account, freshly created and empty.
    pub proceeds: Pubkey,
    /// The bump byte of the auction's derived address.
    pub auction_bump: u8,
}

/// Accounts of a bid whose outbid leader already holds a token account.
#[derive(Clone, Copy, Debug)]
pub struct Bid {
    pub proceeds: Pubkey,
    /// The outbid leader's token account, which gets the old bid back.
    pub leader_token_account: Pubkey,
    /// The outbid leader, who gets the stipend.
    pub leader: Pubkey,
    /// The new bidder's token account.
    pub authority_token_account: Pubkey,
    /// The new bidder.
    pub authority: Pubkey,
}

/// Accounts of a bid that first creates the outbid leader's token account.
#[derive(Clone, Copy, Debug)]
pub struct BidCreate {
    pub proceeds: Pubkey,
    /// The outbid leader's associated token account, created by this bid.
    pub leader_token_account: Pubkey,
    pub leader: Pubkey,
    pub authority_token_account: Pubkey,
    pub authority: Pubkey,
}

/// Accounts of the settlement of a finished auction.
#[derive(Clone, Copy, Debug)]
pub struct Close {
    pub admin_settings: AdminSettings,
    pub proceeds: Pubkey,
    /// The final leader, who gets the escrow account's storage deposit.
    pub leader: Pubkey,
    /// The seller's token account, which gets the winning bid.
    pub authority_token_account: Pubkey,
    /// The signer, who must be the administrator.
    pub authority: Pubkey,
}

/// Whether `authority` is the recorded upgrade authority.
pub open spec fn is_upgrade_authority(upgrade_authority: Option<Pubkey>, authority: Pubkey) -> bool {
    match upgrade_authority {
        Some(k) => k@ == authority@,
        None => false,
    }
}

fn check_upgrade_authority(upgrade_authority: &Option<Pubkey>, authority: &Pubkey) -> (r: bool)
    ensures
        r == is_upgrade_authority(*upgrade_authority, *authority),
{
    match upgrade_authority {
        Some(k) => *k == *authority,
        None => false,
    }
}

/// Creates the administrator record, naming `admin_key`; only the program's
/// upgrade authority may do so.
pub fn init_admin(ctx: &InitAdmin, admin_key: Pubkey) -> (r: Result<AdminSettings, InstructionError>)
    ensures
        is_upgrade_authority(ctx.upgrade_authority, ctx.authority) ==> r == Ok::<
            AdminSettings,
            InstructionError,
        >(AdminSettings { admin_key }),
        !is_upgrade_authority(ctx.upgrade_authority, ctx.authority) ==> r == Err::<
            AdminSettings,
            InstructionError,
        >(InstructionError::Constraint(Constraint::NotUpgradeAuthority)),
{
    if !check_upgrade_authority(&ctx.upgrade_authority, &ctx.authority) {
        return Err(InstructionError::Constraint(Constraint::NotUpgradeAuthority));
    }
    Ok(AdminSettings { admin_key })
}

/// Replaces the administrator with `admin_key`; only the program's upgrade
/// authority may do so.
pub fn set_admin(ctx: &SetAdmin, admin_settings: &mut AdminSettings, admin_key: Pubkey) -> (r:
    Result<(), InstructionError>)
    ensures
        is_upgrade_authority(ctx.upgrade_authority, ctx.authority) ==> r is Ok
            && final(admin_settings).admin_key == admin_key,
        !is_upgrade_authority(ctx.upgrade_authority, ctx.authority) ==> r == Err::<
            (),
            InstructionError,
        >(InstructionError::Constraint(Constraint::NotUpgradeAuthority)) && *final(admin_settings)
            == *old(admin_settings),
{
    if !check_upgrade_authority(&ctx.upgrade_authority, &ctx.authority) {
        return Err(InstructionError::Constraint(Constraint::NotUpgradeAuthority));
    }
    admin_settings.admin_key = admin_key;
    Ok(())
}

/// Why opening an auction is refused, if it is.
pub open spec fn initialize_error(
    ctx: Initialize,
    name: String,
    start_timestamp: i64,
    end_timestamp: i64,
    now: i64,
) -> Option<InstructionError> {
    if ctx.admin_settings.admin_key@ != ctx.authority@ {
        Some(InstructionError::Constraint(Constraint::NotAdmin))
    } else if start_timestamp >= end_timestamp {
        Some(InstructionError::Auction(AuctionError::StartAfterEndTimestamp))
    } else if now >= end_timestamp {
        Some(InstructionError::Auction(AuctionError::EndTimestampAlreadyPassed))
    } else if name_len(name) > MAX_NAME_LEN {
        Some(InstructionError::Auction(AuctionError::NameTooLong))
    } else {
        None
    }
}

/// The record of a newly opened auction: the seller leads at `price`.
pub open spec fn opened_auction(
    ctx: Initialize,
    name: String,
    price: u64,
    price_increment: u64,
    start_timestamp: i64,
    end_timestamp: i64,
) -> Auction {
    Auction {
        bump: ctx.auction_bump,
        name,
        amount: price,
        amount_increment: price_increment,
        lamports: ctx.authority_token_lamports,
        start_timestamp,
        end_timestamp,
        leader: ctx.authority,
        leader_token_account: ctx.authority_token_account,
    }
}

/// Opening an auction moves `price` from the seller into escrow.
pub open spec fn initialize_effects(ctx: Initialize, price: u64) -> Seq<Effect> {
    seq![
        Effect::TokenTransfer {
            from: ctx.authority_token_account,
            to: ctx.proceeds,
            authority: Authority::Signer(ctx.authority),
            amount: price,
        },
    ]
}

/// Opens an auction named `name` at `now`, the seller depositing `price`.
pub fn initialize(
    ctx: &Initialize,
    name: String,
    price: u64,
    price_increment: u64,
    start_timestamp: i64,
    end_timestamp: i64,
    now: i64,
) -> (r: Result<(Auction, Vec<Effect>), InstructionError>)
    ensures
        match r {
            Ok((auction, effects)) => {
                &&& initialize_error(*ctx, name, start_timestamp, end_timestamp, now) is None
                &&& auction == opened_auction(
                    *ctx,
                    name,
                    price,
                    price_increment,
                    start_timestamp,
                    end_timestamp,
                )
                &&& effects@ == initialize_effects(*ctx, price)
            },
            Err(e) => initialize_error(*ctx, name, start_timestamp, end_timestamp, now) == Some(e),
        },
{
    if !(ctx.admin_settings.admin_key == ctx.authority) {
        return Err(InstructionError::Constraint(Constraint::NotAdmin));
    }
    if !(start_timestamp < end_timestamp) {
        return Err(InstructionError::Auction(AuctionError::StartAfterEndTimestamp));
    }
    if !(now < end_timestamp) {
        return Err(InstructionError::Auction(AuctionError::EndTimestampAlreadyPassed));
    }
    if !(name.as_str().len() <= MAX_NAME_LEN) {
        return Err(InstructionError::Auction(AuctionError::NameTooLong));
    }
    let auction = Auction {
        bump: ctx.auction_bump,
        name,
        amount: price,
        amount_increment: price_increment,
        lamports: ctx.authority_token_lamports,
        start_timestamp,
        end_timestamp,
        leader: ctx.authority,
        leader_token_account: ctx.authority_token_account,
    };
    let effects = vec![
        Effect::TokenTransfer {
            from: ctx.authority_token_account,
            to: ctx.proceeds,
            authority: Authority::Signer(ctx.authority),
            amount: price,
        },
    ];
    assert(effects@ =~= initialize_effects(*ctx, price));
    Ok((auction, effects))
}

/// The least bid that can outbid the auction's leader.
pub open spec fn bid_minimum(auction: Auction) -> int {
    auction.amount + auction.amount_increment
}

/// The auction's end after a bid at `now`: a bid inside the grace period
/// pushes the end to `now` plus the extension period.
pub open spec fn extended_end(end_timestamp: i64, now: i64) -> int {
    if end_timestamp - now < AUCTION_GRACE_PERIOD {
        now + AUCTION_EXTENSION_PERIOD
    } else {
        end_timestamp as int
    }
}

/// Which rule of the auction refuses a bid of `amount` at `now`, if any.
pub open spec fn bid_rule_error(auction: Auction, amount: u64, now: i64) -> Option<AuctionError> {
    if now < auction.start_timestamp {
        Some(AuctionError::AuctionNotStarted)
    } else if now >= auction.end_timestamp {
        Some(AuctionError::AuctionEnded)
    } else if bid_minimum(auction) > u64::MAX {
        Some(AuctionError::InvalidCalculation)
    } else if amount < bid_minimum(auction) {
        Some(AuctionError::BidTooLow)
    } else if extended_end(auction.end_timestamp, now) > i64::MAX {
        Some(AuctionError::InvalidCalculation)
    } else {
        None
    }
}

/// The record after `bidder` outbids the leader with `amount` at `now`.
pub open spec fn outbid(
    auction: Auction,
    bidder: Pubkey,
    bidder_token_account: Pubkey,
    amount: u64,
    now: i64,
) -> Auction {
    Auction {
        amount,
        leader: bidder,
        leader_token_account: bidder_token_account,
        end_timestamp: extended_end(auction.end_timestamp, now) as i64,
        ..auction
    }
}

/// The settlement of an accepted bid: the bid goes into escrow, the outbid
/// leader gets the stipend from the bidder and the old bid out of escrow.
pub open spec fn settlement_effects(
    auction: Auction,
    proceeds: Pubkey,
    leader: Pubkey,
    leader_token_account: Pubkey,
    bidder: Pubkey,
    bidder_token_account: Pubkey,
    amount: u64,
) -> Seq<Effect> {
    seq![
        Effect::TokenTransfer {
            from: bidder_token_account,
            to: proceeds,
            authority: Authority::Signer(bidder),
            amount,
        },
        Effect::NativeTransfer { from: bidder, to: leader, amount: auction.lamports },
        Effect::TokenTransfer {
            from: proceeds,
            to: leader_token_account,
            authority: Authority::Auction,
            amount: auction.amount,
        },
    ]
}

/// Why a bid is refused, if it is: the accounts first, then the rules.
pub open spec fn bid_error(ctx: Bid, auction: Auction, amount: u64, now: i64) -> Option<
    InstructionError,
> {
    if ctx.leader_token_account@ != auction.leader_token_account@ {
        Some(InstructionError::Constraint(Constraint::LeaderTokenAccountMismatch))
    } else if ctx.leader@ != auction.leader@ {
        Some(InstructionError::Constraint(Constraint::LeaderMismatch))
    } else {
        match bid_rule_error(auction, amount, now) {
            Some(e) => Some(InstructionError::Auction(e)),
            None => None,
        }
    }
}

/// Why a bid that creates the leader's token account is refused, if it is.
pub open spec fn bid_create_error(ctx: BidCreate, auction: Auction, amount: u64, now: i64) -> Option<
    InstructionError,
> {
    if ctx.leader@ != auction.leader@ {
        Some(InstructionError::Constraint(Constraint::LeaderMismatch))
    } else {
        match bid_rule_error(auction, amount, now) {
            Some(e) => Some(InstructionError::Auction(e)),
            None => None,
        }
    }
}

/// Applies the auction's rules to a bid and, if it is accepted, updates the
/// record and returns the settlement; a refused bid leaves the record as it was.
fn settle_bid(
    auction: &mut Auction,
    proceeds: Pubkey,
    leader: Pubkey,
    leader_token_account: Pubkey,
    bidder: Pubkey,
    bidder_token_account: Pubkey,
    amount: u64,
    now: i64,
) -> (r: Result<Vec<Effect>, AuctionError>)
    ensures
        match r {
            Ok(effects) => {
                &&& bid_rule_error(*old(auction), amount, now) is None
                &&& *final(auction) == outbid(
                    *old(auction),
                    bidder,
                    bidder_token_account,
                    amount,
                    now,
                )
                &&& effects@ == settlement_effects(
                    *old(auction),
                    proceeds,
                    leader,
                    leader_token_account,
                    bidder,
                    bidder_token_account,
                    amount,
                )
            },
            Err(e) => {
                &&& bid_rule_error(*old(auction), amount, now) == Some(e)
                &&& *final(auction) == *old(auction)
            },
        },
{
    if !(now >= auction.start_timestamp) {
        return Err(AuctionError::AuctionNotStarted);
    }
    if !(now < auction.end_timestamp) {
        return Err(AuctionError::AuctionEnded);
    }
    let amount_min: u64 = match auction.amount.checked_add(auction.amount_increment) {
        Some(m) => m,
        None => {
            return Err(AuctionError::InvalidCalculation);
        },
    };
    if !(amount_min <= amount) {
        return Err(AuctionError::BidTooLow);
    }
    let gap: i128 = auction.end_timestamp as i128 - now as i128;
    let end_timestamp: i64 = if gap < AUCTION_GRACE_PERIOD as i128 {
        match now.checked_add(AUCTION_EXTENSION_PERIOD) {
            Some(t) => t,
            None => {
                return Err(AuctionError::InvalidCalculation);
            },
        }
    } else {
        auction.end_timestamp
    };
    let effects = vec![
        Effect::TokenTransfer {
            from: bidder_token_account,
            to: proceeds,
            authority: Authority::Signer(bidder),
            amount,
        },
        Effect::NativeTransfer { from: bidder, to: leader, amount: auction.lamports },
        Effect::TokenTransfer {
            from: proceeds,
            to: leader_token_account,
            authority: Authority::Auction,
            amount: auction.amount,
        },
    ];
    assert(effects@ =~= settlement_effects(
        *old(auction),
        proceeds,
        leader,
        leader_token_account,
        bidder,
        bidder_token_account,
        amount,
    ));
    auction.amount = amount;
    auction.leader = bidder;
    auction.leader_token_account = bidder_token_account;
    auction.end_timestamp = end_timestamp;
    Ok(effects)
}

/// Places a bid of `amount` at `now` against the leader recorded in
/// `auction`, whose token account already exists.
pub fn bid(ctx: &Bid, auction: &mut Auction, amount: u64, now: i64) -> (r: Result<
    Vec<Effect>,
    InstructionError,
>)
    ensures
        match r {
            Ok(effects) => {
                &&& bid_error(*ctx, *old(auction), amount, now) is None
                &&& *final(auction) == outbid(
                    *old(auction),
                    ctx.authority,
                    ctx.authority_token_account,
                    amount,
                    now,
                )
                &&& effects@ == settlement_effects(
                    *old(auction),
                    ctx.proceeds,
                    ctx.leader,
                    ctx.leader_token_account,
                    ctx.authority,
                    ctx.authority_token_account,
                    amount,
                )
            },
            Err(e) => {
                &&& bid_error(*ctx, *old(auction), amount, now) == Some(e)
                &&& *final(auction) == *old(auction)
            },
        },
{
    if !(ctx.leader_token_account == auction.leader_token_account) {
        return Err(InstructionError::Constraint(Constraint::LeaderTokenAccountMismatch));
    }
    if !(ctx.leader == auction.leader) {
        return Err(InstructionError::Constraint(Constraint::LeaderMismatch));
    }
    match settle_bid(
        auction,
        ctx.proceeds,
        ctx.leader,
        ctx.leader_token_account,
        ctx.authority,
        ctx.authority_token_account,
        amount,
        now,
    ) {
        Ok(effects) => Ok(effects),
        Err(e) => Err(InstructionError::Auction(e)),
    }
}

/// Places a bid of `amount` at `now`, first creating the outbid leader's
/// associated token account at the bidder's cost; otherwise as `bid`.
pub fn bid_create(ctx: &BidCreate, auction: &mut Auction, amount: u64, now: i64) -> (r: Result<
    Vec<Effect>,
    InstructionError,
>)
    ensures
        match r {
            Ok(effects) => {
                &&& bid_create_error(*ctx, *old(auction), amount, now) is None
                &&& *final(auction) == outbid(
                    *old(auction),
                    ctx.authority,
                    ctx.authority_token_account,
                    amount,
                    now,
                )
                &&& effects@ == seq![
                    Effect::CreateTokenAccount {
                        payer: ctx.authority,
                        owner: ctx.leader,
                        account: ctx.leader_token_account,
                    },
                ] + settlement_effects(
                    *old(auction),
                    ctx.proceeds,
                    ctx.leader,
                    ctx.leader_token_account,
                    ctx.authority,
                    ctx.authority_token_account,
                    amount,
                )
            },
            Err(e) => {
                &&& bid_create_error(*ctx, *old(auction), amount, now) == Some(e)
                &&& *final(auction) == *old(auction)
            },
        },
{
    if !(ctx.leader == auction.leader) {
        return Err(InstructionError::Constraint(Constraint::LeaderMismatch));
    }
    match settle_bid(
        auction,
        ctx.proceeds,
        ctx.leader,
        ctx.leader_token_account,
        ctx.authority,
        ctx.authority_token_account,
        amount,
        now,
    ) {
        Ok(settlement) => {
            let mut effects = vec![
                Effect::CreateTokenAccount {
                    payer: ctx.authority,
                    owner: ctx.leader,
                    account: ctx.leader_token_account,
                },
            ];
            let mut settlement = settlement;
            effects.append(&mut settlement);
            Ok(effects)
        },
        Err(e) => Err(InstructionError::Auction(e)),
    }
}

/// Why settling an auction is refused, if it is.
pub open spec fn close_error(ctx: Close, auction: Option<Auction>, now: i64) -> Option<
    InstructionError,
> {
    match auction {
        None => Some(InstructionError::Constraint(Constraint::AccountNotInitialized)),
        Some(a) => if ctx.leader@ != a.leader@ {
            Some(InstructionError::Constraint(Constraint::LeaderMismatch))
        } else if ctx.admin_settings.admin_key@ != ctx.authority@ {
            Some(InstructionError::Constraint(Constraint::NotAdmin))
        } else if now <= a.end_timestamp {
            Some(InstructionError::Auction(AuctionError::AuctionNotFinished))
        } else {
            None
        },
    }
}

/// The settlement of a finished auction: the winning bid leaves escrow for
/// the seller, and the emptied escrow account is closed in favour of the
/// final leader.
pub open spec fn close_effects(ctx: Close, auction: Auction) -> Seq<Effect> {
    seq![
        Effect::TokenTransfer {
            from: ctx.proceeds,
            to: ctx.authority_token_account,
            authority: Authority::Auction,
            amount: auction.amount,
        },
        Effect::CloseTokenAccount {
            account: ctx.proceeds,
            destination: ctx.leader,
            authority: Authority::Auction,
        },
    ]
}

/// Settles the auction at `now` once it has ended, and deletes its record.
pub fn close(ctx: &Close, auction: &mut Option<Auction>, now: i64) -> (r: Result<
    Vec<Effect>,
    InstructionError,
>)
    ensures
        match r {
            Ok(effects) => {
                &&& close_error(*ctx, *old(auction), now) is None
                &&& effects@ == close_effects(*ctx, old(auction).unwrap())
                &&& *final(auction) is None
            },
            Err(e) => {
                &&& close_error(*ctx, *old(auction), now) == Some(e)
                &&& *final(auction) == *old(auction)
            },
        },
{
    let amount: u64 = match auction {
        None => {
            return Err(InstructionError::Constraint(Constraint::AccountNotInitialized));
        },
        Some(a) => {
            if !(ctx.leader == a.leader) {
                return Err(InstructionError::Constraint(Constraint::LeaderMismatch));
            }
            if !(ctx.admin_settings.admin_key == ctx.authority) {
                return Err(InstructionError::Constraint(Constraint::NotAdmin));
            }
            if !(now > a.end_timestamp) {
                return Err(InstructionError::Auction(AuctionError::AuctionNotFinished));
            }
            a.amount
        },
    };
    let effects = vec![
        Effect::TokenTransfer {
            from: ctx.proceeds,
            to: ctx.authority_token_account,
            authority: Authority::Auction,
            amount,
        },
        Effect::CloseTokenAccount {
            account: ctx.proceeds,
            destination: ctx.leader,
            authority: Authority::Auction,
        },
    ];
    assert(effects@ =~= close_effects(*ctx, old(auction).unwrap()));
    *auction = None;
    Ok(effects)
}

} // verus!
