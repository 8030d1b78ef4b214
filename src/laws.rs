//! Facts that hold of every run of the instructions, stated over the models
//! that the instructions' own contracts use.
use vstd::prelude::*;

use crate::effects::{closes, native_delta, token_delta, Effect};
use crate::instructions::{
    bid_create_error, bid_error, bid_rule_error, close_effects, close_error, initialize_effects,
    initialize_error, opened_auction, outbid, settlement_effects, Bid, BidCreate, Close,
    Initialize,
};
use crate::keys::Pubkey;
use crate::state::{
    phase_of, Auction, AuctionError, InstructionError, Phase, AUCTION_EXTENSION_PERIOD,
    AUCTION_GRACE_PERIOD,
};

verus! {

/// An auction opens only if it starts before it ends and ends after now; the
/// new record is well formed, and its fresh escrow then holds exactly `price`.
pub proof fn law_initialize_escrow(
    ctx: Initialize,
    name: String,
    price: u64,
    price_increment: u64,
    start_timestamp: i64,
    end_timestamp: i64,
    now: i64,
)
    requires
        ctx.proceeds@ != ctx.authority_token_account@,
    ensures
        initialize_error(ctx, name, start_timestamp, end_timestamp, now) is None ==> {
            &&& start_timestamp < end_timestamp
            &&& now < end_timestamp
            &&& opened_auction(
                ctx,
                name,
                price,
                price_increment,
                start_timestamp,
                end_timestamp,
            ).wf()
            &&& token_delta(initialize_effects(ctx, price), ctx.proceeds) == price
        },
{
    reveal_with_fuel(token_delta, 2);
}

/// An accepted bid is at least the old amount plus the increment, becomes the
/// new amount, and with a positive increment strictly raises it.
pub proof fn law_bid_raises_amount(
    auction: Auction,
    bidder: Pubkey,
    bidder_token_account: Pubkey,
    amount: u64,
    now: i64,
)
    requires
        auction.amount_increment > 0,
    ensures
        bid_rule_error(auction, amount, now) is None ==> {
            &&& amount >= auction.amount + auction.amount_increment
            &&& outbid(auction, bidder, bidder_token_account, amount, now).amount == amount
            &&& outbid(auction, bidder, bidder_token_account, amount, now).amount > auction.amount
        },
{
}

/// An accepted bid keeps the auction record well formed.
pub proof fn law_bid_keeps_record_valid(
    auction: Auction,
    bidder: Pubkey,
    bidder_token_account: Pubkey,
    amount: u64,
    now: i64,
)
    requires
        auction.wf(),
    ensures
        bid_rule_error(auction, amount, now) is None ==> outbid(
            auction,
            bidder,
            bidder_token_account,
            amount,
            now,
        ).wf(),
{
}

/// An accepted bid changes the escrow's token balance by exactly the change of
/// the auction's amount: an escrow that held the old amount holds the new one.
pub proof fn law_escrow_tracks_amount(
    auction: Auction,
    proceeds: Pubkey,
    leader: Pubkey,
    leader_token_account: Pubkey,
    bidder: Pubkey,
    bidder_token_account: Pubkey,
    amount: u64,
    now: i64,
)
    requires
        proceeds@ != bidder_token_account@,
        proceeds@ != leader_token_account@,
    ensures
        bid_rule_error(auction, amount, now) is None ==> token_delta(
            settlement_effects(
                auction,
                proceeds,
                leader,
                leader_token_account,
                bidder,
                bidder_token_account,
                amount,
            ),
            proceeds,
        ) == outbid(auction, bidder, bidder_token_account, amount, now).amount - auction.amount,
{
    reveal_with_fuel(token_delta, 4);
}

/// An accepted bid pays the outbid leader's token account exactly the old
/// amount, and the outbid leader exactly the stipend in native currency.
pub proof fn law_outbid_leader_refunded(
    auction: Auction,
    proceeds: Pubkey,
    leader: Pubkey,
    leader_token_account: Pubkey,
    bidder: Pubkey,
    bidder_token_account: Pubkey,
    amount: u64,
)
    requires
        leader_token_account@ != bidder_token_account@,
        leader_token_account@ != proceeds@,
        leader@ != bidder@,
    ensures
        token_delta(
            settlement_effects(
                auction,
                proceeds,
                leader,
                leader_token_account,
                bidder,
                bidder_token_account,
                amount,
            ),
            leader_token_account,
        ) == auction.amount,
        native_delta(
            settlement_effects(
                auction,
                proceeds,
                leader,
                leader_token_account,
                bidder,
                bidder_token_account,
                amount,
            ),
            leader,
        ) == auction.lamports,
{
    reveal_with_fuel(token_delta, 4);
    reveal_with_fuel(native_delta, 4);
}

/// A bid inside the grace period moves the end to the bid's time plus the
/// extension period; any other accepted bid leaves the end as it was.
pub proof fn law_bid_extension(
    auction: Auction,
    bidder: Pubkey,
    bidder_token_account: Pubkey,
    amount: u64,
    now: i64,
)
    ensures
        bid_rule_error(auction, amount, now) is None ==> {
            let after = outbid(auction, bidder, bidder_token_account, amount, now);
            &&& auction.end_timestamp - now < AUCTION_GRACE_PERIOD ==> after.end_timestamp == now
                + AUCTION_EXTENSION_PERIOD
            &&& auction.end_timestamp - now >= AUCTION_GRACE_PERIOD ==> after.end_timestamp
                == auction.end_timestamp
        },
{
}

/// A bid at or after the end of a well-formed auction is always refused,
/// whatever its amount; when its accounts are right, with `AuctionEnded`.
pub proof fn law_late_bid_rejected(
    ctx: Bid,
    create_ctx: BidCreate,
    auction: Auction,
    amount: u64,
    now: i64,
)
    requires
        auction.wf(),
        now >= auction.end_timestamp,
    ensures
        bid_rule_error(auction, amount, now) == Some(AuctionError::AuctionEnded),
        bid_error(ctx, auction, amount, now) is Some,
        bid_create_error(create_ctx, auction, amount, now) is Some,
        ctx.leader@ == auction.leader@ && ctx.leader_token_account@
            == auction.leader_token_account@ ==> bid_error(ctx, auction, amount, now) == Some(
            InstructionError::Auction(AuctionError::AuctionEnded),
        ),
        create_ctx.leader@ == auction.leader@ ==> bid_create_error(create_ctx, auction, amount, now)
            == Some(InstructionError::Auction(AuctionError::AuctionEnded)),
{
}

/// Settling is refused while the auction has not ended; an accepted
/// settlement empties the escrow of the winning amount, paid to the seller,
/// and closes the escrow account.
pub proof fn law_close_settles(ctx: Close, auction: Auction, now: i64)
    requires
        ctx.proceeds@ != ctx.authority_token_account@,
    ensures
        now <= auction.end_timestamp ==> close_error(ctx, Some(auction), now) is Some,
        now <= auction.end_timestamp && ctx.leader@ == auction.leader@
            && ctx.admin_settings.admin_key@ == ctx.authority@ ==> close_error(
            ctx,
            Some(auction),
            now,
        ) == Some(InstructionError::Auction(AuctionError::AuctionNotFinished)),
        close_error(ctx, Some(auction), now) is None ==> {
            &&& auction.amount + token_delta(close_effects(ctx, auction), ctx.proceeds) == 0
            &&& token_delta(close_effects(ctx, auction), ctx.authority_token_account)
                == auction.amount
            &&& closes(close_effects(ctx, auction), ctx.proceeds)
        },
{
    reveal_with_fuel(token_delta, 3);
    let es = close_effects(ctx, auction);
    assert(es[1] matches Effect::CloseTokenAccount { account, .. } && account@ == ctx.proceeds@);
}

/// The auction's rules accept a bid only while the auction is active; before
/// that it is refused as not started, after that as ended.
pub proof fn law_bids_only_while_active(auction: Auction, amount: u64, now: i64)
    ensures
        bid_rule_error(auction, amount, now) is None ==> phase_of(Some(auction), now)
            == Phase::Active,
        phase_of(Some(auction), now) == Phase::Pending ==> bid_rule_error(auction, amount, now)
            == Some(AuctionError::AuctionNotStarted),
        phase_of(Some(auction), now) == Phase::Ended ==> bid_rule_error(auction, amount, now)
            == Some(AuctionError::AuctionEnded),
{
}

} // verus!
