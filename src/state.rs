use vstd::prelude::*;

use crate::keys::Pubkey;

verus! {

/// Longest auction name, in bytes.
pub const MAX_NAME_LEN: usize = 64;

/// A bid that lands less than this many seconds before the end extends it.
pub const AUCTION_GRACE_PERIOD: i64 = 60;

/// How far past the bid's own time an extended auction now ends.
pub const AUCTION_EXTENSION_PERIOD: i64 = 60;

/// The singleton record naming the administrator.
#[derive(Clone, Copy, Debug)]
pub struct AdminSettings {
    pub admin_key: Pubkey,
}

/// The durable record of one auction.
#[derive(Clone, Debug)]
pub struct Auction {
    /// Seed byte that re-derives the auction's own signing address.
    pub bump: u8,
    pub name: String,
    /// The current highest bid, held in escrow.
    pub amount: u64,
    /// How much a new bid must add to `amount` at least.
    pub amount_increment: u64,
    /// Native balance of the seller's token account when the auction opened;
    /// paid to every outbid leader.
    pub lamports: u64,
    pub start_timestamp: i64,
    pub end_timestamp: i64,
    pub leader: Pubkey,
    pub leader_token_account: Pubkey,
}

impl Auction {
    /// The record's invariant: it starts before it ends and its name fits.
    pub open spec fn wf(&self) -> bool {
        &&& self.start_timestamp < self.end_timestamp
        &&& name_len(self.name) <= MAX_NAME_LEN
    }
}

/// The length of a name in bytes, as `str::len` reports it.
pub open spec fn name_len(name: String) -> usize {
    vstd::utf8::encode_utf8(name@).len() as usize
}

/// A rule of the auction that an instruction broke.
#[derive(Clone, Copy, Debug, PartialEq, Eq, Structural)]
pub enum AuctionError {
    StartAfterEndTimestamp,
    EndTimestampAlreadyPassed,
    AuctionNotStarted,
    AuctionEnded,
    NameTooLong,
    InvalidCalculation,
    BidTooLow,
    AuctionNotFinished,
}

/// An account handed to an instruction that does not match what it must be.
#[derive(Clone, Copy, Debug, PartialEq, Eq, Structural)]
pub enum Constraint {
    /// The signer is not the program's upgrade authority.
    NotUpgradeAuthority,
    /// The signer is not the registered administrator.
    NotAdmin,
    /// The leader account is not the auction's leader.
    LeaderMismatch,
    /// The leader's token account is not the one the auction recorded.
    LeaderTokenAccountMismatch,
    /// The auction record does not exist.
    AccountNotInitialized,
}

/// Why an instruction was rejected; a rejected instruction changes nothing.
#[derive(Clone, Copy, Debug, PartialEq, Eq, Structural)]
pub enum InstructionError {
    Constraint(Constraint),
    Auction(AuctionError),
}

/// Where an auction stands; derived from its timestamps and the clock,
/// never stored.
#[derive(Clone, Copy, Debug, PartialEq, Eq, Structural)]
pub enum Phase {
    /// Not yet started: `now < start_timestamp`.
    Pending,
    /// Taking bids: `start_timestamp <= now < end_timestamp`.
    Active,
    /// Past its end and waiting to be settled.
    Ended,
    /// Settled; its record is gone.
    Closed,
}

/// The phase of an auction record, or of a deleted one, at `now`.
pub open spec fn phase_of(auction: Option<Auction>, now: i64) -> Phase {
    match auction {
        None => Phase::Closed,
        Some(a) => if now < a.start_timestamp {
            Phase::Pending
        } else if now < a.end_timestamp {
            Phase::Active
        } else {
            Phase::Ended
        },
    }
}

/// The phase of an auction record, or of a deleted one, at `now`.
pub fn phase(auction: &Option<Auction>, now: i64) -> (r: Phase)
    ensures
        r == phase_of(*auction, now),
{
    match auction {
        None => Phase::Closed,
        Some(a) => {
            if now < a.start_timestamp {
                Phase::Pending
            } else if now < a.end_timestamp {
                Phase::Active
            } else {
                Phase::Ended
            }
        },
    }
}

} // verus!
