use vstd::prelude::*;

use crate::keys::Pubkey;

verus! {

/// Who authorizes a token operation.
#[derive(Clone, Copy, Debug)]
pub enum Authority {
    /// The instruction's signer.
    Signer(Pubkey),
    /// The auction's own derived address, signed with the seeds
    /// `"auction"`, the auction's name and its bump byte.
    Auction,
}

/// One operation that an accepted instruction asks the host runtime to carry
/// out; the instruction's effects all apply, in order, or none does.
#[derive(Clone, Copy, Debug)]
pub enum Effect {
    /// Move `amount` of the auction's token from one token account to another.
    TokenTransfer { from: Pubkey, to: Pubkey, authority: Authority, amount: u64 },
    /// Move `amount` of the native currency from one account to another.
    NativeTransfer { from: Pubkey, to: Pubkey, amount: u64 },
    /// Create the associated token account `account` of `owner`, paid by `payer`.
    CreateTokenAccount { payer: Pubkey, owner: Pubkey, account: Pubkey },
    /// Close an emptied token account, its storage deposit going to `destination`.
    CloseTokenAccount { account: Pubkey, destination: Pubkey, authority: Authority },
}

/// How one effect changes the token balance of `acct`.
pub open spec fn token_change(e: Effect, acct: Pubkey) -> int {
    match e {
        Effect::TokenTransfer { from, to, amount, .. } => {
            (if to@ == acct@ { amount as int } else { 0 }) - (if from@ == acct@ {
                amount as int
            } else {
                0
            })
        },
        _ => 0,
    }
}

/// How a run of effects changes the token balance of `acct`.
pub open spec fn token_delta(es: Seq<Effect>, acct: Pubkey) -> int
    decreases es.len(),
{
    if es.len() == 0 {
        0
    } else {
        token_delta(es.drop_last(), acct) + token_change(es.last(), acct)
    }
}

/// How one effect changes the native balance of `acct` by explicit transfer.
pub open spec fn native_change(e: Effect, acct: Pubkey) -> int {
    match e {
        Effect::NativeTransfer { from, to, amount } => {
            (if to@ == acct@ { amount as int } else { 0 }) - (if from@ == acct@ {
                amount as int
            } else {
                0
            })
        },
        _ => 0,
    }
}

/// How a run of effects changes the native balance of `acct` by explicit
/// transfers (storage deposits of created or closed accounts aside).
pub open spec fn native_delta(es: Seq<Effect>, acct: Pubkey) -> int
    decreases es.len(),
{
    if es.len() == 0 {
        0
    } else {
        native_delta(es.drop_last(), acct) + native_change(es.last(), acct)
    }
}

/// Whether a run of effects closes the token account `acct`.
pub open spec fn closes(es: Seq<Effect>, acct: Pubkey) -> bool {
    exists|i: int|
        0 <= i < es.len() && (#[trigger] es[i] matches Effect::CloseTokenAccount { account, .. }
            && account@ == acct@)
}

} // verus!
