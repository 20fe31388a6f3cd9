//! The bridge to the token-transfer execution context: how the amount above
//! the shielded target is minted, or released from escrow, to the overflow
//! receiver.
//!
//! The ledger is not reached from here. Each operation is split in two: first
//! the call to make is worked out from the decoded receiver, then the
//! context's answer is turned into this crate's result.

use vstd::prelude::*;
use crate::middleware::ShieldedRecvModule;

verus! {

#[verifier::external_type_specification]
#[verifier::external_body]
#[verifier::reject_recursive_types(D)]
pub struct ExCoin<D>(ibc::apps::transfer::types::Coin<D>);

#[verifier::external_type_specification]
#[verifier::external_body]
pub struct ExPrefixedDenom(ibc::apps::transfer::types::PrefixedDenom);

#[verifier::external_type_specification]
#[verifier::external_body]
pub struct ExPortId(ibc::core::host::types::identifiers::PortId);

#[verifier::external_type_specification]
#[verifier::external_body]
pub struct ExChannelId(ibc::core::host::types::identifiers::ChannelId);

#[verifier::external_type_specification]
#[verifier::external_body]
pub struct ExTokenTransferError(ibc::apps::transfer::types::error::TokenTransferError);

/// Why a bridge operation failed.
#[derive(Debug)]
pub enum Error {
    /// The receiver is no valid account address; the text says why.
    Other(String),
    /// The execution context refused the operation.
    TokenTransfer(ibc::apps::transfer::types::error::TokenTransferError),
}

/// The minting of `coin` to `receiver`, to be made on the token-transfer
/// execution context. `A` is the account type of the host chain.
#[derive(Debug)]
pub struct MintCall<'a, A> {
    pub receiver: A,
    pub coin: &'a ibc::apps::transfer::types::PrefixedCoin,
}

/// The release of `coin` to `receiver` from the escrow of `channel` on
/// `port`, to be made on the token-transfer execution context.
#[derive(Debug)]
pub struct UnescrowCall<'a, A> {
    pub receiver: A,
    pub port: &'a ibc::core::host::types::identifiers::PortId,
    pub channel: &'a ibc::core::host::types::identifiers::ChannelId,
    pub coin: &'a ibc::apps::transfer::types::PrefixedCoin,
}

/// The error for a receiver that did not decode, with the decoder's words.
pub open spec fn is_decode_error(e: Error, reason: Seq<char>) -> bool {
    e matches Error::Other(text) && text@ == reason
}

impl ShieldedRecvModule {
    /// Works out the minting of `coin` to a receiver. `receiver` is what
    /// decoding the receiver's account identifier gave: the account, or the
    /// reason why the identifier is no address. With an account, the call to
    /// make is the minting of that coin to it. Without one there is no call:
    /// the result is the decode error.
    pub fn mint_coins_execute<'a, A>(
        &self,
        receiver: Result<A, String>,
        coin: &'a ibc::apps::transfer::types::PrefixedCoin,
    ) -> (r: Result<MintCall<'a, A>, Error>)
        ensures
            match receiver {
                Ok(account) => r == Ok::<MintCall<'a, A>, Error>(
                    MintCall { receiver: account, coin },
                ),
                Err(reason) => r is Err && is_decode_error(r->Err_0, reason@),
            },
    {
        match receiver {
            Ok(account) => Ok(MintCall { receiver: account, coin }),
            Err(reason) => Err(Error::Other(reason)),
        }
    }

    /// Works out the release of `coin` from escrow to a receiver. `receiver`
    /// is what decoding the receiver's account identifier gave. With an
    /// account, the call to make is the release of that coin to it, for the
    /// same port and channel. Without one there is no call: the result is the
    /// decode error.
    pub fn unescrow_coins_execute<'a, A>(
        &self,
        receiver: Result<A, String>,
        port: &'a ibc::core::host::types::identifiers::PortId,
        channel: &'a ibc::core::host::types::identifiers::ChannelId,
        coin: &'a ibc::apps::transfer::types::PrefixedCoin,
    ) -> (r: Result<UnescrowCall<'a, A>, Error>)
        ensures
            match receiver {
                Ok(account) => r == Ok::<UnescrowCall<'a, A>, Error>(
                    UnescrowCall { receiver: account, port, channel, coin },
                ),
                Err(reason) => r is Err && is_decode_error(r->Err_0, reason@),
            },
    {
        match receiver {
            Ok(account) => Ok(UnescrowCall { receiver: account, port, channel, coin }),
            Err(reason) => Err(Error::Other(reason)),
        }
    }

    /// Turns the execution context's answer to a bridge call into the
    /// operation's result: success stays success, and an error comes back
    /// as it is, as a token-transfer error.
    pub fn bridge_result(
        &self,
        outcome: Result<(), ibc::apps::transfer::types::error::TokenTransferError>,
    ) -> (r: Result<(), Error>)
        ensures
            match outcome {
                Ok(_) => r is Ok,
                Err(e) => r == Err::<(), Error>(Error::TokenTransfer(e)),
            },
    {
        match outcome {
            Ok(_) => Ok(()),
            Err(e) => Err(Error::TokenTransfer(e)),
        }
    }
}

} // verus!
