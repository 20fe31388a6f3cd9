//! The payload of a fungible-token-transfer packet.

use vstd::prelude::*;
use crate::amount::Amount;

verus! {

/// A decoded token-transfer packet.
#[derive(Clone, Debug)]
pub struct TransferPacketData {
    /// Denomination of the token, with its trace path.
    pub denom: String,
    /// How much of the token is transferred.
    pub amount: Amount,
    /// Who sent the tokens, on the sending chain.
    pub sender: String,
    /// Who is to receive them, on this chain.
    pub receiver: String,
    /// Free-form text, by convention JSON that middlewares read.
    pub memo: String,
}

/// What a decoded transfer packet holds.
pub struct TransferPacketView {
    pub denom: Seq<char>,
    pub amount: nat,
    pub sender: Seq<char>,
    pub receiver: Seq<char>,
    pub memo: Seq<char>,
}

impl View for TransferPacketData {
    type V = TransferPacketView;

    open spec fn view(&self) -> TransferPacketView {
        TransferPacketView {
            denom: self.denom@,
            amount: self.amount@,
            sender: self.sender@,
            receiver: self.receiver@,
            memo: self.memo@,
        }
    }
}

/// The transfer packet that ibc reads from the JSON bytes `data`, `None`
/// where the bytes are no valid transfer packet.
pub uninterp spec fn transfer_packet_of_bytes(data: Seq<u8>) -> Option<TransferPacketView>;

/// `serde_json::from_slice` at ibc's `PacketData`: the packet's fields as
/// strings and the amount by its limbs, or `None` for any error.
#[verifier::external_body]
fn decode_packet_data(data: &[u8]) -> (r: Option<TransferPacketData>)
    ensures
        match r {
            Some(p) => transfer_packet_of_bytes(data@) == Some(p@),
            None => transfer_packet_of_bytes(data@) is None,
        },
{
    let p = serde_json::from_slice::<ibc::apps::transfer::types::packet::PacketData>(data).ok()?;
    Some(TransferPacketData {
        denom: p.token.denom.to_string(),
        amount: Amount::from_limbs(*p.token.amount),
        sender: p.sender.as_ref().to_string(),
        receiver: p.receiver.as_ref().to_string(),
        memo: p.memo.as_ref().to_string(),
    })
}

impl TransferPacketData {
    /// Decodes the payload of a packet. `None` when the bytes are not a
    /// token-transfer packet.
    pub fn decode(data: &[u8]) -> (r: Option<TransferPacketData>)
        ensures
            match r {
                Some(p) => transfer_packet_of_bytes(data@) == Some(p@),
                None => transfer_packet_of_bytes(data@) is None,
            },
    {
        decode_packet_data(data)
    }
}

} // verus!
