//! The middleware's one intercepted hook: the execution of a received packet.
//!
//! A packet that is no token transfer, or whose memo carries no directive,
//! passes through to the next middleware. A transfer with the directive must
//! name the shielded pool as its receiver: if it does, it passes through too;
//! if not, it is answered here with an error acknowledgement and the next
//! middleware never sees it.

use vstd::prelude::*;
use crate::ack::{Acknowledgement, ModuleExtras};
use crate::metadata::{decode_memo, PacketMetadata};
use crate::packet::{transfer_packet_of_bytes, TransferPacketData, TransferPacketView};

verus! {

/// What `{:?}` writes for a string: the string between double quotes, with
/// quotes, backslashes and unprintable characters escaped.
pub uninterp spec fn debug_text(s: Seq<char>) -> Seq<char>;

/// std's `format!` with `{:?}` on a string slice.
#[verifier::external_body]
fn format_debug(s: &str) -> (r: String)
    ensures
        r@ == debug_text(s@),
{
    format!("{:?}", s)
}

/// The message that rejects a shielded receive to `receiver`.
pub open spec fn receiver_error_message(receiver: Seq<char>) -> Seq<char> {
    "Shielded receive error: Address "@ + debug_text(receiver) + " is not the MASP"@
}

/// What is decided about a received packet.
pub enum Decision {
    /// The next middleware handles the packet; its result is the result.
    Delegate,
    /// The packet ends here, without side effects, with an error
    /// acknowledgement that carries this message.
    Reject(Seq<char>),
}

/// The decision about a transfer with the directive, by its receiver.
pub open spec fn receiver_decision(pool: Seq<char>, receiver: Seq<char>) -> Decision {
    if receiver == pool {
        Decision::Delegate
    } else {
        Decision::Reject(receiver_error_message(receiver))
    }
}

/// The decision about a decoded transfer packet.
pub open spec fn transfer_decision(pool: Seq<char>, packet: TransferPacketView) -> Decision {
    if decode_memo(packet.memo) is Some {
        receiver_decision(pool, packet.receiver)
    } else {
        Decision::Delegate
    }
}

/// The decision about the payload of a received packet.
pub open spec fn packet_decision(pool: Seq<char>, data: Seq<u8>) -> Decision {
    match transfer_packet_of_bytes(data) {
        Some(packet) => transfer_decision(pool, packet),
        None => Decision::Delegate,
    }
}

/// What the caller that holds the next middleware is to do with a packet.
#[derive(Clone, Debug, PartialEq, Eq)]
pub enum RecvAction {
    /// Call the next middleware on the same packet and relayer, and return
    /// what it returns.
    Delegate,
    /// Return this record and this acknowledgement. Do not call the next
    /// middleware.
    Return(ModuleExtras, Option<Acknowledgement>),
}

impl RecvAction {
    /// Whether this action is what `decision` asks for.
    pub open spec fn carries_out(self, decision: Decision) -> bool {
        match decision {
            Decision::Delegate => self is Delegate,
            Decision::Reject(message) => {
                &&& self matches RecvAction::Return(extras, ack)
                &&& extras.is_empty()
                &&& ack matches Some(a)
                &&& !a@.success
                &&& a@.message == message
            },
        }
    }
}

/// The shielded-receive middleware, as far as it decides by itself: it knows
/// the address of the shielded pool, as text.
#[derive(Clone, Debug)]
pub struct ShieldedRecvModule {
    pool_address: String,
}

impl ShieldedRecvModule {
    /// The address of the shielded pool.
    pub closed spec fn pool(&self) -> Seq<char> {
        self.pool_address@
    }

    /// A middleware for the shielded pool at `pool_address`.
    pub fn new(pool_address: String) -> (r: ShieldedRecvModule)
        ensures
            r.pool() == pool_address@,
    {
        ShieldedRecvModule { pool_address }
    }

    /// The address of the shielded pool.
    pub fn pool_address(&self) -> (r: &String)
        ensures
            r@ == self.pool(),
    {
        &self.pool_address
    }

    /// Decides about a transfer with the directive: its receiver must be the
    /// shielded pool.
    pub fn check_receiver(&self, receiver: &String) -> (r: RecvAction)
        ensures
            r.carries_out(receiver_decision(self.pool(), receiver@)),
    {
        if *receiver == self.pool_address {
            RecvAction::Delegate
        } else {
            let quoted = format_debug(receiver.as_str());
            let mut message = "Shielded receive error: Address ".to_owned();
            message.append(quoted.as_str());
            message.append(" is not the MASP");
            proof {
                reveal_strlit("Shielded receive error: Address ");
            }
            let ack = Acknowledgement::error(message);
            RecvAction::Return(ModuleExtras::empty(), Some(ack))
        }
    }

    /// Decides about a decoded transfer packet.
    pub fn recv_transfer(&self, packet: &TransferPacketData) -> (r: RecvAction)
        ensures
            r.carries_out(transfer_decision(self.pool(), packet@)),
    {
        match PacketMetadata::from_memo(packet.memo.as_str()) {
            Some(_) => self.check_receiver(&packet.receiver),
            None => RecvAction::Delegate,
        }
    }

    /// Decides about a received packet, by its payload.
    pub fn middleware_on_recv_packet_execute(&self, data: &[u8]) -> (r: RecvAction)
        ensures
            r.carries_out(packet_decision(self.pool(), data@)),
    {
        match TransferPacketData::decode(data) {
            Some(packet) => self.recv_transfer(&packet),
            None => RecvAction::Delegate,
        }
    }
}

/// A payload that is no transfer packet, or a transfer whose memo carries
/// no directive, is left to the next middleware.
pub proof fn lemma_transparent(pool: Seq<char>, data: Seq<u8>)
    requires
        transfer_packet_of_bytes(data) matches Some(packet) ==> decode_memo(packet.memo) is None,
    ensures
        packet_decision(pool, data) == Decision::Delegate,
{
}

/// A transfer with the directive whose receiver is not the shielded pool
/// is rejected: it is never left to the next middleware, and the message
/// names the receiver.
pub proof fn lemma_receiver_enforced(pool: Seq<char>, data: Seq<u8>)
    requires
        transfer_packet_of_bytes(data) is Some,
        decode_memo(transfer_packet_of_bytes(data)->Some_0.memo) is Some,
        transfer_packet_of_bytes(data)->Some_0.receiver != pool,
    ensures
        packet_decision(pool, data) == Decision::Reject(
            receiver_error_message(transfer_packet_of_bytes(data)->Some_0.receiver),
        ),
        packet_decision(pool, data) != Decision::Delegate,
{
}

/// A transfer with the directive whose receiver is the shielded pool is
/// left to the next middleware.
pub proof fn lemma_pass_through_on_match(pool: Seq<char>, data: Seq<u8>)
    requires
        transfer_packet_of_bytes(data) is Some,
        decode_memo(transfer_packet_of_bytes(data)->Some_0.memo) is Some,
        transfer_packet_of_bytes(data)->Some_0.receiver == pool,
    ensures
        packet_decision(pool, data) == Decision::Delegate,
{
}

/// An action that carries out a rejection has no side effects and an error
/// acknowledgement; one that carries out a delegation is `Delegate`.
pub proof fn lemma_action_of_decision(action: RecvAction, decision: Decision)
    requires
        action.carries_out(decision),
    ensures
        decision is Delegate <==> action is Delegate,
        decision is Reject ==> action->Return_0.is_empty() && action->Return_1 is Some
            && !action->Return_1->Some_0@.success,
{
}

} // verus!
