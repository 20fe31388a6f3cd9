//! The memo directive of a shielded receive:
//! `{"shielded_recv": {"overflow_receiver": "<account>", "target_amount": "<decimal>"}}`.
//!
//! The target amount goes to the shielded pool; what a transfer brings above
//! it goes to the overflow receiver.

use vstd::prelude::*;
use crate::amount::{
    amount_limit, decimal_digits, decimal_value, is_decimal, lemma_amount_decimal_round_trip,
    Amount,
};
use crate::json::{
    json_entries, json_model, json_of_text, json_text, object_contains_key, object_get,
    object_insert, object_new, object_remove, parse_json, render_json, value_as_object,
    value_as_str, value_from_object, value_from_text, JsonObject, JsonValue,
};

verus! {

/// The key under which a memo carries the directive.
pub open spec fn directive_key() -> Seq<char> {
    "shielded_recv"@
}

/// The key of the overflow receiver inside the directive.
pub open spec fn receiver_key() -> Seq<char> {
    "overflow_receiver"@
}

/// The key of the target amount inside the directive.
pub open spec fn amount_key() -> Seq<char> {
    "target_amount"@
}

/// The overflow account and the amount to shield.
#[derive(Clone, Debug, PartialEq, Eq)]
pub struct ShieldedRecvMetadata {
    overflow_receiver: String,
    target_amount: Amount,
}

/// What a `ShieldedRecvMetadata` holds.
pub struct ShieldedRecvMetadataView {
    pub overflow_receiver: Seq<char>,
    pub target_amount: nat,
}

impl View for ShieldedRecvMetadata {
    type V = ShieldedRecvMetadataView;

    closed spec fn view(&self) -> ShieldedRecvMetadataView {
        ShieldedRecvMetadataView {
            overflow_receiver: self.overflow_receiver@,
            target_amount: self.target_amount@,
        }
    }
}

/// Metadata of a shielded-receive packet.
#[derive(Clone, Debug, PartialEq, Eq)]
pub struct PacketMetadata {
    shielded_recv: ShieldedRecvMetadata,
}

/// What a `PacketMetadata` holds.
pub struct PacketMetadataView {
    pub shielded_recv: ShieldedRecvMetadataView,
}

impl View for PacketMetadata {
    type V = PacketMetadataView;

    closed spec fn view(&self) -> PacketMetadataView {
        PacketMetadataView { shielded_recv: self.shielded_recv@ }
    }
}

/// The directive's parameters that the JSON value `j` writes: `j` must be
/// an object in which both keys have strings, the amount's a decimal number
/// below 2^256. Other keys of the object are not looked at.
pub open spec fn decode_shielded_recv(j: JsonValue) -> Option<ShieldedRecvMetadataView> {
    if j is Object && j->Object_0.dom().contains(receiver_key()) && j->Object_0.dom().contains(
        amount_key(),
    ) {
        let receiver = j->Object_0[receiver_key()];
        let amount = j->Object_0[amount_key()];
        if receiver is Text && amount is Text && is_decimal(amount->Text_0) && decimal_value(
            amount->Text_0,
        ) < amount_limit() {
            Some(
                ShieldedRecvMetadataView {
                    overflow_receiver: receiver->Text_0,
                    target_amount: decimal_value(amount->Text_0),
                },
            )
        } else {
            None
        }
    } else {
        None
    }
}

/// The metadata that the JSON object with the entries `entries` writes: the
/// directive under its key, if the key is there and its value is one.
pub open spec fn decode_entries(entries: Map<Seq<char>, JsonValue>) -> Option<PacketMetadataView> {
    if entries.dom().contains(directive_key()) {
        match decode_shielded_recv(entries[directive_key()]) {
            Some(inner) => Some(PacketMetadataView { shielded_recv: inner }),
            None => None,
        }
    } else {
        None
    }
}

/// The metadata that the JSON value `j` writes, if `j` is an object that
/// writes one.
pub open spec fn decode_metadata(j: JsonValue) -> Option<PacketMetadataView> {
    if j is Object {
        decode_entries(j->Object_0)
    } else {
        None
    }
}

/// The metadata that a memo writes, if the memo is JSON and writes one.
pub open spec fn decode_memo(memo: Seq<char>) -> Option<PacketMetadataView> {
    match json_of_text(memo) {
        Some(j) => decode_metadata(j),
        None => None,
    }
}

/// The JSON object that writes the directive's parameters.
pub open spec fn encode_shielded_recv(m: ShieldedRecvMetadataView) -> JsonValue {
    JsonValue::Object(
        Map::empty().insert(receiver_key(), JsonValue::Text(m.overflow_receiver)).insert(
            amount_key(),
            JsonValue::Text(decimal_digits(m.target_amount)),
        ),
    )
}

/// The entries of the JSON object that writes the metadata.
pub open spec fn encode_entries(m: PacketMetadataView) -> Map<Seq<char>, JsonValue> {
    Map::empty().insert(directive_key(), encode_shielded_recv(m.shielded_recv))
}

/// The JSON object that writes the metadata.
pub open spec fn encode_metadata(m: PacketMetadataView) -> JsonValue {
    JsonValue::Object(encode_entries(m))
}

/// The entries of a memo once the directive is taken out of it.
pub open spec fn stripped(entries: Map<Seq<char>, JsonValue>) -> Map<Seq<char>, JsonValue> {
    entries.remove(directive_key())
}

impl ShieldedRecvMetadata {
    /// The account that receives what a transfer brings above the target.
    pub fn overflow_receiver(&self) -> (r: &String)
        ensures
            r@ == self@.overflow_receiver,
    {
        &self.overflow_receiver
    }

    /// The amount that goes to the shielded pool.
    pub fn target_amount(&self) -> (r: &Amount)
        ensures
            r@ == self@.target_amount,
    {
        &self.target_amount
    }

    /// Reads the directive's parameters from a JSON value.
    pub fn from_json(v: &serde_json::Value) -> (r: Option<ShieldedRecvMetadata>)
        ensures
            match r {
                Some(m) => decode_shielded_recv(json_model(*v)) == Some(m@),
                None => decode_shielded_recv(json_model(*v)) is None,
            },
    {
        let fields = match value_as_object(v) {
            Some(fields) => fields,
            None => return None,
        };
        let receiver = match object_get(fields, "overflow_receiver") {
            Some(value) => value,
            None => return None,
        };
        let amount = match object_get(fields, "target_amount") {
            Some(value) => value,
            None => return None,
        };
        let receiver_text = match value_as_str(receiver) {
            Some(text) => text,
            None => return None,
        };
        let amount_text = match value_as_str(amount) {
            Some(text) => text,
            None => return None,
        };
        match Amount::from_decimal(amount_text) {
            Some(target_amount) => Some(
                ShieldedRecvMetadata { overflow_receiver: receiver_text.to_owned(), target_amount },
            ),
            None => None,
        }
    }

    /// Writes the directive's parameters as a JSON object.
    pub fn to_json(&self) -> (r: serde_json::Value)
        ensures
            json_model(r) == encode_shielded_recv(self@),
    {
        let mut fields = object_new();
        object_insert(
            &mut fields,
            "overflow_receiver".to_owned(),
            value_from_text(self.overflow_receiver.clone()),
        );
        object_insert(
            &mut fields,
            "target_amount".to_owned(),
            value_from_text(self.target_amount.to_decimal()),
        );
        value_from_object(fields)
    }
}

impl PacketMetadata {
    /// Metadata that sends `amount` to the shielded pool and the rest to
    /// `receiver`.
    pub fn new(receiver: String, amount: Amount) -> (r: PacketMetadata)
        ensures
            r@.shielded_recv.overflow_receiver == receiver@,
            r@.shielded_recv.target_amount == amount@,
    {
        PacketMetadata {
            shielded_recv: ShieldedRecvMetadata {
                overflow_receiver: receiver,
                target_amount: amount,
            },
        }
    }

    /// Whether the memo object carries the directive: whether it has the
    /// key `shielded_recv`.
    pub fn is_overflow_receive_msg(msg: &JsonObject) -> (r: bool)
        ensures
            r == json_entries(*msg).dom().contains(directive_key()),
    {
        object_contains_key(msg, "shielded_recv")
    }

    /// Takes the directive out of the memo object, so that the layers
    /// below see the rest. A memo without the directive comes back as it is.
    pub fn strip_middleware_msg(json_obj_memo: JsonObject) -> (r: JsonObject)
        ensures
            json_entries(r) == stripped(json_entries(json_obj_memo)),
    {
        let mut memo = json_obj_memo;
        object_remove(&mut memo, "shielded_recv");
        memo
    }

    /// The account that receives what a transfer brings above the target.
    pub fn overflow_receiver(&self) -> (r: &String)
        ensures
            r@ == self@.shielded_recv.overflow_receiver,
    {
        self.shielded_recv.overflow_receiver()
    }

    /// The amount that goes to the shielded pool.
    pub fn target_amount(&self) -> (r: &Amount)
        ensures
            r@ == self@.shielded_recv.target_amount,
    {
        self.shielded_recv.target_amount()
    }

    /// Reads the metadata from a memo object.
    pub fn from_json_object(msg: &JsonObject) -> (r: Option<PacketMetadata>)
        ensures
            match r {
                Some(m) => decode_entries(json_entries(*msg)) == Some(m@),
                None => decode_entries(json_entries(*msg)) is None,
            },
    {
        let inner = match object_get(msg, "shielded_recv") {
            Some(value) => value,
            None => return None,
        };
        match ShieldedRecvMetadata::from_json(inner) {
            Some(shielded_recv) => Some(PacketMetadata { shielded_recv }),
            None => None,
        }
    }

    /// Reads the metadata from a JSON value.
    pub fn from_json(v: &serde_json::Value) -> (r: Option<PacketMetadata>)
        ensures
            match r {
                Some(m) => decode_metadata(json_model(*v)) == Some(m@),
                None => decode_metadata(json_model(*v)) is None,
            },
    {
        match value_as_object(v) {
            Some(msg) => PacketMetadata::from_json_object(msg),
            None => None,
        }
    }

    /// Reads the metadata from a memo. `None` when the memo is not JSON, or
    /// is JSON that does not write the directive.
    pub fn from_memo(memo: &str) -> (r: Option<PacketMetadata>)
        ensures
            match r {
                Some(m) => decode_memo(memo@) == Some(m@),
                None => decode_memo(memo@) is None,
            },
    {
        match parse_json(memo) {
            Some(v) => PacketMetadata::from_json(&v),
            None => None,
        }
    }

    /// Writes the metadata as a JSON object.
    pub fn to_json(&self) -> (r: serde_json::Value)
        ensures
            json_model(r) == encode_metadata(self@),
    {
        let mut entries = object_new();
        object_insert(&mut entries, "shielded_recv".to_owned(), self.shielded_recv.to_json());
        value_from_object(entries)
    }

    /// Writes the metadata as the text of a memo.
    pub fn to_memo(&self) -> (r: String)
        ensures
            r@ == json_text(encode_metadata(self@)),
    {
        let v = self.to_json();
        render_json(&v)
    }
}

/// The two keys inside the directive differ.
proof fn lemma_inner_keys_differ()
    ensures
        receiver_key() != amount_key(),
{
    reveal_strlit("overflow_receiver");
    reveal_strlit("target_amount");
    assert(receiver_key().len() == 17);
    assert(amount_key().len() == 13);
}

/// The directive's parameters, written as JSON and read back, are the same.
pub proof fn lemma_shielded_recv_round_trip(m: ShieldedRecvMetadata)
    ensures
        decode_shielded_recv(encode_shielded_recv(m@)) == Some(m@),
{
    lemma_inner_keys_differ();
    lemma_amount_decimal_round_trip(m.target_amount);
}

/// Metadata written as JSON and read back is the same metadata, whatever
/// the receiver's text and the amount.
pub proof fn lemma_metadata_round_trip(m: PacketMetadata)
    ensures
        decode_metadata(encode_metadata(m@)) == Some(m@),
{
    lemma_shielded_recv_round_trip(m.shielded_recv);
}

/// Stripping a memo that carries the directive takes out the directive's
/// key and nothing else: every other key stays, with its value.
pub proof fn lemma_strip_removes_exactly_the_directive(entries: Map<Seq<char>, JsonValue>)
    requires
        entries.dom().contains(directive_key()),
    ensures
        !stripped(entries).dom().contains(directive_key()),
        forall|k: Seq<char>|
            k != directive_key() ==> (#[trigger] stripped(entries).dom().contains(k)
                <==> entries.dom().contains(k)),
        forall|k: Seq<char>|
            k != directive_key() && entries.dom().contains(k) ==> #[trigger] stripped(entries)[k]
                == entries[k],
{
}

/// Stripping a memo that does not carry the directive changes nothing.
pub proof fn lemma_strip_without_directive(entries: Map<Seq<char>, JsonValue>)
    requires
        !entries.dom().contains(directive_key()),
    ensures
        stripped(entries) == entries,
{
    assert(stripped(entries) =~= entries);
}

/// Metadata is read only from a memo object that has the directive's key.
pub proof fn lemma_metadata_needs_directive_key(entries: Map<Seq<char>, JsonValue>)
    requires
        decode_entries(entries) is Some,
    ensures
        entries.dom().contains(directive_key()),
{
}

/// A stripped memo no longer writes any metadata.
pub proof fn lemma_stripped_memo_has_no_directive(entries: Map<Seq<char>, JsonValue>)
    ensures
        decode_entries(stripped(entries)) is None,
{
}

} // verus!
