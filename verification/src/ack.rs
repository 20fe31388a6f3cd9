//! What a packet handler hands back to the protocol engine: a record of side
//! effects and an acknowledgement.

use vstd::prelude::*;

verus! {

/// An event that a module emits while it handles a packet.
#[derive(Clone, Debug, PartialEq, Eq)]
pub struct ModuleEvent {
    pub kind: String,
    pub attributes: Vec<(String, String)>,
}

/// The side effects of handling a packet: events and log lines.
#[derive(Clone, Debug, PartialEq, Eq)]
pub struct ModuleExtras {
    pub events: Vec<ModuleEvent>,
    pub log: Vec<String>,
}

impl ModuleExtras {
    /// Whether the record holds no event and no log line.
    pub open spec fn is_empty(&self) -> bool {
        self.events@.len() == 0 && self.log@.len() == 0
    }

    /// The record of a handler that did nothing.
    pub fn empty() -> (r: ModuleExtras)
        ensures
            r.is_empty(),
    {
        ModuleExtras { events: Vec::new(), log: Vec::new() }
    }
}

/// What an acknowledgement holds: its status and its message.
pub struct AcknowledgementView {
    pub success: bool,
    pub message: Seq<char>,
}

/// The answer to a received packet, committed for the sending chain to read:
/// success or error, with a message that is never empty.
#[derive(Debug, PartialEq, Eq)]
pub struct Acknowledgement {
    success: bool,
    message: String,
}

impl View for Acknowledgement {
    type V = AcknowledgementView;

    closed spec fn view(&self) -> AcknowledgementView {
        AcknowledgementView { success: self.success, message: self.message@ }
    }
}

impl Clone for Acknowledgement {
    fn clone(&self) -> (r: Acknowledgement)
        ensures
            r@ == self@,
    {
        proof {
            use_type_invariant(self);
        }
        Acknowledgement { success: self.success, message: self.message.clone() }
    }
}

impl Acknowledgement {
    #[verifier::type_invariant]
    spec fn has_message(self) -> bool {
        self.message@.len() > 0
    }

    /// A successful acknowledgement that says `message`.
    pub fn success(message: String) -> (r: Acknowledgement)
        requires
            message@.len() > 0,
        ensures
            r@.success,
            r@.message == message@,
    {
        Acknowledgement { success: true, message }
    }

    /// An error acknowledgement that says `message`.
    pub fn error(message: String) -> (r: Acknowledgement)
        requires
            message@.len() > 0,
        ensures
            !r@.success,
            r@.message == message@,
    {
        Acknowledgement { success: false, message }
    }

    /// Whether the packet was handled with success.
    pub fn is_successful(&self) -> (r: bool)
        ensures
            r == self@.success,
    {
        self.success
    }

    /// The message, which is not empty.
    pub fn message(&self) -> (r: &String)
        ensures
            r@ == self@.message,
            r@.len() > 0,
    {
        proof {
            use_type_invariant(self);
        }
        &self.message
    }
}

} // verus!
