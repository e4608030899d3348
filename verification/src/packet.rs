//! The raw, all-string form of a query packet as the querying chain emits it,
//! and the send-packet event that wraps it.

use vstd::prelude::*;
use crate::events::AbciEvent;

verus! {

/// A query packet with every field still in its wire text form.
#[derive(Clone, Debug)]
pub struct CrossChainQueryPacket {
    pub chain_id: String,
    pub id: String,
    pub sender: String,
    pub path: String,
    pub height: String,
}

impl Default for CrossChainQueryPacket {
    fn default() -> (r: Self)
        ensures
            r.chain_id@ == Seq::<char>::empty(),
            r.id@ == Seq::<char>::empty(),
            r.sender@ == Seq::<char>::empty(),
            r.path@ == Seq::<char>::empty(),
            r.height@ == Seq::<char>::empty(),
    {
        CrossChainQueryPacket {
            chain_id: String::new(),
            id: String::new(),
            sender: String::new(),
            path: String::new(),
            height: String::new(),
        }
    }
}

impl CrossChainQueryPacket {
    /// The packet's one-line text form.
    pub fn display_string(&self) -> (r: String)
        ensures
            r@ == "chain_id: "@ + self.chain_id@ + ", id: "@ + self.id@ + ", sender: "@
                + self.sender@ + ", path: "@ + self.path@ + ", height: "@ + self.height@,
    {
        let mut s = String::from_str("chain_id: ");
        s.append(self.chain_id.as_str());
        s.append(", id: ");
        s.append(self.id.as_str());
        s.append(", sender: ");
        s.append(self.sender.as_str());
        s.append(", path: ");
        s.append(self.path.as_str());
        s.append(", height: ");
        s.append(self.height.as_str());
        s
    }
}

/// The event wrapping a freshly sent query packet.
#[derive(Clone, Debug)]
pub struct SendPacket {
    pub packet: CrossChainQueryPacket,
}

impl SendPacket {
    /// The event's one-line text form: that of its packet.
    pub fn display_string(&self) -> (r: String)
        ensures
            r@ == "chain_id: "@ + self.packet.chain_id@ + ", id: "@ + self.packet.id@
                + ", sender: "@ + self.packet.sender@ + ", path: "@ + self.packet.path@
                + ", height: "@ + self.packet.height@,
    {
        self.packet.display_string()
    }

    /// The generic event form: typed as a cross-chain query, with no
    /// attributes attached.
    pub fn into_abci_event(self) -> (r: AbciEvent)
        ensures
            r.type_str@ == "cross_chain_query"@,
            r.attributes@.len() == 0,
    {
        AbciEvent { type_str: String::from_str("cross_chain_query"), attributes: Vec::new() }
    }
}

} // verus!
