//! Connection handshake events: the shared attribute set and the four
//! handshake stages, each convertible to a generic event whose tag list
//! carries the identifiers that are present.

use vstd::prelude::*;
use crate::events::{AbciEvent, CrossChainQueryPacket, Tag, new_tag, tags_view};
use crate::ident::{ClientId, ConnectionId};

verus! {

/// The attributes every connection handshake event carries. The connection
/// identifiers are optional; the client identifiers are always present.
#[derive(Clone, Debug)]
pub struct Attributes {
    pub connection_id: Option<ConnectionId>,
    pub client_id: ClientId,
    pub counterparty_connection_id: Option<ConnectionId>,
    pub counterparty_client_id: ClientId,
}

/// The tag list of an attribute set: each optional identifier contributes a
/// tag only when present, in a fixed order.
pub open spec fn attributes_tags_spec(a: Attributes) -> Seq<(Seq<char>, Seq<char>)> {
    (if a.connection_id is Some {
        seq![("connection_id"@, a.connection_id->0.id@)]
    } else {
        Seq::<(Seq<char>, Seq<char>)>::empty()
    }) + seq![("client_id"@, a.client_id.id@)] + (if a.counterparty_connection_id is Some {
        seq![("counterparty_connection_id"@, a.counterparty_connection_id->0.id@)]
    } else {
        Seq::<(Seq<char>, Seq<char>)>::empty()
    }) + seq![("counterparty_client_id"@, a.counterparty_client_id.id@)]
}

impl Attributes {
    /// Convert the attributes to event tags.
    pub fn tags(&self) -> (r: Vec<Tag>)
        ensures
            tags_view(r@) == attributes_tags_spec(*self),
    {
        let mut r: Vec<Tag> = Vec::new();
        match &self.connection_id {
            Some(cid) => {
                r.push(new_tag("connection_id", cid.as_str()));
            },
            None => {},
        }
        r.push(new_tag("client_id", self.client_id.as_str()));
        match &self.counterparty_connection_id {
            Some(cid) => {
                r.push(new_tag("counterparty_connection_id", cid.as_str()));
            },
            None => {},
        }
        r.push(new_tag("counterparty_client_id", self.counterparty_client_id.as_str()));
        proof {
            assert(tags_view(r@) =~= attributes_tags_spec(*self));
        }
        r
    }
}

/// Connection handshake initiation.
#[derive(Clone, Debug)]
pub struct OpenInit(pub Attributes);

/// Connection handshake try (counterparty side).
#[derive(Clone, Debug)]
pub struct OpenTry(pub Attributes);

/// Connection handshake acknowledgement.
#[derive(Clone, Debug)]
pub struct OpenAck(pub Attributes);

/// Connection handshake confirmation.
#[derive(Clone, Debug)]
pub struct OpenConfirm(pub Attributes);

/// The events this library observes on chain.
#[derive(Clone, Debug)]
pub enum IbcEvent {
    CrossChainQueryPacket(CrossChainQueryPacket),
    OpenInitConnection(OpenInit),
    OpenTryConnection(OpenTry),
    OpenAckConnection(OpenAck),
    OpenConfirmConnection(OpenConfirm),
}

impl OpenInit {
    pub fn from_attributes(attrs: Attributes) -> (r: Self)
        ensures
            r.0 == attrs,
    {
        OpenInit(attrs)
    }

    pub fn attributes(&self) -> (r: &Attributes)
        ensures
            r == &self.0,
    {
        &self.0
    }

    pub fn connection_id(&self) -> (r: Option<&ConnectionId>)
        ensures
            match self.0.connection_id {
                Some(c) => r is Some && r->0.id@ == c.id@,
                None => r is None,
            },
    {
        self.0.connection_id.as_ref()
    }

    pub fn into_ibc_event(self) -> (r: IbcEvent)
        ensures
            r == IbcEvent::OpenInitConnection(self),
    {
        IbcEvent::OpenInitConnection(self)
    }

    pub fn into_abci_event(self) -> (r: AbciEvent)
        ensures
            r.type_str@ == "connection_open_init"@,
            tags_view(r.attributes@) == attributes_tags_spec(self.0),
    {
        let attributes = self.0.tags();
        AbciEvent { type_str: String::from_str("connection_open_init"), attributes }
    }
}

impl OpenTry {
    pub fn from_attributes(attrs: Attributes) -> (r: Self)
        ensures
            r.0 == attrs,
    {
        OpenTry(attrs)
    }

    pub fn attributes(&self) -> (r: &Attributes)
        ensures
            r == &self.0,
    {
        &self.0
    }

    pub fn connection_id(&self) -> (r: Option<&ConnectionId>)
        ensures
            match self.0.connection_id {
                Some(c) => r is Some && r->0.id@ == c.id@,
                None => r is None,
            },
    {
        self.0.connection_id.as_ref()
    }

    pub fn into_ibc_event(self) -> (r: IbcEvent)
        ensures
            r == IbcEvent::OpenTryConnection(self),
    {
        IbcEvent::OpenTryConnection(self)
    }

    pub fn into_abci_event(self) -> (r: AbciEvent)
        ensures
            r.type_str@ == "connection_open_try"@,
            tags_view(r.attributes@) == attributes_tags_spec(self.0),
    {
        let attributes = self.0.tags();
        AbciEvent { type_str: String::from_str("connection_open_try"), attributes }
    }
}

impl OpenAck {
    pub fn from_attributes(attrs: Attributes) -> (r: Self)
        ensures
            r.0 == attrs,
    {
        OpenAck(attrs)
    }

    pub fn attributes(&self) -> (r: &Attributes)
        ensures
            r == &self.0,
    {
        &self.0
    }

    pub fn connection_id(&self) -> (r: Option<&ConnectionId>)
        ensures
            match self.0.connection_id {
                Some(c) => r is Some && r->0.id@ == c.id@,
                None => r is None,
            },
    {
        self.0.connection_id.as_ref()
    }

    pub fn into_ibc_event(self) -> (r: IbcEvent)
        ensures
            r == IbcEvent::OpenAckConnection(self),
    {
        IbcEvent::OpenAckConnection(self)
    }

    pub fn into_abci_event(self) -> (r: AbciEvent)
        ensures
            r.type_str@ == "connection_open_ack"@,
            tags_view(r.attributes@) == attributes_tags_spec(self.0),
    {
        let attributes = self.0.tags();
        AbciEvent { type_str: String::from_str("connection_open_ack"), attributes }
    }
}

impl OpenConfirm {
    pub fn from_attributes(attrs: Attributes) -> (r: Self)
        ensures
            r.0 == attrs,
    {
        OpenConfirm(attrs)
    }

    pub fn attributes(&self) -> (r: &Attributes)
        ensures
            r == &self.0,
    {
        &self.0
    }

    pub fn connection_id(&self) -> (r: Option<&ConnectionId>)
        ensures
            match self.0.connection_id {
                Some(c) => r is Some && r->0.id@ == c.id@,
                None => r is None,
            },
    {
        self.0.connection_id.as_ref()
    }

    pub fn into_ibc_event(self) -> (r: IbcEvent)
        ensures
            r == IbcEvent::OpenConfirmConnection(self),
    {
        IbcEvent::OpenConfirmConnection(self)
    }

    pub fn into_abci_event(self) -> (r: AbciEvent)
        ensures
            r.type_str@ == "connection_open_confirm"@,
            tags_view(r.attributes@) == attributes_tags_spec(self.0),
    {
        let attributes = self.0.tags();
        AbciEvent { type_str: String::from_str("connection_open_confirm"), attributes }
    }
}

} // verus!
