//! Extraction of a query-request event out of a block-level event map, where
//! each scoped key (for example "query_request.chain_id") may carry several
//! string values gathered across the block's transactions. The first value
//! wins; a missing key or an empty value list fails the extraction.

use vstd::prelude::*;
use crate::conn::IbcEvent;
use crate::dec::parse_dec;
use crate::events::{CodecError, CrossChainQueryPacket, SpecCodecError, SpecPacket};
use crate::ident::{ChainId, ConnectionId, Height, QueryPath, valid_connection_id,
    valid_query_path};

verus! {

/// One key of a block-level event map, with the values listed under it.
#[derive(Clone, Debug)]
pub struct BlockEventEntry {
    pub key: String,
    pub values: Vec<String>,
}

impl View for BlockEventEntry {
    type V = (Seq<char>, Seq<Seq<char>>);

    open spec fn view(&self) -> (Seq<char>, Seq<Seq<char>>) {
        (self.key@, self.values.deep_view())
    }
}

pub open spec fn block_events_view(entries: Seq<BlockEventEntry>) -> Seq<
    (Seq<char>, Seq<Seq<char>>),
> {
    entries.map_values(|e: BlockEventEntry| e@)
}

/// The value list of the first entry under a key, if any.
pub open spec fn first_values_list(
    entries: Seq<(Seq<char>, Seq<Seq<char>>)>,
    key: Seq<char>,
) -> Option<Seq<Seq<char>>>
    decreases entries.len(),
{
    if entries.len() == 0 {
        None
    } else if entries[0].0 == key {
        Some(entries[0].1)
    } else {
        first_values_list(entries.drop_first(), key)
    }
}

/// The first value under a key: present exactly when the key has an entry
/// whose value list is non-empty.
pub open spec fn block_field(entries: Seq<(Seq<char>, Seq<Seq<char>>)>, key: Seq<char>) -> Option<
    Seq<char>,
> {
    match first_values_list(entries, key) {
        None => None,
        Some(vs) => if vs.len() == 0 {
            None
        } else {
            Some(vs[0])
        },
    }
}

/// Fetch the first value under a key, or fail the whole extraction.
pub fn fetch_first_element_from_events(block_events: &Vec<BlockEventEntry>, key: &str) -> (r:
    Result<String, CodecError>)
    ensures
        match block_field(block_events_view(block_events@), key@) {
            Some(v) => r is Ok && r->Ok_0@ == v,
            None => r is Err && r->Err_0@ == SpecCodecError::ParseError,
        },
{
    let n = block_events.len();
    let mut i: usize = 0;
    proof {
        assert(block_events_view(block_events@).skip(0) =~= block_events_view(block_events@));
    }
    while i < n
        invariant
            n == block_events@.len(),
            i <= n,
            first_values_list(block_events_view(block_events@), key@) == first_values_list(
                block_events_view(block_events@).skip(i as int),
                key@,
            ),
        decreases n - i,
    {
        proof {
            assert(block_events_view(block_events@).skip(i as int)[0] == block_events_view(
                block_events@,
            )[i as int]);
        }
        if crate::events::str_eq(block_events[i].key.as_str(), key) {
            let entry = &block_events[i];
            if entry.values.len() > 0 {
                proof {
                    assert(entry.values.deep_view()[0] == entry.values@[0]@);
                }
                return Ok(entry.values[0].clone());
            } else {
                return Err(CodecError::ParseError);
            }
        }
        i = i + 1;
        proof {
            assert(block_events_view(block_events@).skip(i - 1).drop_first()
                =~= block_events_view(block_events@).skip(i as int));
        }
    }
    proof {
        assert(block_events_view(block_events@).skip(n as int) =~= Seq::<
            (Seq<char>, Seq<Seq<char>>),
        >::empty());
    }
    Err(CodecError::ParseError)
}

/// What extracting from a block-level event map yields: a packet exactly when
/// every scoped key has a first value and the typed fields parse; every
/// failure is the generic parse failure.
pub open spec fn extract_spec(entries: Seq<(Seq<char>, Seq<Seq<char>>)>) -> Option<SpecPacket> {
    if block_field(entries, "query_request.module"@) is None || block_field(
        entries,
        "query_request.action"@,
    ) is None || block_field(entries, "query_request.query_id"@) is None || block_field(
        entries,
        "query_request.chain_id"@,
    ) is None || block_field(entries, "query_request.connection_id"@) is None || block_field(
        entries,
        "query_request.type"@,
    ) is None || block_field(entries, "query_request.height"@) is None || block_field(
        entries,
        "query_request.request"@,
    ) is None {
        None
    } else if !valid_connection_id(block_field(entries, "query_request.connection_id"@)->0) {
        None
    } else if !valid_query_path(block_field(entries, "query_request.type"@)->0) {
        None
    } else if parse_dec(block_field(entries, "query_request.height"@)->0) is None {
        None
    } else {
        Some(
            (SpecPacket {
                module: block_field(entries, "query_request.module"@)->0,
                action: block_field(entries, "query_request.action"@)->0,
                query_id: block_field(entries, "query_request.query_id"@)->0,
                chain_id: block_field(entries, "query_request.chain_id"@)->0,
                connection_id: block_field(entries, "query_request.connection_id"@)->0,
                query_type: block_field(entries, "query_request.type"@)->0,
                height: parse_dec(block_field(entries, "query_request.height"@)->0)->0,
                request: block_field(entries, "query_request.request"@)->0,
            }),
        )
    }
}

impl CrossChainQueryPacket {
    /// Extract the query-request event carried by a block-level event map.
    pub fn extract_query_event(block_events: &Vec<BlockEventEntry>) -> (r: Result<
        IbcEvent,
        CodecError,
    >)
        ensures
            match r {
                Ok(ev) => extract_spec(block_events_view(block_events@)) is Some && (ev matches
                IbcEvent::CrossChainQueryPacket(p) && p@ == extract_spec(
                    block_events_view(block_events@),
                )->0),
                Err(e) => extract_spec(block_events_view(block_events@)) is None && e@
                    == SpecCodecError::ParseError,
            },
    {
        let chain_id_str = match fetch_first_element_from_events(
            block_events,
            "query_request.chain_id",
        ) {
            Ok(v) => v,
            Err(_) => {
                return Err(CodecError::ParseError);
            },
        };
        let connection_id_str = match fetch_first_element_from_events(
            block_events,
            "query_request.connection_id",
        ) {
            Ok(v) => v,
            Err(_) => {
                return Err(CodecError::ParseError);
            },
        };
        let query_type_str = match fetch_first_element_from_events(
            block_events,
            "query_request.type",
        ) {
            Ok(v) => v,
            Err(_) => {
                return Err(CodecError::ParseError);
            },
        };
        let height_str = match fetch_first_element_from_events(
            block_events,
            "query_request.height",
        ) {
            Ok(v) => v,
            Err(_) => {
                return Err(CodecError::ParseError);
            },
        };
        let module = match fetch_first_element_from_events(block_events, "query_request.module") {
            Ok(v) => v,
            Err(_) => {
                return Err(CodecError::ParseError);
            },
        };
        let action = match fetch_first_element_from_events(block_events, "query_request.action") {
            Ok(v) => v,
            Err(_) => {
                return Err(CodecError::ParseError);
            },
        };
        let query_id = match fetch_first_element_from_events(
            block_events,
            "query_request.query_id",
        ) {
            Ok(v) => v,
            Err(_) => {
                return Err(CodecError::ParseError);
            },
        };
        let request = match fetch_first_element_from_events(
            block_events,
            "query_request.request",
        ) {
            Ok(v) => v,
            Err(_) => {
                return Err(CodecError::ParseError);
            },
        };
        let chain_id = ChainId::from_string(chain_id_str.as_str());
        let connection_id = match ConnectionId::parse(connection_id_str.as_str()) {
            Some(c) => c,
            None => {
                return Err(CodecError::ParseError);
            },
        };
        let query_type = match QueryPath::parse(query_type_str.as_str()) {
            Some(q) => q,
            None => {
                return Err(CodecError::ParseError);
            },
        };
        let height = match Height::parse(height_str.as_str()) {
            Some(h) => h,
            None => {
                return Err(CodecError::ParseError);
            },
        };
        Ok(
            IbcEvent::CrossChainQueryPacket(
                CrossChainQueryPacket {
                    module,
                    action,
                    query_id,
                    chain_id,
                    connection_id,
                    query_type,
                    height,
                    request,
                },
            ),
        )
    }
}

} // verus!
