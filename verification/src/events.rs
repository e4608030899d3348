//! Codec between the typed cross-chain query packet and the string-tagged
//! event form in which it travels through on-chain event logs.
//!
//! Encoding is total and emits the keys in a fixed order; decoding scans the
//! tag list and takes the first value of each required key, then parses the
//! typed fields, failing with an error specific to the field.

use vstd::prelude::*;
use crate::dec::{dec_string, parse_dec};
use crate::ident::{ChainId, ConnectionId, Height, QueryPath, valid_connection_id,
    valid_query_path};

verus! {

/// One string-keyed attribute of an on-chain event.
#[derive(Clone, Debug)]
pub struct Tag {
    pub key: String,
    pub value: String,
}

impl View for Tag {
    type V = (Seq<char>, Seq<char>);

    open spec fn view(&self) -> (Seq<char>, Seq<char>) {
        (self.key@, self.value@)
    }
}

/// The tag list as a sequence of key/value character sequences.
pub open spec fn tags_view(tags: Seq<Tag>) -> Seq<(Seq<char>, Seq<char>)> {
    tags.map_values(|t: Tag| t@)
}

/// A generic event: a type name and its attributes.
#[derive(Clone, Debug)]
pub struct AbciEvent {
    pub type_str: String,
    pub attributes: Vec<Tag>,
}

/// Decode failures, each specific to the stage that rejected the input.
#[derive(Clone, Debug)]
pub enum CodecError {
    /// A required key had no entry in the tag list; carries that key.
    AttributeMissing(String),
    /// The connection identifier failed to parse.
    MalformedIdentifier,
    /// The query path failed to parse.
    MalformedQueryType,
    /// The height was not a decimal numeral that fits in a `u64`.
    MalformedHeight,
    /// A field of a multi-valued event map was absent or empty.
    ParseError,
}

/// The mathematical form of a decode failure.
pub ghost enum SpecCodecError {
    AttributeMissing(Seq<char>),
    MalformedIdentifier,
    MalformedQueryType,
    MalformedHeight,
    ParseError,
}

impl View for CodecError {
    type V = SpecCodecError;

    open spec fn view(&self) -> SpecCodecError {
        match self {
            CodecError::AttributeMissing(k) => SpecCodecError::AttributeMissing(k@),
            CodecError::MalformedIdentifier => SpecCodecError::MalformedIdentifier,
            CodecError::MalformedQueryType => SpecCodecError::MalformedQueryType,
            CodecError::MalformedHeight => SpecCodecError::MalformedHeight,
            CodecError::ParseError => SpecCodecError::ParseError,
        }
    }
}

/// The typed form of a query-request event.
#[derive(Clone, Debug)]
pub struct CrossChainQueryPacket {
    pub module: String,
    pub action: String,
    pub query_id: String,
    pub chain_id: ChainId,
    pub connection_id: ConnectionId,
    pub query_type: QueryPath,
    pub height: Height,
    pub request: String,
}

/// The mathematical form of a packet: every field a plain value.
pub ghost struct SpecPacket {
    pub module: Seq<char>,
    pub action: Seq<char>,
    pub query_id: Seq<char>,
    pub chain_id: Seq<char>,
    pub connection_id: Seq<char>,
    pub query_type: Seq<char>,
    pub height: u64,
    pub request: Seq<char>,
}

impl View for CrossChainQueryPacket {
    type V = SpecPacket;

    open spec fn view(&self) -> SpecPacket {
        SpecPacket {
            module: self.module@,
            action: self.action@,
            query_id: self.query_id@,
            chain_id: self.chain_id.id@,
            connection_id: self.connection_id.id@,
            query_type: self.query_type.path@,
            height: self.height.value,
            request: self.request@,
        }
    }
}

/// The first value listed under a key, if any.
pub open spec fn first_value(tags: Seq<(Seq<char>, Seq<char>)>, key: Seq<char>) -> Option<
    Seq<char>,
>
    decreases tags.len(),
{
    if tags.len() == 0 {
        None
    } else if tags[0].0 == key {
        Some(tags[0].1)
    } else {
        first_value(tags.drop_first(), key)
    }
}

/// When the first entry with the key stands at index `i`, that entry wins.
pub proof fn lemma_first_value_at(tags: Seq<(Seq<char>, Seq<char>)>, key: Seq<char>, i: int)
    requires
        0 <= i < tags.len(),
        tags[i].0 == key,
        forall|j: int| 0 <= j < i ==> (#[trigger] tags[j]).0 != key,
    ensures
        first_value(tags, key) == Some(tags[i].1),
    decreases i,
{
    if i > 0 {
        assert(tags[0].0 != key);
        assert(forall|j: int|
            0 <= j < i - 1 ==> (#[trigger] tags.drop_first()[j]).0 != key) by {
            assert(forall|j: int|
                0 <= j < i - 1 ==> tags.drop_first()[j] == #[trigger] tags[j + 1]);
        }
        assert(tags.drop_first()[i - 1] == tags[i]);
        lemma_first_value_at(tags.drop_first(), key, i - 1);
    }
}

/// The tag list an event carries for a packet, keys in their fixed order.
pub open spec fn encode_spec(p: SpecPacket) -> Seq<(Seq<char>, Seq<char>)> {
    seq![
        ("module"@, p.module),
        ("action"@, p.action),
        ("query_id"@, p.query_id),
        ("chain_id"@, p.chain_id),
        ("connection_id"@, p.connection_id),
        ("type"@, p.query_type),
        ("request"@, p.request),
        ("height"@, dec_string(p.height as nat)),
    ]
}

/// What decoding a tag list yields: the first missing key in the fixed key
/// order fails the decode naming that key; then each typed field parse
/// failure fails with its own kind.
pub open spec fn decode_spec(tags: Seq<(Seq<char>, Seq<char>)>) -> Result<
    SpecPacket,
    SpecCodecError,
> {
    if first_value(tags, "module"@) is None {
        Err(SpecCodecError::AttributeMissing("module"@))
    } else if first_value(tags, "action"@) is None {
        Err(SpecCodecError::AttributeMissing("action"@))
    } else if first_value(tags, "query_id"@) is None {
        Err(SpecCodecError::AttributeMissing("query_id"@))
    } else if first_value(tags, "chain_id"@) is None {
        Err(SpecCodecError::AttributeMissing("chain_id"@))
    } else if first_value(tags, "connection_id"@) is None {
        Err(SpecCodecError::AttributeMissing("connection_id"@))
    } else if first_value(tags, "type"@) is None {
        Err(SpecCodecError::AttributeMissing("type"@))
    } else if first_value(tags, "request"@) is None {
        Err(SpecCodecError::AttributeMissing("request"@))
    } else if first_value(tags, "height"@) is None {
        Err(SpecCodecError::AttributeMissing("height"@))
    } else if !valid_connection_id(first_value(tags, "connection_id"@)->0) {
        Err(SpecCodecError::MalformedIdentifier)
    } else if !valid_query_path(first_value(tags, "type"@)->0) {
        Err(SpecCodecError::MalformedQueryType)
    } else if parse_dec(first_value(tags, "height"@)->0) is None {
        Err(SpecCodecError::MalformedHeight)
    } else {
        Ok(
            (SpecPacket {
                module: first_value(tags, "module"@)->0,
                action: first_value(tags, "action"@)->0,
                query_id: first_value(tags, "query_id"@)->0,
                chain_id: first_value(tags, "chain_id"@)->0,
                connection_id: first_value(tags, "connection_id"@)->0,
                query_type: first_value(tags, "type"@)->0,
                height: parse_dec(first_value(tags, "height"@)->0)->0,
                request: first_value(tags, "request"@)->0,
            }),
        )
    }
}

pub(crate) fn str_eq(a: &str, b: &str) -> (r: bool)
    ensures
        r == (a@ == b@),
{
    let x: String = a.to_owned();
    let y: String = b.to_owned();
    x == y
}

/// Scan the tag list and return the first value under the key, or report the
/// key as missing.
pub fn find_value(key: &str, entries: &Vec<Tag>) -> (r: Result<String, CodecError>)
    ensures
        match first_value(tags_view(entries@), key@) {
            Some(v) => r is Ok && r->Ok_0@ == v,
            None => r is Err && r->Err_0@ == SpecCodecError::AttributeMissing(key@),
        },
{
    let n = entries.len();
    let mut i: usize = 0;
    proof {
        assert(tags_view(entries@).skip(0) =~= tags_view(entries@));
    }
    while i < n
        invariant
            n == entries@.len(),
            i <= n,
            first_value(tags_view(entries@), key@) == first_value(
                tags_view(entries@).skip(i as int),
                key@,
            ),
        decreases n - i,
    {
        proof {
            assert(tags_view(entries@).skip(i as int)[0] == tags_view(entries@)[i as int]);
        }
        if str_eq(entries[i].key.as_str(), key) {
            return Ok(entries[i].value.clone());
        }
        i = i + 1;
        proof {
            assert(tags_view(entries@).skip(i - 1).drop_first() =~= tags_view(entries@).skip(
                i as int,
            ));
        }
    }
    proof {
        assert(tags_view(entries@).skip(n as int) =~= Seq::<(Seq<char>, Seq<char>)>::empty());
    }
    Err(CodecError::AttributeMissing(key.to_owned()))
}

/// A tag from a key and a value.
pub fn new_tag(key: &str, value: &str) -> (r: Tag)
    ensures
        r@ == (key@, value@),
{
    Tag { key: key.to_owned(), value: value.to_owned() }
}

impl CrossChainQueryPacket {
    /// Encode the packet as its tag list; total, keys in their fixed order.
    pub fn to_tags(&self) -> (r: Vec<Tag>)
        ensures
            tags_view(r@) == encode_spec(self@),
    {
        let height_str = self.height.to_dec_string();
        let mut r: Vec<Tag> = Vec::new();
        r.push(new_tag("module", self.module.as_str()));
        r.push(new_tag("action", self.action.as_str()));
        r.push(new_tag("query_id", self.query_id.as_str()));
        r.push(new_tag("chain_id", self.chain_id.as_str()));
        r.push(new_tag("connection_id", self.connection_id.as_str()));
        r.push(new_tag("type", self.query_type.as_str()));
        r.push(new_tag("request", self.request.as_str()));
        r.push(new_tag("height", height_str.as_str()));
        proof {
            assert(tags_view(r@) =~= encode_spec(self@));
        }
        r
    }

    /// Encode the packet as a full event, typed "message".
    pub fn to_abci_event(&self) -> (r: AbciEvent)
        ensures
            r.type_str@ == "message"@,
            tags_view(r.attributes@) == encode_spec(self@),
    {
        let attributes = self.to_tags();
        AbciEvent { type_str: String::from_str("message"), attributes }
    }

    /// Decode a tag list into a packet; fails per `decode_spec`.
    pub fn try_from_tags(entries: &Vec<Tag>) -> (r: Result<CrossChainQueryPacket, CodecError>)
        ensures
            match r {
                Ok(p) => decode_spec(tags_view(entries@)) == Ok::<SpecPacket, SpecCodecError>(p@),
                Err(e) => decode_spec(tags_view(entries@)) == Err::<SpecPacket, SpecCodecError>(
                    e@,
                ),
            },
    {
        let module = match find_value("module", entries) {
            Ok(v) => v,
            Err(e) => {
                return Err(e);
            },
        };
        let action = match find_value("action", entries) {
            Ok(v) => v,
            Err(e) => {
                return Err(e);
            },
        };
        let query_id = match find_value("query_id", entries) {
            Ok(v) => v,
            Err(e) => {
                return Err(e);
            },
        };
        let chain_id_str = match find_value("chain_id", entries) {
            Ok(v) => v,
            Err(e) => {
                return Err(e);
            },
        };
        let connection_id_str = match find_value("connection_id", entries) {
            Ok(v) => v,
            Err(e) => {
                return Err(e);
            },
        };
        let query_type_str = match find_value("type", entries) {
            Ok(v) => v,
            Err(e) => {
                return Err(e);
            },
        };
        let request = match find_value("request", entries) {
            Ok(v) => v,
            Err(e) => {
                return Err(e);
            },
        };
        let height_str = match find_value("height", entries) {
            Ok(v) => v,
            Err(e) => {
                return Err(e);
            },
        };
        let chain_id = ChainId::from_string(chain_id_str.as_str());
        let connection_id = match ConnectionId::parse(connection_id_str.as_str()) {
            Some(c) => c,
            None => {
                return Err(CodecError::MalformedIdentifier);
            },
        };
        let query_type = match QueryPath::parse(query_type_str.as_str()) {
            Some(q) => q,
            None => {
                return Err(CodecError::MalformedQueryType);
            },
        };
        let height = match Height::parse(height_str.as_str()) {
            Some(h) => h,
            None => {
                return Err(CodecError::MalformedHeight);
            },
        };
        Ok(
            CrossChainQueryPacket {
                module,
                action,
                query_id,
                chain_id,
                connection_id,
                query_type,
                height,
                request,
            },
        )
    }
}

proof fn lemma_keys_distinct()
    ensures
        "module"@ != "action"@,
        "module"@ != "query_id"@,
        "module"@ != "chain_id"@,
        "module"@ != "connection_id"@,
        "module"@ != "type"@,
        "module"@ != "request"@,
        "module"@ != "height"@,
        "action"@ != "query_id"@,
        "action"@ != "chain_id"@,
        "action"@ != "connection_id"@,
        "action"@ != "type"@,
        "action"@ != "request"@,
        "action"@ != "height"@,
        "query_id"@ != "chain_id"@,
        "query_id"@ != "connection_id"@,
        "query_id"@ != "type"@,
        "query_id"@ != "request"@,
        "query_id"@ != "height"@,
        "chain_id"@ != "connection_id"@,
        "chain_id"@ != "type"@,
        "chain_id"@ != "request"@,
        "chain_id"@ != "height"@,
        "connection_id"@ != "type"@,
        "connection_id"@ != "request"@,
        "connection_id"@ != "height"@,
        "type"@ != "request"@,
        "type"@ != "height"@,
        "request"@ != "height"@,
{
    reveal_strlit("module");
    reveal_strlit("action");
    reveal_strlit("query_id");
    reveal_strlit("chain_id");
    reveal_strlit("connection_id");
    reveal_strlit("type");
    reveal_strlit("request");
    reveal_strlit("height");
    assert("module"@.len() == 6);
    assert("action"@.len() == 6);
    assert("query_id"@.len() == 8);
    assert("chain_id"@.len() == 8);
    assert("connection_id"@.len() == 13);
    assert("type"@.len() == 4);
    assert("request"@.len() == 7);
    assert("height"@.len() == 6);
    assert("module"@[0] == 'm');
    assert("action"@[0] == 'a');
    assert("height"@[0] == 'h');
    assert("query_id"@[0] == 'q');
    assert("chain_id"@[0] == 'c');
}

/// Encoding then decoding gives the packet back: the round trip holds for
/// every packet whose connection identifier and query path are valid.
pub proof fn lemma_encode_decode_round_trip(p: SpecPacket)
    requires
        valid_connection_id(p.connection_id),
        valid_query_path(p.query_type),
    ensures
        decode_spec(encode_spec(p)) == Ok::<SpecPacket, SpecCodecError>(p),
{
    lemma_keys_distinct();
    let e = encode_spec(p);
    lemma_first_value_at(e, "module"@, 0);
    lemma_first_value_at(e, "action"@, 1);
    lemma_first_value_at(e, "query_id"@, 2);
    lemma_first_value_at(e, "chain_id"@, 3);
    lemma_first_value_at(e, "connection_id"@, 4);
    lemma_first_value_at(e, "type"@, 5);
    lemma_first_value_at(e, "request"@, 6);
    lemma_first_value_at(e, "height"@, 7);
    crate::dec::lemma_parse_dec_string(p.height);
}

/// The required keys of a query-request event.
pub open spec fn is_required_key(k: Seq<char>) -> bool {
    ||| k == "module"@
    ||| k == "action"@
    ||| k == "query_id"@
    ||| k == "chain_id"@
    ||| k == "connection_id"@
    ||| k == "type"@
    ||| k == "request"@
    ||| k == "height"@
}

/// A tag list that lacks exactly one required key fails to decode with
/// `AttributeMissing` naming that key.
pub proof fn lemma_missing_key(tags: Seq<(Seq<char>, Seq<char>)>, key: Seq<char>)
    requires
        is_required_key(key),
        first_value(tags, key) is None,
        forall|k: Seq<char>|
            is_required_key(k) && k != key ==> #[trigger] first_value(tags, k) is Some,
    ensures
        decode_spec(tags) == Err::<SpecPacket, SpecCodecError>(
            SpecCodecError::AttributeMissing(key),
        ),
{
    lemma_keys_distinct();
}

} // verus!
