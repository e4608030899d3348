//! Identifier types carried by query events: chain, client and connection
//! identifiers, and the query path. Each holds its text form as a plain
//! string; validity is a predicate over the characters.

use vstd::prelude::*;
use crate::dec::{all_digits, parse_dec};

verus! {

/// The index of the last dash in the string, or -1 when there is none.
pub open spec fn last_dash(s: Seq<char>) -> int
    decreases s.len(),
{
    if s.len() == 0 {
        -1
    } else if s.last() == '-' {
        s.len() - 1
    } else {
        last_dash(s.drop_last())
    }
}

/// A chain identifier in epoch format: a name of at least two characters not
/// ending in a dash, a dash, and a decimal version with no leading zero.
pub open spec fn epoch_format(s: Seq<char>) -> bool {
    let i = last_dash(s);
    &&& i >= 2
    &&& s[i - 1] != '-'
    &&& i + 1 < s.len()
    &&& '1' <= s[i + 1] && s[i + 1] <= '9'
    &&& all_digits(s.subrange(i + 1, s.len() as int))
}

/// The version carried by a chain identifier: the numeric suffix when the
/// identifier is in epoch format and the suffix fits in a `u64`, else 0.
pub open spec fn chain_version(s: Seq<char>) -> u64 {
    if epoch_format(s) {
        match parse_dec(s.subrange(last_dash(s) + 1, s.len() as int)) {
            Some(v) => v,
            None => 0,
        }
    } else {
        0
    }
}

proof fn lemma_last_dash_at(s: Seq<char>, k: int)
    requires
        0 <= k < s.len(),
        s[k] == '-',
        forall|j: int| k < j < s.len() ==> s[j] != '-',
    ensures
        last_dash(s) == k,
    decreases s.len(),
{
    if k < s.len() - 1 {
        assert(s.drop_last()[k] == s[k]);
        lemma_last_dash_at(s.drop_last(), k);
    }
}

proof fn lemma_last_dash_none(s: Seq<char>)
    requires
        forall|j: int| 0 <= j < s.len() ==> s[j] != '-',
    ensures
        last_dash(s) == -1,
    decreases s.len(),
{
    if s.len() > 0 {
        lemma_last_dash_none(s.drop_last());
    }
}

/// A character accepted inside a client or connection identifier: ASCII
/// alphanumerics and a small set of punctuation.
pub open spec fn valid_id_char(c: char) -> bool {
    ||| ('a' <= c && c <= 'z')
    ||| ('A' <= c && c <= 'Z')
    ||| ('0' <= c && c <= '9')
    ||| c == '.'
    ||| c == '_'
    ||| c == '+'
    ||| c == '-'
    ||| c == '#'
    ||| c == '['
    ||| c == ']'
    ||| c == '<'
    ||| c == '>'
}

/// An identifier is valid when its length lies in the given bounds and every
/// character is accepted.
pub open spec fn valid_identifier(s: Seq<char>, min: nat, max: nat) -> bool {
    &&& min <= s.len() <= max
    &&& forall|i: int| 0 <= i < s.len() ==> valid_id_char(#[trigger] s[i])
}

/// Connection identifiers are between 10 and 64 characters long.
pub open spec fn valid_connection_id(s: Seq<char>) -> bool {
    valid_identifier(s, 10, 64)
}

/// Client identifiers are between 9 and 64 characters long.
pub open spec fn valid_client_id(s: Seq<char>) -> bool {
    valid_identifier(s, 9, 64)
}

/// A query path names the queried chain's REST endpoint; any non-empty
/// string is accepted.
pub open spec fn valid_query_path(s: Seq<char>) -> bool {
    s.len() > 0
}

fn exec_valid_id_char(c: char) -> (r: bool)
    ensures
        r == valid_id_char(c),
{
    ('a' <= c && c <= 'z') || ('A' <= c && c <= 'Z') || ('0' <= c && c <= '9') || c == '.' || c
        == '_' || c == '+' || c == '-' || c == '#' || c == '[' || c == ']' || c == '<' || c == '>'
}

fn is_valid_identifier(s: &str, min: usize, max: usize) -> (r: bool)
    ensures
        r == valid_identifier(s@, min as nat, max as nat),
{
    let len = s.unicode_len();
    if len < min || len > max {
        return false;
    }
    let mut i: usize = 0;
    while i < len
        invariant
            len == s@.len(),
            i <= len,
            min <= len <= max,
            forall|j: int| 0 <= j < i ==> valid_id_char(#[trigger] s@[j]),
        decreases len - i,
    {
        if !exec_valid_id_char(s.get_char(i)) {
            return false;
        }
        i = i + 1;
    }
    true
}

/// A chain identifier. Any string names a chain, so construction is total.
#[derive(Clone, Debug)]
pub struct ChainId {
    pub id: String,
}

impl ChainId {
    pub fn from_string(s: &str) -> (r: ChainId)
        ensures
            r.id@ == s@,
    {
        ChainId { id: s.to_owned() }
    }

    pub fn as_str(&self) -> (r: &str)
        ensures
            r@ == self.id@,
    {
        self.id.as_str()
    }

    /// The chain's revision number, read from the identifier's numeric
    /// suffix; 0 when the identifier carries none.
    pub fn version(&self) -> (r: u64)
        ensures
            r == chain_version(self.id@),
    {
        let s = self.id.as_str();
        let len = s.unicode_len();
        let mut dash: Option<usize> = None;
        let mut idx: usize = 0;
        while idx < len
            invariant
                len == s@.len(),
                idx <= len,
                match dash {
                    None => forall|j: int| 0 <= j < idx ==> s@[j] != '-',
                    Some(k) => k < idx && s@[k as int] == '-' && (forall|j: int|
                        k < j < idx ==> s@[j] != '-'),
                },
            decreases len - idx,
        {
            if s.get_char(idx) == '-' {
                dash = Some(idx);
            }
            idx = idx + 1;
        }
        let k = match dash {
            None => {
                proof {
                    lemma_last_dash_none(s@);
                }
                return 0;
            },
            Some(k) => k,
        };
        proof {
            lemma_last_dash_at(s@, k as int);
        }
        if k < 2 {
            return 0;
        }
        if s.get_char(k - 1) == '-' {
            return 0;
        }
        if k + 1 >= len {
            return 0;
        }
        let first = s.get_char(k + 1);
        if !('1' <= first && first <= '9') {
            return 0;
        }
        let suffix = s.substring_char(k + 1, len);
        match crate::dec::parse_u64(suffix) {
            Some(v) => v,
            None => 0,
        }
    }
}

/// A connection identifier; valid ones satisfy `valid_connection_id`.
#[derive(Clone, Debug)]
pub struct ConnectionId {
    pub id: String,
}

impl ConnectionId {
    /// Accepts exactly the strings that form a valid connection identifier.
    pub fn parse(s: &str) -> (r: Option<ConnectionId>)
        ensures
            valid_connection_id(s@) ==> (r is Some && r->0.id@ == s@),
            !valid_connection_id(s@) ==> r is None,
    {
        if is_valid_identifier(s, 10, 64) {
            Some(ConnectionId { id: s.to_owned() })
        } else {
            None
        }
    }

    pub fn as_str(&self) -> (r: &str)
        ensures
            r@ == self.id@,
    {
        self.id.as_str()
    }
}

/// A client identifier; valid ones satisfy `valid_client_id`.
#[derive(Clone, Debug)]
pub struct ClientId {
    pub id: String,
}

impl ClientId {
    /// Accepts exactly the strings that form a valid client identifier.
    pub fn parse(s: &str) -> (r: Option<ClientId>)
        ensures
            valid_client_id(s@) ==> (r is Some && r->0.id@ == s@),
            !valid_client_id(s@) ==> r is None,
    {
        if is_valid_identifier(s, 9, 64) {
            Some(ClientId { id: s.to_owned() })
        } else {
            None
        }
    }

    pub fn as_str(&self) -> (r: &str)
        ensures
            r@ == self.id@,
    {
        self.id.as_str()
    }
}

/// The decoded query kind and REST path; valid ones are non-empty.
#[derive(Clone, Debug)]
pub struct QueryPath {
    pub path: String,
}

impl QueryPath {
    /// Accepts exactly the non-empty strings.
    pub fn parse(s: &str) -> (r: Option<QueryPath>)
        ensures
            valid_query_path(s@) ==> (r is Some && r->0.path@ == s@),
            !valid_query_path(s@) ==> r is None,
    {
        if s.unicode_len() > 0 {
            Some(QueryPath { path: s.to_owned() })
        } else {
            None
        }
    }

    pub fn as_str(&self) -> (r: &str)
        ensures
            r@ == self.path@,
    {
        self.path.as_str()
    }
}

/// A block height on the queried chain, carried through the codec.
#[derive(Clone, Copy, Debug, PartialEq, Eq, Structural)]
pub struct Height {
    pub value: u64,
}

impl Height {
    /// Accepts exactly the decimal numerals that fit in a `u64`.
    pub fn parse(s: &str) -> (r: Option<Height>)
        ensures
            match crate::dec::parse_dec(s@) {
                Some(v) => r == Some(Height { value: v }),
                None => r is None,
            },
    {
        match crate::dec::parse_u64(s) {
            Some(v) => Some(Height { value: v }),
            None => None,
        }
    }

    /// The height's decimal text form.
    pub fn to_dec_string(&self) -> (r: String)
        ensures
            r@ == crate::dec::dec_string(self.value as nat),
    {
        crate::dec::u64_to_dec(self.value)
    }
}

} // verus!
