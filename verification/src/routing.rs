//! Routing-table entries reported by a Portal client: node identifiers parsed
//! from hex, ENRs checked by decoding, and distances to the local node.

use vstd::prelude::*;

use crate::distance::{big_endian_value, bit_length, distance_log2, distance_xor, xor_bytes};

verus! {

/// An ASCII hexadecimal digit, in either case.
pub open spec fn is_hex_digit(c: char) -> bool {
    ('0' <= c && c <= '9') || ('a' <= c && c <= 'f') || ('A' <= c && c <= 'F')
}

/// The value of a hexadecimal digit.
pub open spec fn hex_digit_value(c: char) -> int {
    if '0' <= c && c <= '9' {
        (c as int) - ('0' as int)
    } else if 'a' <= c && c <= 'f' {
        (c as int) - ('a' as int) + 10
    } else {
        (c as int) - ('A' as int) + 10
    }
}

/// Whitespace that is skipped between hexadecimal digits.
pub open spec fn is_hex_space(c: char) -> bool {
    c == ' ' || c == '\r' || c == '\n' || c == '\t'
}

/// The text without one leading "0x", if it has one.
pub open spec fn strip_hex_prefix(s: Seq<char>) -> Seq<char> {
    if s.len() >= 2 && s[0] == '0' && s[1] == 'x' {
        s.skip(2)
    } else {
        s
    }
}

/// The hexadecimal digits of a text, in order.
pub open spec fn hex_digits(s: Seq<char>) -> Seq<char> {
    s.filter(|c: char| is_hex_digit(c))
}

/// Whether a text denotes a 256-bit hash: after an optional "0x", only
/// hexadecimal digits and whitespace, with exactly 64 digits.
pub open spec fn h256_text_ok(s: Seq<char>) -> bool {
    let t = strip_hex_prefix(s);
    &&& forall|i: int| 0 <= i < t.len() ==> is_hex_digit(t[i]) || is_hex_space(t[i])
    &&& hex_digits(t).len() == 64
}

/// The 32 bytes a hash text denotes: each pair of digits is one byte, the first
/// digit of a pair being the high half.
pub open spec fn h256_text_bytes(s: Seq<char>) -> Seq<u8> {
    let d = hex_digits(strip_hex_prefix(s));
    Seq::new(32, |i: int| (hex_digit_value(d[2 * i]) * 16 + hex_digit_value(d[2 * i + 1])) as u8)
}

/// `<ethereum_types::H256 as FromStr>::from_str`, taken to its 32 bytes.
///
/// The contract restates the source of fixed-hash 0.8 and rustc-hex 2.1: one
/// leading "0x" is stripped, spaces, tabs, carriage returns and line feeds are
/// skipped, any other character that is not a hexadecimal digit is an error,
/// and exactly 32 bytes (64 digits) must be read.
#[verifier::external_body]
pub(crate) fn h256_from_str(s: &str) -> (bytes: Option<[u8; 32]>)
    ensures
        bytes is Some <==> h256_text_ok(s@),
        bytes matches Some(b) ==> b@ == h256_text_bytes(s@),
{
    match <ethereum_types::H256 as std::str::FromStr>::from_str(s) {
        Ok(h) => Some(h.0),
        Err(_) => None,
    }
}

/// Whether a text decodes to a valid, correctly signed Ethereum Node Record
/// (base64url with an optional "enr:" prefix, RLP, signature check).
pub uninterp spec fn enr_decodes(text: Seq<char>) -> bool;

/// Whether `<discv5::Enr as FromStr>::from_str` accepts the text.
///
/// The decoding and signature check are not restated; the result is named by
/// `enr_decodes`, a function of the text alone.
#[verifier::external_body]
pub(crate) fn enr_text_is_valid(text: &str) -> (ok: bool)
    ensures
        ok == enr_decodes(text@),
{
    <discv5::Enr as std::str::FromStr>::from_str(text).is_ok()
}

/// A node of the routing table, with its distance to the local node.
#[derive(Debug)]
pub struct RoutingTableEntry {
    pub node_id: [u8; 32],
    /// The ENR, in its text form (which decodes).
    pub enr: String,
    pub status: String,
    /// XOR distance to the local node, most significant byte first.
    pub distance: [u8; 32],
    pub log_distance: u16,
}

/// Whether an entry is what the raw fields describe, seen from `local`.
pub open spec fn entry_describes(
    entry: RoutingTableEntry,
    local: Seq<u8>,
    raw_node_id: Seq<char>,
    encoded_enr: Seq<char>,
    status: Seq<char>,
) -> bool {
    &&& entry.node_id@ == h256_text_bytes(raw_node_id)
    &&& entry.enr@ == encoded_enr
    &&& entry.status@ == status
    &&& entry.distance@ == xor_bytes(h256_text_bytes(raw_node_id), local)
    &&& entry.log_distance == bit_length(big_endian_value(entry.distance@))
}

/// Whether the raw fields of an entry can be parsed.
pub open spec fn entry_fields_ok(raw_node_id: Seq<char>, encoded_enr: Seq<char>) -> bool {
    h256_text_ok(raw_node_id) && enr_decodes(encoded_enr)
}

/// Parses a routing-table entry and measures its distance to the local node.
pub fn parse_routing_table_entry(
    local_node_id: &[u8; 32],
    raw_node_id: &String,
    encoded_enr: &String,
    status: &String,
) -> (entry: RoutingTableEntry)
    requires
        entry_fields_ok(raw_node_id@, encoded_enr@),
    ensures
        entry_describes(entry, local_node_id@, raw_node_id@, encoded_enr@, status@),
{
    let node_id = match h256_from_str(raw_node_id.as_str()) {
        Some(b) => b,
        None => {
            assert(false);
            [0u8; 32]
        },
    };
    let valid = enr_text_is_valid(encoded_enr.as_str());
    assert(valid);
    let distance = distance_xor(&node_id, local_node_id);
    let log_distance = distance_log2(&distance);
    RoutingTableEntry {
        node_id,
        enr: encoded_enr.clone(),
        status: status.clone(),
        distance,
        log_distance,
    }
}

/// Parses a routing-table entry, or gives `None` where the node identifier or
/// the ENR does not parse.
pub fn try_parse_routing_table_entry(
    local_node_id: &[u8; 32],
    raw_node_id: &String,
    encoded_enr: &String,
    status: &String,
) -> (entry: Option<RoutingTableEntry>)
    ensures
        entry is Some <==> entry_fields_ok(raw_node_id@, encoded_enr@),
        entry matches Some(e) ==> entry_describes(
            e,
            local_node_id@,
            raw_node_id@,
            encoded_enr@,
            status@,
        ),
{
    let id_ok = h256_from_str(raw_node_id.as_str()).is_some();
    if !id_ok {
        return None;
    }
    if !enr_text_is_valid(encoded_enr.as_str()) {
        return None;
    }
    Some(parse_routing_table_entry(local_node_id, raw_node_id, encoded_enr, status))
}

/// The routing table as a Portal client reports it: the local node's key and,
/// per node, its identifier, ENR and status, all as text.
#[derive(Debug)]
pub struct RoutingTableInfoRaw {
    pub local_key: String,
    pub buckets: Vec<(String, String, String)>,
}

/// The parsed routing table.
#[derive(Debug)]
pub struct RoutingTableInfo {
    pub local_key: [u8; 32],
    pub buckets: Vec<RoutingTableEntry>,
}

/// Whether every field of the raw routing table parses.
pub open spec fn routing_table_ok(raw: RoutingTableInfoRaw) -> bool {
    &&& h256_text_ok(raw.local_key@)
    &&& forall|i: int|
        0 <= i < raw.buckets@.len() ==> #[trigger] entry_fields_ok(
            raw.buckets@[i].0@,
            raw.buckets@[i].1@,
        )
}

/// Whether the parsed table is what the raw table describes.
pub open spec fn routing_table_describes(info: RoutingTableInfo, raw: RoutingTableInfoRaw) -> bool {
    &&& info.local_key@ == h256_text_bytes(raw.local_key@)
    &&& info.buckets@.len() == raw.buckets@.len()
    &&& forall|i: int|
        0 <= i < raw.buckets@.len() ==> entry_describes(
            #[trigger] info.buckets@[i],
            info.local_key@,
            raw.buckets@[i].0@,
            raw.buckets@[i].1@,
            raw.buckets@[i].2@,
        )
}

/// Parses the routing table reported by a client, entry by entry, in order.
pub fn routing_table_info(raw: &RoutingTableInfoRaw) -> (info: RoutingTableInfo)
    requires
        routing_table_ok(*raw),
    ensures
        routing_table_describes(info, *raw),
{
    let local_key = match h256_from_str(raw.local_key.as_str()) {
        Some(b) => b,
        None => {
            assert(false);
            [0u8; 32]
        },
    };
    let mut buckets: Vec<RoutingTableEntry> = Vec::new();
    let mut i: usize = 0;
    while i < raw.buckets.len()
        invariant
            i <= raw.buckets@.len(),
            routing_table_ok(*raw),
            local_key@ == h256_text_bytes(raw.local_key@),
            buckets@.len() == i,
            forall|j: int|
                0 <= j < i ==> entry_describes(
                    #[trigger] buckets@[j],
                    local_key@,
                    raw.buckets@[j].0@,
                    raw.buckets@[j].1@,
                    raw.buckets@[j].2@,
                ),
        decreases raw.buckets@.len() - i,
    {
        let raw_entry = &raw.buckets[i];
        assert(entry_fields_ok(raw.buckets@[i as int].0@, raw.buckets@[i as int].1@));
        let entry = parse_routing_table_entry(&local_key, &raw_entry.0, &raw_entry.1, &raw_entry.2);
        buckets.push(entry);
        i = i + 1;
    }
    RoutingTableInfo { local_key, buckets }
}

/// Parses the routing table, or gives `None` where the local key or some
/// entry does not parse.
pub fn try_routing_table_info(raw: &RoutingTableInfoRaw) -> (info: Option<RoutingTableInfo>)
    ensures
        info is Some <==> routing_table_ok(*raw),
        info matches Some(t) ==> routing_table_describes(t, *raw),
{
    if h256_from_str(raw.local_key.as_str()).is_none() {
        return None;
    }
    let mut i: usize = 0;
    while i < raw.buckets.len()
        invariant
            i <= raw.buckets@.len(),
            forall|j: int|
                0 <= j < i ==> #[trigger] entry_fields_ok(
                    raw.buckets@[j].0@,
                    raw.buckets@[j].1@,
                ),
        decreases raw.buckets@.len() - i,
    {
        let raw_entry = &raw.buckets[i];
        if h256_from_str(raw_entry.0.as_str()).is_none() || !enr_text_is_valid(raw_entry.1.as_str()) {
            assert(!entry_fields_ok(raw.buckets@[i as int].0@, raw.buckets@[i as int].1@));
            return None;
        }
        i = i + 1;
    }
    Some(routing_table_info(raw))
}

} // verus!
