use glados::distance::{distance_log2, distance_xor};
use glados::routing::{
    parse_routing_table_entry, routing_table_info, try_parse_routing_table_entry,
    try_routing_table_info, RoutingTableEntry, RoutingTableInfoRaw,
};

const ENR: &str = "enr:-IS4QHCYrYZbAKWCBRlAy5zzaDZXJBGkcnh4MHcBFZntXNFrdvJjX04jRzjzCBOonrkTfj499SZuOh8R33Ls8RRcy5wBgmlkgnY0gmlwhH8AAAGJc2VjcDI1NmsxoQPKY0yuDUmstAHYpMa2_oxVtw0RW_QAdpzBQA8yWM0xOIN1ZHCCdl8";

fn hex64(last: &str) -> String {
    let mut s = "0".repeat(64 - last.len());
    s.push_str(last);
    s
}

fn node_id(text: &str) -> Option<[u8; 32]> {
    entry(text, ENR).map(|e| e.node_id)
}

fn entry(id: &str, enr: &str) -> Option<RoutingTableEntry> {
    try_parse_routing_table_entry(&[0u8; 32], &id.to_string(), &enr.to_string(), &"Connected".to_string())
}

#[test]
fn xor_distance_of_equal_ids_is_zero() {
    let x = [0xabu8; 32];
    let d = distance_xor(&x, &x);
    assert_eq!(d, [0u8; 32]);
    assert_eq!(distance_log2(&d), 0);
}

#[test]
fn xor_distance_is_bytewise() {
    let mut x = [0u8; 32];
    let mut y = [0u8; 32];
    x[0] = 0b1010_0000;
    y[0] = 0b0110_0000;
    x[31] = 1;
    let d = distance_xor(&x, &y);
    assert_eq!(d[0], 0b1100_0000);
    assert_eq!(d[31], 1);
    assert_eq!(distance_xor(&y, &x), d);
}

#[test]
fn log_distance_counts_binary_digits() {
    let mut d = [0u8; 32];
    d[31] = 1;
    assert_eq!(distance_log2(&d), 1);
    d[31] = 0xff;
    assert_eq!(distance_log2(&d), 8);
    d[30] = 1;
    assert_eq!(distance_log2(&d), 9);
    d = [0u8; 32];
    d[0] = 0x80;
    assert_eq!(distance_log2(&d), 256);
    d[0] = 0x01;
    assert_eq!(distance_log2(&d), 249);
}

#[test]
fn h256_parses_hex_with_and_without_prefix() {
    let b = node_id(&hex64("ff")).unwrap();
    assert_eq!(b[31], 0xff);
    assert_eq!(b[0], 0);
    let mut high = "ab".to_string();
    high.push_str(&"0".repeat(62));
    assert_eq!(node_id(&high).unwrap()[0], 0xab);
    let prefixed = format!("0x{}", hex64("0A"));
    assert_eq!(node_id(&prefixed).unwrap()[31], 0x0a);
}

#[test]
fn h256_rejects_bad_text() {
    assert!(node_id("").is_none());
    assert!(node_id(&hex64("f")[1..]).is_none());
    assert!(node_id(&format!("{}0", hex64("1"))).is_none());
    assert!(node_id(&format!("{}00", hex64("1"))).is_none());
    assert!(node_id(&hex64("g1")).is_none());
    assert!(node_id(&format!("0X{}", hex64("1"))).is_none());
}

#[test]
fn h256_skips_whitespace() {
    let text = format!(" {} \n", hex64("12"));
    assert_eq!(node_id(&text).unwrap()[31], 0x12);
}

#[test]
fn enr_check() {
    assert!(entry(&hex64("1"), ENR).is_some());
    assert!(entry(&hex64("1"), "enr:not-an-enr").is_none());
    assert!(entry(&hex64("1"), "").is_none());
    assert_eq!(entry(&hex64("1"), ENR).unwrap().enr, ENR);
}

#[test]
fn entry_measures_distance_to_local_node() {
    let local = [0u8; 32];
    let entry = parse_routing_table_entry(
        &local,
        &hex64("03"),
        &ENR.to_string(),
        &"Connected".to_string(),
    );
    assert_eq!(entry.node_id[31], 3);
    assert_eq!(entry.distance[31], 3);
    assert_eq!(entry.log_distance, 2);
    assert_eq!(entry.enr, ENR);
    assert_eq!(entry.status, "Connected");
}

#[test]
fn entry_with_bad_fields_is_refused() {
    let local = [0u8; 32];
    let status = "Connected".to_string();
    assert!(try_parse_routing_table_entry(&local, &"zz".to_string(), &ENR.to_string(), &status)
        .is_none());
    assert!(try_parse_routing_table_entry(&local, &hex64("1"), &"bad".to_string(), &status)
        .is_none());
    assert!(try_parse_routing_table_entry(&local, &hex64("1"), &ENR.to_string(), &status)
        .is_some());
}

#[test]
fn routing_table_parses_every_entry() {
    let raw = RoutingTableInfoRaw {
        local_key: format!("0x{}", hex64("10")),
        buckets: vec![
            (hex64("11"), ENR.to_string(), "Connected".to_string()),
            (hex64("90"), ENR.to_string(), "Disconnected".to_string()),
        ],
    };
    let info = routing_table_info(&raw);
    assert_eq!(info.local_key[31], 0x10);
    assert_eq!(info.buckets.len(), 2);
    assert_eq!(info.buckets[0].log_distance, 1);
    assert_eq!(info.buckets[1].log_distance, 8);
    assert_eq!(info.buckets[1].status, "Disconnected");
    assert!(try_routing_table_info(&raw).is_some());
}

#[test]
fn routing_table_with_bad_key_is_refused() {
    let raw = RoutingTableInfoRaw {
        local_key: "nope".to_string(),
        buckets: vec![],
    };
    assert!(try_routing_table_info(&raw).is_none());
    let raw = RoutingTableInfoRaw {
        local_key: hex64("1"),
        buckets: vec![(hex64("2"), "bad".to_string(), "Connected".to_string())],
    };
    assert!(try_routing_table_info(&raw).is_none());
}

#[test]
fn xor_distances_compose() {
    let mut x = [0u8; 32];
    let mut y = [0u8; 32];
    let mut z = [0u8; 32];
    x[3] = 0x5a;
    y[3] = 0x0f;
    y[20] = 0x80;
    z[20] = 0x81;
    let xy = distance_xor(&x, &y);
    let yz = distance_xor(&y, &z);
    assert_eq!(distance_xor(&xy, &yz), distance_xor(&x, &z));
}

#[test]
fn log_distance_brackets_the_distance() {
    let mut d = [0u8; 32];
    d[30] = 0x01;
    d[31] = 0xff;
    let log = distance_log2(&d);
    let value = ethereum_types::U256::from_big_endian(&d);
    assert_eq!(log, 9);
    assert!(value >= ethereum_types::U256::one() << (log as usize - 1));
    assert!(value < ethereum_types::U256::one() << (log as usize));
    assert_eq!(256 - value.leading_zeros(), log as u32);
}

#[test]
fn distance_to_zero_id_is_the_id() {
    let mut x = [0u8; 32];
    x[0] = 0x12;
    x[31] = 0xef;
    assert_eq!(distance_xor(&x, &[0u8; 32]), x);
}

#[test]
fn xor_distance_triangle_inequality() {
    let mut x = [0u8; 32];
    let mut y = [0u8; 32];
    let mut z = [0u8; 32];
    x[0] = 0x30;
    x[31] = 0x0f;
    y[0] = 0x05;
    y[15] = 0x33;
    z[0] = 0x3f;
    z[31] = 0xf0;
    let d = |a: &[u8; 32], b: &[u8; 32]| ethereum_types::U256::from_big_endian(&distance_xor(a, b));
    let direct = d(&x, &z);
    let (via1, via2) = (d(&x, &y), d(&y, &z));
    assert!(direct <= via1 + via2);
}
