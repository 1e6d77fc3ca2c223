use substratheus::codec::{
    address_prefix, parse_address, serialize_address, AccountId, AddressError, Network,
};

// The development account commonly used in substrate test vectors.
const DEV_ACCOUNT: [u8; 32] = [
    0xd4, 0x35, 0x93, 0xc7, 0x15, 0xfd, 0xd3, 0x1c, 0x61, 0x14, 0x1a, 0xbd, 0x04, 0xa9, 0x9f,
    0xd6, 0x82, 0x2c, 0x85, 0x58, 0x85, 0x4c, 0xcd, 0xe3, 0x9a, 0x56, 0x84, 0xe7, 0xa5, 0x6d,
    0xa2, 0x7d,
];

#[test]
fn polkadot_address_vector() {
    let account = AccountId(DEV_ACCOUNT);
    let addr = serialize_address(&Network::Polkadot, &account);
    assert_eq!(addr, "15oF4uVJwmo4TdGW7VfQxNLavjCXviqxT9S1MgbjMNHr6Sp5");
}

#[test]
fn kusama_address_vector() {
    let account = AccountId(DEV_ACCOUNT);
    let addr = serialize_address(&Network::Kusama, &account);
    assert_eq!(addr, "HNZata7iMYWmk5RvZRTiAsSDhV8366zq2YGb3tLH5Upf74F");
}

#[test]
fn avail_address_vector() {
    let account = AccountId(DEV_ACCOUNT);
    let addr = serialize_address(&Network::Avail, &account);
    assert_eq!(addr, "5GrwvaEF5zXb26Fz9rcQpDWS57CtERHpNehXCPcNoHGKutQY");
}

#[test]
fn address_prefixes() {
    assert_eq!(address_prefix(&Network::Polkadot), 0);
    assert_eq!(address_prefix(&Network::Kusama), 2);
    assert_eq!(address_prefix(&Network::Avail), 42);
}

#[test]
fn parse_inverts_serialize() {
    let account = AccountId(DEV_ACCOUNT);
    for network in [Network::Polkadot, Network::Kusama, Network::Avail] {
        let addr = serialize_address(&network, &account);
        let parsed = parse_address(&network, &addr).expect("round trip should parse");
        assert_eq!(parsed, account);
    }
}

#[test]
fn parse_rejects_wrong_network() {
    let account = AccountId(DEV_ACCOUNT);
    let kusama_addr = serialize_address(&Network::Kusama, &account);
    assert_eq!(
        parse_address(&Network::Polkadot, &kusama_addr),
        Err(AddressError::WrongPrefix)
    );
}

#[test]
fn parse_rejects_bad_checksum() {
    // Flip the final character of a valid address.
    let addr = "15oF4uVJwmo4TdGW7VfQxNLavjCXviqxT9S1MgbjMNHr6Sp6";
    assert_eq!(
        parse_address(&Network::Polkadot, addr),
        Err(AddressError::BadChecksum)
    );
}

#[test]
fn parse_rejects_non_base58() {
    assert_eq!(
        parse_address(&Network::Polkadot, "0OIl"),
        Err(AddressError::NotBase58)
    );
}

#[test]
fn parse_rejects_wrong_length() {
    assert_eq!(
        parse_address(&Network::Polkadot, "2xCz"),
        Err(AddressError::WrongLength)
    );
}

#[test]
fn parse_rejects_over_long_input() {
    let long = "1".repeat(200);
    assert_eq!(
        parse_address(&Network::Polkadot, &long),
        Err(AddressError::TooLong)
    );
}

#[test]
fn account_equality_is_by_bytes() {
    let a = AccountId(DEV_ACCOUNT);
    let b = AccountId(DEV_ACCOUNT);
    let mut other_bytes = DEV_ACCOUNT;
    other_bytes[31] = other_bytes[31].wrapping_add(1);
    let c = AccountId(other_bytes);
    assert_eq!(a, b);
    assert!(a != c);
}
