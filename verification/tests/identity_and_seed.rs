use gossip::identity::sha512_hash;
use gossip::seed::get_random_seed;

fn hex(bytes: &[u8]) -> String {
    let mut s = String::new();
    for b in bytes {
        s.push_str(&format!("{:02x}", b));
    }
    s
}

#[test]
fn content_id_of_empty_payload() {
    let id = sha512_hash(&Vec::new());
    assert_eq!(id.len(), 32);
    assert_eq!(
        hex(&id),
        "cf83e1357eefb8bdf1542850d66d8007d620e4050b5715dc83f4a921d36ce9ce"
    );
}

#[test]
fn content_id_of_abc() {
    let id = sha512_hash(&b"abc".to_vec());
    assert_eq!(id.len(), 32);
    assert_eq!(
        hex(&id),
        "ddaf35a193617abacc417349ae20413112e6fa4e89a97ea20a9eeee64b55d39a"
    );
}

#[test]
fn content_id_is_deterministic() {
    let payload = b"hello overlay".to_vec();
    let first = sha512_hash(&payload);
    let second = sha512_hash(&payload);
    assert_eq!(first, second);
}

#[test]
fn content_id_distinguishes_payloads() {
    let one = sha512_hash(&b"payload one".to_vec());
    let two = sha512_hash(&b"payload two".to_vec());
    assert_ne!(one, two);
}

#[test]
fn seed_of_short_name() {
    // "abc" is 0x61 0x62 0x63 big-endian.
    assert_eq!(get_random_seed("abc"), 0x616263);
}

#[test]
fn seed_of_empty_name() {
    assert_eq!(get_random_seed(""), 0);
}

#[test]
fn seed_uses_first_eight_bytes_only() {
    let long = get_random_seed("node-001-extra");
    let prefix = get_random_seed("node-001");
    assert_eq!(long, prefix);
    assert_eq!(
        prefix,
        u64::from_be_bytes([b'n', b'o', b'd', b'e', b'-', b'0', b'0', b'1'])
    );
}

#[test]
fn seed_is_deterministic() {
    assert_eq!(get_random_seed("alpha"), get_random_seed("alpha"));
    assert_ne!(get_random_seed("alpha"), get_random_seed("beta"));
}
