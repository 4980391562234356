use engine_core::shared::newtypes::Blake2bHash;
use engine_core::types::bytesrepr::{
    push_bytes32, push_prefixed, push_u32_le, push_u512, push_u64_le, push_uref, serialize_args,
};
use engine_core::types::key::{AccessRights, URef};
use engine_core::types::uint::U512;
use engine_core::wasm_prep::wasm_costs::WasmCosts;

fn u512_bytes(v: &U512) -> Vec<u8> {
    let mut out = Vec::new();
    push_u512(&mut out, v);
    out
}

#[test]
fn integers_are_written_least_significant_byte_first() {
    let mut out = vec![0xaa];
    push_u32_le(&mut out, 0x0403_0201);
    assert_eq!(out, vec![0xaa, 1, 2, 3, 4]);
    let mut out = Vec::new();
    push_u64_le(&mut out, 0x0807_0605_0403_0201);
    assert_eq!(out, vec![1, 2, 3, 4, 5, 6, 7, 8]);
    let mut out = Vec::new();
    push_u64_le(&mut out, 1);
    assert_eq!(out, vec![1, 0, 0, 0, 0, 0, 0, 0]);
}

#[test]
fn a_wide_number_is_written_behind_the_count_of_its_bytes() {
    assert_eq!(u512_bytes(&U512::zero()), vec![0]);
    assert_eq!(u512_bytes(&U512::from_u64(1)), vec![1, 1]);
    assert_eq!(u512_bytes(&U512::from_u64(255)), vec![1, 255]);
    assert_eq!(u512_bytes(&U512::from_u64(256)), vec![2, 0, 1]);
    assert_eq!(u512_bytes(&U512::from_u64(100_000_000)), vec![4, 0x00, 0xe1, 0xf5, 0x05]);
    let two_limbs = U512::from_limbs([0, 1, 0, 0, 0, 0, 0, 0]);
    assert_eq!(u512_bytes(&two_limbs), vec![9, 0, 0, 0, 0, 0, 0, 0, 0, 1]);
    let max = U512::from_limbs([u64::MAX; 8]);
    let bytes = u512_bytes(&max);
    assert_eq!(bytes.len(), 65);
    assert_eq!(bytes[0], 64);
    assert!(bytes[1..].iter().all(|b| *b == 255));
}

#[test]
fn a_reference_is_written_with_a_flag_for_its_rights() {
    let mut out = Vec::new();
    push_uref(&mut out, &URef::new([3u8; 32], AccessRights::read_add_write()));
    let mut expected = vec![3u8; 32];
    expected.push(1);
    expected.push(7);
    assert_eq!(out, expected);
    let mut out = Vec::new();
    push_uref(&mut out, &URef::new([3u8; 32], AccessRights::read_only()).remove_access_rights());
    let mut expected = vec![3u8; 32];
    expected.push(0);
    assert_eq!(out, expected);
}

#[test]
fn bytes_of_varying_length_follow_their_count() {
    let mut out = Vec::new();
    assert!(push_prefixed(&mut out, b"mint"));
    assert_eq!(out, vec![4, 0, 0, 0, b'm', b'i', b'n', b't']);
    let mut out = Vec::new();
    assert!(push_prefixed(&mut out, b""));
    assert_eq!(out, vec![0, 0, 0, 0]);
    let mut out = Vec::new();
    push_bytes32(&mut out, &[6u8; 32]);
    assert_eq!(out, vec![6u8; 32]);
}

#[test]
fn arguments_follow_their_count_each_behind_its_length() {
    assert_eq!(serialize_args(&vec![]), Some(vec![0, 0, 0, 0]));
    let args = vec![vec![1u8, 2], vec![], vec![9u8]];
    assert_eq!(
        serialize_args(&args),
        Some(vec![3, 0, 0, 0, 2, 0, 0, 0, 1, 2, 0, 0, 0, 0, 1, 0, 0, 0, 9])
    );
}

#[test]
fn the_cost_table_is_forty_bytes() {
    let bytes = WasmCosts::free().to_bytes();
    assert_eq!(bytes.len(), 40);
    assert_eq!(&bytes[0..4], &[0, 0, 0, 0]);
    assert_eq!(&bytes[16..20], &[0, 16, 0, 0]);
    assert_eq!(&bytes[20..24], &[0, 32, 0, 0]);
    assert_eq!(&bytes[28..32], &[0, 0, 1, 0]);
    assert_eq!(&bytes[32..36], &[1, 0, 0, 0]);
    assert_eq!(&bytes[36..40], &[1, 0, 0, 0]);
}

fn hex(bytes: &[u8]) -> String {
    bytes.iter().map(|b| format!("{:02x}", b)).collect()
}

#[test]
fn the_hash_is_blake2b_of_32_bytes() {
    assert_eq!(
        hex(&Blake2bHash::new(b"").value()),
        "0e5751c026e543b2e8ab2eb06099daa1d1e5df47778f7787faab45cdf12fe3a8"
    );
    assert_eq!(
        hex(&Blake2bHash::new(b"abc").value()),
        "bddd813c634239723171ef3fee98579b94964e3bb1cb3e427262c8c068d52319"
    );
    let input = [7u8; 32];
    assert_ne!(Blake2bHash::new(&input).value(), input);
    assert_eq!(Blake2bHash::new(&input), Blake2bHash::new(&input));
    assert_ne!(Blake2bHash::new(b"a"), Blake2bHash::new(b"b"));
    assert_eq!(Blake2bHash::from_bytes([1u8; 32]).value(), [1u8; 32]);
}
