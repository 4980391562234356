use engine_core::engine_state::utils::{hex_value, pos_validator_to_tuple};
use engine_core::execution::{validate_uref, AddressGenerator, Error, Phase};
use engine_core::shared::gas::Gas;
use engine_core::shared::motes::Motes;
use engine_core::shared::newtypes::Blake2bHash;
use engine_core::types::account::NamedKeys;
use engine_core::types::key::{AccessRights, Key, PublicKey, URef};
use engine_core::types::uint::U512;
use engine_core::types::vec_map::VecMap;

#[test]
fn phases_have_bytes_of_their_own() {
    assert_eq!(Phase::System.tag(), 0);
    assert_eq!(Phase::Payment.tag(), 1);
    assert_eq!(Phase::Session.tag(), 2);
    assert_eq!(Phase::FinalizePayment.tag(), 3);
}

#[test]
fn addresses_depend_on_the_deploy_the_phase_and_the_count() {
    let mut first = AddressGenerator::new([1u8; 32], Phase::Session);
    let mut again = AddressGenerator::new([1u8; 32], Phase::Session);
    let a0 = first.create_address();
    let a1 = first.create_address();
    assert_eq!(a0, again.create_address());
    assert_eq!(a1, again.create_address());
    assert_ne!(a0, a1);
    let mut payment = AddressGenerator::new([1u8; 32], Phase::Payment);
    assert_ne!(payment.create_address(), a0);
    let mut other = AddressGenerator::new([2u8; 32], Phase::Session);
    assert_ne!(other.create_address(), a0);
}

#[test]
fn an_address_is_the_hash_of_the_seed_and_the_count() {
    let mut seed_input = vec![1u8; 32];
    seed_input.push(2);
    let seed = Blake2bHash::new(&seed_input).value();
    let mut first = seed.to_vec();
    first.extend_from_slice(&[0u8; 8]);
    let mut second = seed.to_vec();
    second.extend_from_slice(&[1, 0, 0, 0, 0, 0, 0, 0]);
    let mut generator = AddressGenerator::new([1u8; 32], Phase::Session);
    assert_eq!(generator.create_address(), Blake2bHash::new(&first).value());
    assert_eq!(generator.create_address(), Blake2bHash::new(&second).value());
}

fn known() -> NamedKeys {
    let mut keys: NamedKeys = VecMap::new();
    keys.insert("full".to_string(), Key::URef(URef::new([1u8; 32], AccessRights::read_add_write())));
    keys.insert("read".to_string(), Key::URef(URef::new([2u8; 32], AccessRights::read_only())));
    keys.insert("hash".to_string(), Key::Hash([3u8; 32]));
    keys.insert(
        "bare".to_string(),
        Key::URef(URef::new([4u8; 32], AccessRights::read_only()).remove_access_rights()),
    );
    keys
}

#[test]
fn a_known_reference_is_valid_with_rights_that_are_held() {
    let keys = known();
    assert_eq!(validate_uref(&keys, &URef::new([1u8; 32], AccessRights::read_add_write())), Ok(()));
    assert_eq!(validate_uref(&keys, &URef::new([1u8; 32], AccessRights::read_only())), Ok(()));
    assert_eq!(validate_uref(&keys, &URef::new([2u8; 32], AccessRights::read_only())), Ok(()));
    let bare = URef::new([2u8; 32], AccessRights::read_only()).remove_access_rights();
    assert_eq!(validate_uref(&keys, &bare), Ok(()));
    let bare = URef::new([4u8; 32], AccessRights::read_only()).remove_access_rights();
    assert_eq!(validate_uref(&keys, &bare), Ok(()));
}

#[test]
fn a_reference_that_is_not_known_is_forged() {
    let keys = known();
    let absent = URef::new([9u8; 32], AccessRights::read_only());
    assert_eq!(validate_uref(&keys, &absent), Err(Error::ForgedReference(absent)));
    let hash = URef::new([3u8; 32], AccessRights::read_only());
    assert_eq!(validate_uref(&keys, &hash), Err(Error::ForgedReference(hash)));
    let more = URef::new([2u8; 32], AccessRights::read_add_write());
    assert_eq!(validate_uref(&keys, &more), Err(Error::ForgedReference(more)));
    let claimed = URef::new([4u8; 32], AccessRights::read_only());
    assert_eq!(validate_uref(&keys, &claimed), Err(Error::ForgedReference(claimed)));
    let empty: NamedKeys = VecMap::new();
    assert_eq!(validate_uref(&empty, &absent), Err(Error::ForgedReference(absent)));
}

#[test]
fn gas_and_motes_convert_at_the_rate() {
    assert_eq!(Gas::from_motes(Motes::from_u64(10_000_000), 10), Some(Gas::from_u64(1_000_000)));
    assert_eq!(Gas::from_motes(Motes::from_u64(19), 10), Some(Gas::from_u64(1)));
    assert_eq!(Gas::from_motes(Motes::from_u64(19), 0), None);
    assert_eq!(Motes::from_gas(Gas::from_u64(140), 10), Some(Motes::from_u64(1_400)));
    assert_eq!(Motes::from_gas(Gas::from_u64(140), 0), Some(Motes::zero()));
    let most = Gas::new(U512::from_limbs([u64::MAX; 8]));
    assert_eq!(Motes::from_gas(most, 2), None);
    assert_eq!(Motes::from_gas(most, 1), Some(Motes::new(most.value())));
    assert_eq!(Gas::from_u64(5).checked_sub(&Gas::from_u64(3)), Some(Gas::from_u64(2)));
    assert_eq!(Gas::from_u64(3).checked_sub(&Gas::from_u64(5)), None);
    assert!(Motes::from_u64(3).lt(&Motes::from_u64(5)));
    assert!(!Motes::from_u64(5).lt(&Motes::from_u64(5)));
    assert_eq!(Motes::new(U512::from_u64(7)).value(), U512::from_u64(7));
}

#[test]
fn hexadecimal_digits_have_their_values() {
    assert_eq!(hex_value(b'0'), Some(0));
    assert_eq!(hex_value(b'9'), Some(9));
    assert_eq!(hex_value(b'a'), Some(10));
    assert_eq!(hex_value(b'f'), Some(15));
    assert_eq!(hex_value(b'A'), Some(10));
    assert_eq!(hex_value(b'F'), Some(15));
    assert_eq!(hex_value(b'g'), None);
    assert_eq!(hex_value(b'G'), None);
    assert_eq!(hex_value(b'_'), None);
    assert_eq!(hex_value(b'/'), None);
    assert_eq!(hex_value(b':'), None);
}

fn name_of(key: &str, stake: &str) -> String {
    format!("v_{}_{}", key, stake)
}

#[test]
fn a_validator_name_holds_a_key_and_a_stake() {
    let key = "000102030405060708090a0b0c0d0e0f101112131415161718191A1B1C1D1E1F";
    let mut bytes = [0u8; 32];
    for i in 0..32 {
        bytes[i] = i as u8;
    }
    assert_eq!(
        pos_validator_to_tuple(&name_of(key, "1234")),
        Some((PublicKey::new(bytes), U512::from_u64(1234)))
    );
    assert_eq!(
        pos_validator_to_tuple(&name_of(key, "0")),
        Some((PublicKey::new(bytes), U512::zero()))
    );
    assert_eq!(
        pos_validator_to_tuple(&name_of(key, "")),
        Some((PublicKey::new(bytes), U512::zero()))
    );
    assert_eq!(
        pos_validator_to_tuple(&name_of(key, "0042_more")),
        Some((PublicKey::new(bytes), U512::from_u64(42)))
    );
    assert_eq!(
        pos_validator_to_tuple(&name_of(key, "18446744073709551616")),
        Some((PublicKey::new(bytes), U512::from_limbs([0, 1, 0, 0, 0, 0, 0, 0])))
    );
}

#[test]
fn a_name_of_another_form_is_no_validator() {
    let key = "ab".repeat(32);
    assert_eq!(pos_validator_to_tuple(""), None);
    assert_eq!(pos_validator_to_tuple("v"), None);
    assert_eq!(pos_validator_to_tuple("pos_payment_purse"), None);
    assert_eq!(pos_validator_to_tuple(&format!("v_{}", key)), None);
    assert_eq!(pos_validator_to_tuple(&format!("w_{}_1", key)), None);
    assert_eq!(pos_validator_to_tuple(&format!("v-{}_1", key)), None);
    assert_eq!(pos_validator_to_tuple(&format!("v_{}-1", key)), None);
    assert_eq!(pos_validator_to_tuple(&format!("v_{}_1", &key[2..])), None);
    assert_eq!(pos_validator_to_tuple(&format!("v_{}_1", "ab".repeat(33))), None);
    assert_eq!(pos_validator_to_tuple(&format!("v_{}_1", "zz".repeat(32))), None);
    assert_eq!(pos_validator_to_tuple(&name_of(&key, "12a")), None);
    assert_eq!(pos_validator_to_tuple(&name_of(&key, "-1")), None);
    assert_eq!(pos_validator_to_tuple(&name_of(&key, " 1")), None);
}

#[test]
fn a_stake_must_fit_in_512_bits() {
    let key = "ab".repeat(32);
    let most = "13407807929942597099574024998205846127479365820592393377723561443721764030073546976801874298166903427690031858186486050853753882811946569946433649006084095";
    let over = "13407807929942597099574024998205846127479365820592393377723561443721764030073546976801874298166903427690031858186486050853753882811946569946433649006084096";
    assert_eq!(
        pos_validator_to_tuple(&name_of(&key, most)),
        Some((PublicKey::new([0xab; 32]), U512::from_limbs([u64::MAX; 8])))
    );
    assert_eq!(pos_validator_to_tuple(&name_of(&key, over)), None);
    assert_eq!(pos_validator_to_tuple(&name_of(&key, &format!("{}0", most))), None);
}
