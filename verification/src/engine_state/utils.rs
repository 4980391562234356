//! The names under which the proof of stake contract keeps its validators.
//!
//! The contract knows each validator by a name of the form `v_<key>_<stake>`: the public
//! key as 64 hexadecimal digits, and the stake as a decimal number.

use crate::storage::global_state::BondedValidators;
use crate::types::account::NamedKeys;
use crate::types::key::{array32, Key, PublicKey};
use crate::types::vec_map::VecMap;
use crate::types::uint::{radix_pow, U512};
use crate::types::names::{
    lemma_name_order_total, lemma_name_order_transitive, name_before, name_comes_before,
};
use crate::types::contract::ContractView;
use crate::types::value::ValueView;
use vstd::prelude::*;
use vstd::string::StringSliceAdditionalSpecFns;

verus! {

/// The value of a hexadecimal digit, in either case.
pub open spec fn spec_hex_value(c: u8) -> Option<u8> {
    if 48 <= c <= 57 {
        Some((c - 48) as u8)
    } else if 97 <= c <= 102 {
        Some((c - 87) as u8)
    } else if 65 <= c <= 70 {
        Some((c - 55) as u8)
    } else {
        None
    }
}

/// The value of a hexadecimal digit, in either case.
pub fn hex_value(c: u8) -> (r: Option<u8>)
    ensures
        r == spec_hex_value(c),
        r matches Some(v) ==> v < 16,
{
    if 48 <= c && c <= 57 {
        Some(c - 48)
    } else if 97 <= c && c <= 102 {
        Some(c - 87)
    } else if 65 <= c && c <= 70 {
        Some(c - 55)
    } else {
        None
    }
}

/// Whether the 64 bytes of `name` from index 2 on are hexadecimal digits.
pub open spec fn has_hex_key(name: Seq<u8>) -> bool {
    name.len() >= 66 && forall|i: int| 2 <= i < 66 ==> spec_hex_value(#[trigger] name[i]).is_some()
}

/// Byte `i` of the key that the hexadecimal digits of `name` stand for.
pub open spec fn hex_key_byte(name: Seq<u8>, i: int) -> u8 {
    (spec_hex_value(name[2 + 2 * i]).unwrap() * 16 + spec_hex_value(name[3 + 2 * i]).unwrap()) as u8
}

/// The 32 bytes of the key that the hexadecimal digits of `name` stand for.
pub open spec fn hex_key(name: Seq<u8>) -> Seq<u8> {
    Seq::new(32, |i: int| hex_key_byte(name, i))
}

/// Where the stake ends in `name`: at the first underscore from index `from` on, or at the
/// end of the name.
pub open spec fn stake_end(name: Seq<u8>, from: int) -> int
    decreases name.len() - from,
{
    if from < 0 || from >= name.len() || name[from] == 95 {
        from
    } else {
        stake_end(name, from + 1)
    }
}

/// The number that the decimal digits of `digits` stand for, where they are digits and
/// the number stays below `2^512` on the way; no digit stands for zero.
pub open spec fn spec_decimal(digits: Seq<u8>) -> Option<nat>
    decreases digits.len(),
{
    if digits.len() == 0 {
        Some(0)
    } else {
        match spec_decimal(digits.drop_last()) {
            None => None,
            Some(head) => {
                let d = digits.last();
                if 48 <= d <= 57 && head * 10 + (d - 48) < radix_pow(8) {
                    Some((head * 10 + (d - 48)) as nat)
                } else {
                    None
                }
            },
        }
    }
}

/// The validator that a name of the proof of stake contract stands for, given the name in
/// UTF-8: the name begins with `v_`, then come 64 hexadecimal digits and an underscore,
/// then the stake in decimal digits, up to the next underscore or the end of the name.
pub open spec fn spec_validator_of(name: Seq<u8>) -> Option<(PublicKey, nat)> {
    if name.len() >= 67 && name[0] == 118 && name[1] == 95 && has_hex_key(name) && name[66]
        == 95 {
        match spec_decimal(name.subrange(67, stake_end(name, 67))) {
            Some(stake) => Some(
                (PublicKey(array32(hex_key(name))), stake),
            ),
            None => None,
        }
    } else {
        None
    }
}

/// `stake_end` lies between its start and the end of the name.
pub proof fn lemma_stake_end_bounds(name: Seq<u8>, from: int)
    requires
        0 <= from <= name.len(),
    ensures
        from <= stake_end(name, from) <= name.len(),
    decreases name.len() - from,
{
    if from < name.len() && name[from] != 95 {
        lemma_stake_end_bounds(name, from + 1);
    }
}

/// The validator that a name of the proof of stake contract stands for.
#[verifier::loop_isolation(false)]
pub fn pos_validator_to_tuple(pos_bond: &str) -> (r: Option<(PublicKey, U512)>)
    ensures
        match r {
            Some((key, stake)) => spec_validator_of(pos_bond.spec_bytes()) == Some((key, stake@)),
            None => spec_validator_of(pos_bond.spec_bytes()).is_none(),
        },
{
    let name = pos_bond.as_bytes();
    if name.len() < 67 || name[0] != 118 || name[1] != 95 {
        return None;
    }
    let mut key = [0u8; 32];
    let mut i: usize = 0;
    while i < 32
        invariant
            i <= 32,
            name@.len() >= 67,
            forall|j: int| 2 <= j < 2 + 2 * i ==> spec_hex_value(#[trigger] name@[j]).is_some(),
            forall|j: int| 0 <= j < i ==> key@[j] == hex_key_byte(name@, j),
        decreases 32 - i,
    {
        let high = match hex_value(name[2 + 2 * i]) {
            Some(v) => v,
            None => {
                return None;
            },
        };
        let low = match hex_value(name[3 + 2 * i]) {
            Some(v) => v,
            None => {
                return None;
            },
        };
        key[i] = high * 16 + low;
        i += 1;
    }
    if name[66] != 95 {
        return None;
    }
    let mut stake = U512::zero();
    let mut at: usize = 67;
    proof {
        assert(name@.subrange(67, 67) =~= Seq::<u8>::empty());
    }
    while at < name.len() && name[at] != 95
        invariant
            67 <= at <= name@.len(),
            stake_end(name@, 67) == stake_end(name@, at as int),
            spec_decimal(name@.subrange(67, at as int)) == Some(stake@),
        decreases name.len() - at,
    {
        let d = name[at];
        proof {
            assert(name@.subrange(67, at + 1).drop_last() =~= name@.subrange(67, at as int));
            lemma_stake_end_bounds(name@, at + 1);
            let rest = stake_end(name@, at + 1);
            assert(name@.subrange(67, rest).take(at + 1 - 67) =~= name@.subrange(67, at + 1));
        }
        if d < 48 || d > 57 {
            proof {
                lemma_decimal_fails_on(name@.subrange(67, stake_end(name@, 67)), at + 1 - 67);
            }
            return None;
        }
        let next = match stake.checked_mul_u64(10) {
            Some(tenfold) => tenfold.checked_add(&U512::from_u64((d - 48) as u64)),
            None => None,
        };
        stake = match next {
            Some(next) => next,
            None => {
                proof {
                    assert(stake@ * 10 + (d - 48) >= radix_pow(8)) by (nonlinear_arith)
                        requires
                            stake@ * 10 >= radix_pow(8) || stake@ * 10 + (d - 48) >= radix_pow(8),
                            d >= 48,
                    ;
                    lemma_decimal_fails_on(name@.subrange(67, stake_end(name@, 67)), at + 1 - 67);
                }
                return None;
            },
        };
        at += 1;
    }
    proof {
        assert(key@ =~= hex_key(name@));
        assert(key =~= array32(hex_key(name@)));
    }
    Some((PublicKey::new(key), stake))
}

/// Where the digits of a prefix stand for no number, the digits of the whole stand for
/// none.
pub proof fn lemma_decimal_fails_on(digits: Seq<u8>, n: int)
    requires
        0 <= n <= digits.len(),
        spec_decimal(digits.take(n)).is_none(),
    ensures
        spec_decimal(digits).is_none(),
    decreases digits.len() - n,
{
    if n < digits.len() {
        assert(digits.take(n + 1).drop_last() =~= digits.take(n));
        lemma_decimal_fails_on(digits, n + 1);
    } else {
        assert(digits.take(n) =~= digits);
    }
}

/// The contract that `state` holds under `key`, if it holds one there.
pub open spec fn contract_at(state: Map<Key, ValueView>, key: Key) -> Option<ContractView> {
    if state.contains_key(key.spec_normalize()) {
        match state[key.spec_normalize()] {
            ValueView::Contract(contract) => Some(contract),
            _ => None,
        }
    } else {
        None
    }
}

/// The validator that the name `name` stands for.
pub open spec fn validator_named(name: Seq<char>) -> Option<(PublicKey, nat)> {
    spec_validator_of(vstd::utf8::encode_utf8(name))
}

/// Whether `name` stands for a validator with the key `key`.
pub open spec fn names_validator(name: Seq<char>, key: PublicKey) -> bool {
    validator_named(name) matches Some(found) && found.0 == key
}

/// Whether `name` is the last name of `named_keys`, in the order of names, that stands for
/// a validator with the key `key`.
pub open spec fn is_last_name_of(
    named_keys: Map<Seq<char>, Key>,
    key: PublicKey,
    name: Seq<char>,
) -> bool {
    &&& named_keys.contains_key(name)
    &&& names_validator(name, key)
    &&& forall|other: Seq<char>|
        named_keys.contains_key(other) && #[trigger] names_validator(other, key) ==> !name_before(
            name,
            other,
        )
}

/// Whether `validators` holds the validators that the names of `named_keys` stand for:
/// every name that stands for a validator gives its key a stake, no other key has one,
/// and where several names stand for one key, the stake is that of the last of them in the
/// order of names.
pub open spec fn is_validators_of(
    validators: Map<PublicKey, nat>,
    named_keys: Map<Seq<char>, Key>,
) -> bool {
    &&& forall|name: Seq<char>| #[trigger]
        named_keys.contains_key(name) ==> (validator_named(name) matches Some(found)
            ==> validators.contains_key(found.0))
    &&& forall|key: PublicKey| #[trigger]
        validators.contains_key(key) ==> exists|name: Seq<char>| #[trigger]
            is_last_name_of(named_keys, key, name) && validator_named(name) == Some(
                (key, validators[key]),
            )
}

/// Whether `names[w]` is the last of the first `i` names, in the order of names, that
/// stands for a validator with the key `key`.
pub open spec fn is_last_among(names: Seq<Seq<char>>, i: int, key: PublicKey, w: int) -> bool {
    &&& 0 <= w < i
    &&& names_validator(names[w], key)
    &&& forall|j: int|
        0 <= j < i && names_validator(#[trigger] names[j], key) ==> !name_before(names[w], names[j])
}

/// The validators that the names of `named_keys` stand for, with their stakes.
pub fn collect_validators(named_keys: &NamedKeys) -> (r: BondedValidators)
    ensures
        is_validators_of(r@, named_keys@),
{
    let mut validators: BondedValidators = VecMap::new();
    let mut winners: VecMap<PublicKey, usize> = VecMap::new();
    let n = named_keys.len();
    let mut i: usize = 0;
    proof {
        named_keys.lemma_entries();
    }
    while i < n
        invariant
            i <= n,
            n == named_keys.ids().len(),
            named_keys.wf(),
            winners@.dom() =~= validators@.dom(),
            forall|j: int|
                0 <= j < i ==> (validator_named(#[trigger] named_keys.ids()[j]) matches Some(found)
                    ==> validators@.contains_key(found.0)),
            forall|key: PublicKey| #[trigger]
                validators@.contains_key(key) ==> is_last_among(
                    named_keys.ids(),
                    i as int,
                    key,
                    winners@[key] as int,
                ) && validator_named(named_keys.ids()[winners@[key] as int]) == Some(
                    (key, validators@[key]),
                ),
        decreases n - i,
    {
        let name = named_keys.key_at(i);
        let ghost names = named_keys.ids();
        let ghost old_validators = validators@;
        let ghost old_winners = winners@;
        match pos_validator_to_tuple(name.as_str()) {
            Some((key, stake)) => {
                let replace = match winners.get(&key) {
                    None => true,
                    Some(w) => name_comes_before(named_keys.key_at(*w).as_str(), name.as_str()),
                };
                if replace {
                    validators.insert(key, stake);
                    winners.insert(key, i);
                }
                proof {
                    lemma_name_order_total(names[i as int], names[i as int]);
                    assert forall|other: PublicKey| #[trigger]
                        validators@.contains_key(other) implies is_last_among(
                        names,
                        i + 1,
                        other,
                        winners@[other] as int,
                    ) && validator_named(names[winners@[other] as int]) == Some(
                        (other, validators@[other]),
                    ) by {
                        if other == key {
                            if old_validators.contains_key(key) {
                                let w = old_winners[key] as int;
                                assert(is_last_among(names, i as int, key, w));
                                if replace {
                                    assert forall|j: int|
                                        0 <= j < i + 1 && names_validator(
                                            #[trigger] names[j],
                                            key,
                                        ) implies !name_before(names[i as int], names[j]) by {
                                        if j < i && name_before(names[i as int], names[j]) {
                                            lemma_name_order_transitive(
                                                names[w],
                                                names[i as int],
                                                names[j],
                                            );
                                        }
                                    }
                                }
                            } else {
                                assert forall|j: int|
                                    0 <= j < i + 1 && names_validator(
                                        #[trigger] names[j],
                                        key,
                                    ) implies j == i by {
                                    if j < i {
                                        assert(old_validators.contains_key(key));
                                    }
                                }
                            }
                        } else {
                            assert(old_validators.contains_key(other));
                            assert(is_last_among(
                                names,
                                i as int,
                                other,
                                old_winners[other] as int,
                            ));
                        }
                    }
                }
            },
            None => {
                proof {
                    assert forall|other: PublicKey| #[trigger]
                        validators@.contains_key(other) implies is_last_among(
                        names,
                        i + 1,
                        other,
                        winners@[other] as int,
                    ) by {
                        assert(is_last_among(names, i as int, other, winners@[other] as int));
                    }
                }
            },
        }
        i += 1;
    }
    proof {
        named_keys.lemma_entries();
        let names = named_keys.ids();
        assert forall|name: Seq<char>| #[trigger] named_keys@.contains_key(name) implies (
        validator_named(name) matches Some(found) ==> validators@.contains_key(found.0)) by {
            let j = names.index_of(name);
            assert(names[j] == name);
        }
        assert forall|key: PublicKey| #[trigger] validators@.contains_key(key) implies exists|
            name: Seq<char>,
        | #[trigger]
            is_last_name_of(named_keys@, key, name) && validator_named(name) == Some(
                (key, validators@[key]),
            ) by {
            let w = winners@[key] as int;
            assert(is_last_among(names, n as int, key, w));
            assert(named_keys@.contains_key(names[w]));
            assert forall|other: Seq<char>|
                named_keys@.contains_key(other) && #[trigger] names_validator(
                    other,
                    key,
                ) implies !name_before(names[w], other) by {
                let j = names.index_of(other);
                assert(names[j] == other);
            }
            assert(is_last_name_of(named_keys@, key, names[w]));
        }
    }
    validators
}

/// The names decide the stakes: two maps that hold the validators of the same names are
/// the same map.
pub proof fn lemma_validators_are_decided(
    first: Map<PublicKey, nat>,
    second: Map<PublicKey, nat>,
    named_keys: Map<Seq<char>, Key>,
)
    requires
        is_validators_of(first, named_keys),
        is_validators_of(second, named_keys),
    ensures
        first == second,
{
    assert forall|key: PublicKey| first.contains_key(key) implies second.contains_key(key)
        && first[key] == second[key] by {
        lemma_validators_agree(first, second, named_keys, key);
    }
    assert forall|key: PublicKey| second.contains_key(key) implies first.contains_key(key) by {
        lemma_validators_agree(second, first, named_keys, key);
    }
    assert(first =~= second);
}

/// A key that one map of the validators of some names holds, every such map holds, with
/// the same stake.
pub proof fn lemma_validators_agree(
    first: Map<PublicKey, nat>,
    second: Map<PublicKey, nat>,
    named_keys: Map<Seq<char>, Key>,
    key: PublicKey,
)
    requires
        is_validators_of(first, named_keys),
        is_validators_of(second, named_keys),
        first.contains_key(key),
    ensures
        second.contains_key(key),
        first[key] == second[key],
{
    let a = choose|name: Seq<char>| #[trigger]
        is_last_name_of(named_keys, key, name) && validator_named(name) == Some((key, first[key]));
    assert(named_keys.contains_key(a));
    assert(second.contains_key(key));
    let b = choose|name: Seq<char>| #[trigger]
        is_last_name_of(named_keys, key, name) && validator_named(name) == Some(
            (key, second[key]),
        );
    lemma_name_order_total(a, b);
    assert(names_validator(a, key));
    assert(names_validator(b, key));
}

} // verus!
