//! The canonical form of values as bytes: numbers with their least significant byte first,
//! what varies in length behind a count of four bytes.

use crate::types::key::{PublicKey, URef};
use crate::types::uint::U512;
use vstd::prelude::*;

verus! {

/// The four bytes of `v`, least significant first.
pub open spec fn u32_le(v: u32) -> Seq<u8> {
    seq![
        (v % 256) as u8,
        ((v / 256) % 256) as u8,
        ((v / 65536) % 256) as u8,
        ((v / 16777216) % 256) as u8,
    ]
}

/// The eight bytes of `v`, least significant first.
pub open spec fn u64_le(v: u64) -> Seq<u8> {
    seq![
        (v % 256) as u8,
        ((v / 0x100) % 256) as u8,
        ((v / 0x1_0000) % 256) as u8,
        ((v / 0x100_0000) % 256) as u8,
        ((v / 0x1_0000_0000) % 256) as u8,
        ((v / 0x100_0000_0000) % 256) as u8,
        ((v / 0x1_0000_0000_0000) % 256) as u8,
        ((v / 0x100_0000_0000_0000) % 256) as u8,
    ]
}

/// Appends the four bytes of `v`, least significant first.
pub fn push_u32_le(out: &mut Vec<u8>, v: u32)
    ensures
        final(out)@ == old(out)@ + u32_le(v),
{
    out.push((v % 256) as u8);
    out.push(((v / 256) % 256) as u8);
    out.push(((v / 65536) % 256) as u8);
    out.push(((v / 16777216) % 256) as u8);
    assert(out@ =~= old(out)@ + u32_le(v));
}

/// Appends the eight bytes of `v`, least significant first.
pub fn push_u64_le(out: &mut Vec<u8>, v: u64)
    ensures
        final(out)@ == old(out)@ + u64_le(v),
{
    out.push((v % 256) as u8);
    out.push(((v / 0x100) % 256) as u8);
    out.push(((v / 0x1_0000) % 256) as u8);
    out.push(((v / 0x100_0000) % 256) as u8);
    out.push(((v / 0x1_0000_0000) % 256) as u8);
    out.push(((v / 0x100_0000_0000) % 256) as u8);
    out.push(((v / 0x1_0000_0000_0000) % 256) as u8);
    out.push(((v / 0x100_0000_0000_0000) % 256) as u8);
    assert(out@ =~= old(out)@ + u64_le(v));
}

/// The bytes of `limbs`, least significant first.
pub open spec fn limbs_le(limbs: Seq<u64>) -> Seq<u8>
    decreases limbs.len(),
{
    if limbs.len() == 0 {
        Seq::empty()
    } else {
        limbs_le(limbs.drop_last()) + u64_le(limbs.last())
    }
}

/// `bytes` without the zero bytes at its end.
pub open spec fn trim_zeros(bytes: Seq<u8>) -> Seq<u8>
    decreases bytes.len(),
{
    if bytes.len() > 0 && bytes.last() == 0 {
        trim_zeros(bytes.drop_last())
    } else {
        bytes
    }
}

/// A number of 512 bits as bytes: the count of the bytes that follow, in one byte, then
/// the bytes of the number, least significant first, up to its last byte that is not zero.
pub open spec fn u512_bytes(value: U512) -> Seq<u8> {
    let magnitude = trim_zeros(limbs_le(value.spec_limbs()));
    seq![magnitude.len() as u8] + magnitude
}

/// Appends a number of 512 bits.
pub fn push_u512(out: &mut Vec<u8>, value: &U512)
    ensures
        final(out)@ == old(out)@ + u512_bytes(*value),
{
    let limbs = value.limbs();
    let mut all: Vec<u8> = Vec::new();
    let mut i: usize = 0;
    assert(limbs@.take(0) =~= Seq::<u64>::empty());
    while i < 8
        invariant
            i <= 8,
            limbs@.len() == 8,
            all@ == limbs_le(limbs@.take(i as int)),
            all@.len() == 8 * i,
        decreases 8 - i,
    {
        push_u64_le(&mut all, limbs[i]);
        proof {
            assert(limbs@.take(i + 1).drop_last() =~= limbs@.take(i as int));
        }
        i += 1;
    }
    assert(limbs@.take(8) =~= limbs@);
    let mut n: usize = all.len();
    assert(all@.take(n as int) =~= all@);
    while n > 0 && all[n - 1] == 0
        invariant
            n <= all.len(),
            all.len() == 64,
            trim_zeros(all@) == trim_zeros(all@.take(n as int)),
        decreases n,
    {
        proof {
            assert(all@.take(n as int).drop_last() =~= all@.take(n - 1));
        }
        n -= 1;
    }
    proof {
        assert(all@.take(0) =~= Seq::<u8>::empty());
        assert(trim_zeros(all@.take(n as int)) == all@.take(n as int));
    }
    out.push(n as u8);
    let mut j: usize = 0;
    while j < n
        invariant
            j <= n,
            n <= all.len(),
            all.len() == 64,
            out@ == old(out)@ + seq![n as u8] + all@.take(j as int),
        decreases n - j,
    {
        out.push(all[j]);
        assert((old(out)@ + seq![n as u8] + all@.take(j as int)).push(all@[j as int]) =~= old(
            out,
        )@ + seq![n as u8] + all@.take(j + 1));
        j += 1;
    }
    assert(out@ =~= old(out)@ + u512_bytes(*value));
}

/// An address of 32 bytes as bytes: the bytes themselves.
pub fn push_bytes32(out: &mut Vec<u8>, bytes: &[u8; 32])
    ensures
        final(out)@ == old(out)@ + bytes@,
{
    let mut i: usize = 0;
    while i < 32
        invariant
            i <= 32,
            out@ == old(out)@ + bytes@.take(i as int),
        decreases 32 - i,
    {
        out.push(bytes[i]);
        assert((old(out)@ + bytes@.take(i as int)).push(bytes@[i as int]) =~= old(out)@
            + bytes@.take(i + 1));
        i += 1;
    }
    assert(bytes@.take(32) =~= bytes@);
}

/// An unforgeable reference as bytes: its address, then a byte that says whether rights
/// follow, then the rights as a bit mask, where there are any.
pub open spec fn uref_bytes(uref: URef) -> Seq<u8> {
    uref.addr@ + (match uref.access_rights {
        Some(rights) => seq![1u8, rights.spec_bits()],
        None => seq![0u8],
    })
}

/// Appends an unforgeable reference.
pub fn push_uref(out: &mut Vec<u8>, uref: &URef)
    ensures
        final(out)@ == old(out)@ + uref_bytes(*uref),
{
    push_bytes32(out, &uref.addr);
    match uref.access_rights {
        Some(rights) => {
            out.push(1);
            out.push(rights.bits());
        },
        None => {
            out.push(0);
        },
    }
    assert(out@ =~= old(out)@ + uref_bytes(*uref));
}

/// A string as bytes: the count of its bytes, then its bytes in UTF-8.
pub open spec fn str_bytes(s: Seq<u8>) -> Seq<u8> {
    u32_le(s.len() as u32) + s
}

/// Appends `bytes` behind the count of its bytes. Fails, and appends nothing, where the
/// count does not fit in four bytes.
pub fn push_prefixed(out: &mut Vec<u8>, bytes: &[u8]) -> (r: bool)
    ensures
        r == (bytes@.len() <= u32::MAX),
        r ==> final(out)@ == old(out)@ + str_bytes(bytes@),
        !r ==> final(out)@ == old(out)@,
{
    if bytes.len() > u32::MAX as usize {
        return false;
    }
    push_u32_le(out, bytes.len() as u32);
    let mut i: usize = 0;
    while i < bytes.len()
        invariant
            i <= bytes.len(),
            out@ == old(out)@ + u32_le(bytes@.len() as u32) + bytes@.take(i as int),
        decreases bytes.len() - i,
    {
        out.push(bytes[i]);
        assert((old(out)@ + u32_le(bytes@.len() as u32) + bytes@.take(i as int)).push(
            bytes@[i as int],
        ) =~= old(out)@ + u32_le(bytes@.len() as u32) + bytes@.take(i + 1));
        i += 1;
    }
    assert(bytes@.take(bytes@.len() as int) =~= bytes@);
    assert(out@ =~= old(out)@ + str_bytes(bytes@));
    true
}

/// The arguments of a call as bytes: the count of the arguments, then each argument behind
/// the count of its bytes.
pub open spec fn args_bytes(args: Seq<Seq<u8>>) -> Seq<u8> {
    u32_le(args.len() as u32) + args_payload(args)
}

/// The arguments one after the other, each behind the count of its bytes.
pub open spec fn args_payload(args: Seq<Seq<u8>>) -> Seq<u8>
    decreases args.len(),
{
    if args.len() == 0 {
        Seq::empty()
    } else {
        args_payload(args.drop_last()) + str_bytes(args.last())
    }
}

/// Whether the arguments can be written: their count and the length of each fit in four
/// bytes.
pub open spec fn args_fit(args: Seq<Seq<u8>>) -> bool {
    args.len() <= u32::MAX && forall|i: int| 0 <= i < args.len() ==> (#[trigger] args[i]).len()
        <= u32::MAX
}

/// The lists of bytes of `args`.
pub open spec fn arg_views(args: Seq<Vec<u8>>) -> Seq<Seq<u8>> {
    Seq::new(args.len(), |i: int| args[i]@)
}

/// The arguments of a call as bytes, where they can be written.
pub fn serialize_args(args: &Vec<Vec<u8>>) -> (r: Option<Vec<u8>>)
    ensures
        args_fit(arg_views(args@)) ==> r.is_some() && r.unwrap()@ == args_bytes(arg_views(args@)),
        !args_fit(arg_views(args@)) ==> r.is_none(),
{
    let ghost views = arg_views(args@);
    if args.len() > u32::MAX as usize {
        return None;
    }
    let mut out: Vec<u8> = Vec::new();
    push_u32_le(&mut out, args.len() as u32);
    let mut i: usize = 0;
    assert(views.take(0) =~= Seq::<Seq<u8>>::empty());
    assert(out@ =~= u32_le(args.len() as u32) + args_payload(views.take(0)));
    while i < args.len()
        invariant
            i <= args.len(),
            views == arg_views(args@),
            forall|j: int| 0 <= j < i ==> (#[trigger] views[j]).len() <= u32::MAX,
            out@ == u32_le(args.len() as u32) + args_payload(views.take(i as int)),
        decreases args.len() - i,
    {
        let ghost before = out@;
        let ok = push_prefixed(&mut out, args[i].as_slice());
        if !ok {
            assert(views[i as int] == args@[i as int]@);
            return None;
        }
        proof {
            assert(views.take(i + 1).drop_last() =~= views.take(i as int));
            assert(views.take(i + 1).last() == args@[i as int]@);
            assert(out@ =~= u32_le(args.len() as u32) + args_payload(views.take(i + 1)));
        }
        i += 1;
    }
    assert(views.take(args.len() as int) =~= views);
    Some(out)
}

/// A public key as bytes: its 32 bytes.
pub open spec fn public_key_bytes(key: PublicKey) -> Seq<u8> {
    key.0@
}

} // verus!
