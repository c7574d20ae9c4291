use vstd::prelude::*;

use crate::types::{Address, InsuranceVertical, PolicyId};

verus! {

/// The `n` low-order base-256 digits of `v`, most significant first.
pub open spec fn be_bytes(v: nat, n: nat) -> Seq<u8>
    decreases n,
{
    if n == 0 {
        Seq::empty()
    } else {
        be_bytes(v / 256, (n - 1) as nat).push((v % 256) as u8)
    }
}

/// The unsigned value of the 128 bits of `x` in two's complement.
pub open spec fn i128_bits(x: i128) -> nat {
    if x >= 0 {
        x as nat
    } else {
        (x + 0x1_0000_0000_0000_0000_0000_0000_0000_0000) as nat
    }
}

/// Append the `n` low-order bytes of `v` to `buf`, most significant first.
fn push_be(buf: &mut Vec<u8>, v: u128, n: usize)
    requires
        n <= 16,
    ensures
        final(buf)@ == old(buf)@ + be_bytes(v as nat, n as nat),
{
    let mut digits: Vec<u8> = Vec::new();
    let mut k: usize = 0;
    while k < n
        invariant
            k <= n,
            digits@.len() == k,
        decreases n - k,
    {
        digits.push(0);
        k = k + 1;
    }
    let mut u: u128 = v;
    let mut i: usize = n;
    assert(digits@.subrange(n as int, n as int) =~= Seq::<u8>::empty());
    assert(be_bytes(v as nat, n as nat) =~= be_bytes(u as nat, i as nat) + digits@.subrange(
        i as int,
        n as int,
    ));
    while i > 0
        invariant
            i <= n,
            digits@.len() == n,
            be_bytes(v as nat, n as nat) =~= be_bytes(u as nat, i as nat) + digits@.subrange(
                i as int,
                n as int,
            ),
        decreases i,
    {
        let ghost old_u = u;
        let ghost old_digits = digits@;
        i = i - 1;
        digits.set(i, (u % 256) as u8);
        u = u / 256;
        assert(digits@.subrange(i as int, n as int) =~= seq![(old_u % 256) as u8]
            + old_digits.subrange(i + 1, n as int));
        assert(be_bytes(old_u as nat, (i + 1) as nat) == be_bytes(u as nat, i as nat).push(
            (old_u % 256) as u8,
        ));
    }
    assert(digits@.subrange(0, n as int) =~= digits@);
    let ghost start = buf@;
    let mut j: usize = 0;
    while j < n
        invariant
            j <= n,
            digits@.len() == n,
            buf@ =~= start + digits@.subrange(0, j as int),
        decreases n - j,
    {
        buf.push(digits[j]);
        j = j + 1;
        assert(digits@.subrange(0, j as int) =~= digits@.subrange(0, j - 1).push(
            digits@[j - 1],
        ));
    }
    assert(digits@.subrange(0, n as int) =~= digits@);
}

/// The bits of `x` as an unsigned value.
fn i128_as_bits(x: i128) -> (u: u128)
    ensures
        u as nat == i128_bits(x),
{
    if x >= 0 {
        x as u128
    } else {
        let m: u128 = (-(x + 1)) as u128;
        u128::MAX - m
    }
}

/// The contract-type name of a vertical, as ASCII bytes.
pub open spec fn vertical_name(v: InsuranceVertical) -> Seq<u8> {
    match v {
        InsuranceVertical::CropRainfall => seq![
            67, 114, 111, 112, 82, 97, 105, 110, 102, 97, 108, 108],
        InsuranceVertical::FlightDelay => seq![
            70, 108, 105, 103, 104, 116, 68, 101, 108, 97, 121],
        InsuranceVertical::WindDisaster => seq![
            87, 105, 110, 100, 68, 105, 115, 97, 115, 116, 101, 114],
        InsuranceVertical::EarthquakeDisaster => seq![
            69, 97, 114, 116, 104, 113, 117, 97, 107, 101,
            68, 105, 115, 97, 115, 116, 101, 114],
        InsuranceVertical::FloodDisaster => seq![
            70, 108, 111, 111, 100, 68, 105, 115, 97, 115, 116, 101, 114],
        InsuranceVertical::HealthIndex => seq![
            72, 101, 97, 108, 116, 104, 73, 110, 100, 101, 120],
    }
}

/// Zero bytes that pad a field of `len` bytes to a multiple of four.
pub open spec fn xdr_padding(len: nat) -> Seq<u8> {
    Seq::new(((4 - len % 4) % 4) as nat, |i: int| 0u8)
}

/// XDR encoding of a vertical as a contract value: a vector holding the one
/// symbol that names the variant.
pub open spec fn vertical_xdr(v: InsuranceVertical) -> Seq<u8> {
    let name = vertical_name(v);
    be_bytes(16, 4) + be_bytes(1, 4) + be_bytes(1, 4) + be_bytes(15, 4) + be_bytes(
        name.len(),
        4,
    ) + name + xdr_padding(name.len())
}

fn vertical_name_bytes(v: InsuranceVertical) -> (r: Vec<u8>)
    ensures
        r@ == vertical_name(v),
{
    let r = match v {
        InsuranceVertical::CropRainfall => vec![
            67, 114, 111, 112, 82, 97, 105, 110, 102, 97, 108, 108],
        InsuranceVertical::FlightDelay => vec![
            70, 108, 105, 103, 104, 116, 68, 101, 108, 97, 121],
        InsuranceVertical::WindDisaster => vec![
            87, 105, 110, 100, 68, 105, 115, 97, 115, 116, 101, 114],
        InsuranceVertical::EarthquakeDisaster => vec![
            69, 97, 114, 116, 104, 113, 117, 97, 107, 101,
            68, 105, 115, 97, 115, 116, 101, 114],
        InsuranceVertical::FloodDisaster => vec![
            70, 108, 111, 111, 100, 68, 105, 115, 97, 115, 116, 101, 114],
        InsuranceVertical::HealthIndex => vec![
            72, 101, 97, 108, 116, 104, 73, 110, 100, 101, 120],
    };
    assert(r@ =~= vertical_name(v));
    r
}

/// Append `src` to `buf`.
fn append_bytes(buf: &mut Vec<u8>, src: &Vec<u8>)
    ensures
        final(buf)@ == old(buf)@ + src@,
{
    let ghost start = buf@;
    let mut j: usize = 0;
    while j < src.len()
        invariant
            j <= src@.len(),
            buf@ =~= start + src@.subrange(0, j as int),
        decreases src@.len() - j,
    {
        buf.push(src[j]);
        j = j + 1;
        assert(src@.subrange(0, j as int) =~= src@.subrange(0, j - 1).push(src@[j - 1]));
    }
    assert(src@.subrange(0, src@.len() as int) =~= src@);
}

/// Append the XDR encoding of `v` to `buf`.
pub fn push_vertical_xdr(buf: &mut Vec<u8>, v: InsuranceVertical)
    ensures
        final(buf)@ == old(buf)@ + vertical_xdr(v),
{
    let name = vertical_name_bytes(v);
    let len = name.len();
    let ghost start = buf@;
    push_be(buf, 16, 4);
    push_be(buf, 1, 4);
    push_be(buf, 1, 4);
    push_be(buf, 15, 4);
    push_be(buf, len as u128, 4);
    append_bytes(buf, &name);
    let pad = (4 - len % 4) % 4;
    let ghost before_pad = buf@;
    let mut k: usize = 0;
    while k < pad
        invariant
            k <= pad,
            pad == ((4 - len % 4) % 4) as usize,
            buf@ =~= before_pad + Seq::new(k as nat, |i: int| 0u8),
        decreases pad - k,
    {
        buf.push(0);
        k = k + 1;
    }
    assert(buf@ =~= start + vertical_xdr(v));
}

/// The bytes that a policy id is the digest of: the policyholder's address,
/// the vertical, the payout amount, the due ledger and the current ledger
/// sequence, each in its XDR or big-endian encoding, in that order.
pub open spec fn policy_id_preimage(
    policyholder: Seq<u8>,
    vertical: InsuranceVertical,
    payout_amount: i128,
    due_ledger: u32,
    sequence: u32,
) -> Seq<u8> {
    policyholder + vertical_xdr(vertical) + be_bytes(i128_bits(payout_amount), 16) + be_bytes(
        due_ledger as nat,
        4,
    ) + be_bytes(sequence as nat, 4)
}

/// The minting inputs of a policy, serialised as [`policy_id_preimage`] says.
pub fn policy_id_input(
    policyholder: &Address,
    vertical: InsuranceVertical,
    payout_amount: i128,
    due_ledger: u32,
    sequence: u32,
) -> (r: Vec<u8>)
    ensures
        r@ == policy_id_preimage(policyholder@, vertical, payout_amount, due_ledger, sequence),
{
    let mut buf: Vec<u8> = Vec::new();
    append_bytes(&mut buf, policyholder.to_xdr());
    push_vertical_xdr(&mut buf, vertical);
    push_be(&mut buf, i128_as_bits(payout_amount), 16);
    push_be(&mut buf, due_ledger as u128, 4);
    push_be(&mut buf, sequence as u128, 4);
    assert(buf@ =~= policy_id_preimage(policyholder@, vertical, payout_amount, due_ledger, sequence));
    buf
}

/// The SHA-256 digest of a byte string.
pub uninterp spec fn sha256_digest(data: Seq<u8>) -> Seq<u8>;

/// Calls `sha2::Sha256::digest`. Claims that the 32 bytes returned are the
/// SHA-256 digest of `data`, a function of `data` alone.
#[verifier::external_body]
fn sha256(data: &[u8]) -> (r: [u8; 32])
    ensures
        r@ == sha256_digest(data@),
{
    <sha2::Sha256 as sha2::Digest>::digest(data).into()
}

/// Deterministic policy id: the SHA-256 digest of the minting inputs.
pub fn compute_policy_id(
    policyholder: &Address,
    vertical: InsuranceVertical,
    payout_amount: i128,
    due_ledger: u32,
    sequence: u32,
) -> (id: PolicyId)
    ensures
        id@ == sha256_digest(
            policy_id_preimage(policyholder@, vertical, payout_amount, due_ledger, sequence),
        ),
{
    let input = policy_id_input(policyholder, vertical, payout_amount, due_ledger, sequence);
    sha256(input.as_slice())
}

} // verus!
