//! Little-endian readers and writers for the fixed-width values that borsh
//! lays out back to back, and the discriminator check that precedes an
//! instruction's or event's fields.

use vstd::prelude::*;
use vstd::bytes::*;
use vstd::slice::slice_subrange;

use crate::keys::Pubkey;

verus! {

/// The `n` bytes of `data` that start at `pos`.
pub open spec fn window(data: Seq<u8>, pos: int, n: int) -> Seq<u8> {
    data.subrange(pos, pos + n)
}

/// Whether `n` bytes are available in `data` from `pos` on.
pub open spec fn fits(data: Seq<u8>, pos: int, n: int) -> bool {
    0 <= pos && pos + n <= data.len()
}

/// The little-endian bytes of a signed 64-bit value (two's complement).
pub open spec fn spec_i64_to_le_bytes(x: i64) -> Seq<u8> {
    spec_u64_to_le_bytes(x as u64)
}

/// The signed 64-bit value of eight little-endian bytes.
pub open spec fn spec_i64_from_le_bytes(s: Seq<u8>) -> i64 {
    spec_u64_from_le_bytes(s) as i64
}

/// Whether `data` begins with `prefix`.
pub open spec fn starts_with(data: Seq<u8>, prefix: Seq<u8>) -> bool {
    prefix.len() <= data.len() && data.take(prefix.len() as int) == prefix
}

/// Round trip facts about the little-endian encodings used by the decoders.
pub proof fn lemma_le_roundtrips()
    ensures
        forall|x: u16|
            #![trigger spec_u16_to_le_bytes(x)]
            spec_u16_to_le_bytes(x).len() == 2 && spec_u16_from_le_bytes(spec_u16_to_le_bytes(x))
                == x,
        forall|x: u64|
            #![trigger spec_u64_to_le_bytes(x)]
            spec_u64_to_le_bytes(x).len() == 8 && spec_u64_from_le_bytes(spec_u64_to_le_bytes(x))
                == x,
        forall|x: i64|
            #![trigger spec_i64_to_le_bytes(x)]
            spec_i64_to_le_bytes(x).len() == 8 && spec_i64_from_le_bytes(spec_i64_to_le_bytes(x))
                == x,
        forall|s: Seq<u8>|
            #![trigger spec_u16_to_le_bytes(spec_u16_from_le_bytes(s))]
            s.len() == 2 ==> spec_u16_to_le_bytes(spec_u16_from_le_bytes(s)) == s,
        forall|s: Seq<u8>|
            #![trigger spec_u64_to_le_bytes(spec_u64_from_le_bytes(s))]
            s.len() == 8 ==> spec_u64_to_le_bytes(spec_u64_from_le_bytes(s)) == s,
        forall|s: Seq<u8>|
            #![trigger spec_i64_to_le_bytes(spec_i64_from_le_bytes(s))]
            s.len() == 8 ==> spec_i64_to_le_bytes(spec_i64_from_le_bytes(s)) == s,
{
    lemma_auto_spec_u16_to_from_le_bytes();
    lemma_auto_spec_u64_to_from_le_bytes();
    assert forall|x: i64| #![trigger spec_i64_to_le_bytes(x)]
        spec_i64_to_le_bytes(x).len() == 8 && spec_i64_from_le_bytes(spec_i64_to_le_bytes(x))
            == x by {
        let u = x as u64;
        assert(spec_u64_from_le_bytes(spec_u64_to_le_bytes(u)) == u);
        assert((u as i64) == x) by (bit_vector)
            requires
                u == x as u64,
        ;
    }
    assert forall|s: Seq<u8>| #![trigger spec_i64_to_le_bytes(spec_i64_from_le_bytes(s))]
        s.len() == 8 implies spec_i64_to_le_bytes(spec_i64_from_le_bytes(s)) == s by {
        let u = spec_u64_from_le_bytes(s);
        assert(((u as i64) as u64) == u) by (bit_vector);
        assert(spec_u64_to_le_bytes(spec_u64_from_le_bytes(s)) == s);
    }
}

/// Data framed as a discriminator, a field layout and anything after it
/// starts with the discriminator and holds the layout right after it.
pub proof fn lemma_framed(disc: Seq<u8>, body: Seq<u8>, rest: Seq<u8>)
    ensures
        starts_with(disc + body + rest, disc),
        (disc + body + rest).len() >= disc.len() + body.len(),
        (disc + body + rest).subrange(disc.len() as int, (disc.len() + body.len()) as int) == body,
{
    let data = disc + body + rest;
    assert(data.take(disc.len() as int) =~= disc);
    assert(data.subrange(disc.len() as int, (disc.len() + body.len()) as int) =~= body);
}

/// Reads the byte at `pos`.
pub fn read_u8(data: &[u8], pos: usize) -> (r: Option<u8>)
    ensures
        r == (if pos < data@.len() {
            Some(data@[pos as int])
        } else {
            None::<u8>
        }),
{
    if pos < data.len() {
        Some(data[pos])
    } else {
        None
    }
}

/// Reads a little-endian `u16` from the two bytes at `pos`.
pub fn read_u16_le(data: &[u8], pos: usize) -> (r: Option<u16>)
    ensures
        r == (if fits(data@, pos as int, 2) {
            Some(spec_u16_from_le_bytes(window(data@, pos as int, 2)))
        } else {
            None::<u16>
        }),
{
    let len: usize = data.len();
    if pos <= len && len - pos >= 2 {
        Some(u16_from_le_bytes(slice_subrange(data, pos, pos + 2)))
    } else {
        None
    }
}

/// Reads a little-endian `u64` from the eight bytes at `pos`.
pub fn read_u64_le(data: &[u8], pos: usize) -> (r: Option<u64>)
    ensures
        r == (if fits(data@, pos as int, 8) {
            Some(spec_u64_from_le_bytes(window(data@, pos as int, 8)))
        } else {
            None::<u64>
        }),
{
    let len: usize = data.len();
    if pos <= len && len - pos >= 8 {
        Some(u64_from_le_bytes(slice_subrange(data, pos, pos + 8)))
    } else {
        None
    }
}

/// Reads a little-endian two's-complement `i64` from the eight bytes at `pos`.
pub fn read_i64_le(data: &[u8], pos: usize) -> (r: Option<i64>)
    ensures
        r == (if fits(data@, pos as int, 8) {
            Some(spec_i64_from_le_bytes(window(data@, pos as int, 8)))
        } else {
            None::<i64>
        }),
{
    match read_u64_le(data, pos) {
        Some(u) => Some(u as i64),
        None => None,
    }
}

/// Reads an address from the 32 bytes at `pos`.
pub fn read_pubkey(data: &[u8], pos: usize) -> (r: Option<Pubkey>)
    ensures
        match r {
            Some(k) => fits(data@, pos as int, 32) && k@ == window(data@, pos as int, 32),
            None => !fits(data@, pos as int, 32),
        },
{
    let len: usize = data.len();
    if pos <= len && len - pos >= 32 {
        Some(Pubkey::from_slice_at(data, pos))
    } else {
        None
    }
}

/// Whether `data` begins with the bytes of `prefix`.
pub fn has_prefix(data: &[u8], prefix: &[u8]) -> (r: bool)
    ensures
        r == starts_with(data@, prefix@),
{
    let n: usize = prefix.len();
    if data.len() < n {
        return false;
    }
    let mut i: usize = 0;
    while i < n
        invariant
            i <= n,
            n == prefix@.len(),
            n <= data@.len(),
            forall|j: int| 0 <= j < i ==> data@[j] == prefix@[j],
        decreases n - i,
    {
        if data[i] != prefix[i] {
            assert(data@.take(n as int)[i as int] != prefix@[i as int]);
            return false;
        }
        i = i + 1;
    }
    assert(data@.take(n as int) =~= prefix@);
    true
}

/// The bytes of `data` after `prefix`, when `data` begins with `prefix`.
pub fn after_prefix<'a>(data: &'a [u8], prefix: &[u8]) -> (r: Option<&'a [u8]>)
    ensures
        r is Some <==> starts_with(data@, prefix@),
        r matches Some(rest) ==> rest@ == data@.skip(prefix@.len() as int),
{
    if has_prefix(data, prefix) {
        Some(slice_subrange(data, prefix.len(), data.len()))
    } else {
        None
    }
}

/// Appends the little-endian bytes of `x`.
pub fn write_u16_le(out: &mut Vec<u8>, x: u16)
    ensures
        final(out)@ == old(out)@ + spec_u16_to_le_bytes(x),
{
    let mut b = u16_to_le_bytes(x);
    out.append(&mut b);
}

/// Appends the little-endian bytes of `x`.
pub fn write_u64_le(out: &mut Vec<u8>, x: u64)
    ensures
        final(out)@ == old(out)@ + spec_u64_to_le_bytes(x),
{
    let mut b = u64_to_le_bytes(x);
    out.append(&mut b);
}

} // verus!
