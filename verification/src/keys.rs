//! Account addresses and transaction signatures as fixed-size byte arrays.

use vstd::prelude::*;

verus! {

/// Number of bytes in an account address.
pub const PUBKEY_BYTES: usize = 32;

/// Number of bytes in a transaction signature.
pub const SIGNATURE_BYTES: usize = 64;

/// The all-zero byte sequence of the given length.
pub open spec fn zeros(n: nat) -> Seq<u8> {
    Seq::new(n, |i: int| 0u8)
}

/// A 32-byte account address.
#[derive(Clone, Copy, Debug, PartialEq, Eq, Hash)]
pub struct Pubkey {
    pub bytes: [u8; 32],
}

impl View for Pubkey {
    type V = Seq<u8>;

    open spec fn view(&self) -> Seq<u8> {
        self.bytes@
    }
}

/// A 64-byte transaction signature.
#[derive(Clone, Copy, Debug, PartialEq, Eq, Hash)]
pub struct Signature {
    pub bytes: [u8; 64],
}

impl View for Signature {
    type V = Seq<u8>;

    open spec fn view(&self) -> Seq<u8> {
        self.bytes@
    }
}

/// Two addresses with the same bytes are the same address.
pub proof fn lemma_pubkey_view_injective(a: Pubkey, b: Pubkey)
    requires
        a@ == b@,
    ensures
        a == b,
{
    broadcast use vstd::array::group_array_axioms;

    assert(a.bytes =~= b.bytes);
}

/// Two signatures with the same bytes are the same signature.
pub proof fn lemma_signature_view_injective(a: Signature, b: Signature)
    requires
        a@ == b@,
    ensures
        a == b,
{
    broadcast use vstd::array::group_array_axioms;

    assert(a.bytes =~= b.bytes);
}

/// Copies 32 bytes of `data` starting at `pos` into an array.
fn copy_32(data: &[u8], pos: usize) -> (out: [u8; 32])
    requires
        pos + 32 <= data@.len(),
    ensures
        out@ == data@.subrange(pos as int, pos + 32),
{
    let len: usize = data.len();
    let mut out = [0u8; 32];
    let mut i: usize = 0;
    while i < 32
        invariant
            i <= 32,
            pos + 32 <= data@.len(),
            len == data@.len(),
            out@.len() == 32,
            forall|j: int| 0 <= j < i ==> out@[j] == data@[pos + j],
        decreases 32 - i,
    {
        out[i] = data[pos + i];
        i = i + 1;
    }
    assert(out@ =~= data@.subrange(pos as int, pos + 32));
    out
}

/// Copies 64 bytes of `data` starting at `pos` into an array.
fn copy_64(data: &[u8], pos: usize) -> (out: [u8; 64])
    requires
        pos + 64 <= data@.len(),
    ensures
        out@ == data@.subrange(pos as int, pos + 64),
{
    let len: usize = data.len();
    let mut out = [0u8; 64];
    let mut i: usize = 0;
    while i < 64
        invariant
            i <= 64,
            pos + 64 <= data@.len(),
            len == data@.len(),
            out@.len() == 64,
            forall|j: int| 0 <= j < i ==> out@[j] == data@[pos + j],
        decreases 64 - i,
    {
        out[i] = data[pos + i];
        i = i + 1;
    }
    assert(out@ =~= data@.subrange(pos as int, pos + 64));
    out
}

/// Compares two byte arrays of the same length element by element.
pub fn same_bytes(a: &[u8], b: &[u8]) -> (r: bool)
    ensures
        r == (a@ == b@),
{
    let n: usize = a.len();
    if n != b.len() {
        return false;
    }
    let mut i: usize = 0;
    while i < n
        invariant
            i <= n,
            n == a@.len(),
            n == b@.len(),
            forall|j: int| 0 <= j < i ==> a@[j] == b@[j],
        decreases n - i,
    {
        if a[i] != b[i] {
            return false;
        }
        i = i + 1;
    }
    assert(a@ =~= b@);
    true
}

impl Pubkey {
    /// The address made of the given bytes.
    pub fn new_from_array(bytes: [u8; 32]) -> (k: Pubkey)
        ensures
            k.bytes == bytes,
    {
        Pubkey { bytes }
    }

    /// The bytes of the address.
    pub fn to_bytes(&self) -> (b: [u8; 32])
        ensures
            b == self.bytes,
    {
        self.bytes
    }

    /// Reads an address from the 32 bytes of `data` that start at `pos`.
    pub fn from_slice_at(data: &[u8], pos: usize) -> (k: Pubkey)
        requires
            pos + 32 <= data@.len(),
        ensures
            k@ == data@.subrange(pos as int, pos + 32),
    {
        Pubkey { bytes: copy_32(data, pos) }
    }

    /// Converts a byte vector into an address: succeeds exactly when the
    /// vector holds 32 bytes, and hands the vector back otherwise.
    pub fn try_from_vec(bytes: Vec<u8>) -> (r: Result<Pubkey, Vec<u8>>)
        ensures
            match r {
                Ok(k) => bytes@.len() == 32 && k@ == bytes@,
                Err(v) => bytes@.len() != 32 && v@ == bytes@,
            },
    {
        if bytes.len() == 32 {
            let k = Pubkey::from_slice_at(bytes.as_slice(), 0);
            assert(bytes@.subrange(0, 32) =~= bytes@);
            Ok(k)
        } else {
            Err(bytes)
        }
    }

    /// Whether two addresses hold the same bytes.
    pub fn same_as(&self, other: &Pubkey) -> (r: bool)
        ensures
            r == (self@ == other@),
    {
        same_bytes(self.bytes.as_slice(), other.bytes.as_slice())
    }
}

impl Default for Pubkey {
    /// The all-zero address.
    fn default() -> (k: Pubkey)
        ensures
            k@ == zeros(32),
    {
        let k = Pubkey { bytes: [0u8; 32] };
        assert(k@ =~= zeros(32));
        k
    }
}

/// The address of the system program (the all-zero address, written
/// `11111111111111111111111111111111` in base 58).
pub fn system_program_id() -> (k: Pubkey)
    ensures
        k@ == zeros(32),
{
    Pubkey::default()
}

impl Signature {
    /// Converts a byte vector into a signature: succeeds exactly when the
    /// vector holds 64 bytes, and hands the vector back otherwise.
    pub fn try_from_vec(bytes: Vec<u8>) -> (r: Result<Signature, Vec<u8>>)
        ensures
            match r {
                Ok(s) => bytes@.len() == 64 && s@ == bytes@,
                Err(v) => bytes@.len() != 64 && v@ == bytes@,
            },
    {
        if bytes.len() == 64 {
            let s = Signature { bytes: copy_64(bytes.as_slice(), 0) };
            assert(bytes@.subrange(0, 64) =~= bytes@);
            Ok(s)
        } else {
            Err(bytes)
        }
    }
}

} // verus!
