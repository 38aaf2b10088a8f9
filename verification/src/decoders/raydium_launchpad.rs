//! Raydium launchpad program: the fee side of an AMM pool and the transfer
//! fee extension parameters, with their borsh encodings.

use vstd::prelude::*;
use vstd::bytes::*;

use crate::codec::{read_u16_le, read_u64_le, read_u8, write_u16_le, write_u64_le, lemma_le_roundtrips};

verus! {

/// Which side of an AMM pool its fees are taken on.
#[derive(Debug, PartialEq, Eq, Clone, Copy, Hash)]
pub enum AmmFeeOn {
    Quote,
    Both,
}

/// Transfer fee settings of a token-2022 mint.
#[derive(Debug, PartialEq, Eq, Clone, Copy, Hash)]
pub struct TransferFeeExtensionParams {
    pub transfer_fee_basis_points: u16,
    pub max_fee: u64,
}

impl AmmFeeOn {
    /// The borsh encoding: one tag byte, 0 for `Quote` and 1 for `Both`.
    pub open spec fn spec_encode(self) -> Seq<u8> {
        match self {
            AmmFeeOn::Quote => seq![0u8],
            AmmFeeOn::Both => seq![1u8],
        }
    }

    /// What borsh reads from the front of `s`: the value and the number of
    /// bytes it took, or `None` for a missing or unknown tag.
    pub open spec fn spec_decode(s: Seq<u8>) -> Option<(AmmFeeOn, usize)> {
        if s.len() >= 1 && s[0] == 0u8 {
            Some((AmmFeeOn::Quote, 1usize))
        } else if s.len() >= 1 && s[0] == 1u8 {
            Some((AmmFeeOn::Both, 1usize))
        } else {
            None
        }
    }

    /// Encodes the value as borsh does.
    pub fn serialize(&self) -> (out: Vec<u8>)
        ensures
            out@ == self.spec_encode(),
    {
        let mut out: Vec<u8> = Vec::new();
        match self {
            AmmFeeOn::Quote => out.push(0u8),
            AmmFeeOn::Both => out.push(1u8),
        }
        assert(out@ =~= self.spec_encode());
        out
    }

    /// Reads a value from the front of `data` as borsh does, with the number
    /// of bytes read.
    pub fn deserialize(data: &[u8]) -> (r: Option<(AmmFeeOn, usize)>)
        ensures
            r == Self::spec_decode(data@),
    {
        let tag = read_u8(data, 0)?;
        if tag == 0 {
            Some((AmmFeeOn::Quote, 1))
        } else if tag == 1 {
            Some((AmmFeeOn::Both, 1))
        } else {
            None
        }
    }

    /// Reads a value that must take up all of `data`.
    pub fn try_from_slice(data: &[u8]) -> (r: Option<AmmFeeOn>)
        ensures
            r == (match Self::spec_decode(data@) {
                Some((v, n)) => if n == data@.len() {
                    Some(v)
                } else {
                    None::<AmmFeeOn>
                },
                None => None::<AmmFeeOn>,
            }),
    {
        let (v, n) = Self::deserialize(data)?;
        if n == data.len() {
            Some(v)
        } else {
            None
        }
    }

    /// Reading back an encoding, whatever follows it, gives the value and
    /// the encoding's length.
    pub proof fn lemma_encode_decode(x: AmmFeeOn, rest: Seq<u8>)
        ensures
            Self::spec_decode(x.spec_encode() + rest) == Some((x, x.spec_encode().len() as usize)),
    {
    }

    /// What is read is exactly the encoding of the value read.
    pub proof fn lemma_decode_encode(s: Seq<u8>)
        ensures
            Self::spec_decode(s) matches Some((x, n)) ==> x.spec_encode() == s.take(n as int),
    {
        if Self::spec_decode(s) is Some {
            assert(s.take(1) =~= seq![s[0]]);
        }
    }
}

impl TransferFeeExtensionParams {
    /// The borsh encoding: the basis points, then the maximum fee, both
    /// little-endian.
    pub open spec fn spec_encode(self) -> Seq<u8> {
        spec_u16_to_le_bytes(self.transfer_fee_basis_points) + spec_u64_to_le_bytes(self.max_fee)
    }

    /// What borsh reads from the front of `s`: the value and the ten bytes it
    /// took, or `None` when fewer than ten bytes are there.
    pub open spec fn spec_decode(s: Seq<u8>) -> Option<(TransferFeeExtensionParams, usize)> {
        if s.len() >= 10 {
            Some(
                (
                    TransferFeeExtensionParams {
                        transfer_fee_basis_points: spec_u16_from_le_bytes(s.subrange(0, 2)),
                        max_fee: spec_u64_from_le_bytes(s.subrange(2, 10)),
                    },
                    10usize,
                ),
            )
        } else {
            None
        }
    }

    /// Encodes the value as borsh does.
    pub fn serialize(&self) -> (out: Vec<u8>)
        ensures
            out@ == self.spec_encode(),
    {
        let mut out: Vec<u8> = Vec::new();
        write_u16_le(&mut out, self.transfer_fee_basis_points);
        write_u64_le(&mut out, self.max_fee);
        assert(out@ =~= self.spec_encode());
        out
    }

    /// Reads a value from the front of `data` as borsh does, with the number
    /// of bytes read.
    pub fn deserialize(data: &[u8]) -> (r: Option<(TransferFeeExtensionParams, usize)>)
        ensures
            r == Self::spec_decode(data@),
    {
        let transfer_fee_basis_points = read_u16_le(data, 0)?;
        let max_fee = read_u64_le(data, 2)?;
        Some((TransferFeeExtensionParams { transfer_fee_basis_points, max_fee }, 10))
    }

    /// Reads a value that must take up all of `data`.
    pub fn try_from_slice(data: &[u8]) -> (r: Option<TransferFeeExtensionParams>)
        ensures
            r == (match Self::spec_decode(data@) {
                Some((v, n)) => if n == data@.len() {
                    Some(v)
                } else {
                    None::<TransferFeeExtensionParams>
                },
                None => None::<TransferFeeExtensionParams>,
            }),
    {
        let (v, n) = Self::deserialize(data)?;
        if n == data.len() {
            Some(v)
        } else {
            None
        }
    }

    /// Reading back an encoding, whatever follows it, gives the value and
    /// the encoding's length.
    pub proof fn lemma_encode_decode(x: TransferFeeExtensionParams, rest: Seq<u8>)
        ensures
            x.spec_encode().len() == 10,
            Self::spec_decode(x.spec_encode() + rest) == Some((x, 10usize)),
    {
        lemma_le_roundtrips();
        let s = x.spec_encode() + rest;
        assert(s.subrange(0, 2) =~= spec_u16_to_le_bytes(x.transfer_fee_basis_points));
        assert(s.subrange(2, 10) =~= spec_u64_to_le_bytes(x.max_fee));
    }

    /// What is read is exactly the encoding of the value read.
    pub proof fn lemma_decode_encode(s: Seq<u8>)
        ensures
            Self::spec_decode(s) matches Some((x, n)) ==> x.spec_encode() == s.take(n as int),
    {
        lemma_le_roundtrips();
        if s.len() >= 10 {
            assert(s.take(10) =~= s.subrange(0, 2) + s.subrange(2, 10));
        }
    }
}

} // verus!
