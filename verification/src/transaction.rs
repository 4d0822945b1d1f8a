//! The part of the transaction data model that signature hashing reads.
//!
//! Outputs and issuance records are carried in their consensus encoding:
//! signature hashing commits to those bytes and looks at nothing inside them.

use vstd::prelude::*;
use crate::encode::{concat_all, put_bytes, put_u32, u32_le};

verus! {

/// A script, as its raw bytes.
#[derive(Clone, Debug, PartialEq, Eq)]
pub struct Script {
    pub bytes: Vec<u8>,
}

impl Script {
    /// The empty script.
    pub fn new() -> (script: Script)
        ensures
            script.bytes@ == Seq::<u8>::empty(),
    {
        Script { bytes: Vec::new() }
    }

    /// The script made of `bytes`.
    pub fn from_bytes(bytes: Vec<u8>) -> (script: Script)
        ensures
            script.bytes == bytes,
    {
        Script { bytes }
    }

    /// The script's bytes.
    pub fn as_bytes(&self) -> (bytes: &[u8])
        ensures
            bytes@ == self.bytes@,
    {
        self.bytes.as_slice()
    }
}

/// A reference to the output of an earlier transaction.
#[derive(Clone, Copy, Debug, PartialEq, Eq)]
pub struct OutPoint {
    /// The earlier transaction's id, in wire order.
    pub txid: [u8; 32],
    /// The index of the output in it.
    pub vout: u32,
}

impl OutPoint {
    /// Consensus encoding: the 32 bytes of the id, then the index in
    /// little-endian order.
    pub open spec fn encoding(&self) -> Seq<u8> {
        self.txid@ + u32_le(self.vout)
    }

    /// Appends the consensus encoding to `buf`.
    pub fn consensus_encode(&self, buf: &mut Vec<u8>)
        ensures
            final(buf)@ == old(buf)@ + self.encoding(),
    {
        let ghost before = buf@;
        put_bytes(buf, self.txid.as_slice());
        put_u32(buf, self.vout);
        assert(buf@ =~= before + self.encoding());
    }
}

/// A transaction input.
#[derive(Clone, Debug, PartialEq, Eq)]
pub struct TxIn {
    /// The output that this input spends.
    pub previous_output: OutPoint,
    /// The input's sequence number.
    pub sequence: u32,
    /// The consensus encoding of the issuance record that the input carries,
    /// if it carries one.
    pub asset_issuance: Option<Vec<u8>>,
}

impl TxIn {
    /// Whether the input carries an issuance.
    pub open spec fn spec_has_issuance(&self) -> bool {
        self.asset_issuance is Some
    }

    /// Whether the input carries an issuance.
    #[verifier::when_used_as_spec(spec_has_issuance)]
    pub fn has_issuance(&self) -> (present: bool)
        ensures
            present == self.spec_has_issuance(),
    {
        self.asset_issuance.is_some()
    }

    /// The encoded issuance record, empty where the input carries none.
    pub open spec fn issuance_bytes(&self) -> Seq<u8> {
        match self.asset_issuance {
            Some(record) => record@,
            None => Seq::empty(),
        }
    }

    /// What the issuances digest commits to for this input: the encoded
    /// record, or a single zero byte in its place.
    pub open spec fn issuance_or_placeholder(&self) -> Seq<u8> {
        match self.asset_issuance {
            Some(record) => record@,
            None => seq![0u8],
        }
    }
}

/// A transaction output, held as its consensus encoding.
#[derive(Clone, Debug, PartialEq, Eq)]
pub struct TxOut {
    pub encoding: Vec<u8>,
}

/// A transaction.
#[derive(Clone, Debug, PartialEq, Eq)]
pub struct Transaction {
    pub version: u32,
    pub lock_time: u32,
    pub input: Vec<TxIn>,
    pub output: Vec<TxOut>,
}

impl Transaction {
    /// The encoded previous outpoints of the first `n` inputs.
    pub open spec fn prevout_parts(&self, n: nat) -> Seq<Seq<u8>> {
        Seq::new(n, |i: int| self.input@[i].previous_output.encoding())
    }

    /// The encoded sequence numbers of the first `n` inputs.
    pub open spec fn sequence_parts(&self, n: nat) -> Seq<Seq<u8>> {
        Seq::new(n, |i: int| u32_le(self.input@[i].sequence))
    }

    /// The issuance record or its placeholder for each of the first `n` inputs.
    pub open spec fn issuance_parts(&self, n: nat) -> Seq<Seq<u8>> {
        Seq::new(n, |i: int| self.input@[i].issuance_or_placeholder())
    }

    /// The encodings of the first `n` outputs.
    pub open spec fn output_parts(&self, n: nat) -> Seq<Seq<u8>> {
        Seq::new(n, |i: int| self.output@[i].encoding@)
    }

    /// Every input's previous outpoint, encoded, in input order.
    pub open spec fn prevouts_bytes(&self) -> Seq<u8> {
        concat_all(self.prevout_parts(self.input@.len()))
    }

    /// Every input's sequence number, encoded, in input order.
    pub open spec fn sequences_bytes(&self) -> Seq<u8> {
        concat_all(self.sequence_parts(self.input@.len()))
    }

    /// Every input's issuance record or placeholder, in input order.
    pub open spec fn issuances_bytes(&self) -> Seq<u8> {
        concat_all(self.issuance_parts(self.input@.len()))
    }

    /// Every output, encoded, in output order.
    pub open spec fn outputs_bytes(&self) -> Seq<u8> {
        concat_all(self.output_parts(self.output@.len()))
    }
}

/// The base mode of a signature-hash type: what of the outputs is signed.
#[derive(Clone, Copy, Debug, PartialEq, Eq, Structural)]
pub enum SigHashMode {
    /// Every output.
    All,
    /// No output.
    NoOutputs,
    /// The output at the index of the input that is signed.
    Single,
}

/// A signature-hash type: a base mode, and whether only the signed input is
/// committed to ("anyone can pay").
#[derive(Clone, Copy, Debug, PartialEq, Eq, Structural)]
pub struct SigHashType {
    pub mode: SigHashMode,
    pub anyone_can_pay: bool,
}

impl SigHashType {
    /// The type's number: 1, 2 or 3 for the mode, plus 0x80 with the flag.
    pub open spec fn spec_as_u32(&self) -> u32 {
        let base: u32 = match self.mode {
            SigHashMode::All => 1u32,
            SigHashMode::NoOutputs => 2u32,
            SigHashMode::Single => 3u32,
        };
        if self.anyone_can_pay {
            (base + 0x80) as u32
        } else {
            base
        }
    }

    /// The type's number.
    #[verifier::when_used_as_spec(spec_as_u32)]
    pub fn as_u32(&self) -> (n: u32)
        ensures
            n == self.spec_as_u32(),
    {
        let base: u32 = match self.mode {
            SigHashMode::All => 1u32,
            SigHashMode::NoOutputs => 2u32,
            SigHashMode::Single => 3u32,
        };
        if self.anyone_can_pay {
            base + 0x80
        } else {
            base
        }
    }

    /// The base mode and the flag, apart.
    pub fn split_anyonecanpay_flag(&self) -> (parts: (SigHashMode, bool))
        ensures
            parts == (self.mode, self.anyone_can_pay),
    {
        (self.mode, self.anyone_can_pay)
    }
}

} // verus!
