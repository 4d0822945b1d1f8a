//! Segwit-style signature hashing with lazily cached intermediate digests.
//!
//! The preimage that a signature commits to is laid out field by field by
//! [`preimage`]; [`SigHashCache`] builds it for one input after another and
//! keeps the digests that do not depend on the input.

use vstd::prelude::*;
use crate::encode::{
    lemma_concat_all_push, concat_all, put_bytes, put_u32, put_u64, put_var_bytes,
    u32_le, u64_le, var_bytes,
};
use crate::hashing::{sha256d, sha256d_digest};
use crate::transaction::{Script, SigHashMode, SigHashType, Transaction};

verus! {

/// Thirty-two zero bytes: what stands in the preimage for a digest that the
/// signature-hash type leaves out.
pub open spec fn zero_hash() -> Seq<u8> {
    Seq::new(32, |i: int| 0u8)
}

/// Whether the mode commits to all outputs (it is neither `Single` nor
/// `NoOutputs`).
pub open spec fn covers_all_outputs(mode: SigHashMode) -> bool {
    mode != SigHashMode::Single && mode != SigHashMode::NoOutputs
}

/// The preimage's prevouts field.
pub open spec fn prevouts_field(tx: &Transaction, ty: SigHashType) -> Seq<u8> {
    if !ty.anyone_can_pay {
        sha256d_digest(tx.prevouts_bytes())
    } else {
        zero_hash()
    }
}

/// The preimage's sequence field.
pub open spec fn sequence_field(tx: &Transaction, ty: SigHashType) -> Seq<u8> {
    if !ty.anyone_can_pay && covers_all_outputs(ty.mode) {
        sha256d_digest(tx.sequences_bytes())
    } else {
        zero_hash()
    }
}

/// The preimage's issuances field.
pub open spec fn issuances_field(tx: &Transaction, ty: SigHashType) -> Seq<u8> {
    if !ty.anyone_can_pay {
        sha256d_digest(tx.issuances_bytes())
    } else {
        zero_hash()
    }
}

/// The part of the preimage that describes the input being signed: its
/// previous outpoint, the script code behind its length, the amount in eight
/// little-endian bytes, the sequence number and, where the input carries an
/// issuance, the issuance record.
pub open spec fn input_field(
    tx: &Transaction,
    input_index: int,
    script_code: Seq<u8>,
    value: u64,
) -> Seq<u8>
    recommends
        0 <= input_index < tx.input@.len(),
{
    let txin = tx.input@[input_index];
    txin.previous_output.encoding() + var_bytes(script_code) + u64_le(value) + u32_le(
        txin.sequence,
    ) + txin.issuance_bytes()
}

/// The preimage's output commitment: the digest of all outputs, or under
/// `Single` the digest of the output at the input's index, or zeros where
/// the mode signs no output or `Single` finds no output at that index.
pub open spec fn outputs_field(tx: &Transaction, input_index: int, ty: SigHashType) -> Seq<u8> {
    if covers_all_outputs(ty.mode) {
        sha256d_digest(tx.outputs_bytes())
    } else if ty.mode == SigHashMode::Single && 0 <= input_index < tx.output@.len() {
        sha256d_digest(tx.output@[input_index].encoding@)
    } else {
        zero_hash()
    }
}

/// The preimage laid out around four given 32-byte fields: the version,
/// the prevouts, sequence and issuances fields, the input's own part, the
/// output commitment, the lock time and the type's number.
pub open spec fn preimage_with(
    tx: &Transaction,
    input_index: int,
    script_code: Seq<u8>,
    value: u64,
    ty: SigHashType,
    prevouts: Seq<u8>,
    sequence: Seq<u8>,
    issuances: Seq<u8>,
    outputs: Seq<u8>,
) -> Seq<u8>
    recommends
        0 <= input_index < tx.input@.len(),
{
    u32_le(tx.version) + prevouts + sequence + issuances + input_field(
        tx,
        input_index,
        script_code,
        value,
    ) + outputs + u32_le(tx.lock_time) + u32_le(ty.spec_as_u32())
}

/// The exact bytes that a signature for input `input_index` commits to.
pub open spec fn preimage(
    tx: &Transaction,
    input_index: int,
    script_code: Seq<u8>,
    value: u64,
    ty: SigHashType,
) -> Seq<u8>
    recommends
        0 <= input_index < tx.input@.len(),
{
    preimage_with(
        tx,
        input_index,
        script_code,
        value,
        ty,
        prevouts_field(tx, ty),
        sequence_field(tx, ty),
        issuances_field(tx, ty),
        outputs_field(tx, input_index, ty),
    )
}

/// Under `Single`, an input whose index has no output commits to thirty-two
/// zero bytes in the place of an output digest.
pub proof fn lemma_single_without_output(tx: &Transaction, input_index: int, ty: SigHashType)
    requires
        ty.mode == SigHashMode::Single,
        input_index >= tx.output@.len(),
    ensures
        outputs_field(tx, input_index, ty) == zero_hash(),
{
}

/// Under `Single`, an input whose index has an output commits to the digest
/// of that output alone, whichever index it is.
pub proof fn lemma_single_with_output(tx: &Transaction, input_index: int, ty: SigHashType)
    requires
        ty.mode == SigHashMode::Single,
        0 <= input_index < tx.output@.len(),
    ensures
        outputs_field(tx, input_index, ty) == sha256d_digest(tx.output@[input_index].encoding@),
{
}

/// What the "anyone can pay" flag changes. Without it the prevouts and
/// issuances fields are the digests over all inputs, and the sequence field
/// is one where the mode covers all outputs. With it the three fields are
/// zeros, the type's number at the end of the preimage is 0x80 more, and
/// everything else in the preimage is as before.
pub proof fn lemma_anyone_can_pay(
    tx: &Transaction,
    input_index: int,
    script_code: Seq<u8>,
    value: u64,
    mode: SigHashMode,
)
    ensures
        ({
            let plain = SigHashType { mode, anyone_can_pay: false };
            let flagged = SigHashType { mode, anyone_can_pay: true };
            &&& prevouts_field(tx, plain) == sha256d_digest(tx.prevouts_bytes())
            &&& issuances_field(tx, plain) == sha256d_digest(tx.issuances_bytes())
            &&& covers_all_outputs(mode) ==> sequence_field(tx, plain) == sha256d_digest(
                tx.sequences_bytes(),
            )
            &&& prevouts_field(tx, flagged) == zero_hash()
            &&& sequence_field(tx, flagged) == zero_hash()
            &&& issuances_field(tx, flagged) == zero_hash()
            &&& outputs_field(tx, input_index, flagged) == outputs_field(tx, input_index, plain)
            &&& flagged.spec_as_u32() == plain.spec_as_u32() + 0x80
            &&& preimage(tx, input_index, script_code, value, flagged) == u32_le(tx.version)
                + zero_hash() + zero_hash() + zero_hash() + input_field(
                tx,
                input_index,
                script_code,
                value,
            ) + outputs_field(tx, input_index, plain) + u32_le(tx.lock_time) + u32_le(
                (plain.spec_as_u32() + 0x80) as u32,
            )
        }),
{
}

/// Whether a cache slot is consistent with the bytes it stands for: empty,
/// or holding their digest.
pub open spec fn slot_holds(slot: Option<[u8; 32]>, data: Seq<u8>) -> bool {
    slot matches Some(digest) ==> digest@ == sha256d_digest(data)
}

/// How a slot stands after a call that fills it only when `needed`.
pub open spec fn slot_after(
    before: Option<[u8; 32]>,
    after: Option<[u8; 32]>,
    needed: bool,
) -> bool {
    if needed {
        after is Some
    } else {
        after == before
    }
}

/// The digest of every input's previous outpoint, in input order.
pub fn prevouts_digest(tx: &Transaction) -> (digest: [u8; 32])
    ensures
        digest@ == sha256d_digest(tx.prevouts_bytes()),
{
    let mut enc: Vec<u8> = Vec::new();
    let mut i: usize = 0;
    assert(tx.prevout_parts(0) =~= Seq::empty());
    while i < tx.input.len()
        invariant
            i <= tx.input@.len(),
            enc@ == concat_all(tx.prevout_parts(i as nat)),
        decreases tx.input@.len() - i,
    {
        let ghost part = tx.input@[i as int].previous_output.encoding();
        tx.input[i].previous_output.consensus_encode(&mut enc);
        proof {
            assert(tx.prevout_parts((i + 1) as nat) =~= tx.prevout_parts(i as nat).push(part));
            lemma_concat_all_push(tx.prevout_parts(i as nat), part);
        }
        i += 1;
    }
    sha256d(enc.as_slice())
}

/// The digest of every input's sequence number, in input order.
pub fn sequence_digest(tx: &Transaction) -> (digest: [u8; 32])
    ensures
        digest@ == sha256d_digest(tx.sequences_bytes()),
{
    let mut enc: Vec<u8> = Vec::new();
    let mut i: usize = 0;
    assert(tx.sequence_parts(0) =~= Seq::empty());
    while i < tx.input.len()
        invariant
            i <= tx.input@.len(),
            enc@ == concat_all(tx.sequence_parts(i as nat)),
        decreases tx.input@.len() - i,
    {
        let ghost part = u32_le(tx.input@[i as int].sequence);
        put_u32(&mut enc, tx.input[i].sequence);
        proof {
            assert(tx.sequence_parts((i + 1) as nat) =~= tx.sequence_parts(i as nat).push(part));
            lemma_concat_all_push(tx.sequence_parts(i as nat), part);
        }
        i += 1;
    }
    sha256d(enc.as_slice())
}

/// The digest of every input's issuance record, with a single zero byte in
/// the place of each input that carries none, in input order.
pub fn issuances_digest(tx: &Transaction) -> (digest: [u8; 32])
    ensures
        digest@ == sha256d_digest(tx.issuances_bytes()),
{
    let mut enc: Vec<u8> = Vec::new();
    let mut i: usize = 0;
    assert(tx.issuance_parts(0) =~= Seq::empty());
    while i < tx.input.len()
        invariant
            i <= tx.input@.len(),
            enc@ == concat_all(tx.issuance_parts(i as nat)),
        decreases tx.input@.len() - i,
    {
        let ghost part = tx.input@[i as int].issuance_or_placeholder();
        let ghost before = enc@;
        match &tx.input[i].asset_issuance {
            Some(record) => {
                put_bytes(&mut enc, record.as_slice());
            },
            None => {
                enc.push(0u8);
            },
        }
        proof {
            assert(enc@ =~= before + part);
            assert(tx.issuance_parts((i + 1) as nat) =~= tx.issuance_parts(i as nat).push(part));
            lemma_concat_all_push(tx.issuance_parts(i as nat), part);
        }
        i += 1;
    }
    sha256d(enc.as_slice())
}

/// The digest of every output, in output order.
pub fn outputs_digest(tx: &Transaction) -> (digest: [u8; 32])
    ensures
        digest@ == sha256d_digest(tx.outputs_bytes()),
{
    let mut enc: Vec<u8> = Vec::new();
    let mut i: usize = 0;
    assert(tx.output_parts(0) =~= Seq::empty());
    while i < tx.output.len()
        invariant
            i <= tx.output@.len(),
            enc@ == concat_all(tx.output_parts(i as nat)),
        decreases tx.output@.len() - i,
    {
        let ghost part = tx.output@[i as int].encoding@;
        put_bytes(&mut enc, tx.output[i].encoding.as_slice());
        proof {
            assert(tx.output_parts((i + 1) as nat) =~= tx.output_parts(i as nat).push(part));
            lemma_concat_all_push(tx.output_parts(i as nat), part);
        }
        i += 1;
    }
    sha256d(enc.as_slice())
}

/// The digest of the one output at `index`. Nothing keeps it: it is computed
/// anew on every call.
pub fn single_output_digest(tx: &Transaction, index: usize) -> (digest: [u8; 32])
    requires
        index < tx.output@.len(),
    ensures
        digest@ == sha256d_digest(tx.output@[index as int].encoding@),
{
    sha256d(tx.output[index].encoding.as_slice())
}

/// Thirty-two zero bytes.
pub fn zero_digest() -> (zeros: [u8; 32])
    ensures
        zeros@ == zero_hash(),
{
    let zeros = [0u8; 32];
    assert(zeros@ =~= zero_hash());
    zeros
}

/// Appends to `writer` the part of the preimage that describes input
/// `input_index` itself.
pub fn put_input_field(
    writer: &mut Vec<u8>,
    tx: &Transaction,
    input_index: usize,
    script_code: &Script,
    value: u64,
)
    requires
        input_index < tx.input@.len(),
    ensures
        final(writer)@ == old(writer)@ + input_field(
            tx,
            input_index as int,
            script_code.bytes@,
            value,
        ),
{
    let ghost start = writer@;
    let txin = &tx.input[input_index];
    txin.previous_output.consensus_encode(writer);
    put_var_bytes(writer, script_code.as_bytes());
    put_u64(writer, value);
    put_u32(writer, txin.sequence);
    match &txin.asset_issuance {
        Some(record) => {
            put_bytes(writer, record.as_slice());
        },
        None => {},
    }
    assert(writer@ =~= start + input_field(tx, input_index as int, script_code.bytes@, value));
}

/// Appends to `writer` the preimage for input `input_index`, laid out
/// around the four 32-byte fields that the caller has chosen.
pub fn assemble_preimage(
    writer: &mut Vec<u8>,
    tx: &Transaction,
    input_index: usize,
    script_code: &Script,
    value: u64,
    sighash_type: SigHashType,
    prevouts: &[u8; 32],
    sequence: &[u8; 32],
    issuances: &[u8; 32],
    outputs: &[u8; 32],
)
    requires
        input_index < tx.input@.len(),
    ensures
        final(writer)@ == old(writer)@ + preimage_with(
            tx,
            input_index as int,
            script_code.bytes@,
            value,
            sighash_type,
            prevouts@,
            sequence@,
            issuances@,
            outputs@,
        ),
{
    let ghost start = writer@;
    put_u32(writer, tx.version);
    put_bytes(writer, prevouts.as_slice());
    put_bytes(writer, sequence.as_slice());
    put_bytes(writer, issuances.as_slice());
    let ghost head = u32_le(tx.version) + prevouts@ + sequence@ + issuances@;
    assert(writer@ =~= start + head);
    put_input_field(writer, tx, input_index, script_code, value);
    put_bytes(writer, outputs.as_slice());
    put_u32(writer, tx.lock_time);
    put_u32(writer, sighash_type.as_u32());
    assert(writer@ =~= start + preimage_with(
        tx,
        input_index as int,
        script_code.bytes@,
        value,
        sighash_type,
        prevouts@,
        sequence@,
        issuances@,
        outputs@,
    ));
}

/// The digests of one transaction that signature hashing needs again for
/// every input, each computed when first asked for and kept from then on.
///
/// The cache borrows the transaction for as long as it lives, so the
/// transaction cannot change under it and a kept digest never goes stale.
pub struct SigHashCache<'a> {
    tx: &'a Transaction,
    hash_prevouts: Option<[u8; 32]>,
    hash_sequence: Option<[u8; 32]>,
    hash_outputs: Option<[u8; 32]>,
    hash_issuances: Option<[u8; 32]>,
}

impl<'a> SigHashCache<'a> {
    /// The transaction that the cache is bound to.
    pub closed spec fn transaction(&self) -> &Transaction {
        self.tx
    }

    /// The kept prevouts digest, if it was computed yet.
    pub closed spec fn cached_prevouts(&self) -> Option<[u8; 32]> {
        self.hash_prevouts
    }

    /// The kept sequence digest, if it was computed yet.
    pub closed spec fn cached_sequence(&self) -> Option<[u8; 32]> {
        self.hash_sequence
    }

    /// The kept outputs digest, if it was computed yet.
    pub closed spec fn cached_outputs(&self) -> Option<[u8; 32]> {
        self.hash_outputs
    }

    /// The kept issuances digest, if it was computed yet.
    pub closed spec fn cached_issuances(&self) -> Option<[u8; 32]> {
        self.hash_issuances
    }

    /// Every digest that the cache keeps is the digest of its transaction.
    pub open spec fn wf(&self) -> bool {
        &&& slot_holds(self.cached_prevouts(), self.transaction().prevouts_bytes())
        &&& slot_holds(self.cached_sequence(), self.transaction().sequences_bytes())
        &&& slot_holds(self.cached_outputs(), self.transaction().outputs_bytes())
        &&& slot_holds(self.cached_issuances(), self.transaction().issuances_bytes())
    }

    /// The transaction that the cache is bound to.
    pub fn tx(&self) -> (tx: &'a Transaction)
        ensures
            tx == self.transaction(),
    {
        self.tx
    }

    /// A cache for `tx` with nothing computed yet.
    pub fn new(tx: &'a Transaction) -> (cache: Self)
        ensures
            cache.wf(),
            cache.transaction() == tx,
            cache.cached_prevouts() is None,
            cache.cached_sequence() is None,
            cache.cached_outputs() is None,
            cache.cached_issuances() is None,
    {
        SigHashCache {
            tx,
            hash_prevouts: None,
            hash_sequence: None,
            hash_outputs: None,
            hash_issuances: None,
        }
    }

    /// The digest of all previous outpoints: the kept one if there is one,
    /// otherwise computed now and kept.
    pub fn hash_prevouts(&mut self) -> (digest: [u8; 32])
        requires
            old(self).wf(),
        ensures
            digest@ == sha256d_digest(old(self).transaction().prevouts_bytes()),
            final(self).wf(),
            final(self).transaction() == old(self).transaction(),
            final(self).cached_prevouts() == Some(digest),
            final(self).cached_sequence() == old(self).cached_sequence(),
            final(self).cached_outputs() == old(self).cached_outputs(),
            final(self).cached_issuances() == old(self).cached_issuances(),
            old(self).cached_prevouts() matches Some(kept) ==> digest == kept && *final(self) == *old(self),
    {
        match self.hash_prevouts {
            Some(digest) => digest,
            None => {
                let digest = prevouts_digest(self.tx);
                self.hash_prevouts = Some(digest);
                digest
            },
        }
    }

    /// The digest of all sequence numbers: the kept one if there is one,
    /// otherwise computed now and kept.
    pub fn hash_sequence(&mut self) -> (digest: [u8; 32])
        requires
            old(self).wf(),
        ensures
            digest@ == sha256d_digest(old(self).transaction().sequences_bytes()),
            final(self).wf(),
            final(self).transaction() == old(self).transaction(),
            final(self).cached_sequence() == Some(digest),
            final(self).cached_prevouts() == old(self).cached_prevouts(),
            final(self).cached_outputs() == old(self).cached_outputs(),
            final(self).cached_issuances() == old(self).cached_issuances(),
            old(self).cached_sequence() matches Some(kept) ==> digest == kept && *final(self) == *old(self),
    {
        match self.hash_sequence {
            Some(digest) => digest,
            None => {
                let digest = sequence_digest(self.tx);
                self.hash_sequence = Some(digest);
                digest
            },
        }
    }

    /// The digest of all issuances: the kept one if there is one, otherwise
    /// computed now and kept.
    pub fn hash_issuances(&mut self) -> (digest: [u8; 32])
        requires
            old(self).wf(),
        ensures
            digest@ == sha256d_digest(old(self).transaction().issuances_bytes()),
            final(self).wf(),
            final(self).transaction() == old(self).transaction(),
            final(self).cached_issuances() == Some(digest),
            final(self).cached_prevouts() == old(self).cached_prevouts(),
            final(self).cached_sequence() == old(self).cached_sequence(),
            final(self).cached_outputs() == old(self).cached_outputs(),
            old(self).cached_issuances() matches Some(kept) ==> digest == kept && *final(self) == *old(self),
    {
        match self.hash_issuances {
            Some(digest) => digest,
            None => {
                let digest = issuances_digest(self.tx);
                self.hash_issuances = Some(digest);
                digest
            },
        }
    }

    /// The digest of all outputs: the kept one if there is one, otherwise
    /// computed now and kept.
    pub fn hash_outputs(&mut self) -> (digest: [u8; 32])
        requires
            old(self).wf(),
        ensures
            digest@ == sha256d_digest(old(self).transaction().outputs_bytes()),
            final(self).wf(),
            final(self).transaction() == old(self).transaction(),
            final(self).cached_outputs() == Some(digest),
            final(self).cached_prevouts() == old(self).cached_prevouts(),
            final(self).cached_sequence() == old(self).cached_sequence(),
            final(self).cached_issuances() == old(self).cached_issuances(),
            old(self).cached_outputs() matches Some(kept) ==> digest == kept && *final(self) == *old(self),
    {
        match self.hash_outputs {
            Some(digest) => digest,
            None => {
                let digest = outputs_digest(self.tx);
                self.hash_outputs = Some(digest);
                digest
            },
        }
    }

    /// The digest of the output at `input_index` alone, as the `Single` mode
    /// commits to it. It is computed on every call and leaves the cache as
    /// it was.
    pub fn hash_single_output(&self, input_index: usize) -> (digest: [u8; 32])
        requires
            input_index < self.transaction().output@.len(),
        ensures
            digest@ == sha256d_digest(self.transaction().output@[input_index as int].encoding@),
    {
        single_output_digest(self.tx, input_index)
    }

    /// Appends to `writer` the bytes that a signature for input
    /// `input_index` commits to, and keeps the digests over all inputs or
    /// all outputs that it had to compute on the way.
    pub fn encode_signing_data_to(
        &mut self,
        writer: &mut Vec<u8>,
        input_index: usize,
        script_code: &Script,
        value: u64,
        sighash_type: SigHashType,
    )
        requires
            old(self).wf(),
            input_index < old(self).transaction().input@.len(),
        ensures
            final(writer)@ == old(writer)@ + preimage(
                old(self).transaction(),
                input_index as int,
                script_code.bytes@,
                value,
                sighash_type,
            ),
            final(self).wf(),
            final(self).transaction() == old(self).transaction(),
            slot_after(
                old(self).cached_prevouts(),
                final(self).cached_prevouts(),
                !sighash_type.anyone_can_pay,
            ),
            slot_after(
                old(self).cached_sequence(),
                final(self).cached_sequence(),
                !sighash_type.anyone_can_pay && covers_all_outputs(sighash_type.mode),
            ),
            slot_after(
                old(self).cached_issuances(),
                final(self).cached_issuances(),
                !sighash_type.anyone_can_pay,
            ),
            slot_after(
                old(self).cached_outputs(),
                final(self).cached_outputs(),
                covers_all_outputs(sighash_type.mode),
            ),
    {
        let tx = self.tx;
        let (mode, anyone_can_pay) = sighash_type.split_anyonecanpay_flag();
        let all_outputs = match mode {
            SigHashMode::All => true,
            SigHashMode::NoOutputs => false,
            SigHashMode::Single => false,
        };

        let prevouts = if !anyone_can_pay {
            self.hash_prevouts()
        } else {
            zero_digest()
        };
        let sequence = if !anyone_can_pay && all_outputs {
            self.hash_sequence()
        } else {
            zero_digest()
        };
        let issuances = if !anyone_can_pay {
            self.hash_issuances()
        } else {
            zero_digest()
        };
        let outputs = if all_outputs {
            self.hash_outputs()
        } else if mode == SigHashMode::Single && input_index < tx.output.len() {
            self.hash_single_output(input_index)
        } else {
            zero_digest()
        };

        assemble_preimage(
            writer,
            tx,
            input_index,
            script_code,
            value,
            sighash_type,
            &prevouts,
            &sequence,
            &issuances,
            &outputs,
        );
    }

    /// The signature hash for input `input_index`: the digest of
    /// [`preimage`].
    pub fn signature_hash(
        &mut self,
        input_index: usize,
        script_code: &Script,
        value: u64,
        sighash_type: SigHashType,
    ) -> (digest: [u8; 32])
        requires
            old(self).wf(),
            input_index < old(self).transaction().input@.len(),
        ensures
            digest@ == sha256d_digest(
                preimage(
                    old(self).transaction(),
                    input_index as int,
                    script_code.bytes@,
                    value,
                    sighash_type,
                ),
            ),
            final(self).wf(),
            final(self).transaction() == old(self).transaction(),
            slot_after(
                old(self).cached_prevouts(),
                final(self).cached_prevouts(),
                !sighash_type.anyone_can_pay,
            ),
            slot_after(
                old(self).cached_sequence(),
                final(self).cached_sequence(),
                !sighash_type.anyone_can_pay && covers_all_outputs(sighash_type.mode),
            ),
            slot_after(
                old(self).cached_issuances(),
                final(self).cached_issuances(),
                !sighash_type.anyone_can_pay,
            ),
            slot_after(
                old(self).cached_outputs(),
                final(self).cached_outputs(),
                covers_all_outputs(sighash_type.mode),
            ),
    {
        let mut enc: Vec<u8> = Vec::new();
        self.encode_signing_data_to(&mut enc, input_index, script_code, value, sighash_type);
        assert(enc@ =~= preimage(
            self.transaction(),
            input_index as int,
            script_code.bytes@,
            value,
            sighash_type,
        ));
        sha256d(enc.as_slice())
    }
}

} // verus!
