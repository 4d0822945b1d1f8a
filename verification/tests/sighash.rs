use elements_core::sighash::{
    assemble_preimage, issuances_digest, outputs_digest, prevouts_digest, put_input_field,
    sequence_digest, single_output_digest, zero_digest, SigHashCache,
};
use elements_core::transaction::{
    OutPoint, Script, SigHashMode, SigHashType, Transaction, TxIn, TxOut,
};

const ALL: SigHashType = SigHashType { mode: SigHashMode::All, anyone_can_pay: false };
const NONE: SigHashType = SigHashType { mode: SigHashMode::NoOutputs, anyone_can_pay: false };
const SINGLE: SigHashType = SigHashType { mode: SigHashMode::Single, anyone_can_pay: false };

fn dsha(data: &[u8]) -> [u8; 32] {
    let hash: bitcoin_hashes::sha256d::Hash = bitcoin_hashes::Hash::hash(data);
    bitcoin_hashes::Hash::into_inner(hash)
}

fn outpoint(seed: u8, vout: u32) -> OutPoint {
    let mut txid = [0u8; 32];
    for (i, b) in txid.iter_mut().enumerate() {
        *b = seed.wrapping_add(i as u8);
    }
    OutPoint { txid, vout }
}

fn outpoint_bytes(o: &OutPoint) -> Vec<u8> {
    let mut v = o.txid.to_vec();
    v.extend_from_slice(&o.vout.to_le_bytes());
    v
}

fn explicit_output(asset: u8, amount: u64, script: &[u8]) -> TxOut {
    let mut encoding = vec![0x01];
    encoding.extend_from_slice(&[asset; 32]);
    encoding.push(0x01);
    encoding.extend_from_slice(&amount.to_be_bytes());
    encoding.push(0x00);
    encoding.push(script.len() as u8);
    encoding.extend_from_slice(script);
    TxOut { encoding }
}

fn issuance_record() -> Vec<u8> {
    let mut record = vec![0u8; 32];
    record.extend_from_slice(&[0x11; 32]);
    record.push(0x01);
    record.extend_from_slice(&21u64.to_be_bytes());
    record.push(0x00);
    record
}

fn two_in_one_out() -> Transaction {
    Transaction {
        version: 2,
        lock_time: 0,
        input: vec![
            TxIn { previous_output: outpoint(1, 0), sequence: 0xffff_ffff, asset_issuance: None },
            TxIn { previous_output: outpoint(77, 3), sequence: 0xffff_fffe, asset_issuance: None },
        ],
        output: vec![explicit_output(0x23, 99_000, &[0x51])],
    }
}

fn issuing_tx() -> Transaction {
    Transaction {
        version: 2,
        lock_time: 500_000,
        input: vec![
            TxIn { previous_output: outpoint(9, 1), sequence: 5, asset_issuance: None },
            TxIn {
                previous_output: outpoint(200, 0),
                sequence: 6,
                asset_issuance: Some(issuance_record()),
            },
            TxIn { previous_output: outpoint(50, 2), sequence: 7, asset_issuance: None },
        ],
        output: vec![
            explicit_output(0x01, 10, &[0x51]),
            explicit_output(0x02, 20, &[0x52, 0x53]),
        ],
    }
}

/// The preimage written out field by field, with nothing taken from the library.
fn by_hand(tx: &Transaction, index: usize, script: &[u8], value: u64, ty: SigHashType) -> Vec<u8> {
    let single = ty.mode == SigHashMode::Single;
    let all = ty.mode == SigHashMode::All;
    let mut prevouts = Vec::new();
    let mut sequences = Vec::new();
    let mut issuances = Vec::new();
    for txin in &tx.input {
        prevouts.extend_from_slice(&outpoint_bytes(&txin.previous_output));
        sequences.extend_from_slice(&txin.sequence.to_le_bytes());
        match &txin.asset_issuance {
            Some(record) => issuances.extend_from_slice(record),
            None => issuances.push(0),
        }
    }
    let mut outputs = Vec::new();
    for txout in &tx.output {
        outputs.extend_from_slice(&txout.encoding);
    }
    let zero = [0u8; 32];
    let mut p = Vec::new();
    p.extend_from_slice(&tx.version.to_le_bytes());
    p.extend_from_slice(&if ty.anyone_can_pay { zero } else { dsha(&prevouts) });
    p.extend_from_slice(&if ty.anyone_can_pay || !all { zero } else { dsha(&sequences) });
    p.extend_from_slice(&if ty.anyone_can_pay { zero } else { dsha(&issuances) });
    let txin = &tx.input[index];
    p.extend_from_slice(&outpoint_bytes(&txin.previous_output));
    assert!(script.len() < 0xfd);
    p.push(script.len() as u8);
    p.extend_from_slice(script);
    p.extend_from_slice(&value.to_le_bytes());
    p.extend_from_slice(&txin.sequence.to_le_bytes());
    if let Some(record) = &txin.asset_issuance {
        p.extend_from_slice(record);
    }
    if all {
        p.extend_from_slice(&dsha(&outputs));
    } else if single && index < tx.output.len() {
        p.extend_from_slice(&dsha(&tx.output[index].encoding));
    } else {
        p.extend_from_slice(&zero);
    }
    p.extend_from_slice(&tx.lock_time.to_le_bytes());
    p.extend_from_slice(&ty.as_u32().to_le_bytes());
    p
}

fn preimage_of(tx: &Transaction, index: usize, script: &Script, value: u64, ty: SigHashType) -> Vec<u8> {
    let mut cache = SigHashCache::new(tx);
    let mut out = Vec::new();
    cache.encode_signing_data_to(&mut out, index, script, value, ty);
    out
}

#[test]
fn digest_of_nothing_is_the_double_sha256_of_the_empty_string() {
    let tx = Transaction { version: 1, lock_time: 0, input: vec![], output: vec![] };
    let expected: [u8; 32] = [
        0x5d, 0xf6, 0xe0, 0xe2, 0x76, 0x13, 0x59, 0xd3, 0x0a, 0x82, 0x75, 0x05, 0x8e, 0x29, 0x9f,
        0xcc, 0x03, 0x81, 0x53, 0x45, 0x45, 0xf5, 0x5c, 0xf4, 0x3e, 0x41, 0x98, 0x3f, 0x5d, 0x4c,
        0x94, 0x56,
    ];
    assert_eq!(prevouts_digest(&tx), expected);
    assert_eq!(sequence_digest(&tx), expected);
    assert_eq!(issuances_digest(&tx), expected);
    assert_eq!(outputs_digest(&tx), expected);
}

#[test]
fn digests_cover_every_item_in_order() {
    let tx = issuing_tx();
    let mut prevouts = Vec::new();
    let mut sequences = Vec::new();
    for txin in &tx.input {
        prevouts.extend_from_slice(&outpoint_bytes(&txin.previous_output));
        sequences.extend_from_slice(&txin.sequence.to_le_bytes());
    }
    let mut issuances = vec![0u8];
    issuances.extend_from_slice(&issuance_record());
    issuances.push(0);
    let mut outputs = tx.output[0].encoding.clone();
    outputs.extend_from_slice(&tx.output[1].encoding);
    assert_eq!(prevouts_digest(&tx), dsha(&prevouts));
    assert_eq!(sequence_digest(&tx), dsha(&sequences));
    assert_eq!(issuances_digest(&tx), dsha(&issuances));
    assert_eq!(outputs_digest(&tx), dsha(&outputs));

    let mut swapped = issuing_tx();
    swapped.output.swap(0, 1);
    assert_ne!(outputs_digest(&swapped), outputs_digest(&tx));
}

#[test]
fn cached_digests_are_stable() {
    let tx = issuing_tx();
    let mut cache = SigHashCache::new(&tx);
    let first = cache.hash_prevouts();
    assert_eq!(cache.hash_prevouts(), first);
    assert_eq!(first, prevouts_digest(&tx));
    let first = cache.hash_sequence();
    assert_eq!(cache.hash_sequence(), first);
    assert_eq!(first, sequence_digest(&tx));
    let first = cache.hash_issuances();
    assert_eq!(cache.hash_issuances(), first);
    assert_eq!(first, issuances_digest(&tx));
    let first = cache.hash_outputs();
    assert_eq!(cache.hash_outputs(), first);
    assert_eq!(first, outputs_digest(&tx));
}

#[test]
fn a_used_cache_gives_what_a_fresh_one_gives() {
    let tx = issuing_tx();
    let script = Script::from_bytes(vec![0x76, 0xa9]);
    let mut cache = SigHashCache::new(&tx);
    for index in 0..3 {
        for ty in [ALL, NONE, SINGLE] {
            let used = cache.signature_hash(index, &script, 7, ty);
            let fresh = SigHashCache::new(&tx).signature_hash(index, &script, 7, ty);
            assert_eq!(used, fresh);
        }
    }
}

#[test]
fn single_output_digest_follows_the_index() {
    let tx = issuing_tx();
    let cache = SigHashCache::new(&tx);
    let zeroth = cache.hash_single_output(0);
    let first = cache.hash_single_output(1);
    assert_eq!(zeroth, dsha(&tx.output[0].encoding));
    assert_eq!(first, dsha(&tx.output[1].encoding));
    assert_ne!(zeroth, first);
    assert_eq!(cache.hash_single_output(0), zeroth);
    assert_eq!(single_output_digest(&tx, 1), first);
}

#[test]
fn single_without_an_output_commits_to_zeros() {
    let tx = issuing_tx();
    let script = Script::new();
    let p = preimage_of(&tx, 2, &script, 1, SINGLE);
    let n = p.len();
    assert_eq!(&p[n - 40..n - 8], &[0u8; 32]);
    assert_ne!(&p[n - 40..n - 8], &dsha(&tx.output[1].encoding));
    assert_eq!(p, by_hand(&tx, 2, &[], 1, SINGLE));

    let q = preimage_of(&tx, 1, &script, 1, SINGLE);
    let n = q.len();
    assert_eq!(&q[n - 40..n - 8], &dsha(&tx.output[1].encoding));
}

#[test]
fn no_outputs_mode_commits_to_zeros() {
    let tx = issuing_tx();
    let p = preimage_of(&tx, 0, &Script::new(), 1, NONE);
    let n = p.len();
    assert_eq!(&p[n - 40..n - 8], &[0u8; 32]);
    assert_eq!(&p[36..68], &[0u8; 32]);
}

#[test]
fn anyone_can_pay_zeroes_the_three_input_digests() {
    let tx = issuing_tx();
    let script = Script::from_bytes(vec![0xac]);
    for mode in [SigHashMode::All, SigHashMode::NoOutputs, SigHashMode::Single] {
        for index in 0..3 {
            let plain = preimage_of(&tx, index, &script, 42, SigHashType { mode, anyone_can_pay: false });
            let flagged = preimage_of(&tx, index, &script, 42, SigHashType { mode, anyone_can_pay: true });
            assert_eq!(plain.len(), flagged.len());
            let n = plain.len();
            assert_eq!(&plain[4..36], &prevouts_digest(&tx));
            if mode == SigHashMode::All {
                assert_eq!(&plain[36..68], &sequence_digest(&tx));
            } else {
                assert_eq!(&plain[36..68], &[0u8; 32]);
            }
            assert_eq!(&plain[68..100], &issuances_digest(&tx));
            assert_eq!(&flagged[4..100], &[0u8; 96][..]);
            assert_eq!(&plain[..4], &flagged[..4]);
            assert_eq!(&plain[100..n - 4], &flagged[100..n - 4]);
            assert_eq!(plain[n - 4] + 0x80, flagged[n - 4]);
            assert_eq!(&plain[n - 3..], &flagged[n - 3..]);
        }
    }
}

#[test]
fn preimage_matches_the_layout_written_by_hand() {
    let tx = issuing_tx();
    let script = Script::from_bytes(vec![0x76, 0xa9, 0x14]);
    for mode in [SigHashMode::All, SigHashMode::NoOutputs, SigHashMode::Single] {
        for anyone_can_pay in [false, true] {
            for index in 0..3 {
                let ty = SigHashType { mode, anyone_can_pay };
                let expected = by_hand(&tx, index, script.as_bytes(), 1234, ty);
                assert_eq!(preimage_of(&tx, index, &script, 1234, ty), expected);
                let mut cache = SigHashCache::new(&tx);
                assert_eq!(cache.signature_hash(index, &script, 1234, ty), dsha(&expected));
            }
        }
    }
}

#[test]
fn issuance_record_follows_the_sequence_number() {
    let tx = issuing_tx();
    let p = preimage_of(&tx, 1, &Script::new(), 0, ALL);
    let record = issuance_record();
    let start = 4 + 96 + 36 + 1 + 8 + 4;
    assert_eq!(&p[start..start + record.len()], &record[..]);
    assert_eq!(p.len(), start + record.len() + 32 + 8);
    let q = preimage_of(&tx, 0, &Script::new(), 0, ALL);
    assert_eq!(q.len(), start + 32 + 8);
}

#[test]
fn concrete_two_inputs_one_output() {
    let tx = two_in_one_out();
    let mut cache = SigHashCache::new(&tx);
    let got = cache.signature_hash(0, &Script::new(), 100_000, ALL);

    let mut prevouts = outpoint_bytes(&tx.input[0].previous_output);
    prevouts.extend_from_slice(&outpoint_bytes(&tx.input[1].previous_output));
    let sequences = [0xff, 0xff, 0xff, 0xff, 0xfe, 0xff, 0xff, 0xff];
    let mut p = vec![2u8, 0, 0, 0];
    p.extend_from_slice(&dsha(&prevouts));
    p.extend_from_slice(&dsha(&sequences));
    p.extend_from_slice(&dsha(&[0, 0]));
    p.extend_from_slice(&outpoint_bytes(&tx.input[0].previous_output));
    p.push(0);
    p.extend_from_slice(&[0xa0, 0x86, 0x01, 0, 0, 0, 0, 0]);
    p.extend_from_slice(&[0xff, 0xff, 0xff, 0xff]);
    p.extend_from_slice(&dsha(&tx.output[0].encoding));
    p.extend_from_slice(&[0, 0, 0, 0]);
    p.extend_from_slice(&[1, 0, 0, 0]);
    assert_eq!(p.len(), 4 + 96 + 36 + 1 + 8 + 4 + 32 + 4 + 4);
    assert_eq!(got, dsha(&p));
    assert_eq!(preimage_of(&tx, 0, &Script::new(), 100_000, ALL), p);
}

#[test]
fn writer_keeps_what_it_held() {
    let tx = two_in_one_out();
    let mut cache = SigHashCache::new(&tx);
    let mut out = vec![0xde, 0xad];
    cache.encode_signing_data_to(&mut out, 1, &Script::new(), 5, ALL);
    assert_eq!(&out[..2], &[0xde, 0xad]);
    assert_eq!(&out[2..], &by_hand(&tx, 1, &[], 5, ALL)[..]);
}

#[test]
fn assembling_around_given_fields() {
    let tx = two_in_one_out();
    let script = Script::from_bytes(vec![0x51]);
    let (a, b, c, d) = ([1u8; 32], [2u8; 32], [3u8; 32], [4u8; 32]);
    let mut out = Vec::new();
    assemble_preimage(&mut out, &tx, 1, &script, 9, SINGLE, &a, &b, &c, &d);
    let mut input_part = Vec::new();
    put_input_field(&mut input_part, &tx, 1, &script, 9);
    let mut own = outpoint_bytes(&tx.input[1].previous_output);
    own.extend_from_slice(&[1, 0x51, 9, 0, 0, 0, 0, 0, 0, 0, 0xfe, 0xff, 0xff, 0xff]);
    assert_eq!(input_part, own);
    let mut expected = vec![2u8, 0, 0, 0];
    expected.extend_from_slice(&a);
    expected.extend_from_slice(&b);
    expected.extend_from_slice(&c);
    expected.extend_from_slice(&own);
    expected.extend_from_slice(&d);
    expected.extend_from_slice(&[0, 0, 0, 0, 3, 0, 0, 0]);
    assert_eq!(out, expected);
    assert_eq!(zero_digest(), [0u8; 32]);
}
