//! Pedersen commitments as tagged 33-byte values.
//!
//! A commitment is one tag byte followed by a 32-byte body. Each of the three
//! kinds admits its own two tag bytes, so the bytes of one kind are never
//! accepted as another. Nothing here checks that the body is a curve point.

use vstd::prelude::*;
use vstd::slice::slice_subrange;
use vstd::std_specs::cmp::{PartialEqSpecImpl, PartialOrdSpecImpl};
use core::cmp::Ordering;
use crate::encode::put_bytes;
use crate::error::Error;
use crate::hexcodec::{
    decode_hex, encode_hex, hex_bytes, hex_text, is_hex, lemma_hex_round_trip,
};

verus! {

/// The three roles that a commitment can have.
#[derive(Clone, Copy, Debug, PartialEq, Eq, Structural)]
pub enum CommitmentKind {
    Asset,
    Value,
    Nonce,
}

/// Whether `tag` is one of the two tag bytes of `kind`.
pub open spec fn valid_tag(kind: CommitmentKind, tag: u8) -> bool {
    match kind {
        CommitmentKind::Asset => tag == 0x0a || tag == 0x0b,
        CommitmentKind::Value => tag == 0x08 || tag == 0x09,
        CommitmentKind::Nonce => tag == 0x02 || tag == 0x03,
    }
}

/// What building a commitment from a tag and a body gives: the 33 bytes, or
/// the reason for refusing. The length is judged before the tag.
pub open spec fn construct(kind: CommitmentKind, tag: u8, body: Seq<u8>) -> Result<Seq<u8>, Error> {
    if body.len() != 32 {
        Err(Error::InvalidLength)
    } else if !valid_tag(kind, tag) {
        Err(Error::InvalidPrefix(tag))
    } else {
        Ok(seq![tag] + body)
    }
}

/// What reading a commitment from a byte string gives: the first byte is
/// the tag, all the rest is the body. An empty string has no tag.
pub open spec fn parse(kind: CommitmentKind, bytes: Seq<u8>) -> Result<Seq<u8>, Error> {
    if bytes.len() == 0 {
        Err(Error::InvalidLength)
    } else {
        construct(kind, bytes[0], bytes.subrange(1, bytes.len() as int))
    }
}

/// What decoding a commitment from the front of a stream gives: exactly 33
/// bytes are read, or the stream ends too early.
pub open spec fn decode(kind: CommitmentKind, source: Seq<u8>) -> Result<Seq<u8>, Error> {
    if source.len() < 33 {
        Err(Error::EndOfStream)
    } else {
        construct(kind, source[0], source.subrange(1, 33))
    }
}

/// What reading a commitment from hexadecimal text gives.
pub open spec fn parse_hex(kind: CommitmentKind, text: Seq<char>) -> Result<Seq<u8>, Error> {
    if !is_hex(text) {
        Err(Error::MalformedHex)
    } else {
        parse(kind, hex_bytes(text))
    }
}

/// The outcome of an operation on the raw 33 bytes, with the bytes as a
/// sequence.
pub open spec fn raw_outcome(r: Result<[u8; 33], Error>) -> Result<Seq<u8>, Error> {
    match r {
        Ok(bytes) => Ok(bytes@),
        Err(e) => Err(e),
    }
}

/// Building and reading back: the wire form of a commitment built from a
/// valid tag and a 32-byte body reads back as the same commitment, from a
/// byte string, from a stream whatever follows it there, and from its
/// hexadecimal text.
pub proof fn lemma_round_trip(kind: CommitmentKind, tag: u8, body: Seq<u8>, rest: Seq<u8>)
    requires
        valid_tag(kind, tag),
        body.len() == 32,
    ensures
        construct(kind, tag, body) == Ok::<Seq<u8>, Error>(seq![tag] + body),
        parse(kind, seq![tag] + body) == construct(kind, tag, body),
        decode(kind, seq![tag] + body + rest) == construct(kind, tag, body),
        parse_hex(kind, hex_text(seq![tag] + body)) == construct(kind, tag, body),
{
    let wire = seq![tag] + body;
    assert(wire.subrange(1, wire.len() as int) =~= body);
    assert((wire + rest).subrange(1, 33) =~= body);
    lemma_hex_round_trip(wire);
}

/// A tag outside the kind's pair is refused as an invalid prefix, whatever
/// the 32-byte body.
pub proof fn lemma_tag_rejection(kind: CommitmentKind, tag: u8, body: Seq<u8>)
    requires
        !valid_tag(kind, tag),
        body.len() == 32,
    ensures
        construct(kind, tag, body) == Err::<Seq<u8>, Error>(Error::InvalidPrefix(tag)),
{
}

/// A body of any length but 32 is refused as an invalid length, whatever the
/// tag; so is every byte string of a length other than 33.
pub proof fn lemma_length_rejection(kind: CommitmentKind, tag: u8, body: Seq<u8>, bytes: Seq<u8>)
    requires
        body.len() != 32,
        bytes.len() != 33,
    ensures
        construct(kind, tag, body) == Err::<Seq<u8>, Error>(Error::InvalidLength),
        parse(kind, bytes) == Err::<Seq<u8>, Error>(Error::InvalidLength),
{
}

/// No byte string is accepted by two kinds: what begins with a valid tag of
/// one kind is refused by each of the others.
pub proof fn lemma_kinds_disjoint(first: CommitmentKind, second: CommitmentKind, bytes: Seq<u8>)
    requires
        first != second,
        bytes.len() > 0,
        valid_tag(first, bytes[0]),
    ensures
        parse(second, bytes) is Err,
        bytes.len() >= 33 ==> decode(second, bytes) == Err::<Seq<u8>, Error>(
            Error::InvalidPrefix(bytes[0]),
        ),
        bytes.len() == 33 ==> parse(second, bytes) == Err::<Seq<u8>, Error>(
            Error::InvalidPrefix(bytes[0]),
        ),
{
}

/// Whether `a` comes before `b` in byte-wise order: at the first place where
/// they differ, `a` holds the smaller byte.
pub open spec fn bytes_before(a: Seq<u8>, b: Seq<u8>) -> bool {
    exists|i: int|
        0 <= i < a.len() && i < b.len() && #[trigger] a[i] < b[i] && a.take(i) == b.take(i)
}

/// The byte-wise order of two wire forms of equal length.
pub open spec fn bytewise_order(a: Seq<u8>, b: Seq<u8>) -> Ordering {
    if a == b {
        Ordering::Equal
    } else if bytes_before(a, b) {
        Ordering::Less
    } else {
        Ordering::Greater
    }
}

/// The first place at which two wire forms differ, if they differ.
pub fn first_difference(a: &[u8; 33], b: &[u8; 33]) -> (place: Option<usize>)
    ensures
        place is None <==> a@ == b@,
        place matches Some(i) ==> i < 33 && a@[i as int] != b@[i as int] && a@.take(i as int)
            == b@.take(i as int),
{
    let mut i: usize = 0;
    while i < 33
        invariant
            i <= 33,
            a@.take(i as int) == b@.take(i as int),
        decreases 33 - i,
    {
        if a[i] != b[i] {
            return Some(i);
        }
        assert(a@.take(i + 1) =~= a@.take(i as int).push(a@[i as int]));
        assert(b@.take(i + 1) =~= b@.take(i as int).push(b@[i as int]));
        i += 1;
    }
    assert(a@.take(33) =~= a@);
    assert(b@.take(33) =~= b@);
    None
}

/// Where two wire forms differ first, the bytes at that place decide their
/// order.
pub proof fn lemma_first_difference_decides(a: Seq<u8>, b: Seq<u8>, i: int)
    requires
        0 <= i < a.len(),
        i < b.len(),
        a[i] != b[i],
        a.take(i) == b.take(i),
    ensures
        a != b,
        bytes_before(a, b) <==> a[i] < b[i],
{
    if bytes_before(a, b) {
        let k = choose|k: int|
            0 <= k < a.len() && k < b.len() && #[trigger] a[k] < b[k] && a.take(k) == b.take(k);
        if k < i {
            assert(a.take(i)[k] == a[k]);
            assert(b.take(i)[k] == b[k]);
        }
        if i < k {
            assert(a.take(k)[i] == a[i]);
            assert(b.take(k)[i] == b[i]);
        }
    }
    if a[i] < b[i] {
        assert(bytes_before(a, b));
    }
}

/// Two different wire forms of one length differ at a first place.
pub proof fn lemma_first_difference_exists(a: Seq<u8>, b: Seq<u8>, from: int) -> (i: int)
    requires
        a.len() == b.len(),
        a != b,
        0 <= from <= a.len(),
        a.take(from) == b.take(from),
    ensures
        0 <= i < a.len(),
        a[i] != b[i],
        a.take(i) == b.take(i),
    decreases a.len() - from,
{
    if from == a.len() {
        assert(a.take(from) =~= a);
        assert(b.take(from) =~= b);
        from
    } else if a[from] != b[from] {
        from
    } else {
        assert(a.take(from + 1) =~= a.take(from).push(a[from]));
        assert(b.take(from + 1) =~= b.take(from).push(b[from]));
        lemma_first_difference_exists(a, b, from + 1)
    }
}

/// The byte-wise order is total on wire forms of one length: of two
/// different ones exactly one comes before the other, and turning the pair
/// round turns the order round.
pub proof fn lemma_order_total(a: Seq<u8>, b: Seq<u8>)
    requires
        a.len() == b.len(),
    ensures
        bytewise_order(a, b) == Ordering::Equal <==> a == b,
        bytewise_order(a, b) == Ordering::Less <==> bytewise_order(b, a) == Ordering::Greater,
        bytewise_order(a, b) == Ordering::Equal <==> bytewise_order(b, a) == Ordering::Equal,
{
    if a != b {
        assert(a.take(0) =~= b.take(0));
        let i = lemma_first_difference_exists(a, b, 0);
        lemma_first_difference_decides(a, b, i);
        lemma_first_difference_decides(b, a, i);
    }
}

/// Whether `a` comes before `b` in byte-wise order, or `None` where the
/// two are equal.
pub fn comes_before(a: &[u8; 33], b: &[u8; 33]) -> (before: Option<bool>)
    ensures
        before is None <==> a@ == b@,
        before matches Some(less) ==> less == bytes_before(a@, b@),
{
    match first_difference(a, b) {
        None => None,
        Some(i) => {
            proof {
                lemma_first_difference_decides(a@, b@, i as int);
            }
            Some(a[i] < b[i])
        },
    }
}

/// The byte-wise order of two wire forms.
pub fn order_bytes(a: &[u8; 33], b: &[u8; 33]) -> (order: Ordering)
    ensures
        order == bytewise_order(a@, b@),
{
    match comes_before(a, b) {
        None => Ordering::Equal,
        Some(true) => Ordering::Less,
        Some(false) => Ordering::Greater,
    }
}

/// Whether `tag` is one of the two tag bytes of `kind`.
pub fn is_valid_tag(kind: CommitmentKind, tag: u8) -> (valid: bool)
    ensures
        valid == valid_tag(kind, tag),
{
    match kind {
        CommitmentKind::Asset => tag == 0x0a || tag == 0x0b,
        CommitmentKind::Value => tag == 0x08 || tag == 0x09,
        CommitmentKind::Nonce => tag == 0x02 || tag == 0x03,
    }
}

/// Builds the 33 bytes of a commitment of `kind` from its tag and body.
pub fn build_commitment(kind: CommitmentKind, tag: u8, body: &[u8]) -> (r: Result<[u8; 33], Error>)
    ensures
        raw_outcome(r) == construct(kind, tag, body@),
{
    if body.len() != 32 {
        return Err(Error::InvalidLength);
    }
    if !is_valid_tag(kind, tag) {
        return Err(Error::InvalidPrefix(tag));
    }
    let mut bytes = [0u8; 33];
    bytes[0] = tag;
    let mut i: usize = 0;
    while i < 32
        invariant
            i <= 32,
            body@.len() == 32,
            bytes@[0] == tag,
            forall|j: int| 0 <= j < i ==> bytes@[j + 1] == body@[j],
        decreases 32 - i,
    {
        bytes[i + 1] = body[i];
        i += 1;
    }
    assert(bytes@ =~= seq![tag] + body@);
    Ok(bytes)
}

/// Reads the 33 bytes of a commitment of `kind` from a byte string that
/// holds nothing else.
pub fn parse_commitment(kind: CommitmentKind, bytes: &[u8]) -> (r: Result<[u8; 33], Error>)
    ensures
        raw_outcome(r) == parse(kind, bytes@),
{
    if bytes.len() == 0 {
        return Err(Error::InvalidLength);
    }
    build_commitment(kind, bytes[0], slice_subrange(bytes, 1, bytes.len()))
}

/// Reads the 33 bytes of a commitment of `kind` from the front of `source`.
pub fn decode_commitment(kind: CommitmentKind, source: &[u8]) -> (r: Result<[u8; 33], Error>)
    ensures
        raw_outcome(r) == decode(kind, source@),
{
    if source.len() < 33 {
        return Err(Error::EndOfStream);
    }
    build_commitment(kind, source[0], slice_subrange(source, 1, 33))
}

/// Reads the 33 bytes of a commitment of `kind` from hexadecimal text.
pub fn parse_hex_commitment(kind: CommitmentKind, text: &str) -> (r: Result<[u8; 33], Error>)
    ensures
        raw_outcome(r) == parse_hex(kind, text@),
{
    match decode_hex(text) {
        Some(bytes) => parse_commitment(kind, bytes.as_slice()),
        None => Err(Error::MalformedHex),
    }
}

/// A commitment to an asset type: one of the tag bytes 0x0a and 0x0b, then 32 bytes.
#[derive(Copy, Clone, Debug, Eq, Hash, Ord)]
pub struct AssetCommitment([u8; 33]);

impl View for AssetCommitment {
    type V = Seq<u8>;

    /// The 33 bytes of the wire form.
    closed spec fn view(&self) -> Seq<u8> {
        self.0@
    }
}

/// Two commitments are equal where their wire forms are.
impl PartialEq for AssetCommitment {
    fn eq(&self, other: &Self) -> (equal: bool) {
        first_difference(&self.0, &other.0).is_none()
    }
}

impl PartialEqSpecImpl for AssetCommitment {
    open spec fn obeys_eq_spec() -> bool {
        true
    }

    open spec fn eq_spec(&self, other: &Self) -> bool {
        self@ == other@
    }
}

/// Commitments are ordered as their wire forms are, byte by byte.
impl PartialOrd for AssetCommitment {
    fn partial_cmp(&self, other: &Self) -> (order: Option<Ordering>) {
        Some(order_bytes(&self.0, &other.0))
    }
}

impl PartialOrdSpecImpl for AssetCommitment {
    open spec fn obeys_partial_cmp_spec() -> bool {
        true
    }

    open spec fn partial_cmp_spec(&self, other: &Self) -> Option<Ordering> {
        Some(bytewise_order(self@, other@))
    }
}

impl AssetCommitment {
    #[verifier::type_invariant]
    spec fn tagged(self) -> bool {
        valid_tag(CommitmentKind::Asset, self.0@[0])
    }

    /// The outcome of a fallible constructor, with the commitment as its
    /// 33 bytes.
    pub open spec fn outcome(r: Result<Self, Error>) -> Result<Seq<u8>, Error> {
        match r {
            Ok(c) => Ok(c@),
            Err(e) => Err(e),
        }
    }

    /// Whether `tag` is 0x0a or 0x0b.
    pub fn is_valid_prefix(tag: u8) -> (valid: bool)
        ensures
            valid == valid_tag(CommitmentKind::Asset, tag),
    {
        is_valid_tag(CommitmentKind::Asset, tag)
    }

    /// The commitment with the given tag and 32-byte body.
    pub fn new(tag: u8, commitment: &[u8]) -> (r: Result<Self, Error>)
        ensures
            Self::outcome(r) == construct(CommitmentKind::Asset, tag, commitment@),
    {
        match build_commitment(CommitmentKind::Asset, tag, commitment) {
            Ok(bytes) => Ok(AssetCommitment(bytes)),
            Err(e) => Err(e),
        }
    }

    /// The commitment whose wire form is `bytes`.
    pub fn from_slice(bytes: &[u8]) -> (r: Result<Self, Error>)
        ensures
            Self::outcome(r) == parse(CommitmentKind::Asset, bytes@),
    {
        match parse_commitment(CommitmentKind::Asset, bytes) {
            Ok(bytes) => Ok(AssetCommitment(bytes)),
            Err(e) => Err(e),
        }
    }

    /// The commitment whose wire form `hex` spells in hexadecimal digits.
    pub fn from_hex(hex: &str) -> (r: Result<Self, Error>)
        ensures
            Self::outcome(r) == parse_hex(CommitmentKind::Asset, hex@),
    {
        match parse_hex_commitment(CommitmentKind::Asset, hex) {
            Ok(bytes) => Ok(AssetCommitment(bytes)),
            Err(e) => Err(e),
        }
    }

    /// The 33 bytes of the wire form: the tag, then the body.
    pub fn commitment(&self) -> (bytes: [u8; 33])
        ensures
            bytes@ == self@,
            valid_tag(CommitmentKind::Asset, bytes@[0]),
    {
        proof {
            use_type_invariant(self);
        }
        self.0
    }

    /// The length of the wire form, which is always 33.
    pub fn encoded_length(&self) -> (n: usize)
        ensures
            n == 33,
            n == self@.len(),
    {
        33
    }

    /// Appends the wire form to `s`, with no length before it, and returns
    /// the number of bytes written.
    pub fn consensus_encode(&self, s: &mut Vec<u8>) -> (n: usize)
        ensures
            final(s)@ == old(s)@ + self@,
            n == 33,
    {
        put_bytes(s, self.0.as_slice());
        33
    }

    /// Reads a commitment from the first 33 bytes of `d`.
    pub fn consensus_decode(d: &[u8]) -> (r: Result<Self, Error>)
        ensures
            Self::outcome(r) == decode(CommitmentKind::Asset, d@),
    {
        match decode_commitment(CommitmentKind::Asset, d) {
            Ok(bytes) => Ok(AssetCommitment(bytes)),
            Err(e) => Err(e),
        }
    }

    /// The wire form in lower-case hexadecimal digits.
    pub fn to_hex(&self) -> (text: String)
        ensures
            text@ == hex_text(self@),
    {
        encode_hex(self.0.as_slice())
    }
}

/// A commitment to a transaction value: one of the tag bytes 0x08 and 0x09, then 32 bytes.
#[derive(Copy, Clone, Debug, Eq, Hash, Ord)]
pub struct ValueCommitment([u8; 33]);

impl View for ValueCommitment {
    type V = Seq<u8>;

    /// The 33 bytes of the wire form.
    closed spec fn view(&self) -> Seq<u8> {
        self.0@
    }
}

/// Two commitments are equal where their wire forms are.
impl PartialEq for ValueCommitment {
    fn eq(&self, other: &Self) -> (equal: bool) {
        first_difference(&self.0, &other.0).is_none()
    }
}

impl PartialEqSpecImpl for ValueCommitment {
    open spec fn obeys_eq_spec() -> bool {
        true
    }

    open spec fn eq_spec(&self, other: &Self) -> bool {
        self@ == other@
    }
}

/// Commitments are ordered as their wire forms are, byte by byte.
impl PartialOrd for ValueCommitment {
    fn partial_cmp(&self, other: &Self) -> (order: Option<Ordering>) {
        Some(order_bytes(&self.0, &other.0))
    }
}

impl PartialOrdSpecImpl for ValueCommitment {
    open spec fn obeys_partial_cmp_spec() -> bool {
        true
    }

    open spec fn partial_cmp_spec(&self, other: &Self) -> Option<Ordering> {
        Some(bytewise_order(self@, other@))
    }
}

impl ValueCommitment {
    #[verifier::type_invariant]
    spec fn tagged(self) -> bool {
        valid_tag(CommitmentKind::Value, self.0@[0])
    }

    /// The outcome of a fallible constructor, with the commitment as its
    /// 33 bytes.
    pub open spec fn outcome(r: Result<Self, Error>) -> Result<Seq<u8>, Error> {
        match r {
            Ok(c) => Ok(c@),
            Err(e) => Err(e),
        }
    }

    /// Whether `tag` is 0x08 or 0x09.
    pub fn is_valid_prefix(tag: u8) -> (valid: bool)
        ensures
            valid == valid_tag(CommitmentKind::Value, tag),
    {
        is_valid_tag(CommitmentKind::Value, tag)
    }

    /// The commitment with the given tag and 32-byte body.
    pub fn new(tag: u8, commitment: &[u8]) -> (r: Result<Self, Error>)
        ensures
            Self::outcome(r) == construct(CommitmentKind::Value, tag, commitment@),
    {
        match build_commitment(CommitmentKind::Value, tag, commitment) {
            Ok(bytes) => Ok(ValueCommitment(bytes)),
            Err(e) => Err(e),
        }
    }

    /// The commitment whose wire form is `bytes`.
    pub fn from_slice(bytes: &[u8]) -> (r: Result<Self, Error>)
        ensures
            Self::outcome(r) == parse(CommitmentKind::Value, bytes@),
    {
        match parse_commitment(CommitmentKind::Value, bytes) {
            Ok(bytes) => Ok(ValueCommitment(bytes)),
            Err(e) => Err(e),
        }
    }

    /// The commitment whose wire form `hex` spells in hexadecimal digits.
    pub fn from_hex(hex: &str) -> (r: Result<Self, Error>)
        ensures
            Self::outcome(r) == parse_hex(CommitmentKind::Value, hex@),
    {
        match parse_hex_commitment(CommitmentKind::Value, hex) {
            Ok(bytes) => Ok(ValueCommitment(bytes)),
            Err(e) => Err(e),
        }
    }

    /// The 33 bytes of the wire form: the tag, then the body.
    pub fn commitment(&self) -> (bytes: [u8; 33])
        ensures
            bytes@ == self@,
            valid_tag(CommitmentKind::Value, bytes@[0]),
    {
        proof {
            use_type_invariant(self);
        }
        self.0
    }

    /// The length of the wire form, which is always 33.
    pub fn encoded_length(&self) -> (n: usize)
        ensures
            n == 33,
            n == self@.len(),
    {
        33
    }

    /// Appends the wire form to `s`, with no length before it, and returns
    /// the number of bytes written.
    pub fn consensus_encode(&self, s: &mut Vec<u8>) -> (n: usize)
        ensures
            final(s)@ == old(s)@ + self@,
            n == 33,
    {
        put_bytes(s, self.0.as_slice());
        33
    }

    /// Reads a commitment from the first 33 bytes of `d`.
    pub fn consensus_decode(d: &[u8]) -> (r: Result<Self, Error>)
        ensures
            Self::outcome(r) == decode(CommitmentKind::Value, d@),
    {
        match decode_commitment(CommitmentKind::Value, d) {
            Ok(bytes) => Ok(ValueCommitment(bytes)),
            Err(e) => Err(e),
        }
    }

    /// The wire form in lower-case hexadecimal digits.
    pub fn to_hex(&self) -> (text: String)
        ensures
            text@ == hex_text(self@),
    {
        encode_hex(self.0.as_slice())
    }
}

/// A commitment to a blinding nonce: one of the tag bytes 0x02 and 0x03, then 32 bytes.
#[derive(Copy, Clone, Debug, Eq, Hash, Ord)]
pub struct NonceCommitment([u8; 33]);

impl View for NonceCommitment {
    type V = Seq<u8>;

    /// The 33 bytes of the wire form.
    closed spec fn view(&self) -> Seq<u8> {
        self.0@
    }
}

/// Two commitments are equal where their wire forms are.
impl PartialEq for NonceCommitment {
    fn eq(&self, other: &Self) -> (equal: bool) {
        first_difference(&self.0, &other.0).is_none()
    }
}

impl PartialEqSpecImpl for NonceCommitment {
    open spec fn obeys_eq_spec() -> bool {
        true
    }

    open spec fn eq_spec(&self, other: &Self) -> bool {
        self@ == other@
    }
}

/// Commitments are ordered as their wire forms are, byte by byte.
impl PartialOrd for NonceCommitment {
    fn partial_cmp(&self, other: &Self) -> (order: Option<Ordering>) {
        Some(order_bytes(&self.0, &other.0))
    }
}

impl PartialOrdSpecImpl for NonceCommitment {
    open spec fn obeys_partial_cmp_spec() -> bool {
        true
    }

    open spec fn partial_cmp_spec(&self, other: &Self) -> Option<Ordering> {
        Some(bytewise_order(self@, other@))
    }
}

impl NonceCommitment {
    #[verifier::type_invariant]
    spec fn tagged(self) -> bool {
        valid_tag(CommitmentKind::Nonce, self.0@[0])
    }

    /// The outcome of a fallible constructor, with the commitment as its
    /// 33 bytes.
    pub open spec fn outcome(r: Result<Self, Error>) -> Result<Seq<u8>, Error> {
        match r {
            Ok(c) => Ok(c@),
            Err(e) => Err(e),
        }
    }

    /// Whether `tag` is 0x02 or 0x03.
    pub fn is_valid_prefix(tag: u8) -> (valid: bool)
        ensures
            valid == valid_tag(CommitmentKind::Nonce, tag),
    {
        is_valid_tag(CommitmentKind::Nonce, tag)
    }

    /// The commitment with the given tag and 32-byte body.
    pub fn new(tag: u8, commitment: &[u8]) -> (r: Result<Self, Error>)
        ensures
            Self::outcome(r) == construct(CommitmentKind::Nonce, tag, commitment@),
    {
        match build_commitment(CommitmentKind::Nonce, tag, commitment) {
            Ok(bytes) => Ok(NonceCommitment(bytes)),
            Err(e) => Err(e),
        }
    }

    /// The commitment whose wire form is `bytes`.
    pub fn from_slice(bytes: &[u8]) -> (r: Result<Self, Error>)
        ensures
            Self::outcome(r) == parse(CommitmentKind::Nonce, bytes@),
    {
        match parse_commitment(CommitmentKind::Nonce, bytes) {
            Ok(bytes) => Ok(NonceCommitment(bytes)),
            Err(e) => Err(e),
        }
    }

    /// The commitment whose wire form `hex` spells in hexadecimal digits.
    pub fn from_hex(hex: &str) -> (r: Result<Self, Error>)
        ensures
            Self::outcome(r) == parse_hex(CommitmentKind::Nonce, hex@),
    {
        match parse_hex_commitment(CommitmentKind::Nonce, hex) {
            Ok(bytes) => Ok(NonceCommitment(bytes)),
            Err(e) => Err(e),
        }
    }

    /// The 33 bytes of the wire form: the tag, then the body.
    pub fn commitment(&self) -> (bytes: [u8; 33])
        ensures
            bytes@ == self@,
            valid_tag(CommitmentKind::Nonce, bytes@[0]),
    {
        proof {
            use_type_invariant(self);
        }
        self.0
    }

    /// The length of the wire form, which is always 33.
    pub fn encoded_length(&self) -> (n: usize)
        ensures
            n == 33,
            n == self@.len(),
    {
        33
    }

    /// Appends the wire form to `s`, with no length before it, and returns
    /// the number of bytes written.
    pub fn consensus_encode(&self, s: &mut Vec<u8>) -> (n: usize)
        ensures
            final(s)@ == old(s)@ + self@,
            n == 33,
    {
        put_bytes(s, self.0.as_slice());
        33
    }

    /// Reads a commitment from the first 33 bytes of `d`.
    pub fn consensus_decode(d: &[u8]) -> (r: Result<Self, Error>)
        ensures
            Self::outcome(r) == decode(CommitmentKind::Nonce, d@),
    {
        match decode_commitment(CommitmentKind::Nonce, d) {
            Ok(bytes) => Ok(NonceCommitment(bytes)),
            Err(e) => Err(e),
        }
    }

    /// The wire form in lower-case hexadecimal digits.
    pub fn to_hex(&self) -> (text: String)
        ensures
            text@ == hex_text(self@),
    {
        encode_hex(self.0.as_slice())
    }
}

} // verus!
