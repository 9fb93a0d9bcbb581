//! The contract interface the indexer reads token metadata through, and the
//! encoding of its calls and answers.
//!
//! Every method of the interface takes no argument, so a call's data is the
//! method's selector: the first four bytes of the Keccak-256 digest of its
//! signature. Answers are decoded by `alloy-sol-types`, with validation.
use vstd::prelude::*;
use alloy_sol_types::SolType;

verus! {

/// A view method of a token contract that the indexer calls.
#[derive(Clone, Copy, Debug, PartialEq, Eq, Structural)]
pub enum TokenMethod {
    /// `name() returns (string)`
    Name,
    /// `symbol() returns (string)`
    Symbol,
    /// `decimals() returns (uint8)`
    Decimals,
    /// `totalSupply() returns (uint256)`
    TotalSupply,
    /// `contractURI() returns (string)`
    ContractUri,
}

/// The type a method answers with.
#[derive(Clone, Copy, Debug, PartialEq, Eq, Structural)]
pub enum ReturnKind {
    Text,
    Uint8,
    Uint256,
}

/// The canonical signature of a method.
pub open spec fn method_signature(method: TokenMethod) -> Seq<char> {
    match method {
        TokenMethod::Name => "name()"@,
        TokenMethod::Symbol => "symbol()"@,
        TokenMethod::Decimals => "decimals()"@,
        TokenMethod::TotalSupply => "totalSupply()"@,
        TokenMethod::ContractUri => "contractURI()"@,
    }
}

/// The type of a method's answer.
pub open spec fn return_kind(method: TokenMethod) -> ReturnKind {
    match method {
        TokenMethod::Name | TokenMethod::Symbol | TokenMethod::ContractUri => ReturnKind::Text,
        TokenMethod::Decimals => ReturnKind::Uint8,
        TokenMethod::TotalSupply => ReturnKind::Uint256,
    }
}

/// The Keccak-256 digest of the UTF-8 encoding of `text`.
pub uninterp spec fn keccak256_of_text(text: Seq<char>) -> Seq<u8>;

/// The selector of a method: the first four bytes of the digest of its signature.
pub open spec fn spec_selector(method: TokenMethod) -> Seq<u8> {
    keccak256_of_text(method_signature(method)).subrange(0, 4)
}

/// Calls `alloy_primitives::keccak256` on the UTF-8 bytes of `text`. The
/// contract claims that the 32-byte digest depends on `text` alone.
#[verifier::external_body]
fn keccak256_text(text: &str) -> (r: Vec<u8>)
    ensures
        r@ == keccak256_of_text(text@),
        r@.len() == 32,
{
    alloy_primitives::keccak256(text.as_bytes()).to_vec()
}

impl TokenMethod {
    /// The canonical signature of the method.
    pub fn signature(&self) -> (r: &'static str)
        ensures
            r@ == method_signature(*self),
    {
        match self {
            TokenMethod::Name => "name()",
            TokenMethod::Symbol => "symbol()",
            TokenMethod::Decimals => "decimals()",
            TokenMethod::TotalSupply => "totalSupply()",
            TokenMethod::ContractUri => "contractURI()",
        }
    }

    /// The type of the method's answer.
    pub fn return_kind(&self) -> (r: ReturnKind)
        ensures
            r == return_kind(*self),
    {
        match self {
            TokenMethod::Name | TokenMethod::Symbol | TokenMethod::ContractUri => ReturnKind::Text,
            TokenMethod::Decimals => ReturnKind::Uint8,
            TokenMethod::TotalSupply => ReturnKind::Uint256,
        }
    }

    /// The four-byte selector of the method.
    pub fn selector(&self) -> (r: Vec<u8>)
        ensures
            r@ == spec_selector(*self),
            r@.len() == 4,
    {
        let mut digest = keccak256_text(self.signature());
        digest.truncate(4);
        digest
    }

    /// The data of a call of the method: its selector, since it takes no argument.
    pub fn calldata(&self) -> (r: Vec<u8>)
        ensures
            r@ == spec_selector(*self),
            r@.len() == 4,
    {
        self.selector()
    }
}

/// A decoded answer.
#[derive(Clone, Debug, PartialEq, Eq)]
pub enum CallOutput {
    Text(String),
    Uint8(u8),
    /// A `uint256`, as its 32 big-endian bytes.
    Uint256(Vec<u8>),
}

/// A decoded answer, as plain values.
pub enum CallOutputView {
    Text(Seq<char>),
    Uint8(u8),
    Uint256(Seq<u8>),
}

impl View for CallOutput {
    type V = CallOutputView;

    open spec fn view(&self) -> CallOutputView {
        match self {
            CallOutput::Text(s) => CallOutputView::Text(s@),
            CallOutput::Uint8(v) => CallOutputView::Uint8(*v),
            CallOutput::Uint256(b) => CallOutputView::Uint256(b@),
        }
    }
}

/// What `alloy-sol-types` decodes, with validation, from the answer data of a
/// method returning `(string)`; `None` where it rejects the data.
pub uninterp spec fn abi_string_answer(data: Seq<u8>) -> Option<Seq<char>>;

/// The value of a big-endian byte string.
pub open spec fn be_value(bytes: Seq<u8>) -> nat
    decreases bytes.len(),
{
    if bytes.len() == 0 {
        0
    } else {
        be_value(bytes.drop_last()) * 256 + bytes.last() as nat
    }
}

/// The value of the 32-byte big-endian word of `data` at byte `start`.
pub open spec fn word_value(data: Seq<u8>, start: int) -> nat {
    be_value(data.subrange(start, start + 32))
}

/// The frame of the encoding of a single `string`: an offset word of 32, and a
/// length word no greater than the bytes that follow the two words. Every
/// encoding the validating decoder accepts has this frame, since it re-encodes
/// what it decoded and rejects data that differs.
pub open spec fn string_answer_framed(data: Seq<u8>) -> bool {
    &&& data.len() >= 64
    &&& word_value(data, 0) == 32
    &&& word_value(data, 32) <= data.len() - 64
}

proof fn lemma_be_value_prefix(s: Seq<u8>, j: int)
    requires
        0 <= j <= s.len(),
    ensures
        be_value(s.subrange(0, j)) <= be_value(s),
    decreases s.len(),
{
    if j < s.len() {
        lemma_be_value_prefix(s.drop_last(), j);
        assert(s.drop_last().subrange(0, j) =~= s.subrange(0, j));
    } else {
        assert(s.subrange(0, j) =~= s);
    }
}

/// The value of the word of `data` at byte `start`, where it is at most `cap`.
fn word_value_capped(data: &[u8], start: usize, cap: u64) -> (r: Option<u64>)
    requires
        start + 32 <= data.len(),
    ensures
        r is Some <==> word_value(data@, start as int) <= cap,
        r matches Some(v) ==> v == word_value(data@, start as int),
{
    let end = start + 32;
    let ghost word = data@.subrange(start as int, end as int);
    let mut v: u128 = 0;
    let mut i = start;
    assert(data@.subrange(start as int, start as int) =~= Seq::<u8>::empty());
    while i < end
        invariant
            start <= i <= end,
            end == start + 32,
            end <= data@.len(),
            word == data@.subrange(start as int, end as int),
            v == be_value(data@.subrange(start as int, i as int)),
            v <= cap,
        decreases end - i,
    {
        let next: u128 = v * 256 + data[i] as u128;
        assert(data@.subrange(start as int, i + 1).drop_last() =~= data@.subrange(start as int, i as int));
        assert(next == be_value(data@.subrange(start as int, i + 1)));
        if next > cap as u128 {
            proof {
                lemma_be_value_prefix(word, i + 1 - start);
                assert(word.subrange(0, i + 1 - start) =~= data@.subrange(start as int, i + 1));
            }
            return None;
        }
        v = next;
        i = i + 1;
    }
    assert(data@.subrange(start as int, i as int) =~= word);
    Some(v as u64)
}

/// Whether `data` has the frame of the encoding of a single `string`.
fn is_string_answer_framed(data: &[u8]) -> (r: bool)
    ensures
        r == string_answer_framed(data@),
{
    if data.len() < 64 {
        return false;
    }
    let offset_ok = match word_value_capped(data, 0, 32) {
        Some(v) => v == 32,
        None => false,
    };
    if !offset_ok {
        return false;
    }
    let room = (data.len() - 64) as u64;
    word_value_capped(data, 32, room).is_some()
}

/// The value of the answer data of a method returning `(uint8)`: exactly one
/// 32-byte word whose first 31 bytes are zero; the value is its last byte.
pub open spec fn abi_uint8_answer(data: Seq<u8>) -> Option<u8> {
    if data.len() == 32 && (forall|i: int| 0 <= i < 31 ==> #[trigger] data[i] == 0) {
        Some(data[31])
    } else {
        None
    }
}

/// The value of the answer data of a method returning `(uint256)`, as 32
/// big-endian bytes: exactly one 32-byte word, which is the value.
pub open spec fn abi_uint256_answer(data: Seq<u8>) -> Option<Seq<u8>> {
    if data.len() == 32 {
        Some(data)
    } else {
        None
    }
}

/// Calls `SolType::abi_decode_sequence` with validation for the return tuple
/// `(string,)`, as a `returns (string)` call's `abi_decode_returns` does. The
/// contract claims only that the outcome depends on `data` alone; it leaves
/// unsaid which data is accepted (the canonical encoding: an offset word of 32,
/// a length word, then the UTF-8 bytes padded with zeros to a whole word), since
/// no statement of UTF-8 decoding is at hand here. The decoder adds the length
/// word to the current offset unchecked, so the data must have the frame of a
/// `string` encoding, whose length word fits within the data.
#[verifier::external_body]
fn decode_string_answer(data: &[u8]) -> (r: Option<String>)
    requires
        string_answer_framed(data@),
    ensures
        r is Some <==> abi_string_answer(data@) is Some,
        r matches Some(s) ==> abi_string_answer(data@) == Some(s@),
{
    <(alloy_sol_types::sol_data::String,) as SolType>::abi_decode_sequence(data, true)
        .ok()
        .map(|t| t.0)
}

/// Calls `SolType::abi_decode_sequence` with validation for the return tuple
/// `(uint8,)`, as a `returns (uint8)` call's `abi_decode_returns` does. The
/// decoder takes one word, checks that its 31 high bytes are zero, and, with
/// validation, that re-encoding the value gives back `data` exactly, so that
/// `data` must be that one word.
#[verifier::external_body]
fn decode_uint8_answer(data: &[u8]) -> (r: Option<u8>)
    ensures
        r == abi_uint8_answer(data@),
{
    <(alloy_sol_types::sol_data::Uint<8>,) as SolType>::abi_decode_sequence(data, true)
        .ok()
        .map(|t| t.0)
}

/// Calls `SolType::abi_decode_sequence` with validation for the return tuple
/// `(uint256,)`, as a `returns (uint256)` call's `abi_decode_returns` does, and
/// gives the value's 32 big-endian bytes. The decoder takes one word and, with
/// validation, checks that re-encoding the value gives back `data` exactly, so
/// that `data` must be that one word.
#[verifier::external_body]
fn decode_uint256_answer(data: &[u8]) -> (r: Option<Vec<u8>>)
    ensures
        r is Some <==> abi_uint256_answer(data@) is Some,
        r matches Some(b) ==> abi_uint256_answer(data@) == Some(b@),
{
    <(alloy_sol_types::sol_data::Uint<256>,) as SolType>::abi_decode_sequence(data, true)
        .ok()
        .map(|t| t.0.to_be_bytes::<32>().to_vec())
}

/// What a method's answer data decodes to, by the type of the answer.
pub open spec fn spec_decode_answer(method: TokenMethod, data: Seq<u8>) -> Option<CallOutputView> {
    match return_kind(method) {
        ReturnKind::Text => if string_answer_framed(data) {
            match abi_string_answer(data) {
                Some(s) => Some(CallOutputView::Text(s)),
                None => None,
            }
        } else {
            None
        },
        ReturnKind::Uint8 => match abi_uint8_answer(data) {
            Some(v) => Some(CallOutputView::Uint8(v)),
            None => None,
        },
        ReturnKind::Uint256 => match abi_uint256_answer(data) {
            Some(b) => Some(CallOutputView::Uint256(b)),
            None => None,
        },
    }
}

/// Decodes the answer data of a call of `method`; `None` where the data is no
/// valid encoding of the method's return type. A `string` answer is handed to
/// the decoder only where it has the frame of a `string` encoding.
pub fn decode_answer(method: TokenMethod, data: &[u8]) -> (r: Option<CallOutput>)
    ensures
        r is Some <==> spec_decode_answer(method, data@) is Some,
        r matches Some(out) ==> spec_decode_answer(method, data@) == Some(out@),
        r matches Some(out) ==> (out is Text <==> return_kind(method) == ReturnKind::Text),
        r matches Some(out) ==> (out is Uint8 <==> return_kind(method) == ReturnKind::Uint8),
        r matches Some(CallOutput::Uint256(b)) ==> b@.len() == 32,
{
    match method.return_kind() {
        ReturnKind::Text => {
            if !is_string_answer_framed(data) {
                return None;
            }
            match decode_string_answer(data) {
                Some(s) => Some(CallOutput::Text(s)),
                None => None,
            }
        },
        ReturnKind::Uint8 => match decode_uint8_answer(data) {
            Some(v) => Some(CallOutput::Uint8(v)),
            None => None,
        },
        ReturnKind::Uint256 => match decode_uint256_answer(data) {
            Some(b) => Some(CallOutput::Uint256(b)),
            None => None,
        },
    }
}

/// What an answer decodes to, by the method's return type: a framed `string`
/// encoding that the decoder accepts gives its text, whatever its length; a
/// single word gives a `uint256` of all its bytes; a single word whose 31 high
/// bytes are zero gives a `uint8` of its last byte; anything else gives nothing.
pub proof fn lemma_decode_answer_meaning(method: TokenMethod, data: Seq<u8>)
    ensures
        (method is Name || method is Symbol || method is ContractUri) ==> (forall|s: Seq<char>|
            string_answer_framed(data) && abi_string_answer(data) == Some(s) ==> spec_decode_answer(
                method,
                data,
            ) == Some(CallOutputView::Text(s))),
        (method is Name || method is Symbol || method is ContractUri) && (!string_answer_framed(data)
            || abi_string_answer(data) is None) ==> spec_decode_answer(method, data) is None,
        method is TotalSupply && data.len() == 32 ==> spec_decode_answer(method, data) == Some(
            CallOutputView::Uint256(data),
        ),
        method is TotalSupply && data.len() != 32 ==> spec_decode_answer(method, data) is None,
        method is Decimals && data.len() == 32 && (forall|i: int| 0 <= i < 31 ==> data[i] == 0)
            ==> spec_decode_answer(method, data) == Some(CallOutputView::Uint8(data[31])),
        method is Decimals && (data.len() != 32 || (exists|i: int| 0 <= i < 31 && data[i] != 0))
            ==> spec_decode_answer(method, data) is None,
{
}

} // verus!
