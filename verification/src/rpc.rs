//! Batched `eth_call` requests for token metadata: the calls that go out, and
//! what becomes of each answer that comes back.
//!
//! The JSON-RPC endpoint answers an `eth_call` with the returned data as a hex
//! string (with or without a `0x` prefix). Each answer in a batch is decoded on
//! its own: a transport failure, a string that is no hex, or data that is no
//! valid encoding of the method's return type each make that one answer fail.
use vstd::prelude::*;
use crate::abi::{decode_answer, spec_decode_answer, spec_selector, CallOutput, CallOutputView, TokenMethod};

verus! {

/// A `Result` taken by the views of what it holds.
pub open spec fn result_view<T: View, E: View>(r: Result<T, E>) -> Result<T::V, E::V> {
    match r {
        Ok(t) => Ok(t@),
        Err(e) => Err(e@),
    }
}

/// Whether `c` is a hexadecimal digit, in either case.
pub open spec fn is_hex_digit(c: char) -> bool {
    ||| ('0' as u32 <= c as u32 && c as u32 <= '9' as u32)
    ||| ('a' as u32 <= c as u32 && c as u32 <= 'f' as u32)
    ||| ('A' as u32 <= c as u32 && c as u32 <= 'F' as u32)
}

/// The value of a hexadecimal digit.
pub open spec fn hex_value(c: char) -> int {
    if '0' as u32 <= c as u32 && c as u32 <= '9' as u32 {
        c as u32 - '0' as u32
    } else if 'a' as u32 <= c as u32 && c as u32 <= 'f' as u32 {
        c as u32 - 'a' as u32 + 10
    } else {
        c as u32 - 'A' as u32 + 10
    }
}

/// The bytes that pairs of hex digits stand for, high digit first; `None`
/// unless `text` is an even number of hex digits.
pub open spec fn hex_pairs(text: Seq<char>) -> Option<Seq<u8>> {
    if text.len() % 2 == 0 && (forall|i: int| 0 <= i < text.len() ==> is_hex_digit(#[trigger] text[i])) {
        Some(
            Seq::new(
                (text.len() / 2) as nat,
                |k: int| (16 * hex_value(text[2 * k]) + hex_value(text[2 * k + 1])) as u8,
            ),
        )
    } else {
        None
    }
}

/// The bytes a hex string stands for, with or without a `0x` prefix.
pub open spec fn spec_parse_hex_text(text: Seq<char>) -> Option<Seq<u8>> {
    if text.len() >= 2 && text[0] == '0' && text[1] == 'x' {
        hex_pairs(text.subrange(2, text.len() as int))
    } else {
        hex_pairs(text)
    }
}

/// Calls `blockscout_display_bytes::Bytes::from_str`, which strips one leading
/// `0x` and hands the rest to `hex::decode`: it succeeds exactly on an even
/// number of hex digits of either case, each pair giving one byte. A non-ASCII
/// character is never a hex digit, so counting characters or bytes agrees
/// wherever the decoding can succeed.
#[verifier::external_body]
fn parse_hex_text(text: &str) -> (r: Option<Vec<u8>>)
    ensures
        r is Some <==> spec_parse_hex_text(text@) is Some,
        r matches Some(b) ==> spec_parse_hex_text(text@) == Some(b@),
{
    <blockscout_display_bytes::Bytes as std::str::FromStr>::from_str(text).ok().map(|b| b.to_vec())
}

/// Decodes a hex string, with or without a `0x` prefix; `None` unless the rest
/// is an even number of hex digits.
pub fn decode_hex_text(text: &str) -> (r: Option<Vec<u8>>)
    ensures
        r is Some <==> spec_parse_hex_text(text@) is Some,
        r matches Some(b) ==> spec_parse_hex_text(text@) == Some(b@),
{
    parse_hex_text(text)
}

/// Why the decoding of an answer failed.
#[derive(Clone, Copy, Debug, PartialEq, Eq, Structural)]
pub enum InternalError {
    /// The returned data was no hex string.
    HexDecode,
    /// The returned data was no valid encoding of the method's return type.
    AbiDecode,
}

/// Why one call of a batch gave no answer.
#[derive(Clone, Debug, PartialEq, Eq)]
pub enum RpcClientError {
    /// The transport or the endpoint failed; the message says how.
    Rpc(String),
    /// The answer could not be decoded.
    Internal(InternalError),
}

/// An error, as plain values.
pub enum RpcClientErrorView {
    Rpc(Seq<char>),
    Internal(InternalError),
}

impl View for RpcClientError {
    type V = RpcClientErrorView;

    open spec fn view(&self) -> RpcClientErrorView {
        match self {
            RpcClientError::Rpc(m) => RpcClientErrorView::Rpc(m@),
            RpcClientError::Internal(e) => RpcClientErrorView::Internal(*e),
        }
    }
}

/// What becomes of one answer of a batch of calls of `method`: the transport's
/// message where the call failed, else the hex decoding of the returned data,
/// then its ABI decoding.
pub open spec fn spec_decode_call_result(
    method: TokenMethod,
    raw: Result<Seq<char>, Seq<char>>,
) -> Result<CallOutputView, RpcClientErrorView> {
    match raw {
        Err(message) => Err(RpcClientErrorView::Rpc(message)),
        Ok(text) => match spec_parse_hex_text(text) {
            None => Err(RpcClientErrorView::Internal(InternalError::HexDecode)),
            Some(data) => match spec_decode_answer(method, data) {
                None => Err(RpcClientErrorView::Internal(InternalError::AbiDecode)),
                Some(out) => Ok(out),
            },
        },
    }
}

/// Decodes one answer of a batch of calls of `method`. `raw` is the returned
/// hex string, or the transport's message where the call failed.
pub fn decode_call_result(method: TokenMethod, raw: &Result<String, String>) -> (r: Result<
    CallOutput,
    RpcClientError,
>)
    ensures
        result_view(r) == spec_decode_call_result(method, result_view(*raw)),
{
    match raw {
        Err(message) => Err(RpcClientError::Rpc(message.clone())),
        Ok(text) => match decode_hex_text(text.as_str()) {
            None => Err(RpcClientError::Internal(InternalError::HexDecode)),
            Some(data) => match decode_answer(method, data.as_slice()) {
                None => Err(RpcClientError::Internal(InternalError::AbiDecode)),
                Some(out) => Ok(out),
            },
        },
    }
}

/// Decodes every answer of a batch of calls of `method`, in order.
pub fn decode_batch(method: TokenMethod, raw: &Vec<Result<String, String>>) -> (r: Vec<
    Result<CallOutput, RpcClientError>,
>)
    ensures
        r.len() == raw.len(),
        forall|i: int|
            0 <= i < raw.len() ==> result_view(#[trigger] r[i]) == spec_decode_call_result(
                method,
                result_view(raw[i]),
            ),
{
    let mut out: Vec<Result<CallOutput, RpcClientError>> = Vec::new();
    for i in 0..raw.len()
        invariant
            out.len() == i,
            forall|k: int|
                0 <= k < i ==> result_view(#[trigger] out[k]) == spec_decode_call_result(
                    method,
                    result_view(raw[k]),
                ),
    {
        out.push(decode_call_result(method, &raw[i]));
    }
    out
}

/// One `eth_call`: the contract called, by its 20-byte address, and the call's
/// data.
#[derive(Clone, Debug, PartialEq, Eq)]
pub struct EthCall {
    pub to: Vec<u8>,
    pub data: Vec<u8>,
}

/// The calls of `method` on each of the given contracts, in order.
pub fn build_calls(method: TokenMethod, addresses: &Vec<Vec<u8>>) -> (r: Vec<EthCall>)
    requires
        forall|i: int| 0 <= i < addresses.len() ==> (#[trigger] addresses[i])@.len() == 20,
    ensures
        r.len() == addresses.len(),
        forall|i: int|
            0 <= i < addresses.len() ==> (#[trigger] r[i]).to@ == addresses[i]@ && r[i].data@
                == spec_selector(method),
{
    let data = method.calldata();
    let mut calls: Vec<EthCall> = Vec::new();
    for i in 0..addresses.len()
        invariant
            calls.len() == i,
            data@ == spec_selector(method),
            forall|k: int|
                0 <= k < i ==> (#[trigger] calls[k]).to@ == addresses[k]@ && calls[k].data@
                    == spec_selector(method),
    {
        let to = vstd::slice::slice_to_vec(addresses[i].as_slice());
        let call_data = vstd::slice::slice_to_vec(data.as_slice());
        calls.push(EthCall { to, data: call_data });
    }
    calls
}

} // verus!
