use vstd::prelude::*;

use crate::error::CsshError;

verus! {

/// The largest payload a frame may announce: 16 MiB.
pub const MAX_MESSAGE_SIZE: u32 = 16 * 1024 * 1024;

/// A request from the remote side: the command and its arguments, with the
/// token that authenticates the sender.
#[derive(Debug, Clone, PartialEq)]
pub struct ExecuteRequest {
    /// The command to run, then its arguments.
    pub args: Vec<String>,
    /// The authentication token (empty where the agent expects none).
    pub token: String,
}

/// The agent's answer: the exit code and the captured output of the command.
#[derive(Debug, Clone, PartialEq)]
pub struct ExecuteResponse {
    /// The exit code.
    pub exit_code: i32,
    /// The captured standard output.
    pub stdout: Vec<u8>,
    /// The captured standard error.
    pub stderr: Vec<u8>,
}

/// The big-endian bytes of `n`.
pub open spec fn be_bytes(n: u32) -> Seq<u8> {
    seq![
        (n / 0x1000000) as u8,
        ((n / 0x10000) % 0x100) as u8,
        ((n / 0x100) % 0x100) as u8,
        (n % 0x100) as u8,
    ]
}

/// The number that the first four bytes of `b` spell, big-endian.
pub open spec fn be_value(b: Seq<u8>) -> int {
    b[0] * 0x1000000 + b[1] * 0x10000 + b[2] * 0x100 + b[3]
}

/// The frame of a payload: its length as a big-endian `u32`, then the payload.
/// A length that does not fit in a `u32` is cut to its low 32 bits.
pub open spec fn frame(payload: Seq<u8>) -> Seq<u8> {
    be_bytes(payload.len() as u32) + payload
}

/// Whether a frame's announced payload length is one the protocol accepts.
pub open spec fn length_accepted(len: int) -> bool {
    len <= MAX_MESSAGE_SIZE
}

/// Frames `payload`: a four-byte big-endian length prefix, then the payload.
pub fn encode_frame(payload: &[u8]) -> (r: Vec<u8>)
    ensures
        r@ == frame(payload@),
{
    let len = payload.len();
    let n: u32 = len as u32;
    let mut out: Vec<u8> = Vec::new();
    out.push((n / 0x1000000) as u8);
    out.push(((n / 0x10000) % 0x100) as u8);
    out.push(((n / 0x100) % 0x100) as u8);
    out.push((n % 0x100) as u8);
    assert(out@ =~= be_bytes(payload@.len() as u32));
    let ghost head = out@;
    for i in 0..len
        invariant
            len == payload@.len(),
            out@ == head + payload@.take(i as int),
    {
        out.push(payload[i]);
        assert(payload@.take(i + 1) =~= payload@.take(i as int).push(payload@[i as int]));
    }
    assert(payload@.take(len as int) =~= payload@);
    out
}

/// Checks an announced payload length against the protocol's limit.
pub fn validate_message_length(len: u32) -> (r: Result<usize, CsshError>)
    ensures
        length_accepted(len as int) ==> (r matches Ok(n) && n == len),
        !length_accepted(len as int) ==> (r matches Err(CsshError::InvalidMessageLength(l)) && l
            == len),
{
    if len > MAX_MESSAGE_SIZE {
        Err(CsshError::InvalidMessageLength(len))
    } else {
        Ok(len as usize)
    }
}

/// Reads one frame from the front of `data`: the payload and the number of
/// bytes the frame takes up.
pub fn decode_frame(data: &[u8]) -> (r: Result<(&[u8], usize), CsshError>)
    ensures
        data@.len() < 4 ==> (r matches Err(CsshError::Connection(m)) && m@
            == "データが短すぎます"@),
        data@.len() >= 4 && !length_accepted(be_value(data@)) ==> (r matches Err(
            CsshError::InvalidMessageLength(l),
        ) && l == be_value(data@)),
        data@.len() >= 4 && length_accepted(be_value(data@)) && data@.len() < 4 + be_value(
            data@,
        ) ==> (r matches Err(CsshError::Connection(m)) && m@ == "データが不完全です"@),
        data@.len() >= 4 && length_accepted(be_value(data@)) && data@.len() >= 4 + be_value(
            data@,
        ) ==> (r matches Ok((payload, total)) && total == 4 + be_value(data@) && payload@
            == data@.subrange(4, total as int)),
{
    if data.len() < 4 {
        return Err(CsshError::Connection(String::from_str("データが短すぎます")));
    }
    let len: u32 = (data[0] as u32) * 0x1000000 + (data[1] as u32) * 0x10000 + (data[2] as u32)
        * 0x100 + (data[3] as u32);
    let n = match validate_message_length(len) {
        Ok(n) => n,
        Err(e) => {
            return Err(e);
        },
    };
    if data.len() - 4 < n {
        return Err(CsshError::Connection(String::from_str("データが不完全です")));
    }
    let total = 4 + n;
    Ok((vstd::slice::slice_subrange(data, 4, total), total))
}

/// Reading the frame of a payload the protocol accepts gives back that payload,
/// and tells how many bytes the frame took, whatever follows it.
pub proof fn law_frame_round_trip(payload: Seq<u8>, rest: Seq<u8>)
    requires
        length_accepted(payload.len() as int),
    ensures
        ({
            let data = frame(payload) + rest;
            &&& data.len() >= 4
            &&& be_value(data) == payload.len()
            &&& length_accepted(be_value(data))
            &&& data.len() >= 4 + be_value(data)
            &&& data.subrange(4, 4 + payload.len() as int) == payload
        }),
{
    let n = payload.len() as u32;
    let data = frame(payload) + rest;
    assert(data[0] == (n / 0x1000000) as u8);
    assert(data[1] == ((n / 0x10000) % 0x100) as u8);
    assert(data[2] == ((n / 0x100) % 0x100) as u8);
    assert(data[3] == (n % 0x100) as u8);
    assert((n / 0x1000000) * 0x1000000 + ((n / 0x10000) % 0x100) * 0x10000 + ((n / 0x100)
        % 0x100) * 0x100 + n % 0x100 == n) by (nonlinear_arith);
    assert(data.subrange(4, 4 + payload.len() as int) =~= payload);
}

} // verus!
