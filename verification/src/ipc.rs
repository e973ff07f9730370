//! Control request marshaler: the fixed-layout request record and the
//! textual status response.
//!
//! The record's wire layout is fixed and must match exactly between the
//! caller and the kernel component: the process identifier in the first four
//! bytes, four bytes of alignment padding, then the target address, the
//! caller buffer address, and the byte count, each eight bytes little-endian.

use vstd::prelude::*;

use crate::Status;
use vstd::bytes::lemma_auto_spec_u32_to_from_le_bytes;
use vstd::bytes::lemma_auto_spec_u64_to_from_le_bytes;
use vstd::bytes::spec_u32_from_le_bytes;
use vstd::bytes::spec_u32_to_le_bytes;
use vstd::bytes::spec_u64_from_le_bytes;
use vstd::bytes::spec_u64_to_le_bytes;
use vstd::bytes::u32_from_le_bytes;
use vstd::bytes::u32_to_le_bytes;
use vstd::bytes::u64_from_le_bytes;
use vstd::bytes::u64_to_le_bytes;
use vstd::slice::slice_subrange;
use vstd::string::StrSliceExecFns;
use vstd::string::StringSliceAdditionalSpecFns;

verus! {

/// Size in bytes of the request record on the wire.
pub const REQUEST_SIZE: usize = 32;

/// One control request: copy `size` bytes between the target process at
/// `address` and the caller's own memory at `buffer`.  The two addresses
/// belong to different address spaces: `address` is a virtual address in the
/// target process, `buffer` one in the calling process.
#[derive(Clone, Copy, PartialEq, Eq, Structural, Debug)]
pub struct Request {
    /// Identifier of the target process.
    pub process_id: u32,
    /// Target-process virtual address to access.
    pub address: u64,
    /// Caller-process buffer supplying or receiving the data.
    pub buffer: u64,
    /// Number of bytes to copy.
    pub size: u64,
}

/// The record encoded in the leading bytes of a request buffer.
pub open spec fn parsed_request(bytes: Seq<u8>) -> Request
    recommends
        bytes.len() >= REQUEST_SIZE,
{
    Request {
        process_id: spec_u32_from_le_bytes(bytes.subrange(0, 4)),
        address: spec_u64_from_le_bytes(bytes.subrange(8, 16)),
        buffer: spec_u64_from_le_bytes(bytes.subrange(16, 24)),
        size: spec_u64_from_le_bytes(bytes.subrange(24, 32)),
    }
}

/// The wire form of a record: each field little-endian at its fixed offset,
/// with the four alignment padding bytes zero.
pub open spec fn request_bytes(request: Request) -> Seq<u8> {
    spec_u32_to_le_bytes(request.process_id) + seq![0u8, 0u8, 0u8, 0u8]
        + spec_u64_to_le_bytes(request.address) + spec_u64_to_le_bytes(request.buffer)
        + spec_u64_to_le_bytes(request.size)
}

/// Reinterprets the leading bytes of the raw control-request buffer as the
/// request record.  A buffer shorter than the record is rejected; bytes past
/// the record are ignored.
pub fn decode_request(input: &[u8]) -> (r: Result<Request, Status>)
    ensures
        input@.len() >= REQUEST_SIZE ==> r == Ok::<Request, Status>(parsed_request(input@)),
        input@.len() < REQUEST_SIZE ==> r == Err::<Request, Status>(Status::MalformedInput),
{
    if input.len() < REQUEST_SIZE {
        return Err(Status::MalformedInput);
    }
    let process_id = u32_from_le_bytes(slice_subrange(input, 0, 4));
    let address = u64_from_le_bytes(slice_subrange(input, 8, 16));
    let buffer = u64_from_le_bytes(slice_subrange(input, 16, 24));
    let size = u64_from_le_bytes(slice_subrange(input, 24, 32));
    Ok(Request { process_id, address, buffer, size })
}

/// Lays a record out in its wire form, ready to cross to the kernel side.
pub fn encode_request(request: &Request) -> (bytes: Vec<u8>)
    ensures
        bytes@ == request_bytes(*request),
        bytes@.len() == REQUEST_SIZE,
{
    let mut bytes = u32_to_le_bytes(request.process_id);
    bytes.push(0);
    bytes.push(0);
    bytes.push(0);
    bytes.push(0);
    let mut address = u64_to_le_bytes(request.address);
    bytes.append(&mut address);
    let mut buffer = u64_to_le_bytes(request.buffer);
    bytes.append(&mut buffer);
    let mut size = u64_to_le_bytes(request.size);
    bytes.append(&mut size);
    proof {
        assert(bytes@ =~= request_bytes(*request));
    }
    bytes
}

/// Law: a record laid out on the wire decodes back to itself, so the caller
/// and kernel sides agree on the layout.
pub proof fn lemma_request_round_trip(request: Request)
    ensures
        parsed_request(request_bytes(request)) == request,
        request_bytes(request).len() == REQUEST_SIZE,
{
    lemma_auto_spec_u32_to_from_le_bytes();
    lemma_auto_spec_u64_to_from_le_bytes();
    let bytes = request_bytes(request);
    assert(bytes.subrange(0, 4) =~= spec_u32_to_le_bytes(request.process_id));
    assert(bytes.subrange(8, 16) =~= spec_u64_to_le_bytes(request.address));
    assert(bytes.subrange(16, 24) =~= spec_u64_to_le_bytes(request.buffer));
    assert(bytes.subrange(24, 32) =~= spec_u64_to_le_bytes(request.size));
}

/// The channel used to hand the final status text and byte count back to the
/// caller: the caller-visible output region of the request buffer, which the
/// surrounding dispatch layer may have failed to supply, and the byte count
/// recorded as the request's result size.
pub struct ResponseChannel {
    /// The caller-visible output region, when one was supplied.
    pub buffer: Option<Vec<u8>>,
    /// Number of response bytes recorded for the caller.
    pub information: u64,
}

/// Writes the UTF-8 status text into the caller-visible output region and
/// records the number of bytes written as the request's result size.  Fails
/// only when the output buffer is unexpectedly absent.
pub fn encode_status(channel: &mut ResponseChannel, message: &str) -> (r: Result<u64, Status>)
    ensures
        old(channel).buffer is None ==> {
            &&& r == Err::<u64, Status>(Status::OutputUnavailable)
            &&& final(channel).buffer is None
            &&& final(channel).information == old(channel).information
        },
        old(channel).buffer is Some ==> {
            &&& r == Ok::<u64, Status>(message.spec_bytes().len() as u64)
            &&& final(channel).buffer is Some
            &&& final(channel).buffer->0@ == message.spec_bytes()
            &&& final(channel).information == message.spec_bytes().len()
        },
{
    match &mut channel.buffer {
        Some(buffer) => {
            let response = message.as_bytes_vec();
            let written = response.len() as u64;
            *buffer = response;
            channel.information = written;
            Ok(written)
        },
        None => Err(Status::OutputUnavailable),
    }
}

} // verus!
