use vstd::prelude::*;

use crate::errors::ProcessError;
use crate::instructions::{
    amounts_of, InstructionType, NativeSolTransferData, Transfer, TransferInstructionData,
};

verus! {

/// The unsigned 32-bit integer held little-endian in four bytes.
pub open spec fn u32_from_le(b: Seq<u8>) -> u32
    recommends
        b.len() == 4,
{
    (b[0] as int + b[1] as int * 0x100 + b[2] as int * 0x1_0000 + b[3] as int * 0x100_0000) as u32
}

/// The unsigned 64-bit integer held little-endian in eight bytes.
pub open spec fn u64_from_le(b: Seq<u8>) -> u64
    recommends
        b.len() == 8,
{
    (b[0] as int + b[1] as int * 0x100 + b[2] as int * 0x1_0000 + b[3] as int * 0x100_0000
        + b[4] as int * 0x1_0000_0000 + b[5] as int * 0x100_0000_0000
        + b[6] as int * 0x1_0000_0000_0000 + b[7] as int * 0x100_0000_0000_0000) as u64
}

/// The transfer count announced by a buffer's length prefix.
pub open spec fn wire_count(data: Seq<u8>) -> int
    recommends
        data.len() >= 5,
{
    u32_from_le(data.subrange(1, 5)) as int
}

/// Whether a byte buffer is a well-formed encoded instruction: a one-byte
/// variant discriminant, a four-byte little-endian transfer count, and then
/// exactly that many eight-byte little-endian amounts, with nothing trailing.
pub open spec fn valid_encoding(data: Seq<u8>) -> bool {
    &&& data.len() >= 5
    &&& (data[0] == 0u8 || data[0] == 1u8)
    &&& data.len() == 5 + 8 * wire_count(data)
}

/// The amounts a well-formed buffer carries, in batch order.
pub open spec fn decoded_amounts(data: Seq<u8>) -> Seq<u64>
    recommends
        valid_encoding(data),
{
    Seq::new(
        wire_count(data) as nat,
        |i: int| u64_from_le(data.subrange(5 + 8 * i, 13 + 8 * i)),
    )
}

/// Reads the four-byte little-endian integer at `pos`.
fn read_u32_le(data: &[u8], pos: usize) -> (r: u32)
    requires
        pos + 4 <= data@.len(),
    ensures
        r == u32_from_le(data@.subrange(pos as int, pos as int + 4)),
{
    let b0 = data[pos] as u32;
    let b1 = data[pos + 1] as u32;
    let b2 = data[pos + 2] as u32;
    let b3 = data[pos + 3] as u32;
    let r = b0 + b1 * 0x100 + b2 * 0x1_0000 + b3 * 0x100_0000;
    proof {
        let s = data@.subrange(pos as int, pos as int + 4);
        assert(s[0] == data@[pos as int]);
        assert(s[1] == data@[pos as int + 1]);
        assert(s[2] == data@[pos as int + 2]);
        assert(s[3] == data@[pos as int + 3]);
    }
    r
}

/// Reads the eight-byte little-endian integer at `pos`.
fn read_u64_le(data: &[u8], pos: usize) -> (r: u64)
    requires
        pos + 8 <= data@.len(),
    ensures
        r == u64_from_le(data@.subrange(pos as int, pos as int + 8)),
{
    let b0 = data[pos] as u64;
    let b1 = data[pos + 1] as u64;
    let b2 = data[pos + 2] as u64;
    let b3 = data[pos + 3] as u64;
    let b4 = data[pos + 4] as u64;
    let b5 = data[pos + 5] as u64;
    let b6 = data[pos + 6] as u64;
    let b7 = data[pos + 7] as u64;
    let r = b0 + b1 * 0x100 + b2 * 0x1_0000 + b3 * 0x100_0000 + b4 * 0x1_0000_0000
        + b5 * 0x100_0000_0000 + b6 * 0x1_0000_0000_0000 + b7 * 0x100_0000_0000_0000;
    proof {
        let s = data@.subrange(pos as int, pos as int + 8);
        assert(s[0] == data@[pos as int]);
        assert(s[1] == data@[pos as int + 1]);
        assert(s[2] == data@[pos as int + 2]);
        assert(s[3] == data@[pos as int + 3]);
        assert(s[4] == data@[pos as int + 4]);
        assert(s[5] == data@[pos as int + 5]);
        assert(s[6] == data@[pos as int + 6]);
        assert(s[7] == data@[pos as int + 7]);
    }
    r
}

/// Decodes a raw byte buffer into the typed instruction.
///
/// Succeeds exactly on well-formed buffers; the decoded variant and amounts
/// are a pure function of the bytes. Fails with `DecodeError` on a wrong
/// discriminant, a truncated buffer, or trailing bytes.
pub fn decode_instruction(data: &[u8]) -> (r: Result<InstructionType, ProcessError>)
    ensures
        r is Ok <==> valid_encoding(data@),
        r is Err ==> r == Err::<InstructionType, ProcessError>(ProcessError::DecodeError),
        r is Ok ==> r->Ok_0.tag() == data@[0] && r->Ok_0.amounts() == decoded_amounts(data@),
{
    if data.len() < 5 {
        return Err(ProcessError::DecodeError);
    }
    let tag = data[0];
    if tag > 1 {
        return Err(ProcessError::DecodeError);
    }
    let announced = read_u32_le(data, 1);
    let body = data.len() - 5;
    if body % 8 != 0 || body / 8 != announced as usize {
        proof {
            assert(body == 8 * (body / 8) + body % 8);
            assert(data@.len() != 5 + 8 * wire_count(data@));
        }
        return Err(ProcessError::DecodeError);
    }
    let n = body / 8;
    proof {
        assert(data@.len() == 5 + 8 * wire_count(data@));
        assert(8 * (n as int) == body as int);
    }
    let mut transfers: Vec<Transfer> = Vec::new();
    let mut i: usize = 0;
    while i < n
        invariant
            data@.len() == 5 + 8 * (n as int),
            8 * (n as int) + 5 <= usize::MAX,
            n as int == wire_count(data@),
            i <= n,
            transfers@.len() == i,
            forall|j: int|
                0 <= j < i ==> #[trigger] transfers@[j].amount == u64_from_le(
                    data@.subrange(5 + 8 * j, 13 + 8 * j),
                ),
        decreases n - i,
    {
        let amount = read_u64_le(data, 5 + 8 * i);
        transfers.push(Transfer { amount });
        i = i + 1;
    }
    let decoded = if tag == 0 {
        InstructionType::TokenTransfer(TransferInstructionData { transfers })
    } else {
        InstructionType::NativeSolTransfer(NativeSolTransferData { transfers })
    };
    proof {
        let amts = decoded_amounts(data@);
        assert forall|j: int| 0 <= j < n as int implies decoded.amounts()[j] == amts[j] by {
            assert(decoded.amounts()[j] == u64_from_le(data@.subrange(5 + 8 * j, 13 + 8 * j)));
        }
        assert(decoded.amounts() =~= amts);
    }
    Ok(decoded)
}

/// Appends the four-byte little-endian form of `x`.
fn push_u32_le(out: &mut Vec<u8>, x: u32)
    ensures
        final(out)@.len() == old(out)@.len() as int + 4,
        final(out)@.subrange(0, old(out)@.len() as int) == old(out)@,
        u32_from_le(final(out)@.subrange(old(out)@.len() as int, old(out)@.len() as int + 4)) == x,
{
    let b0 = (x & 0xff) as u8;
    let b1 = ((x >> 8u32) & 0xff) as u8;
    let b2 = ((x >> 16u32) & 0xff) as u8;
    let b3 = ((x >> 24u32) & 0xff) as u8;
    out.push(b0);
    out.push(b1);
    out.push(b2);
    out.push(b3);
    proof {
        assert((x & 0xff) < 256 && ((x >> 8u32) & 0xff) < 256 && ((x >> 16u32) & 0xff) < 256 && ((
        x >> 24u32) & 0xff) < 256) by (bit_vector);
        assert(x == (x & 0xff) + ((x >> 8u32) & 0xff) * 0x100 + ((x >> 16u32) & 0xff) * 0x1_0000 + (
        (x >> 24u32) & 0xff) * 0x100_0000) by (bit_vector);
        let base = old(out)@.len() as int;
        assert(out@ =~= old(out)@ + seq![b0, b1, b2, b3]);
        let s = out@.subrange(base, base + 4);
        assert(s[0] == b0 && s[1] == b1 && s[2] == b2 && s[3] == b3);
        assert(u32_from_le(s) == x);
        assert(out@.subrange(0, base) =~= old(out)@);
    }
}

/// Appends the eight-byte little-endian form of `x`.
fn push_u64_le(out: &mut Vec<u8>, x: u64)
    ensures
        final(out)@.len() == old(out)@.len() as int + 8,
        final(out)@.subrange(0, old(out)@.len() as int) == old(out)@,
        u64_from_le(final(out)@.subrange(old(out)@.len() as int, old(out)@.len() as int + 8)) == x,
{
    let b0 = (x & 0xff) as u8;
    let b1 = ((x >> 8u64) & 0xff) as u8;
    let b2 = ((x >> 16u64) & 0xff) as u8;
    let b3 = ((x >> 24u64) & 0xff) as u8;
    let b4 = ((x >> 32u64) & 0xff) as u8;
    let b5 = ((x >> 40u64) & 0xff) as u8;
    let b6 = ((x >> 48u64) & 0xff) as u8;
    let b7 = ((x >> 56u64) & 0xff) as u8;
    out.push(b0);
    out.push(b1);
    out.push(b2);
    out.push(b3);
    out.push(b4);
    out.push(b5);
    out.push(b6);
    out.push(b7);
    proof {
        assert((x & 0xff) < 256 && ((x >> 8u64) & 0xff) < 256 && ((x >> 16u64) & 0xff) < 256 && ((
        x >> 24u64) & 0xff) < 256 && ((x >> 32u64) & 0xff) < 256 && ((x >> 40u64) & 0xff) < 256 && (
        (x >> 48u64) & 0xff) < 256 && ((x >> 56u64) & 0xff) < 256) by (bit_vector);
        assert(x == (x & 0xff) + ((x >> 8u64) & 0xff) * 0x100 + ((x >> 16u64) & 0xff) * 0x1_0000 + (
        (x >> 24u64) & 0xff) * 0x100_0000 + ((x >> 32u64) & 0xff) * 0x1_0000_0000 + ((x >> 40u64)
            & 0xff) * 0x100_0000_0000 + ((x >> 48u64) & 0xff) * 0x1_0000_0000_0000 + ((x >> 56u64)
            & 0xff) * 0x100_0000_0000_0000) by (bit_vector);
        let base = old(out)@.len() as int;
        assert(out@ =~= old(out)@ + seq![b0, b1, b2, b3, b4, b5, b6, b7]);
        let s = out@.subrange(base, base + 8);
        assert(s[0] == b0 && s[1] == b1 && s[2] == b2 && s[3] == b3 && s[4] == b4 && s[5] == b5
            && s[6] == b6 && s[7] == b7);
        assert(u64_from_le(s) == x);
        assert(out@.subrange(0, base) =~= old(out)@);
    }
}

/// Lays out one discriminant byte, the four-byte transfer count, and the
/// eight-byte amounts, in order.
fn encode_records(tag: u8, transfers: &Vec<Transfer>) -> (r: Vec<u8>)
    requires
        tag == 0 || tag == 1,
        transfers@.len() <= u32::MAX,
        5 + 8 * transfers@.len() <= usize::MAX,
    ensures
        valid_encoding(r@),
        r@.len() == 5 + 8 * transfers@.len(),
        r@[0] == tag,
        decoded_amounts(r@) == amounts_of(transfers@),
{
    let n = transfers.len();
    let mut out: Vec<u8> = Vec::new();
    out.push(tag);
    push_u32_le(&mut out, n as u32);
    proof {
        assert(out@.subrange(0, 1)[0] == out@[0]);
        assert(out@[0] == tag);
        assert(out@.subrange(1, 5) =~= out@.subrange(1, out@.len() as int));
        assert(u32_from_le(out@.subrange(1, 5)) == n as u32);
    }
    let mut i: usize = 0;
    while i < n
        invariant
            n == transfers@.len(),
            n <= u32::MAX,
            5 + 8 * (n as int) <= usize::MAX,
            i <= n,
            out@.len() == 5 + 8 * (i as int),
            out@[0] == tag,
            u32_from_le(out@.subrange(1, 5)) == n as u32,
            forall|j: int|
                0 <= j < i ==> #[trigger] u64_from_le(out@.subrange(5 + 8 * j, 13 + 8 * j))
                    == transfers@[j].amount,
        decreases n - i,
    {
        let ghost prev = out@;
        push_u64_le(&mut out, transfers[i].amount);
        proof {
            assert(out@.subrange(0, prev.len() as int) == prev);
            assert(out@.subrange(0, prev.len() as int)[0] == out@[0]);
            assert(out@[0] == tag);
            assert(out@.subrange(1, 5) =~= prev.subrange(1, 5));
            assert forall|j: int| 0 <= j < i + 1 implies #[trigger] u64_from_le(
                out@.subrange(5 + 8 * j, 13 + 8 * j),
            ) == transfers@[j].amount by {
                if j < i {
                    assert(out@.subrange(5 + 8 * j, 13 + 8 * j) =~= prev.subrange(
                        5 + 8 * j,
                        13 + 8 * j,
                    ));
                } else {
                    assert(out@.subrange(5 + 8 * j, 13 + 8 * j) =~= out@.subrange(
                        prev.len() as int,
                        prev.len() as int + 8,
                    ));
                }
            }
        }
        i = i + 1;
    }
    proof {
        assert(wire_count(out@) == n as int);
        assert(valid_encoding(out@));
        assert forall|j: int| 0 <= j < n as int implies decoded_amounts(out@)[j] == amounts_of(
            transfers@,
        )[j] by {
            assert(u64_from_le(out@.subrange(5 + 8 * j, 13 + 8 * j)) == transfers@[j].amount);
        }
        assert(decoded_amounts(out@) =~= amounts_of(transfers@));
    }
    out
}

/// Encodes a typed instruction into its deterministic wire form.
///
/// The contract states round-trip fidelity directly: the produced buffer is
/// well formed, opens with the instruction's own discriminant, and decodes
/// back to exactly the instruction's amounts.
pub fn encode_instruction(instruction: &InstructionType) -> (r: Vec<u8>)
    requires
        instruction.amounts().len() <= u32::MAX,
        5 + 8 * instruction.amounts().len() <= usize::MAX,
    ensures
        valid_encoding(r@),
        r@.len() == 5 + 8 * instruction.amounts().len(),
        r@[0] == instruction.tag(),
        decoded_amounts(r@) == instruction.amounts(),
{
    match instruction {
        InstructionType::TokenTransfer(d) => encode_records(0, &d.transfers),
        InstructionType::NativeSolTransfer(d) => encode_records(1, &d.transfers),
    }
}

/// Law: decoding is a pure function of the byte buffer. Re-running the
/// decoder on the same bytes accepts or rejects identically and yields the
/// same discriminant and the same amounts.
pub proof fn lemma_decode_deterministic(b1: Seq<u8>, b2: Seq<u8>)
    requires
        b1 == b2,
    ensures
        valid_encoding(b1) == valid_encoding(b2),
        valid_encoding(b1) ==> b1[0] == b2[0] && decoded_amounts(b1) == decoded_amounts(b2),
{
}

} // verus!
