//! Framing of register transactions.
//!
//! With checksums enabled every payload byte on the wire is followed by a
//! CRC-8. The first checksum of a transaction also covers the bus address
//! byte (and, for a write, the register address); every later checksum
//! covers only the one byte in front of it.

use crate::checksum::{checksum, crc8, lemma_crc8_last_byte};
use crate::error::Error;
use vstd::prelude::*;

verus! {

/// The most payload bytes one write transaction carries.
pub const MAX_WRITE_PAYLOAD: usize = 8;

/// The address byte that opens a write transaction on the wire.
pub open spec fn write_address(dev_address: u8) -> u8 {
    dev_address << 1
}

/// The address byte that opens a read transaction on the wire.
pub open spec fn read_address(dev_address: u8) -> u8 {
    (dev_address << 1) | 1
}

/// The checksum owed behind payload byte `k` of a write.
pub open spec fn write_group_sum(dev_address: u8, reg_address: u8, payload: Seq<u8>, k: int) -> u8 {
    if k == 0 {
        crc8(seq![write_address(dev_address), reg_address, payload[0]])
    } else {
        crc8(seq![payload[k]])
    }
}

/// The bytes of a checksummed write: the register address, then each
/// payload byte followed by its checksum.
pub open spec fn write_frame(dev_address: u8, reg_address: u8, payload: Seq<u8>) -> Seq<u8> {
    Seq::new(
        1 + 2 * payload.len(),
        |i: int|
            if i == 0 {
                reg_address
            } else if i % 2 == 1 {
                payload[(i - 1) / 2]
            } else {
                write_group_sum(dev_address, reg_address, payload, (i - 2) / 2)
            },
    )
}

/// The bytes of a write without checksums: the register address, then the
/// payload.
pub open spec fn plain_write_frame(reg_address: u8, payload: Seq<u8>) -> Seq<u8> {
    seq![reg_address] + payload
}

/// The payload bytes that a write frame carries.
pub open spec fn write_frame_payload(frame: Seq<u8>) -> Seq<u8> {
    Seq::new(((frame.len() - 1) / 2) as nat, |k: int| frame[2 * k + 1])
}

/// The checksum owed behind payload byte `k` of a read.
pub open spec fn read_group_sum(dev_address: u8, payload: Seq<u8>, k: int) -> u8 {
    if k == 0 {
        crc8(seq![read_address(dev_address), payload[0]])
    } else {
        crc8(seq![payload[k]])
    }
}

/// The bytes of a correctly framed read response: each payload byte
/// followed by its checksum.
pub open spec fn read_frame(dev_address: u8, payload: Seq<u8>) -> Seq<u8> {
    Seq::new(
        2 * payload.len(),
        |i: int|
            if i % 2 == 0 {
                payload[i / 2]
            } else {
                read_group_sum(dev_address, payload, i / 2)
            },
    )
}

/// The payload bytes of a read response: every second byte, from the first.
pub open spec fn read_frame_payload(frame: Seq<u8>) -> Seq<u8> {
    Seq::new(frame.len() / 2, |k: int| frame[2 * k])
}

/// Byte group `k` of a read response carries the checksum owed to it.
pub open spec fn read_group_ok(dev_address: u8, frame: Seq<u8>, k: int) -> bool {
    frame[2 * k + 1] == read_group_sum(dev_address, read_frame_payload(frame), k)
}

/// A read response is well framed when it consists of whole byte groups
/// and every group carries the checksum owed to it.
pub open spec fn is_read_frame(dev_address: u8, frame: Seq<u8>) -> bool {
    &&& frame.len() % 2 == 0
    &&& forall|k: int| 0 <= k < frame.len() / 2 ==> #[trigger] read_group_ok(dev_address, frame, k)
}

/// The bytes of a write on the wire, with or without checksums.
pub open spec fn framed_write(
    use_crc: bool,
    dev_address: u8,
    reg_address: u8,
    payload: Seq<u8>,
) -> Seq<u8> {
    if use_crc {
        write_frame(dev_address, reg_address, payload)
    } else {
        plain_write_frame(reg_address, payload)
    }
}

/// The bytes to read from the bus for `count` payload bytes: two for each
/// with checksums, one for each without.
pub open spec fn read_length(use_crc: bool, count: nat) -> nat {
    if use_crc {
        2 * count
    } else {
        count
    }
}

/// What a read of `count` bytes without checksums comes to, given whether
/// the transport reported success and what it left in the buffer: a
/// transport that failed, or that filled anything but the bytes asked for,
/// is a bus error; otherwise the response is the payload.
pub open spec fn plain_read_outcome(delivered: bool, response: Seq<u8>, count: nat) -> Result<
    Seq<u8>,
    Error,
> {
    if !delivered || response.len() != count {
        Err(Error::I2CError)
    } else {
        Ok(response)
    }
}

/// What a checksummed read of `count` bytes comes to, given whether the
/// transport reported success and what it left in the buffer.
///
/// A transport that failed, or that filled anything but two bytes for each
/// byte asked for, is a bus error, whatever the buffer holds. Only then
/// are the checksums looked at: a response that is not well framed is a
/// checksum mismatch, and a well-framed one gives its payload.
pub open spec fn checked_read_outcome(
    dev_address: u8,
    delivered: bool,
    response: Seq<u8>,
    count: nat,
) -> Result<Seq<u8>, Error> {
    if !delivered || response.len() != 2 * count {
        Err(Error::I2CError)
    } else if is_read_frame(dev_address, response) {
        Ok(read_frame_payload(response))
    } else {
        Err(Error::CRCMismatch)
    }
}

/// What a read of `count` payload bytes comes to, with or without
/// checksums.
pub open spec fn read_outcome(
    use_crc: bool,
    dev_address: u8,
    delivered: bool,
    response: Seq<u8>,
    count: nat,
) -> Result<Seq<u8>, Error> {
    if use_crc {
        checked_read_outcome(dev_address, delivered, response, count)
    } else {
        plain_read_outcome(delivered, response, count)
    }
}

/// The payload of a `Result`, as a sequence.
pub open spec fn payload_view(r: Result<Vec<u8>, Error>) -> Result<Seq<u8>, Error> {
    match r {
        Ok(payload) => Ok(payload@),
        Err(e) => Err(e),
    }
}

/// Frames a checksummed write of `data` to `reg_address`.
///
/// A payload of more than [`MAX_WRITE_PAYLOAD`] bytes is refused; every
/// other payload gives exactly [`write_frame`].
pub fn encode_write_crc(dev_address: u8, reg_address: u8, data: &[u8]) -> (r: Result<
    Vec<u8>,
    Error,
>)
    ensures
        data@.len() > MAX_WRITE_PAYLOAD ==> r == Err::<Vec<u8>, Error>(Error::BufTooLarge),
        data@.len() <= MAX_WRITE_PAYLOAD ==> r is Ok && r->Ok_0@ == write_frame(
            dev_address,
            reg_address,
            data@,
        ),
{
    let n = data.len();
    if n > MAX_WRITE_PAYLOAD {
        return Err(Error::BufTooLarge);
    }
    let ghost want = write_frame(dev_address, reg_address, data@);
    let mut frame: Vec<u8> = Vec::new();
    frame.push(reg_address);
    let mut k: usize = 0;
    while k < n
        invariant
            n == data@.len(),
            n <= MAX_WRITE_PAYLOAD,
            k <= n,
            want == write_frame(dev_address, reg_address, data@),
            frame@.len() == 1 + 2 * k,
            forall|i: int| 0 <= i < frame@.len() ==> frame@[i] == want[i],
        decreases n - k,
    {
        let byte = data[k];
        let sum = if k == 0 {
            let group = [dev_address << 1, reg_address, byte];
            assert(group@ =~= seq![write_address(dev_address), reg_address, data@[0]]);
            checksum(group.as_slice())
        } else {
            let group = [byte];
            assert(group@ =~= seq![data@[k as int]]);
            checksum(group.as_slice())
        };
        frame.push(byte);
        frame.push(sum);
        k += 1;
    }
    assert(frame@ =~= want);
    Ok(frame)
}

/// Frames a write of `data` to `reg_address` without checksums.
///
/// A payload of more than [`MAX_WRITE_PAYLOAD`] bytes is refused; every
/// other payload gives exactly [`plain_write_frame`].
pub fn encode_write_plain(reg_address: u8, data: &[u8]) -> (r: Result<Vec<u8>, Error>)
    ensures
        data@.len() > MAX_WRITE_PAYLOAD ==> r == Err::<Vec<u8>, Error>(Error::BufTooLarge),
        data@.len() <= MAX_WRITE_PAYLOAD ==> r is Ok && r->Ok_0@ == plain_write_frame(
            reg_address,
            data@,
        ),
{
    let n = data.len();
    if n > MAX_WRITE_PAYLOAD {
        return Err(Error::BufTooLarge);
    }
    let mut frame: Vec<u8> = Vec::new();
    frame.push(reg_address);
    let mut k: usize = 0;
    while k < n
        invariant
            n == data@.len(),
            k <= n,
            frame@ == seq![reg_address] + data@.subrange(0, k as int),
        decreases n - k,
    {
        frame.push(data[k]);
        assert(frame@ =~= seq![reg_address] + data@.subrange(0, k + 1));
        k += 1;
    }
    assert(data@.subrange(0, n as int) =~= data@);
    Ok(frame)
}

/// Checks a checksummed read response and takes the payload out of it.
///
/// The payload comes back exactly when the response is well framed; any
/// other response is a checksum mismatch and yields no payload byte.
pub fn decode_read_crc(dev_address: u8, response: &[u8]) -> (r: Result<Vec<u8>, Error>)
    ensures
        is_read_frame(dev_address, response@) ==> r is Ok && r->Ok_0@ == read_frame_payload(
            response@,
        ),
        !is_read_frame(dev_address, response@) ==> r == Err::<Vec<u8>, Error>(Error::CRCMismatch),
{
    let len = response.len();
    if len % 2 != 0 {
        return Err(Error::CRCMismatch);
    }
    let n = len / 2;
    let ghost want = read_frame_payload(response@);
    let mut payload: Vec<u8> = Vec::new();
    let mut k: usize = 0;
    while k < n
        invariant
            len == response@.len(),
            len == 2 * n,
            k <= n,
            want == read_frame_payload(response@),
            payload@.len() == k,
            forall|j: int| 0 <= j < k ==> payload@[j] == want[j],
            forall|j: int| 0 <= j < k ==> #[trigger] read_group_ok(dev_address, response@, j),
        decreases n - k,
    {
        let byte = response[2 * k];
        let sum = if k == 0 {
            let group = [(dev_address << 1) | 1, byte];
            assert(group@ =~= seq![read_address(dev_address), want[0]]);
            checksum(group.as_slice())
        } else {
            let group = [byte];
            assert(group@ =~= seq![want[k as int]]);
            checksum(group.as_slice())
        };
        if sum != response[2 * k + 1] {
            assert(!read_group_ok(dev_address, response@, k as int));
            return Err(Error::CRCMismatch);
        }
        payload.push(byte);
        k += 1;
    }
    assert(payload@ =~= want);
    Ok(payload)
}

/// Decides what a checksummed read of `count` bytes comes to, as
/// [`checked_read_outcome`] says.
///
/// `delivered` says whether the transport reported success and `response`
/// is what it left in the buffer. A failed transport is a bus error even
/// where the buffer happens to be well framed.
pub fn complete_read_crc(dev_address: u8, delivered: bool, response: &[u8], count: usize) -> (r:
    Result<Vec<u8>, Error>)
    ensures
        payload_view(r) == checked_read_outcome(dev_address, delivered, response@, count as nat),
        r is Ok ==> r->Ok_0@.len() == count,
{
    if !delivered || response.len() % 2 != 0 || response.len() / 2 != count {
        return Err(Error::I2CError);
    }
    decode_read_crc(dev_address, response)
}

/// Decides what a read of `count` bytes without checksums comes to, as
/// [`plain_read_outcome`] says.
pub fn complete_read_plain(delivered: bool, response: &[u8], count: usize) -> (r: Result<
    Vec<u8>,
    Error,
>)
    ensures
        payload_view(r) == plain_read_outcome(delivered, response@, count as nat),
{
    if !delivered || response.len() != count {
        return Err(Error::I2CError);
    }
    let mut payload: Vec<u8> = Vec::new();
    let mut k: usize = 0;
    while k < count
        invariant
            count == response@.len(),
            k <= count,
            payload@ == response@.subrange(0, k as int),
        decreases count - k,
    {
        payload.push(response[k]);
        assert(payload@ =~= response@.subrange(0, k + 1));
        k += 1;
    }
    assert(response@.subrange(0, count as int) =~= response@);
    Ok(payload)
}

/// For a 7-bit device address the two address bytes on the wire are twice
/// the address, and one more for a read.
pub proof fn law_wire_addresses(dev_address: u8)
    by (bit_vector)
    requires
        dev_address < 0x80,
    ensures
        write_address(dev_address) == 2 * dev_address,
        read_address(dev_address) == 2 * dev_address + 1,
{
}

/// A correctly framed response passes the check and gives back the payload
/// it was framed from.
pub proof fn law_read_frame_is_accepted(dev_address: u8, payload: Seq<u8>)
    ensures
        is_read_frame(dev_address, read_frame(dev_address, payload)),
        read_frame_payload(read_frame(dev_address, payload)) == payload,
{
    let frame = read_frame(dev_address, payload);
    let carried = read_frame_payload(frame);
    assert(frame.len() == 2 * payload.len());
    assert(carried.len() == payload.len());
    assert forall|k: int| 0 <= k < payload.len() implies carried[k] == payload[k] by {
        assert((2 * k) % 2 == 0 && (2 * k) / 2 == k);
        assert(frame[2 * k] == payload[k]);
    }
    assert(carried =~= payload);
    assert forall|k: int| 0 <= k < frame.len() / 2 implies #[trigger] read_group_ok(
        dev_address,
        frame,
        k,
    ) by {
        assert((2 * k + 1) % 2 == 1 && (2 * k + 1) / 2 == k);
        assert(frame[2 * k + 1] == read_group_sum(dev_address, payload, k));
    }
}

/// A response that passes the check is the correct framing of its payload:
/// for each payload there is exactly one response that is accepted.
pub proof fn law_accepted_frame_is_read_frame(dev_address: u8, frame: Seq<u8>)
    requires
        is_read_frame(dev_address, frame),
    ensures
        frame == read_frame(dev_address, read_frame_payload(frame)),
{
    let payload = read_frame_payload(frame);
    let want = read_frame(dev_address, payload);
    assert forall|i: int| 0 <= i < frame.len() implies frame[i] == want[i] by {
        if i % 2 == 1 {
            assert(read_group_ok(dev_address, frame, i / 2));
        }
    }
    assert(frame =~= want);
}

/// Changing any single byte of a well-framed response, a payload byte or a
/// checksum, makes the response fail the check.
pub proof fn law_corrupted_frame_is_rejected(dev_address: u8, frame: Seq<u8>, i: int, byte: u8)
    requires
        is_read_frame(dev_address, frame),
        0 <= i < frame.len(),
        byte != frame[i],
    ensures
        !is_read_frame(dev_address, frame.update(i, byte)),
{
    let bad = frame.update(i, byte);
    let k = i / 2;
    let payload = read_frame_payload(frame);
    let bad_payload = read_frame_payload(bad);
    assert(read_group_ok(dev_address, frame, k));
    if i % 2 == 1 {
        assert(bad_payload =~= payload);
        assert(bad[2 * k + 1] == byte);
    } else {
        assert(bad[2 * k + 1] == frame[2 * k + 1]);
        assert(bad_payload[k] == byte);
        assert(payload[k] == frame[2 * k]);
        if read_group_ok(dev_address, bad, k) {
            if k == 0 {
                let prefix = seq![read_address(dev_address)];
                assert(prefix.push(byte) =~= seq![read_address(dev_address), bad_payload[0]]);
                assert(prefix.push(frame[0]) =~= seq![read_address(dev_address), payload[0]]);
                lemma_crc8_last_byte(prefix, byte, frame[0]);
            } else {
                let prefix = Seq::<u8>::empty();
                assert(prefix.push(byte) =~= seq![bad_payload[k]]);
                assert(prefix.push(frame[2 * k]) =~= seq![payload[k]]);
                lemma_crc8_last_byte(prefix, byte, frame[2 * k]);
            }
        }
    }
    assert(!read_group_ok(dev_address, bad, k));
}

/// A checksummed read that has succeeded fails with a checksum mismatch,
/// and so returns no payload byte, as soon as any single byte of its
/// response is changed.
pub proof fn law_corrupted_read_fails(
    dev_address: u8,
    response: Seq<u8>,
    count: nat,
    i: int,
    byte: u8,
)
    requires
        checked_read_outcome(dev_address, true, response, count) is Ok,
        0 <= i < response.len(),
        byte != response[i],
    ensures
        checked_read_outcome(dev_address, true, response.update(i, byte), count) == Err::<
            Seq<u8>,
            Error,
        >(Error::CRCMismatch),
{
    law_corrupted_frame_is_rejected(dev_address, response, i, byte);
}

/// A checksummed read of what a checksummed write has put into a
/// register returns the written bytes: when the response to the read is
/// the correct framing of the payload that the write frame carried, the
/// read succeeds with exactly that payload.
pub proof fn law_written_bytes_read_back(dev_address: u8, reg_address: u8, data: Seq<u8>)
    ensures
        checked_read_outcome(
            dev_address,
            true,
            read_frame(
                dev_address,
                write_frame_payload(write_frame(dev_address, reg_address, data)),
            ),
            data.len(),
        ) == Ok::<Seq<u8>, Error>(data),
{
    law_write_then_read_round_trip(dev_address, reg_address, data);
}

/// What a checksummed write puts on the wire carries its payload
/// unchanged, and the correctly framed read of those same bytes passes the
/// check and returns them: a write followed by a read of the same register
/// gives back what was written.
pub proof fn law_write_then_read_round_trip(dev_address: u8, reg_address: u8, data: Seq<u8>)
    ensures
        write_frame_payload(write_frame(dev_address, reg_address, data)) == data,
        is_read_frame(
            dev_address,
            read_frame(
                dev_address,
                write_frame_payload(write_frame(dev_address, reg_address, data)),
            ),
        ),
        read_frame_payload(
            read_frame(
                dev_address,
                write_frame_payload(write_frame(dev_address, reg_address, data)),
            ),
        ) == data,
{
    let sent = write_frame(dev_address, reg_address, data);
    assert(sent.len() == 1 + 2 * data.len());
    assert(write_frame_payload(sent).len() == data.len());
    assert forall|k: int| 0 <= k < data.len() implies write_frame_payload(sent)[k] == data[k] by {
        assert(sent[2 * k + 1] == data[(2 * k + 1 - 1) / 2]);
    }
    assert(write_frame_payload(sent) =~= data);
    law_read_frame_is_accepted(dev_address, data);
}

} // verus!
