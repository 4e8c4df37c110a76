//! What the operations of a session ask of the bus, as statements about
//! the record of a [`Wire`](crate::bus::Wire).
//!
//! The functions here are specifications only. A *run* relates the
//! transactions that an operation has added to the record, oldest first,
//! to what the operation returns.

use crate::bus::Exchange;
use crate::control::{
    spec_verify_readback, Temperature, TemperatureSource, ALTERNATE_ADDRESS, PRIMARY_ADDRESS,
    PROBE_PATTERN, SYS_CTRL1, TS1_HI, UV_TRIP,
};
use crate::error::Error;
use crate::frame::{framed_write, read_length, read_outcome, MAX_WRITE_PAYLOAD};
use vstd::prelude::*;

verus! {

/// How a session reaches its device: at which address, and whether with
/// checksums.
pub struct Link {
    pub address: u8,
    pub use_crc: bool,
}

/// `x` is the transaction that reads `count` bytes from register `reg`:
/// the register address is the query, and the buffer holds the bytes of
/// the payload, twice as many with checksums.
pub open spec fn is_read(x: Exchange, link: Link, reg: u8, count: nat) -> bool {
    match x {
        Exchange::Read { address, query, asked, .. } => {
            &&& address == link.address
            &&& query == seq![reg]
            &&& asked == read_length(link.use_crc, count)
        },
        _ => false,
    }
}

/// What the read `x` of `count` bytes comes to.
pub open spec fn read_result(x: Exchange, link: Link, count: nat) -> Result<Seq<u8>, Error> {
    match x {
        Exchange::Read { response, delivered, .. } => read_outcome(
            link.use_crc,
            link.address,
            delivered,
            response,
            count,
        ),
        _ => Err(Error::I2CError),
    }
}

/// `x` is the transaction that writes `data` to register `reg`: one frame.
pub open spec fn is_write(x: Exchange, link: Link, reg: u8, data: Seq<u8>) -> bool {
    match x {
        Exchange::Write { address, bytes, .. } => {
            &&& address == link.address
            &&& bytes == framed_write(link.use_crc, link.address, reg, data)
        },
        _ => false,
    }
}

/// What the write `x` comes to: it fails only when the transport does.
pub open spec fn write_result(x: Exchange) -> Result<(), Error> {
    if x.delivered() {
        Ok(())
    } else {
        Err(Error::I2CError)
    }
}

/// A read of `count` bytes from `reg` that asks the bus: one transaction,
/// and its outcome.
pub open spec fn read_run(
    link: Link,
    reg: u8,
    count: nat,
    trace: Seq<Exchange>,
    result: Result<Seq<u8>, Error>,
) -> bool {
    &&& trace.len() == 1
    &&& is_read(trace[0], link, reg, count)
    &&& result == read_result(trace[0], link, count)
}

/// A write of `data` to `reg` that asks the bus: one transaction, and its
/// outcome.
pub open spec fn write_run(
    link: Link,
    reg: u8,
    data: Seq<u8>,
    trace: Seq<Exchange>,
    result: Result<(), Error>,
) -> bool {
    &&& trace.len() == 1
    &&& is_write(trace[0], link, reg, data)
    &&& result == write_result(trace[0])
}

/// A raw read of `count` bytes on a device with `channels` channels.
///
/// With checksums, more than two bytes for each channel are refused and
/// for no byte at all nothing is read; neither asks anything of the bus.
/// Every other read is one transaction.
pub open spec fn raw_read_run(
    link: Link,
    channels: nat,
    reg: u8,
    count: nat,
    trace: Seq<Exchange>,
    result: Result<Seq<u8>, Error>,
) -> bool {
    if link.use_crc && count > 2 * channels {
        trace.len() == 0 && result == Err::<Seq<u8>, Error>(Error::BufTooLarge)
    } else if link.use_crc && count == 0 {
        trace.len() == 0 && result == Ok::<Seq<u8>, Error>(Seq::empty())
    } else {
        read_run(link, reg, count, trace, result)
    }
}

/// A raw write of `data`.
///
/// More than [`MAX_WRITE_PAYLOAD`] bytes are refused and no bytes are not
/// written; neither asks anything of the bus. Every other write is one
/// transaction.
pub open spec fn raw_write_run(
    link: Link,
    reg: u8,
    data: Seq<u8>,
    trace: Seq<Exchange>,
    result: Result<(), Error>,
) -> bool {
    if data.len() > MAX_WRITE_PAYLOAD {
        trace.len() == 0 && result == Err::<(), Error>(Error::BufTooLarge)
    } else if data.len() == 0 {
        trace.len() == 0 && result == Ok::<(), Error>(())
    } else {
        write_run(link, reg, data, trace, result)
    }
}

/// A verified write of `value` to the control register `reg`: the
/// register is written and, when that went through, read back; the byte
/// read must be the byte written.
pub open spec fn verified_write_run(
    link: Link,
    reg: u8,
    value: u8,
    trace: Seq<Exchange>,
    result: Result<(), Error>,
) -> bool {
    &&& trace.len() >= 1
    &&& is_write(trace[0], link, reg, seq![value])
    &&& if !trace[0].delivered() {
        trace.len() == 1 && result == Err::<(), Error>(Error::I2CError)
    } else {
        &&& trace.len() == 2
        &&& is_read(trace[1], link, reg, 1)
        &&& result == match read_result(trace[1], link, 1) {
            Ok(after) => spec_verify_readback(reg, value, after[0]),
            Err(e) => Err(e),
        }
    }
}

/// An update of the control register `reg`: the register is read;
/// `update` decides from its byte whether there is anything to write, and
/// what; that byte is written and verified as [`verified_write_run`] says.
pub open spec fn update_run(
    link: Link,
    reg: u8,
    update: spec_fn(u8) -> Option<u8>,
    trace: Seq<Exchange>,
    result: Result<(), Error>,
) -> bool {
    &&& trace.len() >= 1
    &&& is_read(trace[0], link, reg, 1)
    &&& match read_result(trace[0], link, 1) {
        Err(e) => trace.len() == 1 && result == Err::<(), Error>(e),
        Ok(before) => match update(before[0]) {
            None => trace.len() == 1 && result == Ok::<(), Error>(()),
            Some(value) => verified_write_run(link, reg, value, trace.skip(1), result),
        },
    }
}

/// The transactions of reading a temperature: the channel is read, two
/// bytes, and then system control 1 for the source of the reading.
pub open spec fn temperature_run(
    link: Link,
    trace: Seq<Exchange>,
    result: Result<Temperature, Error>,
) -> bool {
    &&& trace.len() >= 1
    &&& is_read(trace[0], link, TS1_HI, 2)
    &&& match read_result(trace[0], link, 2) {
        Err(e) => trace.len() == 1 && result == Err::<Temperature, Error>(e),
        Ok(ts) => {
            &&& trace.len() == 2
            &&& is_read(trace[1], link, SYS_CTRL1, 1)
            &&& result == match read_result(trace[1], link, 1) {
                Err(e) => Err(e),
                Ok(sys_ctrl1) => Ok(
                    Temperature::spec_from_reading(
                        TemperatureSource::spec_from_sys_ctrl1(sys_ctrl1[0]),
                        ts[0],
                        ts[1],
                    ),
                ),
            }
        },
    }
}

/// The transactions of entering ship mode: three writes to system control
/// 1, of 0, 1 and 2, each made only when the one before went through.
pub open spec fn ship_run(link: Link, trace: Seq<Exchange>, result: Result<(), Error>) -> bool {
    &&& trace.len() >= 1
    &&& is_write(trace[0], link, SYS_CTRL1, seq![0u8])
    &&& if !trace[0].delivered() {
        trace.len() == 1 && result == Err::<(), Error>(Error::I2CError)
    } else {
        &&& trace.len() >= 2
        &&& is_write(trace[1], link, SYS_CTRL1, seq![1u8])
        &&& if !trace[1].delivered() {
            trace.len() == 2 && result == Err::<(), Error>(Error::I2CError)
        } else {
            &&& trace.len() == 3
            &&& is_write(trace[2], link, SYS_CTRL1, seq![2u8])
            &&& result == write_result(trace[2])
        }
    }
}

/// The number of transactions of a probe: two when the write went through
/// and the read could be made, else one.
pub open spec fn probe_length(link: Link, channels: nat, trace: Seq<Exchange>) -> nat {
    if trace.len() >= 1 && trace[0].delivered() && !(link.use_crc && channels == 0) {
        2
    } else {
        1
    }
}

/// What a probe comes to: it succeeds when the byte read back is the
/// pattern.
pub open spec fn probe_result(link: Link, channels: nat, trace: Seq<Exchange>) -> Result<
    (),
    Error,
> {
    if !trace[0].delivered() {
        Err(Error::I2CError)
    } else if link.use_crc && channels == 0 {
        Err(Error::BufTooLarge)
    } else {
        match read_result(trace[1], link, 1) {
            Err(e) => Err(e),
            Ok(back) => if back[0] == PROBE_PATTERN {
                Ok(())
            } else {
                Err(Error::I2CError)
            },
        }
    }
}

/// The transactions of probing for a device at `link`: the probe pattern
/// is written to the under-voltage trip register and, when that went
/// through, the register is read back. On a device without channels a
/// checksummed read of one byte is too large and is not made.
pub open spec fn probe_run(
    link: Link,
    channels: nat,
    trace: Seq<Exchange>,
    result: Result<(), Error>,
) -> bool {
    &&& trace.len() == probe_length(link, channels, trace)
    &&& is_write(trace[0], link, UV_TRIP, seq![PROBE_PATTERN])
    &&& trace.len() == 2 ==> is_read(trace[1], link, UV_TRIP, 1)
    &&& result == probe_result(link, channels, trace)
}

/// The links that detection probes, in this order: the alternate address
/// without and with checksums, then the primary address without and with
/// checksums.
pub open spec fn probe_order() -> Seq<Link> {
    seq![
        Link { address: ALTERNATE_ADDRESS, use_crc: false },
        Link { address: ALTERNATE_ADDRESS, use_crc: true },
        Link { address: PRIMARY_ADDRESS, use_crc: false },
        Link { address: PRIMARY_ADDRESS, use_crc: true },
    ]
}

/// The transactions of detection over `candidates`: the candidates are
/// probed in order until one answers. `found` is the first that answers,
/// and none when none does; no candidate after it is probed.
pub open spec fn detect_run(
    candidates: Seq<Link>,
    channels: nat,
    trace: Seq<Exchange>,
    found: Option<Link>,
) -> bool
    decreases candidates.len(),
{
    if candidates.len() == 0 {
        trace.len() == 0 && found is None
    } else {
        let link = candidates[0];
        let n = probe_length(link, channels, trace) as int;
        &&& n <= trace.len()
        &&& probe_run(
            link,
            channels,
            trace.take(n),
            probe_result(link, channels, trace.take(n)),
        )
        &&& if probe_result(link, channels, trace.take(n)) is Ok {
            trace.len() == n && found == Some(link)
        } else {
            detect_run(candidates.skip(1), channels, trace.skip(n), found)
        }
    }
}

/// Detection over a list of candidates is the probe of the first, and,
/// when that fails, detection over the rest.
pub proof fn lemma_detect_first(
    candidates: Seq<Link>,
    channels: nat,
    first: Seq<Exchange>,
    rest: Seq<Exchange>,
    found: Option<Link>,
)
    requires
        candidates.len() >= 1,
        probe_run(
            candidates[0],
            channels,
            first,
            probe_result(candidates[0], channels, first),
        ),
        probe_result(candidates[0], channels, first) is Ok ==> rest.len() == 0 && found == Some(
            candidates[0],
        ),
        probe_result(candidates[0], channels, first) is Err ==> detect_run(
            candidates.skip(1),
            channels,
            rest,
            found,
        ),
    ensures
        detect_run(candidates, channels, first + rest, found),
{
    let trace = first + rest;
    let n = probe_length(candidates[0], channels, trace) as int;
    assert(trace[0] == first[0]);
    assert(n == first.len());
    assert(trace.take(n) =~= first);
    assert(trace.skip(n) =~= rest);
}

/// The outcome of a read into a buffer: the bytes that arrived, or the
/// error.
pub open spec fn data_view(r: Result<(), Error>, data: Seq<u8>) -> Result<Seq<u8>, Error> {
    match r {
        Ok(_) => Ok(data),
        Err(e) => Err(e),
    }
}

/// The outcome of a read of one byte.
pub open spec fn byte_view(r: Result<u8, Error>) -> Result<Seq<u8>, Error> {
    match r {
        Ok(byte) => Ok(seq![byte]),
        Err(e) => Err(e),
    }
}

/// The outcome of a read of two bytes.
pub open spec fn pair_view(r: Result<(u8, u8), Error>) -> Result<Seq<u8>, Error> {
    match r {
        Ok(pair) => Ok(seq![pair.0, pair.1]),
        Err(e) => Err(e),
    }
}

/// A read fails only as the bus decides: with a bus error, or with a
/// checksum mismatch.
pub proof fn law_read_fails_by_transfer(x: Exchange, link: Link, count: nat)
    ensures
        read_result(x, link, count) is Err ==> read_result(x, link, count)->Err_0.is_transfer(),
        read_result(x, link, count) is Ok ==> read_result(x, link, count)->Ok_0.len() == count,
{
}

/// A verified write fails only as the bus decides, or because the
/// register reads back differently.
pub proof fn law_verified_write_failures(
    link: Link,
    reg: u8,
    value: u8,
    trace: Seq<Exchange>,
    result: Result<(), Error>,
)
    requires
        verified_write_run(link, reg, value, trace, result),
        result is Err,
    ensures
        result->Err_0.is_transfer() || result->Err_0 == Error::VerifyError(reg),
{
    if trace[0].delivered() {
        law_read_fails_by_transfer(trace[1], link, 1);
    }
}

/// An update of a control register fails only as the bus decides, or
/// because the register reads back differently.
pub proof fn law_update_failures(
    link: Link,
    reg: u8,
    update: spec_fn(u8) -> Option<u8>,
    trace: Seq<Exchange>,
    result: Result<(), Error>,
)
    requires
        update_run(link, reg, update, trace, result),
        result is Err,
    ensures
        result->Err_0.is_transfer() || result->Err_0 == Error::VerifyError(reg),
{
    law_read_fails_by_transfer(trace[0], link, 1);
    match read_result(trace[0], link, 1) {
        Err(e) => {},
        Ok(before) => match update(before[0]) {
            None => {},
            Some(value) => {
                law_verified_write_failures(link, reg, value, trace.skip(1), result);
            },
        },
    }
}

} // verus!
