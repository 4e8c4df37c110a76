//! The device session: the state that the driver keeps for one device, and
//! the operations on it.
//!
//! A session starts uninitialised. `init` reads the calibration, writes
//! the protection registers and makes the session initialised; cell
//! voltages and the current can only be read after that. Status, FET
//! control, balancing and the other register accesses work at any time.
//!
//! Control writes are verified: an operation that sets or clears bits of a
//! control register reads the register back after writing it and fails
//! with `Error::VerifyError` when the byte read differs from the byte
//! written. Writes whose effect does not read back as written, clearing
//! status bits, the balancing bitmap, the ship-mode sequence and the block
//! of protection registers, are not read back.
//!
//! Nothing is retried: the first failure of a transaction ends the
//! operation and is returned.
//!
//! Every operation takes the bus as a [`Wire`] and states what it has
//! added to the record of the wire: which transactions it made, in which
//! order, and how its result follows from what came back.

use crate::adc::{AdcTransferFunction, GAIN_BASE, GAIN_MAX};
use crate::bus::{Exchange, RegisterBus, Wire};
use crate::cells::{block_voltages, cell_block_voltages, is_supported, supported_cell_count};
use crate::config::{CalculatedValues, Config};
use crate::control::{
    be16, fet_update, shunt_current, spec_be16, spec_fet_update, spec_shunt_current,
    spec_with_flag, verify_readback, with_flag, CoulombCounterMode, Temperature,
    TemperatureSource, ADCGAIN1, ADCGAIN2, ADC_EN, BAT_HI, CC_EN, CC_HI, CELLBAL1, CHG_ON,
    ALTERNATE_ADDRESS, DSG_ON, PRIMARY_ADDRESS, PROBE_PATTERN, PROTECT1, SYS_CTRL1, SYS_CTRL2,
    SYS_STAT, TS1_HI, UV_TRIP, VC1_HI,
};
use crate::error::Error;
use crate::frame::{
    complete_read_crc, complete_read_plain, encode_write_crc, encode_write_plain,
};
use crate::protocol::{
    byte_view, data_view, is_read, is_write, law_read_fails_by_transfer, law_update_failures,
    detect_run, lemma_detect_first, pair_view, probe_order, probe_run, raw_read_run,
    raw_write_run, read_result, read_run, ship_run, temperature_run, update_run,
    verified_write_run, write_run, Link,
};
use crate::status::{Stat, SysStat};
use crate::units::{MicroOhms, MilliAmperes, MilliVolts};
use vstd::prelude::*;
use vstd::slice::slice_subrange;

verus! {

/// A session with one device that has `X` ADC channels.
pub struct BQ769x0<const X: usize> {
    dev_address: u8,
    init_complete: bool,
    adc_gain: u16,
    adc_offset: i8,
    shunt: MicroOhms,
    cell_count: u8,
    cells: Vec<MilliVolts>,
    use_crc: bool,
}

/// `n` zero bytes.
fn zeros(n: usize) -> (v: Vec<u8>)
    ensures
        v@.len() == n,
{
    let mut v: Vec<u8> = Vec::new();
    let mut i: usize = 0;
    while i < n
        invariant
            i <= n,
            v@.len() == i,
        decreases n - i,
    {
        v.push(0);
        i += 1;
    }
    v
}

/// Two zero bytes for each of `n` payload bytes.
fn zero_pairs(n: usize) -> (v: Vec<u8>)
    ensures
        v@.len() == 2 * n,
{
    let mut v: Vec<u8> = Vec::new();
    let mut i: usize = 0;
    while i < n
        invariant
            i <= n,
            v@.len() == 2 * i,
        decreases n - i,
    {
        v.push(0);
        v.push(0);
        i += 1;
    }
    v
}

/// Copies `from` over `data`, which has the same length.
fn copy_into(data: &mut [u8], from: &Vec<u8>)
    requires
        old(data)@.len() == from@.len(),
    ensures
        final(data)@ == from@,
{
    let n = data.len();
    let mut i: usize = 0;
    while i < n
        invariant
            i <= n,
            n == from@.len(),
            data@.len() == n,
            forall|k: int| 0 <= k < i ==> data@[k] == from@[k],
        decreases n - i,
    {
        data[i] = from[i];
        i += 1;
    }
    assert(data@ =~= from@);
}

/// A configuration that `init` refuses is refused before anything is
/// written: the run consists of the two reads of the trim registers, and
/// the session is no more initialised than it was.
pub proof fn law_refused_configuration_is_not_written<const X: usize>(
    before: &BQ769x0<X>,
    after: &BQ769x0<X>,
    config: Config,
    trace: Seq<Exchange>,
    result: Result<CalculatedValues, Error>,
)
    requires
        BQ769x0::<X>::init_run(before, after, config, trace, result),
        result is Err,
        !result->Err_0.is_transfer(),
        !(result->Err_0 is VerifyError),
    ensures
        trace.len() == 2,
        trace[0] is Read,
        trace[1] is Read,
        result->Err_0 == config.refusal(after.transfer_function()),
        !config.obtainable(after.transfer_function()),
        after.spec_is_initialized() == before.spec_is_initialized(),
        after.shunt() == before.shunt(),
{
    let link = before.link();
    law_read_fails_by_transfer(trace[0], link, 2);
    match read_result(trace[0], link, 2) {
        Err(e) => {},
        Ok(gain1_offset) => {
            law_read_fails_by_transfer(trace[1], link, 1);
            match read_result(trace[1], link, 1) {
                Err(e) => {},
                Ok(gain2) => {
                    let tf = AdcTransferFunction::spec_from_trim(
                        gain1_offset[0],
                        gain1_offset[1],
                        gain2[0],
                    );
                    if config.obtainable(tf) && trace[2].delivered() {
                        law_update_failures(
                            link,
                            SYS_CTRL2,
                            |sys_ctrl2: u8| Some(sys_ctrl2 | CC_EN),
                            trace.skip(3),
                            match result {
                                Ok(_) => Ok(()),
                                Err(e) => Err(e),
                            },
                        );
                    }
                },
            }
        },
    }
}

/// Whatever the bus does, `init` fails on a configuration whose two
/// current requests need different sense ranges; and when the bus does
/// its part up to that point, it fails with the range mismatch.
pub proof fn law_conflicting_ranges_fail_init<const X: usize>(
    before: &BQ769x0<X>,
    after: &BQ769x0<X>,
    config: Config,
    trace: Seq<Exchange>,
    result: Result<CalculatedValues, Error>,
)
    requires
        BQ769x0::<X>::init_run(before, after, config, trace, result),
        config.ranges_conflict(),
    ensures
        result is Err,
        result->Err_0 == Error::OCDSCDRangeMismatch || result->Err_0.is_transfer(),
        trace.len() <= 2,
{
    let link = before.link();
    law_read_fails_by_transfer(trace[0], link, 2);
    if read_result(trace[0], link, 2) is Ok {
        law_read_fails_by_transfer(trace[1], link, 1);
    }
}

impl<const X: usize> BQ769x0<X> {
    #[verifier::type_invariant]
    spec fn well_formed(&self) -> bool {
        &&& supported_cell_count(X as int, self.cell_count as int)
        &&& self.cells@.len() == X
        &&& self.adc_gain == 0 || GAIN_BASE <= self.adc_gain <= GAIN_MAX
        &&& self.init_complete ==> self.shunt.0 > 0 && GAIN_BASE <= self.adc_gain
    }

    /// The 7-bit bus address of the device.
    pub closed spec fn spec_i2c_address(&self) -> u8 {
        self.dev_address
    }

    /// Transactions are framed with checksums.
    pub closed spec fn spec_is_crc_used(&self) -> bool {
        self.use_crc
    }

    /// The gain in microvolts per ADC step; zero until the calibration
    /// has been read.
    pub closed spec fn spec_adc_gain(&self) -> u16 {
        self.adc_gain
    }

    /// The offset in millivolts; zero until the calibration has been
    /// read.
    pub closed spec fn spec_adc_offset(&self) -> i8 {
        self.adc_offset
    }

    /// `init` has written the protection registers.
    pub closed spec fn spec_is_initialized(&self) -> bool {
        self.init_complete
    }

    /// The number of cells that the device monitors.
    pub closed spec fn cell_count(&self) -> u8 {
        self.cell_count
    }

    /// The sense resistance that the last `init` committed; zero before.
    pub closed spec fn shunt(&self) -> MicroOhms {
        self.shunt
    }

    /// The cell voltages of the last reading, one for each channel.
    pub closed spec fn cells(&self) -> Seq<MilliVolts> {
        self.cells@
    }

    /// The transfer function that the session has read from the device.
    pub open spec fn transfer_function(&self) -> AdcTransferFunction {
        AdcTransferFunction { gain: self.spec_adc_gain(), offset: self.spec_adc_offset() }
    }

    /// How the session reaches its device.
    pub open spec fn link(&self) -> Link {
        Link { address: self.spec_i2c_address(), use_crc: self.spec_is_crc_used() }
    }

    /// Everything but the cached cell voltages is the same in both
    /// sessions.
    pub open spec fn same_settings(&self, other: &Self) -> bool {
        &&& self.link() == other.link()
        &&& self.cell_count() == other.cell_count()
        &&& self.transfer_function() == other.transfer_function()
        &&& self.spec_is_initialized() == other.spec_is_initialized()
        &&& self.shunt() == other.shunt()
    }

    /// What `init` does with `config`, from the session `before` to the
    /// session `after`.
    ///
    /// The two trim registers are read, and the calibration is taken from
    /// them. A configuration that cannot be set with that calibration is
    /// refused before anything is written. Otherwise the six protection
    /// registers are written in one transaction; when that went through,
    /// the shunt is committed and the session is initialised. Last, the
    /// coulomb counter is set to run continuously by a verified update of
    /// system control 2, and the result is what was achieved. The first
    /// transaction that fails ends the run with its error.
    pub open spec fn init_run(
        before: &Self,
        after: &Self,
        config: Config,
        trace: Seq<Exchange>,
        result: Result<CalculatedValues, Error>,
    ) -> bool {
        let link = before.link();
        &&& after.link() == link
        &&& after.cell_count() == before.cell_count()
        &&& after.cells() == before.cells()
        &&& trace.len() >= 1
        &&& is_read(trace[0], link, ADCGAIN1, 2)
        &&& match read_result(trace[0], link, 2) {
            Err(e) => {
                &&& trace.len() == 1
                &&& result == Err::<CalculatedValues, Error>(e)
                &&& after.same_settings(before)
            },
            Ok(gain1_offset) => {
                &&& trace.len() >= 2
                &&& is_read(trace[1], link, ADCGAIN2, 1)
                &&& match read_result(trace[1], link, 1) {
                    Err(e) => {
                        &&& trace.len() == 2
                        &&& result == Err::<CalculatedValues, Error>(e)
                        &&& after.same_settings(before)
                    },
                    Ok(gain2) => {
                        let tf = AdcTransferFunction::spec_from_trim(
                            gain1_offset[0],
                            gain1_offset[1],
                            gain2[0],
                        );
                        &&& after.transfer_function() == tf
                        &&& if !config.obtainable(tf) {
                            &&& trace.len() == 2
                            &&& result == Err::<CalculatedValues, Error>(config.refusal(tf))
                            &&& after.spec_is_initialized() == before.spec_is_initialized()
                            &&& after.shunt() == before.shunt()
                        } else {
                            &&& trace.len() >= 3
                            &&& is_write(trace[2], link, PROTECT1, config.registers(tf))
                            &&& if !trace[2].delivered() {
                                &&& trace.len() == 3
                                &&& result == Err::<CalculatedValues, Error>(Error::I2CError)
                                &&& after.spec_is_initialized() == before.spec_is_initialized()
                                &&& after.shunt() == before.shunt()
                            } else {
                                &&& after.spec_is_initialized()
                                &&& after.shunt() == config.shunt
                                &&& update_run(
                                    link,
                                    SYS_CTRL2,
                                    |sys_ctrl2: u8| Some(sys_ctrl2 | CC_EN),
                                    trace.skip(3),
                                    match result {
                                        Ok(_) => Ok(()),
                                        Err(e) => Err(e),
                                    },
                                )
                                &&& result is Ok ==> result->Ok_0 == config.achieved(tf)
                            }
                        }
                    },
                }
            },
        }
    }

    /// Creates the session for a device at `dev_address` that monitors
    /// `cell_count` cells.
    ///
    /// There is a session exactly when the variant supports the cell
    /// count. It starts uninitialised, with no calibration and no shunt.
    pub fn new(dev_address: u8, cell_count: u8, use_crc: bool) -> (r: Option<Self>)
        ensures
            r is Some <==> supported_cell_count(X as int, cell_count as int),
            r is Some ==> {
                let s = r->Some_0;
                &&& s.link() == Link { address: dev_address, use_crc }
                &&& s.cell_count() == cell_count
                &&& !s.spec_is_initialized()
                &&& s.spec_adc_gain() == 0
                &&& s.spec_adc_offset() == 0
                &&& s.shunt() == MicroOhms(0)
                &&& s.cells() == Seq::new(X as nat, |i: int| MilliVolts(0))
            },
    {
        if !is_supported(X, cell_count) {
            return None;
        }
        let mut cells: Vec<MilliVolts> = Vec::new();
        let mut i: usize = 0;
        while i < X
            invariant
                i <= X,
                cells@.len() == i,
                forall|k: int| 0 <= k < i ==> cells@[k] == MilliVolts(0),
            decreases X - i,
        {
            cells.push(MilliVolts(0));
            i += 1;
        }
        assert(cells@ =~= Seq::new(X as nat, |i: int| MilliVolts(0)));
        Some(
            BQ769x0 {
                dev_address,
                init_complete: false,
                adc_gain: 0,
                adc_offset: 0,
                shunt: MicroOhms(0),
                cell_count,
                cells,
                use_crc,
            },
        )
    }

    /// Asks whether a device answers at `dev_address` in the given
    /// framing, as [`probe_run`] says.
    fn check_communication<B: RegisterBus>(bus: &mut Wire<B>, dev_address: u8, use_crc: bool) -> (r:
        Result<(), Error>)
        ensures
            final(bus).extends(old(bus)),
            probe_run(
                Link { address: dev_address, use_crc },
                X as nat,
                final(bus).since(old(bus)),
                r,
            ),
    {
        let ghost start = *bus;
        let pattern = [PROBE_PATTERN];
        assert(pattern@ =~= seq![PROBE_PATTERN]);
        let mut buf = zeros(1);
        if use_crc {
            Self::write_raw_crc(bus, dev_address, UV_TRIP, pattern.as_slice())?;
        } else {
            Self::write_raw_nocrc(bus, dev_address, UV_TRIP, pattern.as_slice())?;
        }
        let ghost written = *bus;
        let read = if use_crc {
            Self::read_raw_crc(bus, dev_address, UV_TRIP, buf.as_mut_slice())
        } else {
            Self::read_raw_nocrc(bus, dev_address, UV_TRIP, buf.as_mut_slice())
        };
        proof {
            Wire::lemma_join(&start, &written, &*bus);
        }
        read?;
        assert(buf@ =~= seq![buf@[0]]);
        if buf[0] == PROBE_PATTERN {
            Ok(())
        } else {
            Err(Error::I2CError)
        }
    }

    /// The session, if any, that detection makes of what it has found:
    /// one for the link that answered, when the variant supports the cell
    /// count.
    pub open spec fn detected(found: Option<Link>, cell_count: u8, r: Option<Self>) -> bool {
        match found {
            Some(link) if supported_cell_count(X as int, cell_count as int) => {
                &&& r is Some
                &&& r->Some_0.link() == link
                &&& r->Some_0.cell_count() == cell_count
                &&& !r->Some_0.spec_is_initialized()
                &&& r->Some_0.spec_adc_gain() == 0
                &&& r->Some_0.spec_adc_offset() == 0
            },
            _ => r is None,
        }
    }

    /// Finds the device on the bus and creates its session, as
    /// [`detect_run`] says.
    ///
    /// The two addresses of the family are probed, [`ALTERNATE_ADDRESS`]
    /// first, each without and then with checksums; the session is made
    /// for the first combination that answers. There is none when nothing
    /// answers or when the variant does not support `cell_count`.
    pub fn new_detect<B: RegisterBus>(bus: &mut Wire<B>, cell_count: u8) -> (r: Option<Self>)
        ensures
            final(bus).extends(old(bus)),
            exists|found: Option<Link>| #[trigger]
                detect_run(probe_order(), X as nat, final(bus).since(old(bus)), found)
                    && Self::detected(found, cell_count, r),
    {
        let ghost start = *bus;
        let ghost order = probe_order();
        let ghost none = Seq::<Exchange>::empty();
        let first = Self::check_communication(bus, ALTERNATE_ADDRESS, false);
        let ghost after_first = *bus;
        let ghost t1 = bus.since(&start);
        if first.is_ok() {
            let r = Self::new(ALTERNATE_ADDRESS, cell_count, false);
            proof {
                assert(t1 + none =~= t1);
                lemma_detect_first(order, X as nat, t1, none, Some(order[0]));
                assert(Self::detected(Some(order[0]), cell_count, r));
            }
            return r;
        }
        let second = Self::check_communication(bus, ALTERNATE_ADDRESS, true);
        let ghost after_second = *bus;
        let ghost t2 = bus.since(&after_first);
        proof {
            Wire::lemma_join(&start, &after_first, &*bus);
            assert(order.skip(1).skip(1).skip(1).skip(1).len() == 0);
        }
        if second.is_ok() {
            let r = Self::new(ALTERNATE_ADDRESS, cell_count, true);
            proof {
                assert(t2 + none =~= t2);
                lemma_detect_first(order.skip(1), X as nat, t2, none, Some(order[1]));
                lemma_detect_first(order, X as nat, t1, t2, Some(order[1]));
                assert(Self::detected(Some(order[1]), cell_count, r));
            }
            return r;
        }
        let third = Self::check_communication(bus, PRIMARY_ADDRESS, false);
        let ghost after_third = *bus;
        let ghost t3 = bus.since(&after_second);
        proof {
            Wire::lemma_join(&after_first, &after_second, &*bus);
            Wire::lemma_join(&start, &after_first, &*bus);
        }
        if third.is_ok() {
            let r = Self::new(PRIMARY_ADDRESS, cell_count, false);
            proof {
                assert(t3 + none =~= t3);
                lemma_detect_first(order.skip(1).skip(1), X as nat, t3, none, Some(order[2]));
                lemma_detect_first(order.skip(1), X as nat, t2, t3, Some(order[2]));
                lemma_detect_first(order, X as nat, t1, t2 + t3, Some(order[2]));
                assert(Self::detected(Some(order[2]), cell_count, r));
            }
            return r;
        }
        let fourth = Self::check_communication(bus, PRIMARY_ADDRESS, true);
        let ghost t4 = bus.since(&after_third);
        proof {
            Wire::lemma_join(&after_second, &after_third, &*bus);
            Wire::lemma_join(&after_first, &after_second, &*bus);
            Wire::lemma_join(&start, &after_first, &*bus);
        }
        let r = if fourth.is_ok() {
            Self::new(PRIMARY_ADDRESS, cell_count, true)
        } else {
            None
        };
        proof {
            let found = if fourth is Ok {
                Some(order[3])
            } else {
                None
            };
            let rest = order.skip(1).skip(1).skip(1);
            assert(t4 + none =~= t4);
            assert(detect_run(rest.skip(1), X as nat, none, None));
            lemma_detect_first(rest, X as nat, t4, none, found);
            lemma_detect_first(order.skip(1).skip(1), X as nat, t3, t4, found);
            lemma_detect_first(order.skip(1), X as nat, t2, t3 + t4, found);
            lemma_detect_first(order, X as nat, t1, t2 + (t3 + t4), found);
            assert(Self::detected(found, cell_count, r));
        }
        r
    }

    /// The 7-bit bus address of the device.
    #[verifier::when_used_as_spec(spec_i2c_address)]
    pub fn i2c_address(&self) -> (r: u8)
        ensures
            r == self.spec_i2c_address(),
    {
        self.dev_address
    }

    /// Whether transactions are framed with checksums.
    #[verifier::when_used_as_spec(spec_is_crc_used)]
    pub fn is_crc_used(&self) -> (r: bool)
        ensures
            r == self.spec_is_crc_used(),
    {
        self.use_crc
    }

    /// The gain in microvolts per ADC step; zero until the calibration
    /// has been read, and a gain that the trim registers can express from
    /// then on.
    #[verifier::when_used_as_spec(spec_adc_gain)]
    pub fn adc_gain(&self) -> (r: u16)
        ensures
            r == self.spec_adc_gain(),
            r == 0 || GAIN_BASE <= r <= GAIN_MAX,
    {
        proof {
            use_type_invariant(self);
        }
        self.adc_gain
    }

    /// The offset in millivolts; zero until the calibration has been
    /// read.
    #[verifier::when_used_as_spec(spec_adc_offset)]
    pub fn adc_offset(&self) -> (r: i8)
        ensures
            r == self.spec_adc_offset(),
    {
        self.adc_offset
    }

    /// Whether `init` has written the protection registers. A session
    /// that is initialised has a calibrated transfer function and a shunt.
    #[verifier::when_used_as_spec(spec_is_initialized)]
    pub fn is_initialized(&self) -> (r: bool)
        ensures
            r == self.spec_is_initialized(),
            r ==> self.transfer_function().is_calibrated() && self.shunt().0 > 0,
    {
        proof {
            use_type_invariant(self);
        }
        self.init_complete
    }

    /// Reads `data.len()` bytes from `reg_address` without checksums: one
    /// transaction, whose buffer holds as many bytes as `data`.
    ///
    /// The bytes arrive in `data` on success; after a failure `data` is
    /// as it was.
    fn read_raw_nocrc<B: RegisterBus>(
        bus: &mut Wire<B>,
        dev_address: u8,
        reg_address: u8,
        data: &mut [u8],
    ) -> (r: Result<(), Error>)
        ensures
            final(bus).extends(old(bus)),
            raw_read_run(
                Link { address: dev_address, use_crc: false },
                X as nat,
                reg_address,
                old(data)@.len(),
                final(bus).since(old(bus)),
                data_view(r, final(data)@),
            ),
            final(data)@.len() == old(data)@.len(),
            r is Err ==> final(data)@ == old(data)@,
    {
        let ghost start = *bus;
        let n = data.len();
        let mut buf = zeros(n);
        let query = [reg_address];
        assert(query@ =~= seq![reg_address]);
        let outcome = bus.write_read(dev_address, query.as_slice(), buf.as_mut_slice());
        proof {
            Wire::lemma_step(&start, &*bus, bus.log().last());
        }
        let payload = complete_read_plain(outcome.is_ok(), buf.as_slice(), n)?;
        copy_into(data, &payload);
        Ok(())
    }

    /// Reads `data.len()` bytes from `reg_address` with checksums.
    ///
    /// More bytes than two for each channel are refused, and for no byte
    /// at all nothing is asked of the bus. Otherwise there is one
    /// transaction, whose buffer holds two bytes for each byte of `data`.
    /// A transport failure, or a response of another length, is a bus
    /// error; a response that is not well framed is a checksum mismatch;
    /// a well-framed response puts its payload in `data`. After any
    /// failure `data` is as it was.
    fn read_raw_crc<B: RegisterBus>(
        bus: &mut Wire<B>,
        dev_address: u8,
        reg_address: u8,
        data: &mut [u8],
    ) -> (r: Result<(), Error>)
        ensures
            final(bus).extends(old(bus)),
            raw_read_run(
                Link { address: dev_address, use_crc: true },
                X as nat,
                reg_address,
                old(data)@.len(),
                final(bus).since(old(bus)),
                data_view(r, final(data)@),
            ),
            final(data)@.len() == old(data)@.len(),
            r is Err ==> final(data)@ == old(data)@,
    {
        let ghost start = *bus;
        let n = data.len();
        if n - n / 2 > X {
            proof {
                Wire::lemma_still(&start, &*bus);
            }
            return Err(Error::BufTooLarge);
        } else if n == 0 {
            proof {
                Wire::lemma_still(&start, &*bus);
                assert(data@ =~= Seq::<u8>::empty());
            }
            return Ok(());
        }
        let mut buf = zero_pairs(n);
        let query = [reg_address];
        assert(query@ =~= seq![reg_address]);
        let outcome = bus.write_read(dev_address, query.as_slice(), buf.as_mut_slice());
        proof {
            Wire::lemma_step(&start, &*bus, bus.log().last());
        }
        let payload = complete_read_crc(dev_address, outcome.is_ok(), buf.as_slice(), n)?;
        copy_into(data, &payload);
        Ok(())
    }

    /// Reads `data.len()` bytes from `reg_address`, framed as the session
    /// is set up, as [`raw_read_run`] says.
    ///
    /// On success the bytes are in `data`; after any failure `data` is as
    /// it was. With checksums, more than two bytes for each channel are
    /// refused and a read of no bytes succeeds at once, both without a
    /// transaction. Every other read is one transaction: the register
    /// address is sent and the payload is read, with checksums two bytes
    /// for each byte of it. The failures that remain are the bus's: a
    /// transport failure, or with checksums a response that is not well
    /// framed.
    pub fn read_raw<B: RegisterBus>(
        &mut self,
        bus: &mut Wire<B>,
        reg_address: u8,
        data: &mut [u8],
    ) -> (r: Result<(), Error>)
        ensures
            *final(self) == *old(self),
            final(bus).extends(old(bus)),
            raw_read_run(
                old(self).link(),
                X as nat,
                reg_address,
                old(data)@.len(),
                final(bus).since(old(bus)),
                data_view(r, final(data)@),
            ),
            final(data)@.len() == old(data)@.len(),
            r is Err ==> final(data)@ == old(data)@,
    {
        if self.use_crc {
            Self::read_raw_crc(bus, self.dev_address, reg_address, data)
        } else {
            Self::read_raw_nocrc(bus, self.dev_address, reg_address, data)
        }
    }

    /// Writes `data` to `reg_address` without checksums.
    fn write_raw_nocrc<B: RegisterBus>(
        bus: &mut Wire<B>,
        dev_address: u8,
        reg_address: u8,
        data: &[u8],
    ) -> (r: Result<(), Error>)
        ensures
            final(bus).extends(old(bus)),
            raw_write_run(
                Link { address: dev_address, use_crc: false },
                reg_address,
                data@,
                final(bus).since(old(bus)),
                r,
            ),
    {
        let ghost start = *bus;
        let frame = match encode_write_plain(reg_address, data) {
            Ok(frame) => frame,
            Err(e) => {
                proof {
                    Wire::lemma_still(&start, &*bus);
                }
                return Err(e);
            },
        };
        if data.len() == 0 {
            proof {
                Wire::lemma_still(&start, &*bus);
            }
            return Ok(());
        }
        let outcome = bus.write(dev_address, frame.as_slice());
        proof {
            Wire::lemma_step(&start, &*bus, bus.log().last());
        }
        match outcome {
            Ok(_) => Ok(()),
            Err(_) => Err(Error::I2CError),
        }
    }

    /// Writes `data` to `reg_address` with checksums.
    fn write_raw_crc<B: RegisterBus>(
        bus: &mut Wire<B>,
        dev_address: u8,
        reg_address: u8,
        data: &[u8],
    ) -> (r: Result<(), Error>)
        ensures
            final(bus).extends(old(bus)),
            raw_write_run(
                Link { address: dev_address, use_crc: true },
                reg_address,
                data@,
                final(bus).since(old(bus)),
                r,
            ),
    {
        let ghost start = *bus;
        let frame = match encode_write_crc(dev_address, reg_address, data) {
            Ok(frame) => frame,
            Err(e) => {
                proof {
                    Wire::lemma_still(&start, &*bus);
                }
                return Err(e);
            },
        };
        if data.len() == 0 {
            proof {
                Wire::lemma_still(&start, &*bus);
            }
            return Ok(());
        }
        let outcome = bus.write(dev_address, frame.as_slice());
        proof {
            Wire::lemma_step(&start, &*bus, bus.log().last());
        }
        match outcome {
            Ok(_) => Ok(()),
            Err(_) => Err(Error::I2CError),
        }
    }

    /// Writes `data` to `reg_address`, framed as the session is set up,
    /// as [`raw_write_run`] says.
    ///
    /// More than eight bytes are refused, and a write of no bytes
    /// succeeds at once, both without a transaction. Any other write
    /// hands the bus one frame and fails only when the transport does.
    pub fn write_raw<B: RegisterBus>(
        &mut self,
        bus: &mut Wire<B>,
        reg_address: u8,
        data: &[u8],
    ) -> (r: Result<(), Error>)
        ensures
            *final(self) == *old(self),
            final(bus).extends(old(bus)),
            raw_write_run(old(self).link(), reg_address, data@, final(bus).since(old(bus)), r),
    {
        if self.use_crc {
            Self::write_raw_crc(bus, self.dev_address, reg_address, data)
        } else {
            Self::write_raw_nocrc(bus, self.dev_address, reg_address, data)
        }
    }

    /// Reads one register.
    fn read_byte<B: RegisterBus>(&mut self, bus: &mut Wire<B>, reg_address: u8) -> (r: Result<
        u8,
        Error,
    >)
        ensures
            *final(self) == *old(self),
            final(bus).extends(old(bus)),
            read_run(old(self).link(), reg_address, 1, final(bus).since(old(bus)), byte_view(r)),
    {
        proof {
            use_type_invariant(&*self);
        }
        let mut data = zeros(1);
        self.read_raw(bus, reg_address, data.as_mut_slice())?;
        assert(data@ =~= seq![data@[0]]);
        Ok(data[0])
    }

    /// Reads two registers, the one at `reg_address` first.
    fn read_pair<B: RegisterBus>(&mut self, bus: &mut Wire<B>, reg_address: u8) -> (r: Result<
        (u8, u8),
        Error,
    >)
        ensures
            *final(self) == *old(self),
            final(bus).extends(old(bus)),
            read_run(old(self).link(), reg_address, 2, final(bus).since(old(bus)), pair_view(r)),
    {
        proof {
            use_type_invariant(&*self);
        }
        let mut data = zeros(2);
        self.read_raw(bus, reg_address, data.as_mut_slice())?;
        assert(data@ =~= seq![data@[0], data@[1]]);
        Ok((data[0], data[1]))
    }

    /// Writes one register.
    fn write_byte<B: RegisterBus>(&mut self, bus: &mut Wire<B>, reg_address: u8, value: u8) -> (r:
        Result<(), Error>)
        ensures
            *final(self) == *old(self),
            final(bus).extends(old(bus)),
            write_run(old(self).link(), reg_address, seq![value], final(bus).since(old(bus)), r),
    {
        let data = [value];
        assert(data@ =~= seq![value]);
        self.write_raw(bus, reg_address, data.as_slice())
    }

    /// Writes one control register and reads it back: the byte read must
    /// be the byte written.
    fn write_verified<B: RegisterBus>(
        &mut self,
        bus: &mut Wire<B>,
        reg_address: u8,
        value: u8,
    ) -> (r: Result<(), Error>)
        ensures
            *final(self) == *old(self),
            final(bus).extends(old(bus)),
            verified_write_run(
                old(self).link(),
                reg_address,
                value,
                final(bus).since(old(bus)),
                r,
            ),
    {
        let ghost start = *bus;
        self.write_byte(bus, reg_address, value)?;
        let ghost written = *bus;
        let read_back = self.read_byte(bus, reg_address);
        proof {
            Wire::lemma_join(&start, &written, &*bus);
        }
        verify_readback(reg_address, value, read_back?)
    }

    /// Reads the trim registers and takes the transfer function from
    /// them.
    fn read_adc_characteristics<B: RegisterBus>(&mut self, bus: &mut Wire<B>) -> (r: Result<
        (),
        Error,
    >)
        ensures
            final(self).cells() == old(self).cells(),
            final(self).link() == old(self).link(),
            final(self).cell_count() == old(self).cell_count(),
            final(self).spec_is_initialized() == old(self).spec_is_initialized(),
            final(self).shunt() == old(self).shunt(),
            final(bus).extends(old(bus)),
            ({
                let trace = final(bus).since(old(bus));
                let link = old(self).link();
                &&& trace.len() >= 1
                &&& is_read(trace[0], link, ADCGAIN1, 2)
                &&& match read_result(trace[0], link, 2) {
                    Err(e) => {
                        &&& trace.len() == 1
                        &&& r == Err::<(), Error>(e)
                        &&& final(self).transfer_function() == old(self).transfer_function()
                    },
                    Ok(gain1_offset) => {
                        &&& trace.len() == 2
                        &&& is_read(trace[1], link, ADCGAIN2, 1)
                        &&& match read_result(trace[1], link, 1) {
                            Err(e) => {
                                &&& r == Err::<(), Error>(e)
                                &&& final(self).transfer_function() == old(
                                    self,
                                ).transfer_function()
                            },
                            Ok(gain2) => {
                                &&& r is Ok
                                &&& final(self).transfer_function()
                                    == AdcTransferFunction::spec_from_trim(
                                    gain1_offset[0],
                                    gain1_offset[1],
                                    gain2[0],
                                )
                            },
                        }
                    },
                }
            }),
            r is Ok ==> final(self).transfer_function().is_calibrated(),
    {
        let ghost start = *bus;
        let gain1_offset = self.read_pair(bus, ADCGAIN1)?;
        let ghost first = *bus;
        let gain2 = self.read_byte(bus, ADCGAIN2);
        proof {
            Wire::lemma_join(&start, &first, &*bus);
        }
        let tf = AdcTransferFunction::from_trim(gain1_offset.0, gain1_offset.1, gain2?);
        proof {
            use_type_invariant(&*self);
        }
        self.adc_gain = tf.gain;
        self.adc_offset = tf.offset;
        Ok(())
    }

    /// Reads the voltage of every channel and returns those of the cells.
    ///
    /// An uninitialised session is refused without a transaction.
    /// Otherwise the cell-voltage block is read in one transaction, two
    /// bytes for each channel, and converted as [`cell_block_voltages`]
    /// does; the result is the first `cell_count` slots. After a failure
    /// the cached voltages are as they were.
    pub fn cell_voltages<B: RegisterBus>(&mut self, bus: &mut Wire<B>) -> (r: Result<
        &[MilliVolts],
        Error,
    >)
        ensures
            final(self).same_settings(old(self)),
            final(bus).extends(old(bus)),
            !old(self).spec_is_initialized() ==> {
                &&& final(bus).since(old(bus)).len() == 0
                &&& r is Err
                &&& r->Err_0 == Error::Uninitialized
                &&& final(self).cells() == old(self).cells()
            },
            old(self).spec_is_initialized() ==> {
                let trace = final(bus).since(old(bus));
                &&& trace.len() == 1
                &&& is_read(trace[0], old(self).link(), VC1_HI, 2 * X as nat)
                &&& match read_result(trace[0], old(self).link(), 2 * X as nat) {
                    Err(e) => {
                        &&& r is Err
                        &&& r->Err_0 == e
                        &&& final(self).cells() == old(self).cells()
                    },
                    Ok(block) => {
                        &&& r is Ok
                        &&& final(self).cells() == block_voltages(
                            X as int,
                            old(self).cell_count() as int,
                            old(self).transfer_function(),
                            block,
                        )
                        &&& r->Ok_0@ == final(self).cells().subrange(
                            0,
                            old(self).cell_count() as int,
                        )
                    },
                }
            },
    {
        proof {
            use_type_invariant(&*self);
        }
        let ghost start = *bus;
        if !self.init_complete {
            proof {
                Wire::lemma_still(&start, &*bus);
            }
            return Err(Error::Uninitialized);
        }
        let mut buf = zeros(X * 2);
        self.read_raw(bus, VC1_HI, buf.as_mut_slice())?;
        let adc_tf = self.adc_transfer_function();
        let cells = cell_block_voltages(X, self.cell_count, &adc_tf, buf.as_slice());
        self.cells = cells;
        Ok(slice_subrange(self.cells.as_slice(), 0, self.cell_count as usize))
    }

    /// Sets the balancing bitmap of the first cell group: one write.
    pub fn enable_balancing<B: RegisterBus>(&mut self, bus: &mut Wire<B>, cells: u8) -> (r: Result<
        (),
        Error,
    >)
        ensures
            *final(self) == *old(self),
            final(bus).extends(old(bus)),
            write_run(old(self).link(), CELLBAL1, seq![cells], final(bus).since(old(bus)), r),
    {
        self.write_byte(bus, CELLBAL1, cells)
    }

    /// Reads the balancing bitmap of the first cell group: one read.
    pub fn balancing_state<B: RegisterBus>(&mut self, bus: &mut Wire<B>) -> (r: Result<u8, Error>)
        ensures
            *final(self) == *old(self),
            final(bus).extends(old(bus)),
            read_run(old(self).link(), CELLBAL1, 1, final(bus).since(old(bus)), byte_view(r)),
    {
        self.read_byte(bus, CELLBAL1)
    }

    /// Reads the coulomb counter and converts it to the current through
    /// the shunt, as [`shunt_current`] does with the shunt that `init`
    /// committed. An uninitialised session is refused without a
    /// transaction.
    pub fn current<B: RegisterBus>(&mut self, bus: &mut Wire<B>) -> (r: Result<MilliAmperes, Error>)
        ensures
            *final(self) == *old(self),
            final(bus).extends(old(bus)),
            !old(self).spec_is_initialized() ==> final(bus).since(old(bus)).len() == 0 && r
                == Err::<MilliAmperes, Error>(Error::Uninitialized),
            old(self).spec_is_initialized() ==> {
                let trace = final(bus).since(old(bus));
                &&& trace.len() == 1
                &&& is_read(trace[0], old(self).link(), CC_HI, 2)
                &&& r == match read_result(trace[0], old(self).link(), 2) {
                    Err(e) => Err(e),
                    Ok(cc) => Ok(
                        MilliAmperes(spec_shunt_current(cc[0], cc[1], old(self).shunt()) as i32),
                    ),
                }
            },
    {
        proof {
            use_type_invariant(&*self);
        }
        let ghost start = *bus;
        if !self.init_complete {
            proof {
                Wire::lemma_still(&start, &*bus);
            }
            return Err(Error::Uninitialized);
        }
        let cc = self.read_pair(bus, CC_HI)?;
        proof {
            use_type_invariant(&*self);
        }
        Ok(shunt_current(cc.0, cc.1, self.shunt))
    }

    /// Reads the pack voltage, in one transaction, and converts it as
    /// [`AdcTransferFunction::pack_voltage`] does.
    pub fn voltage<B: RegisterBus>(&mut self, bus: &mut Wire<B>) -> (r: Result<MilliVolts, Error>)
        ensures
            *final(self) == *old(self),
            final(bus).extends(old(bus)),
            ({
                let trace = final(bus).since(old(bus));
                &&& trace.len() == 1
                &&& is_read(trace[0], old(self).link(), BAT_HI, 2)
                &&& r == match read_result(trace[0], old(self).link(), 2) {
                    Err(e) => Err(e),
                    Ok(vv) => Ok(
                        MilliVolts(
                            old(self).transfer_function().spec_pack_voltage(
                                spec_be16(vv[0], vv[1]),
                            ) as u32,
                        ),
                    ),
                }
            }),
    {
        let vv = self.read_pair(bus, BAT_HI)?;
        let reading = be16(vv.0, vv.1);
        Ok(self.adc_transfer_function().pack_voltage(reading))
    }

    /// Reads the temperature channel and tags the reading with the source
    /// that the device is set to, as [`temperature_run`] says.
    pub fn temperature<B: RegisterBus>(&mut self, bus: &mut Wire<B>) -> (r: Result<
        Temperature,
        Error,
    >)
        ensures
            *final(self) == *old(self),
            final(bus).extends(old(bus)),
            temperature_run(old(self).link(), final(bus).since(old(bus)), r),
    {
        let ghost start = *bus;
        let ts = self.read_pair(bus, TS1_HI)?;
        let ghost first = *bus;
        let source = self.temperature_source(bus);
        proof {
            Wire::lemma_join(&start, &first, &*bus);
        }
        Ok(Temperature::from_reading(source?, ts.0, ts.1))
    }

    /// Reads the status register: one read.
    pub fn sys_stat<B: RegisterBus>(&mut self, bus: &mut Wire<B>) -> (r: Result<Stat, Error>)
        ensures
            *final(self) == *old(self),
            final(bus).extends(old(bus)),
            read_run(
                old(self).link(),
                SYS_STAT,
                1,
                final(bus).since(old(bus)),
                match r {
                    Ok(stat) => Ok(seq![stat.raw()]),
                    Err(e) => Err(e),
                },
            ),
    {
        let bits = self.read_byte(bus, SYS_STAT)?;
        Ok(Stat::from_bits(bits))
    }

    /// Clears the given status bits: one write of them to the status
    /// register.
    pub fn sys_stat_reset<B: RegisterBus>(&mut self, bus: &mut Wire<B>, flags: SysStat) -> (r:
        Result<(), Error>)
        ensures
            *final(self) == *old(self),
            final(bus).extends(old(bus)),
            write_run(
                old(self).link(),
                SYS_STAT,
                seq![flags.raw()],
                final(bus).since(old(bus)),
                r,
            ),
    {
        self.write_byte(bus, SYS_STAT, flags.bits())
    }

    /// Switches the discharge FET on or off, by an update of system
    /// control 2 as [`update_run`] says.
    ///
    /// The register is read; when the FET already is as asked nothing is
    /// written, otherwise the register is written with the one bit
    /// changed and read back.
    pub fn discharge<B: RegisterBus>(&mut self, bus: &mut Wire<B>, enable: bool) -> (r: Result<
        (),
        Error,
    >)
        ensures
            *final(self) == *old(self),
            final(bus).extends(old(bus)),
            update_run(
                old(self).link(),
                SYS_CTRL2,
                |sys_ctrl2: u8| spec_fet_update(sys_ctrl2, DSG_ON, enable),
                final(bus).since(old(bus)),
                r,
            ),
    {
        let ghost start = *bus;
        let sys_ctrl2 = self.read_byte(bus, SYS_CTRL2)?;
        let ghost read = *bus;
        match fet_update(sys_ctrl2, DSG_ON, enable) {
            None => Ok(()),
            Some(value) => {
                let outcome = self.write_verified(bus, SYS_CTRL2, value);
                proof {
                    Wire::lemma_join(&start, &read, &*bus);
                }
                outcome
            },
        }
    }

    /// Switches the charge FET on or off, by an update of system control
    /// 2 as [`update_run`] says.
    ///
    /// The register is read; when the FET already is as asked nothing is
    /// written, otherwise the register is written with the one bit
    /// changed and read back.
    pub fn charge<B: RegisterBus>(&mut self, bus: &mut Wire<B>, enable: bool) -> (r: Result<
        (),
        Error,
    >)
        ensures
            *final(self) == *old(self),
            final(bus).extends(old(bus)),
            update_run(
                old(self).link(),
                SYS_CTRL2,
                |sys_ctrl2: u8| spec_fet_update(sys_ctrl2, CHG_ON, enable),
                final(bus).since(old(bus)),
                r,
            ),
    {
        let ghost start = *bus;
        let sys_ctrl2 = self.read_byte(bus, SYS_CTRL2)?;
        let ghost read = *bus;
        match fet_update(sys_ctrl2, CHG_ON, enable) {
            None => Ok(()),
            Some(value) => {
                let outcome = self.write_verified(bus, SYS_CTRL2, value);
                proof {
                    Wire::lemma_join(&start, &read, &*bus);
                }
                outcome
            },
        }
    }

    /// Reads whether the charge FET is on: one read of system control 2.
    pub fn is_charge_enabled<B: RegisterBus>(&mut self, bus: &mut Wire<B>) -> (r: Result<
        bool,
        Error,
    >)
        ensures
            *final(self) == *old(self),
            final(bus).extends(old(bus)),
            ({
                let trace = final(bus).since(old(bus));
                &&& trace.len() == 1
                &&& is_read(trace[0], old(self).link(), SYS_CTRL2, 1)
                &&& r == match read_result(trace[0], old(self).link(), 1) {
                    Err(e) => Err(e),
                    Ok(sys_ctrl2) => Ok(sys_ctrl2[0] & CHG_ON != 0),
                }
            }),
    {
        let sys_ctrl2 = self.read_byte(bus, SYS_CTRL2)?;
        Ok(sys_ctrl2 & CHG_ON != 0)
    }

    /// Puts the device into ship mode: writes the three steps of the
    /// entry sequence to system control 1, as [`ship_run`] says.
    pub fn ship_enter<B: RegisterBus>(&mut self, bus: &mut Wire<B>) -> (r: Result<(), Error>)
        ensures
            *final(self) == *old(self),
            final(bus).extends(old(bus)),
            ship_run(old(self).link(), final(bus).since(old(bus)), r),
    {
        let ghost start = *bus;
        self.write_byte(bus, SYS_CTRL1, 0b0000_0000)?;
        let ghost first = *bus;
        let outcome = self.write_byte(bus, SYS_CTRL1, 0b0000_0001);
        proof {
            Wire::lemma_join(&start, &first, &*bus);
        }
        outcome?;
        let ghost second = *bus;
        let outcome = self.write_byte(bus, SYS_CTRL1, 0b0000_0010);
        proof {
            Wire::lemma_join(&start, &second, &*bus);
        }
        outcome
    }

    /// The transfer function that the session has read from the device.
    pub fn adc_transfer_function(&self) -> (tf: AdcTransferFunction)
        ensures
            tf == self.transfer_function(),
    {
        AdcTransferFunction { gain: self.adc_gain, offset: self.adc_offset }
    }

    /// The window of over-voltage targets that the device can be set to.
    pub fn ov_voltage_range(&self) -> (window: (MilliVolts, MilliVolts))
        ensures
            window.0.0 == self.transfer_function().spec_apply(crate::adc::OV_CODE_MIN as int),
            window.1.0 == self.transfer_function().spec_apply(crate::adc::OV_CODE_MAX as int),
    {
        self.adc_transfer_function().ov_window()
    }

    /// The window of under-voltage targets that the device can be set to.
    pub fn uv_voltage_range(&self) -> (window: (MilliVolts, MilliVolts))
        ensures
            window.0.0 == self.transfer_function().spec_apply(crate::adc::UV_CODE_MIN as int),
            window.1.0 == self.transfer_function().spec_apply(crate::adc::UV_CODE_MAX as int),
    {
        self.adc_transfer_function().uv_window()
    }

    /// Configures the protection comparators and makes the session
    /// initialised, as [`Self::init_run`] says.
    ///
    /// The calibration is read from the trim registers. The
    /// configuration is then planned as [`Config::protection_plan`] does
    /// with that calibration; a configuration that cannot be set is
    /// refused before anything is written. The six protection registers
    /// are written in one transaction, the shunt is committed and the
    /// session becomes initialised. Last, the coulomb counter is set to
    /// run continuously: system control 2 is read, written with
    /// [`CC_EN`] set and read back.
    ///
    /// The result is what was achieved, not what was asked for. The
    /// shunt resistance must not be zero.
    pub fn init<B: RegisterBus>(&mut self, bus: &mut Wire<B>, config: &Config) -> (r: Result<
        CalculatedValues,
        Error,
    >)
        requires
            config.shunt.0 > 0,
        ensures
            final(bus).extends(old(bus)),
            Self::init_run(old(self), final(self), *config, final(bus).since(old(bus)), r),
            config.ranges_conflict() ==> r is Err,
            r is Ok ==> final(self).transfer_function().is_calibrated(),
    {
        let ghost start = *bus;
        self.read_adc_characteristics(bus)?;
        let ghost calibrated = *bus;
        let adc_tf = self.adc_transfer_function();
        let plan = config.protection_plan(&adc_tf)?;
        let written = self.write_raw(bus, PROTECT1, plan.registers.as_slice());
        proof {
            Wire::lemma_join(&start, &calibrated, &*bus);
        }
        written?;
        let ghost configured = *bus;
        proof {
            use_type_invariant(&*self);
        }
        self.shunt = config.shunt;
        self.init_complete = true;
        let sys_ctrl2 = self.read_byte(bus, SYS_CTRL2);
        proof {
            Wire::lemma_join(&start, &configured, &*bus);
        }
        let sys_ctrl2 = sys_ctrl2?;
        let ghost read = *bus;
        let counting = self.write_verified(bus, SYS_CTRL2, sys_ctrl2 | CC_EN);
        proof {
            Wire::lemma_join(&configured, &read, &*bus);
            Wire::lemma_join(&start, &configured, &*bus);
        }
        counting?;
        Ok(plan.values)
    }

    /// Enables or disables the ADC, by an update of system control 1 as
    /// [`update_run`] says.
    ///
    /// The register is read, written with [`ADC_EN`] set or cleared and
    /// every other bit kept, and read back.
    pub fn enable_adc<B: RegisterBus>(&mut self, bus: &mut Wire<B>, enable: bool) -> (r: Result<
        (),
        Error,
    >)
        ensures
            *final(self) == *old(self),
            final(bus).extends(old(bus)),
            update_run(
                old(self).link(),
                SYS_CTRL1,
                |sys_ctrl1: u8| Some(spec_with_flag(sys_ctrl1, ADC_EN, enable)),
                final(bus).since(old(bus)),
                r,
            ),
    {
        let ghost start = *bus;
        let sys_ctrl1 = self.read_byte(bus, SYS_CTRL1)?;
        let ghost read = *bus;
        let outcome = self.write_verified(bus, SYS_CTRL1, with_flag(sys_ctrl1, ADC_EN, enable));
        proof {
            Wire::lemma_join(&start, &read, &*bus);
        }
        outcome
    }

    /// Selects what the temperature channel measures, by an update of
    /// system control 1 as [`update_run`] says.
    ///
    /// The register is read, written with the source selected and every
    /// other bit kept, and read back.
    pub fn set_temperature_source<B: RegisterBus>(
        &mut self,
        bus: &mut Wire<B>,
        source: TemperatureSource,
    ) -> (r: Result<(), Error>)
        ensures
            *final(self) == *old(self),
            final(bus).extends(old(bus)),
            update_run(
                old(self).link(),
                SYS_CTRL1,
                |sys_ctrl1: u8| Some(source.spec_apply(sys_ctrl1)),
                final(bus).since(old(bus)),
                r,
            ),
    {
        let ghost start = *bus;
        let sys_ctrl1 = self.read_byte(bus, SYS_CTRL1)?;
        let ghost read = *bus;
        let outcome = self.write_verified(bus, SYS_CTRL1, source.apply(sys_ctrl1));
        proof {
            Wire::lemma_join(&start, &read, &*bus);
        }
        outcome
    }

    /// Reads what the temperature channel measures: one read of system
    /// control 1.
    pub fn temperature_source<B: RegisterBus>(&mut self, bus: &mut Wire<B>) -> (r: Result<
        TemperatureSource,
        Error,
    >)
        ensures
            *final(self) == *old(self),
            final(bus).extends(old(bus)),
            ({
                let trace = final(bus).since(old(bus));
                &&& trace.len() == 1
                &&& is_read(trace[0], old(self).link(), SYS_CTRL1, 1)
                &&& r == match read_result(trace[0], old(self).link(), 1) {
                    Err(e) => Err(e),
                    Ok(sys_ctrl1) => Ok(TemperatureSource::spec_from_sys_ctrl1(sys_ctrl1[0])),
                }
            }),
    {
        let sys_ctrl1 = self.read_byte(bus, SYS_CTRL1)?;
        Ok(TemperatureSource::from_sys_ctrl1(sys_ctrl1))
    }

    /// Sets how the coulomb counter runs, by an update of system control
    /// 2 as [`update_run`] says.
    ///
    /// The register is read, written with the mode selected and every
    /// other bit kept, and read back.
    pub fn coulomb_counter_mode<B: RegisterBus>(
        &mut self,
        bus: &mut Wire<B>,
        mode: CoulombCounterMode,
    ) -> (r: Result<(), Error>)
        ensures
            *final(self) == *old(self),
            final(bus).extends(old(bus)),
            update_run(
                old(self).link(),
                SYS_CTRL2,
                |sys_ctrl2: u8| Some(mode.spec_apply(sys_ctrl2)),
                final(bus).since(old(bus)),
                r,
            ),
    {
        let ghost start = *bus;
        let sys_ctrl2 = self.read_byte(bus, SYS_CTRL2)?;
        let ghost read = *bus;
        let outcome = self.write_verified(bus, SYS_CTRL2, mode.apply(sys_ctrl2));
        proof {
            Wire::lemma_join(&start, &read, &*bus);
        }
        outcome
    }
}

} // verus!
