//! The driver: a cached image of the four configuration registers, and one
//! bus transaction per operation.
//!
//! The bus is handed to each operation as a transfer function: it writes the
//! given bytes, then reads the given number of bytes, all with chip select
//! asserted, and returns what it read or the bus error.
use vstd::prelude::*;

use crate::commands::{sample_from_bytes, sample_value, single_register_opcode, Command};
use crate::field::{with_value, Config, Field};
use crate::registers::{
    Channel, DataRate, Filter, Idac, Idac1r, Idac2r, Mode, Reference, Register, BCS, CM, DRDYM,
    PGA, PGA_BYPASS, PSW, TS,
};

verus! {

/// An error of a driver operation.
#[derive(Debug, PartialEq, Eq)]
pub enum MyError<E> {
    /// The bus transaction failed with this error.
    Spi(E),
}

/// Whether `t` can serve as the bus: it accepts every frame, and on success
/// returns exactly as many bytes as were asked for.
pub open spec fn is_transport<E, T: FnOnce(Vec<u8>, usize) -> Result<Vec<u8>, E>>(t: T) -> bool {
    &&& forall|w: Vec<u8>, n: usize| #[trigger] t.requires((w, n))
    &&& forall|w: Vec<u8>, n: usize, r: Result<Vec<u8>, E>| #[trigger]
        t.ensures((w, n), r) ==> (r matches Ok(d) ==> d@.len() == n)
}

/// Whether one call of `t` wrote `frame`, asked for `n` bytes and returned `r`.
pub open spec fn exchanged<E, T: FnOnce(Vec<u8>, usize) -> Result<Vec<u8>, E>>(
    t: T,
    frame: Seq<u8>,
    n: usize,
    r: Result<Vec<u8>, E>,
) -> bool {
    exists|w: Vec<u8>| w@ == frame && #[trigger] t.ensures((w, n), r)
}

/// Whether a transaction that read nothing ended as `r` reports.
pub open spec fn sent<E, T: FnOnce(Vec<u8>, usize) -> Result<Vec<u8>, E>>(
    t: T,
    frame: Seq<u8>,
    r: Result<(), MyError<E>>,
) -> bool {
    match r {
        Ok(_) => exists|d: Vec<u8>| exchanged(t, frame, 0, Ok(d)),
        Err(MyError::Spi(e)) => exchanged(t, frame, 0, Err(e)),
    }
}

/// The frame that writes `value` into register `reg`.
pub open spec fn write_frame(reg: Register, value: u8) -> Seq<u8> {
    seq![(Command::WREG.spec_bits() + 4 * reg.spec_addr()) as u8, value]
}

/// The frame that reads one byte of register `reg`.
pub open spec fn read_frame(reg: Register) -> Seq<u8> {
    seq![(Command::RREG.spec_bits() + 4 * reg.spec_addr()) as u8]
}

/// The register image after a setter for `v` ended as `r`: on success the
/// field of `v` holds it and nothing else changed; on failure nothing changed.
/// Either way the write of the updated byte is what went to the bus.
pub open spec fn field_set<F: Field, E, T: FnOnce(Vec<u8>, usize) -> Result<Vec<u8>, E>>(
    before: Seq<u8>,
    after: Seq<u8>,
    v: F,
    t: T,
    r: Result<(), MyError<E>>,
) -> bool {
    let reg = F::spec_register();
    let a = reg.spec_addr() as int;
    let value = with_value(before[a], v);
    &&& sent(t, write_frame(reg, value), r)
    &&& after == (if r is Ok {
        before.update(a, value)
    } else {
        before
    })
}

/// Driver of the converter, holding the last register values that the
/// device acknowledged.
pub struct ADS1220 {
    config0: Config,
    config1: Config,
    config2: Config,
    config3: Config,
}

impl ADS1220 {
    /// The cached register bytes, by address.
    pub closed spec fn image(self) -> Seq<u8> {
        seq![self.config0.bits, self.config1.bits, self.config2.bits, self.config3.bits]
    }

    /// A driver whose cache holds the power-up values, all zero.
    pub fn new() -> (r: ADS1220)
        ensures
            r.image() == seq![0u8, 0u8, 0u8, 0u8],
    {
        ADS1220 {
            config0: Config::default(),
            config1: Config::default(),
            config2: Config::default(),
            config3: Config::default(),
        }
    }

    /// The cached value of register `reg`.
    pub fn config(&self, reg: Register) -> (r: Config)
        ensures
            r.bits == self.image()[reg.spec_addr() as int],
    {
        match reg {
            Register::CONFIG0 => self.config0,
            Register::CONFIG1 => self.config1,
            Register::CONFIG2 => self.config2,
            Register::CONFIG3 => self.config3,
        }
    }

    fn store(&mut self, reg: Register, c: Config)
        ensures
            final(self).image() == old(self).image().update(reg.spec_addr() as int, c.bits),
    {
        match reg {
            Register::CONFIG0 => self.config0 = c,
            Register::CONFIG1 => self.config1 = c,
            Register::CONFIG2 => self.config2 = c,
            Register::CONFIG3 => self.config3 = c,
        }
        proof {
            assert(final(self).image() =~= old(self).image().update(reg.spec_addr() as int, c.bits));
        }
    }

    /// Sends the frame `w` and reads nothing.
    fn transmit<E, T: FnOnce(Vec<u8>, usize) -> Result<Vec<u8>, E>>(w: Vec<u8>, transact: T) -> (r:
        Result<(), MyError<E>>)
        requires
            is_transport(transact),
        ensures
            sent(transact, w@, r),
    {
        let ghost frame = w;
        let res = transact(w, 0);
        proof {
            assert(exchanged(transact, frame@, 0, res));
        }
        match res {
            Ok(_) => Ok(()),
            Err(e) => Err(MyError::Spi(e)),
        }
    }

    /// Issues a one-byte command.
    fn command<E, T: FnOnce(Vec<u8>, usize) -> Result<Vec<u8>, E>>(cmd: Command, transact: T) -> (r:
        Result<(), MyError<E>>)
        requires
            is_transport(transact),
        ensures
            sent(transact, seq![cmd.spec_bits()], r),
    {
        let w = vec![cmd.bits()];
        proof {
            assert(w@ =~= seq![cmd.spec_bits()]);
        }
        Self::transmit(w, transact)
    }

    /// Resets the device. On success the cache returns to the power-up
    /// values, as the device's registers do; on failure it is unchanged.
    pub fn reset<E, T: FnOnce(Vec<u8>, usize) -> Result<Vec<u8>, E>>(&mut self, transact: T) -> (r:
        Result<(), MyError<E>>)
        requires
            is_transport(transact),
        ensures
            sent(transact, seq![Command::RESET.spec_bits()], r),
            final(self).image() == (if r is Ok {
                seq![0u8, 0u8, 0u8, 0u8]
            } else {
                old(self).image()
            }),
    {
        let r = Self::command(Command::RESET, transact);
        if r.is_ok() {
            *self = ADS1220::new();
        }
        r
    }

    /// Starts a single conversion, or continuous conversions.
    pub fn start<E, T: FnOnce(Vec<u8>, usize) -> Result<Vec<u8>, E>>(&mut self, transact: T) -> (r:
        Result<(), MyError<E>>)
        requires
            is_transport(transact),
        ensures
            sent(transact, seq![Command::START.spec_bits()], r),
            final(self).image() == old(self).image(),
    {
        Self::command(Command::START, transact)
    }

    /// Puts the device into power-down mode; its registers keep their values.
    pub fn powerdown<E, T: FnOnce(Vec<u8>, usize) -> Result<Vec<u8>, E>>(
        &mut self,
        transact: T,
    ) -> (r: Result<(), MyError<E>>)
        requires
            is_transport(transact),
        ensures
            sent(transact, seq![Command::POWERDOWN.spec_bits()], r),
            final(self).image() == old(self).image(),
    {
        Self::command(Command::POWERDOWN, transact)
    }

    /// Reads register `reg` from the device. The cache is not touched.
    pub fn read_register<E, T: FnOnce(Vec<u8>, usize) -> Result<Vec<u8>, E>>(
        &mut self,
        reg: Register,
        transact: T,
    ) -> (r: Result<u8, MyError<E>>)
        requires
            is_transport(transact),
        ensures
            final(self).image() == old(self).image(),
            match r {
                Ok(b) => exists|d: Vec<u8>|
                    exchanged(transact, read_frame(reg), 1, Ok(d)) && d@ == seq![b],
                Err(MyError::Spi(e)) => exchanged(transact, read_frame(reg), 1, Err(e)),
            },
    {
        let w = vec![single_register_opcode(Command::RREG, reg.addr(), 1)];
        proof {
            assert(w@ =~= read_frame(reg));
        }
        let ghost frame = w;
        let res = transact(w, 1);
        proof {
            assert(exchanged(transact, frame@, 1, res));
        }
        match res {
            Ok(d) => {
                proof {
                    assert(d@ =~= seq![d@[0]]);
                }
                Ok(d[0])
            },
            Err(e) => Err(MyError::Spi(e)),
        }
    }

    /// Writes `value` into register `reg` on the device. The cache is not
    /// touched.
    fn write_register<E, T: FnOnce(Vec<u8>, usize) -> Result<Vec<u8>, E>>(
        reg: Register,
        value: u8,
        transact: T,
    ) -> (r: Result<(), MyError<E>>)
        requires
            is_transport(transact),
        ensures
            sent(transact, write_frame(reg, value), r),
    {
        let w = vec![single_register_opcode(Command::WREG, reg.addr(), 1), value];
        proof {
            assert(w@ =~= write_frame(reg, value));
        }
        Self::transmit(w, transact)
    }

    /// Reads the latest conversion result, sign-extended from 24 bits.
    pub fn read_data<E, T: FnOnce(Vec<u8>, usize) -> Result<Vec<u8>, E>>(&mut self, transact: T) -> (r:
        Result<i32, MyError<E>>)
        requires
            is_transport(transact),
        ensures
            final(self).image() == old(self).image(),
            match r {
                Ok(x) => exists|d: Vec<u8>|
                    exchanged(transact, seq![Command::RDATA.spec_bits()], 3, Ok(d)) && d@.len()
                        == 3 && x as int == sample_value(d@[0], d@[1], d@[2]),
                Err(MyError::Spi(e)) => exchanged(
                    transact,
                    seq![Command::RDATA.spec_bits()],
                    3,
                    Err(e),
                ),
            },
    {
        let w = vec![Command::RDATA.bits()];
        proof {
            assert(w@ =~= seq![Command::RDATA.spec_bits()]);
        }
        let ghost frame = w;
        let res = transact(w, 3);
        proof {
            assert(exchanged(transact, frame@, 3, res));
        }
        match res {
            Ok(d) => Ok(sample_from_bytes(d[0], d[1], d[2])),
            Err(e) => Err(MyError::Spi(e)),
        }
    }

    /// Writes `v` into its field: the updated register byte goes to the
    /// device, and into the cache only if the write succeeded.
    pub fn set_field<F: Field, E, T: FnOnce(Vec<u8>, usize) -> Result<Vec<u8>, E>>(
        &mut self,
        v: F,
        transact: T,
    ) -> (r: Result<(), MyError<E>>)
        requires
            is_transport(transact),
        ensures
            field_set(old(self).image(), final(self).image(), v, transact, r),
    {
        let reg = F::register();
        let c = self.config(reg).with_field(v);
        let r = Self::write_register(reg, c.bits, transact);
        if r.is_ok() {
            self.store(reg, c);
        }
        r
    }

    /// Sets the programmable gain amplifier bypass.
    pub fn set_pga_bypass<E, T: FnOnce(Vec<u8>, usize) -> Result<Vec<u8>, E>>(
        &mut self,
        bp: PGA_BYPASS,
        transact: T,
    ) -> (r: Result<(), MyError<E>>)
        requires
            is_transport(transact),
        ensures
            field_set(old(self).image(), final(self).image(), bp, transact, r),
    {
        self.set_field(bp, transact)
    }

    /// Sets the data-ready signalling mode.
    pub fn set_drdym<E, T: FnOnce(Vec<u8>, usize) -> Result<Vec<u8>, E>>(
        &mut self,
        drdym: DRDYM,
        transact: T,
    ) -> (r: Result<(), MyError<E>>)
        requires
            is_transport(transact),
        ensures
            field_set(old(self).image(), final(self).image(), drdym, transact, r),
    {
        self.set_field(drdym, transact)
    }

    /// Sets the low-side power switch.
    pub fn set_psw<E, T: FnOnce(Vec<u8>, usize) -> Result<Vec<u8>, E>>(
        &mut self,
        psw: PSW,
        transact: T,
    ) -> (r: Result<(), MyError<E>>)
        requires
            is_transport(transact),
        ensures
            field_set(old(self).image(), final(self).image(), psw, transact, r),
    {
        self.set_field(psw, transact)
    }

    /// Sets the conversion mode, single-shot or continuous.
    pub fn set_mode<E, T: FnOnce(Vec<u8>, usize) -> Result<Vec<u8>, E>>(
        &mut self,
        mode: CM,
        transact: T,
    ) -> (r: Result<(), MyError<E>>)
        requires
            is_transport(transact),
        ensures
            field_set(old(self).image(), final(self).image(), mode, transact, r),
    {
        self.set_field(mode, transact)
    }

    /// Enables or disables the temperature sensor.
    pub fn set_temp_mode<E, T: FnOnce(Vec<u8>, usize) -> Result<Vec<u8>, E>>(
        &mut self,
        mode: TS,
        transact: T,
    ) -> (r: Result<(), MyError<E>>)
        requires
            is_transport(transact),
        ensures
            field_set(old(self).image(), final(self).image(), mode, transact, r),
    {
        self.set_field(mode, transact)
    }

    /// Sets the programmable gain.
    pub fn set_gain<E, T: FnOnce(Vec<u8>, usize) -> Result<Vec<u8>, E>>(
        &mut self,
        gain: PGA,
        transact: T,
    ) -> (r: Result<(), MyError<E>>)
        requires
            is_transport(transact),
        ensures
            field_set(old(self).image(), final(self).image(), gain, transact, r),
    {
        self.set_field(gain, transact)
    }

    /// Selects the input multiplexer channel.
    pub fn set_channel<E, T: FnOnce(Vec<u8>, usize) -> Result<Vec<u8>, E>>(
        &mut self,
        ch: Channel,
        transact: T,
    ) -> (r: Result<(), MyError<E>>)
        requires
            is_transport(transact),
        ensures
            field_set(old(self).image(), final(self).image(), ch, transact, r),
    {
        self.set_field(ch, transact)
    }

    /// Sets the data rate.
    pub fn set_data_rate<E, T: FnOnce(Vec<u8>, usize) -> Result<Vec<u8>, E>>(
        &mut self,
        rate: DataRate,
        transact: T,
    ) -> (r: Result<(), MyError<E>>)
        requires
            is_transport(transact),
        ensures
            field_set(old(self).image(), final(self).image(), rate, transact, r),
    {
        self.set_field(rate, transact)
    }

    /// Sets the operating mode.
    pub fn set_operating_mode<E, T: FnOnce(Vec<u8>, usize) -> Result<Vec<u8>, E>>(
        &mut self,
        mode: Mode,
        transact: T,
    ) -> (r: Result<(), MyError<E>>)
        requires
            is_transport(transact),
        ensures
            field_set(old(self).image(), final(self).image(), mode, transact, r),
    {
        self.set_field(mode, transact)
    }

    /// Switches the burn-out current sources.
    pub fn set_burnout_current<E, T: FnOnce(Vec<u8>, usize) -> Result<Vec<u8>, E>>(
        &mut self,
        bcs: BCS,
        transact: T,
    ) -> (r: Result<(), MyError<E>>)
        requires
            is_transport(transact),
        ensures
            field_set(old(self).image(), final(self).image(), bcs, transact, r),
    {
        self.set_field(bcs, transact)
    }

    /// Selects the voltage reference.
    pub fn set_reference<E, T: FnOnce(Vec<u8>, usize) -> Result<Vec<u8>, E>>(
        &mut self,
        reference: Reference,
        transact: T,
    ) -> (r: Result<(), MyError<E>>)
        requires
            is_transport(transact),
        ensures
            field_set(old(self).image(), final(self).image(), reference, transact, r),
    {
        self.set_field(reference, transact)
    }

    /// Sets the FIR filter.
    pub fn set_filter<E, T: FnOnce(Vec<u8>, usize) -> Result<Vec<u8>, E>>(
        &mut self,
        filter: Filter,
        transact: T,
    ) -> (r: Result<(), MyError<E>>)
        requires
            is_transport(transact),
        ensures
            field_set(old(self).image(), final(self).image(), filter, transact, r),
    {
        self.set_field(filter, transact)
    }

    /// Sets the magnitude of the excitation currents.
    pub fn set_idac<E, T: FnOnce(Vec<u8>, usize) -> Result<Vec<u8>, E>>(
        &mut self,
        idac: Idac,
        transact: T,
    ) -> (r: Result<(), MyError<E>>)
        requires
            is_transport(transact),
        ensures
            field_set(old(self).image(), final(self).image(), idac, transact, r),
    {
        self.set_field(idac, transact)
    }

    /// Routes the first excitation current source.
    pub fn set_idac1_routing<E, T: FnOnce(Vec<u8>, usize) -> Result<Vec<u8>, E>>(
        &mut self,
        route: Idac1r,
        transact: T,
    ) -> (r: Result<(), MyError<E>>)
        requires
            is_transport(transact),
        ensures
            field_set(old(self).image(), final(self).image(), route, transact, r),
    {
        self.set_field(route, transact)
    }

    /// Routes the second excitation current source.
    pub fn set_idac2_routing<E, T: FnOnce(Vec<u8>, usize) -> Result<Vec<u8>, E>>(
        &mut self,
        route: Idac2r,
        transact: T,
    ) -> (r: Result<(), MyError<E>>)
        requires
            is_transport(transact),
        ensures
            field_set(old(self).image(), final(self).image(), route, transact, r),
    {
        self.set_field(route, transact)
    }
}

} // verus!
