//! Device operations: lifecycle, power and clock, restart, addressing and output
//! configuration.
use vstd::prelude::*;
use vstd::std_specs::convert::IntoSpec;

use crate::bus::{DelayUs, I2cBus, Transaction};
use crate::config::{BitFlag, BitFlagMode1, BitFlagMode2, Config};
use crate::register_access::{is_bus_error, is_invalid_input, register_frame, Register};
use crate::types::{
    Address, DisabledOutputValue, Error, OutputDriver, OutputLogicState, OutputStateChange, Pca9685,
    ProgrammableAddress,
};

verus! {

/// Wait after waking the oscillator before a restart, in microseconds.
pub const RESTART_DELAY_US: u32 = 500;

/// Smallest prescale value the device accepts.
pub const MIN_PRESCALE: u8 = 3;

/// The LED all-call address, reserved.
pub const LED_ALL_CALL: u8 = 0b111_0000;

/// Addresses up to this one are reserved (software reset, high-speed mode).
pub const HIGH_SPEED_MODE: u8 = 0b000_0111;

/// Whether `a` is a 7-bit address the device may be given: not 0, not above
/// 0x7F, not the LED all-call address and not a reserved low address.
pub open spec fn address_valid(a: u8) -> bool {
    !(a == 0 || a > 0x7F || a == LED_ALL_CALL || a <= HIGH_SPEED_MODE)
}

/// The address that a value convertible into an `Address` stands for.
pub open spec fn address_of<A: Into<Address>>(a: A) -> u8 {
    a.into_spec().0
}

/// The sleep flag of MODE1.
pub open spec fn sleep() -> BitFlag {
    BitFlag::Mode1(BitFlagMode1::Sleep)
}

/// The restart flag of MODE1.
pub open spec fn restart_flag() -> BitFlag {
    BitFlag::Mode1(BitFlagMode1::Restart)
}

/// The external-clock flag of MODE1.
pub open spec fn ext_clk() -> BitFlag {
    BitFlag::Mode1(BitFlagMode1::ExtClk)
}

/// The MODE1 flag that enables responding to the programmable address `t`.
pub open spec fn subaddr_flag(t: ProgrammableAddress) -> BitFlagMode1 {
    match t {
        ProgrammableAddress::Subaddress1 => BitFlagMode1::Subaddr1,
        ProgrammableAddress::Subaddress2 => BitFlagMode1::Subaddr2,
        ProgrammableAddress::Subaddress3 => BitFlagMode1::Subaddr3,
        ProgrammableAddress::AllCall => BitFlagMode1::AllCall,
    }
}

/// The register that holds the programmable address `t`.
pub open spec fn subaddr_register(t: ProgrammableAddress) -> u8 {
    match t {
        ProgrammableAddress::Subaddress1 => Register::SUBADDR1,
        ProgrammableAddress::Subaddress2 => Register::SUBADDR2,
        ProgrammableAddress::Subaddress3 => Register::SUBADDR3,
        ProgrammableAddress::AllCall => Register::ALL_CALL_ADDR,
    }
}

/// `c` with the output change behaviour `b`.
pub open spec fn with_change_behavior(c: Config, b: OutputStateChange) -> Config {
    match b {
        OutputStateChange::OnStop => c.clear_bit(BitFlag::Mode2(BitFlagMode2::Och)),
        OutputStateChange::OnAck => c.set_bit(BitFlag::Mode2(BitFlagMode2::Och)),
    }
}

/// `c` with the output driver `d`.
pub open spec fn with_driver(c: Config, d: OutputDriver) -> Config {
    match d {
        OutputDriver::TotemPole => c.set_bit(BitFlag::Mode2(BitFlagMode2::OutDrv)),
        OutputDriver::OpenDrain => c.clear_bit(BitFlag::Mode2(BitFlagMode2::OutDrv)),
    }
}

/// `c` with the disabled-output value `v`.
pub open spec fn with_disabled_value(c: Config, v: DisabledOutputValue) -> Config {
    let ne0 = BitFlag::Mode2(BitFlagMode2::OutNe0);
    let ne1 = BitFlag::Mode2(BitFlagMode2::OutNe1);
    match v {
        DisabledOutputValue::Zero => c.clear_bit(ne0).clear_bit(ne1),
        DisabledOutputValue::OutputDriver => c.set_bit(ne0).clear_bit(ne1),
        DisabledOutputValue::HighImpedance => c.clear_bit(ne0).set_bit(ne1),
    }
}

/// `c` with the output logic state `s`.
pub open spec fn with_logic_state(c: Config, s: OutputLogicState) -> Config {
    match s {
        OutputLogicState::Direct => c.clear_bit(BitFlag::Mode2(BitFlagMode2::Invrt)),
        OutputLogicState::Inverted => c.set_bit(BitFlag::Mode2(BitFlagMode2::Invrt)),
    }
}

impl<I2C> Pca9685<I2C> {
    /// A write of `value` to MODE1 at the driver's current address.
    pub open spec fn mode1_tx(self, value: u8, ok: bool) -> Transaction {
        self.write_tx(register_frame(Register::MODE1, value), ok)
    }

    /// `post` is `self` after a write of `value` to the one-byte register `reg`
    /// that leaves the shadow alone.
    pub open spec fn wrote_register(self, post: Self, reg: u8, value: u8, ok: bool) -> bool {
        self.wrote(post, register_frame(reg, value), ok)
    }

    /// `post` is `self` after `enable_restart_and_disable`: one MODE1 write with
    /// sleep and restart set; on success the shadow keeps sleep but not restart,
    /// which the device clears by itself.
    pub open spec fn restart_armed(self, post: Self, ok: bool) -> bool {
        let asleep = self.shadow().set_bit(sleep());
        &&& post.bus_address() == self.bus_address()
        &&& post.history() == self.history().push(
            self.mode1_tx(asleep.set_bit(restart_flag()).mode1, ok),
        )
        &&& post.shadow() == if ok {
            asleep
        } else {
            self.shadow()
        }
    }

    /// The transaction that `post` issued first after `self`.
    pub open spec fn first_new(self, post: Self) -> Transaction {
        post.history()[self.history().len() as int]
    }

    /// `post` is `self` after `restart`: a read of MODE1 from the device; if it
    /// succeeded and reports the restart bit, a write that clears sleep and, if
    /// that succeeded, a wait and a write of the awake value with the restart
    /// bit set, after which the shadow holds the awake value.
    pub open spec fn restarted(self, post: Self, ok: bool) -> bool {
        let h = self.history();
        let t = self.first_new(post);
        let read_ok = t->WriteRead_ok;
        let pending = read_ok && t->WriteRead_read[0] & BitFlagMode1::Restart.spec_mask() != 0;
        let awake = self.shadow().clear_bit(sleep());
        &&& post.bus_address() == self.bus_address()
        &&& post.history().len() > h.len()
        &&& self.is_read_tx(t, seq![Register::MODE1], 1, read_ok)
        &&& if !pending {
            &&& post.history() == h.push(t)
            &&& post.shadow() == self.shadow()
            &&& ok == read_ok
        } else {
            ||| {
                &&& !ok
                &&& post.shadow() == self.shadow()
                &&& post.history() == h.push(t).push(self.mode1_tx(awake.mode1, false))
            }
            ||| {
                &&& post.shadow() == awake
                &&& post.history() == h.push(t).push(self.mode1_tx(awake.mode1, true)).push(
                    Transaction::Delay { us: RESTART_DELAY_US },
                ).push(self.mode1_tx(awake.set_bit(restart_flag()).mode1, ok))
            }
        }
    }

    /// `post` is `self` after `use_external_clock`: a MODE1 write that sets
    /// sleep and, if that succeeded, one that also sets the external clock.
    pub open spec fn switched_to_external_clock(self, post: Self, ok: bool) -> bool {
        let asleep = self.shadow().set_bit(sleep());
        let external = asleep.set_bit(ext_clk());
        &&& post.bus_address() == self.bus_address()
        &&& {
            ||| {
                &&& !ok
                &&& post.shadow() == self.shadow()
                &&& post.history() == self.history().push(self.mode1_tx(asleep.mode1, false))
            }
            ||| {
                &&& post.shadow() == if ok {
                    external
                } else {
                    asleep
                }
                &&& post.history() == self.history().push(self.mode1_tx(asleep.mode1, true)).push(
                    self.mode1_tx(external.mode1, ok),
                )
            }
        }
    }

    /// `post` is `self` after writing the prescale value `p` while the
    /// oscillator runs: a MODE1 write that sets sleep, the prescale write, and
    /// a MODE1 write of the former value, each only if the one before succeeded.
    pub open spec fn prescaled_running(self, post: Self, p: u8, ok: bool) -> bool {
        let stopped = self.shadow().set_bit(sleep());
        let stop = self.mode1_tx(stopped.mode1, true);
        let write = self.write_tx(register_frame(Register::PRE_SCALE, p), true);
        &&& post.bus_address() == self.bus_address()
        &&& {
            ||| {
                &&& !ok
                &&& post.shadow() == self.shadow()
                &&& post.history() == self.history().push(self.mode1_tx(stopped.mode1, false))
            }
            ||| {
                &&& !ok
                &&& post.shadow() == stopped
                &&& post.history() == self.history().push(stop).push(
                    self.write_tx(register_frame(Register::PRE_SCALE, p), false),
                )
            }
            ||| {
                &&& post.shadow() == if ok {
                    self.shadow()
                } else {
                    stopped
                }
                &&& post.history() == self.history().push(stop).push(write).push(
                    self.mode1_tx(self.shadow().mode1, ok),
                )
            }
        }
    }
}


/// Whether `r` is a bus failure passed on inside a non-blocking result.
pub open spec fn is_nb_bus_error<E>(r: nb::Result<(), Error<E>>) -> bool {
    r matches Err(nb::Error::Other(Error::I2C(_)))
}

/// Whether `r` asks the caller to come back later.
pub open spec fn is_would_block<E>(r: nb::Result<(), Error<E>>) -> bool {
    r matches Err(nb::Error::WouldBlock)
}

impl<I2C: I2cBus> Pca9685<I2C> {
    /// `post` is `self` after one step of `restart_nonblocking`: a read of MODE1
    /// from the device; then, if it succeeded with the restart bit set, a MODE1
    /// write that clears sleep when the device reported sleep (answered with
    /// `WouldBlock`), or else a MODE1 write of the shadow with the restart bit,
    /// which the shadow does not keep.
    pub open spec fn restart_stepped(self, post: Self, r: nb::Result<(), Error<I2C::Error>>) -> bool {
        let h = self.history();
        let t = self.first_new(post);
        let read_ok = t->WriteRead_ok;
        let mode1 = t->WriteRead_read[0];
        let pending = mode1 & BitFlagMode1::Restart.spec_mask() != 0;
        let asleep = mode1 & BitFlagMode1::Sleep.spec_mask() != 0;
        let awake = self.shadow().clear_bit(sleep());
        &&& post.bus_address() == self.bus_address()
        &&& post.history().len() > h.len()
        &&& self.is_read_tx(t, seq![Register::MODE1], 1, read_ok)
        &&& !read_ok ==> post.history() == h.push(t) && post.shadow() == self.shadow() && is_nb_bus_error(r)
        &&& read_ok && !pending ==> post.history() == h.push(t) && post.shadow() == self.shadow() && r is Ok
        &&& read_ok && pending && asleep ==> {
            ||| {
                &&& is_would_block(r)
                &&& post.shadow() == awake
                &&& post.history() == h.push(t).push(self.mode1_tx(awake.mode1, true))
            }
            ||| {
                &&& is_nb_bus_error(r)
                &&& post.shadow() == self.shadow()
                &&& post.history() == h.push(t).push(self.mode1_tx(awake.mode1, false))
            }
        }
        &&& read_ok && pending && !asleep ==> {
            &&& r is Ok || is_nb_bus_error(r)
            &&& post.shadow() == self.shadow()
            &&& post.history() == h.push(t).push(
                self.mode1_tx(self.shadow().set_bit(restart_flag()).mode1, r is Ok),
            )
        }
    }
}

impl<I2C: I2cBus> Pca9685<I2C> {
    /// Creates a driver for the device at `address` on `i2c`.
    ///
    /// Fails with `InvalidInputData` for an address the device cannot have.
    pub fn new<A: Into<Address>>(i2c: I2C, address: A) -> (r: Result<Self, Error<I2C::Error>>)
        ensures
            A::obeys_into_spec() ==> (r is Ok <==> address_valid(address_of(address))),
            r is Err ==> is_invalid_input(r),
            r is Ok ==> {
                let d = r->Ok_0;
                &&& A::obeys_into_spec() ==> d.bus_address() == address_of(address)
                &&& d.shadow() == Config::power_on()
                &&& d.history() == Seq::<Transaction>::empty()
                &&& d.bus() == i2c
            },
    {
        let a = address.into();
        Self::check_address(a.0)?;
        Ok(Pca9685 { i2c, address: a.0, config: Config::default(), log: Ghost(Seq::empty()) })
    }

    /// Gives the bus back, ending the use of the driver.
    pub fn destroy(self) -> (r: I2C)
        ensures
            r == self.bus(),
    {
        self.i2c
    }

    /// Wakes the controller (clears sleep).
    pub fn enable(&mut self) -> (r: Result<(), Error<I2C::Error>>)
        ensures
            old(self).wrote_mode1(*final(self), old(self).shadow().clear_bit(sleep()).mode1, r is Ok),
            r is Err ==> is_bus_error(r),
    {
        let config = self.config;
        self.write_mode1(config.with_low(BitFlagMode1::Sleep))
    }

    /// Puts the controller to sleep.
    pub fn disable(&mut self) -> (r: Result<(), Error<I2C::Error>>)
        ensures
            old(self).wrote_mode1(*final(self), old(self).shadow().set_bit(sleep()).mode1, r is Ok),
            r is Err ==> is_bus_error(r),
    {
        let config = self.config;
        self.write_mode1(config.with_high(BitFlagMode1::Sleep))
    }

    /// Puts the controller to sleep keeping the PWM register contents, ready
    /// for a later restart.
    pub fn enable_restart_and_disable(&mut self) -> (r: Result<(), Error<I2C::Error>>)
        ensures
            old(self).restart_armed(*final(self), r is Ok),
            r is Err ==> is_bus_error(r),
    {
        let config = self.config.with_high(BitFlagMode1::Sleep);
        self.write_mode1(config.with_high(BitFlagMode1::Restart))?;
        // The restart bit is not kept in the shadow: the device clears it when
        // it is written high again, so a later write must not carry it.
        self.config = config;
        Ok(())
    }

    /// Wakes the controller after a sleep with restart enabled so that the
    /// channels that were active run again; waits for the oscillator on the way.
    pub fn restart<D: DelayUs>(&mut self, delay: &mut D) -> (r: Result<(), Error<I2C::Error>>)
        ensures
            old(self).restarted(*final(self), r is Ok),
            r is Err ==> is_bus_error(r),
    {
        let ghost h = self.log@;
        let mode1 = self.read_register(Register::MODE1);
        let ghost t = self.log@.last();
        assert(self.log@ =~= h.push(t));
        let mode1 = mode1?;
        if mode1 & BitFlagMode1::Restart.mask() != 0 {
            self.enable()?;
            delay.delay_us(RESTART_DELAY_US);
            self.log = Ghost(self.log@.push(Transaction::Delay { us: RESTART_DELAY_US }));
            let previous = self.config;
            let config = previous.with_high(BitFlagMode1::Restart);
            let r = self.write_mode1(config);
            self.config = previous;
            r
        } else {
            Ok(())
        }
    }

    /// Steps a restart without waiting: reads MODE1 from the device and, when
    /// the restart bit is set, either wakes the oscillator and answers
    /// `WouldBlock` (call again after at least 500 us) or, once it is awake,
    /// writes the restart bit and answers `Ok`.
    pub fn restart_nonblocking(&mut self) -> (r: nb::Result<(), Error<I2C::Error>>)
        ensures
            old(self).restart_stepped(*final(self), r),
    {
        let ghost h = self.log@;
        let mode1 = self.read_register(Register::MODE1);
        let ghost t = self.log@.last();
        assert(self.log@ =~= h.push(t));
        let mode1 = match mode1 {
            Ok(m) => m,
            Err(e) => return Err(nb::Error::Other(e)),
        };
        let restart_high = (mode1 & BitFlagMode1::Restart.mask()) != 0;
        let sleep_high = (mode1 & BitFlagMode1::Sleep.mask()) != 0;
        if restart_high {
            if sleep_high {
                match self.enable() {
                    Ok(()) => Err(nb::Error::WouldBlock),
                    Err(e) => Err(nb::Error::Other(e)),
                }
            } else {
                let previous = self.config;
                let config = previous.with_high(BitFlagMode1::Restart);
                let r = self.write_mode1(config);
                self.config = previous;
                match r {
                    Ok(()) => Ok(()),
                    Err(e) => Err(nb::Error::Other(e)),
                }
            }
        } else {
            Ok(())
        }
    }

    /// Writes `address` into the register of the programmable address
    /// `address_type`. The device answers to it once enabled with
    /// `enable_programmable_address`.
    pub fn set_programmable_address<A: Into<Address>>(
        &mut self,
        address_type: ProgrammableAddress,
        address: A,
    ) -> (r: Result<(), Error<I2C::Error>>)
        ensures
            A::obeys_into_spec() && !address_valid(address_of(address)) ==> is_invalid_input(r)
                && *final(self) == *old(self),
            A::obeys_into_spec() && address_valid(address_of(address)) ==> old(self).wrote_register(
                *final(self),
                subaddr_register(address_type),
                address_of(address),
                r is Ok,
            ),
            r is Err ==> is_invalid_input(r) || is_bus_error(r),
            is_invalid_input(r) ==> *final(self) == *old(self),
    {
        let a = address.into();
        Self::check_address(a.0)?;
        let reg = match address_type {
            ProgrammableAddress::Subaddress1 => Register::SUBADDR1,
            ProgrammableAddress::Subaddress2 => Register::SUBADDR2,
            ProgrammableAddress::Subaddress3 => Register::SUBADDR3,
            ProgrammableAddress::AllCall => Register::ALL_CALL_ADDR,
        };
        self.write_bytes(&[reg, a.0])
    }

    /// Makes the device answer to the programmable address `address_type`.
    pub fn enable_programmable_address(&mut self, address_type: ProgrammableAddress) -> (r: Result<
        (),
        Error<I2C::Error>,
    >)
        ensures
            old(self).wrote_mode1(
                *final(self),
                old(self).shadow().set_bit(BitFlag::Mode1(subaddr_flag(address_type))).mode1,
                r is Ok,
            ),
            r is Err ==> is_bus_error(r),
    {
        let flag = Self::get_subaddr_bitflag(address_type);
        let config = self.config;
        self.write_mode1(config.with_high(flag))
    }

    /// Stops the device answering to the programmable address `address_type`.
    pub fn disable_programmable_address(&mut self, address_type: ProgrammableAddress) -> (r: Result<
        (),
        Error<I2C::Error>,
    >)
        ensures
            old(self).wrote_mode1(
                *final(self),
                old(self).shadow().clear_bit(BitFlag::Mode1(subaddr_flag(address_type))).mode1,
                r is Ok,
            ),
            r is Err ==> is_bus_error(r),
    {
        let flag = Self::get_subaddr_bitflag(address_type);
        let config = self.config;
        self.write_mode1(config.with_low(flag))
    }

    /// Sets the address the driver uses to reach the device; nothing is sent.
    pub fn set_address<A: Into<Address>>(&mut self, address: A) -> (r: Result<(), Error<I2C::Error>>)
        ensures
            A::obeys_into_spec() ==> (r is Ok <==> address_valid(address_of(address))),
            r is Err ==> is_invalid_input(r) && *final(self) == *old(self),
            r is Ok ==> {
                &&& A::obeys_into_spec() ==> final(self).bus_address() == address_of(address)
                &&& final(self).shadow() == old(self).shadow()
                &&& final(self).history() == old(self).history()
                &&& final(self).bus() == old(self).bus()
            },
    {
        let a = address.into();
        Self::check_address(a.0)?;
        self.address = a.0;
        Ok(())
    }

    /// Accepts exactly the addresses the device may be given.
    fn check_address(address: u8) -> (r: Result<(), Error<I2C::Error>>)
        ensures
            r is Ok <==> address_valid(address),
            r is Err ==> is_invalid_input(r),
    {
        if address == 0 || address > 0x7F || address == LED_ALL_CALL || address <= HIGH_SPEED_MODE {
            Err(Error::InvalidInputData)
        } else {
            Ok(())
        }
    }

    /// Sets when the outputs change: all at once on STOP, or byte by byte on ACK.
    pub fn set_output_change_behavior(&mut self, change_behavior: OutputStateChange) -> (r: Result<
        (),
        Error<I2C::Error>,
    >)
        ensures
            old(self).wrote_mode2(
                *final(self),
                with_change_behavior(old(self).shadow(), change_behavior).mode2,
                r is Ok,
            ),
            r is Err ==> is_bus_error(r),
    {
        let config = match change_behavior {
            OutputStateChange::OnStop => self.config.with_low(BitFlagMode2::Och),
            OutputStateChange::OnAck => self.config.with_high(BitFlagMode2::Och),
        };
        self.write_mode2(config)
    }

    /// Sets the output driver configuration.
    pub fn set_output_driver(&mut self, driver: OutputDriver) -> (r: Result<(), Error<I2C::Error>>)
        ensures
            old(self).wrote_mode2(*final(self), with_driver(old(self).shadow(), driver).mode2, r is Ok),
            r is Err ==> is_bus_error(r),
    {
        let config = match driver {
            OutputDriver::TotemPole => self.config.with_high(BitFlagMode2::OutDrv),
            OutputDriver::OpenDrain => self.config.with_low(BitFlagMode2::OutDrv),
        };
        self.write_mode2(config)
    }

    /// Sets the value of the outputs while they are disabled (`OE` = 1).
    pub fn set_disabled_output_value(&mut self, value: DisabledOutputValue) -> (r: Result<
        (),
        Error<I2C::Error>,
    >)
        ensures
            old(self).wrote_mode2(
                *final(self),
                with_disabled_value(old(self).shadow(), value).mode2,
                r is Ok,
            ),
            r is Err ==> is_bus_error(r),
    {
        let config = match value {
            DisabledOutputValue::Zero => self.config.with_low(BitFlagMode2::OutNe0).with_low(
                BitFlagMode2::OutNe1,
            ),
            DisabledOutputValue::OutputDriver => self.config.with_high(BitFlagMode2::OutNe0).with_low(
                BitFlagMode2::OutNe1,
            ),
            DisabledOutputValue::HighImpedance => self.config.with_low(BitFlagMode2::OutNe0).with_high(
                BitFlagMode2::OutNe1,
            ),
        };
        self.write_mode2(config)
    }

    /// Sets the output logic state, direct or inverted (applies while `OE` = 0).
    pub fn set_output_logic_state(&mut self, state: OutputLogicState) -> (r: Result<
        (),
        Error<I2C::Error>,
    >)
        ensures
            old(self).wrote_mode2(*final(self), with_logic_state(old(self).shadow(), state).mode2, r is Ok),
            r is Err ==> is_bus_error(r),
    {
        let config = self.config;
        match state {
            OutputLogicState::Direct => self.write_mode2(config.with_low(BitFlagMode2::Invrt)),
            OutputLogicState::Inverted => self.write_mode2(config.with_high(BitFlagMode2::Invrt)),
        }
    }

    /// Takes the clock from the EXTCLK pin. This is sticky: only a power cycle
    /// or a software reset clears it.
    pub fn use_external_clock(&mut self) -> (r: Result<(), Error<I2C::Error>>)
        ensures
            old(self).switched_to_external_clock(*final(self), r is Ok),
            r is Err ==> is_bus_error(r),
    {
        let config = self.config;
        self.write_mode1(config.with_high(BitFlagMode1::Sleep))?;
        let config = self.config;
        self.write_mode1(config.with_high(BitFlagMode1::ExtClk))
    }

    /// Sets the prescale value, from 3 (about 1526 Hz) to 255 (about 24 Hz).
    ///
    /// The oscillator must be stopped while the value is written: when it
    /// runs, it is stopped first and started again afterwards.
    pub fn set_prescale(&mut self, prescale: u8) -> (r: Result<(), Error<I2C::Error>>)
        ensures
            prescale < MIN_PRESCALE ==> is_invalid_input(r) && *final(self) == *old(self),
            prescale >= MIN_PRESCALE && old(self).shadow().bit(sleep()) ==> old(self).wrote_register(
                *final(self),
                Register::PRE_SCALE,
                prescale,
                r is Ok,
            ),
            prescale >= MIN_PRESCALE && !old(self).shadow().bit(sleep()) ==> old(
                self,
            ).prescaled_running(*final(self), prescale, r is Ok),
            prescale >= MIN_PRESCALE && r is Err ==> is_bus_error(r),
    {
        if prescale < MIN_PRESCALE {
            return Err(Error::InvalidInputData);
        }
        let config = self.config;
        let was_oscillator_running = config.is_low(BitFlagMode1::Sleep);
        if was_oscillator_running {
            self.write_mode1(config.with_high(BitFlagMode1::Sleep))?;
        }
        self.write_bytes(&[Register::PRE_SCALE, prescale])?;
        if was_oscillator_running {
            self.write_mode1(config)?;
        }
        Ok(())
    }

    pub(crate) fn get_subaddr_bitflag(address_type: ProgrammableAddress) -> (r: BitFlagMode1)
        ensures
            r == subaddr_flag(address_type),
    {
        match address_type {
            ProgrammableAddress::Subaddress1 => BitFlagMode1::Subaddr1,
            ProgrammableAddress::Subaddress2 => BitFlagMode1::Subaddr2,
            ProgrammableAddress::Subaddress3 => BitFlagMode1::Subaddr3,
            ProgrammableAddress::AllCall => BitFlagMode1::AllCall,
        }
    }

    /// Resets the driver's shadow of the mode registers to the device's
    /// power-on values; nothing is sent. Call it after the device was reset
    /// by other means.
    pub fn reset_internal_driver_state(&mut self)
        ensures
            final(self).shadow() == Config::power_on(),
            final(self).bus_address() == old(self).bus_address(),
            final(self).history() == old(self).history(),
            final(self).bus() == old(self).bus(),
    {
        self.config = Config::default();
    }
}

} // verus!
