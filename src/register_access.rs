//! Register map and the bus transactions the device operations are built from.
use vstd::prelude::*;

use crate::bus::{I2cBus, Transaction};
use crate::config::{BitFlag, BitFlagMode1, Config};
use crate::types::{Error, Pca9685};

verus! {

/// Addresses of the device's registers.
pub struct Register;

impl Register {
    pub const MODE1: u8 = 0x00;
    pub const MODE2: u8 = 0x01;
    pub const SUBADDR1: u8 = 0x02;
    pub const SUBADDR2: u8 = 0x03;
    pub const SUBADDR3: u8 = 0x04;
    pub const ALL_CALL_ADDR: u8 = 0x05;
    pub const C0_ON_L: u8 = 0x06;
    pub const C0_OFF_L: u8 = 0x08;
    pub const C1_ON_L: u8 = 0x0A;
    pub const C1_OFF_L: u8 = 0x0C;
    pub const C2_ON_L: u8 = 0x0E;
    pub const C2_OFF_L: u8 = 0x10;
    pub const C3_ON_L: u8 = 0x12;
    pub const C3_OFF_L: u8 = 0x14;
    pub const C4_ON_L: u8 = 0x16;
    pub const C4_OFF_L: u8 = 0x18;
    pub const C5_ON_L: u8 = 0x1A;
    pub const C5_OFF_L: u8 = 0x1C;
    pub const C6_ON_L: u8 = 0x1E;
    pub const C6_OFF_L: u8 = 0x20;
    pub const C7_ON_L: u8 = 0x22;
    pub const C7_OFF_L: u8 = 0x24;
    pub const C8_ON_L: u8 = 0x26;
    pub const C8_OFF_L: u8 = 0x28;
    pub const C9_ON_L: u8 = 0x2A;
    pub const C9_OFF_L: u8 = 0x2C;
    pub const C10_ON_L: u8 = 0x2E;
    pub const C10_OFF_L: u8 = 0x30;
    pub const C11_ON_L: u8 = 0x32;
    pub const C11_OFF_L: u8 = 0x34;
    pub const C12_ON_L: u8 = 0x36;
    pub const C12_OFF_L: u8 = 0x38;
    pub const C13_ON_L: u8 = 0x3A;
    pub const C13_OFF_L: u8 = 0x3C;
    pub const C14_ON_L: u8 = 0x3E;
    pub const C14_OFF_L: u8 = 0x40;
    pub const C15_ON_L: u8 = 0x42;
    pub const C15_OFF_L: u8 = 0x44;
    pub const ALL_C_ON_L: u8 = 0xFA;
    pub const ALL_C_OFF_L: u8 = 0xFC;
    pub const PRE_SCALE: u8 = 0xFE;
}

/// The bytes of a write of `value` to the one-byte register `reg`.
pub open spec fn register_frame(reg: u8, value: u8) -> Seq<u8> {
    seq![reg, value]
}

/// The bytes of a write of `value`, low byte first, to the register pair at `reg`.
pub open spec fn double_frame(reg: u8, value: u16) -> Seq<u8> {
    seq![reg, value as u8, (value >> 8) as u8]
}

/// The bytes of a write of `value0` then `value1`, each low byte first, to the
/// four registers from `reg` on.
pub open spec fn two_double_frame(reg: u8, value0: u16, value1: u16) -> Seq<u8> {
    seq![reg, value0 as u8, (value0 >> 8) as u8, value1 as u8, (value1 >> 8) as u8]
}

/// The 16-bit value whose little-endian bytes are `lo` and `hi`.
pub open spec fn le16(lo: u8, hi: u8) -> u16 {
    (lo as u16) | ((hi as u16) << 8u16)
}

/// The auto-increment flag of MODE1.
pub open spec fn auto_inc() -> BitFlag {
    BitFlag::Mode1(BitFlagMode1::AutoInc)
}

impl<I2C> Pca9685<I2C> {
    /// A write of `bytes` to the device at the driver's current address.
    pub open spec fn write_tx(self, bytes: Seq<u8>, ok: bool) -> Transaction {
        Transaction::Write { address: self.bus_address(), bytes, ok }
    }

    /// What the last transaction read, if it was a read.
    pub open spec fn last_read(self) -> Seq<u8> {
        let t = self.history().last();
        if t is WriteRead {
            t->WriteRead_read
        } else {
            Seq::empty()
        }
    }

    /// The `i`-th 16-bit word of what the last transaction read.
    pub open spec fn last_word(self, i: int) -> u16 {
        le16(self.last_read()[2 * i], self.last_read()[2 * i + 1])
    }

    /// `post` is `self` after a single write of `frame` that left the shadow alone.
    pub open spec fn wrote(self, post: Self, frame: Seq<u8>, ok: bool) -> bool {
        &&& post.bus_address() == self.bus_address()
        &&& post.shadow() == self.shadow()
        &&& post.history() == self.history().push(self.write_tx(frame, ok))
    }

    /// `post` is `self` after a write of `value` to MODE1; the shadow follows the
    /// write only when it succeeded.
    pub open spec fn wrote_mode1(self, post: Self, value: u8, ok: bool) -> bool {
        &&& post.bus_address() == self.bus_address()
        &&& post.history() == self.history().push(
            self.write_tx(register_frame(Register::MODE1, value), ok),
        )
        &&& post.shadow() == if ok {
            Config { mode1: value, ..self.shadow() }
        } else {
            self.shadow()
        }
    }

    /// `post` is `self` after a write of `value` to MODE2; the shadow follows the
    /// write only when it succeeded.
    pub open spec fn wrote_mode2(self, post: Self, value: u8, ok: bool) -> bool {
        &&& post.bus_address() == self.bus_address()
        &&& post.history() == self.history().push(
            self.write_tx(register_frame(Register::MODE2, value), ok),
        )
        &&& post.shadow() == if ok {
            Config { mode2: value, ..self.shadow() }
        } else {
            self.shadow()
        }
    }

    /// `post` is `self` once auto-increment is on: nothing was issued when the
    /// shadow already had it, else one MODE1 write that sets it.
    pub open spec fn enabled_auto_increment(self, post: Self, ok: bool) -> bool {
        if self.shadow().bit(auto_inc()) {
            post == self && ok
        } else {
            self.wrote_mode1(post, self.shadow().set_bit(auto_inc()).mode1, ok)
        }
    }

    /// `post` is `self` after a multi-byte write of `frame`, preceded by turning
    /// auto-increment on when the shadow says it is off; the frame goes out only
    /// if that succeeded.
    pub open spec fn wrote_multi(self, post: Self, frame: Seq<u8>, ok: bool) -> bool {
        if self.shadow().bit(auto_inc()) {
            self.wrote(post, frame, ok)
        } else {
            let on = self.shadow().set_bit(auto_inc());
            let mid = self.write_tx(register_frame(Register::MODE1, on.mode1), true);
            ||| !ok && self.enabled_auto_increment(post, false)
            ||| {
                &&& post.bus_address() == self.bus_address()
                &&& post.shadow() == on
                &&& post.history() == self.history().push(mid).push(self.write_tx(frame, ok))
            }
        }
    }

    /// `t` is a read of `n` bytes after writing `bytes`, at the driver's current address.
    pub open spec fn is_read_tx(self, t: Transaction, bytes: Seq<u8>, n: nat, ok: bool) -> bool {
        &&& t is WriteRead
        &&& t->WriteRead_address == self.bus_address()
        &&& t->WriteRead_bytes == bytes
        &&& t->WriteRead_read.len() == n
        &&& t->WriteRead_ok == ok
    }

    /// `post` is `self` after one read of `n` bytes from the register at `reg`.
    pub open spec fn read(self, post: Self, reg: u8, n: nat, ok: bool) -> bool {
        &&& post.bus_address() == self.bus_address()
        &&& post.shadow() == self.shadow()
        &&& post.history().len() == self.history().len() + 1
        &&& post.history().drop_last() == self.history()
        &&& self.is_read_tx(post.history().last(), seq![reg], n, ok)
    }

    /// `post` is `self` after a read of `n` bytes from the registers from `reg`
    /// on, preceded by turning auto-increment on when the shadow says it is off;
    /// the read goes out only if that succeeded.
    pub open spec fn read_multi(self, post: Self, reg: u8, n: nat, ok: bool) -> bool {
        if self.shadow().bit(auto_inc()) {
            self.read(post, reg, n, ok)
        } else {
            let on = self.shadow().set_bit(auto_inc());
            let mid = self.write_tx(register_frame(Register::MODE1, on.mode1), true);
            ||| !ok && self.enabled_auto_increment(post, false)
            ||| {
                &&& post.bus_address() == self.bus_address()
                &&& post.shadow() == on
                &&& post.history().len() == self.history().len() + 2
                &&& post.history().drop_last() == self.history().push(mid)
                &&& self.is_read_tx(post.history().last(), seq![reg], n, ok)
            }
        }
    }
}

/// Whether `r` failed with an error reported by the bus.
pub open spec fn is_bus_error<T, E>(r: Result<T, Error<E>>) -> bool {
    r is Err && r->Err_0 is I2C
}

/// Whether `r` failed because an argument was out of range.
pub open spec fn is_invalid_input<T, E>(r: Result<T, Error<E>>) -> bool {
    r is Err && r->Err_0 is InvalidInputData
}

impl<I2C: I2cBus> Pca9685<I2C> {
    /// Sends `bytes` in one write transaction and records it.
    pub(crate) fn write_bytes(&mut self, bytes: &[u8]) -> (r: Result<(), Error<I2C::Error>>)
        ensures
            old(self).wrote(*final(self), bytes@, r is Ok),
            r is Err ==> is_bus_error(r),
    {
        let res = self.i2c.write(self.address, bytes);
        self.log = Ghost(
            self.log@.push(Transaction::Write { address: self.address, bytes: bytes@, ok: res is Ok }),
        );
        match res {
            Ok(()) => Ok(()),
            Err(e) => Err(Error::I2C(e)),
        }
    }

    pub(crate) fn write_mode2(&mut self, config: Config) -> (r: Result<(), Error<I2C::Error>>)
        ensures
            old(self).wrote_mode2(*final(self), config.mode2, r is Ok),
            r is Err ==> is_bus_error(r),
    {
        let r = self.write_bytes(&[Register::MODE2, config.mode2]);
        if r.is_ok() {
            self.config.mode2 = config.mode2;
        }
        r
    }

    pub(crate) fn write_mode1(&mut self, config: Config) -> (r: Result<(), Error<I2C::Error>>)
        ensures
            old(self).wrote_mode1(*final(self), config.mode1, r is Ok),
            r is Err ==> is_bus_error(r),
    {
        let r = self.write_bytes(&[Register::MODE1, config.mode1]);
        if r.is_ok() {
            self.config.mode1 = config.mode1;
        }
        r
    }

    pub(crate) fn enable_auto_increment(&mut self) -> (r: Result<(), Error<I2C::Error>>)
        ensures
            old(self).enabled_auto_increment(*final(self), r is Ok),
            final(self).shadow().bit(auto_inc()) || r is Err,
            r is Err ==> is_bus_error(r),
    {
        proof {
            crate::config::lemma_config_bits(self.config, auto_inc(), auto_inc());
        }
        if self.config.is_low(BitFlagMode1::AutoInc) {
            let config = self.config;
            self.write_mode1(config.with_high(BitFlagMode1::AutoInc))
        } else {
            Ok(())
        }
    }

    /// Sends `bytes` in one write, turning auto-increment on first when the
    /// shadow says it is off.
    pub(crate) fn write_multi(&mut self, bytes: &[u8]) -> (r: Result<(), Error<I2C::Error>>)
        ensures
            old(self).wrote_multi(*final(self), bytes@, r is Ok),
            r is Err ==> is_bus_error(r),
    {
        self.enable_auto_increment()?;
        self.write_bytes(bytes)
    }

    pub(crate) fn write_two_double_registers(&mut self, address: u8, value0: u16, value1: u16) -> (r:
        Result<(), Error<I2C::Error>>)
        ensures
            old(self).wrote_multi(*final(self), two_double_frame(address, value0, value1), r is Ok),
            r is Err ==> is_bus_error(r),
    {
        let bytes = [address, value0 as u8, (value0 >> 8) as u8, value1 as u8, (value1 >> 8) as u8];
        assert(bytes@ =~= two_double_frame(address, value0, value1));
        self.write_multi(&bytes)
    }

    pub(crate) fn write_double_register(&mut self, address: u8, value: u16) -> (r: Result<
        (),
        Error<I2C::Error>,
    >)
        ensures
            old(self).wrote_multi(*final(self), double_frame(address, value), r is Ok),
            r is Err ==> is_bus_error(r),
    {
        let bytes = [address, value as u8, (value >> 8) as u8];
        assert(bytes@ =~= double_frame(address, value));
        self.write_multi(&bytes)
    }

    /// Issues one write-then-read of `N` bytes from the registers from `reg` on,
    /// and records it.
    fn read_bytes<const N: usize>(&mut self, reg: u8) -> (r: Result<[u8; N], Error<I2C::Error>>)
        ensures
            old(self).read(*final(self), reg, N as nat, r is Ok),
            r is Ok ==> r->Ok_0@ == final(self).last_read(),
            r is Err ==> is_bus_error(r),
    {
        let mut data = [0u8; N];
        let bytes = [reg];
        let res = self.i2c.write_read(self.address, &bytes, &mut data);
        self.log = Ghost(
            self.log@.push(
                Transaction::WriteRead {
                    address: self.address,
                    bytes: bytes@,
                    read: data@,
                    ok: res is Ok,
                },
            ),
        );
        assert(self.log@.drop_last() =~= old(self).log@);
        assert(bytes@ =~= seq![reg]);
        match res {
            Ok(()) => Ok(data),
            Err(e) => Err(Error::I2C(e)),
        }
    }

    pub(crate) fn read_register(&mut self, address: u8) -> (r: Result<u8, Error<I2C::Error>>)
        ensures
            old(self).read(*final(self), address, 1, r is Ok),
            r is Ok ==> r->Ok_0 == final(self).last_read()[0],
            r is Err ==> is_bus_error(r),
    {
        let data = self.read_bytes::<1>(address)?;
        Ok(data[0])
    }

    /// Reads `N` bytes from the registers from `reg` on, turning auto-increment
    /// on first when the shadow says it is off.
    pub(crate) fn read_multi_bytes<const N: usize>(&mut self, reg: u8) -> (r: Result<[u8; N], Error<I2C::Error>>)
        ensures
            old(self).read_multi(*final(self), reg, N as nat, r is Ok),
            r is Ok ==> r->Ok_0@ == final(self).last_read(),
            r is Err ==> is_bus_error(r),
    {
        self.enable_auto_increment()?;
        let ghost mid = *self;
        let r = self.read_bytes::<N>(reg);
        assert(self.log@.drop_last() =~= mid.log@);
        r
    }

    pub(crate) fn read_double_register(&mut self, address: u8) -> (r: Result<u16, Error<I2C::Error>>)
        ensures
            old(self).read_multi(*final(self), address, 2, r is Ok),
            r is Ok ==> r->Ok_0 == le16(final(self).last_read()[0], final(self).last_read()[1]),
            r is Err ==> is_bus_error(r),
    {
        let data = self.read_multi_bytes::<2>(address)?;
        Ok((data[0] as u16) | ((data[1] as u16) << 8u16))
    }

    pub(crate) fn read_two_double_registers(&mut self, address: u8) -> (r: Result<(u16, u16), Error<I2C::Error>>)
        ensures
            old(self).read_multi(*final(self), address, 4, r is Ok),
            r is Ok ==> r->Ok_0 == (
                le16(final(self).last_read()[0], final(self).last_read()[1]),
                le16(final(self).last_read()[2], final(self).last_read()[3]),
            ),
            r is Err ==> is_bus_error(r),
    {
        let data = self.read_multi_bytes::<4>(address)?;
        Ok((
            (data[0] as u16) | ((data[1] as u16) << 8u16),
            (data[2] as u16) | ((data[3] as u16) << 8u16),
        ))
    }
}

} // verus!
