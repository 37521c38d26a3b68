//! Channel timing: the on/off counters of each channel and of all at once.
use vstd::prelude::*;

use crate::bus::I2cBus;
use crate::register_access::{double_frame, is_bus_error, is_invalid_input, le16, two_double_frame, Register};
use crate::types::{Channel, ChannelOnOffControl, Error, Pca9685};

verus! {

/// Largest counter value: a PWM period has 4096 ticks.
pub const MAX_COUNTER: u16 = 4095;

/// The full-on / full-off override bit of a counter register word.
pub const FULL_ON_OFF: u16 = 0b0001_0000_0000_0000;

/// Address of the low byte of the `ON` counter of `c`.
pub open spec fn register_on(c: Channel) -> u8 {
    if c is All {
        Register::ALL_C_ON_L
    } else {
        (Register::C0_ON_L + 4 * c.index()) as u8
    }
}

/// Address of the low byte of the `OFF` counter of `c`.
pub open spec fn register_off(c: Channel) -> u8 {
    if c is All {
        Register::ALL_C_OFF_L
    } else {
        (Register::C0_OFF_L + 4 * c.index()) as u8
    }
}

/// The 12-bit counter held in a register word, override bit masked away.
pub open spec fn counter_of(word: u16) -> u16 {
    word & 0x0FFF
}

/// Whether the override bit of a register word is set.
pub open spec fn override_of(word: u16) -> bool {
    word & FULL_ON_OFF != 0
}

/// The payload bytes that set the `ON` and `OFF` words of the sixteen channels
/// from the first on, each word low byte first.
pub open spec fn counter_bytes(on: Seq<u16>, off: Seq<u16>) -> Seq<u8> {
    Seq::new(
        64,
        |i: int|
            {
                let c = i / 4;
                if i % 4 == 0 {
                    on[c] as u8
                } else if i % 4 == 1 {
                    (on[c] >> 8) as u8
                } else if i % 4 == 2 {
                    off[c] as u8
                } else {
                    (off[c] >> 8) as u8
                }
            },
    )
}

/// The single write that sets the `ON` and `OFF` words of all sixteen channels.
pub open spec fn all_channels_frame(on: Seq<u16>, off: Seq<u16>) -> Seq<u8> {
    seq![Register::C0_ON_L] + counter_bytes(on, off)
}

/// Whether every entry of `s` is a valid counter value.
pub open spec fn all_counters(s: Seq<u16>) -> bool {
    forall|i: int| 0 <= i < s.len() ==> s[i] <= MAX_COUNTER
}

/// The `ON` word that `v` asks for: its counter, with the override bit when full on.
pub open spec fn on_word(v: ChannelOnOffControl) -> u16 {
    if v.full_on {
        v.on | FULL_ON_OFF
    } else {
        v.on
    }
}

/// The `OFF` word that `v` asks for: its counter, with the override bit when full off.
pub open spec fn off_word(v: ChannelOnOffControl) -> u16 {
    if v.full_off {
        v.off | FULL_ON_OFF
    } else {
        v.off
    }
}

/// Whether every entry of `values` holds valid counter values.
pub open spec fn controls_valid(values: Seq<ChannelOnOffControl>) -> bool {
    forall|i: int| 0 <= i < values.len() ==> values[i].on <= MAX_COUNTER && values[i].off <= MAX_COUNTER
}

/// Decodes the sixteen `ON` counters from the bytes of all channel registers.
pub open spec fn on_counters(bytes: Seq<u8>) -> Seq<u16> {
    Seq::new(16, |c: int| counter_of(le16(bytes[4 * c], bytes[4 * c + 1])))
}

/// Decodes the sixteen `OFF` counters from the bytes of all channel registers.
pub open spec fn off_counters(bytes: Seq<u8>) -> Seq<u16> {
    Seq::new(16, |c: int| counter_of(le16(bytes[4 * c + 2], bytes[4 * c + 3])))
}

pub(crate) fn get_register_on(channel: Channel) -> (r: u8)
    ensures
        r == register_on(channel),
{
    match channel {
        Channel::C0 => Register::C0_ON_L,
        Channel::C1 => Register::C1_ON_L,
        Channel::C2 => Register::C2_ON_L,
        Channel::C3 => Register::C3_ON_L,
        Channel::C4 => Register::C4_ON_L,
        Channel::C5 => Register::C5_ON_L,
        Channel::C6 => Register::C6_ON_L,
        Channel::C7 => Register::C7_ON_L,
        Channel::C8 => Register::C8_ON_L,
        Channel::C9 => Register::C9_ON_L,
        Channel::C10 => Register::C10_ON_L,
        Channel::C11 => Register::C11_ON_L,
        Channel::C12 => Register::C12_ON_L,
        Channel::C13 => Register::C13_ON_L,
        Channel::C14 => Register::C14_ON_L,
        Channel::C15 => Register::C15_ON_L,
        Channel::All => Register::ALL_C_ON_L,
    }
}

pub(crate) fn get_register_off(channel: Channel) -> (r: u8)
    ensures
        r == register_off(channel),
{
    match channel {
        Channel::C0 => Register::C0_OFF_L,
        Channel::C1 => Register::C1_OFF_L,
        Channel::C2 => Register::C2_OFF_L,
        Channel::C3 => Register::C3_OFF_L,
        Channel::C4 => Register::C4_OFF_L,
        Channel::C5 => Register::C5_OFF_L,
        Channel::C6 => Register::C6_OFF_L,
        Channel::C7 => Register::C7_OFF_L,
        Channel::C8 => Register::C8_OFF_L,
        Channel::C9 => Register::C9_OFF_L,
        Channel::C10 => Register::C10_OFF_L,
        Channel::C11 => Register::C11_OFF_L,
        Channel::C12 => Register::C12_OFF_L,
        Channel::C13 => Register::C13_OFF_L,
        Channel::C14 => Register::C14_OFF_L,
        Channel::C15 => Register::C15_OFF_L,
        Channel::All => Register::ALL_C_OFF_L,
    }
}

/// The low byte and the high byte of `word`.
fn word_bytes(word: u16) -> (r: (u8, u8))
    ensures
        r == (word as u8, (word >> 8) as u8),
{
    (word as u8, (word >> 8) as u8)
}

/// The 16-bit word whose little-endian bytes are `lo` and `hi`.
fn word_of(lo: u8, hi: u8) -> (r: u16)
    ensures
        r == le16(lo, hi),
{
    (lo as u16) | ((hi as u16) << 8u16)
}

impl<I2C: I2cBus> Pca9685<I2C> {
    /// Sets the `ON` counter of `channel`.
    ///
    /// A set full-off bit takes precedence over the `ON` settings.
    pub fn set_channel_on(&mut self, channel: Channel, value: u16) -> (r: Result<(), Error<I2C::Error>>)
        ensures
            value > MAX_COUNTER ==> is_invalid_input(r) && *final(self) == *old(self),
            value <= MAX_COUNTER ==> old(self).wrote_multi(
                *final(self),
                double_frame(register_on(channel), value),
                r is Ok,
            ),
            value <= MAX_COUNTER && r is Err ==> is_bus_error(r),
    {
        if value > MAX_COUNTER {
            return Err(Error::InvalidInputData);
        }
        let reg = get_register_on(channel);
        self.write_double_register(reg, value)
    }

    /// Sets the `OFF` counter of `channel`; this also clears a full-off setting.
    pub fn set_channel_off(&mut self, channel: Channel, value: u16) -> (r: Result<(), Error<I2C::Error>>)
        ensures
            value > MAX_COUNTER ==> is_invalid_input(r) && *final(self) == *old(self),
            value <= MAX_COUNTER ==> old(self).wrote_multi(
                *final(self),
                double_frame(register_off(channel), value),
                r is Ok,
            ),
            value <= MAX_COUNTER && r is Err ==> is_bus_error(r),
    {
        if value > MAX_COUNTER {
            return Err(Error::InvalidInputData);
        }
        let reg = get_register_off(channel);
        self.write_double_register(reg, value)
    }

    /// Sets the `ON` and `OFF` counters of `channel` in one transaction.
    ///
    /// A set full-off bit takes precedence over the `ON` settings.
    pub fn set_channel_on_off(&mut self, channel: Channel, on: u16, off: u16) -> (r: Result<
        (),
        Error<I2C::Error>,
    >)
        ensures
            on > MAX_COUNTER || off > MAX_COUNTER ==> is_invalid_input(r) && *final(self) == *old(self),
            on <= MAX_COUNTER && off <= MAX_COUNTER ==> old(self).wrote_multi(
                *final(self),
                two_double_frame(register_on(channel), on, off),
                r is Ok,
            ),
            on <= MAX_COUNTER && off <= MAX_COUNTER && r is Err ==> is_bus_error(r),
    {
        if on > MAX_COUNTER || off > MAX_COUNTER {
            return Err(Error::InvalidInputData);
        }
        let reg = get_register_on(channel);
        self.write_two_double_registers(reg, on, off)
    }

    /// Keeps `channel` always on, switching on at `value`.
    ///
    /// A set full-off bit takes precedence over this setting.
    pub fn set_channel_full_on(&mut self, channel: Channel, value: u16) -> (r: Result<
        (),
        Error<I2C::Error>,
    >)
        ensures
            value > MAX_COUNTER ==> is_invalid_input(r) && *final(self) == *old(self),
            value <= MAX_COUNTER ==> old(self).wrote_multi(
                *final(self),
                double_frame(register_on(channel), value | FULL_ON_OFF),
                r is Ok,
            ),
            value <= MAX_COUNTER && r is Err ==> is_bus_error(r),
    {
        if value > MAX_COUNTER {
            return Err(Error::InvalidInputData);
        }
        let reg = get_register_on(channel);
        self.write_double_register(reg, value | FULL_ON_OFF)
    }

    /// Keeps `channel` always off. This takes precedence over every `ON`
    /// setting and is cleared by `set_channel_off`.
    pub fn set_channel_full_off(&mut self, channel: Channel) -> (r: Result<(), Error<I2C::Error>>)
        ensures
            old(self).wrote_multi(*final(self), double_frame(register_off(channel), FULL_ON_OFF), r is Ok),
            r is Err ==> is_bus_error(r),
    {
        let reg = get_register_off(channel);
        self.write_double_register(reg, FULL_ON_OFF)
    }

    /// Sets the `ON` and `OFF` counters of all sixteen channels in one
    /// transaction; entry `i` of each array belongs to channel `i`.
    pub fn set_all_on_off(&mut self, on: &[u16; 16], off: &[u16; 16]) -> (r: Result<
        (),
        Error<I2C::Error>,
    >)
        ensures
            !(all_counters(on@) && all_counters(off@)) ==> is_invalid_input(r) && *final(self) == *old(self),
            all_counters(on@) && all_counters(off@) ==> old(self).wrote_multi(
                *final(self),
                all_channels_frame(on@, off@),
                r is Ok,
            ),
            all_counters(on@) && all_counters(off@) && r is Err ==> is_bus_error(r),
    {
        let mut data = [0u8; 65];
        data[0] = Register::C0_ON_L;
        let mut i: usize = 0;
        while i < 16
            invariant
                i <= 16,
                on@.len() == 16,
                off@.len() == 16,
                data@.len() == 65,
                data@[0] == Register::C0_ON_L,
                forall|j: int| 0 <= j < i ==> on@[j] <= MAX_COUNTER && off@[j] <= MAX_COUNTER,
                forall|j: int| 0 <= j < 4 * i ==> data@[j + 1] == #[trigger] counter_bytes(on@, off@)[j],
            decreases 16 - i,
        {
            if on[i] > MAX_COUNTER || off[i] > MAX_COUNTER {
                return Err(Error::InvalidInputData);
            }
            let (on_lo, on_hi) = word_bytes(on[i]);
            let (off_lo, off_hi) = word_bytes(off[i]);
            data[i * 4 + 1] = on_lo;
            data[i * 4 + 2] = on_hi;
            data[i * 4 + 3] = off_lo;
            data[i * 4 + 4] = off_hi;
            i += 1;
        }
        assert(data@ =~= all_channels_frame(on@, off@));
        self.write_multi(&data)
    }

    /// Sets the `ON` and `OFF` counters and the full-on and full-off bits of all
    /// sixteen channels in one transaction; entry `i` belongs to channel `i`.
    pub fn set_all_channels(&mut self, values: &[ChannelOnOffControl; 16]) -> (r: Result<
        (),
        Error<I2C::Error>,
    >)
        ensures
            !controls_valid(values@) ==> is_invalid_input(r) && *final(self) == *old(self),
            controls_valid(values@) ==> old(self).wrote_multi(
                *final(self),
                all_channels_frame(values@.map_values(|v| on_word(v)), values@.map_values(|v| off_word(v))),
                r is Ok,
            ),
            controls_valid(values@) && r is Err ==> is_bus_error(r),
    {
        let ghost on = values@.map_values(|v| on_word(v));
        let ghost off = values@.map_values(|v| off_word(v));
        let mut data = [0u8; 65];
        data[0] = Register::C0_ON_L;
        let mut i: usize = 0;
        while i < 16
            invariant
                i <= 16,
                values@.len() == 16,
                on == values@.map_values(|v| on_word(v)),
                off == values@.map_values(|v| off_word(v)),
                data@.len() == 65,
                data@[0] == Register::C0_ON_L,
                forall|j: int| 0 <= j < i ==> values@[j].on <= MAX_COUNTER && values@[j].off <= MAX_COUNTER,
                forall|j: int| 0 <= j < 4 * i ==> data@[j + 1] == #[trigger] counter_bytes(on, off)[j],
            decreases 16 - i,
        {
            let v = values[i];
            if v.on > MAX_COUNTER || v.off > MAX_COUNTER {
                return Err(Error::InvalidInputData);
            }
            let on_word = if v.full_on { v.on | FULL_ON_OFF } else { v.on };
            let off_word = if v.full_off { v.off | FULL_ON_OFF } else { v.off };
            let (on_lo, on_hi) = word_bytes(on_word);
            let (off_lo, off_hi) = word_bytes(off_word);
            data[i * 4 + 1] = on_lo;
            data[i * 4 + 2] = on_hi;
            data[i * 4 + 3] = off_lo;
            data[i * 4 + 4] = off_hi;
            i += 1;
        }
        assert(data@ =~= all_channels_frame(on, off));
        self.write_multi(&data)
    }

    /// Reads the `ON` counter of `channel`, override bit masked away.
    pub fn get_channel_on(&mut self, channel: Channel) -> (r: Result<u16, Error<I2C::Error>>)
        ensures
            old(self).read_multi(*final(self), register_on(channel), 2, r is Ok),
            r is Ok ==> r->Ok_0 == counter_of(final(self).last_word(0)),
            r is Err ==> is_bus_error(r),
    {
        let word = self.read_double_register(get_register_on(channel))?;
        Ok(word & 0x0FFF)
    }

    /// Reads the `OFF` counter of `channel`, override bit masked away.
    pub fn get_channel_off(&mut self, channel: Channel) -> (r: Result<u16, Error<I2C::Error>>)
        ensures
            old(self).read_multi(*final(self), register_off(channel), 2, r is Ok),
            r is Ok ==> r->Ok_0 == counter_of(final(self).last_word(0)),
            r is Err ==> is_bus_error(r),
    {
        let word = self.read_double_register(get_register_off(channel))?;
        Ok(word & 0x0FFF)
    }

    /// Reads the `ON` and `OFF` counters of `channel` in one transaction,
    /// override bits masked away.
    pub fn get_channel_on_off(&mut self, channel: Channel) -> (r: Result<(u16, u16), Error<I2C::Error>>)
        ensures
            old(self).read_multi(*final(self), register_on(channel), 4, r is Ok),
            r is Ok ==> r->Ok_0 == (counter_of(final(self).last_word(0)), counter_of(final(self).last_word(1))),
            r is Err ==> is_bus_error(r),
    {
        let (on, off) = self.read_two_double_registers(get_register_on(channel))?;
        Ok((on & 0x0FFF, off & 0x0FFF))
    }

    /// Whether `channel` is set to be always on.
    pub fn get_channel_full_on(&mut self, channel: Channel) -> (r: Result<bool, Error<I2C::Error>>)
        ensures
            old(self).read_multi(*final(self), register_on(channel), 2, r is Ok),
            r is Ok ==> r->Ok_0 == override_of(final(self).last_word(0)),
            r is Err ==> is_bus_error(r),
    {
        let word = self.read_double_register(get_register_on(channel))?;
        Ok(word & FULL_ON_OFF != 0)
    }

    /// Whether `channel` is set to be always off.
    pub fn get_channel_full_off(&mut self, channel: Channel) -> (r: Result<bool, Error<I2C::Error>>)
        ensures
            old(self).read_multi(*final(self), register_off(channel), 2, r is Ok),
            r is Ok ==> r->Ok_0 == override_of(final(self).last_word(0)),
            r is Err ==> is_bus_error(r),
    {
        let word = self.read_double_register(get_register_off(channel))?;
        Ok(word & FULL_ON_OFF != 0)
    }

    /// Reads the `ON` and `OFF` counters of all sixteen channels in one
    /// transaction, override bits masked away; entry `i` belongs to channel `i`.
    pub fn get_all_on_off(&mut self) -> (r: Result<([u16; 16], [u16; 16]), Error<I2C::Error>>)
        ensures
            old(self).read_multi(*final(self), Register::C0_ON_L, 64, r is Ok),
            r is Ok ==> r->Ok_0.0@ == on_counters(final(self).last_read()),
            r is Ok ==> r->Ok_0.1@ == off_counters(final(self).last_read()),
            r is Err ==> is_bus_error(r),
    {
        let data = self.read_multi_bytes::<64>(Register::C0_ON_L)?;
        let mut on = [0u16; 16];
        let mut off = [0u16; 16];
        let mut i: usize = 0;
        while i < 16
            invariant
                i <= 16,
                data@.len() == 64,
                on@.len() == 16,
                off@.len() == 16,
                forall|j: int| 0 <= j < i ==> on@[j] == #[trigger] on_counters(data@)[j],
                forall|j: int| 0 <= j < i ==> off@[j] == #[trigger] off_counters(data@)[j],
            decreases 16 - i,
        {
            on[i] = word_of(data[4 * i], data[4 * i + 1]) & 0x0FFF;
            off[i] = word_of(data[4 * i + 2], data[4 * i + 3]) & 0x0FFF;
            i += 1;
        }
        assert(on@ =~= on_counters(data@));
        assert(off@ =~= off_counters(data@));
        Ok((on, off))
    }
}

} // verus!
