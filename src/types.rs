//! Public types of the driver.
use vstd::prelude::*;

use crate::bus::Transaction;
use crate::config::Config;

verus! {

/// Default 7-bit address of the device: all address pins low.
pub const DEVICE_BASE_ADDRESS: u8 = 0b100_0000;

/// PCA9685 PWM/Servo/LED controller.
pub struct Pca9685<I2C> {
    /// The bus the device sits on.
    pub(crate) i2c: I2C,
    /// The 7-bit address used for every transaction.
    pub(crate) address: u8,
    /// Shadow of the MODE1 and MODE2 registers.
    pub(crate) config: Config,
    /// Every transaction issued through this handle, oldest first.
    pub(crate) log: Ghost<Seq<Transaction>>,
}

impl<I2C> Pca9685<I2C> {
    /// The address the driver currently uses to reach the device.
    pub open(crate) spec fn bus_address(&self) -> u8 {
        self.address
    }

    /// The driver's shadow of the mode registers.
    pub open(crate) spec fn shadow(&self) -> Config {
        self.config
    }

    /// The bus the handle owns.
    pub open(crate) spec fn bus(&self) -> I2C {
        self.i2c
    }

    /// The transactions issued through this handle so far.
    pub open(crate) spec fn history(&self) -> Seq<Transaction> {
        self.log@
    }
}

/// All possible errors of the driver.
#[derive(Debug, PartialEq, Eq)]
pub enum Error<E> {
    /// The bus reported a failure.
    I2C(E),
    /// An argument was out of its documented range; nothing was sent.
    InvalidInputData,
}

/// Relies on `String::push_str`: appends the characters of `s` to `buf`.
#[verifier::external_body]
fn push_str(buf: &mut String, s: &str)
    ensures
        final(buf)@ == old(buf)@ + s@,
{
    buf.push_str(s)
}

impl<E: core::fmt::Display> Error<E> {
    /// A human-readable description of the error; a bus error is described by
    /// the text of the bus's own error after a fixed prefix.
    pub fn to_string(&self) -> (r: String)
        ensures
            self is InvalidInputData ==> r@ == "Invalid input data provided"@,
            self is I2C ==> exists|text: String|
                #![trigger vstd::string::to_string_from_display_ensures(&self->I2C_0, text)]
                vstd::string::to_string_from_display_ensures(&self->I2C_0, text) && r@
                    == "I²C bus error: "@ + text@,
    {
        match self {
            Error::I2C(e) => {
                let text = e.to_string();
                let mut r = "I²C bus error: ".to_owned();
                push_str(&mut r, text.as_str());
                r
            },
            Error::InvalidInputData => "Invalid input data provided".to_owned(),
        }
    }
}

/// Output channel selection.
#[derive(Debug, Clone, Copy, PartialEq, Eq, Hash, Structural)]
pub enum Channel {
    /// Channel 0
    C0,
    /// Channel 1
    C1,
    /// Channel 2
    C2,
    /// Channel 3
    C3,
    /// Channel 4
    C4,
    /// Channel 5
    C5,
    /// Channel 6
    C6,
    /// Channel 7
    C7,
    /// Channel 8
    C8,
    /// Channel 9
    C9,
    /// Channel 10
    C10,
    /// Channel 11
    C11,
    /// Channel 12
    C12,
    /// Channel 13
    C13,
    /// Channel 14
    C14,
    /// Channel 15
    C15,
    /// All channels
    All,
}

impl Channel {
    /// Position of the channel, `0..=15`; 16 stands for all channels at once.
    pub open spec fn index(self) -> nat {
        match self {
            Channel::C0 => 0,
            Channel::C1 => 1,
            Channel::C2 => 2,
            Channel::C3 => 3,
            Channel::C4 => 4,
            Channel::C5 => 5,
            Channel::C6 => 6,
            Channel::C7 => 7,
            Channel::C8 => 8,
            Channel::C9 => 9,
            Channel::C10 => 10,
            Channel::C11 => 11,
            Channel::C12 => 12,
            Channel::C13 => 13,
            Channel::C14 => 14,
            Channel::C15 => 15,
            Channel::All => 16,
        }
    }

    /// The channel at `n`, for `n` in `0..=15`.
    pub fn from_index(n: usize) -> (r: Option<Channel>)
        ensures
            r is Some <==> n < 16,
            r is Some ==> r->Some_0 == channel_at(n as nat),
    {
        match n {
            0 => Some(Channel::C0),
            1 => Some(Channel::C1),
            2 => Some(Channel::C2),
            3 => Some(Channel::C3),
            4 => Some(Channel::C4),
            5 => Some(Channel::C5),
            6 => Some(Channel::C6),
            7 => Some(Channel::C7),
            8 => Some(Channel::C8),
            9 => Some(Channel::C9),
            10 => Some(Channel::C10),
            11 => Some(Channel::C11),
            12 => Some(Channel::C12),
            13 => Some(Channel::C13),
            14 => Some(Channel::C14),
            15 => Some(Channel::C15),
            _ => None,
        }
    }
}

/// The single channel at `n`; all channels for `n` past 15.
pub open spec fn channel_at(n: nat) -> Channel {
    if n == 0 {
        Channel::C0
    } else if n == 1 {
        Channel::C1
    } else if n == 2 {
        Channel::C2
    } else if n == 3 {
        Channel::C3
    } else if n == 4 {
        Channel::C4
    } else if n == 5 {
        Channel::C5
    } else if n == 6 {
        Channel::C6
    } else if n == 7 {
        Channel::C7
    } else if n == 8 {
        Channel::C8
    } else if n == 9 {
        Channel::C9
    } else if n == 10 {
        Channel::C10
    } else if n == 11 {
        Channel::C11
    } else if n == 12 {
        Channel::C12
    } else if n == 13 {
        Channel::C13
    } else if n == 14 {
        Channel::C14
    } else if n == 15 {
        Channel::C15
    } else {
        Channel::All
    }
}

impl TryFrom<u8> for Channel {
    type Error = ();

    /// Fails with `()` for a value outside `0..=15`.
    fn try_from(value: u8) -> (r: Result<Self, Self::Error>) {
        if value < 16 {
            match Channel::from_index(value as usize) {
                Some(c) => Ok(c),
                None => Err(()),
            }
        } else {
            Err(())
        }
    }
}

impl vstd::std_specs::convert::TryFromSpecImpl<u8> for Channel {
    open spec fn obeys_try_from_spec() -> bool {
        true
    }

    open spec fn try_from_spec(value: u8) -> Result<Self, ()> {
        if value < 16 {
            Ok(channel_at(value as nat))
        } else {
            Err(())
        }
    }
}

impl TryFrom<u16> for Channel {
    type Error = ();

    /// Fails with `()` for a value outside `0..=15`.
    fn try_from(value: u16) -> (r: Result<Self, Self::Error>) {
        if value < 16 {
            match Channel::from_index(value as usize) {
                Some(c) => Ok(c),
                None => Err(()),
            }
        } else {
            Err(())
        }
    }
}

impl vstd::std_specs::convert::TryFromSpecImpl<u16> for Channel {
    open spec fn obeys_try_from_spec() -> bool {
        true
    }

    open spec fn try_from_spec(value: u16) -> Result<Self, ()> {
        if value < 16 {
            Ok(channel_at(value as nat))
        } else {
            Err(())
        }
    }
}

impl TryFrom<usize> for Channel {
    type Error = ();

    /// Fails with `()` for a value outside `0..=15`.
    fn try_from(value: usize) -> (r: Result<Self, Self::Error>) {
        if value < 16 {
            match Channel::from_index(value as usize) {
                Some(c) => Ok(c),
                None => Err(()),
            }
        } else {
            Err(())
        }
    }
}

impl vstd::std_specs::convert::TryFromSpecImpl<usize> for Channel {
    open spec fn obeys_try_from_spec() -> bool {
        true
    }

    open spec fn try_from_spec(value: usize) -> Result<Self, ()> {
        if value < 16 {
            Ok(channel_at(value as nat))
        } else {
            Err(())
        }
    }
}

/// Output logic state inversion.
#[derive(Debug, Default, Clone, Copy, PartialEq, Eq, Hash, Structural)]
pub enum OutputLogicState {
    /// Output logic state is not inverted (default).
    #[default]
    Direct,
    /// Output logic state is inverted.
    Inverted,
}

/// When the outputs change.
#[derive(Debug, Default, Clone, Copy, PartialEq, Eq, Hash, Structural)]
pub enum OutputStateChange {
    /// Outputs change on STOP, all at the same time (default).
    #[default]
    OnStop,
    /// Outputs change on ACK, byte by byte.
    OnAck,
}

/// Output driver configuration.
#[derive(Debug, Default, Clone, Copy, PartialEq, Eq, Hash, Structural)]
pub enum OutputDriver {
    /// Totem pole configuration (default).
    #[default]
    TotemPole,
    /// Open-drain configuration.
    OpenDrain,
}

/// Value of all outputs while the output drivers are disabled (`OE` = 1).
#[derive(Debug, Default, Clone, Copy, PartialEq, Eq, Hash, Structural)]
pub enum DisabledOutputValue {
    /// All outputs at 0 (default).
    #[default]
    Zero,
    /// 1 with a totem-pole driver, high impedance with an open-drain one.
    OutputDriver,
    /// All outputs at high impedance.
    HighImpedance,
}

/// Additional programmable addresses (volatile).
#[derive(Debug, Clone, Copy, PartialEq, Eq, Hash, Structural)]
pub enum ProgrammableAddress {
    /// Subaddress 1
    Subaddress1,
    /// Subaddress 2
    Subaddress2,
    /// Subaddress 3
    Subaddress3,
    /// LED all call address
    AllCall,
}

/// A 7-bit device address.
#[derive(Debug, Copy, Clone, PartialEq, Eq, Hash, Structural)]
pub struct Address(pub u8);

impl Default for Address {
    /// The address with all address pins low.
    fn default() -> (r: Address)
        ensures
            r.0 == DEVICE_BASE_ADDRESS,
    {
        Address(DEVICE_BASE_ADDRESS)
    }
}

impl From<u8> for Address {
    fn from(a: u8) -> (r: Address) {
        Address(a)
    }
}

impl vstd::std_specs::convert::FromSpecImpl<u8> for Address {
    open spec fn obeys_from_spec() -> bool {
        true
    }

    open spec fn from_spec(a: u8) -> Address {
        Address(a)
    }
}

/// `1 << shift` when `b` holds, else 0.
pub open spec fn pin_bit(b: bool, shift: u8) -> u8 {
    if b {
        (1u8 << shift) as u8
    } else {
        0
    }
}

/// The device address for the levels of the pins A5 to A0.
pub open spec fn address_from_pins(a: (bool, bool, bool, bool, bool, bool)) -> u8 {
    DEVICE_BASE_ADDRESS | pin_bit(a.0, 5) | pin_bit(a.1, 4) | pin_bit(a.2, 3) | pin_bit(a.3, 2)
        | pin_bit(a.4, 1) | pin_bit(a.5, 0)
}

fn pin(b: bool, shift: u8) -> (r: u8)
    requires
        shift < 8,
    ensures
        r == pin_bit(b, shift),
{
    if b {
        1u8 << shift
    } else {
        0
    }
}

impl From<(bool, bool, bool, bool, bool, bool)> for Address {
    /// The device address for the levels of the pins A5 to A0.
    fn from(a: (bool, bool, bool, bool, bool, bool)) -> (r: Address) {
        Address(
            DEVICE_BASE_ADDRESS | pin(a.0, 5) | pin(a.1, 4) | pin(a.2, 3) | pin(a.3, 2) | pin(a.4, 1)
                | pin(a.5, 0),
        )
    }
}

impl vstd::std_specs::convert::FromSpecImpl<(bool, bool, bool, bool, bool, bool)> for Address {
    open spec fn obeys_from_spec() -> bool {
        true
    }

    open spec fn from_spec(a: (bool, bool, bool, bool, bool, bool)) -> Address {
        Address(address_from_pins(a))
    }
}

/// PWM control values for a single channel.
#[derive(Debug, Default, Clone, Copy, PartialEq, Eq, Hash)]
pub struct ChannelOnOffControl {
    /// Counter value at which the channel switches on in each PWM period.
    pub on: u16,
    /// Counter value at which the channel switches off in each PWM period.
    pub off: u16,
    /// Keep the channel on; the `off` value is then ignored.
    pub full_on: bool,
    /// Keep the channel off; takes precedence over `on` and `full_on`.
    pub full_off: bool,
}

} // verus!
