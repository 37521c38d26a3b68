//! Shadow copy of the two mode registers and the bit flags that live in them.
use vstd::prelude::*;
use vstd::std_specs::convert::IntoSpec;

verus! {

/// A single configuration bit, tagged with the mode register that holds it.
pub enum BitFlag {
    Mode1(BitFlagMode1),
    Mode2(BitFlagMode2),
}

/// Bits of the MODE1 register.
pub enum BitFlagMode1 {
    Restart,
    ExtClk,
    AutoInc,
    Sleep,
    Subaddr1,
    Subaddr2,
    Subaddr3,
    AllCall,
}

/// Bits of the MODE2 register.
pub enum BitFlagMode2 {
    Invrt,
    Och,
    OutDrv,
    OutNe1,
    OutNe0,
}

impl BitFlagMode1 {
    /// The one-bit mask of this flag inside MODE1.
    pub open spec fn spec_mask(self) -> u8 {
        match self {
            BitFlagMode1::Restart => 0b1000_0000,
            BitFlagMode1::ExtClk => 0b0100_0000,
            BitFlagMode1::AutoInc => 0b0010_0000,
            BitFlagMode1::Sleep => 0b0001_0000,
            BitFlagMode1::Subaddr1 => 0b0000_1000,
            BitFlagMode1::Subaddr2 => 0b0000_0100,
            BitFlagMode1::Subaddr3 => 0b0000_0010,
            BitFlagMode1::AllCall => 0b0000_0001,
        }
    }

    #[verifier::when_used_as_spec(spec_mask)]
    pub fn mask(self) -> (r: u8)
        ensures
            r == self.spec_mask(),
    {
        match self {
            BitFlagMode1::Restart => 0b1000_0000,
            BitFlagMode1::ExtClk => 0b0100_0000,
            BitFlagMode1::AutoInc => 0b0010_0000,
            BitFlagMode1::Sleep => 0b0001_0000,
            BitFlagMode1::Subaddr1 => 0b0000_1000,
            BitFlagMode1::Subaddr2 => 0b0000_0100,
            BitFlagMode1::Subaddr3 => 0b0000_0010,
            BitFlagMode1::AllCall => 0b0000_0001,
        }
    }
}

impl BitFlagMode2 {
    /// The one-bit mask of this flag inside MODE2.
    pub open spec fn spec_mask(self) -> u8 {
        match self {
            BitFlagMode2::Invrt => 0b0001_0000,
            BitFlagMode2::Och => 0b0000_1000,
            BitFlagMode2::OutDrv => 0b0000_0100,
            BitFlagMode2::OutNe1 => 0b0000_0010,
            BitFlagMode2::OutNe0 => 0b0000_0001,
        }
    }

    #[verifier::when_used_as_spec(spec_mask)]
    pub fn mask(self) -> (r: u8)
        ensures
            r == self.spec_mask(),
    {
        match self {
            BitFlagMode2::Invrt => 0b0001_0000,
            BitFlagMode2::Och => 0b0000_1000,
            BitFlagMode2::OutDrv => 0b0000_0100,
            BitFlagMode2::OutNe1 => 0b0000_0010,
            BitFlagMode2::OutNe0 => 0b0000_0001,
        }
    }
}

impl From<BitFlagMode1> for BitFlag {
    fn from(bf: BitFlagMode1) -> (r: BitFlag) {
        BitFlag::Mode1(bf)
    }
}

impl vstd::std_specs::convert::FromSpecImpl<BitFlagMode1> for BitFlag {
    open spec fn obeys_from_spec() -> bool {
        true
    }

    open spec fn from_spec(bf: BitFlagMode1) -> BitFlag {
        BitFlag::Mode1(bf)
    }
}

impl From<BitFlagMode2> for BitFlag {
    fn from(bf: BitFlagMode2) -> (r: BitFlag) {
        BitFlag::Mode2(bf)
    }
}

impl vstd::std_specs::convert::FromSpecImpl<BitFlagMode2> for BitFlag {
    open spec fn obeys_from_spec() -> bool {
        true
    }

    open spec fn from_spec(bf: BitFlagMode2) -> BitFlag {
        BitFlag::Mode2(bf)
    }
}

/// The flag that a value convertible into a `BitFlag` stands for.
pub open spec fn flag_of<BF: Into<BitFlag>>(bf: BF) -> BitFlag {
    bf.into_spec()
}

/// Whether `m` is one of the eight one-bit masks of a byte.
pub open spec fn is_bit_mask(m: u8) -> bool {
    m == 1 || m == 2 || m == 4 || m == 8 || m == 16 || m == 32 || m == 64 || m == 128
}

/// Setting or clearing bit `m` of `x` changes that bit and no other.
pub proof fn lemma_byte_bit_ops(x: u8, m: u8, k: u8)
    requires
        is_bit_mask(m),
        is_bit_mask(k),
    ensures
        (x | m) & m != 0,
        (x & !m) & m == 0,
        m != k ==> (x | m) & k == x & k,
        m != k ==> (x & !m) & k == x & k,
        x & m != 0 ==> x | m == x,
        x & m == 0 ==> x & !m == x,
        (x | m) & !m == x & !m,
{
    assert(is_bit_mask(m) && is_bit_mask(k) ==> {
        &&& (x | m) & !m == x & !m
        &&& (x | m) & m != 0
        &&& (x & !m) & m == 0
        &&& m != k ==> (x | m) & k == x & k
        &&& m != k ==> (x & !m) & k == x & k
        &&& x & m != 0 ==> x | m == x
        &&& x & m == 0 ==> x & !m == x
    }) by (bit_vector);
}

/// Contents of the MODE1 and MODE2 registers.
#[derive(Debug, Clone, Copy, PartialEq, Eq, Structural)]
pub struct Config {
    pub mode1: u8,
    pub mode2: u8,
}

impl Config {
    /// Whether the given bit is set in the register that holds it.
    pub open spec fn bit(self, bf: BitFlag) -> bool {
        match bf {
            BitFlag::Mode1(m) => self.mode1 & m.spec_mask() != 0,
            BitFlag::Mode2(m) => self.mode2 & m.spec_mask() != 0,
        }
    }

    /// The configuration with the given bit set and every other bit kept.
    pub open spec fn set_bit(self, bf: BitFlag) -> Config {
        match bf {
            BitFlag::Mode1(m) => Config { mode1: self.mode1 | m.spec_mask(), mode2: self.mode2 },
            BitFlag::Mode2(m) => Config { mode1: self.mode1, mode2: self.mode2 | m.spec_mask() },
        }
    }

    /// The configuration with the given bit cleared and every other bit kept.
    pub open spec fn clear_bit(self, bf: BitFlag) -> Config {
        match bf {
            BitFlag::Mode1(m) => Config { mode1: self.mode1 & !m.spec_mask(), mode2: self.mode2 },
            BitFlag::Mode2(m) => Config { mode1: self.mode1, mode2: self.mode2 & !m.spec_mask() },
        }
    }

    /// The power-on reset contents: sleep and all-call set in MODE1, totem-pole
    /// output driver set in MODE2.
    pub open spec fn power_on() -> Config {
        Config {
            mode1: BitFlagMode1::Sleep.spec_mask() | BitFlagMode1::AllCall.spec_mask(),
            mode2: BitFlagMode2::OutDrv.spec_mask(),
        }
    }

    pub fn is_high<BF: Into<BitFlag>>(self, bf: BF) -> (r: bool)
        ensures
            BF::obeys_into_spec() ==> r == self.bit(flag_of(bf)),
    {
        match bf.into() {
            BitFlag::Mode1(mask) => (self.mode1 & mask.mask()) != 0,
            BitFlag::Mode2(mask) => (self.mode2 & mask.mask()) != 0,
        }
    }

    pub fn is_low<BF: Into<BitFlag>>(self, bf: BF) -> (r: bool)
        ensures
            BF::obeys_into_spec() ==> r == !self.bit(flag_of(bf)),
    {
        !self.is_high(bf)
    }

    pub fn with_high<BF: Into<BitFlag>>(self, bf: BF) -> (r: Self)
        ensures
            BF::obeys_into_spec() ==> r == self.set_bit(flag_of(bf)),
    {
        match bf.into() {
            BitFlag::Mode1(mask) => Config { mode1: self.mode1 | mask.mask(), mode2: self.mode2 },
            BitFlag::Mode2(mask) => Config { mode1: self.mode1, mode2: self.mode2 | mask.mask() },
        }
    }

    pub fn with_low<BF: Into<BitFlag>>(self, bf: BF) -> (r: Self)
        ensures
            BF::obeys_into_spec() ==> r == self.clear_bit(flag_of(bf)),
    {
        match bf.into() {
            BitFlag::Mode1(mask) => Config { mode1: self.mode1 & !mask.mask(), mode2: self.mode2 },
            BitFlag::Mode2(mask) => Config { mode1: self.mode1, mode2: self.mode2 & !mask.mask() },
        }
    }
}

/// Setting or clearing one flag of a configuration changes that flag and no
/// other, and setting a flag that is already set (or clearing one already clear)
/// changes nothing.
pub proof fn lemma_config_bits(c: Config, f: BitFlag, g: BitFlag)
    ensures
        c.set_bit(f).bit(f),
        !c.clear_bit(f).bit(f),
        f != g ==> c.set_bit(f).bit(g) == c.bit(g),
        f != g ==> c.clear_bit(f).bit(g) == c.bit(g),
        c.bit(f) ==> c.set_bit(f) == c,
        !c.bit(f) ==> c.clear_bit(f) == c,
        c.set_bit(f).clear_bit(f) == c.clear_bit(f),
{
    match (f, g) {
        (BitFlag::Mode1(m), BitFlag::Mode1(k)) => {
            lemma_byte_bit_ops(c.mode1, m.spec_mask(), k.spec_mask());
        },
        (BitFlag::Mode2(m), BitFlag::Mode2(k)) => {
            lemma_byte_bit_ops(c.mode2, m.spec_mask(), k.spec_mask());
        },
        (BitFlag::Mode1(m), BitFlag::Mode2(k)) => {
            lemma_byte_bit_ops(c.mode1, m.spec_mask(), m.spec_mask());
        },
        (BitFlag::Mode2(m), BitFlag::Mode1(k)) => {
            lemma_byte_bit_ops(c.mode2, m.spec_mask(), m.spec_mask());
        },
    }
}

impl Default for Config {
    fn default() -> (r: Config)
        ensures
            r == Config::power_on(),
    {
        Config {
            mode1: BitFlagMode1::Sleep.mask() | BitFlagMode1::AllCall.mask(),
            mode2: BitFlagMode2::OutDrv.mask(),
        }
    }
}

} // verus!
