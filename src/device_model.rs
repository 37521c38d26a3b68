//! A model of the device's register file as seen over the bus, and the laws
//! that relate what the driver writes to what it reads back.
use vstd::prelude::*;

use crate::channels::{
    all_channels_frame, all_counters, counter_bytes, counter_of, off_counters, on_counters,
    override_of, register_off, register_on, FULL_ON_OFF, MAX_COUNTER,
};
use crate::config::{lemma_config_bits, BitFlagMode1};
use crate::device_impl::{restart_flag, sleep, RESTART_DELAY_US};
use crate::register_access::{auto_inc, double_frame, le16, register_frame, Register};
use crate::types::{Channel, Pca9685};
use crate::bus::Transaction;

verus! {

/// The registers after a write of `frame` with auto-increment on: payload byte
/// `i` lands in register `frame[0] + i`, every other register keeps its value.
pub open spec fn apply_write(regs: Seq<u8>, frame: Seq<u8>) -> Seq<u8> {
    if frame.len() == 0 {
        regs
    } else {
        Seq::new(
            regs.len(),
            |a: int|
                if frame[0] <= a < frame[0] + frame.len() - 1 {
                    frame[a - frame[0] + 1]
                } else {
                    regs[a]
                },
        )
    }
}

/// The `n` bytes that a read from register `start` on returns with
/// auto-increment on.
pub open spec fn read_back(regs: Seq<u8>, start: u8, n: nat) -> Seq<u8> {
    Seq::new(n, |i: int| regs[start + i])
}

/// The registers of a device that started with `regs`, after the successful
/// writes of `log` in order.
pub open spec fn registers_after(regs: Seq<u8>, log: Seq<Transaction>) -> Seq<u8>
    decreases log.len(),
{
    if log.len() == 0 {
        regs
    } else {
        let before = registers_after(regs, log.drop_last());
        let t = log.last();
        if t is Write && t->Write_ok {
            apply_write(before, t->Write_bytes)
        } else {
            before
        }
    }
}

/// Whether the last transaction of `log`, if it is a successful read,
/// returned what a device that started with `regs` held at that moment.
pub open spec fn last_read_faithful(regs: Seq<u8>, log: Seq<Transaction>) -> bool {
    let t = log.last();
    t is WriteRead && t->WriteRead_ok ==> t->WriteRead_read == read_back(
        registers_after(regs, log.drop_last()),
        t->WriteRead_bytes[0],
        t->WriteRead_read.len(),
    )
}

/// Writes never change how many registers the device has.
pub proof fn lemma_registers_after_len(regs: Seq<u8>, log: Seq<Transaction>)
    ensures
        registers_after(regs, log).len() == regs.len(),
    decreases log.len(),
{
    if log.len() > 0 {
        lemma_registers_after_len(regs, log.drop_last());
    }
}

/// The 16-bit word held by the register pair from `reg` on.
pub open spec fn word_at(regs: Seq<u8>, reg: u8) -> u16 {
    let bytes = read_back(regs, reg, 2);
    le16(bytes[0], bytes[1])
}

/// Splitting a word into its little-endian bytes and joining them again gives
/// the word back; a counter value has no bit outside the low twelve.
pub proof fn lemma_word_bytes(v: u16)
    ensures
        le16(v as u8, (v >> 8) as u8) == v,
        v <= MAX_COUNTER ==> counter_of(v) == v,
        v <= MAX_COUNTER ==> !override_of(v),
        override_of(v | FULL_ON_OFF),
        v <= MAX_COUNTER ==> counter_of(v | FULL_ON_OFF) == v,
        override_of(FULL_ON_OFF),
{
    assert(0x1000u16 & 0x1000u16 != 0) by (bit_vector);
    assert(le16(v as u8, (v >> 8) as u8) == v) by (bit_vector);
    assert(v <= 4095 ==> v & 0x0FFF == v) by (bit_vector);
    assert(v <= 4095 ==> v & 0x1000 == 0) by (bit_vector);
    assert((v | 0x1000) & 0x1000 != 0) by (bit_vector);
    assert(v <= 4095 ==> (v | 0x1000) & 0x0FFF == v) by (bit_vector);
}

/// After a write of `value` to the register pair at `reg` (as all single
/// counter writes are), that pair holds `value` and every register outside the
/// pair is unchanged.
pub proof fn lemma_double_write(regs: Seq<u8>, reg: u8, value: u16, other: u8)
    requires
        regs.len() == 256,
        reg <= 254,
        other <= 254,
        other + 1 < reg || reg + 1 < other,
    ensures
        word_at(apply_write(regs, double_frame(reg, value)), reg) == value,
        word_at(apply_write(regs, double_frame(reg, value)), other) == word_at(regs, other),
{
    lemma_word_bytes(value);
}

/// Reading back the `ON` counter of a channel right after `set_channel_on(c, v)`
/// gives `v` for every valid `v`.
pub proof fn lemma_channel_on_read_back(regs: Seq<u8>, c: Channel, v: u16)
    requires
        regs.len() == 256,
        v <= MAX_COUNTER,
    ensures
        counter_of(word_at(apply_write(regs, double_frame(register_on(c), v)), register_on(c))) == v,
{
    lemma_double_write(regs, register_on(c), v, 0);
    lemma_word_bytes(v);
}

/// Right after `set_channel_full_off(c)` the full-off bit of `c` reads as set;
/// it stays set across a later `set_channel_on(c, v)`, which writes the other
/// register of the channel; a later `set_channel_off(c, x)` clears it and
/// leaves `x` as the `OFF` counter.
pub proof fn lemma_full_off_read_back(regs: Seq<u8>, c: Channel, v: u16, x: u16)
    requires
        regs.len() == 256,
        v <= MAX_COUNTER,
        x <= MAX_COUNTER,
    ensures
        ({
            let off = apply_write(regs, double_frame(register_off(c), FULL_ON_OFF));
            let on = apply_write(off, double_frame(register_on(c), v));
            let cleared = apply_write(off, double_frame(register_off(c), x));
            &&& override_of(word_at(off, register_off(c)))
            &&& override_of(word_at(on, register_off(c)))
            &&& !override_of(word_at(cleared, register_off(c)))
            &&& counter_of(word_at(cleared, register_off(c))) == x
        }),
{
    let off = apply_write(regs, double_frame(register_off(c), FULL_ON_OFF));
    lemma_double_write(regs, register_off(c), FULL_ON_OFF, register_on(c));
    lemma_double_write(off, register_on(c), v, register_off(c));
    lemma_double_write(off, register_off(c), x, register_on(c));
    lemma_word_bytes(x);
}

/// Reading back all channels right after `set_all_on_off(on, off)` gives `on`
/// and `off` for every pair of arrays of valid counters.
pub proof fn lemma_all_on_off_round_trip(regs: Seq<u8>, on: Seq<u16>, off: Seq<u16>)
    requires
        regs.len() == 256,
        on.len() == 16,
        off.len() == 16,
        all_counters(on),
        all_counters(off),
    ensures
        on_counters(read_back(apply_write(regs, all_channels_frame(on, off)), Register::C0_ON_L, 64))
            == on,
        off_counters(read_back(apply_write(regs, all_channels_frame(on, off)), Register::C0_ON_L, 64))
            == off,
{
    let bytes = read_back(apply_write(regs, all_channels_frame(on, off)), Register::C0_ON_L, 64);
    assert(bytes =~= counter_bytes(on, off));
    assert forall|c: int| 0 <= c < 16 implies #[trigger] on_counters(bytes)[c] == on[c] by {
        lemma_word_bytes(on[c]);
    }
    assert forall|c: int| 0 <= c < 16 implies #[trigger] off_counters(bytes)[c] == off[c] by {
        lemma_word_bytes(off[c]);
    }
    assert(on_counters(bytes) =~= on);
    assert(off_counters(bytes) =~= off);
}

/// What a successful multi-byte read right after a successful multi-byte write
/// of `frame` returns from a device that answers reads from its registers.
proof fn lemma_read_after_write<I2C>(
    regs: Seq<u8>,
    d0: Pca9685<I2C>,
    d1: Pca9685<I2C>,
    d2: Pca9685<I2C>,
    frame: Seq<u8>,
    reg: u8,
    n: nat,
)
    requires
        regs.len() == 256,
        frame.len() > 0,
        d0.wrote_multi(d1, frame, true),
        d1.read_multi(d2, reg, n, true),
        last_read_faithful(regs, d2.history()),
    ensures
        registers_after(regs, d1.history().drop_last()).len() == 256,
        d2.last_read() == read_back(
            apply_write(registers_after(regs, d1.history().drop_last()), frame),
            reg,
            n,
        ),
{
    lemma_config_bits(d0.shadow(), auto_inc(), auto_inc());
    let h = d1.history();
    assert(d2.history().drop_last() == h);
    assert(h.drop_last().push(h.last()) =~= h);
    lemma_registers_after_len(regs, h.drop_last());
}

/// A successful `set_channel_on(c, v)` followed by a successful
/// `get_channel_on(c)` returns `v`, for every valid `v`, when the device takes
/// the writes of the handle and answers the read from its registers.
pub proof fn lemma_channel_on_round_trip<I2C>(
    regs: Seq<u8>,
    d0: Pca9685<I2C>,
    d1: Pca9685<I2C>,
    d2: Pca9685<I2C>,
    c: Channel,
    v: u16,
)
    requires
        regs.len() == 256,
        v <= MAX_COUNTER,
        d0.wrote_multi(d1, double_frame(register_on(c), v), true),
        d1.read_multi(d2, register_on(c), 2, true),
        last_read_faithful(regs, d2.history()),
    ensures
        counter_of(d2.last_word(0)) == v,
{
    lemma_read_after_write(regs, d0, d1, d2, double_frame(register_on(c), v), register_on(c), 2);
    lemma_channel_on_read_back(registers_after(regs, d1.history().drop_last()), c, v);
}

/// A successful `set_channel_full_off(c)` followed by a successful
/// `get_channel_full_off(c)` reports full off, when the device takes the
/// writes of the handle and answers the read from its registers.
pub proof fn lemma_full_off_round_trip<I2C>(
    regs: Seq<u8>,
    d0: Pca9685<I2C>,
    d1: Pca9685<I2C>,
    d2: Pca9685<I2C>,
    c: Channel,
)
    requires
        regs.len() == 256,
        d0.wrote_multi(d1, double_frame(register_off(c), FULL_ON_OFF), true),
        d1.read_multi(d2, register_off(c), 2, true),
        last_read_faithful(regs, d2.history()),
    ensures
        override_of(d2.last_word(0)),
{
    let frame = double_frame(register_off(c), FULL_ON_OFF);
    lemma_read_after_write(regs, d0, d1, d2, frame, register_off(c), 2);
    lemma_full_off_read_back(registers_after(regs, d1.history().drop_last()), c, 0, 0);
}

/// A successful `set_all_on_off(on, off)` followed by a successful
/// `get_all_on_off()` returns `on` and `off`, for all arrays of valid counters,
/// when the device takes the writes of the handle and answers the read from
/// its registers.
pub proof fn lemma_all_on_off_round_trip_through_driver<I2C>(
    regs: Seq<u8>,
    d0: Pca9685<I2C>,
    d1: Pca9685<I2C>,
    d2: Pca9685<I2C>,
    on: Seq<u16>,
    off: Seq<u16>,
)
    requires
        regs.len() == 256,
        on.len() == 16,
        off.len() == 16,
        all_counters(on),
        all_counters(off),
        d0.wrote_multi(d1, all_channels_frame(on, off), true),
        d1.read_multi(d2, Register::C0_ON_L, 64, true),
        last_read_faithful(regs, d2.history()),
    ensures
        on_counters(d2.last_read()) == on,
        off_counters(d2.last_read()) == off,
{
    lemma_read_after_write(regs, d0, d1, d2, all_channels_frame(on, off), Register::C0_ON_L, 64);
    lemma_all_on_off_round_trip(registers_after(regs, d1.history().drop_last()), on, off);
}

/// Auto-increment is turned on at most once: two successful `set_channel_on`
/// calls in a row issue one MODE1 write (none if the shadow already had
/// auto-increment) and then the two payload writes.
pub proof fn lemma_auto_increment_once<I2C>(
    d0: Pca9685<I2C>,
    d1: Pca9685<I2C>,
    d2: Pca9685<I2C>,
    c: Channel,
    v: u16,
)
    requires
        v <= MAX_COUNTER,
        d0.wrote_multi(d1, double_frame(register_on(c), v), true),
        d1.wrote_multi(d2, double_frame(register_on(c), v), true),
    ensures
        d1.shadow().bit(auto_inc()),
        d2.history() == d1.history().push(d1.write_tx(double_frame(register_on(c), v), true)),
        d2.history() == d0.history() + (if d0.shadow().bit(auto_inc()) {
            Seq::empty()
        } else {
            seq![
                d0.write_tx(
                    register_frame(Register::MODE1, d0.shadow().set_bit(auto_inc()).mode1),
                    true,
                ),
            ]
        }) + seq![
            d0.write_tx(double_frame(register_on(c), v), true),
            d0.write_tx(double_frame(register_on(c), v), true),
        ],
{
    lemma_config_bits(d0.shadow(), auto_inc(), auto_inc());
    if d0.shadow().bit(auto_inc()) {
        assert(d2.history() =~= d0.history() + Seq::empty() + seq![
            d0.write_tx(double_frame(register_on(c), v), true),
            d0.write_tx(double_frame(register_on(c), v), true),
        ]);
    } else {
        assert(d2.history() =~= d0.history() + seq![
            d0.write_tx(
                register_frame(Register::MODE1, d0.shadow().set_bit(auto_inc()).mode1),
                true,
            ),
        ] + seq![
            d0.write_tx(double_frame(register_on(c), v), true),
            d0.write_tx(double_frame(register_on(c), v), true),
        ]);
    }
}

/// After `enable_restart_and_disable` and a successful `restart` that found
/// the restart bit set, the device was woken, waited for and restarted, and the
/// shadow is the one from before the sleep with sleep clear: exactly the one
/// from before when the oscillator was running then. The restart bit is never
/// kept in the shadow.
pub proof fn lemma_restart_restores_shadow<I2C>(d0: Pca9685<I2C>, d1: Pca9685<I2C>, d2: Pca9685<I2C>)
    requires
        d0.restart_armed(d1, true),
        d1.restarted(d2, true),
        d1.first_new(d2)->WriteRead_read[0] & BitFlagMode1::Restart.spec_mask() != 0,
    ensures
        d2.shadow() == d0.shadow().clear_bit(sleep()),
        !d0.shadow().bit(sleep()) ==> d2.shadow() == d0.shadow(),
        !d0.shadow().bit(restart_flag()) ==> !d2.shadow().bit(restart_flag()),
        d2.history() == d1.history() + seq![
            d1.first_new(d2),
            d1.mode1_tx(d2.shadow().mode1, true),
            Transaction::Delay { us: RESTART_DELAY_US },
            d1.mode1_tx(d2.shadow().set_bit(restart_flag()).mode1, true),
        ],
{
    lemma_config_bits(d0.shadow(), sleep(), restart_flag());
    lemma_config_bits(d0.shadow().set_bit(sleep()), sleep(), restart_flag());
    lemma_config_bits(d0.shadow().clear_bit(sleep()), sleep(), restart_flag());
    assert(d2.history() =~= d1.history() + seq![
        d1.first_new(d2),
        d1.mode1_tx(d2.shadow().mode1, true),
        Transaction::Delay { us: RESTART_DELAY_US },
        d1.mode1_tx(d2.shadow().set_bit(restart_flag()).mode1, true),
    ]);
}

} // verus!
