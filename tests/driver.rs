use pwm_pca9685::{
    Channel, ChannelOnOffControl, DelayUs, DisabledOutputValue, Error, I2cBus, OutputDriver,
    OutputLogicState, OutputStateChange, Pca9685, ProgrammableAddress as ProgAddr,
};

const DEV_ADDR: u8 = 0b100_0000;

struct BitFlags;
impl BitFlags {
    const RESTART: u8 = 0b1000_0000;
    const EXT_CLK: u8 = 0b0100_0000;
    const AUTO_INC: u8 = 0b0010_0000;
    const SLEEP: u8 = 0b0001_0000;
    const SUBADDR1: u8 = 0b0000_1000;
    const SUBADDR2: u8 = 0b0000_0100;
    const SUBADDR3: u8 = 0b0000_0010;
    const ALL_CALL_ADDR: u8 = 0b0000_0001;
    const INVRT: u8 = 0b0001_0000;
    const OCH: u8 = 0b0000_1000;
    const OUT_DRV: u8 = 0b0000_0100;
    const OUTNE1: u8 = 0b0000_0010;
    const OUTNE0: u8 = 0b0000_0001;
}

const MODE1_DEFAULT: u8 = BitFlags::SLEEP | BitFlags::ALL_CALL_ADDR;
const MODE1_AI: u8 = MODE1_DEFAULT | BitFlags::AUTO_INC;
const MODE2_DEFAULT: u8 = 0b0000_0100;

const MODE1: u8 = 0x00;
const MODE2: u8 = 0x01;
const SUBADDR1: u8 = 0x02;
const SUBADDR2: u8 = 0x03;
const SUBADDR3: u8 = 0x04;
const ALL_CALL_ADDR: u8 = 0x05;
const C0_ON_L: u8 = 0x06;
const ALL_C_ON_L: u8 = 0xFA;
const ALL_C_OFF_L: u8 = 0xFC;
const PRE_SCALE: u8 = 0xFE;

const CHANNELS: [Channel; 17] = [
    Channel::C0,
    Channel::C1,
    Channel::C2,
    Channel::C3,
    Channel::C4,
    Channel::C5,
    Channel::C6,
    Channel::C7,
    Channel::C8,
    Channel::C9,
    Channel::C10,
    Channel::C11,
    Channel::C12,
    Channel::C13,
    Channel::C14,
    Channel::C15,
    Channel::All,
];

fn reg_on(i: usize) -> u8 {
    if i == 16 {
        ALL_C_ON_L
    } else {
        0x06 + 4 * i as u8
    }
}

fn reg_off(i: usize) -> u8 {
    if i == 16 {
        ALL_C_OFF_L
    } else {
        0x08 + 4 * i as u8
    }
}

#[derive(Debug, Clone, PartialEq)]
enum Trans {
    Write(u8, Vec<u8>),
    WriteRead(u8, Vec<u8>, Vec<u8>),
}

#[derive(Debug, Clone, Copy, PartialEq)]
struct BusFault;

/// A bus that checks each transaction against a script; it fails the
/// transaction at position `fail_at`, if any.
struct MockBus {
    expected: Vec<Trans>,
    pos: usize,
    fail_at: Option<usize>,
}

impl MockBus {
    fn new(expected: &[Trans]) -> Self {
        MockBus { expected: expected.to_vec(), pos: 0, fail_at: None }
    }

    fn failing_at(expected: &[Trans], n: usize) -> Self {
        MockBus { expected: expected.to_vec(), pos: 0, fail_at: Some(n) }
    }

    fn step(&mut self) -> Result<Trans, BusFault> {
        assert!(self.pos < self.expected.len(), "unexpected transaction");
        let t = self.expected[self.pos].clone();
        let failed = self.fail_at == Some(self.pos);
        self.pos += 1;
        if failed {
            Err(BusFault)
        } else {
            Ok(t)
        }
    }

    fn done(&self) {
        assert_eq!(self.pos, self.expected.len(), "not all transactions were issued");
    }
}

impl I2cBus for MockBus {
    type Error = BusFault;

    fn write(&mut self, address: u8, bytes: &[u8]) -> Result<(), BusFault> {
        let pos = self.pos;
        let expected = self.expected.get(pos).cloned();
        assert_eq!(expected, Some(Trans::Write(address, bytes.to_vec())));
        self.step().map(|_| ())
    }

    fn write_read(&mut self, address: u8, bytes: &[u8], buffer: &mut [u8]) -> Result<(), BusFault> {
        match self.expected.get(self.pos).cloned() {
            Some(Trans::WriteRead(a, w, r)) => {
                assert_eq!((a, w.as_slice()), (address, bytes));
                self.step()?;
                buffer.copy_from_slice(&r);
                Ok(())
            }
            other => panic!("expected {:?}, got a write-read", other),
        }
    }
}

struct CountingDelay {
    calls: Vec<u32>,
}

impl DelayUs for CountingDelay {
    fn delay_us(&mut self, us: u32) {
        self.calls.push(us);
    }
}

fn write(bytes: Vec<u8>) -> Trans {
    Trans::Write(DEV_ADDR, bytes)
}

fn write_read(out: Vec<u8>, read: Vec<u8>) -> Trans {
    Trans::WriteRead(DEV_ADDR, out, read)
}

fn new(transactions: &[Trans]) -> Pca9685<MockBus> {
    Pca9685::new(MockBus::new(transactions), DEV_ADDR).unwrap()
}

fn destroy(pwm: Pca9685<MockBus>) {
    pwm.destroy().done();
}

fn assert_invalid_input_data<T, E>(result: Result<T, Error<E>>) {
    match result {
        Err(Error::InvalidInputData) => (),
        _ => panic!("Error::InvalidInputData not returned."),
    }
}

fn assert_bus_error<T: std::fmt::Debug>(result: Result<T, Error<BusFault>>) {
    match result {
        Err(Error::I2C(BusFault)) => (),
        other => panic!("bus error not returned: {:?}", other.is_ok()),
    }
}

#[test]
fn check_assert_matches() {
    assert_invalid_input_data::<(), ()>(Err(Error::InvalidInputData));
}

#[test]
#[should_panic]
fn check_assert_fails() {
    assert_invalid_input_data::<(), ()>(Ok(()));
}

// Lifecycle and addressing

#[test]
fn can_create_and_destroy() {
    let pwm = new(&[]);
    destroy(pwm);
}

#[test]
fn cannot_create_with_invalid_address() {
    for a in [0u8, 0x80, 0b111_0000, 0b000_0011, 0b000_0100] {
        assert_invalid_input_data(Pca9685::new(MockBus::new(&[]), a).map(|_| ()));
    }
}

#[test]
fn can_create_with_valid_addresses() {
    for a in [0x71u8, 0b100_0000, 0b000_1000, 0x7F] {
        assert!(Pca9685::new(MockBus::new(&[]), a).is_ok());
    }
}

#[test]
fn cannot_set_address_0() {
    let mut pwm = new(&[]);
    assert_invalid_input_data(pwm.set_address(0));
    destroy(pwm);
}

#[test]
fn cannot_set_address_too_big() {
    let mut pwm = new(&[]);
    assert_invalid_input_data(pwm.set_address(0x80));
    destroy(pwm);
}

#[test]
fn cannot_set_address_led_all_call() {
    let mut pwm = new(&[]);
    assert_invalid_input_data(pwm.set_address(0b111_0000));
    destroy(pwm);
}

#[test]
fn cannot_set_address_sw_reset() {
    let mut pwm = new(&[]);
    assert_invalid_input_data(pwm.set_address(0b00_0011));
    destroy(pwm);
}

#[test]
fn cannot_set_address_high_speed() {
    let mut pwm = new(&[]);
    assert_invalid_input_data(pwm.set_address(0b00_0100));
    destroy(pwm);
}

#[test]
fn changed_address_is_used() {
    let trans = [Trans::Write(0x71, vec![PRE_SCALE, 3])];
    let mut pwm = new(&trans);
    pwm.set_address(0x71).unwrap();
    pwm.set_prescale(3).unwrap();
    destroy(pwm);
}

#[test]
fn invalid_address_change_keeps_old_address() {
    let trans = [write(vec![PRE_SCALE, 3])];
    let mut pwm = new(&trans);
    assert_invalid_input_data(pwm.set_address(0x80));
    pwm.set_prescale(3).unwrap();
    destroy(pwm);
}

const SLOTS: [(ProgAddr, u8, u8); 4] = [
    (ProgAddr::Subaddress1, SUBADDR1, BitFlags::SUBADDR1),
    (ProgAddr::Subaddress2, SUBADDR2, BitFlags::SUBADDR2),
    (ProgAddr::Subaddress3, SUBADDR3, BitFlags::SUBADDR3),
    (ProgAddr::AllCall, ALL_CALL_ADDR, BitFlags::ALL_CALL_ADDR),
];

#[test]
fn cannot_set_invalid_programmable_address() {
    for (slot, _, _) in SLOTS {
        let mut pwm = new(&[]);
        assert_invalid_input_data(pwm.set_programmable_address(slot, 0));
        destroy(pwm);
    }
}

#[test]
fn can_set_programmable_address() {
    for (slot, reg, _) in SLOTS {
        let mut pwm = new(&[write(vec![reg, 0x71])]);
        pwm.set_programmable_address(slot, 0x71).unwrap();
        destroy(pwm);
    }
}

#[test]
fn can_enable_programmable_address() {
    for (slot, _, bit) in SLOTS {
        let mut pwm = new(&[write(vec![MODE1, MODE1_DEFAULT | bit])]);
        pwm.enable_programmable_address(slot).unwrap();
        destroy(pwm);
    }
}

#[test]
fn can_disable_programmable_address() {
    for (slot, _, bit) in SLOTS {
        let mut pwm = new(&[write(vec![MODE1, MODE1_DEFAULT & !bit])]);
        pwm.disable_programmable_address(slot).unwrap();
        destroy(pwm);
    }
}

// Power, clock and output configuration

#[test]
fn can_enable() {
    let mut pwm = new(&[write(vec![MODE1, MODE1_DEFAULT & !BitFlags::SLEEP])]);
    pwm.enable().unwrap();
    destroy(pwm);
}

#[test]
fn can_disable() {
    let mut pwm = new(&[write(vec![MODE1, MODE1_DEFAULT])]);
    pwm.disable().unwrap();
    destroy(pwm);
}

#[test]
fn failed_enable_keeps_shadow() {
    let trans = [
        write(vec![MODE1, MODE1_DEFAULT & !BitFlags::SLEEP]),
        write(vec![PRE_SCALE, 3]),
    ];
    let mut pwm = Pca9685::new(MockBus::failing_at(&trans, 0), DEV_ADDR).unwrap();
    assert_bus_error(pwm.enable());
    // Still asleep in the shadow: the prescale is written without a bracket.
    pwm.set_prescale(3).unwrap();
    destroy(pwm);
}

#[test]
fn can_set_direct_ols() {
    let mut pwm = new(&[write(vec![MODE2, MODE2_DEFAULT])]);
    pwm.set_output_logic_state(OutputLogicState::Direct).unwrap();
    destroy(pwm);
}

#[test]
fn can_set_inverted_ols() {
    let mut pwm = new(&[write(vec![MODE2, MODE2_DEFAULT | BitFlags::INVRT])]);
    pwm.set_output_logic_state(OutputLogicState::Inverted).unwrap();
    destroy(pwm);
}

#[test]
fn can_set_out_change_on_stop() {
    let mut pwm = new(&[write(vec![MODE2, MODE2_DEFAULT])]);
    pwm.set_output_change_behavior(OutputStateChange::OnStop).unwrap();
    destroy(pwm);
}

#[test]
fn can_set_out_change_on_ack() {
    let mut pwm = new(&[write(vec![MODE2, MODE2_DEFAULT | BitFlags::OCH])]);
    pwm.set_output_change_behavior(OutputStateChange::OnAck).unwrap();
    destroy(pwm);
}

#[test]
fn can_set_out_driver_totem_pole() {
    let mut pwm = new(&[write(vec![MODE2, MODE2_DEFAULT | BitFlags::OUT_DRV])]);
    pwm.set_output_driver(OutputDriver::TotemPole).unwrap();
    destroy(pwm);
}

#[test]
fn can_set_out_driver_open_drain() {
    let mut pwm = new(&[write(vec![MODE2, MODE2_DEFAULT & !BitFlags::OUT_DRV])]);
    pwm.set_output_driver(OutputDriver::OpenDrain).unwrap();
    destroy(pwm);
}

#[test]
fn can_set_dis_out_value_zero() {
    let mut pwm = new(&[write(vec![MODE2, MODE2_DEFAULT])]);
    pwm.set_disabled_output_value(DisabledOutputValue::Zero).unwrap();
    destroy(pwm);
}

#[test]
fn can_set_dis_out_value_out_driver() {
    let mut pwm = new(&[write(vec![MODE2, MODE2_DEFAULT | BitFlags::OUTNE0])]);
    pwm.set_disabled_output_value(DisabledOutputValue::OutputDriver).unwrap();
    destroy(pwm);
}

#[test]
fn can_set_dis_out_value_high_imp() {
    let mut pwm = new(&[write(vec![MODE2, MODE2_DEFAULT | BitFlags::OUTNE1])]);
    pwm.set_disabled_output_value(DisabledOutputValue::HighImpedance).unwrap();
    destroy(pwm);
}

#[test]
fn mode2_writes_accumulate_in_shadow() {
    let trans = [
        write(vec![MODE2, MODE2_DEFAULT | BitFlags::INVRT]),
        write(vec![MODE2, BitFlags::INVRT]),
    ];
    let mut pwm = new(&trans);
    pwm.set_output_logic_state(OutputLogicState::Inverted).unwrap();
    pwm.set_output_driver(OutputDriver::OpenDrain).unwrap();
    destroy(pwm);
}

#[test]
fn can_use_external_clock() {
    let trans = [
        write(vec![MODE1, MODE1_DEFAULT]),
        write(vec![MODE1, MODE1_DEFAULT | BitFlags::EXT_CLK]),
    ];
    let mut pwm = new(&trans);
    pwm.use_external_clock().unwrap();
    destroy(pwm);
}

#[test]
fn cannot_set_prescale_too_small() {
    let mut pwm = new(&[]);
    assert_invalid_input_data(pwm.set_prescale(2));
    destroy(pwm);
}

#[test]
fn can_set_prescale() {
    let trans = [write(vec![PRE_SCALE, 3])];
    let mut pwm = new(&trans);
    pwm.set_prescale(3).unwrap();
    destroy(pwm);
}

#[test]
fn set_prescale_stops_and_restarts_oscillator() {
    let trans = [
        write(vec![MODE1, MODE1_DEFAULT & !BitFlags::SLEEP]),
        write(vec![MODE1, MODE1_DEFAULT]),
        write(vec![PRE_SCALE, 3]),
        write(vec![MODE1, MODE1_DEFAULT & !BitFlags::SLEEP]),
    ];
    let mut pwm = new(&trans);
    pwm.enable().unwrap();
    pwm.set_prescale(3).unwrap();
    destroy(pwm);
}

#[test]
fn set_prescale_100_while_running_brackets_the_write() {
    let trans = [
        write(vec![MODE1, MODE1_DEFAULT & !BitFlags::SLEEP]),
        write(vec![MODE1, MODE1_DEFAULT]),
        write(vec![PRE_SCALE, 100]),
        write(vec![MODE1, MODE1_DEFAULT & !BitFlags::SLEEP]),
    ];
    let mut pwm = new(&trans);
    pwm.enable().unwrap();
    pwm.set_prescale(100).unwrap();
    destroy(pwm);
}

#[test]
fn set_prescale_100_while_stopped_writes_once() {
    let mut pwm = new(&[write(vec![PRE_SCALE, 100])]);
    pwm.set_prescale(100).unwrap();
    destroy(pwm);
}

#[test]
fn set_prescale_failure_leaves_oscillator_stopped_in_shadow() {
    let trans = [
        write(vec![MODE1, MODE1_DEFAULT & !BitFlags::SLEEP]),
        write(vec![MODE1, MODE1_DEFAULT]),
        write(vec![PRE_SCALE, 100]),
        write(vec![PRE_SCALE, 100]),
    ];
    let mut pwm = Pca9685::new(MockBus::failing_at(&trans, 2), DEV_ADDR).unwrap();
    pwm.enable().unwrap();
    assert_bus_error(pwm.set_prescale(100));
    // The shadow says the oscillator is stopped, so no bracket this time.
    pwm.set_prescale(100).unwrap();
    destroy(pwm);
}

#[test]
fn reset_internal_driver_state_restores_power_on_shadow() {
    let trans = [
        write(vec![MODE1, MODE1_DEFAULT & !BitFlags::SLEEP]),
        write(vec![MODE1, MODE1_DEFAULT & !BitFlags::SLEEP]),
    ];
    let mut pwm = new(&trans);
    pwm.enable().unwrap();
    pwm.reset_internal_driver_state();
    pwm.enable().unwrap();
    destroy(pwm);
}

// Channels

#[test]
fn cannot_set_channel_values_out_of_range() {
    let mut pwm = new(&[]);
    assert_invalid_input_data(pwm.set_channel_on(Channel::C0, 4096));
    assert_invalid_input_data(pwm.set_channel_full_on(Channel::C0, 4096));
    assert_invalid_input_data(pwm.set_channel_off(Channel::C0, 4096));
    assert_invalid_input_data(pwm.set_channel_on_off(Channel::C0, 4096, 0));
    assert_invalid_input_data(pwm.set_channel_on_off(Channel::C0, 0, 4096));
    assert_invalid_input_data(pwm.set_channel_on(Channel::All, u16::MAX));
    assert_invalid_input_data(pwm.set_all_on_off(&[4096; 16], &[0; 16]));
    assert_invalid_input_data(pwm.set_all_on_off(&[0; 16], &[4096; 16]));
    let mut on = [0; 16];
    on[15] = 4096;
    assert_invalid_input_data(pwm.set_all_on_off(&on, &[0; 16]));
    assert_invalid_input_data(pwm.set_all_channels(
        &[ChannelOnOffControl { on: 4096, ..Default::default() }; 16],
    ));
    assert_invalid_input_data(pwm.set_all_channels(
        &[ChannelOnOffControl { off: 4096, ..Default::default() }; 16],
    ));
    destroy(pwm);
}

#[test]
fn sets_autoincrement_just_once() {
    let trans = [
        write(vec![MODE1, MODE1_AI]),
        write(vec![ALL_C_ON_L, 0b1111_1111, 0b0000_1111]),
        write(vec![ALL_C_ON_L, 0b1111_1111, 0b0000_1111]),
    ];
    let mut pwm = new(&trans);
    pwm.set_channel_on(Channel::All, 4095).unwrap();
    pwm.set_channel_on(Channel::All, 4095).unwrap();
    destroy(pwm);
}

#[test]
fn failed_autoincrement_is_retried() {
    let trans = [
        write(vec![MODE1, MODE1_AI]),
        write(vec![MODE1, MODE1_AI]),
        write(vec![C0_ON_L, 1, 0]),
    ];
    let mut pwm = Pca9685::new(MockBus::failing_at(&trans, 0), DEV_ADDR).unwrap();
    assert_bus_error(pwm.set_channel_on(Channel::C0, 1));
    pwm.set_channel_on(Channel::C0, 1).unwrap();
    destroy(pwm);
}

#[test]
fn can_set_channel_on_min_and_max() {
    for (i, c) in CHANNELS.iter().enumerate() {
        let mut pwm = new(&[write(vec![MODE1, MODE1_AI]), write(vec![reg_on(i), 0, 0])]);
        pwm.set_channel_on(*c, 0).unwrap();
        destroy(pwm);
        let mut pwm = new(&[
            write(vec![MODE1, MODE1_AI]),
            write(vec![reg_on(i), 0b1111_1111, 0b0000_1111]),
        ]);
        pwm.set_channel_on(*c, 4095).unwrap();
        destroy(pwm);
    }
}

#[test]
fn can_set_channel_off_min_and_max() {
    for (i, c) in CHANNELS.iter().enumerate() {
        let mut pwm = new(&[write(vec![MODE1, MODE1_AI]), write(vec![reg_off(i), 0, 0])]);
        pwm.set_channel_off(*c, 0).unwrap();
        destroy(pwm);
        let mut pwm = new(&[
            write(vec![MODE1, MODE1_AI]),
            write(vec![reg_off(i), 0b1111_1111, 0b0000_1111]),
        ]);
        pwm.set_channel_off(*c, 4095).unwrap();
        destroy(pwm);
    }
}

#[test]
fn can_set_channel_full_on_min_and_max() {
    for (i, c) in CHANNELS.iter().enumerate() {
        let mut pwm = new(&[write(vec![MODE1, MODE1_AI]), write(vec![reg_on(i), 0, 0b0001_0000])]);
        pwm.set_channel_full_on(*c, 0).unwrap();
        destroy(pwm);
        let mut pwm = new(&[
            write(vec![MODE1, MODE1_AI]),
            write(vec![reg_on(i), 0b1111_1111, 0b0001_1111]),
        ]);
        pwm.set_channel_full_on(*c, 4095).unwrap();
        destroy(pwm);
    }
}

#[test]
fn can_set_channel_full_off() {
    for (i, c) in CHANNELS.iter().enumerate() {
        let mut pwm = new(&[write(vec![MODE1, MODE1_AI]), write(vec![reg_off(i), 0, 0b0001_0000])]);
        pwm.set_channel_full_off(*c).unwrap();
        destroy(pwm);
    }
}

#[test]
fn can_set_channel_on_off() {
    for (i, c) in CHANNELS.iter().enumerate() {
        let mut pwm = new(&[write(vec![MODE1, MODE1_AI]), write(vec![reg_on(i), 2, 1, 4, 3])]);
        pwm.set_channel_on_off(*c, 0x102, 0x304).unwrap();
        destroy(pwm);
    }
}

fn all_on_off_payload() -> Vec<u8> {
    vec![
        C0_ON_L, 1, 1, 3, 3, 2, 1, 4, 3, 3, 1, 5, 3, 4, 1, 6, 3, 5, 1, 7, 3, 6, 1, 8, 3, 7, 1, 9, 3,
        8, 1, 0, 4, 9, 1, 1, 4, 0, 2, 2, 4, 1, 2, 3, 4, 2, 2, 4, 4, 3, 2, 5, 4, 4, 2, 6, 4, 5, 2, 7,
        4, 6, 2, 8, 4,
    ]
}

const ON: [u16; 16] = [
    0x101, 0x102, 0x103, 0x104, 0x105, 0x106, 0x107, 0x108, 0x109, 0x200, 0x201, 0x202, 0x203, 0x204,
    0x205, 0x206,
];

const OFF: [u16; 16] = [
    0x303, 0x304, 0x305, 0x306, 0x307, 0x308, 0x309, 0x400, 0x401, 0x402, 0x403, 0x404, 0x405, 0x406,
    0x407, 0x408,
];

#[test]
fn can_set_all_on_off() {
    let trans = [write(vec![MODE1, MODE1_AI]), write(all_on_off_payload())];
    let mut pwm = new(&trans);
    pwm.set_all_on_off(&ON, &OFF).unwrap();
    destroy(pwm);
}

#[test]
fn can_set_all_channels() {
    const FULL_ON_OFF: u8 = 0b0001_0000;
    let mut payload = all_on_off_payload();
    payload[13 * 4 + 4] |= FULL_ON_OFF;
    payload[14 * 4 + 2] |= FULL_ON_OFF;
    payload[15 * 4 + 2] |= FULL_ON_OFF;
    payload[15 * 4 + 4] |= FULL_ON_OFF;
    let trans = [write(vec![MODE1, MODE1_AI]), write(payload)];
    let mut pwm = new(&trans);
    let mut values = [ChannelOnOffControl::default(); 16];
    for i in 0..16 {
        values[i].on = ON[i];
        values[i].off = OFF[i];
    }
    values[13].full_off = true;
    values[14].full_on = true;
    values[15].full_on = true;
    values[15].full_off = true;
    pwm.set_all_channels(&values).unwrap();
    destroy(pwm);
}

#[test]
fn channel_on_reads_back_value() {
    for v in [0u16, 1, 0x0ABC, 4095] {
        let bytes = vec![v as u8, (v >> 8) as u8];
        let trans = [
            write(vec![MODE1, MODE1_AI]),
            write(vec![ALL_C_ON_L, bytes[0], bytes[1]]),
            write_read(vec![ALL_C_ON_L], bytes.clone()),
        ];
        let mut pwm = new(&trans);
        pwm.set_channel_on(Channel::All, v).unwrap();
        assert_eq!(v, pwm.get_channel_on(Channel::All).unwrap());
        destroy(pwm);
    }
}

#[test]
fn channel_read_masks_override_bit() {
    let trans = [
        write(vec![MODE1, MODE1_AI]),
        write_read(vec![0x0A], vec![0xFF, 0x1F]),
        write_read(vec![0x0A], vec![0xFF, 0x1F]),
        write_read(vec![0x0C], vec![0x34, 0x02]),
    ];
    let mut pwm = new(&trans);
    assert_eq!(4095, pwm.get_channel_on(Channel::C1).unwrap());
    assert!(pwm.get_channel_full_on(Channel::C1).unwrap());
    assert_eq!(0x234, pwm.get_channel_off(Channel::C1).unwrap());
    destroy(pwm);
}

#[test]
fn full_off_reads_set_until_cleared_by_off() {
    let trans = [
        write(vec![MODE1, MODE1_AI]),
        write(vec![0x08, 0, 0x10]),
        write_read(vec![0x08], vec![0, 0x10]),
        write(vec![0x08, 0x00, 0x08]),
        write_read(vec![0x08], vec![0x00, 0x08]),
    ];
    let mut pwm = new(&trans);
    pwm.set_channel_full_off(Channel::C0).unwrap();
    assert!(pwm.get_channel_full_off(Channel::C0).unwrap());
    pwm.set_channel_off(Channel::C0, 0x800).unwrap();
    assert!(!pwm.get_channel_full_off(Channel::C0).unwrap());
    destroy(pwm);
}

#[test]
fn can_get_channel_on_off() {
    let trans = [write(vec![MODE1, MODE1_AI]), write_read(vec![0x42], vec![2, 0x11, 4, 0x13])];
    let mut pwm = new(&trans);
    assert_eq!((0x102, 0x304), pwm.get_channel_on_off(Channel::C15).unwrap());
    destroy(pwm);
}

#[test]
fn all_on_off_round_trip() {
    let payload = all_on_off_payload();
    let trans = [
        write(vec![MODE1, MODE1_AI]),
        write(payload.clone()),
        write_read(vec![C0_ON_L], payload[1..].to_vec()),
    ];
    let mut pwm = new(&trans);
    pwm.set_all_on_off(&ON, &OFF).unwrap();
    assert_eq!((ON, OFF), pwm.get_all_on_off().unwrap());
    destroy(pwm);
}

#[test]
fn read_failure_is_a_bus_error() {
    let trans = [write(vec![MODE1, MODE1_AI]), write_read(vec![0x06], vec![0, 0])];
    let mut pwm = Pca9685::new(MockBus::failing_at(&trans, 1), DEV_ADDR).unwrap();
    assert_bus_error(pwm.get_channel_on(Channel::C0));
    destroy(pwm);
}

// Restart

fn new_delay() -> CountingDelay {
    CountingDelay { calls: Vec::new() }
}

#[test]
fn restart_is_only_set_once() {
    let trans = [
        write(vec![MODE1, MODE1_DEFAULT | BitFlags::SLEEP | BitFlags::RESTART]),
        write(vec![MODE1, MODE1_DEFAULT | BitFlags::SLEEP | BitFlags::SUBADDR1]),
    ];
    let mut pwm = new(&trans);
    pwm.enable_restart_and_disable().unwrap();
    pwm.enable_programmable_address(ProgAddr::Subaddress1).unwrap();
    destroy(pwm);
}

#[test]
fn can_enable_restart_and_disable() {
    let trans = [write(vec![MODE1, MODE1_DEFAULT | BitFlags::SLEEP | BitFlags::RESTART])];
    let mut pwm = new(&trans);
    pwm.enable_restart_and_disable().unwrap();
    destroy(pwm);
}

#[test]
fn restart_does_nothing_if_not_enabled() {
    let trans = [write_read(vec![MODE1], vec![MODE1_DEFAULT])];
    let mut delay = new_delay();
    let mut pwm = new(&trans);
    pwm.restart(&mut delay).unwrap();
    assert!(delay.calls.is_empty());
    destroy(pwm);
}

#[test]
fn restart_nonblocking_does_nothing_if_not_enabled() {
    let trans = [write_read(vec![MODE1], vec![MODE1_DEFAULT])];
    let mut pwm = new(&trans);
    pwm.restart_nonblocking().unwrap();
    destroy(pwm);
}

#[test]
fn can_disable_then_restart() {
    let trans = [
        write(vec![MODE1, MODE1_DEFAULT | BitFlags::SLEEP | BitFlags::RESTART]),
        write_read(vec![MODE1], vec![MODE1_DEFAULT | BitFlags::SLEEP | BitFlags::RESTART]),
        write(vec![MODE1, MODE1_DEFAULT & !BitFlags::SLEEP]),
        write(vec![MODE1, MODE1_DEFAULT & !BitFlags::SLEEP | BitFlags::RESTART]),
    ];
    let mut pwm = new(&trans);
    pwm.enable_restart_and_disable().unwrap();
    let mut delay = new_delay();
    pwm.restart(&mut delay).unwrap();
    assert_eq!(vec![500], delay.calls);
    destroy(pwm);
}

#[test]
fn restart_returns_running_shadow_to_its_former_value() {
    let running = MODE1_DEFAULT & !BitFlags::SLEEP;
    let trans = [
        write(vec![MODE1, running]),
        write(vec![MODE1, running | BitFlags::SLEEP | BitFlags::RESTART]),
        write_read(vec![MODE1], vec![running | BitFlags::SLEEP | BitFlags::RESTART]),
        write(vec![MODE1, running]),
        write(vec![MODE1, running | BitFlags::RESTART]),
        write(vec![MODE1, running | BitFlags::SLEEP]),
    ];
    let mut pwm = new(&trans);
    pwm.enable().unwrap();
    pwm.enable_restart_and_disable().unwrap();
    let mut delay = new_delay();
    pwm.restart(&mut delay).unwrap();
    assert_eq!(vec![500], delay.calls);
    // The shadow is `running` again, without the restart bit.
    pwm.disable().unwrap();
    destroy(pwm);
}

#[test]
fn can_disable_then_restart_nonblocking() {
    let trans = [
        write(vec![MODE1, MODE1_DEFAULT | BitFlags::SLEEP | BitFlags::RESTART]),
        write_read(vec![MODE1], vec![MODE1_DEFAULT | BitFlags::SLEEP | BitFlags::RESTART]),
        write(vec![MODE1, MODE1_DEFAULT & !BitFlags::SLEEP]),
        write_read(vec![MODE1], vec![MODE1_DEFAULT & !BitFlags::SLEEP | BitFlags::RESTART]),
        write(vec![MODE1, MODE1_DEFAULT & !BitFlags::SLEEP | BitFlags::RESTART]),
    ];
    let mut pwm = new(&trans);
    pwm.enable_restart_and_disable().unwrap();
    assert!(matches!(pwm.restart_nonblocking(), Err(nb::Error::WouldBlock)));
    pwm.restart_nonblocking().unwrap();
    destroy(pwm);
}

#[test]
fn restart_nonblocking_passes_bus_errors_on() {
    let trans = [write_read(vec![MODE1], vec![MODE1_DEFAULT])];
    let mut pwm = Pca9685::new(MockBus::failing_at(&trans, 0), DEV_ADDR).unwrap();
    assert!(matches!(pwm.restart_nonblocking(), Err(nb::Error::Other(Error::I2C(BusFault)))));
    destroy(pwm);
}
