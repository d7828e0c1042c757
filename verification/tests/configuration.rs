use embedded_hal::i2c::{ErrorKind, I2c};
use embedded_hal_mock::eh1::i2c::{Mock as I2cMock, Transaction as I2cTransaction};
use tmp1x2::marker::mode::{Continuous, OneShot};
use tmp1x2::{
    AlertPolarity as AP, BitFlagsHigh as BFH, BitFlagsLow as BFL, Config, ConversionRate as CR,
    Error, FaultQueue as FQ, ModeChangeError, ModeStep, Register, RegisterU16, SlaveAddr,
    ThermostatMode as TM, Tmp1x2, WriteEvent, WriteStep,
};

const DEVICE_ADDRESS: u8 = 0b100_1000;
const DEFAULT_MSB: u8 = BFH::RESOLUTION;
const DEFAULT_LSB: u8 = BFL::CONV_RATE1 | BFL::ALERT;

fn setup(expectations: &[I2cTransaction]) -> Tmp1x2<I2cMock, Continuous> {
    let i2c = I2cMock::new(expectations);
    Tmp1x2::new(i2c, SlaveAddr::default())
}

fn get_write_expectation(register: u8, lsb: u8, msb: u8) -> [I2cTransaction; 1] {
    [I2cTransaction::write(
        DEVICE_ADDRESS,
        vec![register, msb, lsb],
    )]
}

/// Degrees Celsius as the micro-degrees that the library takes.
fn micro(t: f32) -> i32 {
    (t as f64 * 1_000_000.0) as i32
}

/// Run a writing operation to its end on the bus that the handle owns.
fn write<M>(
    dev: &mut Tmp1x2<I2cMock, M>,
    op: impl Fn(&mut Tmp1x2<I2cMock, M>, WriteEvent<ErrorKind>) -> WriteStep<ErrorKind>,
) -> Result<(), Error<ErrorKind>> {
    let mut event = WriteEvent::Start;
    loop {
        match op(dev, event) {
            WriteStep::Write(write) => {
                event = WriteEvent::Written(dev.bus().write(write.address, &write.frame()));
            }
            WriteStep::Done(result) => return result,
        }
    }
}

fn into_one_shot(
    dev: Tmp1x2<I2cMock, Continuous>,
) -> Result<Tmp1x2<I2cMock, OneShot>, ModeChangeError<ErrorKind, Tmp1x2<I2cMock, Continuous>>> {
    let mut dev = dev;
    let mut event = WriteEvent::Start;
    loop {
        match dev.into_one_shot(event) {
            ModeStep::Write(back, write) => {
                dev = back;
                event = WriteEvent::Written(dev.bus().write(write.address, &write.frame()));
            }
            ModeStep::Done(result) => return result,
        }
    }
}

fn into_continuous(
    dev: Tmp1x2<I2cMock, OneShot>,
) -> Result<Tmp1x2<I2cMock, Continuous>, ModeChangeError<ErrorKind, Tmp1x2<I2cMock, OneShot>>> {
    let mut dev = dev;
    let mut event = WriteEvent::Start;
    loop {
        match dev.into_continuous(event) {
            ModeStep::Write(back, write) => {
                dev = back;
                event = WriteEvent::Written(dev.bus().write(write.address, &write.frame()));
            }
            ModeStep::Done(result) => return result,
        }
    }
}

#[test]
fn can_change_into_one_shot() {
    let expectations = [I2cTransaction::write(
        DEVICE_ADDRESS,
        vec![Register::CONFIG, DEFAULT_MSB | 1, DEFAULT_LSB],
    )];
    let dev = setup(&expectations);
    let dev = into_one_shot(dev).unwrap();
    dev.destroy().done();
}

#[test]
fn can_change_into_continuous() {
    let expectations = [
        I2cTransaction::write(
            DEVICE_ADDRESS,
            vec![Register::CONFIG, DEFAULT_MSB | 1, DEFAULT_LSB],
        ),
        I2cTransaction::write(
            DEVICE_ADDRESS,
            vec![Register::CONFIG, DEFAULT_MSB, DEFAULT_LSB],
        ),
    ];
    let dev = setup(&expectations);
    let dev = into_one_shot(dev).unwrap();
    let dev = into_continuous(dev).unwrap();
    dev.destroy().done();
}

#[test]
fn can_enable_extended_mode() {
    let expectations =
        get_write_expectation(Register::CONFIG, DEFAULT_LSB | BFL::EXTENDED_MODE, DEFAULT_MSB);
    let mut dev = setup(&expectations);
    write(&mut dev, |dev, event| dev.enable_extended_mode(event)).unwrap();
    dev.destroy().done();
}

#[test]
fn can_disable_extended_mode() {
    let expectations = get_write_expectation(Register::CONFIG, DEFAULT_LSB, DEFAULT_MSB);
    let mut dev = setup(&expectations);
    write(&mut dev, |dev, event| dev.disable_extended_mode(event)).unwrap();
    dev.destroy().done();
}

fn config_value_test(
    op: impl Fn(&mut Tmp1x2<I2cMock, Continuous>, WriteEvent<ErrorKind>) -> WriteStep<ErrorKind>,
    expected_lsb: u8,
    expected_msb: u8,
) {
    let expectations = get_write_expectation(Register::CONFIG, expected_lsb, expected_msb);
    let mut dev = setup(&expectations);
    write(&mut dev, op).unwrap();
    assert_eq!(RegisterU16 { msb: expected_msb, lsb: expected_lsb }, dev.config());
    dev.destroy().done();
}

#[test]
fn can_set_cr_0_25() {
    config_value_test(
        |dev, event| dev.set_conversion_rate(CR::_0_25Hz, event),
        DEFAULT_LSB & !BFL::CONV_RATE1 & !BFL::CONV_RATE0,
        DEFAULT_MSB,
    );
}

#[test]
fn can_set_cr_1() {
    config_value_test(
        |dev, event| dev.set_conversion_rate(CR::_1Hz, event),
        DEFAULT_LSB & !BFL::CONV_RATE1 | BFL::CONV_RATE0,
        DEFAULT_MSB,
    );
}

#[test]
fn can_set_cr_4() {
    config_value_test(
        |dev, event| dev.set_conversion_rate(CR::_4Hz, event),
        DEFAULT_LSB | BFL::CONV_RATE1 & !BFL::CONV_RATE0,
        DEFAULT_MSB,
    );
}

#[test]
fn can_set_cr_8() {
    config_value_test(
        |dev, event| dev.set_conversion_rate(CR::_8Hz, event),
        DEFAULT_LSB | BFL::CONV_RATE1 | BFL::CONV_RATE0,
        DEFAULT_MSB,
    );
}

#[test]
fn can_set_fq_1() {
    config_value_test(
        |dev, event| dev.set_fault_queue(FQ::_1, event),
        DEFAULT_LSB,
        DEFAULT_MSB & !BFH::FAULT_QUEUE1 & !BFH::FAULT_QUEUE0,
    );
}

#[test]
fn can_set_fq_2() {
    config_value_test(
        |dev, event| dev.set_fault_queue(FQ::_2, event),
        DEFAULT_LSB,
        DEFAULT_MSB & !BFH::FAULT_QUEUE1 | BFH::FAULT_QUEUE0,
    );
}

#[test]
fn can_set_fq_4() {
    config_value_test(
        |dev, event| dev.set_fault_queue(FQ::_4, event),
        DEFAULT_LSB,
        DEFAULT_MSB | BFH::FAULT_QUEUE1 & !BFH::FAULT_QUEUE0,
    );
}

#[test]
fn can_set_fq_6() {
    config_value_test(
        |dev, event| dev.set_fault_queue(FQ::_6, event),
        DEFAULT_LSB,
        DEFAULT_MSB | BFH::FAULT_QUEUE1 | BFH::FAULT_QUEUE0,
    );
}

#[test]
fn can_set_ap_low() {
    config_value_test(
        |dev, event| dev.set_alert_polarity(AP::ActiveLow, event),
        DEFAULT_LSB,
        DEFAULT_MSB & !BFH::ALERT_POLARITY,
    );
}

#[test]
fn can_set_ap_high() {
    config_value_test(
        |dev, event| dev.set_alert_polarity(AP::ActiveHigh, event),
        DEFAULT_LSB,
        DEFAULT_MSB | BFH::ALERT_POLARITY,
    );
}

#[test]
fn can_set_tm_comp() {
    config_value_test(
        |dev, event| dev.set_thermostat_mode(TM::Comparator, event),
        DEFAULT_LSB,
        DEFAULT_MSB & !BFH::THERMOSTAT,
    );
}

#[test]
fn can_set_tm_int() {
    config_value_test(
        |dev, event| dev.set_thermostat_mode(TM::Interrupt, event),
        DEFAULT_LSB,
        DEFAULT_MSB | BFH::THERMOSTAT,
    );
}

fn set_value_test(
    op: impl Fn(&mut Tmp1x2<I2cMock, Continuous>, WriteEvent<ErrorKind>) -> WriteStep<ErrorKind>,
    register: u8,
    expected_lsb: u8,
    expected_msb: u8,
) {
    let expectations = get_write_expectation(register, expected_lsb, expected_msb);
    let mut dev = setup(&expectations);
    write(&mut dev, op).unwrap();
    assert_eq!(Config::default(), dev.config());
    dev.destroy().done();
}

#[test]
fn can_set_high_temp_th_m0_25() {
    set_value_test(
        |dev, event| dev.set_high_temperature_threshold(micro(-0.25), event),
        Register::T_HIGH,
        0b1100_0000,
        0b1111_1111,
    );
}

#[test]
fn can_set_high_temp_th_127() {
    set_value_test(
        |dev, event| dev.set_high_temperature_threshold(micro(127.9375), event),
        Register::T_HIGH,
        0b1111_0000,
        0b0111_1111,
    );
}

#[test]
fn can_set_low_temp_th_m0_25() {
    set_value_test(
        |dev, event| dev.set_low_temperature_threshold(micro(-0.25), event),
        Register::T_LOW,
        0b1100_0000,
        0b1111_1111,
    );
}

#[test]
fn can_set_low_temp_th_127() {
    set_value_test(
        |dev, event| dev.set_low_temperature_threshold(micro(127.9375), event),
        Register::T_LOW,
        0b1111_0000,
        0b0111_1111,
    );
}

#[test]
fn can_set_extended_high_temp_threshold() {
    let expectations = [
        I2cTransaction::write(
            DEVICE_ADDRESS,
            vec![
                Register::CONFIG,
                DEFAULT_MSB,
                DEFAULT_LSB | BFL::EXTENDED_MODE,
            ],
        ),
        I2cTransaction::write(
            DEVICE_ADDRESS,
            vec![Register::T_HIGH, 0b0111_1111, 0b1111_0000],
        ),
    ];
    let mut dev = setup(&expectations);
    write(&mut dev, |dev, event| dev.enable_extended_mode(event)).unwrap();
    write(&mut dev, |dev, event| dev.set_high_temperature_threshold(micro(255.875), event))
        .unwrap();
    dev.destroy().done();
}

#[test]
fn threshold_format_follows_the_remembered_mode() {
    let expectations = [
        I2cTransaction::write(DEVICE_ADDRESS, vec![Register::T_LOW, 0b0011_0010, 0]),
        I2cTransaction::write(
            DEVICE_ADDRESS,
            vec![Register::CONFIG, DEFAULT_MSB, DEFAULT_LSB | BFL::EXTENDED_MODE],
        ),
        I2cTransaction::write(DEVICE_ADDRESS, vec![Register::T_LOW, 0b0001_1001, 0]),
        I2cTransaction::write(DEVICE_ADDRESS, vec![Register::T_HIGH, 0b0111_1111, 0b1111_0000]),
        I2cTransaction::write(DEVICE_ADDRESS, vec![Register::CONFIG, DEFAULT_MSB, DEFAULT_LSB]),
        I2cTransaction::write(DEVICE_ADDRESS, vec![Register::T_HIGH, 0b0111_1111, 0b1111_0000]),
    ];
    let mut dev = setup(&expectations);
    write(&mut dev, |dev, event| dev.set_low_temperature_threshold(micro(50.0), event)).unwrap();
    write(&mut dev, |dev, event| dev.enable_extended_mode(event)).unwrap();
    write(&mut dev, |dev, event| dev.set_low_temperature_threshold(micro(50.0), event)).unwrap();
    write(&mut dev, |dev, event| dev.set_high_temperature_threshold(micro(300.0), event))
        .unwrap();
    write(&mut dev, |dev, event| dev.disable_extended_mode(event)).unwrap();
    write(&mut dev, |dev, event| dev.set_high_temperature_threshold(micro(300.0), event))
        .unwrap();
    dev.destroy().done();
}

#[test]
fn a_field_is_replaced_whatever_it_held() {
    let expectations = [
        I2cTransaction::write(DEVICE_ADDRESS, vec![Register::CONFIG, DEFAULT_MSB, 0b1110_0000]),
        I2cTransaction::write(DEVICE_ADDRESS, vec![Register::CONFIG, DEFAULT_MSB, 0b1010_0000]),
        I2cTransaction::write(DEVICE_ADDRESS, vec![Register::CONFIG, 0b0111_1000, 0b1010_0000]),
        I2cTransaction::write(DEVICE_ADDRESS, vec![Register::CONFIG, 0b0111_0000, 0b1010_0000]),
        I2cTransaction::write(DEVICE_ADDRESS, vec![Register::CONFIG, 0b0110_1000, 0b1010_0000]),
    ];
    let mut dev = setup(&expectations);
    write(&mut dev, |dev, event| dev.set_conversion_rate(CR::_8Hz, event)).unwrap();
    write(&mut dev, |dev, event| dev.set_conversion_rate(CR::_4Hz, event)).unwrap();
    write(&mut dev, |dev, event| dev.set_fault_queue(FQ::_6, event)).unwrap();
    write(&mut dev, |dev, event| dev.set_fault_queue(FQ::_4, event)).unwrap();
    write(&mut dev, |dev, event| dev.set_fault_queue(FQ::_2, event)).unwrap();
    assert_eq!(RegisterU16 { msb: 0b0110_1000, lsb: 0b1010_0000 }, dev.config());
    dev.destroy().done();
}

#[test]
fn settings_accumulate_in_the_remembered_configuration() {
    let expectations = [
        I2cTransaction::write(DEVICE_ADDRESS, vec![Register::CONFIG, 0b0110_0100, 0b1010_0000]),
        I2cTransaction::write(DEVICE_ADDRESS, vec![Register::CONFIG, 0b0110_0110, 0b1010_0000]),
        I2cTransaction::write(DEVICE_ADDRESS, vec![Register::CONFIG, 0b0110_0110, 0b1011_0000]),
        I2cTransaction::write(DEVICE_ADDRESS, vec![Register::CONFIG, 0b0110_0111, 0b1011_0000]),
        I2cTransaction::write(DEVICE_ADDRESS, vec![Register::CONFIG, 0b0110_0110, 0b1011_0000]),
    ];
    let mut dev = setup(&expectations);
    write(&mut dev, |dev, event| dev.set_alert_polarity(AP::ActiveHigh, event)).unwrap();
    write(&mut dev, |dev, event| dev.set_thermostat_mode(TM::Interrupt, event)).unwrap();
    write(&mut dev, |dev, event| dev.enable_extended_mode(event)).unwrap();
    write(&mut dev, |dev, event| dev.config_one_shot(event)).unwrap();
    write(&mut dev, |dev, event| dev.config_continuous(event)).unwrap();
    assert_eq!(RegisterU16 { msb: 0b0110_0110, lsb: 0b1011_0000 }, dev.config());
    dev.destroy().done();
}

#[test]
fn failed_setter_leaves_the_configuration_as_it_was() {
    let expectations = [
        I2cTransaction::write(
            DEVICE_ADDRESS,
            vec![Register::CONFIG, DEFAULT_MSB, DEFAULT_LSB | BFL::CONV_RATE0],
        )
        .with_error(ErrorKind::Bus),
        I2cTransaction::write(
            DEVICE_ADDRESS,
            vec![Register::CONFIG, DEFAULT_MSB | BFH::FAULT_QUEUE0, DEFAULT_LSB],
        )
        .with_error(ErrorKind::Overrun),
        I2cTransaction::write(
            DEVICE_ADDRESS,
            vec![Register::CONFIG, DEFAULT_MSB, DEFAULT_LSB | BFL::EXTENDED_MODE],
        )
        .with_error(ErrorKind::Other),
        I2cTransaction::write(
            DEVICE_ADDRESS,
            vec![Register::CONFIG, DEFAULT_MSB | BFH::ALERT_POLARITY, DEFAULT_LSB],
        )
        .with_error(ErrorKind::ArbitrationLoss),
        I2cTransaction::write(
            DEVICE_ADDRESS,
            vec![Register::CONFIG, DEFAULT_MSB | BFH::THERMOSTAT, DEFAULT_LSB],
        )
        .with_error(ErrorKind::Bus),
        I2cTransaction::write(DEVICE_ADDRESS, vec![Register::T_HIGH, 0b0011_0010, 0])
            .with_error(ErrorKind::Bus),
    ];
    let mut dev = setup(&expectations);
    assert_eq!(
        Err(Error::I2C(ErrorKind::Bus)),
        write(&mut dev, |dev, event| dev.set_conversion_rate(CR::_8Hz, event))
    );
    assert_eq!(Config::default(), dev.config());
    assert_eq!(
        Err(Error::I2C(ErrorKind::Overrun)),
        write(&mut dev, |dev, event| dev.set_fault_queue(FQ::_2, event))
    );
    assert_eq!(Config::default(), dev.config());
    assert_eq!(
        Err(Error::I2C(ErrorKind::Other)),
        write(&mut dev, |dev, event| dev.enable_extended_mode(event))
    );
    assert_eq!(Config::default(), dev.config());
    assert_eq!(
        Err(Error::I2C(ErrorKind::ArbitrationLoss)),
        write(&mut dev, |dev, event| dev.set_alert_polarity(AP::ActiveHigh, event))
    );
    assert_eq!(Config::default(), dev.config());
    assert_eq!(
        Err(Error::I2C(ErrorKind::Bus)),
        write(&mut dev, |dev, event| dev.set_thermostat_mode(TM::Interrupt, event))
    );
    assert_eq!(Config::default(), dev.config());
    assert_eq!(
        Err(Error::I2C(ErrorKind::Bus)),
        write(&mut dev, |dev, event| dev.set_high_temperature_threshold(micro(50.0), event))
    );
    assert_eq!(Config::default(), dev.config());
    dev.destroy().done();
}

#[test]
fn every_setter_asks_for_one_write_of_three_bytes() {
    let mut dev = Tmp1x2::new((), SlaveAddr::default());
    let steps: [WriteStep<()>; 9] = [
        dev.enable_extended_mode(WriteEvent::Start),
        dev.disable_extended_mode(WriteEvent::Start),
        dev.set_conversion_rate(CR::_1Hz, WriteEvent::Start),
        dev.set_fault_queue(FQ::_4, WriteEvent::Start),
        dev.set_alert_polarity(AP::ActiveHigh, WriteEvent::Start),
        dev.set_thermostat_mode(TM::Interrupt, WriteEvent::Start),
        dev.set_high_temperature_threshold(micro(1.0), WriteEvent::Start),
        dev.set_low_temperature_threshold(micro(1.0), WriteEvent::Start),
        dev.config_one_shot(WriteEvent::Start),
    ];
    for step in steps {
        match step {
            WriteStep::Write(write) => {
                assert_eq!(3, write.frame().len());
                assert_eq!(DEVICE_ADDRESS, write.address);
                assert_eq!([write.register, write.data.msb, write.data.lsb], write.frame());
            }
            WriteStep::Done(_) => panic!(),
        }
    }
    assert_eq!(Config::default(), dev.config());
    assert_eq!(
        WriteStep::Done(Ok(())),
        dev.set_conversion_rate::<()>(CR::_1Hz, WriteEvent::Written(Ok(())))
    );
    assert_eq!(RegisterU16 { msb: DEFAULT_MSB, lsb: 0b0110_0000 }, dev.config());
    assert_eq!(
        WriteStep::Done(Err(Error::I2C(5u8))),
        dev.set_conversion_rate(CR::_8Hz, WriteEvent::Written(Err(5u8)))
    );
    assert_eq!(RegisterU16 { msb: DEFAULT_MSB, lsb: 0b0110_0000 }, dev.config());
}

#[test]
fn failed_change_into_one_shot_returns_the_handle_unchanged() {
    let expectations = [
        I2cTransaction::write(
            DEVICE_ADDRESS,
            vec![Register::CONFIG, DEFAULT_MSB, DEFAULT_LSB | BFL::EXTENDED_MODE],
        ),
        I2cTransaction::write(
            DEVICE_ADDRESS,
            vec![Register::CONFIG, DEFAULT_MSB | BFH::SHUTDOWN, DEFAULT_LSB | BFL::EXTENDED_MODE],
        )
        .with_error(ErrorKind::Bus),
        I2cTransaction::write_read(DEVICE_ADDRESS, vec![Register::TEMPERATURE], vec![0x19, 0x01]),
    ];
    let mut dev = setup(&expectations);
    write(&mut dev, |dev, event| dev.enable_extended_mode(event)).unwrap();
    match into_one_shot(dev) {
        Err(ModeChangeError::I2C(error, mut dev)) => {
            assert_eq!(ErrorKind::Bus, error);
            assert_eq!(
                RegisterU16 { msb: DEFAULT_MSB, lsb: DEFAULT_LSB | BFL::EXTENDED_MODE },
                dev.config()
            );
            assert_eq!(DEVICE_ADDRESS, dev.address());
            assert!(!dev.conversion_started());
            let mut data = [0u8; 2];
            dev.bus().write_read(DEVICE_ADDRESS, &[Register::TEMPERATURE], &mut data).unwrap();
            assert_eq!([0x19, 0x01], data);
            dev.destroy().done();
        }
        Ok(_) => panic!(),
    }
}

#[test]
fn failed_change_into_continuous_returns_the_handle_unchanged() {
    let expectations = [
        I2cTransaction::write(
            DEVICE_ADDRESS,
            vec![Register::CONFIG, DEFAULT_MSB | BFH::SHUTDOWN, DEFAULT_LSB],
        ),
        I2cTransaction::write(DEVICE_ADDRESS, vec![Register::CONFIG, DEFAULT_MSB, DEFAULT_LSB])
            .with_error(ErrorKind::Other),
    ];
    let dev = into_one_shot(setup(&expectations)).unwrap();
    match into_continuous(dev) {
        Err(ModeChangeError::I2C(error, dev)) => {
            assert_eq!(ErrorKind::Other, error);
            assert_eq!(
                RegisterU16 { msb: DEFAULT_MSB | BFH::SHUTDOWN, lsb: DEFAULT_LSB },
                dev.config()
            );
            dev.destroy().done();
        }
        Ok(_) => panic!(),
    }
}

#[test]
fn reset_touches_only_the_remembered_configuration() {
    let expectations = [
        I2cTransaction::write(
            DEVICE_ADDRESS,
            vec![Register::CONFIG, DEFAULT_MSB, DEFAULT_LSB | BFL::EXTENDED_MODE],
        ),
        I2cTransaction::write(
            DEVICE_ADDRESS,
            vec![Register::CONFIG, DEFAULT_MSB | BFH::THERMOSTAT, DEFAULT_LSB],
        ),
    ];
    let mut dev = setup(&expectations);
    write(&mut dev, |dev, event| dev.enable_extended_mode(event)).unwrap();
    dev.reset_internal_driver_state();
    assert_eq!(Config::default(), dev.config());
    assert_eq!(DEVICE_ADDRESS, dev.address());
    write(&mut dev, |dev, event| dev.set_thermostat_mode(TM::Interrupt, event)).unwrap();
    dev.destroy().done();
}

#[test]
fn raw_register_writes() {
    let expectations = [
        I2cTransaction::write(DEVICE_ADDRESS, vec![Register::T_LOW, 0x12, 0x30]),
        I2cTransaction::write(DEVICE_ADDRESS, vec![Register::CONFIG, 0x62, 0xB0]),
    ];
    let mut dev = setup(&expectations);
    let value = RegisterU16 { msb: 0x12, lsb: 0x30 };
    write(&mut dev, |dev, event| dev.write_register(Register::T_LOW, value, event)).unwrap();
    assert_eq!(Config::default(), dev.config());
    let config = RegisterU16 { msb: 0x62, lsb: 0xB0 };
    write(&mut dev, |dev, event| dev.write_config(config, event)).unwrap();
    assert_eq!(config, dev.config());
    dev.destroy().done();
}

#[test]
fn threshold_register_is_the_callers_choice() {
    let expectations = [
        I2cTransaction::write(DEVICE_ADDRESS, vec![Register::T_HIGH, 0x00, 0x10]),
        I2cTransaction::write(DEVICE_ADDRESS, vec![Register::T_LOW, 0xFF, 0xF0]),
    ];
    let mut dev = setup(&expectations);
    write(&mut dev, |dev, event| {
        dev.set_temperature_threshold(62_500, Register::T_HIGH, event)
    })
    .unwrap();
    write(&mut dev, |dev, event| {
        dev.set_temperature_threshold(-62_500, Register::T_LOW, event)
    })
    .unwrap();
    dev.destroy().done();
}
