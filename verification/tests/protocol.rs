use std::collections::VecDeque;

use mcp3424::cfg::Cfg;
use mcp3424::{
    Action, Channel, Configuration, ContinuousMode, ConversionTime, Error, Event, Gain, Mode,
    MultiShotMode, OneShotMode, Resolution, Voltage, MCP3424,
};

/// What the bus reports when it fails.
#[derive(Debug, PartialEq, Eq, Clone, Copy)]
enum Fault {
    NoAcknowledge,
    ArbitrationLoss,
}

/// A transaction that the bus expects.
#[derive(Debug)]
enum Transaction {
    Write(u8, Vec<u8>),
    Read(u8, Vec<u8>),
    WriteError(u8, Vec<u8>, Fault),
    ReadError(u8, Fault),
}

/// A bus that checks what is asked of it against a script.
struct Bus {
    expected: VecDeque<Transaction>,
}

impl Bus {
    fn new(expected: Vec<Transaction>) -> Self {
        Bus { expected: expected.into() }
    }

    fn write(&mut self, address: u8, bytes: &[u8]) -> Result<(), Fault> {
        match self.expected.pop_front() {
            Some(Transaction::Write(to, data)) => {
                assert_eq!((address, bytes), (to, &data[..]));
                Ok(())
            }
            Some(Transaction::WriteError(to, data, fault)) => {
                assert_eq!((address, bytes), (to, &data[..]));
                Err(fault)
            }
            other => panic!("write of {:?} to {}, expected {:?}", bytes, address, other),
        }
    }

    fn read(&mut self, address: u8, buffer: &mut [u8; 4]) -> Result<(), Fault> {
        match self.expected.pop_front() {
            Some(Transaction::Read(from, data)) => {
                assert_eq!(address, from);
                buffer.copy_from_slice(&data);
                Ok(())
            }
            Some(Transaction::ReadError(from, fault)) => {
                assert_eq!(address, from);
                Err(fault)
            }
            other => panic!("read from {}, expected {:?}", address, other),
        }
    }

    fn done(&self) {
        assert!(self.expected.is_empty(), "not done: {:?}", self.expected);
    }
}

/// A timer that records what it was asked to wait.
struct Timer {
    waited: Vec<u32>,
}

type Device<M> = MCP3424<Bus, Fault, Timer, M>;

fn device<M: Mode>(expected: Vec<Transaction>, mode: M) -> Device<M> {
    MCP3424::new(Bus::new(expected), 0x68, Timer { waited: Vec::new() }, mode)
}

/// How a run of the state machine ended.
#[derive(Debug, PartialEq)]
enum Outcome<T> {
    Ready,
    Return(Result<T, Error<Fault>>),
}

/// Does what the state machine asks for until it is done.
fn run<M, T>(
    device: &mut Device<M>,
    step: fn(&mut Device<M>, Event<Fault>) -> Action<T, Fault>,
    start: Event<Fault>,
) -> Outcome<T> {
    let mut action = step(device, start);
    loop {
        let event = match action {
            Action::Write(byte) => match device.i2c.write(device.address, &[byte]) {
                Ok(()) => Event::Written,
                Err(fault) => Event::Failed(fault),
            },
            Action::Delay(micros) => {
                device.delay.waited.push(micros);
                Event::Elapsed
            }
            Action::Read => {
                let mut buffer = [0u8; 4];
                match device.i2c.read(device.address, &mut buffer) {
                    Ok(()) => Event::Received(buffer),
                    Err(fault) => Event::Failed(fault),
                }
            }
            Action::Ready => return Outcome::Ready,
            Action::Return(result) => return Outcome::Return(result),
        };
        action = step(device, event);
    }
}

fn millivolts(voltage: Voltage) -> f32 {
    voltage.numerator as f32 / voltage.denominator as f32
}

fn measure_one_shot(device: &mut Device<OneShotMode>) -> Result<f32, Error<Fault>> {
    match run(device, Device::<OneShotMode>::step, Event::Measure) {
        Outcome::Return(result) => result.map(millivolts),
        Outcome::Ready => panic!("a measurement does not open a stream"),
    }
}

fn measure_continuous(device: &mut Device<ContinuousMode>) -> Result<f32, Error<Fault>> {
    match run(device, Device::<ContinuousMode>::step, Event::Measure) {
        Outcome::Return(result) => result.map(millivolts),
        Outcome::Ready => panic!("a measurement does not open a stream"),
    }
}

fn measure_multi_shot<const N: usize>(
    device: &mut Device<MultiShotMode<N>>,
) -> Result<[f32; N], Error<Fault>> {
    match run(device, Device::<MultiShotMode<N>>::step, Event::Measure) {
        Outcome::Return(result) => result.map(|values| values.map(millivolts)),
        Outcome::Ready => panic!("a measurement does not open a stream"),
    }
}

fn one_shot_cfg() -> Cfg {
    Cfg {
        ready: false,
        channel: Channel::Channel1,
        resolution: Resolution::TwelveBits,
        mode: mcp3424::cfg::Mode::OneShot,
        gain: Gain::X1,
    }
}

fn continuous_cfg() -> Cfg {
    Cfg {
        ready: true,
        channel: Channel::Channel1,
        resolution: Resolution::TwelveBits,
        mode: mcp3424::cfg::Mode::Continuous,
        gain: Gain::X1,
    }
}

#[test]
#[allow(non_snake_case)]
fn When_in_OneShotMode_a_MCP3424_should_trigger_a_single_conversion() {
    let expected_cfg = one_shot_cfg();
    let returned_cfg = Cfg { ready: true, ..expected_cfg };

    let mut testee = device(
        vec![
            Transaction::Write(0x68, vec![expected_cfg.as_byte()]),
            Transaction::Read(0x68, vec![0, 1, returned_cfg.as_byte(), 0]),
        ],
        OneShotMode::new(&Configuration::default()),
    );

    assert_eq!(measure_one_shot(&mut testee), Ok(1.0));

    testee.i2c.done();
}

#[test]
#[allow(non_snake_case)]
fn When_in_OneShotMode_a_MCP3424_should_return_an_error_if_there_is_no_data_available() {
    let expected_cfg = one_shot_cfg();
    let returned_cfg = Cfg { ready: false, ..expected_cfg };

    let mut testee = device(
        vec![
            Transaction::Write(0x68, vec![expected_cfg.as_byte()]),
            Transaction::Read(0x68, vec![0, 0, returned_cfg.as_byte(), 0]),
        ],
        OneShotMode::new(&Configuration::default()),
    );

    assert!(measure_one_shot(&mut testee).is_err());

    testee.i2c.done();
}

#[test]
#[allow(non_snake_case)]
fn When_in_ContinuousMode_a_MCP3424_should_trigger_conversion() {
    let expected_cfg = continuous_cfg();
    let returned_cfg = Cfg { ready: true, ..expected_cfg };

    let mut testee = device(
        vec![
            Transaction::Write(0x68, vec![expected_cfg.as_byte()]),
            Transaction::Read(0x68, vec![0, 1, returned_cfg.as_byte(), 0]),
            Transaction::Read(0x68, vec![0, 2, returned_cfg.as_byte(), 0]),
            Transaction::Read(0x68, vec![0, 3, returned_cfg.as_byte(), 0]),
        ],
        ContinuousMode::new(&Configuration::default()),
    );

    assert_eq!(measure_continuous(&mut testee), Ok(1.0));
    assert_eq!(measure_continuous(&mut testee), Ok(2.0));
    assert_eq!(measure_continuous(&mut testee), Ok(3.0));

    testee.i2c.done();
}

#[test]
#[allow(non_snake_case)]
fn When_in_MultiShotMode_a_MCP3424_should_trigger_a_multiple_conversions() {
    let expected_cfg = one_shot_cfg();
    let expected_cfg_1 = Cfg { channel: Channel::Channel2, ..expected_cfg };
    let expected_cfg_2 = Cfg { resolution: Resolution::SixteenBits, ..expected_cfg };
    let returned_cfg_1 = Cfg { ready: true, ..expected_cfg_1 };
    let returned_cfg_2 = Cfg { ready: true, ..expected_cfg_2 };

    let mut testee = device(
        vec![
            Transaction::Write(0x68, vec![expected_cfg_1.as_byte()]),
            Transaction::Read(0x68, vec![0, 1, returned_cfg_1.as_byte(), 0]),
            Transaction::Write(0x68, vec![expected_cfg_2.as_byte()]),
            Transaction::Read(0x68, vec![0, 2, returned_cfg_2.as_byte(), 0]),
        ],
        MultiShotMode::new(&[
            Configuration::default().with_channel(Channel::Channel2),
            Configuration::default().with_resolution(Resolution::SixteenBits),
        ]),
    );

    let result = measure_multi_shot(&mut testee);

    assert_eq!(result, Ok([1.0, 0.125]));

    testee.i2c.done();
}

#[test]
#[allow(non_snake_case)]
fn When_in_MultiShotMode_a_MCP3424_should_return_an_error_if_there_is_no_data_available() {
    let expected_cfg = one_shot_cfg();
    let returned_cfg_1 = Cfg { ready: true, ..expected_cfg };
    let returned_cfg_2 = Cfg { ready: false, ..expected_cfg };

    let mut testee = device(
        vec![
            Transaction::Write(0x68, vec![expected_cfg.as_byte()]),
            Transaction::Read(0x68, vec![0, 1, returned_cfg_1.as_byte(), 0]),
            Transaction::Write(0x68, vec![expected_cfg.as_byte()]),
            Transaction::Read(0x68, vec![0, 2, returned_cfg_2.as_byte(), 0]),
        ],
        MultiShotMode::new(&[Configuration::default(), Configuration::default()]),
    );

    let result = measure_multi_shot(&mut testee);

    assert!(result.is_err());
    assert_eq!(result, Err(Error::NotReady));

    testee.i2c.done();
}

#[test]
fn one_shot_asks_for_write_delay_read_in_turn() {
    let configuration = Configuration::default()
        .with_channel(Channel::Channel3)
        .with_resolution(Resolution::FourteenBits)
        .with_gain(Gain::X4)
        .with_conversion_time(ConversionTime::Offset(333));
    let mut testee = device(vec![], OneShotMode::new(&configuration));

    assert_eq!(testee.step(Event::Measure), Action::Write(0b1_10_0_01_10));
    assert_eq!(testee.step(Event::Written), Action::Delay(17_000));
    assert_eq!(testee.step(Event::Elapsed), Action::Read);
    assert_eq!(
        testee.step(Event::Received([0, 4, 0b0_10_0_01_10, 0])),
        Action::Return(Ok(Voltage { numerator: 1_000_000, denominator: 4_000_000 }))
    );
    // The next measurement takes the same course.
    assert_eq!(testee.step(Event::Measure), Action::Write(0b1_10_0_01_10));
}

#[test]
fn one_shot_waits_the_configured_time() {
    let mut testee = device(
        vec![
            Transaction::Write(0x68, vec![0b1000_1100]),
            Transaction::Read(0x68, vec![0, 0, 64, 0b0000_1100]),
        ],
        OneShotMode::new(
            &Configuration::default()
                .with_resolution(Resolution::EighteenBits)
                .with_conversion_time(ConversionTime::Absolute(300_000)),
        ),
    );

    assert_eq!(measure_one_shot(&mut testee), Ok(1.0));
    assert_eq!(testee.delay.waited, vec![300_000]);
    testee.i2c.done();
}

#[test]
fn one_shot_hands_on_a_failed_write() {
    let mut testee = device(
        vec![Transaction::WriteError(0x68, vec![0b1000_0000], Fault::NoAcknowledge)],
        OneShotMode::new(&Configuration::default()),
    );

    assert_eq!(measure_one_shot(&mut testee), Err(Error::BusError(Fault::NoAcknowledge)));
    assert!(testee.delay.waited.is_empty());
    testee.i2c.done();
}

#[test]
fn one_shot_hands_on_a_failed_read() {
    let mut testee = device(
        vec![
            Transaction::Write(0x68, vec![0b1000_0000]),
            Transaction::ReadError(0x68, Fault::ArbitrationLoss),
        ],
        OneShotMode::new(&Configuration::default()),
    );

    assert_eq!(measure_one_shot(&mut testee), Err(Error::BusError(Fault::ArbitrationLoss)));
    assert_eq!(testee.delay.waited, vec![4167]);
    testee.i2c.done();
}

#[test]
fn one_shot_rejects_a_saturated_sample() {
    let mut testee = device(
        vec![
            Transaction::Write(0x68, vec![0b1000_0000]),
            Transaction::Read(0x68, vec![0x07, 0xFF, 0, 0]),
        ],
        OneShotMode::new(&Configuration::default()),
    );

    assert_eq!(
        measure_one_shot(&mut testee),
        Err(Error::IllegalValue { value: 2047, min: -2048, max: 2047 })
    );
    testee.i2c.done();
}

#[test]
fn one_shot_configuration_applies_to_the_next_measurement() {
    let mut testee = device(
        vec![
            Transaction::Write(0x68, vec![0b1000_0000]),
            Transaction::Read(0x68, vec![0, 1, 0b0000_0000, 0]),
            Transaction::Write(0x68, vec![0b1_01_0_10_11]),
            Transaction::Read(0x68, vec![0, 16, 0b0_01_0_10_11, 0]),
        ],
        OneShotMode::new(&Configuration::default()),
    );

    assert_eq!(measure_one_shot(&mut testee), Ok(1.0));
    testee.configure(
        &Configuration::default()
            .with_channel(Channel::Channel2)
            .with_resolution(Resolution::SixteenBits)
            .with_gain(Gain::X8)
            .with_conversion_time(ConversionTime::Offset(-66_667)),
    );
    assert_eq!(measure_one_shot(&mut testee), Ok(0.125));
    assert_eq!(testee.delay.waited, vec![4167, 0]);
    testee.i2c.done();
}

#[test]
fn one_shot_stream_is_a_measurement_per_poll() {
    let mut testee = device(
        vec![
            Transaction::Write(0x68, vec![0b1000_0000]),
            Transaction::Read(0x68, vec![0, 1, 0b0000_0000, 0]),
            Transaction::Write(0x68, vec![0b1000_0000]),
            Transaction::Read(0x68, vec![0, 2, 0b1000_0000, 0]),
            Transaction::Write(0x68, vec![0b1000_0000]),
            Transaction::Read(0x68, vec![0, 3, 0b0000_0000, 0]),
        ],
        OneShotMode::new(&Configuration::default()),
    );
    let step = Device::<OneShotMode>::step;

    assert_eq!(run(&mut testee, step, Event::Stream), Outcome::Ready);
    assert_eq!(
        run(&mut testee, step, Event::Poll),
        Outcome::Return(Ok(Voltage { numerator: 1_000_000, denominator: 1_000_000 }))
    );
    // An error is an item of the stream and does not end it.
    assert_eq!(run(&mut testee, step, Event::Poll), Outcome::Return(Err(Error::NotReady)));
    assert_eq!(
        run(&mut testee, step, Event::Poll),
        Outcome::Return(Ok(Voltage { numerator: 3_000_000, denominator: 1_000_000 }))
    );
    assert_eq!(testee.delay.waited, vec![4167, 4167, 4167]);
    testee.i2c.done();
}

#[test]
fn continuous_starts_the_device_once() {
    let mut testee = device(vec![], ContinuousMode::new(&Configuration::default()));

    assert_eq!(testee.step(Event::Measure), Action::Write(0b0001_0000));
    assert_eq!(testee.step(Event::Written), Action::Delay(4167));
    assert_eq!(testee.step(Event::Elapsed), Action::Read);
    assert_eq!(
        testee.step(Event::Received([0, 1, 0b0001_0000, 0])),
        Action::Return(Ok(Voltage { numerator: 1_000_000, denominator: 1_000_000 }))
    );
    assert_eq!(testee.step(Event::Measure), Action::Read);
    assert_eq!(testee.step(Event::Received([0, 2, 0b1001_0000, 0])), Action::Return(Err(Error::NotReady)));
    assert_eq!(testee.step(Event::Measure), Action::Read);
    assert_eq!(testee.step(Event::Failed(Fault::NoAcknowledge)), Action::Return(Err(Error::BusError(Fault::NoAcknowledge))));
    assert_eq!(testee.step(Event::Measure), Action::Read);
}

#[test]
fn continuous_waits_only_before_the_first_read() {
    let returned = continuous_cfg().as_byte();
    let mut testee = device(
        vec![
            Transaction::Write(0x68, vec![0b0_00_1_10_00]),
            Transaction::Read(0x68, vec![0, 16, 0b0_00_1_10_00, 0]),
            Transaction::Read(0x68, vec![0, 32, 0b0_00_1_10_00, 0]),
        ],
        ContinuousMode::new(&Configuration::default().with_resolution(Resolution::SixteenBits)),
    );

    assert_eq!(returned, 0b0001_0000);
    assert_eq!(measure_continuous(&mut testee), Ok(1.0));
    assert_eq!(measure_continuous(&mut testee), Ok(2.0));
    assert_eq!(testee.delay.waited, vec![66_667]);
    testee.i2c.done();
}

#[test]
fn continuous_is_not_started_by_a_failed_write() {
    let mut testee = device(
        vec![
            Transaction::WriteError(0x68, vec![0b0001_0000], Fault::NoAcknowledge),
            Transaction::Write(0x68, vec![0b0001_0000]),
            Transaction::Read(0x68, vec![0, 5, 0b0001_0000, 0]),
        ],
        ContinuousMode::new(&Configuration::default()),
    );

    assert_eq!(measure_continuous(&mut testee), Err(Error::BusError(Fault::NoAcknowledge)));
    assert!(testee.delay.waited.is_empty());
    assert_eq!(measure_continuous(&mut testee), Ok(5.0));
    assert_eq!(testee.delay.waited, vec![4167]);
    testee.i2c.done();
}

#[test]
fn continuous_stays_started_after_a_failed_read() {
    let mut testee = device(
        vec![
            Transaction::Write(0x68, vec![0b0001_0000]),
            Transaction::ReadError(0x68, Fault::ArbitrationLoss),
            Transaction::Read(0x68, vec![0, 5, 0b0001_0000, 0]),
        ],
        ContinuousMode::new(&Configuration::default()),
    );

    assert_eq!(measure_continuous(&mut testee), Err(Error::BusError(Fault::ArbitrationLoss)));
    assert_eq!(measure_continuous(&mut testee), Ok(5.0));
    assert_eq!(testee.delay.waited, vec![4167]);
    testee.i2c.done();
}

#[test]
fn continuous_configure_returns_the_byte_to_write() {
    let mut testee = device(
        vec![
            Transaction::Write(0x68, vec![0b0001_0000]),
            Transaction::Read(0x68, vec![0, 1, 0b0001_0000, 0]),
            Transaction::Read(0x68, vec![0, 1, 0b0_11_1_01_01, 0]),
        ],
        ContinuousMode::new(&Configuration::default()),
    );

    assert_eq!(measure_continuous(&mut testee), Ok(1.0));
    let byte = testee.configure(
        &Configuration::default()
            .with_channel(Channel::Channel4)
            .with_resolution(Resolution::FourteenBits)
            .with_gain(Gain::X2),
    );
    assert_eq!(byte, 0b0_11_1_01_01);
    // The device stays started: the next measurement only reads.
    assert_eq!(measure_continuous(&mut testee), Ok(0.125));
    assert_eq!(testee.delay.waited, vec![4167]);
    testee.i2c.done();
}

#[test]
fn continuous_configure_before_the_first_measurement() {
    let mut testee = device(
        vec![
            Transaction::Write(0x68, vec![0b0_01_1_11_00]),
            Transaction::Read(0x68, vec![0, 0, 64, 0b0_01_1_11_00]),
        ],
        ContinuousMode::new(&Configuration::default()),
    );

    let byte = testee.configure(
        &Configuration::default()
            .with_channel(Channel::Channel2)
            .with_resolution(Resolution::EighteenBits)
            .with_conversion_time(ConversionTime::Absolute(9)),
    );
    assert_eq!(byte, 0b0_01_1_11_00);
    assert_eq!(measure_continuous(&mut testee), Ok(1.0));
    assert_eq!(testee.delay.waited, vec![9]);
    testee.i2c.done();
}

#[test]
fn continuous_stream_writes_once_and_then_only_reads() {
    let mut testee = device(
        vec![
            Transaction::Write(0x68, vec![0b0001_0000]),
            Transaction::Read(0x68, vec![0, 1, 0b0001_0000, 0]),
            Transaction::Read(0x68, vec![0, 1, 0b1001_0000, 0]),
            Transaction::ReadError(0x68, Fault::NoAcknowledge),
            Transaction::Read(0x68, vec![0, 2, 0b0001_0000, 0]),
        ],
        ContinuousMode::new(&Configuration::default()),
    );
    let step = Device::<ContinuousMode>::step;

    assert_eq!(run(&mut testee, step, Event::Stream), Outcome::Ready);
    assert_eq!(testee.delay.waited, vec![4167]);
    assert_eq!(
        run(&mut testee, step, Event::Poll),
        Outcome::Return(Ok(Voltage { numerator: 1_000_000, denominator: 1_000_000 }))
    );
    // Stale data and a failing bus are items of the stream and do not end it.
    assert_eq!(run(&mut testee, step, Event::Poll), Outcome::Return(Err(Error::NotReady)));
    assert_eq!(
        run(&mut testee, step, Event::Poll),
        Outcome::Return(Err(Error::BusError(Fault::NoAcknowledge)))
    );
    assert_eq!(
        run(&mut testee, step, Event::Poll),
        Outcome::Return(Ok(Voltage { numerator: 2_000_000, denominator: 1_000_000 }))
    );
    assert_eq!(testee.delay.waited, vec![4167]);
    testee.i2c.done();
}

#[test]
fn continuous_stream_fails_to_open_when_the_write_fails() {
    let mut testee = device(
        vec![Transaction::WriteError(0x68, vec![0b0001_0000], Fault::NoAcknowledge)],
        ContinuousMode::new(&Configuration::default()),
    );

    assert_eq!(
        run(&mut testee, Device::<ContinuousMode>::step, Event::Stream),
        Outcome::Return(Err(Error::BusError(Fault::NoAcknowledge)))
    );
    assert!(testee.delay.waited.is_empty());
    testee.i2c.done();
}

#[test]
fn continuous_stream_does_not_count_as_a_first_measurement() {
    let mut testee = device(
        vec![
            Transaction::Write(0x68, vec![0b0001_0000]),
            Transaction::Read(0x68, vec![0, 1, 0b0001_0000, 0]),
            Transaction::Write(0x68, vec![0b0001_0000]),
            Transaction::Read(0x68, vec![0, 2, 0b0001_0000, 0]),
            Transaction::Write(0x68, vec![0b0001_0000]),
        ],
        ContinuousMode::new(&Configuration::default()),
    );
    let step = Device::<ContinuousMode>::step;

    assert_eq!(run(&mut testee, step, Event::Stream), Outcome::Ready);
    assert_eq!(
        run(&mut testee, step, Event::Poll),
        Outcome::Return(Ok(Voltage { numerator: 1_000_000, denominator: 1_000_000 }))
    );
    // The measurement behind the stream starts the device itself.
    assert_eq!(measure_continuous(&mut testee), Ok(2.0));
    // A stream opened on a started device writes and waits all the same.
    assert_eq!(run(&mut testee, step, Event::Stream), Outcome::Ready);
    assert_eq!(testee.delay.waited, vec![4167, 4167, 4167]);
    testee.i2c.done();
}

#[test]
fn multi_shot_runs_the_conversions_in_order() {
    let configurations = [
        Configuration::default().with_channel(Channel::Channel1),
        Configuration::default()
            .with_channel(Channel::Channel2)
            .with_resolution(Resolution::EighteenBits)
            .with_conversion_time(ConversionTime::Offset(400)),
        Configuration::default()
            .with_channel(Channel::Channel3)
            .with_gain(Gain::X2)
            .with_conversion_time(ConversionTime::Absolute(10)),
    ];
    let mut testee = device(vec![], MultiShotMode::new(&configurations));

    assert_eq!(testee.step(Event::Measure), Action::Write(0b1_00_0_00_00));
    assert_eq!(testee.step(Event::Written), Action::Delay(4167));
    assert_eq!(testee.step(Event::Elapsed), Action::Read);
    assert_eq!(
        testee.step(Event::Received([0, 1, 0b0_00_0_00_00, 0])),
        Action::Write(0b1_01_0_11_00)
    );
    assert_eq!(testee.step(Event::Written), Action::Delay(267_067));
    assert_eq!(testee.step(Event::Elapsed), Action::Read);
    assert_eq!(
        testee.step(Event::Received([0, 0, 2, 0b0_01_0_11_00])),
        Action::Write(0b1_10_0_00_01)
    );
    assert_eq!(testee.step(Event::Written), Action::Delay(10));
    assert_eq!(testee.step(Event::Elapsed), Action::Read);
    assert_eq!(
        testee.step(Event::Received([0, 3, 0b0_10_0_00_01, 0])),
        Action::Return(Ok([
            Voltage { numerator: 1_000_000, denominator: 1_000_000 },
            Voltage { numerator: 31_250, denominator: 1_000_000 },
            Voltage { numerator: 3_000_000, denominator: 2_000_000 },
        ]))
    );
    // The next measurement starts with the first conversion again.
    assert_eq!(testee.step(Event::Measure), Action::Write(0b1_00_0_00_00));
}

#[test]
fn multi_shot_stops_at_the_first_error() {
    let mut testee = device(
        vec![
            Transaction::Write(0x68, vec![0b1_00_0_00_00]),
            Transaction::Read(0x68, vec![0, 1, 0b0000_0000, 0]),
            Transaction::Write(0x68, vec![0b1_01_0_00_00]),
            Transaction::Read(0x68, vec![8, 0, 0b0010_0000, 0]),
        ],
        MultiShotMode::new(&[
            Configuration::default().with_channel(Channel::Channel1),
            Configuration::default().with_channel(Channel::Channel2),
            Configuration::default().with_channel(Channel::Channel3),
        ]),
    );

    assert_eq!(
        measure_multi_shot(&mut testee),
        Err(Error::IllegalValue { value: -2048, min: -2048, max: 2047 })
    );
    assert_eq!(testee.delay.waited, vec![4167, 4167]);
    testee.i2c.done();
}

#[test]
fn multi_shot_stops_at_a_failed_write() {
    let mut testee = device(
        vec![
            Transaction::Write(0x68, vec![0b1000_0000]),
            Transaction::Read(0x68, vec![0, 1, 0b0000_0000, 0]),
            Transaction::WriteError(0x68, vec![0b1000_0000], Fault::ArbitrationLoss),
        ],
        MultiShotMode::new(&[Configuration::default(), Configuration::default()]),
    );

    assert_eq!(measure_multi_shot(&mut testee), Err(Error::BusError(Fault::ArbitrationLoss)));
    assert_eq!(testee.delay.waited, vec![4167]);
    testee.i2c.done();
}

#[test]
fn multi_shot_starts_over_after_an_error() {
    let mut testee = device(
        vec![
            Transaction::Write(0x68, vec![0b1_00_0_00_00]),
            Transaction::Read(0x68, vec![0, 7, 0b0000_0000, 0]),
            Transaction::Write(0x68, vec![0b1_01_0_00_00]),
            Transaction::ReadError(0x68, Fault::NoAcknowledge),
            Transaction::Write(0x68, vec![0b1_00_0_00_00]),
            Transaction::Read(0x68, vec![0, 1, 0b0000_0000, 0]),
            Transaction::Write(0x68, vec![0b1_01_0_00_00]),
            Transaction::Read(0x68, vec![0, 2, 0b0010_0000, 0]),
        ],
        MultiShotMode::new(&[
            Configuration::default().with_channel(Channel::Channel1),
            Configuration::default().with_channel(Channel::Channel2),
        ]),
    );

    assert_eq!(measure_multi_shot(&mut testee), Err(Error::BusError(Fault::NoAcknowledge)));
    assert_eq!(measure_multi_shot(&mut testee), Ok([1.0, 2.0]));
    testee.i2c.done();
}

#[test]
fn multi_shot_measure_gives_up_the_measurement_under_way() {
    let mut testee = device(
        vec![],
        MultiShotMode::new(&[
            Configuration::default().with_channel(Channel::Channel1),
            Configuration::default().with_channel(Channel::Channel2),
        ]),
    );

    assert_eq!(testee.step(Event::Measure), Action::Write(0b1_00_0_00_00));
    assert_eq!(testee.step(Event::Written), Action::Delay(4167));
    assert_eq!(testee.step(Event::Elapsed), Action::Read);
    assert_eq!(
        testee.step(Event::Received([0, 9, 0b0000_0000, 0])),
        Action::Write(0b1_01_0_00_00)
    );
    assert_eq!(testee.step(Event::Measure), Action::Write(0b1_00_0_00_00));
    assert_eq!(
        testee.step(Event::Received([0, 1, 0b0000_0000, 0])),
        Action::Write(0b1_01_0_00_00)
    );
    assert_eq!(
        testee.step(Event::Received([0, 2, 0b0010_0000, 0])),
        Action::Return(Ok([
            Voltage { numerator: 1_000_000, denominator: 1_000_000 },
            Voltage { numerator: 2_000_000, denominator: 1_000_000 },
        ]))
    );
}

#[test]
fn multi_shot_without_conversions_returns_at_once() {
    let mut testee = device(vec![], MultiShotMode::<0>::new(&[]));

    assert_eq!(measure_multi_shot(&mut testee), Ok([]));
    assert!(testee.delay.waited.is_empty());
    testee.i2c.done();
}

#[test]
fn multi_shot_configure_takes_the_first_configurations() {
    let mut testee = device(
        vec![
            Transaction::Write(0x68, vec![0b1_10_0_00_00]),
            Transaction::Read(0x68, vec![0, 1, 0b0100_0000, 0]),
            Transaction::Write(0x68, vec![0b1_11_0_01_00]),
            Transaction::Read(0x68, vec![0, 4, 0b0110_0100, 0]),
        ],
        MultiShotMode::<2>::new(&[Configuration::default(), Configuration::default()]),
    );

    testee.configure(&[
        Configuration::default().with_channel(Channel::Channel3),
        Configuration::default()
            .with_channel(Channel::Channel4)
            .with_resolution(Resolution::FourteenBits),
        Configuration::default().with_gain(Gain::X8),
    ]);

    assert_eq!(measure_multi_shot(&mut testee), Ok([1.0, 1.0]));
    assert_eq!(testee.delay.waited, vec![4167, 16667]);
    testee.i2c.done();
}

#[test]
fn multi_shot_stream_is_a_measurement_per_poll() {
    let mut testee = device(
        vec![
            Transaction::Write(0x68, vec![0b1000_0000]),
            Transaction::Read(0x68, vec![0, 1, 0b1000_0000, 0]),
            Transaction::Write(0x68, vec![0b1000_0000]),
            Transaction::Read(0x68, vec![0, 2, 0b0000_0000, 0]),
        ],
        MultiShotMode::new(&[Configuration::default()]),
    );
    let step = Device::<MultiShotMode<1>>::step;

    assert_eq!(run(&mut testee, step, Event::Stream), Outcome::Ready);
    assert_eq!(run(&mut testee, step, Event::Poll), Outcome::Return(Err(Error::NotReady)));
    assert_eq!(
        run(&mut testee, step, Event::Poll),
        Outcome::Return(Ok([Voltage { numerator: 2_000_000, denominator: 1_000_000 }]))
    );
    testee.i2c.done();
}

#[test]
fn into_inner_gives_the_bus_and_the_timer_back() {
    let mut testee = device(
        vec![
            Transaction::Write(0x68, vec![0b1000_0000]),
            Transaction::Read(0x68, vec![0, 1, 0b0000_0000, 0]),
        ],
        OneShotMode::new(&Configuration::default()),
    );
    assert_eq!(testee.address, 0x68);
    assert_eq!(measure_one_shot(&mut testee), Ok(1.0));

    let (bus, timer) = testee.into_inner();
    bus.done();
    assert_eq!(timer.waited, vec![4167]);
}

#[test]
fn a_bus_fault_wraps_into_a_bus_error() {
    assert_eq!(Error::from(Fault::NoAcknowledge), Error::BusError(Fault::NoAcknowledge));
}

#[test]
fn driving_a_measurement_by_hand() {
    struct Wire;
    impl Wire {
        fn write(&mut self, _address: u8, _bytes: &[u8]) -> Result<(), ()> {
            Ok(())
        }
        fn read(&mut self, _address: u8, buffer: &mut [u8; 4]) -> Result<(), ()> {
            *buffer = [0, 1, 0, 0];
            Ok(())
        }
    }
    struct Clock;
    impl Clock {
        fn wait(&mut self, _micros: u32) {}
    }

    let mode = OneShotMode::new(&Configuration::default());
    let mut adc: MCP3424<Wire, (), Clock, OneShotMode> = MCP3424::new(Wire, 0x68, Clock, mode);

    let mut action = adc.step(Event::Measure);
    let result = loop {
        let event = match action {
            Action::Write(byte) => match adc.i2c.write(adc.address, &[byte]) {
                Ok(()) => Event::Written,
                Err(cause) => Event::Failed(cause),
            },
            Action::Delay(micros) => {
                adc.delay.wait(micros);
                Event::Elapsed
            }
            Action::Read => {
                let mut buffer = [0; 4];
                match adc.i2c.read(adc.address, &mut buffer) {
                    Ok(()) => Event::Received(buffer),
                    Err(cause) => Event::Failed(cause),
                }
            }
            Action::Ready => Event::Poll,
            Action::Return(result) => break result,
        };
        action = adc.step(event);
    };

    let voltage = result.ok().map(|voltage| (voltage.numerator, voltage.denominator));
    assert_eq!(voltage, Some((1_000_000, 1_000_000)));
}
