use mcp3424::{Channel, Configuration, ConversionTime, Gain, Resolution};

#[test]
fn conversion_time_us_should_return_an_absolute_value() {
    let configuration =
        Configuration { conversion_time: ConversionTime::Absolute(42), ..Configuration::default() };

    assert_eq!(configuration.conversion_time_us(), 42);
}

#[test]
fn conversion_time_us_should_return_a_relative_value() {
    let mut configuration =
        Configuration { resolution: Resolution::TwelveBits, ..Configuration::default() };

    assert_eq!(configuration.conversion_time_us(), 4167);

    configuration.conversion_time = ConversionTime::Offset(1337);

    assert_eq!(configuration.conversion_time_us(), 5504);

    configuration.conversion_time = ConversionTime::Offset(0);

    assert_eq!(configuration.conversion_time_us(), 4167);

    configuration.conversion_time = ConversionTime::Offset(-2167);

    assert_eq!(configuration.conversion_time_us(), 2000);

    configuration.conversion_time = ConversionTime::Offset(-5000);

    assert_eq!(configuration.conversion_time_us(), 0);
}

#[test]
fn conversion_time_offset_at_the_limits() {
    let configuration = Configuration::default()
        .with_resolution(Resolution::EighteenBits)
        .with_conversion_time(ConversionTime::Offset(i32::MAX));
    assert_eq!(configuration.conversion_time_us(), 266_667 + 2_147_483_647);

    let configuration = configuration.with_conversion_time(ConversionTime::Offset(i32::MIN));
    assert_eq!(configuration.conversion_time_us(), 0);

    let configuration = configuration.with_conversion_time(ConversionTime::Offset(-266_667));
    assert_eq!(configuration.conversion_time_us(), 0);

    let configuration = configuration.with_conversion_time(ConversionTime::Offset(-266_666));
    assert_eq!(configuration.conversion_time_us(), 1);

    let configuration = configuration.with_conversion_time(ConversionTime::Absolute(u32::MAX));
    assert_eq!(configuration.conversion_time_us(), u32::MAX);
}

#[test]
fn nominal_conversion_time_of_each_resolution() {
    let configuration = Configuration::default();
    assert_eq!(configuration.with_resolution(Resolution::TwelveBits).conversion_time_us(), 4167);
    assert_eq!(configuration.with_resolution(Resolution::FourteenBits).conversion_time_us(), 16667);
    assert_eq!(configuration.with_resolution(Resolution::SixteenBits).conversion_time_us(), 66667);
    assert_eq!(configuration.with_resolution(Resolution::EighteenBits).conversion_time_us(), 266667);
}

#[test]
fn default_configuration() {
    assert_eq!(
        Configuration::default(),
        Configuration {
            channel: Channel::Channel1,
            resolution: Resolution::TwelveBits,
            gain: Gain::X1,
            conversion_time: ConversionTime::Offset(0),
        }
    );
    assert_eq!(ConversionTime::default(), ConversionTime::Offset(0));
}

#[test]
fn builders_replace_one_field_each() {
    let configuration = Configuration::new(
        Channel::Channel2,
        Resolution::FourteenBits,
        Gain::X2,
        ConversionTime::Absolute(7),
    );
    assert_eq!(
        configuration,
        Configuration {
            channel: Channel::Channel2,
            resolution: Resolution::FourteenBits,
            gain: Gain::X2,
            conversion_time: ConversionTime::Absolute(7),
        }
    );
    assert_eq!(
        configuration.with_channel(Channel::Channel4),
        Configuration { channel: Channel::Channel4, ..configuration }
    );
    assert_eq!(
        configuration.with_resolution(Resolution::SixteenBits),
        Configuration { resolution: Resolution::SixteenBits, ..configuration }
    );
    assert_eq!(
        configuration.with_gain(Gain::X8),
        Configuration { gain: Gain::X8, ..configuration }
    );
    assert_eq!(
        configuration.with_conversion_time(ConversionTime::Offset(-3)),
        Configuration { conversion_time: ConversionTime::Offset(-3), ..configuration }
    );
}
