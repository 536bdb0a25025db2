use mcp2003a::config::{
    LinBreakDuration, LinBusConfig, LinBusSpeed, LinInterFrameSpace, LinReadDeviceResponseTimeout,
    LinWakeupDuration,
};

#[test]
fn test_break_duration() {
    let mut config = LinBusConfig {
        speed: LinBusSpeed::Baud19200,
        break_duration: LinBreakDuration::Minimum13Bits,
        wakeup_duration: LinWakeupDuration::Minimum250Microseconds,
        read_device_response_timeout: LinReadDeviceResponseTimeout::DelayMilliseconds(2),
        inter_frame_space: LinInterFrameSpace::DelayMilliseconds(1),
    };

    assert_eq!(config.break_duration.get_duration_ns(52_083), 677_079);

    config.break_duration = LinBreakDuration::Minimum13BitsPlus(1);
    assert_eq!(config.break_duration.get_duration_ns(52_083), 729_162);

    config.break_duration = LinBreakDuration::Minimum13BitsPlus(2);
    assert_eq!(config.break_duration.get_duration_ns(52_083), 781_245);
}

#[test]
fn test_speed() {
    let speed = LinBusSpeed::Baud19200;
    assert_eq!(speed.get_baud_rate(), 19200);
    assert_eq!(speed.get_bit_period_ns(), 52_083);
}

#[test]
fn test_default_config() {
    let config = LinBusConfig::default();
    assert_eq!(config.speed, LinBusSpeed::Baud19200);
    assert_eq!(config.break_duration, LinBreakDuration::Minimum13Bits);
    assert_eq!(config.wakeup_duration, LinWakeupDuration::Minimum250Microseconds);
    assert_eq!(
        config.read_device_response_timeout,
        LinReadDeviceResponseTimeout::DelayMilliseconds(2)
    );
    assert_eq!(config.inter_frame_space, LinInterFrameSpace::DelayMilliseconds(1));
}

#[test]
fn test_wakeup_duration() {
    let wakeup = LinWakeupDuration::Minimum250Microseconds;
    assert_eq!(wakeup.get_duration_ns(), 250_000);

    let wakeup = LinWakeupDuration::Minimum250MicrosecondsPlus(100);
    assert_eq!(wakeup.get_duration_ns(), 250_100);

    let wakeup = LinWakeupDuration::Maximum5Milliseconds;
    assert_eq!(wakeup.get_duration_ns(), 5_000_000);
}

#[test]
fn test_read_device_response_timeout() {
    let timeout = LinReadDeviceResponseTimeout::NoDelay;
    assert_eq!(timeout.get_duration_ns(), 0);

    let timeout = LinReadDeviceResponseTimeout::DelayMicroseconds(100);
    assert_eq!(timeout.get_duration_ns(), 100_000);

    let timeout = LinReadDeviceResponseTimeout::DelayMilliseconds(5);
    assert_eq!(timeout.get_duration_ns(), 5_000_000);
}

#[test]
fn test_inter_frame_space() {
    let space = LinInterFrameSpace::NoDelay;
    assert_eq!(space.get_duration_ns(), 0);

    let space = LinInterFrameSpace::DelayMicroseconds(100);
    assert_eq!(space.get_duration_ns(), 100_000);

    let space = LinInterFrameSpace::DelayMilliseconds(5);
    assert_eq!(space.get_duration_ns(), 5_000_000);
}

#[test]
fn bit_period_times_baud_rate_stays_within_one_baud_of_a_second() {
    let speeds = [
        LinBusSpeed::Baud9600,
        LinBusSpeed::Baud10400,
        LinBusSpeed::Baud19200,
        LinBusSpeed::Baud20000,
    ];
    for speed in speeds {
        let period = speed.get_bit_period_ns() as u64;
        let baud = speed.get_baud_rate() as u64;
        assert!(period * baud <= 1_000_000_000);
        assert!((period + 1) * baud > 1_000_000_000);
    }
    assert_eq!(LinBusSpeed::Baud9600.get_bit_period_ns(), 104_166);
    assert_eq!(LinBusSpeed::Baud10400.get_bit_period_ns(), 96_153);
    assert_eq!(LinBusSpeed::Baud20000.get_bit_period_ns(), 50_000);
}

#[test]
fn break_duration_at_19200_baud() {
    let period = LinBusSpeed::Baud19200.get_bit_period_ns();
    assert_eq!(LinBreakDuration::Minimum13Bits.get_duration_ns(period), 677_079);
    assert_eq!(LinBreakDuration::Minimum13BitsPlus(2).get_duration_ns(period), 781_245);
    assert_eq!(LinBreakDuration::Minimum13BitsPlus(0).get_duration_ns(period), 677_079);
}

#[test]
fn response_timeout_and_space_in_milliseconds_and_microseconds() {
    assert_eq!(LinReadDeviceResponseTimeout::DelayMilliseconds(2).get_duration_ns(), 2_000_000);
    assert_eq!(LinReadDeviceResponseTimeout::DelayMicroseconds(1).get_duration_ns(), 1_000);
    assert_eq!(LinInterFrameSpace::DelayMilliseconds(1).get_duration_ns(), 1_000_000);
    assert_eq!(LinInterFrameSpace::DelayMicroseconds(4_294_967).get_duration_ns(), 4_294_967_000);
}

#[test]
fn durations_fit_is_false_when_a_duration_overflows() {
    let mut config = LinBusConfig::default();
    assert!(config.durations_fit_u32());
    config.read_device_response_timeout = LinReadDeviceResponseTimeout::DelayMilliseconds(4_295);
    assert!(!config.durations_fit_u32());
    config.read_device_response_timeout = LinReadDeviceResponseTimeout::DelayMilliseconds(4_294);
    assert!(config.durations_fit_u32());
    config.inter_frame_space = LinInterFrameSpace::DelayMicroseconds(4_294_968);
    assert!(!config.durations_fit_u32());
    config.inter_frame_space = LinInterFrameSpace::NoDelay;
    config.wakeup_duration = LinWakeupDuration::Minimum250MicrosecondsPlus(u32::MAX);
    assert!(!config.durations_fit_u32());
    config.wakeup_duration = LinWakeupDuration::Maximum5Milliseconds;
    config.speed = LinBusSpeed::Baud9600;
    config.break_duration = LinBreakDuration::Minimum13BitsPlus(255);
    assert!(config.durations_fit_u32());
}

#[test]
fn wakeup_limit_is_five_milliseconds() {
    assert!(LinWakeupDuration::Minimum250Microseconds.is_within_wakeup_limit());
    assert!(LinWakeupDuration::Maximum5Milliseconds.is_within_wakeup_limit());
    assert!(LinWakeupDuration::Minimum250MicrosecondsPlus(4_750_000).is_within_wakeup_limit());
    assert!(!LinWakeupDuration::Minimum250MicrosecondsPlus(4_750_001).is_within_wakeup_limit());
    assert!(!LinWakeupDuration::Minimum250MicrosecondsPlus(u32::MAX).is_within_wakeup_limit());
}
