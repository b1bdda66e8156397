use stabilizer::board::{
    adc_settings, clock_settings, dac_settings, fault_leds, hardware_priority, initial_iir,
    phy_reset_levels, Direction, SpiSettings, CONVERSION_PRIORITY, I2C_FREQUENCY, SAMPLE_RATE,
    TRIGGER_PRIORITY,
};
use stabilizer::conversion::Channel;

fn frame_time_ns(spi: SpiSettings) -> u64 {
    u64::from(spi.cs_delay_ns) + u64::from(spi.frame_size) * 1_000_000_000 / u64::from(spi.frequency)
}

#[test]
fn clock_frequencies() {
    let c = clock_settings();
    assert_eq!(c.sysclk, 400_000_000);
    assert_eq!(c.hclk, 200_000_000);
    assert_eq!(c.per_ck, 100_000_000);
    assert_eq!(c.pll2_p_ck, 100_000_000);
    assert_eq!(c.pll2_q_ck, 100_000_000);
    assert_eq!(SAMPLE_RATE, 500_000);
    assert_eq!(I2C_FREQUENCY, 100_000);
}

#[test]
fn adc_interfaces() {
    let first = adc_settings(Channel::First);
    assert!(first.idle_high && first.capture_on_second && first.manage_cs);
    assert_eq!(first.direction, Direction::Receiver);
    assert_eq!(first.cs_delay_ns, 220);
    assert_eq!(first.frame_size, 16);
    assert_eq!(first.frequency, 50_000_000);
    assert!(!first.swap_mosi_miso);
    assert!(first.listen_rxp);
    assert_eq!(adc_settings(Channel::Second), SpiSettings { listen_rxp: false, ..first });
}

#[test]
fn dac_interface() {
    let dac = dac_settings();
    assert!(dac.idle_high && dac.capture_on_second && dac.manage_cs && dac.swap_mosi_miso);
    assert_eq!(dac.direction, Direction::Transmitter);
    assert_eq!(dac.cs_delay_ns, 0);
    assert_eq!(dac.frame_size, 16);
    assert_eq!(dac.frequency, 25_000_000);
    assert!(!dac.listen_rxp);
}

#[test]
fn interface_clocks_are_exact() {
    let c = clock_settings();
    assert_eq!(c.pll2_p_ck, 2 * adc_settings(Channel::First).frequency);
    assert_eq!(c.pll2_q_ck, 4 * dac_settings().frequency);
}

#[test]
fn transfers_fit_the_sample_period() {
    let adc = frame_time_ns(adc_settings(Channel::First));
    let dac = frame_time_ns(dac_settings());
    assert_eq!(adc, 540);
    assert_eq!(dac, 640);
    assert!(adc + dac <= 1_000_000_000 / u64::from(SAMPLE_RATE));
}

#[test]
fn transceiver_reset_is_a_low_pulse() {
    assert_eq!(phy_reset_levels(), [true, false, true]);
}

#[test]
fn filters_start_as_pass_through() {
    let iir = initial_iir();
    assert_eq!(iir.ba, [1, 0, 0, 0, 0]);
    assert_eq!(iir.y_offset, 0);
    assert_eq!(iir.y_min, -32768);
    assert_eq!(iir.y_max, 32767);
}

#[test]
fn fault_turns_on_two_outputs() {
    assert_eq!(fault_leds(0), 0x1040);
    assert_eq!(fault_leds(0xffff_ffff), 0xffff_ffff);
    assert_eq!(fault_leds(0x20), 0x1060);
}

#[test]
fn servicing_is_more_urgent_than_starting() {
    assert_eq!(hardware_priority(TRIGGER_PRIORITY), 0xf0);
    assert_eq!(hardware_priority(CONVERSION_PRIORITY), 0xe0);
    assert_eq!(hardware_priority(16), 0);
}
