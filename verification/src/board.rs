//! Settings with which the board is brought up.

use crate::conversion::Channel;
use crate::sample::SCALE;
use vstd::prelude::*;

verus! {

/// Frequencies of the clock tree, in hertz.
#[derive(Clone, Copy, Debug, PartialEq, Eq, Structural)]
pub struct ClockSettings {
    /// Core clock.
    pub sysclk: u32,
    /// Bus clock.
    pub hclk: u32,
    /// Peripheral kernel clock.
    pub per_ck: u32,
    /// Second PLL, output P: kernel clock of the ADC interfaces.
    pub pll2_p_ck: u32,
    /// Second PLL, output Q: kernel clock of the DAC interfaces.
    pub pll2_q_ck: u32,
}

/// Which way data goes on a serial interface.
#[derive(Clone, Copy, Debug, PartialEq, Eq, Structural)]
pub enum Direction {
    Receiver,
    Transmitter,
}

/// Settings of the serial interface to a converter.
#[derive(Clone, Copy, Debug, PartialEq, Eq, Structural)]
pub struct SpiSettings {
    /// The clock line is high when idle.
    pub idle_high: bool,
    /// Data is captured on the second clock edge.
    pub capture_on_second: bool,
    pub direction: Direction,
    /// The interface drives the chip select line itself.
    pub manage_cs: bool,
    /// Time from chip select to the first clock edge, in nanoseconds.
    pub cs_delay_ns: u32,
    /// Bits in a word.
    pub frame_size: u8,
    /// Data is sent on the line that is otherwise for receiving.
    pub swap_mosi_miso: bool,
    /// Clock frequency in hertz.
    pub frequency: u32,
    /// A received word raises an interrupt.
    pub listen_rxp: bool,
}

/// A second-order filter with output limits, on values of type `T`.
#[derive(Clone, Copy, Debug, PartialEq, Eq, Structural)]
pub struct IIR<T> {
    /// Coefficients, one for each entry of the filter's state.
    pub ba: [T; 5],
    pub y_offset: T,
    pub y_min: T,
    pub y_max: T,
}

/// The rate at which conversions are started, in hertz.
pub const SAMPLE_RATE: u32 = 500_000;

/// The clock frequency of both two-wire buses, in hertz.
pub const I2C_FREQUENCY: u32 = 100_000;

/// The priority of the routine that starts conversions; higher is more urgent.
pub const TRIGGER_PRIORITY: u8 = 1;

/// The priority of the routine that services conversions; higher is more urgent.
pub const CONVERSION_PRIORITY: u8 = 2;

/// The number of priorities that the interrupt controller tells apart.
pub const PRIORITY_LEVELS: u8 = 16;

/// The clock frequencies.
pub open spec fn clock_tree() -> ClockSettings {
    ClockSettings {
        sysclk: 400_000_000,
        hclk: 200_000_000,
        per_ck: 100_000_000,
        pll2_p_ck: 100_000_000,
        pll2_q_ck: 100_000_000,
    }
}

/// The clock frequencies.
pub fn clock_settings() -> (r: ClockSettings)
    ensures
        r == clock_tree(),
{
    ClockSettings {
        sysclk: 400_000_000,
        hclk: 200_000_000,
        per_ck: 100_000_000,
        pll2_p_ck: 100_000_000,
        pll2_q_ck: 100_000_000,
    }
}

/// The settings of a channel's ADC interface. Only the first one raises an interrupt: the second
/// one's word is fetched by the same routine.
pub open spec fn adc_interface(channel: Channel) -> SpiSettings {
    SpiSettings {
        idle_high: true,
        capture_on_second: true,
        direction: Direction::Receiver,
        manage_cs: true,
        cs_delay_ns: 220,
        frame_size: 16,
        swap_mosi_miso: false,
        frequency: 50_000_000,
        listen_rxp: channel == Channel::First,
    }
}

/// The settings of a DAC interface, which are the same for both channels.
pub open spec fn dac_interface() -> SpiSettings {
    SpiSettings {
        idle_high: true,
        capture_on_second: true,
        direction: Direction::Transmitter,
        manage_cs: true,
        cs_delay_ns: 0,
        frame_size: 16,
        swap_mosi_miso: true,
        frequency: 25_000_000,
        listen_rxp: false,
    }
}

/// The settings of a channel's ADC interface.
pub fn adc_settings(channel: Channel) -> (r: SpiSettings)
    ensures
        r == adc_interface(channel),
{
    SpiSettings {
        idle_high: true,
        capture_on_second: true,
        direction: Direction::Receiver,
        manage_cs: true,
        cs_delay_ns: 220,
        frame_size: 16,
        swap_mosi_miso: false,
        frequency: 50_000_000,
        listen_rxp: channel == Channel::First,
    }
}

/// The settings of a DAC interface.
pub fn dac_settings() -> (r: SpiSettings)
    ensures
        r == dac_interface(),
{
    SpiSettings {
        idle_high: true,
        capture_on_second: true,
        direction: Direction::Transmitter,
        manage_cs: true,
        cs_delay_ns: 0,
        frame_size: 16,
        swap_mosi_miso: true,
        frequency: 25_000_000,
        listen_rxp: false,
    }
}

/// The levels that the reset line of the Ethernet transceiver goes through, in order: the low
/// level in the middle resets it.
pub fn phy_reset_levels() -> (r: [bool; 3])
    ensures
        r@ == seq![true, false, true],
{
    [true, false, true]
}

/// The filter that both channels start with: the output is the input, limited to what a sample
/// can be.
pub fn initial_iir() -> (r: IIR<i32>)
    ensures
        r.ba@ == seq![1i32, 0, 0, 0, 0],
        r.y_offset == 0,
        r.y_min == -SCALE - 1,
        r.y_max == SCALE,
{
    IIR { ba: [1, 0, 0, 0, 0], y_offset: 0, y_min: -32768, y_max: 32767 }
}

/// The contents of the output register of port D when the program has come to a halt: outputs 6
/// and 12, which light two of the front panel's lamps, are on, and the others are as they were.
pub fn fault_leds(odr: u32) -> (r: u32)
    ensures
        r == odr | 0x40 | 0x1000,
        forall|bit: u32|
            bit < 32 ==> #[trigger] (r >> bit) & 1 == if bit == 6 || bit == 12 {
                1
            } else {
                (odr >> bit) & 1
            },
{
    let r: u32 = odr | 0x40 | 0x1000;
    assert forall|bit: u32| bit < 32 implies #[trigger] (r >> bit) & 1 == if bit == 6 || bit == 12 {
        1
    } else {
        (odr >> bit) & 1
    } by {
        assert((odr | 0x40 | 0x1000) >> bit & 1 == if bit == 6 || bit == 12 {
            1
        } else {
            (odr >> bit) & 1
        }) by (bit_vector)
            requires
                bit < 32,
        ;
    }
    r
}

/// What the interrupt controller takes as a priority: lower is more urgent, and the number stands
/// in the upper four bits.
pub open spec fn controller_priority(priority: int) -> int {
    (PRIORITY_LEVELS - priority) * 16
}

/// What the interrupt controller takes for a priority.
pub fn hardware_priority(priority: u8) -> (r: u8)
    requires
        1 <= priority <= PRIORITY_LEVELS,
    ensures
        r == controller_priority(priority as int),
        r == (16 - priority) * 16,
{
    let level: u8 = PRIORITY_LEVELS - priority;
    assert(level < 16 ==> level << 4 == level * 16) by (bit_vector);
    level << 4
}

/// The more urgent of two routines has the lower number in the interrupt controller. So the
/// routine that services conversions is never interrupted by the one that starts them.
pub proof fn law_priorities(a: int, b: int)
    ensures
        controller_priority(a) < controller_priority(b) <==> a > b,
        controller_priority(a) - controller_priority(b) == 16 * (b - a),
        controller_priority(16) == 0,
        controller_priority(CONVERSION_PRIORITY as int) < controller_priority(
            TRIGGER_PRIORITY as int,
        ),
{
}

/// The time that an interface takes to transfer a word, in nanoseconds.
pub open spec fn frame_time_ns(spi: SpiSettings) -> int {
    spi.cs_delay_ns + spi.frame_size * 1_000_000_000 / (spi.frequency as int)
}

/// The interfaces divide their kernel clock by a power of two, and the requested frequencies can
/// be had in that way without rounding.
pub proof fn law_interface_clocks_are_exact(channel: Channel)
    ensures
        clock_tree().pll2_p_ck == 2 * adc_interface(channel).frequency,
        clock_tree().pll2_q_ck == 4 * dac_interface().frequency,
{
}

/// A word from an ADC and a word to a DAC are transferred within one sample period.
pub proof fn law_transfers_fit_sample_period(channel: Channel)
    ensures
        frame_time_ns(adc_interface(channel)) + frame_time_ns(dac_interface())
            <= 1_000_000_000int / (SAMPLE_RATE as int),
{
}

} // verus!
