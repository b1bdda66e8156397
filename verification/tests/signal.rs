use stabilizer::conversion::{Action, Channel, Conversion, Reply};
use stabilizer::sample::{adc_sample, dac_code, DAC_MIDSCALE, SCALE};
use stabilizer::trigger::{Trigger, TriggerAction};

fn expect(c: &mut Conversion, action: Action, reply: Reply) {
    assert_eq!(c.action(), Some(action));
    c.reply(reply);
}

/// A routine that has got as far as reading the second ADC.
fn at_second_read(a1: u16, y1: i16) -> Conversion {
    let mut c = Conversion::new();
    expect(&mut c, Action::RaisePin, Reply::Done);
    expect(&mut c, Action::Read(Channel::First), Reply::Sample(a1));
    let x: i16 = a1 as i16;
    expect(&mut c, Action::Filter { channel: Channel::First, x }, Reply::Filtered(y1));
    expect(&mut c, Action::Clear(Channel::First), Reply::Done);
    c
}

fn stopped(c: &Conversion) -> bool {
    c.failed() && c.action().is_none()
}

#[test]
fn adc_words_are_twos_complement() {
    assert_eq!(adc_sample(0), 0);
    assert_eq!(adc_sample(1), 1);
    assert_eq!(adc_sample(0x7fff), 32767);
    assert_eq!(adc_sample(0x8000), -32768);
    assert_eq!(adc_sample(0xffff), -1);
}

#[test]
fn dac_words_are_offset_binary() {
    assert_eq!(dac_code(0), 0x8000);
    assert_eq!(dac_code(-32768), 0);
    assert_eq!(dac_code(32767), 0xffff);
    assert_eq!(dac_code(-1), 0x7fff);
    assert_eq!(dac_code(SCALE), u16::MAX);
}

#[test]
fn dac_words_keep_order() {
    let mut y: i16 = i16::MIN;
    while y < i16::MAX {
        assert!(dac_code(y) < dac_code(y + 1));
        y += 1;
    }
}

#[test]
fn every_adc_word_passes_through_with_its_sign_inverted() {
    for code in 0..=u16::MAX {
        assert_eq!(dac_code(adc_sample(code)), code ^ DAC_MIDSCALE);
    }
}

#[test]
fn conversion_without_errors() {
    let mut c = at_second_read(0x8001, -5);
    expect(&mut c, Action::Read(Channel::Second), Reply::Sample(0x0010));
    expect(&mut c, Action::Filter { channel: Channel::Second, x: 16 }, Reply::Filtered(7));
    expect(&mut c, Action::Clear(Channel::Second), Reply::Done);
    expect(&mut c, Action::Send { channel: Channel::First, code: 0x7ffb }, Reply::Done);
    expect(&mut c, Action::Send { channel: Channel::Second, code: 0x8007 }, Reply::Done);
    expect(&mut c, Action::LowerPin, Reply::Done);
    assert_eq!(c.action(), None);
    assert!(!c.failed());
}

#[test]
fn second_adc_is_waited_for() {
    let mut c = at_second_read(0, 0);
    for _ in 0..1000 {
        expect(&mut c, Action::Read(Channel::Second), Reply::WouldBlock);
    }
    expect(&mut c, Action::Read(Channel::Second), Reply::Sample(0xffff));
    expect(&mut c, Action::Filter { channel: Channel::Second, x: -1 }, Reply::Filtered(-1));
    assert_eq!(c.action(), Some(Action::Clear(Channel::Second)));
}

#[test]
fn first_adc_is_not_waited_for() {
    let mut c = Conversion::new();
    expect(&mut c, Action::RaisePin, Reply::Done);
    expect(&mut c, Action::Read(Channel::First), Reply::WouldBlock);
    assert!(stopped(&c));
}

#[test]
fn dac_is_not_waited_for() {
    let mut c = at_second_read(0, 0);
    c.reply(Reply::Sample(0));
    c.reply(Reply::Filtered(0));
    c.reply(Reply::Done);
    expect(&mut c, Action::Send { channel: Channel::First, code: 0x8000 }, Reply::WouldBlock);
    assert!(stopped(&c));
}

#[test]
fn any_error_stops_the_conversion() {
    let mut c = Conversion::new();
    expect(&mut c, Action::RaisePin, Reply::Failed);
    assert!(stopped(&c));

    let mut c = Conversion::new();
    c.reply(Reply::Done);
    expect(&mut c, Action::Read(Channel::First), Reply::Failed);
    assert!(stopped(&c));

    let mut c = at_second_read(3, 3);
    expect(&mut c, Action::Read(Channel::Second), Reply::Failed);
    assert!(stopped(&c));

    let mut c = at_second_read(3, 3);
    c.reply(Reply::Sample(0));
    c.reply(Reply::Filtered(0));
    c.reply(Reply::Done);
    c.reply(Reply::Done);
    expect(&mut c, Action::Send { channel: Channel::Second, code: 0x8000 }, Reply::Failed);
    assert!(stopped(&c));

    let mut c = at_second_read(3, 3);
    c.reply(Reply::Sample(0));
    c.reply(Reply::Filtered(0));
    c.reply(Reply::Done);
    c.reply(Reply::Done);
    c.reply(Reply::Done);
    expect(&mut c, Action::LowerPin, Reply::Failed);
    assert!(stopped(&c));
}

#[test]
fn trigger_starts_both_adcs() {
    let mut t = Trigger::new();
    let order = [
        TriggerAction::ClearFlag,
        TriggerAction::RaisePin,
        TriggerAction::Start(Channel::First),
        TriggerAction::Start(Channel::Second),
        TriggerAction::LowerPin,
    ];
    for action in order {
        assert_eq!(t.action(), Some(action));
        t.reply(true);
    }
    assert_eq!(t.action(), None);
    assert!(!t.failed());
}

#[test]
fn trigger_stops_at_a_failure() {
    let mut t = Trigger::new();
    t.reply(true);
    t.reply(false);
    assert_eq!(t.action(), None);
    assert!(t.failed());
}
