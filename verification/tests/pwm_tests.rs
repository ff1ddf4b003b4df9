use rgb_led::RgbLed;
use rgb_led::accessor::Blue;
use rgb_led::accessor::Green;
use rgb_led::accessor::Red;
use rgb_led::duty::DutyFrac;
use rgb_led::duty::frac_to_duty;
use rgb_led::rgb::PwmAccessorRgbExt;
use rgb_led::soft::SoftPin;

fn device() -> RgbLed<SoftPin, SoftPin, SoftPin> {
    RgbLed::new(SoftPin::new(1, 1000), SoftPin::new(2, 1000), SoftPin::new(3, 1000))
}

#[test]
fn enable_disable_single() {
    let mut led = device();
    led.enable::<Red>();
    assert!(led.red.running);
    assert!(!led.green.running);
    led.disable::<Red>();
    assert!(!led.red.running);
}

#[test]
fn enable_disable_combinations() {
    let mut led = device();
    led.enable::<(Red, Green, Blue)>();
    assert!(led.red.running && led.green.running && led.blue.running);
    led.disable::<(Blue, Green)>();
    assert!(led.red.running);
    assert!(!led.green.running && !led.blue.running);
}

#[test]
fn set_duty_single_and_pair() {
    let mut led = device();
    led.set_duty::<Red>(250);
    assert_eq!(led.red.duty_value, 250);
    assert_eq!(led.green.duty_value, 0);
    led.set_duty::<(Green, Blue)>(700);
    assert_eq!(led.green.duty_value, 700);
    assert_eq!(led.blue.duty_value, 700);
    assert_eq!(led.red.duty_value, 250);
}

#[test]
fn get_duty_and_max_duty_single() {
    let mut led = device();
    assert_eq!(led.get_max_duty::<Red>(), 1000);
    led.set_duty::<Blue>(123);
    assert_eq!(led.get_duty::<Blue>(), 123);
    assert_eq!(led.get_duty::<Red>(), 0);
}

#[test]
fn duty_frac_one_is_max_duty() {
    let mut led = device();
    led.set_duty_frac::<Red>(DutyFrac::one());
    assert_eq!(led.red.duty_value, led.get_max_duty::<Red>());
    assert_eq!(led.red.duty_value, 1000);
}

#[test]
fn duty_frac_zero_is_zero() {
    let mut led = device();
    led.set_duty::<Red>(400);
    led.set_duty_frac::<Red>(DutyFrac::zero());
    assert_eq!(led.red.duty_value, 0);
}

#[test]
fn duty_frac_above_one_clamps() {
    let mut first = device();
    let mut second = device();
    first.set_duty_frac::<Green>(DutyFrac::new(3, 2));
    second.set_duty_frac::<Green>(DutyFrac::one());
    assert_eq!(first.green.duty_value, second.green.duty_value);
    assert_eq!(first.green.duty_value, 1000);
}

#[test]
fn duty_frac_truncates() {
    let mut led = device();
    led.set_duty_frac::<Blue>(DutyFrac::new(1, 3));
    assert_eq!(led.blue.duty_value, 333);
}

#[test]
fn duty_frac_pair_and_triple() {
    let mut led = device();
    led.set_duty_frac::<(Red, Blue)>(DutyFrac::new(1, 2));
    assert_eq!(led.red.duty_value, 500);
    assert_eq!(led.blue.duty_value, 500);
    assert_eq!(led.green.duty_value, 0);
    led.set_duty_frac::<(Green, Red, Blue)>(DutyFrac::new(1, 4));
    assert_eq!(led.red.duty_value, 250);
    assert_eq!(led.green.duty_value, 250);
    assert_eq!(led.blue.duty_value, 250);
}

#[test]
fn frac_to_duty_exact_values() {
    assert_eq!(frac_to_duty(1000, DutyFrac::new(1, 2)), 500);
    assert_eq!(frac_to_duty(1000, DutyFrac::new(1, 3)), 333);
    assert_eq!(frac_to_duty(255, DutyFrac::new(128, 255)), 128);
    assert_eq!(frac_to_duty(100, DutyFrac::new(7, 9)), 77);
    assert_eq!(frac_to_duty(100, DutyFrac::new(9, 7)), 100);
    assert_eq!(frac_to_duty(u32::MAX, DutyFrac::new(1, 1)), u32::MAX);
    assert_eq!(frac_to_duty(u32::MAX, DutyFrac::new(u32::MAX - 1, u32::MAX)), u32::MAX - 1);
}

#[test]
fn set_rgb_drives_channels_by_color() {
    let mut led = device();
    led.set_rgb(DutyFrac::one(), DutyFrac::zero(), DutyFrac::new(1, 2));
    assert_eq!(led.red.duty_value, 1000);
    assert_eq!(led.green.duty_value, 0);
    assert_eq!(led.blue.duty_value, 500);
}

#[test]
fn set_rgb_order_independent() {
    let r = DutyFrac::new(3, 4);
    let g = DutyFrac::new(1, 4);
    let b = DutyFrac::new(1, 8);
    let mut reference = device();
    <(Red, Green, Blue) as PwmAccessorRgbExt<_, _, _>>::set_rgb(&mut reference, r, g, b);
    assert_eq!(reference.red.duty_value, 750);
    assert_eq!(reference.green.duty_value, 250);
    assert_eq!(reference.blue.duty_value, 125);

    let mut led = device();
    <(Red, Blue, Green) as PwmAccessorRgbExt<_, _, _>>::set_rgb(&mut led, r, g, b);
    assert_eq!(led.red.duty_value, 750);
    assert_eq!(led.green.duty_value, 250);
    assert_eq!(led.blue.duty_value, 125);

    let mut led = device();
    <(Green, Red, Blue) as PwmAccessorRgbExt<_, _, _>>::set_rgb(&mut led, r, g, b);
    assert_eq!(led.red.duty_value, 750);
    assert_eq!(led.green.duty_value, 250);
    assert_eq!(led.blue.duty_value, 125);

    let mut led = device();
    <(Green, Blue, Red) as PwmAccessorRgbExt<_, _, _>>::set_rgb(&mut led, r, g, b);
    assert_eq!(led.red.duty_value, 750);
    assert_eq!(led.green.duty_value, 250);
    assert_eq!(led.blue.duty_value, 125);

    let mut led = device();
    <(Blue, Red, Green) as PwmAccessorRgbExt<_, _, _>>::set_rgb(&mut led, r, g, b);
    assert_eq!(led.red.duty_value, 750);
    assert_eq!(led.green.duty_value, 250);
    assert_eq!(led.blue.duty_value, 125);

    let mut led = device();
    <(Blue, Green, Red) as PwmAccessorRgbExt<_, _, _>>::set_rgb(&mut led, r, g, b);
    assert_eq!(led.red.duty_value, 750);
    assert_eq!(led.green.duty_value, 250);
    assert_eq!(led.blue.duty_value, 125);
}

#[test]
fn set_rgb_u8_matches_set_rgb() {
    let mut bytes = device();
    bytes.set_rgb_u8(255, 0, 128);
    let mut fracs = device();
    fracs.set_rgb(DutyFrac::one(), DutyFrac::zero(), DutyFrac::new(128, 255));
    assert_eq!(bytes.red.duty_value, fracs.red.duty_value);
    assert_eq!(bytes.green.duty_value, fracs.green.duty_value);
    assert_eq!(bytes.blue.duty_value, fracs.blue.duty_value);
    assert_eq!(bytes.red.duty_value, 1000);
    assert_eq!(bytes.green.duty_value, 0);
    assert_eq!(bytes.blue.duty_value, 501);
}

#[test]
fn pwm_mutators_keep_other_state() {
    let mut led = device();
    led.set_duty::<Red>(600);
    led.enable::<Red>();
    assert_eq!(led.red.duty_value, 600);
    led.disable::<Red>();
    assert_eq!(led.red.duty_value, 600);
    assert_eq!(led.get_max_duty::<Red>(), 1000);
}

#[test]
fn pwm_pair_order_independent() {
    let mut first = device();
    let mut second = device();
    first.set_duty::<(Red, Green)>(640);
    first.enable::<(Red, Green)>();
    second.set_duty::<(Green, Red)>(640);
    second.enable::<(Green, Red)>();
    assert_eq!(first.red.duty_value, second.red.duty_value);
    assert_eq!(first.green.duty_value, second.green.duty_value);
    assert_eq!(first.red.running, second.red.running);
    assert_eq!(first.green.running, second.green.running);
    assert_eq!(first.blue.duty_value, second.blue.duty_value);
}

#[test]
fn duty_frac_triple_order_independent() {
    let f = rgb_led::duty::DutyFrac::new(2, 5);
    let mut first = device();
    let mut second = device();
    first.set_duty_frac::<(Red, Green, Blue)>(f);
    second.set_duty_frac::<(Blue, Green, Red)>(f);
    assert_eq!(first.red.duty_value, second.red.duty_value);
    assert_eq!(first.green.duty_value, second.green.duty_value);
    assert_eq!(first.blue.duty_value, second.blue.duty_value);
    assert_eq!(first.red.duty_value, 400);
}
