use rgb_led::RgbLed;
use rgb_led::accessor::Blue;
use rgb_led::accessor::Green;
use rgb_led::accessor::Red;
use rgb_led::channel::PinLevel;
use rgb_led::soft::SoftError;
use rgb_led::soft::SoftPin;

fn device() -> RgbLed<SoftPin, SoftPin, SoftPin> {
    RgbLed::new(SoftPin::new(1, 1000), SoftPin::new(2, 1000), SoftPin::new(3, 1000))
}

#[test]
fn new_installs_channels() {
    let led = device();
    assert_eq!(led.red.id, 1);
    assert_eq!(led.green.id, 2);
    assert_eq!(led.blue.id, 3);
    assert_eq!(led.red.level, PinLevel::Low);
    assert_eq!(led.green.level, PinLevel::Low);
    assert_eq!(led.blue.level, PinLevel::Low);
}

#[test]
fn single_set_high_touches_one_channel() {
    let mut led = device();
    led.set_high::<Red>().unwrap();
    assert_eq!(led.red.level, PinLevel::High);
    assert_eq!(led.green.level, PinLevel::Low);
    assert_eq!(led.blue.level, PinLevel::Low);
}

#[test]
fn single_set_low_after_high() {
    let mut led = device();
    led.set_high::<Green>().unwrap();
    led.set_low::<Green>().unwrap();
    assert_eq!(led.green.level, PinLevel::Low);
}

#[test]
fn single_set_state_both_levels() {
    let mut led = device();
    led.set_state::<Blue>(PinLevel::High).unwrap();
    assert_eq!(led.blue.level, PinLevel::High);
    led.set_state::<Blue>(PinLevel::Low).unwrap();
    assert_eq!(led.blue.level, PinLevel::Low);
}

#[test]
fn single_queries_read_back_the_level() {
    let mut led = device();
    assert_eq!(led.is_set_low::<Red>(), Ok(true));
    assert_eq!(led.is_set_high::<Red>(), Ok(false));
    led.set_high::<Red>().unwrap();
    assert_eq!(led.is_set_low::<Red>(), Ok(false));
    assert_eq!(led.is_set_high::<Red>(), Ok(true));
}

#[test]
fn pair_set_high_drives_both() {
    let mut led = device();
    led.set_high::<(Red, Blue)>().unwrap();
    assert_eq!(led.red.level, PinLevel::High);
    assert_eq!(led.blue.level, PinLevel::High);
    assert_eq!(led.green.level, PinLevel::Low);
}

#[test]
fn pair_set_high_order_independent() {
    let mut first = device();
    let mut second = device();
    first.set_high::<(Red, Blue)>().unwrap();
    second.set_high::<(Blue, Red)>().unwrap();
    assert_eq!(first.red.level, second.red.level);
    assert_eq!(first.green.level, second.green.level);
    assert_eq!(first.blue.level, second.blue.level);
}

#[test]
fn triple_set_state_order_independent() {
    let mut reference = device();
    reference.set_state::<(Red, Green, Blue)>(PinLevel::High).unwrap();
    let mut other = device();
    other.set_state::<(Red, Blue, Green)>(PinLevel::High).unwrap();
    assert_eq!(reference.red.level, other.red.level);
    assert_eq!(reference.green.level, other.green.level);
    assert_eq!(reference.blue.level, other.blue.level);
    let mut third = device();
    third.set_state::<(Green, Red, Blue)>(PinLevel::High).unwrap();
    assert_eq!(reference.red.level, third.red.level);
    let mut fourth = device();
    fourth.set_state::<(Green, Blue, Red)>(PinLevel::High).unwrap();
    assert_eq!(reference.red.level, fourth.red.level);
    let mut fifth = device();
    fifth.set_state::<(Blue, Red, Green)>(PinLevel::High).unwrap();
    assert_eq!(reference.red.level, fifth.red.level);
    let mut sixth = device();
    sixth.set_state::<(Blue, Green, Red)>(PinLevel::High).unwrap();
    assert_eq!(reference.red.level, sixth.red.level);
}

#[test]
fn pair_query_is_a_conjunction() {
    let mut led = device();
    led.set_high::<Green>().unwrap();
    assert_eq!(led.is_set_low::<(Red, Green)>(), Ok(false));
    assert_eq!(led.is_set_high::<(Red, Green)>(), Ok(false));
    assert_eq!(led.is_set_low::<(Green, Red)>(), Ok(false));
    assert_eq!(led.is_set_high::<(Green, Red)>(), Ok(false));
    assert_eq!(led.is_set_low::<(Red, Blue)>(), Ok(true));
    led.set_high::<Red>().unwrap();
    assert_eq!(led.is_set_high::<(Red, Green)>(), Ok(true));
    assert_eq!(led.is_set_high::<(Green, Red)>(), Ok(true));
}

#[test]
fn triple_query_is_a_conjunction() {
    let mut led = device();
    led.set_high::<(Red, Green, Blue)>().unwrap();
    assert_eq!(led.is_set_high::<(Red, Green, Blue)>(), Ok(true));
    assert_eq!(led.is_set_high::<(Blue, Green, Red)>(), Ok(true));
    led.set_low::<Blue>().unwrap();
    assert_eq!(led.is_set_high::<(Red, Green, Blue)>(), Ok(false));
    assert_eq!(led.is_set_low::<(Red, Green, Blue)>(), Ok(false));
}

#[test]
fn toggle_single_flips() {
    let mut led = device();
    led.toggle::<Red>().unwrap();
    assert_eq!(led.red.level, PinLevel::High);
    led.toggle::<Red>().unwrap();
    assert_eq!(led.red.level, PinLevel::Low);
}

#[test]
fn toggle_pair_flips_both() {
    let mut led = device();
    led.set_high::<Green>().unwrap();
    led.toggle::<(Red, Green)>().unwrap();
    assert_eq!(led.red.level, PinLevel::High);
    assert_eq!(led.green.level, PinLevel::Low);
    assert_eq!(led.blue.level, PinLevel::Low);
}

#[test]
fn toggle_triple_flips_all() {
    let mut led = device();
    led.toggle::<(Blue, Green, Red)>().unwrap();
    assert_eq!(led.red.level, PinLevel::High);
    assert_eq!(led.green.level, PinLevel::High);
    assert_eq!(led.blue.level, PinLevel::High);
}

#[test]
fn failing_single_reports_its_error() {
    let mut led = device();
    led.red = led.red.failing();
    assert_eq!(led.set_low::<Red>(), Err(SoftError { id: 1 }));
    assert_eq!(led.set_high::<Red>(), Err(SoftError { id: 1 }));
    assert_eq!(led.is_set_low::<Red>(), Err(SoftError { id: 1 }));
    assert_eq!(led.toggle::<Red>(), Err(SoftError { id: 1 }));
    assert_eq!(led.red.level, PinLevel::Low);
}

#[test]
fn failing_second_channel_short_circuits() {
    let mut led = device();
    led.set_high::<(Red, Green, Blue)>().unwrap();
    led.green = led.green.failing();
    let r = led.set_low::<(Red, Green, Blue)>();
    assert_eq!(r, Err(SoftError { id: 2 }));
    assert_eq!(led.red.level, PinLevel::Low);
    assert_eq!(led.green.level, PinLevel::High);
    assert_eq!(led.blue.level, PinLevel::High);
}

#[test]
fn failing_first_channel_leaves_the_rest() {
    let mut led = device();
    led.set_high::<(Red, Green, Blue)>().unwrap();
    led.green = led.green.failing();
    let r = led.set_low::<(Green, Red, Blue)>();
    assert_eq!(r, Err(SoftError { id: 2 }));
    assert_eq!(led.red.level, PinLevel::High);
    assert_eq!(led.green.level, PinLevel::High);
    assert_eq!(led.blue.level, PinLevel::High);
}

#[test]
fn failing_pair_toggle_short_circuits() {
    let mut led = device();
    led.blue = led.blue.failing();
    let r = led.toggle::<(Red, Blue)>();
    assert_eq!(r, Err(SoftError { id: 3 }));
    assert_eq!(led.red.level, PinLevel::High);
    assert_eq!(led.blue.level, PinLevel::Low);
}

#[test]
fn failing_query_short_circuits() {
    let mut led = device();
    led.green = led.green.failing();
    assert_eq!(led.is_set_low::<(Red, Green)>(), Err(SoftError { id: 2 }));
    assert_eq!(led.is_set_high::<(Green, Red)>(), Err(SoftError { id: 2 }));
}

#[test]
fn toggle_pair_order_independent() {
    let mut first = device();
    let mut second = device();
    first.set_high::<Green>().unwrap();
    second.set_high::<Green>().unwrap();
    first.toggle::<(Green, Blue)>().unwrap();
    second.toggle::<(Blue, Green)>().unwrap();
    assert_eq!(first.red.level, second.red.level);
    assert_eq!(first.green.level, second.green.level);
    assert_eq!(first.blue.level, second.blue.level);
}
