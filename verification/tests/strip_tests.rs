use lumibaer::color::Rgb;
use lumibaer::strip::Strip;

fn red() -> Rgb {
    Rgb::new(255, 0, 0)
}

fn blue() -> Rgb {
    Rgb::new(0, 0, 255)
}

#[test]
fn new_strip_is_black() {
    let strip = Strip::new(4);
    assert_eq!(strip.get_pixel_length(), 4);
    assert_eq!(strip.get_width(), 4);
    assert_eq!(strip.get_pixels(), vec![Rgb::black(); 4]);
}

#[test]
fn set_pixel_reads_back() {
    let mut strip = Strip::new(3);
    strip.set_pixel(1, red());
    assert_eq!(strip.get_pixel(1), red());
    assert_eq!(strip.get_pixel(0), Rgb::black());
    assert_eq!(strip.get_pixel(2), Rgb::black());
}

#[test]
fn set_pixel_beyond_width_is_ignored() {
    let mut strip = Strip::new(3);
    strip.set_pixel(3, red());
    strip.set_pixel(100, red());
    assert_eq!(strip.get_pixels(), vec![Rgb::black(); 3]);
}

#[test]
fn get_pixel_beyond_width_is_white() {
    let strip = Strip::new(2);
    assert_eq!(strip.get_pixel(2), Rgb::white());
}

#[test]
fn shut_down_strip_is_dark() {
    let mut strip = Strip::new(2);
    strip.set_all(red());
    strip.shutdown();
    assert_eq!(strip.get_pixel(0), Rgb::black());
    assert_eq!(strip.get_pixel(5), Rgb::black());
    assert_eq!(strip.get_pixels(), vec![Rgb::black(); 2]);
}

#[test]
fn set_all_and_reset() {
    let mut strip = Strip::new(3);
    strip.set_all(blue());
    assert_eq!(strip.get_pixels(), vec![blue(); 3]);
    strip.reset();
    assert_eq!(strip.get_pixels(), vec![Rgb::black(); 3]);
}

#[test]
fn push_pixel_shifts_along() {
    let mut strip = Strip::new(3);
    strip.push_pixel(red());
    assert_eq!(strip.get_pixels(), vec![red(), Rgb::black(), Rgb::black()]);
    strip.push_pixel(blue());
    assert_eq!(strip.get_pixels(), vec![blue(), red(), Rgb::black()]);
    strip.push_pixel(blue());
    strip.push_pixel(red());
    assert_eq!(strip.get_pixels(), vec![red(), blue(), blue()]);
}

#[test]
fn push_pixel_on_empty_strip() {
    let mut strip = Strip::new(0);
    strip.push_pixel(red());
    assert_eq!(strip.get_pixel_length(), 0);
}

#[test]
fn clone_keeps_pixels() {
    let mut strip = Strip::new(2);
    strip.set_pixel(0, red());
    let copy = strip.clone();
    assert_eq!(copy.get_pixels(), vec![red(), Rgb::black()]);
}

const ZERO: [u8; 2] = [0xF8, 0x00];
const ONE: [u8; 2] = [0xFF, 0x80];

fn channel(v: u8) -> Vec<u8> {
    let mut out = Vec::new();
    for k in 0..8 {
        if v & (0x80 >> k) != 0 {
            out.extend_from_slice(&ONE);
        } else {
            out.extend_from_slice(&ZERO);
        }
    }
    out
}

#[test]
fn spi_bytes_of_one_pixel() {
    let strip = Strip::new(1);
    let bytes = strip.get_led_stip_pixels(&vec![Rgb::new(0x12, 0xA5, 0x01)]);
    assert_eq!(bytes.len(), 48);
    let mut expected = channel(0xA5);
    expected.extend(channel(0x12));
    expected.extend(channel(0x01));
    assert_eq!(bytes, expected);
    // green is sent first: its most significant bit is one
    assert_eq!(&bytes[0..2], &ONE);
}

#[test]
fn spi_bytes_of_a_row() {
    let strip = Strip::new(2);
    let bytes = strip.get_led_stip_pixels(&vec![red(), blue()]);
    assert_eq!(bytes.len(), 96);
    let mut expected = channel(0);
    expected.extend(channel(255));
    expected.extend(channel(0));
    expected.extend(channel(0));
    expected.extend(channel(0));
    expected.extend(channel(255));
    assert_eq!(bytes, expected);
}

#[test]
fn spi_bytes_of_shut_down_strip_are_black() {
    let mut strip = Strip::new(2);
    strip.shutdown();
    let bytes = strip.get_led_stip_pixels(&vec![red(), blue()]);
    let mut expected = Vec::new();
    for _ in 0..6 {
        expected.extend(channel(0));
    }
    assert_eq!(bytes, expected);
}
