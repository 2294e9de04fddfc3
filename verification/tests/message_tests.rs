use lumibaer::animation::simple_color::{ColorFormatError, SimpleColor};
use lumibaer::color::Rgb;
use lumibaer::mqtt::{
    animation_for, color_from_str, route_message, AnimationChoice, AnimationRequest, ColorParseError, Route,
};
use lumibaer::strip::Strip;

#[test]
fn simple_color_takes_slash_payload() {
    let mut animation = SimpleColor::new(Rgb::new(1, 2, 3));
    assert_eq!(animation.on_message("10/20/30"), Ok(()));
    let mut strip = Strip::new(2);
    animation.initialize(&mut strip);
    assert_eq!(strip.get_pixels(), vec![Rgb::new(10, 20, 30); 2]);
}

#[test]
fn simple_color_accepts_plus_and_leading_zeros() {
    let mut animation = SimpleColor::new(Rgb::new(1, 2, 3));
    assert_eq!(animation.on_message("+255/007/0"), Ok(()));
    let mut strip = Strip::new(1);
    animation.initialize(&mut strip);
    assert_eq!(strip.get_pixel(0), Rgb::new(255, 7, 0));
}

fn colour_after(payload: &str) -> (Result<(), ColorFormatError>, Rgb) {
    let mut animation = SimpleColor::new(Rgb::new(1, 2, 3));
    let result = animation.on_message(payload);
    let mut strip = Strip::new(1);
    animation.initialize(&mut strip);
    (result, strip.get_pixel(0))
}

#[test]
fn simple_color_refuses_wrong_part_count() {
    assert_eq!(colour_after("1/2"), (Err(ColorFormatError::WrongPartCount), Rgb::new(1, 2, 3)));
    assert_eq!(colour_after("1/2/3/"), (Err(ColorFormatError::WrongPartCount), Rgb::new(1, 2, 3)));
    assert_eq!(colour_after(""), (Err(ColorFormatError::WrongPartCount), Rgb::new(1, 2, 3)));
    assert_eq!(ColorFormatError::WrongPartCount.code(), 0);
}

#[test]
fn simple_color_refuses_bad_values_in_order() {
    assert_eq!(colour_after("256/2/3").0, Err(ColorFormatError::InvalidRed));
    assert_eq!(colour_after("x/y/z").0, Err(ColorFormatError::InvalidRed));
    assert_eq!(colour_after("1/-2/3").0, Err(ColorFormatError::InvalidGreen));
    assert_eq!(colour_after("1/2/ 3").0, Err(ColorFormatError::InvalidBlue));
    assert_eq!(colour_after("1/2/+").0, Err(ColorFormatError::InvalidBlue));
    assert_eq!(colour_after("1/2/3a").1, Rgb::new(1, 2, 3));
    assert_eq!(ColorFormatError::InvalidRed.code(), 1);
    assert_eq!(ColorFormatError::InvalidGreen.code(), 2);
    assert_eq!(ColorFormatError::InvalidBlue.code(), 3);
}

#[test]
fn comma_colour_ignores_spaces_and_brackets() {
    assert_eq!(color_from_str("(255, 0, 128)"), Ok(Rgb::new(255, 0, 128)));
    assert_eq!(color_from_str("1,2,3"), Ok(Rgb::new(1, 2, 3)));
    assert_eq!(color_from_str(" ( 1 ,2,3)) "), Ok(Rgb::new(1, 2, 3)));
    assert_eq!(color_from_str("1,2,3,4"), Ok(Rgb::new(1, 2, 3)));
    assert_eq!(color_from_str("1,2,3,x"), Ok(Rgb::new(1, 2, 3)));
}

#[test]
fn comma_colour_errors() {
    assert_eq!(color_from_str("1,2"), Err(ColorParseError::MissingValues));
    assert_eq!(color_from_str(""), Err(ColorParseError::MissingValues));
    assert_eq!(color_from_str("1,2,300"), Err(ColorParseError::InvalidValues));
    assert_eq!(color_from_str("1,,3"), Err(ColorParseError::InvalidValues));
    assert_eq!(color_from_str("1;2;3"), Err(ColorParseError::MissingValues));
}

#[test]
fn status_topic_parses_u32() {
    assert_eq!(route_message("/LED-STRIP/status", "42"), Route::Status(Some(42)));
    assert_eq!(route_message("/LED-STRIP/status", "4294967295"), Route::Status(Some(4294967295)));
    assert_eq!(route_message("/LED-STRIP/status", "4294967296"), Route::Status(None));
    assert_eq!(route_message("/LED-STRIP/status", "on"), Route::Status(None));
}

#[test]
fn brightness_topic() {
    assert_eq!(route_message("/LED-STRIP/brightness", "50"), Route::Brightness);
}

#[test]
fn animation_topics_choose_animations() {
    let start = |r| Route::Animation(AnimationChoice::Start(r));
    assert_eq!(route_message("/LED-STRIP/animation/off", ""), start(AnimationRequest::Off));
    assert_eq!(route_message("/LED-STRIP/animation/firework", ""), start(AnimationRequest::Firework));
    assert_eq!(
        route_message("/LED-STRIP/animation/rainbow-full", ""),
        start(AnimationRequest::FullRainbow { wheel_step: 6 })
    );
    assert_eq!(
        route_message("/LED-STRIP/animation/rainbow", ""),
        start(AnimationRequest::RainbowFade { initial_hue: 0, step_size: 3 })
    );
    assert_eq!(
        route_message("/LED-STRIP/animation/chase", ""),
        start(AnimationRequest::RainbowChase { initial_hue: 0, step_size: 30 })
    );
    assert_eq!(
        route_message("/LED-STRIP/animation/color", "(0, 128, 255)"),
        start(AnimationRequest::Color(Rgb::new(0, 128, 255)))
    );
}

#[test]
fn animation_names_ignore_case() {
    assert_eq!(
        route_message("/LED-STRIP/animation/OFF", ""),
        Route::Animation(AnimationChoice::Start(AnimationRequest::Off))
    );
    assert_eq!(
        route_message("/LED-STRIP/animation/FireWork", ""),
        Route::Animation(AnimationChoice::Start(AnimationRequest::Firework))
    );
}

#[test]
fn animation_name_is_last_topic_part() {
    assert_eq!(
        route_message("/LED-STRIP/animation/x/chase", ""),
        Route::Animation(AnimationChoice::Start(AnimationRequest::RainbowChase { initial_hue: 0, step_size: 30 }))
    );
    assert_eq!(route_message("/LED-STRIP/animation/", ""), Route::Animation(AnimationChoice::Unknown));
    assert_eq!(route_message("/LED-STRIP/animation/blink", ""), Route::Animation(AnimationChoice::Unknown));
}

#[test]
fn bad_colour_payload_is_reported() {
    assert_eq!(
        route_message("/LED-STRIP/animation/color", "1,2"),
        Route::Animation(AnimationChoice::BadColor(ColorParseError::MissingValues))
    );
    assert_eq!(
        route_message("/LED-STRIP/animation/color", "1,2,x"),
        Route::Animation(AnimationChoice::BadColor(ColorParseError::InvalidValues))
    );
}

#[test]
fn other_topics_are_kept() {
    assert_eq!(route_message("/LED-STRIP/parameter", "1/2/3"), Route::Other);
    assert_eq!(route_message("/LED-STRIP/parameter/speed", "3"), Route::Other);
    assert_eq!(route_message("/LED-STRIP/animation", "x"), Route::Other);
    assert_eq!(route_message("/LED-STRIP/Status", "1"), Route::Other);
}

#[test]
fn lower_case_names_choose_animations() {
    let name: Vec<char> = "chase".chars().collect();
    assert_eq!(
        animation_for(&name, ""),
        AnimationChoice::Start(AnimationRequest::RainbowChase { initial_hue: 0, step_size: 30 })
    );
    let upper: Vec<char> = "CHASE".chars().collect();
    assert_eq!(animation_for(&upper, ""), AnimationChoice::Unknown);
}
