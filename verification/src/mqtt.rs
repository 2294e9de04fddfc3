use vstd::prelude::*;
use crate::color::Rgb;
use crate::text::{
    to_chars, chars_equal, starts_with, split, split_on, views, parse_decimal, parse_unsigned,
};
use crate::animation::simple_color::parse_channel;

verus! {

/// The topic whose payload selects the status number.
pub const STATUS_TOPIC: &'static str = "/LED-STRIP/status";

/// The topic whose payload sets the brightness in percent.
pub const BRIGHTNESS_TOPIC: &'static str = "/LED-STRIP/brightness";

/// The topics under which an animation is chosen by the last part of the topic.
pub const ANIMATION_TOPICS: &'static str = "/LED-STRIP/animation/#";

/// The beginning of every animation topic.
pub const ANIMATION_PREFIX: &'static str = "/LED-STRIP/animation/";

/// The topics under which animations take parameters.
pub const PARAMETER_TOPIC: &'static str = "/LED-STRIP/parameter";

pub const PARAMETER_TOPICS: &'static str = "/LED-STRIP/parameter/#";

/// Calls `str::to_lowercase` on the string of the characters `s` and returns the
/// characters of the result. The Unicode rules it applies take pages to state, so
/// the result is named: it depends on the characters of `s` alone.
pub uninterp spec fn lowercase_of(s: Seq<char>) -> Seq<char>;

/// Calls `str::to_lowercase` on the characters of `s`; see `lowercase_of`.
#[verifier::external_body]
fn to_lowercase(s: &Vec<char>) -> (r: Vec<char>)
    ensures
        r@ == lowercase_of(s@),
{
    let text: String = s.iter().collect();
    text.to_lowercase().chars().collect()
}

/// Why a colour could not be read from a payload `(r, g, b)`.
#[derive(Clone, Copy, Debug, PartialEq, Eq, Structural)]
pub enum ColorParseError {
    /// There are fewer than three comma-separated values.
    MissingValues,
    /// One of the first three values is not a number from 0 to 255.
    InvalidValues,
}

/// Spaces and round brackets, which a colour payload may hold anywhere.
pub open spec fn is_decoration(c: char) -> bool {
    c == ' ' || c == '(' || c == ')'
}

pub open spec fn undecorated(s: Seq<char>) -> Seq<char> {
    s.filter(|c: char| !is_decoration(c))
}

/// The colour that a payload such as `(255, 0, 128)` names: spaces and brackets
/// are ignored, and the first three comma-separated values are decimal numbers
/// from 0 to 255; further values are ignored.
pub open spec fn comma_color(s: Seq<char>) -> Result<Rgb, ColorParseError> {
    let parts = split_on(undecorated(s), ',');
    if parts.len() < 3 {
        Err(ColorParseError::MissingValues)
    } else if parse_unsigned(parts[0], 255) is Some && parse_unsigned(parts[1], 255) is Some
        && parse_unsigned(parts[2], 255) is Some {
        Ok(Rgb {
            red: parse_unsigned(parts[0], 255)->0 as u8,
            green: parse_unsigned(parts[1], 255)->0 as u8,
            blue: parse_unsigned(parts[2], 255)->0 as u8,
        })
    } else {
        Err(ColorParseError::InvalidValues)
    }
}

/// Reads a colour from a payload such as `(255, 0, 128)`.
pub fn color_from_str(string: &str) -> (r: Result<Rgb, ColorParseError>)
    ensures
        r == comma_color(string@),
{
    let chars = to_chars(string);
    let mut cleaned: Vec<char> = Vec::new();
    let mut i: usize = 0;
    while i < chars.len()
        invariant
            i <= chars@.len(),
            chars@ == string@,
            cleaned@ == undecorated(chars@.take(i as int)),
        decreases chars@.len() - i,
    {
        let c = chars[i];
        proof {
            reveal(Seq::filter);
            assert(chars@.take(i + 1).drop_last() =~= chars@.take(i as int));
        }
        if !(c == ' ' || c == '(' || c == ')') {
            cleaned.push(c);
        }
        i = i + 1;
    }
    assert(chars@.take(i as int) =~= chars@);
    let split = split(&cleaned, ',');
    assert(views(split@).len() == split@.len());
    if split.len() < 3 {
        return Err(ColorParseError::MissingValues);
    }
    assert(views(split@)[0] == split@[0]@);
    assert(views(split@)[1] == split@[1]@);
    assert(views(split@)[2] == split@[2]@);
    let r = parse_channel(&split[0]);
    let g = parse_channel(&split[1]);
    let b = parse_channel(&split[2]);
    match (r, g, b) {
        (Some(r), Some(g), Some(b)) => Ok(Rgb::new(r, g, b)),
        _ => Err(ColorParseError::InvalidValues),
    }
}

/// An animation that a message asks for, with the parameters it starts with;
/// hues and steps are in degrees.
#[derive(Clone, Copy, Debug, PartialEq, Eq, Structural)]
pub enum AnimationRequest {
    Off,
    Color(Rgb),
    Firework,
    FullRainbow { wheel_step: u32 },
    RainbowFade { initial_hue: u16, step_size: u16 },
    RainbowChase { initial_hue: u16, step_size: u16 },
}

/// What a message on an animation topic amounts to.
#[derive(Clone, Copy, Debug, PartialEq, Eq, Structural)]
pub enum AnimationChoice {
    /// Start this animation.
    Start(AnimationRequest),
    /// The colour animation was asked for, but the payload names no colour.
    BadColor(ColorParseError),
    /// The topic names no animation.
    Unknown,
}

/// What the controller does with a message.
#[derive(Clone, Copy, Debug, PartialEq, Eq, Structural)]
pub enum Route {
    /// The status topic, with the number its payload holds, if it holds one.
    Status(Option<u32>),
    /// The brightness topic; its payload is a percentage.
    Brightness,
    /// An animation topic.
    Animation(AnimationChoice),
    /// Any other topic: the message is kept for the running animation.
    Other,
}

/// What a message on an animation topic whose last part is `name`, already in
/// lower case, asks for.
pub open spec fn animation_choice(name: Seq<char>, payload: Seq<char>) -> AnimationChoice {
    if name == "off"@ {
        AnimationChoice::Start(AnimationRequest::Off)
    } else if name == "color"@ {
        match comma_color(payload) {
            Ok(c) => AnimationChoice::Start(AnimationRequest::Color(c)),
            Err(e) => AnimationChoice::BadColor(e),
        }
    } else if name == "firework"@ {
        AnimationChoice::Start(AnimationRequest::Firework)
    } else if name == "rainbow-full"@ {
        AnimationChoice::Start(AnimationRequest::FullRainbow { wheel_step: 6 })
    } else if name == "rainbow"@ {
        AnimationChoice::Start(AnimationRequest::RainbowFade { initial_hue: 0, step_size: 3 })
    } else if name == "chase"@ {
        AnimationChoice::Start(AnimationRequest::RainbowChase { initial_hue: 0, step_size: 30 })
    } else {
        AnimationChoice::Unknown
    }
}

/// The number a status payload holds, as `str::parse::<u32>` reads it.
pub open spec fn status_number(payload: Seq<char>) -> Option<u32> {
    match parse_unsigned(payload, u32::MAX as nat) {
        Some(v) => Some(v as u32),
        None => None,
    }
}

/// What the controller does with a message on `topic` that carries `payload`.
pub open spec fn route(topic: Seq<char>, payload: Seq<char>) -> Route {
    if topic == STATUS_TOPIC@ {
        Route::Status(status_number(payload))
    } else if topic == BRIGHTNESS_TOPIC@ {
        Route::Brightness
    } else if is_animation_topic(topic) {
        Route::Animation(animation_choice(lowercase_of(split_on(topic, '/').last()), payload))
    } else {
        Route::Other
    }
}

/// Whether `topic` lies under `/LED-STRIP/animation/`.
pub open spec fn is_animation_topic(topic: Seq<char>) -> bool {
    ANIMATION_PREFIX@.len() <= topic.len() && topic.take(ANIMATION_PREFIX@.len() as int) == ANIMATION_PREFIX@
}

/// An animation topic is read by its last part alone, and by that part in lower
/// case: two animation topics whose last parts agree in lower case ask for the
/// same thing.
pub proof fn law_animation_name_case_insensitive(t1: Seq<char>, t2: Seq<char>, payload: Seq<char>)
    requires
        t1 != STATUS_TOPIC@,
        t1 != BRIGHTNESS_TOPIC@,
        t2 != STATUS_TOPIC@,
        t2 != BRIGHTNESS_TOPIC@,
        is_animation_topic(t1),
        is_animation_topic(t2),
        lowercase_of(split_on(t1, '/').last()) == lowercase_of(split_on(t2, '/').last()),
    ensures
        route(t1, payload) == route(t2, payload),
{
}

/// Spaces and round brackets in a colour payload make no difference.
pub proof fn law_color_ignores_decoration(s: Seq<char>, t: Seq<char>)
    requires
        undecorated(s) == undecorated(t),
    ensures
        comma_color(s) == comma_color(t),
{
}

/// Decides what a message on an animation topic asks for, from the topic's last
/// part `name`, already in lower case, and the message's payload.
pub fn animation_for(name: &Vec<char>, payload: &str) -> (c: AnimationChoice)
    ensures
        c == animation_choice(name@, payload@),
{
    if chars_equal(name, &to_chars("off")) {
        AnimationChoice::Start(AnimationRequest::Off)
    } else if chars_equal(name, &to_chars("color")) {
        match color_from_str(payload) {
            Ok(c) => AnimationChoice::Start(AnimationRequest::Color(c)),
            Err(e) => AnimationChoice::BadColor(e),
        }
    } else if chars_equal(name, &to_chars("firework")) {
        AnimationChoice::Start(AnimationRequest::Firework)
    } else if chars_equal(name, &to_chars("rainbow-full")) {
        AnimationChoice::Start(AnimationRequest::FullRainbow { wheel_step: 6 })
    } else if chars_equal(name, &to_chars("rainbow")) {
        AnimationChoice::Start(AnimationRequest::RainbowFade { initial_hue: 0, step_size: 3 })
    } else if chars_equal(name, &to_chars("chase")) {
        AnimationChoice::Start(AnimationRequest::RainbowChase { initial_hue: 0, step_size: 30 })
    } else {
        AnimationChoice::Unknown
    }
}

/// Decides what the controller does with a message on `topic` carrying
/// `payload`: the status and brightness topics set those values, a topic under
/// `/LED-STRIP/animation/` chooses an animation by its last part, in any case,
/// and any other message is kept for the running animation.
pub fn route_message(topic: &str, payload: &str) -> (r: Route)
    ensures
        r == route(topic@, payload@),
{
    let topic_chars = to_chars(topic);
    if chars_equal(&topic_chars, &to_chars(STATUS_TOPIC)) {
        let number = parse_decimal(&to_chars(payload), u32::MAX);
        Route::Status(number)
    } else if chars_equal(&topic_chars, &to_chars(BRIGHTNESS_TOPIC)) {
        Route::Brightness
    } else if starts_with(&topic_chars, &to_chars(ANIMATION_PREFIX)) {
        let parts = split(&topic_chars, '/');
        proof { crate::text::lemma_split_on_nonempty(topic@, '/'); }
        assert(views(parts@).len() == parts@.len());
        let last = parts.len() - 1;
        assert(views(parts@)[last as int] == parts@[last as int]@);
        let name = to_lowercase(&parts[last]);
        Route::Animation(animation_for(&name, payload))
    } else {
        Route::Other
    }
}

} // verus!
