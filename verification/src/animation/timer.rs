use vstd::prelude::*;
use crate::color::{Rgb, black};
use crate::strip::Strip;

verus! {

#[verifier::external_type_specification]
#[verifier::external_body]
pub struct ExSystemTime(std::time::SystemTime);

/// Calls `std::time::SystemTime::now()`. The result is the clock's reading, of which
/// nothing is claimed.
#[verifier::external_body]
fn system_time_now() -> std::time::SystemTime {
    std::time::SystemTime::now()
}

/// Calls `std::time::SystemTime::elapsed`, turning its error (the clock went back)
/// into `None`. The result is the clock's reading, of which nothing is claimed.
#[verifier::external_body]
fn system_time_elapsed(start: &std::time::SystemTime) -> Option<std::time::Duration> {
    start.elapsed().ok()
}

/// Calls `std::time::Duration::as_millis`. Nothing is claimed of the result: the
/// duration it reads is opaque here.
#[verifier::external_body]
fn duration_as_millis(d: &std::time::Duration) -> u128 {
    d.as_millis()
}

/// The colour of the part of the strip that counts down.
pub open spec fn timer_red() -> Rgb {
    Rgb { red: 245, green: 0, blue: 0 }
}

/// A countdown bar: the lit part of the strip shrinks as the time runs out.
pub struct Timer {
    target_secs: u64,
    start_time: std::time::SystemTime,
}

impl Timer {
    /// How long the countdown runs, in seconds.
    pub closed spec fn target_secs(&self) -> u64 {
        self.target_secs
    }

    /// A countdown of `timer` seconds that starts now.
    pub fn new(timer: u64) -> (t: Timer)
        ensures
            t.target_secs() == timer,
    {
        Timer { target_secs: timer, start_time: system_time_now() }
    }

    /// The length of the countdown in milliseconds.
    pub fn target_millis(&self) -> (ms: u128)
        ensures
            ms == self.target_secs() * 1000,
    {
        self.target_secs as u128 * 1000
    }

    /// The milliseconds since the countdown started, or `None` when the clock
    /// went back.
    pub fn elapsed_millis(&self) -> Option<u128> {
        match system_time_elapsed(&self.start_time) {
            Some(d) => Some(duration_as_millis(&d)),
            None => None,
        }
    }

    /// Lights the first `last_active_led` pixels and turns the others black.
    pub fn show_remaining(&self, strip: &mut Strip, last_active_led: usize)
        ensures
            final(strip)@ == Seq::new(old(strip)@.len(), |i: int|
                if i < last_active_led { timer_red() } else { black() }),
            final(strip).is_shut_down() == old(strip).is_shut_down(),
    {
        let amount_leds = strip.get_width();
        let mut i: usize = 0;
        while i < amount_leds
            invariant
                i <= amount_leds,
                amount_leds == old(strip)@.len(),
                strip@.len() == amount_leds,
                strip.is_shut_down() == old(strip).is_shut_down(),
                forall|j: int| 0 <= j < i ==> #[trigger] strip@[j] == (if j < last_active_led { timer_red() } else { black() }),
            decreases amount_leds - i,
        {
            if i < last_active_led {
                strip.set_pixel(i, Rgb::new(245, 0, 0));
            } else {
                strip.set_pixel(i, Rgb::black());
            }
            i = i + 1;
        }
        assert(strip@ =~= Seq::new(old(strip)@.len(), |i: int|
            if i < last_active_led { timer_red() } else { black() }));
    }
}

} // verus!
