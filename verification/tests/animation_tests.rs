use lumibaer::animation::color_band::ColorBand;
use lumibaer::animation::fireworks::Firework;
use lumibaer::animation::full_rainbow::FullRainbow;
use lumibaer::animation::off::Off;
use lumibaer::animation::timer::Timer;
use lumibaer::color::Rgb;
use lumibaer::rainbow_chase::RainbowChase;
use lumibaer::rainbow_fade::RainbowFade;
use lumibaer::scheduler::{AnimationSlot, FrameStep};
use lumibaer::strip::Strip;

#[test]
fn off_turns_strip_black() {
    let mut strip = Strip::new(3);
    strip.set_all(Rgb::new(9, 9, 9));
    Off::new().initialize(&mut strip);
    assert_eq!(strip.get_pixels(), vec![Rgb::black(); 3]);
}

#[test]
fn full_rainbow_turns_the_wheel() {
    let mut rainbow = FullRainbow::new(100);
    assert_eq!(rainbow.update(), 100);
    assert_eq!(rainbow.update(), 200);
    assert_eq!(rainbow.update(), 300);
    assert_eq!(rainbow.update(), 40);
    rainbow.initialize();
    assert_eq!(rainbow.update(), 100);
}

#[test]
fn full_rainbow_six_degree_steps() {
    let mut rainbow = FullRainbow::new(6);
    let mut last = 0;
    for _ in 0..60 {
        last = rainbow.update();
    }
    assert_eq!(last, 0);
}

#[test]
fn timer_lights_the_remaining_part() {
    let timer = Timer::new(5);
    assert_eq!(timer.target_millis(), 5000);
    let mut strip = Strip::new(4);
    timer.show_remaining(&mut strip, 3);
    let red = Rgb::new(245, 0, 0);
    assert_eq!(strip.get_pixels(), vec![red, red, red, Rgb::black()]);
    timer.show_remaining(&mut strip, 0);
    assert_eq!(strip.get_pixels(), vec![Rgb::black(); 4]);
    timer.show_remaining(&mut strip, 10);
    assert_eq!(strip.get_pixels(), vec![red; 4]);
}

#[test]
fn timer_clock_runs() {
    let timer = Timer::new(1);
    let elapsed = timer.elapsed_millis().unwrap();
    assert!(elapsed < 10_000);
}

fn lit(strip: &Strip) -> Vec<(usize, Rgb)> {
    strip
        .get_pixels()
        .into_iter()
        .enumerate()
        .filter(|(_, c)| *c != Rgb::black())
        .collect()
}

#[test]
fn firework_moves_every_third_frame() {
    let mut firework = Firework::new();
    let mut strip = Strip::new(200);
    strip.set_pixel(7, Rgb::new(1, 1, 1));
    firework.update(&mut strip);
    firework.update(&mut strip);
    // nothing is drawn on the first two frames
    assert_eq!(lit(&strip), vec![(7, Rgb::new(1, 1, 1))]);
    firework.update(&mut strip);
    let shown = lit(&strip);
    assert_eq!(shown.len(), 1);
    let (position, color) = shown[0];
    assert!((3..6).contains(&position));
    assert_eq!(color, Rgb::white());
}

#[test]
fn firework_rocket_climbs_then_bursts() {
    let palette = [Rgb::new(255, 0, 0), Rgb::new(0, 0, 255), Rgb::new(255, 0, 255)];
    for _ in 0..20 {
        let mut firework = Firework::new();
        let mut strip = Strip::new(200);
        let mut last_rocket = 0;
        let mut burst_seen = false;
        let mut rocket_steps = 0;
        for frame in 0..3 * 40 {
            firework.update(&mut strip);
            if frame % 3 != 2 {
                continue;
            }
            let shown = lit(&strip);
            if shown.len() == 1 && shown[0].1 == Rgb::white() && !burst_seen {
                assert!(shown[0].0 > last_rocket, "frame {} shown {:?} last {}", frame, shown, last_rocket);
                last_rocket = shown[0].0;
                rocket_steps += 1;
            } else if !shown.is_empty() && !burst_seen {
                burst_seen = true;
                for (position, color) in &shown {
                    assert!(palette.contains(color));
                    assert!(*position <= last_rocket + 20);
                }
            }
        }
        assert!(burst_seen);
        // the fuse burns from 8 to 16 steps; the last climbing step already bursts
        assert!((7..16).contains(&rocket_steps));
    }
}

#[test]
fn firework_restarts_after_burst() {
    let mut firework = Firework::new();
    let mut strip = Strip::new(200);
    let mut saw_restart = false;
    let mut previous_white: Option<usize> = None;
    for _ in 0..3 * 60 {
        firework.update(&mut strip);
        let shown = lit(&strip);
        if shown.len() == 1 && shown[0] == (0, Rgb::white()) {
            saw_restart = true;
        }
        if shown.len() == 1 && shown[0].1 == Rgb::white() {
            previous_white = Some(shown[0].0);
        }
    }
    assert!(previous_white.is_some());
    assert!(saw_restart);
    firework.initialize();
}

#[test]
fn whole_degree_rainbow_fade_hues() {
    let mut fade = RainbowFade::new(350, 20);
    assert_eq!(fade.update(), 20);
    fade.initialize();
    assert_eq!(fade.update(), 10);
    assert_eq!(fade.update(), 30);
}

#[test]
fn whole_degree_rainbow_chase_hues() {
    let mut chase = RainbowChase::new(0, 30, 2);
    assert_eq!(chase.initialize(), 0);
    assert_eq!(chase.update(), 30);
    assert_eq!(chase.update(), 30);
    assert_eq!(chase.update(), 60);
    assert_eq!(chase.update(), 60);
    assert_eq!(chase.update(), 90);
}

#[test]
fn scheduler_switches_to_last_request() {
    let mut slot: AnimationSlot<&str, u32> = AnimationSlot::new("off");
    assert!(matches!(slot.begin_frame(), FrameStep::Update(None)));
    slot.set_animation("fade");
    slot.set_animation("chase");
    match slot.begin_frame() {
        FrameStep::Switch(a) => {
            assert_eq!(a, "chase");
            assert_eq!(*slot.current_mut(), "off");
            assert_eq!(slot.install(a), "off");
        }
        FrameStep::Update(_) => panic!("expected a switch"),
    }
    assert_eq!(*slot.current_mut(), "chase");
    assert!(matches!(slot.begin_frame(), FrameStep::Update(None)));
}

#[test]
fn scheduler_delivers_messages_once() {
    let mut slot: AnimationSlot<&str, u32> = AnimationSlot::new("off");
    slot.post_message(1);
    slot.post_message(2);
    assert!(matches!(slot.begin_frame(), FrameStep::Update(Some(2))));
    assert!(matches!(slot.begin_frame(), FrameStep::Update(None)));
}

#[test]
fn scheduler_keeps_message_across_switch() {
    let mut slot: AnimationSlot<&str, u32> = AnimationSlot::new("off");
    slot.post_message(7);
    slot.set_animation("color");
    match slot.begin_frame() {
        FrameStep::Switch(a) => {
            slot.install(a);
        }
        FrameStep::Update(_) => panic!("expected a switch"),
    }
    assert!(matches!(slot.begin_frame(), FrameStep::Update(Some(7))));
    assert_eq!(*slot.current_mut(), "color");
}

#[test]
fn color_band_moves_on_after_a_strip_length() {
    let mut band = ColorBand::new();
    assert!(band.can_advance(2));
    assert!(!band.advance(2));
    assert!(!band.advance(2));
    assert!(band.advance(2));
    assert!(!band.advance(2));
    assert!(band.advance(2));
    band.reset();
    assert!(!band.advance(2));
}
