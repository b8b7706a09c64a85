use okto::sound::{Sound, SOUND_TIMER_TICK_HZ};
use okto::timer::{
    CountdownTimer, DelayTimer, TickClock, MILLISECONDS_PER_TICK, TIMER_TICK_HZ,
};

#[test]
fn timer_constants() {
    assert_eq!(60, TIMER_TICK_HZ);
    assert_eq!(60, SOUND_TIMER_TICK_HZ);
    assert_eq!(17, MILLISECONDS_PER_TICK);
}

#[test]
fn delay_timer_at_zero_stays_at_zero() {
    let mut timer = DelayTimer::new();
    assert_eq!(0, timer.value);
    timer.tick();
    assert_eq!(0, timer.value);
}

#[test]
fn delay_timer_counts_down_by_one() {
    let mut timer = DelayTimer::new();
    timer.value = 3;
    timer.tick();
    assert_eq!(2, timer.value);
    timer.tick();
    assert_eq!(1, timer.value);
    timer.tick();
    assert_eq!(0, timer.value);
    timer.tick();
    assert_eq!(0, timer.value);
    timer.value = 255;
    timer.tick();
    assert_eq!(254, timer.value);
}

#[test]
fn every_delay_timer_value_ticks_to_its_predecessor() {
    for value in 1..=255u8 {
        let mut timer = DelayTimer::new();
        timer.value = value;
        timer.tick();
        assert_eq!(value - 1, timer.value);
    }
}

#[test]
fn sound_timer_counts_down_by_one() {
    let mut sound = Sound::new();
    assert_eq!(0, sound.timer);
    sound.tick();
    assert_eq!(0, sound.timer);
    sound.set_timer(2);
    assert_eq!(2, sound.timer);
    sound.tick();
    assert_eq!(1, sound.timer);
    sound.tick();
    assert_eq!(0, sound.timer);
    sound.tick();
    assert_eq!(0, sound.timer);
}

#[test]
fn shared_cell_follows_the_sound_timer() {
    let mut sound = Sound::new();
    let cell = sound.shared_timer();
    assert_eq!(0, *cell.read().unwrap());
    sound.set_timer(0xAB);
    assert_eq!(0xAB, *cell.read().unwrap());
    sound.tick();
    assert_eq!(0xAA, *cell.read().unwrap());
    assert_eq!(0xAA, *sound.shared_timer().read().unwrap());
    sound.set_timer(0);
    sound.tick();
    assert_eq!(0, *cell.read().unwrap());
}

#[test]
fn tick_clock_gathers_time_until_a_tick_is_due() {
    let mut clock = TickClock::new();
    assert_eq!(0, clock.elapsed_milliseconds);
    assert!(!clock.advance(5));
    assert_eq!(5, clock.elapsed_milliseconds);
    assert!(!clock.advance(11));
    assert_eq!(16, clock.elapsed_milliseconds);
    assert!(clock.advance(1));
    assert_eq!(0, clock.elapsed_milliseconds);
    assert!(!clock.advance(0));
    assert_eq!(0, clock.elapsed_milliseconds);
}

#[test]
fn tick_clock_drops_what_goes_beyond_one_tick() {
    let mut clock = TickClock::new();
    assert!(clock.advance(40));
    assert_eq!(0, clock.elapsed_milliseconds);
    assert!(clock.advance(17));
    assert_eq!(0, clock.elapsed_milliseconds);
    assert!(!clock.advance(16));
    assert!(clock.advance(u32::MAX));
    assert_eq!(0, clock.elapsed_milliseconds);
}
