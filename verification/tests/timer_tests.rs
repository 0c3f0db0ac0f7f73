use phase_timer::app::{display_ratio_permyriad, Event};
use phase_timer::timer::{TimeUnit, Timer};

#[test]
fn total_seconds_per_unit() {
    assert_eq!(Timer::seconds_from(7, TimeUnit::SECONDS), 7);
    assert_eq!(Timer::seconds_from(25, TimeUnit::MINUTES), 25 * 60);
    assert_eq!(Timer::seconds_from(2, TimeUnit::HOURS), 2 * 3600);
    assert_eq!(Timer::seconds_from(1, TimeUnit::MINUTES), 60);
    assert_eq!(Timer::seconds_from(1, TimeUnit::HOURS), 3600);
}

#[test]
fn run_to_completion_reaches_total() {
    let mut timer = Timer::new(String::from("Work"), 1, TimeUnit::SECONDS);
    assert_eq!(timer.total_centis(), 100);
    assert_eq!(timer.elapsed_centis(), 0);

    let mut events: Vec<Event> = Vec::new();
    while !timer.is_done() {
        if let Some(ev) = timer.tick() {
            events.push(ev);
        }
    }

    assert_eq!(timer.elapsed_centis(), timer.total_centis());
    assert_eq!(events.len(), 100);
    match events.last().unwrap() {
        Event::Progress { progress, remaining_centis } => {
            assert_eq!(*progress, 10000);
            assert_eq!(*remaining_centis, 0);
        }
        _ => panic!("expected a progress sample"),
    }
    // The display clamps a full bar strictly below full scale.
    assert_eq!(display_ratio_permyriad(10000), 9999);
}

#[test]
fn paused_ticks_change_nothing() {
    let mut timer = Timer::new(String::from("Work"), 1, TimeUnit::SECONDS);
    assert!(timer.tick().is_some());
    assert!(timer.tick().is_some());
    let elapsed_before = timer.elapsed_centis();

    timer.pause();
    assert!(timer.is_paused());
    for _ in 0..5 {
        assert!(timer.tick().is_none());
        assert_eq!(timer.elapsed_centis(), elapsed_before);
    }

    timer.resume();
    assert!(!timer.is_paused());
    assert!(timer.tick().is_some());
    assert_eq!(timer.elapsed_centis(), elapsed_before + 1);
}

#[test]
fn progress_monotone_over_run() {
    let mut timer = Timer::new(String::from("Work"), 2, TimeUnit::SECONDS);
    let mut last_progress = 0u64;
    let mut last_remaining = timer.total_centis();
    while !timer.is_done() {
        match timer.tick() {
            Some(Event::Progress { progress, remaining_centis }) => {
                assert!(progress >= last_progress);
                assert!(remaining_centis < last_remaining);
                last_progress = progress;
                last_remaining = remaining_centis;
            }
            _ => panic!("an unpaused tick must emit a progress sample"),
        }
    }
    assert_eq!(last_progress, 10000);
    assert_eq!(last_remaining, 0);
}

#[test]
fn progress_values_are_exact() {
    let mut timer = Timer::new(String::from("Work"), 1, TimeUnit::SECONDS);
    for _ in 0..50 {
        timer.tick();
    }
    assert_eq!(timer.elapsed_centis(), 50);
    assert_eq!(timer.progress_permyriad(), 5000);
    for _ in 0..25 {
        timer.tick();
    }
    assert_eq!(timer.progress_permyriad(), 7500);
}

#[test]
fn finished_timer_ticks_are_inert() {
    let mut timer = Timer::new(String::from("Work"), 1, TimeUnit::SECONDS);
    while !timer.is_done() {
        timer.tick();
    }
    assert!(timer.tick().is_none());
    assert_eq!(timer.elapsed_centis(), timer.total_centis());
}
