use phase_timer::app::{
    centis_to_secs, display_ratio_permyriad, App, Color, Event, KeyCode, KeyEvent, TimerCommand,
    TimerType,
};
use phase_timer::scheduler::PhaseScheduler;
use phase_timer::timer::{TimeUnit, Timer};

fn work_rest_phases() -> Vec<TimerType> {
    vec![
        TimerType {
            name: String::from("Work"),
            duration: 25,
            unit: TimeUnit::MINUTES,
            color: Color::Red,
        },
        TimerType {
            name: String::from("Rest"),
            duration: 5,
            unit: TimeUnit::MINUTES,
            color: Color::Blue,
        },
    ]
}

#[test]
fn format_time_literal_contract() {
    assert_eq!(App::format_time(0), "00:00");
    assert_eq!(App::format_time(65), "01:05");
    assert_eq!(App::format_time(3600), "60:00");
}

#[test]
fn format_time_more_cases() {
    assert_eq!(App::format_time(59), "00:59");
    assert_eq!(App::format_time(60), "01:00");
    assert_eq!(App::format_time(600), "10:00");
    assert_eq!(App::format_time(1500), "25:00");
    // Minutes keep growing past two digits; they never roll into hours.
    assert_eq!(App::format_time(6000), "100:00");
    assert_eq!(App::format_time(5999), "99:59");
}

#[test]
fn centis_round_to_nearest_second() {
    assert_eq!(centis_to_secs(0), 0);
    assert_eq!(centis_to_secs(49), 0);
    assert_eq!(centis_to_secs(50), 1);
    assert_eq!(centis_to_secs(149), 1);
    assert_eq!(centis_to_secs(150), 2);
    assert_eq!(centis_to_secs(150000), 1500);
}

#[test]
fn display_ratio_clamps_strictly_below_full() {
    assert_eq!(display_ratio_permyriad(0), 0);
    assert_eq!(display_ratio_permyriad(5000), 5000);
    assert_eq!(display_ratio_permyriad(9999), 9999);
    assert_eq!(display_ratio_permyriad(10000), 9999);
}

#[test]
fn new_app_starts_blank() {
    let app = App::new();
    assert!(!app.should_exit());
    assert_eq!(app.timer_name(), "Work");
    assert_eq!(app.timer_progress(), 0);
    assert_eq!(app.remaining_centis(), 0);
    assert_eq!(app.total_centis(), 0);
    assert!(matches!(app.bar_color(), Color::Red));
}

#[test]
fn end_to_end_work_then_rest() {
    let mut app = App::new();
    let mut scheduler = PhaseScheduler::new(work_rest_phases());

    // Starting state: the Work phase, 00:00 elapsed of 25:00.
    let cmd = app.start_current(&scheduler);
    let TimerCommand::Phase(start) = cmd;
    assert_eq!(start.name, "Work");
    assert_eq!(app.timer_name(), "Work");
    assert_eq!(app.total_centis(), 150000);
    assert_eq!(app.remaining_centis(), 150000);
    assert_eq!(app.timer_progress(), 0);
    let elapsed_secs = centis_to_secs(app.total_centis() - app.remaining_centis());
    assert_eq!(App::format_time(elapsed_secs), "00:00");
    assert_eq!(App::format_time(centis_to_secs(app.total_centis())), "25:00");

    // The Work countdown runs to completion: elapsed reaches 1500 seconds.
    let mut timer = Timer::new(start.name, start.duration, start.unit);
    while !timer.is_done() {
        timer.tick();
    }
    assert_eq!(timer.elapsed_centis(), 150000);

    // Its completion event switches the display to the Rest phase.
    let cmd = app.handle_event(Event::TimerDone(true), &mut scheduler);
    match cmd {
        Some(TimerCommand::Phase(next)) => {
            assert_eq!(next.name, "Rest");
            assert_eq!(next.duration, 5);
        }
        None => panic!("completion must start the next phase"),
    }
    assert_eq!(app.timer_name(), "Rest");
    assert_eq!(app.total_centis(), 30000);
    assert_eq!(app.remaining_centis(), 30000);
    assert_eq!(app.timer_progress(), 0);
    assert!(matches!(app.bar_color(), Color::Blue));
    assert_eq!(App::format_time(centis_to_secs(app.total_centis())), "05:00");
    assert!(!app.should_exit());
}

#[test]
fn quit_key_sets_exit_flag() {
    let mut app = App::new();
    let mut scheduler = PhaseScheduler::new(work_rest_phases());

    let other = Event::Input(KeyEvent { code: KeyCode::Char('x'), press: true });
    assert!(app.handle_event(other, &mut scheduler).is_none());
    assert!(!app.should_exit());

    let release = Event::Input(KeyEvent { code: KeyCode::Char('q'), press: false });
    assert!(app.handle_event(release, &mut scheduler).is_none());
    assert!(!app.should_exit());

    let quit = Event::Input(KeyEvent { code: KeyCode::Char('q'), press: true });
    assert!(app.handle_event(quit, &mut scheduler).is_none());
    assert!(app.should_exit());
}

#[test]
fn progress_event_is_copied_verbatim() {
    let mut app = App::new();
    let mut scheduler = PhaseScheduler::new(work_rest_phases());
    app.start_current(&scheduler);

    let sample = Event::Progress { progress: 4200, remaining_centis: 87000 };
    let cmd = app.handle_event(sample, &mut scheduler);
    assert!(cmd.is_none());
    assert_eq!(app.timer_progress(), 4200);
    assert_eq!(app.remaining_centis(), 87000);
    // The rest of the display state is untouched.
    assert_eq!(app.timer_name(), "Work");
    assert_eq!(app.total_centis(), 150000);
}
