use hash_quest::game_time::{format_game_time, get_season, GameTime};

#[test]
fn new_clock_starts_at_day_zero() {
    let t = GameTime::new();
    assert_eq!((t.day, t.hour, t.minute), (0, 0, 0));
    assert_eq!(GameTime::default(), t);
}

#[test]
fn increment_moves_one_minute() {
    let mut t = GameTime { day: 3, hour: 5, minute: 10 };
    t.increment();
    assert_eq!(t, GameTime { day: 3, hour: 5, minute: 11 });
}

#[test]
fn increment_rolls_over_hour_and_day() {
    let mut t = GameTime { day: 3, hour: 5, minute: 59 };
    t.increment();
    assert_eq!(t, GameTime { day: 3, hour: 6, minute: 0 });
    let mut t = GameTime { day: 3, hour: 23, minute: 59 };
    t.increment();
    assert_eq!(t, GameTime { day: 4, hour: 0, minute: 0 });
}

#[test]
fn increment_15_drops_excess_minutes() {
    let mut t = GameTime { day: 0, hour: 1, minute: 30 };
    t.increment_15();
    assert_eq!(t, GameTime { day: 0, hour: 1, minute: 45 });
    let mut t = GameTime { day: 0, hour: 1, minute: 50 };
    t.increment_15();
    assert_eq!(t, GameTime { day: 0, hour: 2, minute: 0 });
    let mut t = GameTime { day: 7, hour: 23, minute: 45 };
    t.increment_15();
    assert_eq!(t, GameTime { day: 8, hour: 0, minute: 0 });
}

#[test]
fn increment_day_keeps_time_of_day() {
    let mut t = GameTime { day: 9, hour: 13, minute: 7 };
    t.increment_day();
    assert_eq!(t, GameTime { day: 10, hour: 13, minute: 7 });
}

#[test]
fn minutes_to_midnight_counts_current_hour() {
    let t = GameTime { day: 0, hour: 22, minute: 30 };
    assert_eq!(t.minutes_to_midnight(), 30 + 2 * 60);
    let t = GameTime { day: 0, hour: 23, minute: 0 };
    assert_eq!(t.minutes_to_midnight(), 120);
}

#[test]
fn ticks_until_day_adds_whole_days() {
    let t = GameTime { day: 5, hour: 22, minute: 30 };
    assert_eq!(t.ticks_until_day(5), 150 * 4);
    assert_eq!(t.ticks_until_day(7), 2 * 24 * 60 * 4 + 150 * 4);
}

#[test]
fn format_game_time_pads_fields() {
    let t = GameTime { day: 3, hour: 7, minute: 5 };
    assert_eq!(format_game_time(&t), "Day: 03, Time 07:05");
    let t = GameTime { day: 123, hour: 17, minute: 45 };
    assert_eq!(format_game_time(&t), "Day: 123, Time 17:45");
    let t = GameTime { day: 10, hour: 10, minute: 10 };
    assert_eq!(format_game_time(&t), "Day: 10, Time 10:10");
}

#[test]
fn seasons_follow_the_year() {
    assert_eq!(get_season(0), 20000);
    assert_eq!(get_season(1), 20000);
    assert_eq!(get_season(90), 20000);
    assert_eq!(get_season(91), 14000);
    assert_eq!(get_season(180), 14000);
    assert_eq!(get_season(181), 16000);
    assert_eq!(get_season(270), 16000);
    assert_eq!(get_season(271), 18000);
    assert_eq!(get_season(360), 18000);
    assert_eq!(get_season(361), 20000);
    assert_eq!(get_season(451), get_season(91));
}
