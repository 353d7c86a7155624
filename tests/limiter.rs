use no_spam::limiter::NoSpam;

#[test]
fn respects_maximum_per_second() {
    let mut collect: Vec<Option<u32>> = Vec::new();
    let mut no_spam = NoSpam::new_per_second(5);
    for _ in 0..10 {
        no_spam.on(|_| collect.push(None));
    }
    assert!(collect.len() == 5, "collect size: {}", collect.len());
}

#[test]
fn respects_maximum_per_second_after_seconds() {
    let mut collect: Vec<Option<u32>> = Vec::new();
    let mut no_spam = NoSpam::new_per_second(5);
    for _ in 0..10 {
        no_spam.on(|_| collect.push(None));
    }
    // The second burst starts 2 seconds after the last permitted call.
    for i in 0..10 {
        let elapsed = if i == 0 { 2 } else { 0 };
        if no_spam.attempt(elapsed).is_some() {
            collect.push(None);
        }
    }
    assert!(collect.len() == 10, "collect size: {}", collect.len());
}

#[test]
fn respects_maximum_per_minute() {
    let mut collect: Vec<Option<u32>> = Vec::new();
    let mut no_spam = NoSpam::new_per_minute(5);
    for _ in 0..10 {
        no_spam.on(|_| collect.push(None));
    }
    assert!(collect.len() == 5, "collect size: {}", collect.len());
}

#[test]
fn respects_maximum_per_second_after_minutes() {
    let mut collect: Vec<Option<u32>> = Vec::new();
    let mut no_spam = NoSpam::new_per_second(5);
    for _ in 0..10 {
        no_spam.on(|_| collect.push(None));
    }
    // The second burst starts 120 seconds after the last permitted call.
    for i in 0..10 {
        let elapsed = if i == 0 { 120 } else { 0 };
        if no_spam.attempt(elapsed).is_some() {
            collect.push(None);
        }
    }
    assert!(collect.len() == 10, "collect size: {}", collect.len());
}

#[test]
fn action_sees_counts_below_ceiling() {
    let mut seen: Vec<u32> = Vec::new();
    let mut no_spam = NoSpam::new_per_second(5);
    for _ in 0..10 {
        no_spam.on(|c| seen.push(c));
    }
    assert_eq!(seen, vec![0, 1, 2, 3, 4]);
    assert_eq!(no_spam.calls_per_time, 10);
}

#[test]
fn burst_of_exactly_ceiling_runs_all() {
    let mut no_spam = NoSpam::new_per_second(3);
    let runs: Vec<Option<u32>> = (0..3).map(|_| no_spam.attempt(0)).collect();
    assert_eq!(runs, vec![Some(0), Some(1), Some(2)]);
}

#[test]
fn zero_ceiling_never_runs() {
    let mut runs = 0;
    let mut no_spam = NoSpam::new_per_second(0);
    for _ in 0..10 {
        no_spam.on(|_| runs += 1);
    }
    assert_eq!(runs, 0);
    assert_eq!(no_spam.calls_per_time, 10);
}

#[test]
fn skipped_attempts_do_not_reset_window() {
    let mut no_spam = NoSpam::new_per_second(1);
    assert_eq!(no_spam.attempt(0), Some(0));
    assert_eq!(no_spam.attempt(0), None);
    assert_eq!(no_spam.attempt(0), None);
    assert_eq!(no_spam.calls_per_time, 3);
    assert_eq!(no_spam.attempt(1), Some(0));
    assert_eq!(no_spam.calls_per_time, 1);
}

#[test]
fn elapsed_is_ignored_before_first_permitted_call() {
    let mut no_spam = NoSpam::new_per_second(0);
    assert_eq!(no_spam.attempt(5), None);
    assert_eq!(no_spam.calls_per_time, 1);
    assert_eq!(no_spam.attempt(5), None);
    assert_eq!(no_spam.calls_per_time, 2);
}

#[test]
fn minute_window_resets_after_sixty_seconds() {
    let mut no_spam = NoSpam::new_per_minute(1);
    assert_eq!(no_spam.attempt(0), Some(0));
    assert_eq!(no_spam.attempt(59), None);
    assert_eq!(no_spam.attempt(60), Some(0));
}

#[test]
fn hour_window_resets_after_an_hour() {
    let mut no_spam = NoSpam::new_per_hour(1);
    assert_eq!(no_spam.attempt(0), Some(0));
    assert_eq!(no_spam.attempt(3599), None);
    assert_eq!(no_spam.attempt(3600), Some(0));
}

#[test]
fn day_window_resets_after_a_day() {
    let mut no_spam = NoSpam::new_per_day(2);
    assert_eq!(no_spam.attempt(0), Some(0));
    assert_eq!(no_spam.attempt(86399), Some(1));
    assert_eq!(no_spam.attempt(86399), None);
    assert_eq!(no_spam.attempt(86400), Some(0));
}

#[test]
fn count_saturates_at_largest_value() {
    let mut no_spam = NoSpam::new_per_second(u32::MAX);
    no_spam.calls_per_time = u32::MAX - 1;
    assert_eq!(no_spam.attempt(0), Some(u32::MAX - 1));
    assert_eq!(no_spam.calls_per_time, u32::MAX);
    assert_eq!(no_spam.attempt(0), None);
    assert_eq!(no_spam.calls_per_time, u32::MAX);
}
