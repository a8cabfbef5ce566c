use n3rgy_loader::loader::{LoadAction, LoadEvent, LoadPhase, Loader, RunStatus};
use n3rgy_loader::models::{ApiError, Consumption, ConsumptionOrTariff, IntervalValue};
use n3rgy_loader::window::{split_range, DateWindow, SECONDS_PER_DAY};

const JAN_1_2024: i64 = 1_704_067_200;

fn readings(n: usize, at: i64) -> ConsumptionOrTariff {
    let values = (0..n)
        .map(|i| IntervalValue {
            timestamp: at + 1800 * i as i64,
            value_bits: (i as f64).to_bits(),
            status: None,
        })
        .collect();
    ConsumptionOrTariff::Consumption(Consumption {
        resource: "electricity".to_string(),
        response_timestamp: String::new(),
        start: String::new(),
        end: String::new(),
        granularity: "halfhour".to_string(),
        values,
        message: None,
        unit: "kWh".to_string(),
    })
}

fn fetch_of(a: &LoadAction) -> DateWindow {
    match a {
        LoadAction::Fetch(w) => *w,
        _ => panic!("expected a fetch"),
    }
}

#[test]
fn two_hundred_days_fetch_and_write_three_times_in_order() {
    let windows = split_range(JAN_1_2024, JAN_1_2024 + 200 * SECONDS_PER_DAY, 90).unwrap();
    let (mut loader, mut action) = Loader::new(windows.clone());
    let mut fetched = Vec::new();
    let mut written = Vec::new();
    loop {
        action = match action {
            LoadAction::Fetch(w) => {
                fetched.push(w);
                loader.step(LoadEvent::Fetched(readings(2, w.start)))
            }
            LoadAction::Write(points) => {
                written.push(points.len());
                loader.step(LoadEvent::Written)
            }
            LoadAction::Finish => break,
            LoadAction::Ignore => panic!("no event should be ignored"),
        };
    }
    assert_eq!(fetched, windows);
    assert_eq!(fetched.len(), 3);
    assert!(fetched.windows(2).all(|p| p[0].start < p[1].start));
    assert_eq!(written, vec![2, 2, 2]);
    assert_eq!(loader.windows_processed(), 3);
    assert_eq!(loader.points_written, 6);
    assert!(loader.errors.is_empty());
    assert!(loader.aborted.is_none());
    assert_eq!(loader.phase, LoadPhase::Done);
    assert_eq!(loader.status(), RunStatus::Complete);
}

#[test]
fn no_windows_finish_at_once() {
    let (loader, action) = Loader::new(vec![]);
    assert!(matches!(action, LoadAction::Finish));
    assert_eq!(loader.phase, LoadPhase::Done);
}

#[test]
fn failed_fetch_is_recorded_and_the_run_goes_on() {
    let w1 = DateWindow { start: 0, end: 10 };
    let w2 = DateWindow { start: 10, end: 20 };
    let (mut loader, action) = Loader::new(vec![w1, w2]);
    assert_eq!(fetch_of(&action), w1);
    let action = loader.step(LoadEvent::FetchFailed("timed out".to_string()));
    assert_eq!(fetch_of(&action), w2);
    assert_eq!(loader.errors.len(), 1);
    assert_eq!(loader.errors[0].window, w1);
    assert_eq!(loader.errors[0].message, "timed out");
    let action = loader.step(LoadEvent::Fetched(readings(3, 10)));
    assert!(matches!(action, LoadAction::Write(ref p) if p.len() == 3));
    let action = loader.step(LoadEvent::Written);
    assert!(matches!(action, LoadAction::Finish));
    assert_eq!(loader.points_written, 3);
    assert_eq!(loader.windows_processed(), 2);
    assert_eq!(loader.status(), RunStatus::CompleteWithGaps);
}

#[test]
fn error_payload_is_recorded_and_not_written() {
    let w1 = DateWindow { start: 0, end: 10 };
    let (mut loader, _) = Loader::new(vec![w1]);
    let p = ConsumptionOrTariff::Error(ApiError { message: "bad MPAN".to_string() });
    let action = loader.step(LoadEvent::Fetched(p));
    assert!(matches!(action, LoadAction::Finish));
    assert_eq!(loader.errors.len(), 1);
    assert_eq!(loader.errors[0].message, "bad MPAN");
    assert_eq!(loader.points_written, 0);
    assert_eq!(loader.status(), RunStatus::CompleteWithGaps);
}

#[test]
fn empty_payload_is_not_written() {
    let w1 = DateWindow { start: 0, end: 10 };
    let w2 = DateWindow { start: 10, end: 20 };
    let (mut loader, _) = Loader::new(vec![w1, w2]);
    let action = loader.step(LoadEvent::Fetched(readings(0, 0)));
    assert_eq!(fetch_of(&action), w2);
    assert_eq!(loader.status(), RunStatus::InProgress);
    assert!(loader.errors.is_empty());
}

#[test]
fn failed_write_aborts_the_run() {
    let w1 = DateWindow { start: 0, end: 10 };
    let w2 = DateWindow { start: 10, end: 20 };
    let (mut loader, _) = Loader::new(vec![w1, w2]);
    let _ = loader.step(LoadEvent::Fetched(readings(1, 0)));
    let action = loader.step(LoadEvent::WriteFailed("disk full".to_string()));
    assert!(matches!(action, LoadAction::Finish));
    assert_eq!(loader.phase, LoadPhase::Done);
    let failure = loader.aborted.as_ref().unwrap();
    assert_eq!(failure.window, w1);
    assert_eq!(failure.message, "disk full");
    assert_eq!(loader.windows_processed(), 0);
    assert_eq!(loader.status(), RunStatus::Aborted);
    let action = loader.step(LoadEvent::Written);
    assert!(matches!(action, LoadAction::Ignore));
}

#[test]
fn event_out_of_turn_is_ignored() {
    let w1 = DateWindow { start: 0, end: 10 };
    let (mut loader, _) = Loader::new(vec![w1]);
    let action = loader.step(LoadEvent::Written);
    assert!(matches!(action, LoadAction::Ignore));
    assert_eq!(loader.phase, LoadPhase::Fetching);
    assert_eq!(loader.current, 0);
    assert_eq!(loader.points_written, 0);
}

#[test]
fn written_points_saturate() {
    let w1 = DateWindow { start: 0, end: 10 };
    let (mut loader, _) = Loader::new(vec![w1]);
    loader.points_written = u64::MAX - 1;
    let _ = loader.step(LoadEvent::Fetched(readings(5, 0)));
    let action = loader.step(LoadEvent::Written);
    assert!(matches!(action, LoadAction::Finish));
    assert_eq!(loader.points_written, u64::MAX);
}
