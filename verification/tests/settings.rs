use ed_timelapse::settings::{
    deadline_passed, decimal, duration_label, estimate_label, interval_label, minutes_until,
    seconds_until, status_label, stopping_label, timelapse_folder_name, Settings,
    MAX_DURATION_MINUTES, MAX_INTERVAL_SECONDS, MIN_DURATION_MINUTES, MIN_INTERVAL_SECONDS,
};
use ed_timelapse::timelapse::Status;

const SECOND: u64 = 1_000_000_000;

fn settings() -> Settings {
    Settings::new("C:\\Pictures\\Elite Dangerous Timelapses".to_string())
}

#[test]
fn first_run_settings() {
    assert_eq!(
        settings(),
        Settings {
            timelapse_folder: "C:\\Pictures\\Elite Dangerous Timelapses".to_string(),
            interval_seconds: 5,
            stop_after: false,
            duration_minutes: 60,
            high_res: true,
            organize: true,
            remove_original: true,
        }
    );
    assert_eq!(timelapse_folder_name(), "Elite Dangerous Timelapses");
}

#[test]
fn slider_bounds() {
    assert_eq!((MIN_INTERVAL_SECONDS, MAX_INTERVAL_SECONDS), (1, 3600));
    assert_eq!((MIN_DURATION_MINUTES, MAX_DURATION_MINUTES), (1, 1440));
}

#[test]
fn estimate_divides_the_length_by_the_interval() {
    let mut chosen = settings();
    assert_eq!(chosen.estimated_screenshots(), Some(720));
    chosen.interval_seconds = 7;
    chosen.duration_minutes = 1;
    assert_eq!(chosen.estimated_screenshots(), Some(8));
    chosen.interval_seconds = 3600;
    assert_eq!(chosen.estimated_screenshots(), Some(0));
    chosen.duration_minutes = 1440;
    chosen.interval_seconds = 1;
    assert_eq!(chosen.estimated_screenshots(), Some(86_400));
}

#[test]
fn estimate_needs_an_interval_and_a_count_that_fits() {
    let mut chosen = settings();
    chosen.interval_seconds = 0;
    assert_eq!(chosen.estimated_screenshots(), None);
    chosen.interval_seconds = 1;
    chosen.duration_minutes = u64::MAX;
    assert_eq!(chosen.estimated_screenshots(), None);
    chosen.interval_seconds = 60;
    assert_eq!(chosen.estimated_screenshots(), Some(u64::MAX));
    chosen.interval_seconds = 59;
    assert_eq!(chosen.estimated_screenshots(), None);
}

#[test]
fn deadline_is_set_only_when_asked() {
    let mut chosen = settings();
    assert_eq!(chosen.deadline(7 * SECOND), None);
    chosen.stop_after = true;
    assert_eq!(chosen.deadline(7 * SECOND), Some(3607 * SECOND));
    chosen.duration_minutes = 1;
    assert_eq!(chosen.deadline(0), Some(60 * SECOND));
}

#[test]
fn deadline_beyond_the_clock_is_its_end() {
    let mut chosen = settings();
    chosen.stop_after = true;
    chosen.duration_minutes = u64::MAX;
    assert_eq!(chosen.deadline(0), Some(u64::MAX));
    chosen.duration_minutes = 1;
    assert_eq!(chosen.deadline(u64::MAX), Some(u64::MAX));
    assert_eq!(chosen.deadline(u64::MAX - 60 * SECOND), Some(u64::MAX));
    assert_eq!(chosen.deadline(u64::MAX - 60 * SECOND - 1), Some(u64::MAX - 1));
}

#[test]
fn deadline_passes_strictly_after_it() {
    assert!(!deadline_passed(None, u64::MAX));
    assert!(!deadline_passed(Some(10), 9));
    assert!(!deadline_passed(Some(10), 10));
    assert!(deadline_passed(Some(10), 11));
}

#[test]
fn countdown_shows_the_second_that_has_begun() {
    assert_eq!(seconds_until(5 * SECOND, 0), 6);
    assert_eq!(seconds_until(5 * SECOND, 1), 5);
    assert_eq!(seconds_until(5 * SECOND, 4 * SECOND + 1), 1);
    assert_eq!(seconds_until(5 * SECOND, 5 * SECOND), 1);
    assert_eq!(seconds_until(5 * SECOND, 9 * SECOND), 1);
    assert_eq!(seconds_until(u64::MAX, 0), 18_446_744_074);
    assert_eq!(minutes_until(3600 * SECOND, 0), 61);
    assert_eq!(minutes_until(3600 * SECOND, 1), 60);
    assert_eq!(minutes_until(3600 * SECOND, 3541 * SECOND), 1);
    assert_eq!(minutes_until(3600 * SECOND, 4000 * SECOND), 1);
}

#[test]
fn numbers_in_decimal() {
    assert_eq!(decimal(0), "0");
    assert_eq!(decimal(7), "7");
    assert_eq!(decimal(10), "10");
    assert_eq!(decimal(1234567890), "1234567890");
    assert_eq!(decimal(u64::MAX), "18446744073709551615");
    for n in 0..2000u64 {
        assert_eq!(decimal(n), n.to_string());
    }
}

#[test]
fn interval_labels() {
    assert_eq!(interval_label(1), "1s");
    assert_eq!(interval_label(59), "59s");
    assert_eq!(interval_label(60), "1m0s");
    assert_eq!(interval_label(125), "2m5s");
    assert_eq!(interval_label(3600), "60m0s");
}

#[test]
fn duration_labels() {
    assert_eq!(duration_label(1), "1m");
    assert_eq!(duration_label(59), "59m");
    assert_eq!(duration_label(60), "1h0m");
    assert_eq!(duration_label(150), "2h30m");
    assert_eq!(duration_label(1440), "24h0m");
}

#[test]
fn status_labels() {
    assert_eq!(status_label(Status::Capturing, 0), "Capturing...");
    assert_eq!(status_label(Status::Waiting(5 * SECOND), 2 * SECOND + 1), "Next in 3s");
    assert_eq!(status_label(Status::Waiting(5 * SECOND), 6 * SECOND), "Next in 1s");
    assert_eq!(stopping_label(3600 * SECOND, 1), "Stopping in 60m");
    assert_eq!(estimate_label(720), "Number of screenshots: ~720");
}
