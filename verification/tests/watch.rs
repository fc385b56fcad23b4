use ed_timelapse::screenshot::watch::{on_record, JournalRecord, ScreenshotEvent, TailAction};

fn notice(filename: &str) -> ScreenshotEvent {
    ScreenshotEvent { filename: filename.to_string(), body: None, system: Some("Sol".to_string()) }
}

#[test]
fn screenshot_record_is_published() {
    assert_eq!(
        on_record(false, JournalRecord::Screenshot(notice("a.bmp"))),
        TailAction::Publish(notice("a.bmp"))
    );
}

#[test]
fn other_record_is_discarded() {
    assert_eq!(on_record(false, JournalRecord::Other), TailAction::Discard);
}

#[test]
fn malformed_line_is_reported_and_not_fatal() {
    assert_eq!(on_record(false, JournalRecord::Malformed), TailAction::Report);
}

#[test]
fn pending_cancellation_stops_before_the_record_is_looked_at() {
    assert_eq!(on_record(true, JournalRecord::Screenshot(notice("a.bmp"))), TailAction::Stop);
    assert_eq!(on_record(true, JournalRecord::Other), TailAction::Stop);
    assert_eq!(on_record(true, JournalRecord::Malformed), TailAction::Stop);
}

#[test]
fn tailer_publishes_notices_in_order_until_cancelled() {
    let journal = vec![
        (false, JournalRecord::Other),
        (false, JournalRecord::Screenshot(notice("1.bmp"))),
        (false, JournalRecord::Malformed),
        (false, JournalRecord::Screenshot(notice("2.bmp"))),
        (true, JournalRecord::Screenshot(notice("3.bmp"))),
        (false, JournalRecord::Screenshot(notice("4.bmp"))),
    ];
    let mut published = Vec::new();
    let mut reports = 0;
    for (exit_pending, record) in journal {
        match on_record(exit_pending, record) {
            TailAction::Stop => break,
            TailAction::Publish(event) => published.push(event),
            TailAction::Discard => {}
            TailAction::Report => reports += 1,
        }
    }
    assert_eq!(published, vec![notice("1.bmp"), notice("2.bmp")]);
    assert_eq!(reports, 1);
}
