use capture_logger::{
    begin_capture, end_capture, pop_captured, CaptureController, CaptureError, Level, Logger,
};

#[test]
fn test_pop_in_emission_order() {
    let mut controller = CaptureController::new();
    begin_capture(&mut controller).unwrap();
    Logger.log(&mut controller, Level::Error, "first".to_string());
    Logger.log(&mut controller, Level::Info, "second".to_string());
    Logger.log(&mut controller, Level::Trace, "third".to_string());

    let record = pop_captured(&mut controller).unwrap().unwrap();
    assert_eq!(Level::Error, record.level());
    assert_eq!("first", record.message());
    let record = pop_captured(&mut controller).unwrap().unwrap();
    assert_eq!(Level::Info, record.level());
    assert_eq!("second", record.message());
    let record = pop_captured(&mut controller).unwrap().unwrap();
    assert_eq!(Level::Trace, record.level());
    assert_eq!("third", record.message());
    assert!(pop_captured(&mut controller).unwrap().is_none());
    assert!(pop_captured(&mut controller).unwrap().is_none());
}

#[test]
fn test_end_discards_unpopped_records() {
    let mut controller = CaptureController::new();
    begin_capture(&mut controller).unwrap();
    Logger.log(&mut controller, Level::Warn, "kept back".to_string());
    Logger.log(&mut controller, Level::Debug, "kept back too".to_string());
    end_capture(&mut controller);

    begin_capture(&mut controller).unwrap();
    assert!(pop_captured(&mut controller).unwrap().is_none());
}

#[test]
fn test_end_capture_idempotent() {
    let mut controller = CaptureController::new();
    end_capture(&mut controller);
    end_capture(&mut controller);

    begin_capture(&mut controller).unwrap();
    end_capture(&mut controller);
    end_capture(&mut controller);
    assert_eq!(
        CaptureError::NotCaptured,
        pop_captured(&mut controller).unwrap_err()
    );
}

#[test]
fn test_log_after_end_is_dropped() {
    let mut controller = CaptureController::new();
    begin_capture(&mut controller).unwrap();
    end_capture(&mut controller);
    Logger.log(&mut controller, Level::Info, "dropped".to_string());

    begin_capture(&mut controller).unwrap();
    assert!(pop_captured(&mut controller).unwrap().is_none());
}

#[test]
fn test_thread_isolation() {
    let mut left = CaptureController::new();
    let mut right = CaptureController::new();
    begin_capture(&mut left).unwrap();
    begin_capture(&mut right).unwrap();
    Logger.log(&mut left, Level::Info, "left message".to_string());
    Logger.log(&mut right, Level::Warn, "right message".to_string());

    let record = pop_captured(&mut left).unwrap().unwrap();
    assert_eq!("left message", record.message());
    assert_eq!(Level::Info, record.level());
    assert!(pop_captured(&mut left).unwrap().is_none());

    let record = pop_captured(&mut right).unwrap().unwrap();
    assert_eq!("right message", record.message());
    assert_eq!(Level::Warn, record.level());
    assert!(pop_captured(&mut right).unwrap().is_none());
}

#[test]
fn test_empty_message() {
    let mut controller = CaptureController::new();
    begin_capture(&mut controller).unwrap();
    Logger.log(&mut controller, Level::Trace, String::new());
    let record = pop_captured(&mut controller).unwrap().unwrap();
    assert_eq!("", record.message());
    assert!(pop_captured(&mut controller).unwrap().is_none());
}

#[test]
fn test_enabled_always() {
    assert!(Logger.enabled());
}

#[test]
fn test_record_clone_eq() {
    let mut controller = CaptureController::new();
    begin_capture(&mut controller).unwrap();
    Logger.log(&mut controller, Level::Debug, "twin".to_string());
    let record = pop_captured(&mut controller).unwrap().unwrap();
    let copy = record.clone();
    assert_eq!(record, copy);
    assert_eq!("twin", copy.message());
    assert_eq!(Level::Debug, copy.level());
}
