use uni_log::entry::LoggingType;
use uni_log::registry::Registry;

#[test]
#[should_panic]
fn basic_logging_works() {
    let mut reg = Registry::new();
    reg.mark("AAAAAAAAAA".to_string());
    reg.info("AAAAAAAAAAAAAA".to_string(), 0);
    reg.warning("AAAAAAAAAAAAAAAAAA".to_string(), 0);
    reg.error("AAAAAAAAAAAAAAAAAAAA".to_string(), 0);
    reg.flush().unwrap();
}

#[test]
fn scenario_all_severities_then_failure() {
    let mut reg = Registry::new();
    reg.mark("x".to_string());
    reg.info("y".to_string(), 1);
    reg.warning("z".to_string(), 2);
    reg.error("w".to_string(), 3);
    let (out, errs) = reg.render();
    assert_eq!(
        out,
        vec!["[MARK]: Mark: x".to_string(), "[INFO]: Info: y; Info ID: 1".to_string()]
    );
    assert_eq!(
        errs,
        vec![
            "[WARNING]: Warning: z; Warning ID: 2".to_string(),
            "[ERROR]: Error: w; Error ID: 3".to_string()
        ]
    );
    let failure = reg.flush().unwrap_err();
    assert_eq!(failure.info, "w".to_string());
    assert_eq!(failure.id, 3);
    assert_eq!(
        failure.render(),
        "[ERROR]: Final Error: Error: w; Error ID: 3".to_string()
    );
}

#[test]
fn scenario_single_info_completes() {
    let mut reg = Registry::new();
    reg.info("ok".to_string(), 0);
    let (out, errs) = reg.render();
    assert_eq!(
        out,
        vec![
            "[INFO]: Info: ok; Info ID: 0".to_string(),
            "Logging Attempt Completed!".to_string()
        ]
    );
    assert!(errs.is_empty());
    assert!(reg.flush().is_ok());
}

#[test]
fn scenario_two_errors_last_wins() {
    let mut reg = Registry::new();
    reg.error("e1".to_string(), 1);
    reg.error("e2".to_string(), 2);
    let (out, errs) = reg.render();
    assert!(out.is_empty());
    assert_eq!(
        errs,
        vec![
            "[ERROR]: Error: e1; Error ID: 1".to_string(),
            "[ERROR]: Error: e2; Error ID: 2".to_string()
        ]
    );
    let failure = reg.flush().unwrap_err();
    assert_eq!(failure.info, "e2".to_string());
    assert_eq!(failure.id, 2);
}

#[test]
fn last_error_survives_benign_appends() {
    let mut reg = Registry::new();
    reg.error("a".to_string(), 1);
    reg.error("b".to_string(), 2);
    reg.warning("later".to_string(), 9);
    reg.mark("even later".to_string());
    let failure = reg.last_error().unwrap();
    assert_eq!(failure.info, "b".to_string());
    assert_eq!(failure.id, 2);
}

#[test]
fn benign_severities_complete_normally() {
    let mut reg = Registry::new();
    reg.mark("m".to_string());
    reg.info("i".to_string(), 4);
    reg.warning("w".to_string(), 5);
    assert!(reg.last_error().is_none());
    assert!(reg.flush().is_ok());
    let (out, _) = reg.render();
    assert_eq!(out.last().unwrap(), &"Logging Attempt Completed!".to_string());
}

#[test]
fn empty_registry_flush_is_benign() {
    let reg = Registry::new();
    assert_eq!(reg.len(), 0);
    assert!(reg.flush().is_ok());
    let (out, errs) = reg.render();
    assert_eq!(out, vec!["Logging Attempt Completed!".to_string()]);
    assert!(errs.is_empty());
}

#[test]
fn ordering_is_preserved_per_stream() {
    let mut reg = Registry::new();
    reg.info("first".to_string(), 1);
    reg.mark("second".to_string());
    reg.info("third".to_string(), 3);
    reg.warning("w1".to_string(), 1);
    reg.error("e1".to_string(), 2);
    reg.warning("w2".to_string(), 3);
    let (out, errs) = reg.render();
    assert_eq!(
        out,
        vec![
            "[INFO]: Info: first; Info ID: 1".to_string(),
            "[MARK]: Mark: second".to_string(),
            "[INFO]: Info: third; Info ID: 3".to_string()
        ]
    );
    assert_eq!(
        errs,
        vec![
            "[WARNING]: Warning: w1; Warning ID: 1".to_string(),
            "[ERROR]: Error: e1; Error ID: 2".to_string(),
            "[WARNING]: Warning: w2; Warning ID: 3".to_string()
        ]
    );
}

#[test]
fn flush_leaves_the_buffer_untouched() {
    let mut reg = Registry::new();
    reg.error("persistent".to_string(), 7);
    let first = reg.flush().unwrap_err();
    assert_eq!(reg.len(), 1);
    let second = reg.flush().unwrap_err();
    assert_eq!(first.info, second.info);
    assert_eq!(first.id, second.id);
}

#[test]
fn record_accepts_any_severity() {
    let mut reg = Registry::new();
    reg.record(LoggingType::Warning, "via record".to_string(), 11);
    assert_eq!(reg.len(), 1);
    let (_, errs) = reg.render();
    assert_eq!(
        errs,
        vec!["[WARNING]: Warning: via record; Warning ID: 11".to_string()]
    );
}
