use mhlog::{log_paths, FileSink, InitError};

#[test]
fn the_log_file_lies_in_the_log_directory_of_the_home() {
    let paths = log_paths("/home/alice", "tool");
    assert_eq!(paths.dir, "/home/alice/.log");
    assert_eq!(paths.file, "/home/alice/.log/tool.log");
}

#[test]
fn paths_take_home_and_program_as_they_are() {
    let paths = log_paths("", "");
    assert_eq!(paths.dir, "/.log");
    assert_eq!(paths.file, "/.log/.log");
    let paths = log_paths("/h/", "a b");
    assert_eq!(paths.dir, "/h//.log");
    assert_eq!(paths.file, "/h//.log/a b.log");
}

#[test]
fn the_first_request_for_a_file_asks_the_caller_to_open_it() {
    let mut sink = FileSink::Fresh;
    assert!(sink.request(true));
    assert!(matches!(sink, FileSink::Opening));
    assert!(!sink.is_open());
    let answer = sink.settle(Ok("/home/u/.log/p.log".to_string()));
    assert!(answer.is_ok());
    assert!(sink.is_open());
    match &sink {
        FileSink::Open(path) => assert_eq!(path, "/home/u/.log/p.log"),
        _ => panic!("the sink is not open"),
    }
}

#[test]
fn a_first_request_without_a_file_closes_the_sink() {
    let mut sink = FileSink::Fresh;
    assert!(!sink.request(false));
    assert!(matches!(sink, FileSink::Closed));
    assert!(!sink.request(true));
    assert!(matches!(sink, FileSink::Closed));
    assert!(!sink.is_open());
}

#[test]
fn a_second_initialisation_changes_nothing() {
    let mut sink = FileSink::Fresh;
    assert!(sink.request(true));
    assert!(sink.settle(Ok("first.log".to_string())).is_ok());

    assert!(!sink.request(true));
    assert!(sink.settle(Ok("second.log".to_string())).is_ok());
    match &sink {
        FileSink::Open(path) => assert_eq!(path, "first.log"),
        _ => panic!("the sink is not open"),
    }
    assert!(!sink.request(false));
    assert!(sink.settle(Err(InitError::NoHome)).is_ok());
    match &sink {
        FileSink::Open(path) => assert_eq!(path, "first.log"),
        _ => panic!("the sink is not open"),
    }
}

#[test]
fn a_failed_initialisation_is_reported_once_and_leaves_the_console() {
    let mut sink = FileSink::Fresh;
    assert!(sink.request(true));
    let answer = sink.settle(Err(InitError::CreateDir("denied".to_string())));
    match answer {
        Err(InitError::CreateDir(why)) => assert_eq!(why, "denied"),
        _ => panic!("the failure was not reported"),
    }
    assert!(matches!(sink, FileSink::Closed));
    assert!(!sink.is_open());

    assert!(!sink.request(true));
    assert!(sink.settle(Ok("late.log".to_string())).is_ok());
    assert!(matches!(sink, FileSink::Closed));
}

#[test]
fn every_failure_is_handed_back_as_it_came() {
    let mut sink = FileSink::Fresh;
    sink.request(true);
    assert!(matches!(sink.settle(Err(InitError::NoHome)), Err(InitError::NoHome)));

    let mut sink = FileSink::Fresh;
    sink.request(true);
    match sink.settle(Err(InitError::OpenFile("busy".to_string()))) {
        Err(InitError::OpenFile(why)) => assert_eq!(why, "busy"),
        _ => panic!("the failure was not reported"),
    }
}

#[test]
fn a_report_without_a_request_is_no_initialisation() {
    let mut sink = FileSink::Fresh;
    assert!(sink.settle(Ok("x.log".to_string())).is_ok());
    assert!(matches!(sink, FileSink::Fresh));
    assert!(sink.settle(Err(InitError::NoHome)).is_ok());
    assert!(matches!(sink, FileSink::Fresh));
}

#[test]
fn a_request_during_the_attempt_is_not_asked_to_open() {
    let mut sink = FileSink::Fresh;
    assert!(sink.request(true));
    assert!(!sink.request(true));
    assert!(!sink.request(false));
    assert!(matches!(sink, FileSink::Opening));
}

#[test]
fn failures_in_words() {
    assert_eq!(InitError::NoHome.message(), "cannot find the home directory");
    assert_eq!(
        InitError::CreateDir("denied".to_string()).message(),
        "cannot create the log directory: denied"
    );
    assert_eq!(
        InitError::OpenFile("busy".to_string()).message(),
        "cannot open the log file: busy"
    );
}
