use rtsimh::browse::{BrowseCommand, Selection};

#[test]
fn selection_goes_round_the_files_and_records() {
    let mut s = Selection::new();
    assert_eq!(s, Selection { file: 0, record: 0, should_quit: false });
    s.apply(BrowseCommand::NextRecord, 3, 2);
    assert_eq!((s.file, s.record), (0, 1));
    s.apply(BrowseCommand::NextRecord, 3, 2);
    assert_eq!((s.file, s.record), (0, 0));
    s.apply(BrowseCommand::PreviousRecord, 3, 2);
    assert_eq!((s.file, s.record), (0, 1));
    s.apply(BrowseCommand::NextFile, 3, 2);
    assert_eq!((s.file, s.record), (1, 0));
    s.apply(BrowseCommand::NextFile, 3, 5);
    s.apply(BrowseCommand::NextFile, 3, 5);
    assert_eq!((s.file, s.record), (0, 0));
    s.apply(BrowseCommand::PreviousFile, 3, 5);
    assert_eq!((s.file, s.record), (2, 0));
    s.apply(BrowseCommand::NextRecord, 3, 5);
    s.apply(BrowseCommand::PreviousFile, 3, 5);
    assert_eq!((s.file, s.record), (1, 0));
    s.apply(BrowseCommand::Nothing, 3, 5);
    assert_eq!((s.file, s.record), (1, 0));
    assert!(!s.should_quit());
    s.apply(BrowseCommand::Quit, 3, 5);
    assert!(s.should_quit());
}

#[test]
fn selection_stays_put_where_there_is_nothing() {
    let mut s = Selection::new();
    for command in [
        BrowseCommand::NextRecord,
        BrowseCommand::PreviousRecord,
        BrowseCommand::NextFile,
        BrowseCommand::PreviousFile,
    ] {
        s.apply(command, 0, 0);
        assert_eq!(s, Selection::new());
    }
    s.record = 3;
    s.apply(BrowseCommand::NextFile, 0, 0);
    assert_eq!(s.record, 3);
    s.apply(BrowseCommand::NextFile, 1, 0);
    assert_eq!((s.file, s.record), (0, 0));
}
