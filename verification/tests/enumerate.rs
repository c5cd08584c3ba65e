use v4l::enumerate::Cursor;
use v4l::enumerate::EntryReply;
use v4l::enumerate::Step;
use v4l::error::Error;

#[test]
fn a_walk_asks_for_rising_positions() {
    let mut cursor = Cursor::new();
    for position in 0..5u32 {
        assert_eq!(cursor.query(), Some(position));
        assert_eq!(cursor.advance(EntryReply::Entry), Ok(Step::Yield(position)));
    }
    assert_eq!(cursor.query(), Some(5));
}

#[test]
fn the_end_of_the_list_is_no_error() {
    let mut cursor = Cursor::new();
    assert_eq!(cursor.advance(EntryReply::Entry), Ok(Step::Yield(0)));
    assert_eq!(cursor.advance(EntryReply::End), Ok(Step::Finished));
    assert_eq!(cursor.query(), None);
    assert_eq!(cursor.advance(EntryReply::Entry), Ok(Step::Finished));
    assert_eq!(cursor.advance(EntryReply::Failed), Ok(Step::Finished));
    assert_eq!(cursor.advance(EntryReply::End), Ok(Step::Finished));
    assert_eq!(cursor.query(), None);
}

#[test]
fn an_empty_list_ends_at_once() {
    let mut cursor = Cursor::new();
    assert_eq!(cursor.query(), Some(0));
    assert_eq!(cursor.advance(EntryReply::End), Ok(Step::Finished));
    assert_eq!(cursor.query(), None);
}

#[test]
fn a_failed_query_is_a_device_error_and_keeps_the_position() {
    let mut cursor = Cursor::new();
    cursor.advance(EntryReply::Entry).unwrap();
    cursor.advance(EntryReply::Entry).unwrap();
    assert_eq!(cursor.advance(EntryReply::Failed), Err(Error::DeviceError));
    assert_eq!(cursor.query(), Some(2));
    assert_eq!(cursor.advance(EntryReply::Entry), Ok(Step::Yield(2)));
    assert_eq!(cursor.query(), Some(3));
}

#[test]
fn a_walk_can_begin_anew() {
    let mut cursor = Cursor::new();
    cursor.advance(EntryReply::Entry).unwrap();
    cursor.advance(EntryReply::Entry).unwrap();
    cursor.restart();
    assert_eq!(cursor, Cursor::new());
    assert_eq!(cursor.query(), Some(0));
    cursor.advance(EntryReply::End).unwrap();
    assert_eq!(cursor.query(), None);
    cursor.restart();
    assert_eq!(cursor.query(), Some(0));
    assert_eq!(cursor.advance(EntryReply::Entry), Ok(Step::Yield(0)));
}
