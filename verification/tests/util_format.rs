use dr_downloader::converter::Converter;
use dr_downloader::error::{GenericError, OkOrGeneric};
use dr_downloader::event::Event;
use dr_downloader::format::Format;
use dr_downloader::util::{
    find_char, has_substring, legalize_filename, remove_newline, remove_newline_string,
    rfind_char,
};

#[test]
fn remove_newline_strips_trailing_line_endings() {
    assert_eq!(remove_newline("abc\r\n"), "abc");
    assert_eq!(remove_newline("abc\n"), "abc");
    assert_eq!(remove_newline("abc\n\n\n\n"), "abc");
    assert_eq!(remove_newline("abc"), "abc");
    assert_eq!(remove_newline(""), "");
    // Only trailing line endings are stripped.
    assert_eq!(remove_newline("a\nb"), "a\nb");
}

#[test]
fn remove_newline_string_in_place() {
    let mut s = "url\r\n".to_owned();
    remove_newline_string(&mut s);
    assert_eq!(s, "url");
}

#[test]
fn find_char_bounded_search() {
    assert_eq!(find_char("hello", 'l', 0, 10).unwrap(), 2);
    assert_eq!(find_char("hello", 'l', 3, 10).unwrap(), 3);
    assert!(find_char("hello", 'l', 0, 1).is_err());
    assert!(find_char("hello", 'z', 0, 10).is_err());
}

#[test]
fn rfind_char_searches_backwards_and_returns_position_after() {
    // "a/b/c": the last '/' sits at position 3; the result is 4.
    assert_eq!(rfind_char("a/b/c", '/', 0, 10).unwrap(), 4);
    // Starting one character before the end skips a trailing separator.
    assert_eq!(rfind_char("a/b/", '/', 1, 3).unwrap(), 2);
    assert!(rfind_char("abc", '/', 0, 10).is_err());
}

#[test]
fn legalize_filename_removes_illegal_characters() {
    assert_eq!(legalize_filename("a<b>:c"), "abc");
    assert_eq!(legalize_filename("a/b\\c|d?e*f\"g"), "abcdefg");
    assert_eq!(legalize_filename("plain name.mp4"), "plain name.mp4");
}

#[test]
fn has_substring_basic() {
    assert!(has_substring("abcd", "bc"));
    assert!(has_substring("abcd", ""));
    assert!(!has_substring("abcd", "xy"));
    assert!(!has_substring("ab", "abc"));
}

#[test]
fn format_extension_handling() {
    assert_eq!(Format::new("mp4").get_extension(), ".mp4");
    assert_eq!(Format::new(".mp4").get_extension(), ".mp4");
    assert_eq!(Format::from_exact_extension(".mkv").get_extension(), ".mkv");
    assert_eq!(Format::from_exact_extension("raw").get_extension(), "raw");
}

#[test]
fn event_queue_records_in_order() {
    let mut e = Event::new();
    e.call("first".to_owned());
    e.call("second".to_owned());
    assert_eq!(e.take_entries(), vec!["first".to_owned(), "second".to_owned()]);
    assert!(e.take_entries().is_empty());
}

#[test]
fn converter_holds_path_and_empty_queues() {
    let mut c = Converter::new("ffmpeg".to_owned());
    assert_eq!(c.ffmpeg_path, "ffmpeg");
    assert!(c.on_convert.take_entries().is_empty());
    assert!(c.on_done.take_entries().is_empty());
}

#[test]
fn ok_or_generic_on_options() {
    assert_eq!(Some(5u8).ok_or_generic("missing").unwrap(), 5);
    let err = None::<u8>.ok_or_generic("missing").unwrap_err();
    assert_eq!(err.message(), "missing");
    assert_eq!(err, GenericError::from("missing"));
    assert_eq!(GenericError::from("x".to_owned()).0, "x");
}
