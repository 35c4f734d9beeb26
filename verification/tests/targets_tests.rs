use stream_recorder::targets::parse_target_list;
use stream_recorder::targets::split_lines;

#[test]
fn split_two_lines_with_trailing_newline() {
    assert_eq!(split_lines("rtsp://camA\nrtsp://camB\n"), vec!["rtsp://camA", "rtsp://camB"]);
}

#[test]
fn split_without_trailing_newline() {
    assert_eq!(split_lines("a\nb"), vec!["a", "b"]);
}

#[test]
fn split_empty_text_has_no_lines() {
    assert_eq!(split_lines(""), Vec::<String>::new());
}

#[test]
fn split_keeps_empty_middle_line() {
    assert_eq!(split_lines("a\n\nb"), vec!["a", "", "b"]);
}

#[test]
fn split_strips_carriage_return_before_newline() {
    assert_eq!(split_lines("a\r\nb\r\n"), vec!["a", "b"]);
}

#[test]
fn targets_are_numbered_in_input_order() {
    let ts = parse_target_list("rtsp://camA\nrtsp://camB\n");
    assert_eq!(ts.len(), 2);
    assert_eq!(ts[0].id, 0);
    assert_eq!(ts[0].address, "rtsp://camA");
    assert_eq!(ts[1].id, 1);
    assert_eq!(ts[1].address, "rtsp://camB");
}

#[test]
fn duplicate_addresses_stay_independent_targets() {
    let ts = parse_target_list("rtsp://cam\nrtsp://cam\n");
    assert_eq!(ts.len(), 2);
    assert_eq!(ts[0].address, ts[1].address);
    assert_ne!(ts[0].id, ts[1].id);
}

#[test]
fn empty_input_list_yields_no_targets() {
    assert_eq!(parse_target_list("").len(), 0);
}
