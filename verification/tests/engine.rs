use chainsaw::bounds::start_end;
use chainsaw::bounds::Bounds;
use chainsaw::error::failure;
use chainsaw::error::failure_on;
use chainsaw::error::ParseError;
use chainsaw::error::Recoverable;
use chainsaw::selection::Selection;
use chainsaw::sink::Sink;
use chainsaw::text::char_count;
use chainsaw::text::contains_char;
use chainsaw::text::find_text;
use chainsaw::text::is_ascii_digit;
use chainsaw::text::is_horizontal_space;
use chainsaw::text::is_word_char;
use chainsaw::text::skip_horizontal_spaces;
use chainsaw::text::skip_line;
use chainsaw::text::skip_non_spaces;
use chainsaw::text::skip_spaces;
use chainsaw::text::skip_word;
use chainsaw::text::split_run;
use chainsaw::text::strip_any;
use chainsaw::text::strip_line_end;
use chainsaw::text::strip_prefix;
use chainsaw::text::text_eq;
use chainsaw::text_parser::cursor;
use chainsaw::text_parser::cursorify;
use chainsaw::text_parser::Bind;
use chainsaw::text_parser::Cursor;
use chainsaw::text_parser::Detuple;
use chainsaw::text_parser::Matchable;
use chainsaw::text_parser::Selectable;
use std::collections::VecDeque;
use std::ops::Bound;

fn rest<'a>(c: &Cursor<'a>) -> Option<&'a str> {
    c.str().ok()
}

fn error_of(c: Cursor) -> ParseError {
    c.validate().unwrap_err()
}

fn label_of(e: &ParseError) -> (&'static str, String) {
    match e {
        ParseError::NoMatch { action, args } => (action, args.clone()),
        ParseError::Fatal(_) => panic!("a fatal error has no label"),
    }
}

#[test]
fn failure_keeps_the_action_and_drops_the_argument() {
    let e = failure("digits_m", "some text");
    assert_eq!(label_of(&e), ("digits_m", String::new()));
    assert!(e.is_recoverable());
}

#[test]
fn failure_on_keeps_the_argument() {
    let e = failure_on("parse", "abc");
    assert_eq!(label_of(&e), ("parse", String::from("abc")));
}

#[test]
fn default_error_is_an_unlabelled_failed_match() {
    let e = ParseError::default();
    assert_eq!(label_of(&e), ("", String::new()));
}

#[test]
fn fatal_is_not_recoverable() {
    assert!(!ParseError::Fatal(None).is_recoverable());
    assert!(!ParseError::Fatal(Some(String::from("disk"))).is_recoverable());
}

#[test]
fn copy_of_a_fatal_error_drops_the_cause() {
    let e = ParseError::Fatal(Some(String::from("disk")));
    assert!(matches!(e.clone(), ParseError::Fatal(None)));
    let n = failure_on("parse", "abc");
    assert_eq!(label_of(&n.clone()), ("parse", String::from("abc")));
}

#[test]
fn message_renders_each_kind() {
    assert_eq!(
        ParseError::Fatal(Some(String::from("disk"))).message(),
        "Fatal:disk"
    );
    assert_eq!(ParseError::Fatal(None).message(), "Fatal:");
    assert_eq!(
        failure_on("parse", "abc").message(),
        "FailedMatch: (action='parse' args='abc')"
    );
    assert_eq!(
        failure("digits_m", "").message(),
        "FailedMatch: (action='digits_m' args='')"
    );
}

#[test]
fn conversion_failures_become_fixed_labels() {
    let int = "x".parse::<i32>().unwrap_err();
    assert_eq!(
        label_of(&ParseError::from(int)),
        ("parse int error", String::new())
    );
    let float = "x".parse::<f64>().unwrap_err();
    assert_eq!(
        label_of(&ParseError::from(float)),
        ("parse float error", String::new())
    );
    let boolean = "x".parse::<bool>().unwrap_err();
    assert_eq!(
        label_of(&ParseError::from(boolean)),
        ("parse bool error", String::new())
    );
}

#[test]
fn start_end_normalizes_each_kind_of_end() {
    let b = |start, end| start_end(Bounds { start, end });
    assert_eq!(
        b(Bound::Included(2), Bound::Included(5)),
        (Some(2), Some(5))
    );
    assert_eq!(
        b(Bound::Excluded(2), Bound::Excluded(5)),
        (Some(3), Some(4))
    );
    assert_eq!(b(Bound::Unbounded, Bound::Unbounded), (None, None));
    assert_eq!(
        b(Bound::Excluded(i32::MAX), Bound::Excluded(i32::MIN)),
        (Some(2147483648), Some(-2147483649))
    );
}

#[test]
fn bounds_come_from_every_range_form() {
    assert_eq!(start_end(Bounds::from(1..3)), (Some(1), Some(2)));
    assert_eq!(start_end(Bounds::from(1..=3)), (Some(1), Some(3)));
    assert_eq!(start_end(Bounds::from(1..)), (Some(1), None));
    assert_eq!(start_end(Bounds::from(..3)), (None, Some(2)));
    assert_eq!(start_end(Bounds::from(..=3)), (None, Some(3)));
    assert_eq!(start_end(Bounds::from(..)), (None, None));
    assert_eq!(
        start_end(Bounds::from((Bound::Excluded(1), Bound::Unbounded))),
        (Some(2), None)
    );
}

#[test]
fn exhausted_inclusive_range_excludes_its_end() {
    let mut r = 1..=2;
    while r.next().is_some() {}
    assert_eq!(start_end(Bounds::from(r)), (Some(2), Some(1)));
}

#[test]
fn split_run_stops_at_the_first_stop_character() {
    assert_eq!(split_run("42X45Y", |c| !c.is_ascii_digit()), (2, "X45Y"));
    assert_eq!(split_run("42", |c| !c.is_ascii_digit()), (2, ""));
    assert_eq!(split_run("X", |c| !c.is_ascii_digit()), (0, "X"));
    assert_eq!(split_run("", |c| !c.is_ascii_digit()), (0, ""));
    assert_eq!(split_run("héé1", |c| c.is_ascii_digit()), (3, "1"));
}

#[test]
fn strip_prefix_wants_the_exact_prefix() {
    assert_eq!(strip_prefix("hello", "he"), Some("llo"));
    assert_eq!(strip_prefix("hello", ""), Some("hello"));
    assert_eq!(strip_prefix("hello", "hello"), Some(""));
    assert_eq!(strip_prefix("hello", "hex"), None);
    assert_eq!(strip_prefix("he", "hello"), None);
    assert_eq!(strip_prefix("é!", "é"), Some("!"));
}

#[test]
fn strip_any_takes_the_first_word_that_fits() {
    assert_eq!(strip_any("abc", &["b", "ab", "a"]), Some("c"));
    assert_eq!(strip_any("abc", &["a", "ab"]), Some("bc"));
    assert_eq!(strip_any("abc", &["x", "y"]), None);
    assert_eq!(strip_any("abc", &[]), None);
}

#[test]
fn find_text_gives_the_first_occurrence() {
    assert_eq!(find_text("hello world", "o"), Some((4, "o world")));
    assert_eq!(find_text("hello", ""), Some((0, "hello")));
    assert_eq!(find_text("hello", "lo"), Some((3, "lo")));
    assert_eq!(find_text("héllo", "l"), Some((2, "llo")));
    assert_eq!(find_text("hello", "z"), None);
    assert_eq!(find_text("", "z"), None);
    assert_eq!(find_text("", ""), Some((0, "")));
}

#[test]
fn text_eq_compares_characters() {
    assert!(text_eq("abc", "abc"));
    assert!(text_eq("", ""));
    assert!(!text_eq("abc", "ab"));
    assert!(!text_eq("ab", "abc"));
    assert!(!text_eq("abc", "abd"));
}

#[test]
fn character_classes() {
    assert!(is_ascii_digit('0'));
    assert!(is_ascii_digit('9'));
    assert!(!is_ascii_digit('a'));
    assert!(!is_ascii_digit('٣'));
    assert!(is_horizontal_space(' '));
    assert!(is_horizontal_space('\t'));
    assert!(!is_horizontal_space('\n'));
    assert!(!is_horizontal_space('\r'));
    assert!(!is_horizontal_space('x'));
    assert!(is_word_char('a'));
    assert!(is_word_char('é'));
    assert!(is_word_char('7'));
    assert!(is_word_char('-'));
    assert!(!is_word_char(' '));
    assert!(!is_word_char('_'));
    assert!(contains_char(&['a', 'b'], 'b'));
    assert!(!contains_char(&['a', 'b'], 'c'));
    assert!(!contains_char(&[], 'c'));
    assert_eq!(char_count("héllo"), 5);
    assert_eq!(char_count(""), 0);
}

#[test]
fn skips() {
    assert_eq!(skip_spaces(" \t\n x "), "x ");
    assert_eq!(skip_spaces("x"), "x");
    assert_eq!(skip_non_spaces("ab cd"), " cd");
    assert_eq!(skip_horizontal_spaces(" \t\nx"), "\nx");
    assert_eq!(skip_horizontal_spaces(" \rx"), "\rx");
    assert_eq!(skip_word("ab-12 cd"), " cd");
    assert_eq!(skip_line("ab\ncd\nef"), "cd\nef");
    assert_eq!(skip_line("abcd"), "");
    assert_eq!(skip_line("\n"), "");
    assert_eq!(strip_line_end(""), Some(""));
    assert_eq!(strip_line_end("\r\nab"), Some("ab"));
    assert_eq!(strip_line_end("\nab"), Some("ab"));
    assert_eq!(strip_line_end("ab"), None);
    assert_eq!(strip_line_end("\rab"), None);
}

#[test]
fn selection_windows() {
    let buffer = "hello world";
    let d = Selection::Defaulted(buffer);
    assert_eq!(d.start(), "hello world");
    assert_eq!(d.selection(" world"), ("hello world", " world"));
    assert_eq!(d.capture(" world"), "hello");
    let moved = d.move_cursor(" world");
    assert_eq!(moved.capture("world"), " ");

    let open = Selection::Start("lo world", None);
    assert_eq!(open.capture("world"), "lo ");
    assert_eq!(open.move_cursor(" world").capture("ld"), "lo wor");

    let closed = Selection::Start("lo world", Some(" world"));
    assert_eq!(closed.capture("ld"), "lo");
    assert_eq!(closed.move_cursor("world").capture(""), "lo");
    assert_eq!(closed.selection("ld"), ("lo world", " world"));

    assert!(d.same(&Selection::Defaulted("hello world")));
    assert!(!d.same(&open));
    assert!(closed.same(&Selection::Start("lo world", Some(" world"))));
    assert!(!closed.same(&Selection::Start("lo world", None)));
}

#[test]
fn capture_between_texts_of_other_buffers_is_empty() {
    let s = Selection::Start("ab", None);
    assert_eq!(s.capture("a much longer text"), "");
}

#[test]
fn digits_fails_below_the_lower_bound() {
    let c = cursor("1").digits(2..=2);
    let e = error_of(c);
    assert!(e.is_recoverable());
    assert_eq!(label_of(&e), ("digits_m", String::new()));
}

#[test]
fn run_length_against_the_upper_bound_with_a_following_character() {
    assert_eq!(rest(&cursor("123x").digits(3..=3)), Some("x"));
    assert_eq!(rest(&cursor("123x").digits(2..=2)), Some("x"));
    assert_eq!(rest(&cursor("123x").digits(1..=1)), None);
    assert_eq!(rest(&cursor("123x").digits(4..=4)), None);
    assert_eq!(rest(&cursor("123x").digits(1..4)), Some("x"));
    assert_eq!(rest(&cursor("123x").digits(1..3)), Some("x"));
    assert_eq!(rest(&cursor("123x").digits(1..2)), None);
}

#[test]
fn run_length_against_the_upper_bound_at_the_end_of_the_text() {
    assert_eq!(rest(&cursor("123").digits(3..=3)), Some(""));
    assert_eq!(rest(&cursor("123").digits(2..=2)), None);
    assert_eq!(rest(&cursor("123").digits(4..=4)), None);
    assert_eq!(rest(&cursor("123").digits(..)), Some(""));
    assert_eq!(rest(&cursor("123").digits(4..)), None);
}

#[test]
fn empty_runs_and_degenerate_ranges() {
    assert_eq!(rest(&cursor("x").digits(0..=0)), Some("x"));
    assert_eq!(rest(&cursor("").digits(0..=0)), Some(""));
    assert_eq!(rest(&cursor("x").digits(..)), Some("x"));
    assert_eq!(rest(&cursor("").digits(..0)), None);
    assert_eq!(rest(&cursor("12").digits(..=-1)), None);
    assert_eq!(rest(&cursor("12").digits(-5..)), Some(""));
}

#[test]
fn digits_never_pass_other_characters() {
    let (c, text) = cursor("0129a3")
        .digits(1..)
        .parse_selection_as_str()
        .unwrap();
    assert_eq!(text, "0129");
    assert_eq!(rest(&c), Some("a3"));
    assert_eq!(rest(&cursor("٣4").digits(..)), Some("٣4"));
}

#[test]
fn class_matchers_and_their_labels() {
    assert_eq!(rest(&cursor("héllo wörld").alphabetics(1..)), Some(" wörld"));
    assert_eq!(rest(&cursor("ab12-").alphanumerics(1..)), Some("-"));
    assert_eq!(rest(&cursor("abbac").chars_in(1.., &['a', 'b'])), Some("c"));
    assert_eq!(rest(&cursor("ab,c").chars_not_in(1.., &[','])), Some(",c"));
    assert_eq!(
        rest(&cursor("ABc").chars_match(1.., |c: char| c.is_uppercase())),
        Some("c")
    );
    assert_eq!(
        label_of(&error_of(cursor("1").alphabetics(1..))).0,
        "alpha_many"
    );
    assert_eq!(
        label_of(&error_of(cursor("-").alphanumerics(1..))).0,
        "alpha_many"
    );
    assert_eq!(
        label_of(&error_of(cursor("c").chars_in(1.., &['a']))).0,
        "chars_in"
    );
    assert_eq!(
        label_of(&error_of(cursor("a").chars_not_in(1.., &['a']))).0,
        "chars_not_in"
    );
    assert_eq!(
        label_of(&error_of(cursor("a").chars_match(1.., |c: char| c == 'b'))).0,
        "chars_match"
    );
    assert_eq!(
        label_of(&error_of(cursor("a").chars_match(..0, |c: char| c == 'a'))).0,
        "chars_match"
    );
}

#[test]
fn literal_matchers() {
    assert_eq!(rest(&cursor("hello").text("he")), Some("llo"));
    assert_eq!(rest(&cursor("hello").text("")), Some("hello"));
    assert_eq!(label_of(&error_of(cursor("hello").text("x"))).0, "text");
    assert_eq!(rest(&cursor("hello").maybe("he")), Some("llo"));
    assert_eq!(rest(&cursor("hello").maybe("x")), Some("hello"));
    assert_eq!(rest(&cursor("a,b").text_alt(&[",", "a"])), Some(",b"));
    assert_eq!(
        label_of(&error_of(cursor("a,b").text_alt(&[",", " "]))).0,
        "text_alt"
    );
    assert_eq!(rest(&cursor("").text_eos()), Some(""));
    assert_eq!(label_of(&error_of(cursor("x").text_eos())).0, "eos");
    assert_eq!(rest(&cursor("").text_eol()), Some(""));
    assert_eq!(rest(&cursor("\r\nx").text_eol()), Some("x"));
    assert_eq!(rest(&cursor("\nx").text_eol()), Some("x"));
    assert_eq!(label_of(&error_of(cursor("x\n").text_eol())).0, "eol");
    assert_eq!(rest(&cursor("hello").noop()), Some("hello"));
}

#[test]
fn searching_matchers() {
    assert_eq!(rest(&cursor("hello world").find("o w")), Some("o world"));
    assert_eq!(
        rest(&cursor("hello world").find("o").find("o").find("o")),
        Some("o world")
    );
    assert_eq!(label_of(&error_of(cursor("hello").find("z"))).0, "find");
    assert_eq!(rest(&cursor("hello world").scan_text("o w")), Some("orld"));
    assert_eq!(
        rest(&cursor("hello world").scan_text("o")),
        rest(&cursor("hello world").find("o").text("o"))
    );
    assert_eq!(label_of(&error_of(cursor("hello").scan_text("z"))).0, "scan");
    assert_eq!(rest(&cursor("ab\ncd").scan_eol()), Some("cd"));
    assert_eq!(rest(&cursor("ab\r\ncd").scan_eol()), Some("cd"));
    assert_eq!(rest(&cursor("abcd").scan_eol()), Some(""));
}

#[test]
fn skipping_matchers_never_fail() {
    assert_eq!(rest(&cursor(" \n x").ws()), Some("x"));
    assert_eq!(rest(&cursor("x").ws()), Some("x"));
    assert_eq!(rest(&cursor("").ws()), Some(""));
    assert_eq!(rest(&cursor(" \t\nx").hws()), Some("\nx"));
    assert_eq!(rest(&cursor("ab cd").non_ws()), Some(" cd"));
    assert_eq!(rest(&cursor("ab-12 cd").word()), Some(" cd"));
    assert_eq!(rest(&cursor(" cd").word()), Some(" cd"));
}

#[test]
fn an_error_is_sticky() {
    let mut list: Vec<i32> = Vec::new();
    let c = cursor("abc")
        .digits(1..)
        .text("abc")
        .ws()
        .hws()
        .non_ws()
        .word()
        .noop()
        .maybe("a")
        .text_alt(&["a"])
        .text_eos()
        .text_eol()
        .find("b")
        .scan_text("b")
        .scan_eol()
        .alphabetics(..)
        .alphanumerics(..)
        .chars_in(.., &['a'])
        .chars_not_in(.., &['a'])
        .chars_match(.., |c: char| c == 'a')
        .selection_start()
        .selection_end()
        .set_str("xyz")
        .append_last(&mut list)
        .select(|c| c.text("abc"))
        .repeat(1.., |c| c.text("a"));
    assert!(list.is_empty());
    assert!(c.str().is_err());
    assert!(c.error().is_some());
    assert_eq!(label_of(&error_of(c)), ("digits_m", String::new()));
}

#[test]
fn reading_a_failing_cursor_gives_a_fixed_failure() {
    let c = cursor("abc").digits(1..);
    assert_eq!(
        label_of(&c.str().unwrap_err()),
        ("str on erroring cursor", String::new())
    );
    assert_eq!(
        label_of(&c.get_selection().unwrap_err()),
        ("str on erroring cursor", String::new())
    );
    assert_eq!(
        label_of(&c.clone().parse_selection_as_str().unwrap_err()).0,
        "str on erroring cursor"
    );
    assert_eq!(
        label_of(&c.parse_selection::<i32>().unwrap_err()).0,
        "str on erroring cursor"
    );
}

#[test]
fn set_error_replaces_and_validate_surfaces() {
    let c = cursor("abc").set_error(ParseError::Fatal(Some(String::from("disk"))));
    assert!(c.str().is_err());
    let c = c.set_error(failure("later", ""));
    assert_eq!(label_of(&error_of(c)).0, "later");
    assert_eq!(rest(&cursor("abc").validate().unwrap()), Some("abc"));
}

#[test]
fn default_capture_is_what_the_latest_step_consumed() {
    let c = cursor("ab12cd");
    assert_eq!(c.get_selection().unwrap(), "");
    let c = c.alphabetics(1..).digits(1..);
    assert_eq!(c.get_selection().unwrap(), "12");
    let c = c.maybe("zz");
    assert_eq!(c.get_selection().unwrap(), "");
}

#[test]
fn started_capture_spans_every_step_until_it_is_closed() {
    let c = cursor("ab12cd!")
        .text("a")
        .selection_start()
        .text("b")
        .digits(1..)
        .text("c");
    assert_eq!(c.get_selection().unwrap(), "b12c");
    let c = c.selection_end().text("d").text("!");
    assert_eq!(c.get_selection().unwrap(), "b12c");
    assert_eq!(rest(&c), Some(""));
    let c = cursor("ab12cd!").text("ab").selection_start().selection_end();
    assert_eq!(c.get_selection().unwrap(), "");
}

#[test]
fn capture_is_the_same_at_any_nesting_depth() {
    let c = cursor("[(ab)]")
        .text("[(")
        .select(|c| c.alphabetics(1..))
        .text(")]");
    assert_eq!(c.get_selection().unwrap(), "ab");
    let c = cursor("[(ab)]")
        .select(|c| c.text("[").select(|c| c.text("(").select(|c| c.alphabetics(1..))))
        .text(")]");
    assert_eq!(c.get_selection().unwrap(), "ab");
    let c = cursor("[(ab)]")
        .selection_start()
        .text("[")
        .select(|c| c.text("(").alphabetics(1..).text(")"));
    assert_eq!(c.get_selection().unwrap(), "(ab)");
}

#[test]
fn ending_without_a_start_closes_the_default_window() {
    let c = cursor("ab12").alphabetics(1..).selection_end().digits(1..);
    assert_eq!(c.get_selection().unwrap(), "ab");
}

#[test]
fn select_relabels_a_recoverable_failure() {
    let c = cursor("ab").select(|c| c.digits(1..));
    assert_eq!(label_of(&error_of(c)), ("select_with", String::new()));
}

#[test]
fn select_keeps_a_fatal_failure() {
    let c = cursor("ab").select(|c| c.set_error(ParseError::Fatal(Some(String::from("disk")))));
    match error_of(c) {
        ParseError::Fatal(cause) => assert_eq!(cause, Some(String::from("disk"))),
        ParseError::NoMatch { .. } => panic!("the fatal failure was replaced"),
    }
}

#[test]
fn parse_selection_reports_the_captured_text() {
    let e = cursor("abc!")
        .alphabetics(1..)
        .parse_selection::<i32>()
        .unwrap_err();
    assert!(e.is_recoverable());
    assert_eq!(label_of(&e), ("parse", String::from("abc")));
}

#[test]
fn parsed_selection_takes_the_outcome_of_the_conversion() {
    let (c, v) = cursor("7!").digits(1..).parsed_selection(Some(7u8)).unwrap();
    assert_eq!(v, 7);
    assert_eq!(rest(&c), Some("!"));
    let e = cursor("7!")
        .digits(1..)
        .parsed_selection::<u8>(None)
        .unwrap_err();
    assert_eq!(label_of(&e), ("parse", String::from("7")));
}

#[test]
fn values_accumulate_up_to_five() {
    let (c, a, b, c3, d) = cursor("1 22 333 4444 55555")
        .digits(1..)
        .parse_selection::<u32>()
        .unwrap()
        .ws()
        .digits(1..)
        .parse_selection::<u32>()
        .unwrap()
        .ws()
        .digits(1..)
        .parse_selection::<u32>()
        .unwrap()
        .ws()
        .digits(1..)
        .parse_selection::<u32>()
        .unwrap();
    assert_eq!((a, b, c3, d), (1, 22, 333, 4444));
    let five = (c, a, b, c3, d)
        .ws()
        .selection_start()
        .digits(5..=5)
        .selection_end()
        .debug_context("five")
        .parse_selection::<u32>()
        .unwrap();
    assert_eq!(five.5, 55555);
    assert_eq!(rest(&five.0), Some(""));
}

#[test]
fn tuples_pass_every_step_to_their_cursor() {
    let t = (cursor("ab"), 1u8, 2u8).text("a");
    assert_eq!(t.str().unwrap(), "b");
    assert!(t.error().is_none());
    let t = t.set_str("zz");
    assert_eq!(t.str().unwrap(), "zz");
    let t = t.set_error(failure("stop", ""));
    assert!(t.get_selection().is_err());
    assert_eq!((t.1, t.2), (1, 2));
    assert_eq!(label_of(&t.validate().unwrap_err()).0, "stop");
    let ok = (cursor("ab"), 'x').validate().unwrap();
    assert_eq!(ok.1, 'x');
}

#[test]
fn detuple_appends_at_the_end() {
    let t = <Cursor as Detuple<u8>>::maybe_detuple((cursor("a"), 1u8));
    assert_eq!(t.1, 1);
    let t = <(Cursor, u8) as Detuple<char>>::maybe_detuple((t, 'x'));
    assert_eq!((t.1, t.2), (1, 'x'));
    let n = <Cursor as Selectable>::de_nest_tuple(((1, 'a'), "z"));
    assert_eq!(n, (1, 'a', "z"));
}

#[test]
fn append_last_fills_the_collection() {
    let mut list: Vec<u8> = Vec::new();
    let c = cursor("12,x")
        .digits(1..)
        .append_last(&mut list)
        .text(",");
    assert_eq!(list, vec![12]);
    assert_eq!(rest(&c), Some("x"));
    let c = c.alphabetics(1..).append_last(&mut list);
    assert_eq!(list, vec![12]);
    assert_eq!(label_of(&error_of(c)), ("", String::new()));
}

#[test]
fn append_last_puts_the_value_behind_what_the_collection_holds() {
    let mut v: Vec<i32> = vec![7];
    let c = cursor("12a").digits(1..).append_last(&mut v);
    assert_eq!(v, vec![7, 12]);
    assert_eq!(rest(&c), Some("a"));
    assert!(c.validate().is_ok());
}

#[test]
fn a_deque_is_filled_at_its_back() {
    let mut d: VecDeque<u8> = VecDeque::from(vec![9]);
    let c = cursor("1,2")
        .digits(1..)
        .append_last(&mut d)
        .text(",")
        .digits(1..)
        .append_last(&mut d);
    assert_eq!(d, VecDeque::from(vec![9, 1, 2]));
    assert_eq!(rest(&c), Some(""));
    d.put(3);
    assert_eq!(d.back(), Some(&3));
    let mut v = vec!['a'];
    v.put('b');
    assert_eq!(v, vec!['a', 'b']);
}

#[test]
fn collection_loop_keeps_what_the_collection_held() {
    let mut sink = vec!["x"];
    let r = cursor("1,2,3,4,5,").parse_struct_vec_to(
        |c| {
            c.selection_start()
                .digits(1..5)
                .selection_end()
                .text_alt(&[",", " "])
                .parse_selection_as_str()
        },
        &mut sink,
    );
    assert_eq!(sink, vec!["x", "1", "2", "3", "4", "5"]);
    assert_eq!(rest(&r.unwrap()), Some(""));
    let mut sink = vec!["x"];
    let r = cursor("abc").parse_struct_vec_to(
        |c| c.digits(1..).parse_selection_as_str(),
        &mut sink,
    );
    assert_eq!(sink, vec!["x"]);
    assert_eq!(rest(&r.unwrap()), Some("abc"));
}

#[test]
fn append_parsed_takes_the_outcome_of_the_conversion() {
    let mut list: Vec<u8> = Vec::new();
    let c = cursor("ab").append_parsed(Some(3u8), &mut list);
    assert_eq!(list, vec![3]);
    assert_eq!(rest(&c), Some("ab"));
    let c = c.append_parsed(None::<u8>, &mut list);
    assert_eq!(list, vec![3]);
    assert!(c.str().is_err());
    let c = c.append_parsed(Some(4u8), &mut list);
    assert_eq!(list, vec![3]);
    assert_eq!(label_of(&error_of(c)), ("", String::new()));
}

#[test]
fn repeat_stops_at_the_cap() {
    assert_eq!(rest(&cursor("aaaa").repeat(..=2, |c| c.text("a"))), Some("aa"));
    assert_eq!(rest(&cursor("aaaa").repeat(..3, |c| c.text("a"))), Some("aa"));
    assert_eq!(rest(&cursor("aaaa").repeat(..0, |c| c.text("a"))), Some("aaaa"));
    assert_eq!(rest(&cursor("aaaa").repeat(0..=0, |c| c.text("a"))), Some("aaaa"));
    assert_eq!(rest(&cursor("aaaa").repeat(3..=1, |c| c.text("a"))), Some("aaa"));
}

#[test]
fn repeat_stops_at_a_recoverable_failure_without_failing() {
    let c = cursor("aab").repeat(.., |c| c.text("a"));
    assert_eq!(rest(&c), Some("b"));
    let c = cursor("b").repeat(5.., |c| c.text("a"));
    assert_eq!(rest(&c), Some("b"));
}

#[test]
fn repeat_hands_a_fatal_failure_on() {
    let mut rounds = 0;
    let c = cursor("aaa").repeat(.., |c| {
        rounds += 1;
        if rounds == 2 {
            c.set_error(ParseError::Fatal(Some(String::from("disk"))))
        } else {
            c.text("a")
        }
    });
    match error_of(c) {
        ParseError::Fatal(cause) => assert_eq!(cause, Some(String::from("disk"))),
        ParseError::NoMatch { .. } => panic!("the fatal failure was dropped"),
    }
    assert_eq!(rounds, 2);
}

#[test]
fn repeat_collects_a_list() {
    let mut list: Vec<i32> = Vec::new();
    let c = cursor("{1,2,3,4,5,}")
        .text("{")
        .repeat(1.., |c| c.digits(1..).append_last(&mut list).maybe(","))
        .text("}")
        .validate()
        .unwrap();
    assert_eq!(list, vec![1, 2, 3, 4, 5]);
    assert_eq!(rest(&c), Some(""));
}

#[test]
fn collection_loop_with_no_match_is_an_empty_success() {
    let (c, found) = cursor("abc")
        .parse_struct_vec(|c| c.digits(1..).parse_selection::<i32>())
        .unwrap();
    assert!(found.is_empty());
    assert_eq!(rest(&c), Some("abc"));
    assert_eq!(c.get_selection().unwrap(), "");
}

#[test]
fn collection_loop_collects_in_order() {
    let (c, found) = cursor("1,2,3,4,5,")
        .parse_struct_vec(|c| {
            c.selection_start()
                .digits(1..5)
                .selection_end()
                .text_alt(&[",", " "])
                .parse_selection_as_str()
        })
        .unwrap();
    assert_eq!(found, vec!["1", "2", "3", "4", "5"]);
    assert_eq!(rest(&c), Some(""));
}

#[test]
fn collection_loop_hands_a_fatal_failure_on() {
    let r = cursor("1,2,x").parse_struct_vec(|c| {
        if c.str()? == "x" {
            return Err(ParseError::Fatal(Some(String::from("disk"))));
        }
        c.digits(1..).text(",").selection_start().parse_selection_as_str()
    });
    match r {
        Err(ParseError::Fatal(cause)) => assert_eq!(cause, Some(String::from("disk"))),
        _ => panic!("the fatal failure was dropped"),
    }
    let mut sink: Vec<&str> = Vec::new();
    let r = cursor("1,2,x").parse_struct_vec_to(
        |c| {
            if c.str()? == "x" {
                return Err(ParseError::Fatal(None));
            }
            c.selection_start()
                .digits(1..)
                .selection_end()
                .text(",")
                .parse_selection_as_str()
        },
        &mut sink,
    );
    assert!(matches!(r, Err(ParseError::Fatal(None))));
    assert_eq!(sink, vec!["1", "2"]);
}

#[test]
fn collection_loop_on_a_tuple_appends_the_values() {
    let (c, n, found) = cursor("3:a,b,c")
        .digits(1..)
        .parse_selection::<usize>()
        .unwrap()
        .text(":")
        .parse_struct_vec(|t| {
            let t = t.alphabetics(1..=1);
            let text = t.get_selection()?;
            Ok((t.maybe(","), text))
        })
        .unwrap();
    assert_eq!(n, 3);
    assert_eq!(found, vec!["a", "b", "c"]);
    assert_eq!(rest(&c), Some(""));
}

fn number(s: &str) -> Result<(&str, u32), ParseError> {
    let (c, n) = cursor(s).digits(1..).parse_selection::<u32>()?;
    Ok((c.str()?, n))
}

fn letters_as_number(s: &str) -> Result<(&str, u32), ParseError> {
    let (c, n) = cursor(s).alphabetics(1..).parse_selection::<u32>()?;
    Ok((c.str()?, n))
}

#[test]
fn sub_parsers_over_text() {
    let (c, n) = cursor("12ab").parse_struct_str(number).unwrap();
    assert_eq!(n, 12);
    assert_eq!(rest(&c), Some("ab"));
    assert_eq!(c.get_selection().unwrap(), "12");
    let e = cursor("ab").parse_struct_str(letters_as_number).unwrap_err();
    assert_eq!(label_of(&e), ("parse", String::from("ab")));
    let e = cursor("ab").text("x").parse_struct_str(number).unwrap_err();
    assert_eq!(label_of(&e).0, "str on erroring cursor");

    let (c, n) = cursorify(number)(cursor("12ab")).unwrap();
    assert_eq!(n, 12);
    assert_eq!(rest(&c), Some("ab"));
    assert_eq!(c.get_selection().unwrap(), "");
    assert!(cursorify(number)(cursor("ab").text("x")).is_err());
    let (_, found) = cursor("1 2 3")
        .parse_struct_vec(cursorify(|s| {
            let (rest, n) = number(s)?;
            Ok((rest.trim_start(), n))
        }))
        .unwrap();
    assert_eq!(found, vec![1, 2, 3]);
}

#[test]
fn sub_parser_over_a_cursor() {
    let (c, n) = cursor("12ab")
        .parse_struct::<(), _, _>(|c| c.digits(1..).parse_selection::<u32>())
        .unwrap();
    assert_eq!(n, 12);
    assert_eq!(rest(&c), Some("ab"));
    let (c, n, m) = (c, n)
        .parse_struct::<(), _, _>(|t| Ok((t.text("ab"), 7u8)))
        .unwrap();
    assert_eq!((n, m), (12, 7));
    assert_eq!(rest(&c), Some(""));
}

#[test]
fn values_stored_beside_an_unmoved_cursor() {
    let mut seen = 0;
    let c = cursor("12ab").parse_with(number, |n| seen = n).unwrap();
    assert_eq!(seen, 12);
    assert_eq!(rest(&c), Some("12ab"));

    let mut dest = 0;
    let c = c.parse_put(number, &mut dest).unwrap();
    assert_eq!(dest, 12);
    assert_eq!(rest(&c), Some("12ab"));

    let mut opt = None;
    let c = c.parse_to_opt(number, &mut opt).unwrap();
    assert_eq!(opt, Some(12));
    assert_eq!(rest(&c), Some("12ab"));

    let c = c.text("12");
    let mut dest = 5;
    assert!(c.clone().parse_put(number, &mut dest).is_err());
    assert_eq!(dest, 5);
    let mut opt = Some(5);
    assert!(c.clone().parse_to_opt(number, &mut opt).is_err());
    assert_eq!(opt, Some(5));
    assert!(c.parse_with(number, |_| panic!("nothing to save")).is_err());
}

#[test]
fn bind_stores_the_value() {
    let mut n = 0u32;
    let c = cursor("12ab")
        .digits(1..)
        .parse_selection()
        .bind(&mut n)
        .text("ab");
    assert_eq!(n, 12);
    assert_eq!(rest(&c), Some(""));
}

#[test]
fn cursors_are_equal_only_without_errors() {
    assert!(cursor("abc") == cursor("abc"));
    assert!(cursor("abc") != cursor("abd"));
    assert!(cursor("abc").text("a") != cursor("bc"));
    assert!(cursor("abc").text("a") == cursor("abc").text("a"));
    assert!(cursor("abc").debug_context("x") != cursor("abc"));
    assert!(cursor("abc").selection_start() != cursor("abc"));
    let failing = cursor("abc").text("x");
    assert!(failing != failing.clone());
    assert!(Cursor::from("abc") == cursor("abc"));
}

#[test]
fn a_copy_keeps_the_state() {
    let c = cursor("ab12").selection_start().alphabetics(1..);
    let d = c.clone();
    assert!(c == d);
    assert_eq!(d.get_selection().unwrap(), "ab");
    let f = cursor("ab").set_error(ParseError::Fatal(Some(String::from("disk"))));
    assert!(matches!(error_of(f.clone()), ParseError::Fatal(None)));
}
