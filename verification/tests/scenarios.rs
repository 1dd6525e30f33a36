use chainsaw::bounds::start_end;
use chainsaw::bounds::Bounds;
use chainsaw::error::ParseError;
use chainsaw::text_parser::cursor;
use chainsaw::text_parser::cursorify;
use chainsaw::text_parser::Bind;
use chainsaw::text_parser::Cursor;
use chainsaw::text_parser::Matchable;
use chainsaw::text_parser::Parser;
use chainsaw::text_parser::Selectable;

#[derive(PartialEq, Debug)]
struct Time(i32, i32, f64);

fn parse_time_v1(s: &str) -> Result<(&str, Time), ParseError> {
    let (mut hh, mut mm, mut sss) = (0_i32, 0_i32, 0_f64);
    let c = cursor(s)
        .digits(2..=2)
        .parse_selection()
        .bind(&mut hh)
        .text(":")
        .digits(2..=2)
        .parse_selection()
        .bind(&mut mm)
        .text(":")
        .select(|c| c.digits(2..=2).text(".").digits(3..=3))
        .parse_selection()
        .bind(&mut sss)
        .validate()?;
    Ok((c.str()?, Time(hh, mm, sss)))
}

fn parse_time_v2(s: &str) -> Result<(&str, Time), ParseError> {
    let (mut hh, mut mm, mut sss) = (0_i32, 0_i32, 0_f64);
    let c = cursor(s)
        .digits(2..=2)
        .parse_selection()
        .bind(&mut hh)
        .text(":")
        .digits(2..=2)
        .parse_selection()
        .bind(&mut mm)
        .text(":")
        .selection_start()
        .digits(2..=2)
        .text(".")
        .digits(3..=3)
        .selection_end()
        .parse_selection()
        .bind(&mut sss)
        .validate()?;
    Ok((c.str()?, Time(hh, mm, sss)))
}

fn parse_time_v3(s: &str) -> Result<(&str, Time), ParseError> {
    let (c, hh, mm, sss) = cursor(s)
        .digits(2..=2)
        .parse_selection()?
        .text(":")
        .digits(2..=2)
        .parse_selection()?
        .text(":")
        .select(|c| c.digits(2..=2).text(".").digits(3..=3))
        .parse_selection()?;
    Ok((c.str()?, Time(hh, mm, sss)))
}

fn parse_time_v4<'a>(s: Cursor<'a>) -> Result<(Cursor<'a>, Time), ParseError> {
    let (c, hh, mm, sss) = s
        .selection_start()
        .digits(2..=2)
        .parse_selection()?
        .text(":")
        .selection_start()
        .digits(2..=2)
        .parse_selection()?
        .text(":")
        .select(|c| c.digits(2..=2).text(".").digits(3..=3))
        .parse_selection()?;
    Ok((c, Time(hh, mm, sss)))
}

#[derive(Debug, PartialEq)]
struct TimePeriod(Time, Time);

fn parse_time_period(s: &str) -> Result<(&str, TimePeriod), ParseError> {
    let (c, time1, time2) = cursor(s)
        .parse_struct_str(|c| parse_time_v3(c))?
        .text("-")
        .ws()
        .parse_struct_str(|c| parse_time_v3(c))?;
    Ok((c.str()?, TimePeriod(time1, time2)))
}

#[test]
fn test_parse_from_str() {
    let (c, i, j) = cursor("42X45Y")
        .digits(1..)
        .parse_selection::<i32>()
        .unwrap()
        .text("X")
        .digits(1..)
        .parse_selection::<i32>()
        .unwrap();
    assert_eq!(i, 42);
    assert_eq!(j, 45);
    assert_eq!(c.str().ok(), Some("Y"));

    let (c, s) = cursor(" cat ")
        .ws()
        .alphabetics(1..)
        .parse_selection::<String>()
        .unwrap()
        .ws()
        .validate()
        .unwrap();
    assert_eq!(s, String::from("cat"));
    assert_eq!(c.str().ok(), Some(""));

    let (c, s) = cursor(" cat ")
        .ws()
        .alphabetics(1..)
        .parse_selection::<String>()
        .unwrap()
        .ws()
        .validate()
        .unwrap();
    assert_eq!(s, String::from("cat"));
    assert_eq!(c.str().ok(), Some(""));
}

fn lp<'a, T>(s: Cursor<'a>, mut p: impl Parser<'a, T>) {
    let _ = p.parse(s);
}

#[derive(Default)]
struct StructEx;

impl StructEx {
    fn parse_ex2<'a>(&self, s: &'a str) -> Result<(&'a str, String), ParseError> {
        Ok((s, String::from("Example2")))
    }

    fn parse_ex4<'a>(&self, s: Cursor<'a>) -> Result<(Cursor<'a>, String), ParseError> {
        Ok((s, String::from("Example4")))
    }
}

fn parse_ex1(s: &str) -> Result<(&str, String), ParseError> {
    Ok((s, String::from("Example1")))
}

fn parse_ex3(s: Cursor) -> Result<(Cursor, String), ParseError> {
    Ok((s, String::from("Example3")))
}

#[test]
fn test_examples() {
    let selfie = StructEx;

    let (_c, _vec) = cursor("")
        .parse_struct_vec(|c| c.ws().parse_selection::<i32>())
        .unwrap();

    lp(cursor("parse_ex1 as ...     "), cursorify(parse_ex1));
    lp(cursor("parse_ex1 as StrFunc "), cursorify(|s| parse_ex1(s)));
    lp(
        cursor("(&selfie,f)          "),
        cursorify(|s| selfie.parse_ex2(s)),
    );
    lp(cursor("|c| self.parse_ex4(c)"), |c| selfie.parse_ex4(c));
    lp(cursor("parse_ex3            "), parse_ex3);
    lp(cursor("|c| parse_ex(c)      "), |c| parse_ex3(c));
    lp(cursor("11:20:24.123         "), |c| parse_time_v4(c));
    lp(cursor("11:21:24.123         "), parse_time_v4);
    lp(cursor("11:22:24.123         "), cursorify(parse_time_v3));
    lp(cursor("11:23:24.123         "), cursorify(parse_time_v2));
}

fn rb<R: Into<Bounds>>(r: R) -> (Option<i64>, Option<i64>) {
    start_end(r.into())
}

#[test]
fn test_parse_range() {
    assert_eq!(rb(1..3), (Some(1), Some(2)));
    assert_eq!(rb(..=3), (None, Some(3)));
    assert_eq!(rb(..), (None, None));
}

#[test]
fn test_parse_nested() {
    rb(1..3);
    rb(..=3);
    rb(..);

    assert_eq!(
        parse_time_v1("23:59:13.234").unwrap(),
        ("", Time(23, 59, 13.234))
    );
    assert_eq!(
        parse_time_v2("23:59:13.234").unwrap(),
        ("", Time(23, 59, 13.234))
    );
    assert_eq!(
        parse_time_v3("23:59:13.234").unwrap(),
        ("", Time(23, 59, 13.234))
    );
    assert_eq!(
        parse_time_v4(cursor("23:59:13.234")).unwrap().1,
        Time(23, 59, 13.234)
    );

    assert_eq!(
        parse_time_v1("23:59:13.234Hello").unwrap(),
        ("Hello", Time(23, 59, 13.234))
    );
    assert_eq!(parse_time_v3("23:X:13.234Hello").is_err(), true);
    assert_eq!(
        parse_time_period("13:12:13.234-12:34:19.234-rest").unwrap(),
        (
            "-rest",
            TimePeriod(Time(13, 12, 13.234), Time(12, 34, 19.234))
        )
    );
}

fn parse_str_time_array(s: &str) -> Result<(&str, Vec<Time>), ParseError> {
    let (c, vec) = cursor(s)
        .debug_context("str time array")
        .text("{")
        .ws()
        .parse_struct_vec(|c| {
            c.parse_struct_str(|c| parse_time_v3(c))?
                .maybe(",")
                .ws()
                .validate()
        })?
        .ws()
        .text("}")
        .validate()?;
    Ok((c.str()?, vec))
}

fn parse_time_array(s: Cursor) -> Result<(Cursor, Vec<Time>), ParseError> {
    let (c, vec) = s
        .debug_context("time array")
        .text("{")
        .ws()
        .parse_struct_vec(|c| parse_time_v4(c)?.maybe(",").ws().validate())?
        .ws()
        .text("}")
        .validate()?;
    Ok((c, vec))
}

#[test]
fn test_parse_lists() {
    let s = cursor("1,2,3,4,5,");
    let mut vec1 = vec![];
    let res1 = s.parse_struct_vec_to(
        |c| {
            c.selection_start()
                .digits(1..5)
                .selection_end()
                .text_alt(&[",", " "])
                .parse_selection_as_str()
        },
        &mut vec1,
    );
    assert_eq!(res1.is_ok(), true);
    assert_eq!(vec1.len(), 5, "vec:{:?}", vec1);
    assert_eq!(vec1[0], "1");
    assert_eq!(vec1[1], "2");
    assert_eq!(res1.unwrap().str().ok(), Some(""));

    let mut ll2: Vec<i32> = Vec::new();
    let s = cursor("{1,2,3,4,5,}");
    let res2 = s
        .debug_context("array")
        .text("{")
        .repeat(1.., |c| c.digits(1..).append_last(&mut ll2).maybe(","))
        .text("}")
        .validate();
    assert_eq!(res2.is_ok(), true);
    assert_eq!(ll2.len(), 5, "linkedlist:{:?}", ll2);

    let res = parse_str_time_array("{01:02:03.345, 02:02:03.346, 23:02:03.347}").unwrap();
    assert_eq!(res.1.len(), 3);
    assert_eq!(res.1[0], Time(1, 2, 3.345));
    assert_eq!(res.1[2], Time(23, 2, 3.347));
    assert_eq!(res.1.len(), 3);
    assert_eq!(res.0, "");

    let res = parse_time_array(cursor("{01:02:03.345, 02:02:03.346, 23:02:03.347}")).unwrap();
    assert_eq!(res.1.len(), 3);
    assert_eq!(res.1[0], Time(1, 2, 3.345));
    assert_eq!(res.1[2], Time(23, 2, 3.347));
    assert_eq!(res.1.len(), 3);
    assert_eq!(res.0.str().unwrap(), "");
}
