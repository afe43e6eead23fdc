use clip_names::batch::BatchReport;
use clip_names::calendar::{leap_year, month_length, CaptureDate, CaptureTime};
use clip_names::error::AppError;
use clip_names::fields::{
    date_from_reading, parse_date, parse_time, slots_from_readings, time_from_reading, FieldSlots,
};
use clip_names::files::{find_extension_start, is_supported_file_ext};
use clip_names::grammar::GrammarRegistry;
use clip_names::matcher::{
    match_spans_whole, take_slot, title_is_fit, tokens_from_captures, RawTokens,
};
use clip_names::text::{chars_of, contains, matches_at, same_text, starts_with};
use clip_names::videoclip::{ClipProgram, VideoClip};

fn groups(texts: &[Option<&str>]) -> Option<Vec<Option<String>>> {
    Some(texts.iter().map(|t| t.map(|s| s.to_string())).collect())
}

#[test]
fn contains_finds_a_run_of_characters() {
    assert!(contains("abc_replay_def", "_replay_"));
    assert!(contains("_replay_", "_replay_"));
    assert!(contains("x.DVR.", ".DVR."));
    assert!(!contains("_replay", "_replay_"));
    assert!(!contains("_repl_ay_", "_replay_"));
    assert!(!contains("", "a"));
    assert!(contains("", ""));
    assert!(contains("abc", ""));
    assert!(contains("héllo wörld", "wör"));
}

#[test]
fn matches_at_compares_at_one_place() {
    let hay = chars_of("hello");
    assert_eq!(hay, vec!['h', 'e', 'l', 'l', 'o']);
    assert!(matches_at(&hay, &chars_of("ell"), 1));
    assert!(!matches_at(&hay, &chars_of("ell"), 2));
    assert!(matches_at(&hay, &chars_of(""), 5));
    assert!(!matches_at(&hay, &chars_of(""), 6));
    assert!(!matches_at(&hay, &chars_of("lo"), 4));
    assert!(!matches_at(&hay, &chars_of("hello!"), 0));
    assert!(!matches_at(&hay, &chars_of("o"), usize::MAX));
}

#[test]
fn starts_with_and_same_text_compare_characters() {
    assert!(starts_with("hello", "hel"));
    assert!(starts_with("hello", ""));
    assert!(starts_with("hello", "hello"));
    assert!(!starts_with("hello", "ello"));
    assert!(!starts_with("hel", "hello"));
    assert!(starts_with("Übung 1", "Übung"));
    assert!(same_text("", ""));
    assert!(same_text("Übung", "Übung"));
    assert!(!same_text("abc", "abd"));
    assert!(!same_text("abc", "ab"));
    assert!(!same_text("ab", "abc"));
}

#[test]
fn leap_years_follow_the_gregorian_rule() {
    assert!(leap_year(2024));
    assert!(!leap_year(2023));
    assert!(!leap_year(1900));
    assert!(leap_year(2000));
    assert!(leap_year(0));
    assert!(leap_year(-4));
    assert!(!leap_year(-1));
}

#[test]
fn month_lengths_are_exact() {
    let lengths: Vec<u8> = (1..=12).map(|m| month_length(2023, m)).collect();
    assert_eq!(lengths, vec![31, 28, 31, 30, 31, 30, 31, 31, 30, 31, 30, 31]);
    assert_eq!(month_length(2024, 2), 29);
    assert_eq!(month_length(2023, 0), 0);
    assert_eq!(month_length(2023, 13), 0);
}

#[test]
fn dates_are_made_only_of_days_that_exist() {
    assert_eq!(CaptureDate::new(2023, 6, 11), Some(CaptureDate { year: 2023, month: 6, day: 11 }));
    assert_eq!(CaptureDate::new(2023, 13, 1), None);
    assert_eq!(CaptureDate::new(2023, 0, 1), None);
    assert_eq!(CaptureDate::new(2023, 4, 31), None);
    assert_eq!(CaptureDate::new(2023, 4, 0), None);
    assert_eq!(CaptureDate::new(2023, 12, 31), Some(CaptureDate { year: 2023, month: 12, day: 31 }));
}

#[test]
fn times_are_made_only_of_moments_that_exist() {
    assert_eq!(
        CaptureTime::new(23, 59, 59),
        Some(CaptureTime { hour: 23, minute: 59, second: 59 })
    );
    assert_eq!(CaptureTime::new(0, 0, 0), Some(CaptureTime { hour: 0, minute: 0, second: 0 }));
    assert_eq!(CaptureTime::new(24, 0, 0), None);
    assert_eq!(CaptureTime::new(0, 60, 0), None);
    assert_eq!(CaptureTime::new(0, 0, 60), None);
}

#[test]
fn readings_are_validated() {
    assert_eq!(
        date_from_reading(Some((2023, 6, 11))),
        Some(CaptureDate { year: 2023, month: 6, day: 11 })
    );
    assert_eq!(date_from_reading(Some((2023, 2, 29))), None);
    assert_eq!(date_from_reading(None), None);
    let with_seconds = "[hour].[minute].[second]";
    let without = "[hour].[minute]";
    assert_eq!(
        time_from_reading(without, Some((1, 15, 0))),
        Some(CaptureTime { hour: 1, minute: 15, second: 0 })
    );
    assert_eq!(
        time_from_reading(with_seconds, Some((1, 15, 42))),
        Some(CaptureTime { hour: 1, minute: 15, second: 42 })
    );
    assert_eq!(
        time_from_reading(with_seconds, Some((1, 15, 0))),
        Some(CaptureTime { hour: 1, minute: 15, second: 0 })
    );
    assert_eq!(time_from_reading(with_seconds, Some((24, 0, 0))), None);
    assert_eq!(time_from_reading(without, Some((24, 0, 0))), None);
    assert_eq!(time_from_reading(with_seconds, None), None);
}

#[test]
fn a_second_is_refused_where_the_format_names_none() {
    assert_eq!(time_from_reading("[hour].[minute]", Some((1, 15, 42))), None);
    assert_eq!(time_from_reading("", Some((0, 0, 1))), None);
    let slots =
        slots_from_readings("f.mp4", "dd", Some((2020, 1, 2)), "[hour].[minute]", "tt", Some((1, 2, 3)));
    assert_eq!(
        slots.time,
        Err(AppError::FieldParseError("time".to_string(), "tt".to_string(), "f.mp4".to_string()))
    );
}

#[test]
fn tokens_are_read_by_their_format() {
    assert_eq!(
        parse_date("[year].[month].[day]", "2023.06.11"),
        Some(CaptureDate { year: 2023, month: 6, day: 11 })
    );
    assert_eq!(parse_date("[year].[month].[day]", "2023.13.01"), None);
    assert_eq!(parse_date("[year].[month].[day]", "2023.6.11"), None);
    assert_eq!(parse_date("[year].[month].[day]", "2023-06-11"), None);
    assert_eq!(parse_date("[year].[month].[day]", "2023.06.11 "), None);
    assert_eq!(parse_date("[year", "2023.06.11"), None);
    assert_eq!(
        parse_time("[hour].[minute].[second]", "00.31.42"),
        Some(CaptureTime { hour: 0, minute: 31, second: 42 })
    );
    assert_eq!(
        parse_time("[hour].[minute]", "01.15"),
        Some(CaptureTime { hour: 1, minute: 15, second: 0 })
    );
    assert_eq!(parse_time("[hour].[minute]", "24.00"), None);
    assert_eq!(parse_time("[hour].[minute]", "01.15.00"), None);
    assert_eq!(parse_time("[hour].[minute].[second]", "01.15"), None);
}

#[test]
fn slots_name_field_token_and_file() {
    let format = "[hour].[minute].[second]";
    let slots = slots_from_readings("f.mp4", "dd", None, format, "tt", Some((1, 2, 3)));
    assert_eq!(
        slots,
        FieldSlots {
            date: Err(AppError::FieldParseError(
                "date".to_string(),
                "dd".to_string(),
                "f.mp4".to_string()
            )),
            time: Ok(CaptureTime { hour: 1, minute: 2, second: 3 }),
        }
    );
    let slots =
        slots_from_readings("f.mp4", "dd", Some((2020, 1, 2)), format, "tt", Some((1, 2, 60)));
    assert_eq!(
        slots,
        FieldSlots {
            date: Ok(CaptureDate { year: 2020, month: 1, day: 2 }),
            time: Err(AppError::FieldParseError(
                "time".to_string(),
                "tt".to_string(),
                "f.mp4".to_string()
            )),
        }
    );
}

#[test]
fn take_slot_copies_a_group_or_nothing() {
    let found = groups(&[Some("whole"), Some("a"), None]).unwrap();
    assert_eq!(take_slot(&found, 0), Some("whole".to_string()));
    assert_eq!(take_slot(&found, 1), Some("a".to_string()));
    assert_eq!(take_slot(&found, 2), None);
    assert_eq!(take_slot(&found, 3), None);
}

#[test]
fn tokens_come_from_the_first_three_groups() {
    let name = "title date time 02";
    let found = groups(&[Some(name), Some("title"), Some("date"), Some("time"), Some("02")]);
    assert_eq!(
        tokens_from_captures(ClipProgram::Nvidia, name, &found),
        Ok(RawTokens {
            title: "title".to_string(),
            date: "date".to_string(),
            time: "time".to_string()
        })
    );
}

#[test]
fn no_match_is_a_mismatch_with_the_program() {
    assert_eq!(
        tokens_from_captures(ClipProgram::AMD, "f", &None),
        Err(AppError::GrammarMismatch("f".to_string(), ClipProgram::AMD))
    );
}

#[test]
fn a_match_of_a_part_is_a_mismatch() {
    let name = "title date time";
    let found = groups(&[Some("title date tim"), Some("title"), Some("date"), Some("tim")]);
    assert_eq!(
        tokens_from_captures(ClipProgram::AMD, name, &found),
        Err(AppError::GrammarMismatch(name.to_string(), ClipProgram::AMD))
    );
    let found = groups(&[None, Some("title"), Some("date"), Some("time")]);
    assert_eq!(
        tokens_from_captures(ClipProgram::AMD, name, &found),
        Err(AppError::GrammarMismatch(name.to_string(), ClipProgram::AMD))
    );
    let found = groups(&[]);
    assert_eq!(
        tokens_from_captures(ClipProgram::AMD, name, &found),
        Err(AppError::GrammarMismatch(name.to_string(), ClipProgram::AMD))
    );
    let found = groups(&[Some(name), Some("title"), Some("date"), Some("time")]).unwrap();
    assert!(match_spans_whole(&found, name));
    assert!(!match_spans_whole(&found, "title date"));
}

#[test]
fn an_empty_or_late_title_is_a_mismatch() {
    let name = " date time";
    let found = groups(&[Some(name), Some(""), Some("date"), Some("time")]);
    assert_eq!(
        tokens_from_captures(ClipProgram::Nvidia, name, &found),
        Err(AppError::GrammarMismatch(name.to_string(), ClipProgram::Nvidia))
    );
    let name = "a title date time";
    let found = groups(&[Some(name), Some("title"), Some("date"), Some("time")]);
    assert_eq!(
        tokens_from_captures(ClipProgram::Nvidia, name, &found),
        Err(AppError::GrammarMismatch(name.to_string(), ClipProgram::Nvidia))
    );
    assert!(title_is_fit("title date", "title"));
    assert!(title_is_fit("title", "title"));
    assert!(!title_is_fit("title date", ""));
    assert!(!title_is_fit("title date", "date"));
    assert!(!title_is_fit("", ""));
}

#[test]
fn an_empty_slot_is_a_missing_field() {
    let found = groups(&[Some("f"), None, Some("date"), Some("time")]);
    assert_eq!(
        tokens_from_captures(ClipProgram::Nvidia, "f", &found),
        Err(AppError::MissingField("source_name".to_string(), "f".to_string()))
    );
    let found = groups(&[Some("f"), Some("title"), None, None]);
    assert_eq!(
        tokens_from_captures(ClipProgram::Nvidia, "f", &found),
        Err(AppError::MissingField("date".to_string(), "f".to_string()))
    );
    let found = groups(&[Some("f"), Some("title"), Some("date")]);
    assert_eq!(
        tokens_from_captures(ClipProgram::Nvidia, "f", &found),
        Err(AppError::MissingField("time".to_string(), "f".to_string()))
    );
    let found = groups(&[Some("f")]);
    assert_eq!(
        tokens_from_captures(ClipProgram::Nvidia, "f", &found),
        Err(AppError::MissingField("source_name".to_string(), "f".to_string()))
    );
}

#[test]
fn assemble_reports_the_date_slot_first() {
    let tokens = || RawTokens {
        title: "t".to_string(),
        date: "d".to_string(),
        time: "m".to_string(),
    };
    let date_failure =
        AppError::FieldParseError("date".to_string(), "d".to_string(), "f".to_string());
    let time_failure =
        AppError::FieldParseError("time".to_string(), "m".to_string(), "f".to_string());
    let date = CaptureDate { year: 2020, month: 1, day: 2 };
    let time = CaptureTime { hour: 3, minute: 4, second: 5 };
    assert_eq!(
        VideoClip::assemble(
            tokens(),
            FieldSlots {
                date: Err(AppError::FieldParseError(
                    "date".to_string(),
                    "d".to_string(),
                    "f".to_string()
                )),
                time: Err(AppError::FieldParseError(
                    "time".to_string(),
                    "m".to_string(),
                    "f".to_string()
                )),
            }
        ),
        Err(date_failure)
    );
    assert_eq!(
        VideoClip::assemble(
            tokens(),
            FieldSlots {
                date: Ok(date),
                time: Err(AppError::FieldParseError(
                    "time".to_string(),
                    "m".to_string(),
                    "f".to_string()
                )),
            }
        ),
        Err(time_failure)
    );
    assert_eq!(
        VideoClip::assemble(tokens(), FieldSlots { date: Ok(date), time: Ok(time) }),
        Ok(VideoClip { source_name: "t".to_string(), date, time })
    );
}

#[test]
fn extension_is_what_follows_the_last_dot() {
    let supported = vec!["mp4".to_string(), "mkv".to_string()];
    assert!(is_supported_file_ext("clip.mp4", &supported));
    assert!(is_supported_file_ext("a.b.mkv", &supported));
    assert!(is_supported_file_ext("mp4", &supported));
    assert!(is_supported_file_ext(".mp4", &supported));
    assert!(!is_supported_file_ext("clip.MP4", &supported));
    assert!(!is_supported_file_ext("clip.mp4.txt", &supported));
    assert!(!is_supported_file_ext("clip.mp4.", &supported));
    assert!(!is_supported_file_ext("clipmp4", &supported));
    assert!(!is_supported_file_ext("", &supported));
    assert!(!is_supported_file_ext("clip.mp4", &Vec::new()));
    assert!(is_supported_file_ext("clip.", &vec![String::new()]));
    assert_eq!(find_extension_start(&chars_of("a.b.mkv")), 4);
    assert_eq!(find_extension_start(&chars_of("mkv")), 0);
    assert_eq!(find_extension_start(&chars_of("mkv.")), 4);
}

fn batch_of(names: &[&str]) -> BatchReport {
    let names: Vec<String> = names.iter().map(|n| n.to_string()).collect();
    GrammarRegistry::new().unwrap().parse_batch(&names)
}

#[test]
fn batch_keeps_going_after_a_failure() {
    let report = batch_of(&[
        "clip.mp4",
        "Monster Hunter Rise 2023.06.11 - 00.31.42.02.DVR.mp4",
        "broken.DVR.mp4",
        "MONSTER HUNTER RISE_replay_2023.06.12-01.15.mp4",
        "Foo 2023.13.01 - 00.00.00.00.DVR.mp4",
    ]);
    assert_eq!(
        report.clips,
        vec![
            VideoClip {
                source_name: "Monster Hunter Rise".to_string(),
                date: CaptureDate { year: 2023, month: 6, day: 11 },
                time: CaptureTime { hour: 0, minute: 31, second: 42 },
            },
            VideoClip {
                source_name: "MONSTER HUNTER RISE".to_string(),
                date: CaptureDate { year: 2023, month: 6, day: 12 },
                time: CaptureTime { hour: 1, minute: 15, second: 0 },
            },
        ]
    );
    assert_eq!(
        report.failures,
        vec![
            ("clip.mp4".to_string(), AppError::UnknownFormat("clip.mp4".to_string())),
            (
                "broken.DVR.mp4".to_string(),
                AppError::GrammarMismatch("broken.DVR.mp4".to_string(), ClipProgram::Nvidia)
            ),
            (
                "Foo 2023.13.01 - 00.00.00.00.DVR.mp4".to_string(),
                AppError::FieldParseError(
                    "date".to_string(),
                    "2023.13.01".to_string(),
                    "Foo 2023.13.01 - 00.00.00.00.DVR.mp4".to_string()
                )
            ),
        ]
    );
}

#[test]
fn batch_counts_do_not_depend_on_the_order() {
    let good_a = "Monster Hunter Rise 2023.06.11 - 00.31.42.02.DVR.mp4";
    let good_b = "MONSTER HUNTER RISE_replay_2023.06.12-01.15.mp4";
    let bad_a = "clip.mp4";
    let bad_b = "broken.DVR.mp4";
    let bad_c = "Foo_replay_2023.02.30-10.00.mp4";
    let orders: Vec<Vec<&str>> = vec![
        vec![good_a, good_b, bad_a, bad_b, bad_c],
        vec![bad_a, bad_b, bad_c, good_a, good_b],
        vec![bad_c, good_b, bad_b, good_a, bad_a],
    ];
    for order in orders {
        let report = batch_of(&order);
        assert_eq!(report.clips.len(), 2);
        assert_eq!(report.failures.len(), 3);
        for (name, _) in &report.failures {
            assert!(order.contains(&name.as_str()));
        }
    }
}

#[test]
fn batch_of_nothing_is_empty() {
    let report = batch_of(&[]);
    assert_eq!(report, BatchReport { clips: Vec::new(), failures: Vec::new() });
}

#[test]
fn batch_keeps_repeated_filenames() {
    let report = batch_of(&["clip.mp4", "clip.mp4"]);
    assert_eq!(report.clips.len(), 0);
    assert_eq!(report.failures.len(), 2);
    assert_eq!(report.failures[0], report.failures[1]);
}
