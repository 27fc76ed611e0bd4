use log_collector::parser::{
    arbitrary_json_record, classify, cri_parts, cri_record, docker_json_record, field_text,
    optional_field_text, pick_message, pick_parts, syslog_record, timestamp_or, CriParts, JsonKeys,
    LogFormat, ParseError, SyslogVariant,
};
use log_collector::record::{Metadata, NormalizedLog, Timestamp};
use log_collector::text::{
    chars_of, has_suffix, position_after_last, splitn, strip_newline, trim_end,
};
use log_collector::trusted::JsonField;

fn parser_now() -> Timestamp {
    Timestamp { seconds: 42, nanos: 7 }
}

#[test]
fn container_runtime_line_is_normalized() {
    let line = "2024-01-01T00:00:00.000000000Z stdout F hello world\n";
    let log = NormalizedLog::select_parser(line, parser_now()).unwrap();
    assert_eq!(
        log,
        NormalizedLog {
            timestamp: Timestamp { seconds: 1704067200, nanos: 0 },
            level: None,
            message: "hello world".to_string(),
            metadata: Some(Metadata { stream: "stdout".to_string(), flag: Some("F".to_string()) }),
            raw_line: "2024-01-01T00:00:00.000000000Z stdout F hello world".to_string(),
        }
    );
}

#[test]
fn container_runtime_line_keeps_subsecond_part() {
    let line = "2023-10-06T00:17:09.669794202Z stderr P partial write";
    let log = NormalizedLog::cri_parser(line, parser_now()).unwrap();
    assert_eq!(log.timestamp, Timestamp { seconds: 1696551429, nanos: 669794202 });
    assert_eq!(log.message, "partial write");
    assert_eq!(
        log.metadata,
        Some(Metadata { stream: "stderr".to_string(), flag: Some("P".to_string()) })
    );
    assert_eq!(log.raw_line, line);
}

#[test]
fn container_runtime_message_keeps_its_spaces() {
    let line = "2024-01-01T00:00:00.5Z stdout F a  b c ";
    let log = NormalizedLog::cri_parser(line, parser_now()).unwrap();
    assert_eq!(log.message, "a  b c ");
    assert_eq!(log.timestamp, Timestamp { seconds: 1704067200, nanos: 500000000 });
}

#[test]
fn unreadable_timestamp_falls_back_to_now() {
    let line = "2024-13-45T00:00:00.0Z stdout F month thirteen";
    assert_eq!(NormalizedLog::detect_format(line), LogFormat::CRI);
    let log = NormalizedLog::cri_parser(line, parser_now()).unwrap();
    assert_eq!(log.timestamp, parser_now());
    assert_eq!(log.message, "month thirteen");
}

#[test]
fn detection_tells_the_formats_apart() {
    assert_eq!(
        NormalizedLog::detect_format("2024-01-01T00:00:00.000000000Z stdout F hello"),
        LogFormat::CRI
    );
    assert_eq!(
        NormalizedLog::detect_format(
            "{\"log\": \"m\\n\", \"stream\": \"stdout\", \"time\": \"2023-03-22T08:54:39.1Z\"}"
        ),
        LogFormat::DockerJSON
    );
    assert_eq!(
        NormalizedLog::detect_format("{\"time\": \"2025-09-12T16:34:00Z\", \"msg\": \"x\"}"),
        LogFormat::ArbitraryJSON
    );
    assert_eq!(
        NormalizedLog::detect_format("<34>1 2003-10-11T22:14:15.003Z host app - - - msg"),
        LogFormat::Syslog(SyslogVariant::RFC5424)
    );
    assert_eq!(
        NormalizedLog::detect_format("<34>Oct 11 22:14:15 mymachine su: failed"),
        LogFormat::Syslog(SyslogVariant::RFC3164)
    );
    assert_eq!(NormalizedLog::detect_format("just some text"), LogFormat::Unknown);
}

#[test]
fn detection_needs_the_stream_and_the_flag() {
    assert_eq!(
        NormalizedLog::detect_format("2024-01-01T00:00:00.000000000Z stdout X hello"),
        LogFormat::Unknown
    );
    assert_eq!(
        NormalizedLog::detect_format("2024-01-01T00:00:00.000000000Z stdlog F hello"),
        LogFormat::Unknown
    );
    assert_eq!(
        NormalizedLog::detect_format("2024-01-01T00:00:00Z stdout F hello"),
        LogFormat::Unknown
    );
}

#[test]
fn json_without_time_has_no_known_format() {
    assert_eq!(NormalizedLog::detect_format("{\"msg\": \"no time\"}"), LogFormat::Unknown);
    assert_eq!(NormalizedLog::detect_format("[1, 2, 3]"), LogFormat::Unknown);
    assert_eq!(
        NormalizedLog::select_parser("{\"msg\": \"no time\"}", parser_now()),
        Err(ParseError::UnknownFormat)
    );
}

#[test]
fn classify_takes_the_first_match() {
    let all = Some(JsonKeys { log: true, stream: true, time: true });
    let only_time = Some(JsonKeys { log: true, stream: false, time: true });
    let no_time = Some(JsonKeys { log: true, stream: true, time: false });
    assert_eq!(classify(true, all, true, true), LogFormat::CRI);
    assert_eq!(classify(false, all, true, true), LogFormat::DockerJSON);
    assert_eq!(classify(false, only_time, true, true), LogFormat::ArbitraryJSON);
    assert_eq!(classify(false, no_time, true, true), LogFormat::Syslog(SyslogVariant::RFC5424));
    assert_eq!(classify(false, None, false, true), LogFormat::Syslog(SyslogVariant::RFC3164));
    assert_eq!(classify(false, None, false, false), LogFormat::Unknown);
}

#[test]
fn container_json_line_is_normalized() {
    let line = "{\"log\": \"this is a log message\\n\", \"stream\": \"stdout\", \"time\": \"2023-03-22T08:54:39.123456789Z\"}";
    let log = NormalizedLog::select_parser(line, parser_now()).unwrap();
    assert_eq!(log.timestamp, Timestamp { seconds: 1679475279, nanos: 123456789 });
    assert_eq!(log.level, None);
    assert_eq!(log.message, "this is a log message");
    assert_eq!(log.metadata, Some(Metadata { stream: "stdout".to_string(), flag: None }));
    assert_eq!(log.raw_line, line);
}

#[test]
fn container_json_with_a_number_as_log_is_refused() {
    let line = "{\"log\": 5, \"stream\": \"stdout\", \"time\": \"2023-03-22T08:54:39Z\"}";
    assert_eq!(NormalizedLog::detect_format(line), LogFormat::DockerJSON);
    assert_eq!(NormalizedLog::docker_json_parser(line, parser_now()), Err(ParseError::BadField));
}

#[test]
fn application_json_line_is_normalized() {
    let line = "{\"time\": \"2025-09-12T16:34:00Z\", \"level\": \"INFO\", \"msg\": \"User logged in\"}";
    let log = NormalizedLog::select_parser(line, parser_now()).unwrap();
    assert_eq!(log.timestamp, Timestamp { seconds: 1757694840, nanos: 0 });
    assert_eq!(log.level, Some("INFO".to_string()));
    assert_eq!(log.message, "User logged in");
    assert_eq!(log.metadata, None);
    assert_eq!(log.raw_line, line);
}

#[test]
fn application_json_prefers_msg_over_message() {
    let both = "{\"time\": \"2025-09-12T16:34:00Z\", \"msg\": \"short\", \"message\": \"long\"}";
    let only = "{\"time\": \"2025-09-12T16:34:00Z\", \"message\": \"long\"}";
    let null_msg = "{\"time\": \"2025-09-12T16:34:00Z\", \"msg\": null, \"message\": \"long\"}";
    let neither = "{\"time\": \"2025-09-12T16:34:00Z\"}";
    assert_eq!(NormalizedLog::arbitrary_json_parser(both, parser_now()).unwrap().message, "short");
    assert_eq!(NormalizedLog::arbitrary_json_parser(only, parser_now()).unwrap().message, "long");
    assert_eq!(
        NormalizedLog::arbitrary_json_parser(null_msg, parser_now()).unwrap().message,
        "long"
    );
    let bare = NormalizedLog::arbitrary_json_parser(neither, parser_now()).unwrap();
    assert_eq!(bare.message, "");
    assert_eq!(bare.level, None);
}

#[test]
fn application_json_with_a_number_as_level_is_refused() {
    let line = "{\"time\": \"2025-09-12T16:34:00Z\", \"level\": 3, \"msg\": \"x\"}";
    assert_eq!(
        NormalizedLog::arbitrary_json_parser(line, parser_now()),
        Err(ParseError::BadField)
    );
    let time = "{\"time\": 17, \"msg\": \"x\"}";
    assert_eq!(
        NormalizedLog::arbitrary_json_parser(time, parser_now()),
        Err(ParseError::BadField)
    );
}

#[test]
fn syslog_5424_reads_its_timestamp_and_its_message() {
    let line = "<34>1 2003-10-11T22:14:15.003Z mymachine.example.com su 77 ID47 - 'su root' failed for lonvick";
    let log = NormalizedLog::syslog_parser(line, parser_now()).unwrap();
    assert_eq!(log.timestamp, Timestamp { seconds: 1065910455, nanos: 3_000_000 });
    assert_eq!(log.message, "'su root' failed for lonvick");
    assert_eq!(log.level, None);
    assert_eq!(log.metadata, None);
    assert_eq!(log.raw_line, line);
    let via_select = NormalizedLog::select_parser(line, parser_now()).unwrap();
    assert_eq!(via_select, log);
}

#[test]
fn syslog_5424_with_few_parts_is_refused() {
    let line = "<34>1 2003-10-11T22:14:15.003Z host app - -";
    assert_eq!(NormalizedLog::syslog_parser(line, parser_now()), Err(ParseError::TooFewParts));
}

#[test]
fn syslog_3164_takes_the_fifth_part() {
    let line = "<34>Oct 11 22:14:15 mymachine su: 'su root' failed";
    let log = NormalizedLog::select_parser(line, parser_now()).unwrap();
    assert_eq!(log.message, "su: 'su root' failed");
    assert_eq!(log.timestamp, parser_now());
    assert_eq!(log.raw_line, line);
}

#[test]
fn syslog_3164_with_few_parts_is_refused() {
    let line = "<34>Oct 11 22:14:15 mymachine";
    assert_eq!(NormalizedLog::syslog_parser(line, parser_now()), Err(ParseError::TooFewParts));
}

#[test]
fn each_parser_refuses_the_other_formats() {
    let cri = "2024-01-01T00:00:00.000000000Z stdout F hello";
    let docker = "{\"log\": \"m\", \"stream\": \"stdout\", \"time\": \"2023-03-22T08:54:39Z\"}";
    let json = "{\"time\": \"2025-09-12T16:34:00Z\"}";
    assert_eq!(
        NormalizedLog::cri_parser(docker, parser_now()),
        Err(ParseError::NotCri(LogFormat::DockerJSON))
    );
    assert_eq!(
        NormalizedLog::docker_json_parser(json, parser_now()),
        Err(ParseError::NotDockerJson(LogFormat::ArbitraryJSON))
    );
    assert_eq!(
        NormalizedLog::arbitrary_json_parser(cri, parser_now()),
        Err(ParseError::NotArbitraryJson(LogFormat::CRI))
    );
    assert_eq!(
        NormalizedLog::syslog_parser("plain", parser_now()),
        Err(ParseError::NotSyslog(LogFormat::Unknown))
    );
    assert_eq!(
        NormalizedLog::select_parser("plain", parser_now()),
        Err(ParseError::UnknownFormat)
    );
}

#[test]
fn timestamp_or_picks_what_was_read() {
    let read = Timestamp { seconds: 1, nanos: 2 };
    assert_eq!(timestamp_or(Some(read), parser_now()), read);
    assert_eq!(timestamp_or(None, parser_now()), parser_now());
}

#[test]
fn timestamp_new_checks_the_nanoseconds() {
    assert_eq!(Timestamp::new(5, 999_999_999), Some(Timestamp { seconds: 5, nanos: 999_999_999 }));
    assert_eq!(
        Timestamp::new(5, 1_999_999_999),
        Some(Timestamp { seconds: 5, nanos: 1_999_999_999 })
    );
    assert_eq!(Timestamp::new(5, 2_000_000_000), None);
}

#[test]
fn splitn_cuts_at_the_first_spaces() {
    assert_eq!(splitn("a b c d e", 4), vec!["a", "b", "c", "d e"]);
    assert_eq!(splitn("a b", 4), vec!["a", "b"]);
    assert_eq!(splitn("a  b", 4), vec!["a", "", "b"]);
    assert_eq!(splitn("", 4), vec![""]);
    assert_eq!(splitn("a b c", 1), vec!["a b c"]);
    assert_eq!(splitn("a b c", 0), Vec::<String>::new());
    assert_eq!(splitn(" a", 2), vec!["", "a"]);
}

#[test]
fn trim_end_drops_trailing_white_space_only() {
    assert_eq!(trim_end("  text \t\n"), "  text");
    assert_eq!(trim_end("wide\u{3000}\u{a0}"), "wide");
    assert_eq!(trim_end("text"), "text");
    assert_eq!(trim_end(" \n"), "");
    assert_eq!(trim_end(""), "");
}

#[test]
fn strip_newline_drops_one_newline() {
    assert_eq!(strip_newline("line\n"), "line");
    assert_eq!(strip_newline("line\n\n"), "line\n");
    assert_eq!(strip_newline("line"), "line");
    assert_eq!(strip_newline(""), "");
}

#[test]
fn duplicate_gives_an_equal_record() {
    let log = NormalizedLog {
        timestamp: Timestamp { seconds: 9, nanos: 8 },
        level: Some("WARN".to_string()),
        message: "m".to_string(),
        metadata: Some(Metadata { stream: "s".to_string(), flag: None }),
        raw_line: "raw".to_string(),
    };
    assert_eq!(log.duplicate(), log);
}

#[test]
fn parse_errors_have_their_words() {
    assert_eq!(ParseError::UnknownFormat.message(), "Unknown log format");
    assert_eq!(
        ParseError::NotCri(LogFormat::DockerJSON).message(),
        "Unexpected log format, not Kubernetes CRI: DockerJSON"
    );
    assert_eq!(
        ParseError::NotDockerJson(LogFormat::Unknown).message(),
        "Unexpected log format, not Docker-JSON file: Unknown"
    );
    assert_eq!(
        ParseError::NotArbitraryJson(LogFormat::CRI).message(),
        "Unexpected log format, not ArbitraryJSON: CRI"
    );
    assert_eq!(
        ParseError::NotSyslog(LogFormat::Syslog(SyslogVariant::RFC3164)).message(),
        "Unexpected log format, not Syslog RFC5424 or RFC3164: Syslog(RFC3164)"
    );
    assert_eq!(ParseError::TooFewParts.message(), "Insufficient parts in raw log");
    assert_eq!(ParseError::BadField.message(), "JSON member is missing or is not text");
    assert_eq!(LogFormat::Syslog(SyslogVariant::RFC5424).name(), "Syslog(RFC5424)");
    assert_eq!(LogFormat::ArbitraryJSON.name(), "ArbitraryJSON");
}

fn parser_strings(parts: &[&str]) -> Vec<String> {
    parts.iter().map(|p| p.to_string()).collect()
}

#[test]
fn cri_parts_names_the_four_parts() {
    assert_eq!(
        cri_parts(parser_strings(&["t", "stdout", "F", "m n"])),
        Ok(CriParts {
            timestamp: "t".to_string(),
            stream: "stdout".to_string(),
            flag: "F".to_string(),
            message: "m n".to_string(),
        })
    );
    assert_eq!(cri_parts(parser_strings(&["t", "stdout", "F"])), Err(ParseError::TooFewParts));
    assert_eq!(cri_parts(Vec::new()), Err(ParseError::TooFewParts));
}

#[test]
fn pick_parts_takes_timestamp_and_message() {
    let words = parser_strings(&["0", "1", "2", "3", "4", "5", "6", "7", "8", "9"]);
    assert_eq!(pick_parts(words.clone(), 2, 8), Ok(("2".to_string(), "8".to_string())));
    assert_eq!(pick_parts(words, 1, 4), Ok(("1".to_string(), "4".to_string())));
    assert_eq!(
        pick_parts(parser_strings(&["0", "1", "2", "3"]), 1, 4),
        Err(ParseError::TooFewParts)
    );
    let four = parser_strings(&["0", "1", "2", "3"]);
    assert_eq!(pick_parts(four.clone(), 3, 1), Ok(("3".to_string(), "1".to_string())));
    assert_eq!(pick_parts(four.clone(), 2, 2), Ok(("2".to_string(), "2".to_string())));
    assert_eq!(pick_parts(four, 4, 1), Err(ParseError::TooFewParts));
}

#[test]
fn records_are_built_from_their_parts() {
    let at = Timestamp { seconds: 3, nanos: 4 };
    let parts = CriParts {
        timestamp: "t".to_string(),
        stream: "stderr".to_string(),
        flag: "P".to_string(),
        message: "m".to_string(),
    };
    assert_eq!(
        cri_record("raw".to_string(), parts, at),
        NormalizedLog {
            timestamp: at,
            level: None,
            message: "m".to_string(),
            metadata: Some(Metadata { stream: "stderr".to_string(), flag: Some("P".to_string()) }),
            raw_line: "raw".to_string(),
        }
    );
    assert_eq!(
        syslog_record("raw".to_string(), "m".to_string(), at),
        NormalizedLog {
            timestamp: at,
            level: None,
            message: "m".to_string(),
            metadata: None,
            raw_line: "raw".to_string(),
        }
    );
}

#[test]
fn container_json_record_needs_its_three_members() {
    let at = Timestamp { seconds: 3, nanos: 4 };
    let log = Some("text \n".to_string());
    let stream = Some("stdout".to_string());
    let built = docker_json_record("raw".to_string(), log.clone(), stream.clone(), Some(at));
    assert_eq!(
        built,
        Ok(NormalizedLog {
            timestamp: at,
            level: None,
            message: "text".to_string(),
            metadata: Some(Metadata { stream: "stdout".to_string(), flag: None }),
            raw_line: "raw".to_string(),
        })
    );
    assert_eq!(
        docker_json_record("raw".to_string(), None, stream.clone(), Some(at)),
        Err(ParseError::BadField)
    );
    assert_eq!(
        docker_json_record("raw".to_string(), log.clone(), None, Some(at)),
        Err(ParseError::BadField)
    );
    assert_eq!(docker_json_record("raw".to_string(), log, stream, None), Err(ParseError::BadField));
}

#[test]
fn application_json_record_takes_what_was_read() {
    let at = Timestamp { seconds: 3, nanos: 4 };
    let built = arbitrary_json_record(
        "raw".to_string(),
        Some(at),
        Ok(Some("DEBUG".to_string())),
        Ok(None),
        Ok(Some("fallback".to_string())),
    );
    assert_eq!(
        built,
        Ok(NormalizedLog {
            timestamp: at,
            level: Some("DEBUG".to_string()),
            message: "fallback".to_string(),
            metadata: None,
            raw_line: "raw".to_string(),
        })
    );
    assert_eq!(
        arbitrary_json_record("raw".to_string(), None, Ok(None), Ok(None), Ok(None)),
        Err(ParseError::BadField)
    );
    assert_eq!(
        arbitrary_json_record(
            "raw".to_string(),
            Some(at),
            Err(ParseError::BadField),
            Ok(None),
            Ok(None)
        ),
        Err(ParseError::BadField)
    );
    assert_eq!(
        arbitrary_json_record(
            "raw".to_string(),
            Some(at),
            Ok(None),
            Ok(None),
            Err(ParseError::BadField)
        ),
        Err(ParseError::BadField)
    );
}

#[test]
fn json_members_are_read_as_text() {
    assert_eq!(field_text(Some(JsonField::Text("t".to_string()))), Some("t".to_string()));
    assert_eq!(field_text(Some(JsonField::Null)), None);
    assert_eq!(field_text(Some(JsonField::Other)), None);
    assert_eq!(field_text(None), None);
    assert_eq!(
        optional_field_text(Some(JsonField::Text("t".to_string()))),
        Ok(Some("t".to_string()))
    );
    assert_eq!(optional_field_text(Some(JsonField::Null)), Ok(None));
    assert_eq!(optional_field_text(None), Ok(None));
    assert_eq!(optional_field_text(Some(JsonField::Other)), Err(ParseError::BadField));
}

#[test]
fn pick_message_prefers_the_first() {
    assert_eq!(pick_message(Some("a".to_string()), Some("b".to_string())), "a");
    assert_eq!(pick_message(None, Some("b".to_string())), "b");
    assert_eq!(pick_message(Some("a".to_string()), None), "a");
    assert_eq!(pick_message(None, None), "");
}

#[test]
fn text_helpers_find_suffixes_and_separators() {
    let chars = chars_of("/var/log/app.log");
    assert_eq!(chars.len(), 16);
    assert_eq!(chars[0], '/');
    assert!(has_suffix(&chars, ".log"));
    assert!(has_suffix(&chars, ""));
    assert!(!has_suffix(&chars, ".txt"));
    assert!(!has_suffix(&chars_of("log"), ".log"));
    assert_eq!(position_after_last(&chars, '/'), 9);
    assert_eq!(position_after_last(&chars, '#'), 0);
    assert_eq!(position_after_last(&chars, 'g'), 16);
    assert_eq!(chars_of("h\u{e9}llo").len(), 5);
}
