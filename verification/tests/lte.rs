use boat_core::component::lte::{
    find, is_space, is_word, poll_command, read_line, start_command, starts_with, trimmed,
    LteSentence, Span,
};
use boat_core::messaging::app_message::{frame, MetricMessage};
use boat_core::messaging::serial_ext::ends_line;
use boat_core::transport::metric_queue::{as_unsigned, MetricStats, StatsReport};
use boat_core::transport::web_socket_server::path_selects;

fn text(line: &str, sentence: LteSentence) -> Option<&str> {
    match sentence {
        LteSentence::NetworkMode(span)
        | LteSentence::SignalQuality(span)
        | LteSentence::ModuleTemperature(span)
        | LteSentence::ModuleVoltage(span) => Some(&line[span.from..span.to]),
        _ => None,
    }
}

#[test]
fn network_mode_is_the_first_field() {
    let line = "+CPSI: GSM,Online,460-00,0x182d,12401,27 EGSM 900,-64,2110,42-42";
    let sentence = read_line(line.as_bytes());
    assert_eq!(sentence, LteSentence::NetworkMode(Span { from: 7, to: 10 }));
    assert_eq!(text(line, sentence), Some("GSM"));
    let line = "+CPSI: NO SERVICE,Online";
    assert_eq!(text(line, read_line(line.as_bytes())), Some("NO SERVICE"));
}

#[test]
fn signal_quality_is_the_first_field() {
    let line = "+CSQ: 22,0\r\n";
    let sentence = read_line(line.as_bytes());
    assert_eq!(sentence, LteSentence::SignalQuality(Span { from: 6, to: 8 }));
    assert_eq!(text(line, sentence).unwrap().parse::<f32>().unwrap(), 22.0);
    let line = "  +CSQ  :7";
    assert_eq!(text(line, read_line(line.as_bytes())), Some("7"));
}

#[test]
fn temperature_and_voltage_are_the_whole_value() {
    let line = "+CPMUTEMP: 35\r\n";
    let sentence = read_line(line.as_bytes());
    assert_eq!(sentence, LteSentence::ModuleTemperature(Span { from: 11, to: 13 }));
    assert_eq!(text(line, sentence), Some("35"));
    let line = "+CBC: 3.812V\r";
    let sentence = read_line(line.as_bytes());
    assert_eq!(sentence, LteSentence::ModuleVoltage(Span { from: 6, to: 12 }));
    assert_eq!(text(line, sentence).unwrap().replace("V", "").parse::<f32>().unwrap(), 3.812);
    // a second colon ends the value
    let line = "+CBC: 3.8V : more";
    assert_eq!(text(line, read_line(line.as_bytes())), Some("3.8V"));
    // a value may hold commas
    let line = "+CPMUTEMP: 1,2";
    assert_eq!(text(line, read_line(line.as_bytes())), Some("1,2"));
}

#[test]
fn empty_values_are_empty_spans() {
    let line = "+CSQ:";
    assert_eq!(read_line(line.as_bytes()), LteSentence::SignalQuality(Span { from: 5, to: 5 }));
    let line = "+CSQ:   ";
    assert_eq!(text(line, read_line(line.as_bytes())), Some(""));
    let line = "+CPSI: ,x";
    assert_eq!(text(line, read_line(line.as_bytes())), Some(""));
}

#[test]
fn lines_without_news_are_ignored() {
    for line in ["", "   ", "\r\n", "OK", "OK\r\n", " OK ", "AT+CSQ\r", "AT+CPSI?", ": 5", "  :"] {
        assert_eq!(read_line(line.as_bytes()), LteSentence::Ignored, "{:?}", line);
    }
}

#[test]
fn a_key_without_a_colon_has_no_value() {
    for line in ["+CPSI", "+CSQ\r\n", " +CPMUTEMP ", "+CBC"] {
        assert_eq!(read_line(line.as_bytes()), LteSentence::MissingValue, "{:?}", line);
    }
}

#[test]
fn other_lines_are_unknown() {
    for line in [
        "+CME ERROR: 10",
        "ERROR",
        "+CSQ2: 1",
        "+CS: 1",
        "+csq: 22,0",
        "OKAY",
        "AT",
        "+CGPSINFO: 52.4,N",
        "O K",
    ] {
        assert_eq!(read_line(line.as_bytes()), LteSentence::Unknown, "{:?}", line);
    }
}

#[test]
fn the_parts_of_the_line_reader() {
    let line = b"  ab : c,d  ";
    assert_eq!(find(line, 0, line.len(), b':'), 5);
    assert_eq!(find(line, 6, line.len(), b':'), line.len());
    assert_eq!(find(line, 0, 3, b':'), 3);
    assert_eq!(find(line, 4, 4, b' '), 4);
    assert_eq!(trimmed(line, 0, 5), Span { from: 2, to: 4 });
    assert_eq!(trimmed(line, 6, line.len()), Span { from: 7, to: 10 });
    assert_eq!(trimmed(line, 0, 2), Span { from: 2, to: 2 });
    assert_eq!(trimmed(line, 3, 3), Span { from: 3, to: 3 });
    assert!(starts_with(line, 2, 4, b"a"));
    assert!(starts_with(line, 2, 4, b"ab"));
    assert!(starts_with(line, 2, 4, b""));
    assert!(!starts_with(line, 2, 4, b"ab "));
    assert!(!starts_with(line, 2, 4, b"b"));
    assert!(is_word(line, 2, 4, b"ab"));
    assert!(!is_word(line, 2, 4, b"a"));
    assert!(!is_word(line, 2, 5, b"ab"));
    for byte in [b' ', b'\t', b'\n', 0x0B, 0x0C, b'\r'] {
        assert!(is_space(byte));
    }
    for byte in [0u8, 8, 14, 31, 33, b'a', 0xA0, 0xFF] {
        assert!(!is_space(byte));
    }
}

#[test]
fn the_modem_is_asked_in_rounds_of_four() {
    assert_eq!(start_command(), "AT+CGPS=1\r");
    let round = ["AT+CPSI?\r", "AT+CSQ\r", "AT+CPMUTEMP\r", "AT+CBC\r"];
    for step in 0usize..12 {
        assert_eq!(poll_command(step), round[step % 4]);
    }
    assert_eq!(poll_command(usize::MAX), "AT+CBC\r");
}

#[test]
fn a_path_selects_one_metric_or_all() {
    assert!(path_selects(b"/", b"BAT_1_U_1"));
    assert!(path_selects(b"/", b""));
    assert!(path_selects(b"/BAT_1_U_1", b"BAT_1_U_1"));
    assert!(!path_selects(b"/BAT_1_U_1", b"BAT_1_U_2"));
    assert!(!path_selects(b"/BAT_1_U_1", b"BAT_1_U_"));
    assert!(!path_selects(b"/BAT_1_U_", b"BAT_1_U_1"));
    assert!(!path_selects(b"", b""));
    assert!(!path_selects(b"", b"X"));
    // the first byte is dropped, whatever it is
    assert!(path_selects(b"xGPS_POS", b"GPS_POS"));
    assert!(path_selects(b"x", b""));
}

#[test]
fn a_buffer_is_complete_when_it_ends_with_a_line_feed() {
    assert!(ends_line(b"$GPGGA,1\r\n"));
    assert!(ends_line(b"\n"));
    assert!(!ends_line(b""));
    assert!(!ends_line(b"\n "));
    assert!(!ends_line(b"$GPGGA,1\r"));
}

#[test]
fn a_message_is_its_number_its_time_and_its_value() {
    let ts = [1u8, 2, 3, 4, 5, 6, 7, 8, 9, 10, 11, 12, 13, 14, 15, 16];
    assert_eq!(
        frame(7, &ts, &[0xAA, 0xBB]),
        vec![7, 1, 2, 3, 4, 5, 6, 7, 8, 9, 10, 11, 12, 13, 14, 15, 16, 0xAA, 0xBB]
    );
    assert_eq!(frame(0, &[0; 16], &[]).len(), 17);

    let message = MetricMessage::at(9, vec![1, 2, 3], 0x0102_0304);
    let bytes = message.get_u8();
    assert_eq!(bytes.len(), 20);
    assert_eq!(bytes[0], 9);
    assert_eq!(&bytes[1..17], &0x0102_0304u128.to_ne_bytes());
    assert_eq!(&bytes[17..], &[1, 2, 3]);
}

#[test]
fn the_queue_reports_once_a_second() {
    let mut stats = MetricStats::new();
    // the first look at the clock is more than a second after time zero
    assert_eq!(
        stats.push(1_000_000),
        Some(StatsReport { queue_count: 1, in_per_sec: 1, out_per_sec: 0 })
    );
    assert_eq!(stats.last_ts, 1_000_000);
    assert_eq!(stats.metrics_in, 0);
    assert_eq!(stats.push(1_000_500), None);
    assert_eq!(stats.push(1_001_000), None);
    assert_eq!(stats.pop(1_001_000), None);
    assert_eq!(
        stats.pop(1_001_001),
        Some(StatsReport { queue_count: 1, in_per_sec: 2, out_per_sec: 2 })
    );
    assert_eq!(
        stats,
        MetricStats {
            len: 1,
            last_ts: 1_001_001,
            metrics_in_per_sec: 2,
            metrics_out_per_sec: 2,
            metrics_in: 0,
            metrics_out: 0,
        }
    );
    // a clock that has gone back gives no report
    assert_eq!(stats.calc_stats(5), None);
    assert_eq!(stats.last_ts, 1_001_001);
}

#[test]
fn the_queue_length_is_reported_bit_for_bit() {
    assert_eq!(as_unsigned(0), 0);
    assert_eq!(as_unsigned(5), 5);
    assert_eq!(as_unsigned(i64::MAX), i64::MAX as u64);
    assert_eq!(as_unsigned(-1), u64::MAX);
    assert_eq!(as_unsigned(i64::MIN), 1u64 << 63);
    let mut stats = MetricStats::new();
    assert_eq!(
        stats.pop(2_000),
        Some(StatsReport { queue_count: u64::MAX, in_per_sec: 0, out_per_sec: 1 })
    );
    stats.len = i64::MIN;
    stats.pop(2_001);
    assert_eq!(stats.len, i64::MIN);
    stats.len = i64::MAX;
    stats.metrics_in = usize::MAX;
    stats.push(2_002);
    assert_eq!(stats.len, i64::MAX);
    assert_eq!(stats.metrics_in, usize::MAX);
}
