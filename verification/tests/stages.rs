use csv::StringRecord;
use sanitize_csv::decode::decode;
use sanitize_csv::label::{canonical_label, is_latin1_family};
use sanitize_csv::process;
use sanitize_csv::record::shape;
use sanitize_csv::settings::{Trim, WriterSettings};
use sanitize_csv::EncodingDirective;
use sanitize_csv::FieldCountPolicy;
use sanitize_csv::ParseConfig;
use sanitize_csv::SanitizeError;
use sanitize_csv::Tally;

fn fields_of(record: &StringRecord) -> Vec<String> {
    record.iter().map(|field| field.to_string()).collect()
}

#[test]
fn policy_from_a_count_is_exact() {
    assert_eq!(FieldCountPolicy::from_field_count(Some(3)), FieldCountPolicy::Exact(3));
    assert_eq!(FieldCountPolicy::from_field_count(Some(0)), FieldCountPolicy::Exact(0));
    assert!(!FieldCountPolicy::Exact(3).is_flexible());
}

#[test]
fn policy_without_a_count_is_unconstrained() {
    assert_eq!(FieldCountPolicy::from_field_count(None), FieldCountPolicy::Unconstrained);
    assert!(FieldCountPolicy::Unconstrained.is_flexible());
}

#[test]
fn shape_cuts_a_long_record_to_the_count() {
    let record = StringRecord::from(vec!["a", "b", "c", "d", "e"]);
    let kept = shape(record, &FieldCountPolicy::Exact(3)).unwrap();
    assert_eq!(fields_of(&kept), vec!["a", "b", "c"]);
}

#[test]
fn shape_keeps_a_record_of_exactly_the_count() {
    let record = StringRecord::from(vec!["a", "b"]);
    let kept = shape(record, &FieldCountPolicy::Exact(2)).unwrap();
    assert_eq!(fields_of(&kept), vec!["a", "b"]);
}

#[test]
fn shape_drops_a_short_record() {
    let record = StringRecord::from(vec!["abc", "def"]);
    assert!(shape(record, &FieldCountPolicy::Exact(4)).is_none());
    assert!(shape(StringRecord::new(), &FieldCountPolicy::Exact(1)).is_none());
}

#[test]
fn shape_without_a_count_keeps_every_field() {
    let record = StringRecord::from(vec!["a", "", "c", "d"]);
    let kept = shape(record, &FieldCountPolicy::Unconstrained).unwrap();
    assert_eq!(fields_of(&kept), vec!["a", "", "c", "d"]);

    let empty = shape(StringRecord::new(), &FieldCountPolicy::Unconstrained).unwrap();
    assert_eq!(empty.len(), 0);
}

#[test]
fn shape_trims_white_space_at_both_ends_only() {
    let record = StringRecord::from(vec!["  ", "\u{3000}\tfoo ", "bar\u{a0}\u{2003}", "b a z", "\u{85}x\u{2028}"]);
    let kept = shape(record, &FieldCountPolicy::Unconstrained).unwrap();
    assert_eq!(fields_of(&kept), vec!["", "foo", "bar", "b a z", "x"]);
}

#[test]
fn shape_leaves_what_is_no_white_space() {
    let record = StringRecord::from(vec!["\u{200b}a\u{200b}", "\u{feff}b", "\0c\0", "\u{180e}d"]);
    let kept = shape(record, &FieldCountPolicy::Exact(4)).unwrap();
    assert_eq!(fields_of(&kept), vec!["\u{200b}a\u{200b}", "\u{feff}b", "\0c\0", "\u{180e}d"]);
}

#[test]
fn shape_trims_the_fields_it_keeps_after_cutting() {
    let record = StringRecord::from(vec![" a ", " b ", " c "]);
    let kept = shape(record, &FieldCountPolicy::Exact(2)).unwrap();
    assert_eq!(fields_of(&kept), vec!["a", "b"]);
}

#[test]
fn shape_of_what_shape_kept_is_the_same() {
    let record = StringRecord::from(vec![" a ", "b\t", "c", "d"]);
    let once = shape(record, &FieldCountPolicy::Exact(3)).unwrap();
    let twice = shape(once.clone(), &FieldCountPolicy::Exact(3)).unwrap();
    assert_eq!(fields_of(&once), fields_of(&twice));
}

#[test]
fn reader_settings_for_doubled_quotes() {
    let config = ParseConfig { input_delimiter: b';', output_delimiter: b',', quote: b'"', escape: b'"' };
    let settings = config.reader_settings();
    assert!(!settings.has_headers);
    assert!(settings.flexible);
    assert_eq!(settings.trim, Trim::All);
    assert_eq!(settings.delimiter, b';');
    assert_eq!(settings.quote, b'"');
    assert!(settings.quoting);
    assert!(settings.double_quote);
    assert_eq!(settings.escape, None);
}

#[test]
fn reader_settings_for_a_prefix_escape() {
    let config = ParseConfig { input_delimiter: b'\t', output_delimiter: b',', quote: b'\'', escape: b'"' };
    let settings = config.reader_settings();
    assert_eq!(settings.delimiter, b'\t');
    assert_eq!(settings.quote, b'\'');
    assert!(settings.quoting);
    assert!(!settings.double_quote);
    assert_eq!(settings.escape, Some(b'"'));
}

#[test]
fn reader_settings_for_a_null_quote() {
    let config = ParseConfig { input_delimiter: b';', output_delimiter: b',', quote: b'\0', escape: b'\\' };
    let settings = config.reader_settings();
    assert!(!settings.quoting);
    assert!(!settings.double_quote);
    assert_eq!(settings.escape, Some(b'\\'));
}

#[test]
fn writer_settings_follow_the_policy() {
    let fixed = WriterSettings::for_policy(&FieldCountPolicy::Exact(2), b'|');
    assert!(!fixed.flexible);
    assert_eq!(fixed.delimiter, b'|');
    let ragged = WriterSettings::for_policy(&FieldCountPolicy::Unconstrained, b'|');
    assert!(ragged.flexible);
    assert_eq!(ragged.delimiter, b'|');
}

#[test]
fn decode_settings_of_the_two_directives() {
    let sniff = EncodingDirective::from_label(None).decode_settings();
    assert!(sniff.bom_sniffing);
    assert!(!sniff.strip_bom);
    assert_eq!(sniff.encoding_label, None);

    let forced = EncodingDirective::from_label(Some("utf8")).decode_settings();
    assert!(!forced.bom_sniffing);
    assert!(forced.strip_bom);
    assert_eq!(forced.encoding_label, Some("utf8"));

    let family = EncodingDirective::from_label(Some("ISO_8859_1")).decode_settings();
    assert_eq!(family.encoding_label, Some("windows-1252"));
}

#[test]
fn labels_of_the_latin1_family() {
    for label in ["latin1", "LATIN1", "Latin1", "iso-8859-1", "ISO-8859-1", "ISO_8859_1", "iso_8859-1",
        "windows-1252", "WINDOWS-1252", "WINDOWS_1252", "Windows_1252"] {
        assert!(is_latin1_family(label));
        assert_eq!(canonical_label(label), "windows-1252");
    }
}

#[test]
fn labels_outside_the_latin1_family() {
    for label in ["", "utf8", "UTF-8", "latin2", "latin-1", "latin1 ", "iso-8859-15", "windows-1251",
        "windows1252", "l\u{e1}tin1", "latin1\0"] {
        assert!(!is_latin1_family(label));
        assert_eq!(canonical_label(label), label);
    }
}

#[test]
fn decode_latin1_labels_give_identical_text() {
    let input: Vec<u8> = (0u8..=255).collect();
    let reference = decode(&input, &EncodingDirective::Forced("latin1")).unwrap();
    assert_ne!(reference, input);
    for label in ["ISO-8859-1", "ISO_8859_1", "WINDOWS-1252", "WINDOWS_1252", "windows-1252"] {
        assert_eq!(decode(&input, &EncodingDirective::Forced(label)).unwrap(), reference);
    }
}

#[test]
fn decode_utf8_bytes_as_latin1_gives_mojibake() {
    let text = decode("d\u{e9}f".as_bytes(), &EncodingDirective::Forced("latin1")).unwrap();
    assert_eq!(text, "d\u{c3}\u{a9}f".as_bytes().to_vec());
    assert_eq!(text.len(), 6);
}

#[test]
fn decode_latin1_bytes_as_latin1_gives_utf8() {
    let text = decode(b"d\xE9f\x80", &EncodingDirective::Forced("latin1")).unwrap();
    assert_eq!(text, "d\u{e9}f\u{20ac}".as_bytes().to_vec());
}

#[test]
fn decode_without_a_mark_passes_bytes_through() {
    let text = decode(b"d\xE9f", &EncodingDirective::Autodetect).unwrap();
    assert_eq!(text, b"d\xE9f".to_vec());
}

#[test]
fn decode_by_a_byte_order_mark() {
    let utf8 = decode(b"\xEF\xBB\xBFab", &EncodingDirective::Autodetect).unwrap();
    assert_eq!(utf8, b"ab".to_vec());
    let little = decode(b"\xFF\xFEa\x00\xE9\x00", &EncodingDirective::Autodetect).unwrap();
    assert_eq!(little, "a\u{e9}".as_bytes().to_vec());
    let big = decode(b"\xFE\xFF\x00a\x00\xE9", &EncodingDirective::Autodetect).unwrap();
    assert_eq!(big, "a\u{e9}".as_bytes().to_vec());
}

#[test]
fn decode_forced_strips_a_mark_without_following_it() {
    let text = decode(b"\xFF\xFEa\x00", &EncodingDirective::Forced("latin1")).unwrap();
    assert_eq!(text, b"a\0".to_vec());
    let text = decode(b"\xEF\xBB\xBFd\xE9f", &EncodingDirective::Forced("WINDOWS_1252")).unwrap();
    assert_eq!(text, "d\u{e9}f".as_bytes().to_vec());
}

#[test]
fn decode_forced_utf8_replaces_what_is_malformed() {
    let text = decode(b"d\xE9f", &EncodingDirective::Forced("utf8")).unwrap();
    assert_eq!(text, "d\u{fffd}f".as_bytes().to_vec());
}

#[test]
fn decode_under_an_unknown_label_passes_bytes_through() {
    let text = decode(b"\xEF\xBB\xBFd\xE9f", &EncodingDirective::Forced("no-such-encoding")).unwrap();
    assert_eq!(text, b"d\xE9f".to_vec());
}

#[test]
fn decode_of_nothing_is_nothing() {
    assert!(decode(b"", &EncodingDirective::Autodetect).unwrap().is_empty());
    assert!(decode(b"", &EncodingDirective::Forced("latin1")).unwrap().is_empty());
}

#[test]
fn process_counts_written_and_dropped() {
    let config = ParseConfig { input_delimiter: b';', output_delimiter: b',', quote: b'"', escape: b'"' };
    let mut output = Vec::new();
    let tally = process(
        b"a;b;c\nd\ne;f\ng;h;i;j\n",
        &config.reader_settings(),
        &FieldCountPolicy::Exact(2),
        b',',
        &mut output,
    )
    .unwrap();
    assert_eq!(tally, Tally { written: 3, dropped: 1 });
    assert_eq!(String::from_utf8(output).unwrap(), "a,b\ne,f\ng,h\n");
}

#[test]
fn process_without_a_count_drops_nothing() {
    let config = ParseConfig { input_delimiter: b';', output_delimiter: b'\t', quote: b'"', escape: b'"' };
    let mut output = Vec::new();
    let tally = process(
        b"a;b;c\nd\n\ne;f\n",
        &config.reader_settings(),
        &FieldCountPolicy::Unconstrained,
        b'\t',
        &mut output,
    )
    .unwrap();
    assert_eq!(tally, Tally { written: 3, dropped: 0 });
    assert_eq!(String::from_utf8(output).unwrap(), "a\tb\tc\nd\ne\tf\n");
}

#[test]
fn process_reports_invalid_text_with_its_place() {
    let config = ParseConfig { input_delimiter: b';', output_delimiter: b',', quote: b'"', escape: b'"' };
    let mut output = b"kept".to_vec();
    let result = process(
        b"a;b\nc;\xFFd\ne;f\n",
        &config.reader_settings(),
        &FieldCountPolicy::Unconstrained,
        b',',
        &mut output,
    );
    match result {
        Err(SanitizeError::Parse(report)) => {
            assert!(report.invalid_utf8);
            assert!(report.message.contains("CSV parse error"));
            assert!(report.message.contains("line 2"));
            assert!(report.message.contains("invalid UTF-8"));
        }
        _ => panic!("the reader's failure must come back"),
    }
    assert_eq!(String::from_utf8(output).unwrap(), "kepta,b\n");
}

#[test]
fn process_under_strict_reader_settings_reports_unequal_lengths() {
    let config = ParseConfig { input_delimiter: b';', output_delimiter: b',', quote: b'"', escape: b'"' };
    let mut settings = config.reader_settings();
    settings.flexible = false;
    let mut output = Vec::new();
    let result = process(b"a;b\nc\n", &settings, &FieldCountPolicy::Unconstrained, b',', &mut output);
    match result {
        Err(SanitizeError::Parse(report)) => {
            assert!(!report.invalid_utf8);
            assert!(report.message.contains("found record with 1 fields"));
        }
        _ => panic!("the reader's failure must come back"),
    }
    assert_eq!(String::from_utf8(output).unwrap(), "a,b\n");
}

#[test]
fn process_with_a_header_row_keeps_it_back() {
    let config = ParseConfig { input_delimiter: b';', output_delimiter: b',', quote: b'"', escape: b'"' };
    let mut settings = config.reader_settings();
    settings.has_headers = true;
    let mut output = Vec::new();
    let tally = process(b"h;i\na;b\n", &settings, &FieldCountPolicy::Exact(1), b',', &mut output).unwrap();
    assert_eq!(tally, Tally { written: 1, dropped: 0 });
    assert_eq!(String::from_utf8(output).unwrap(), "a\n");
}

#[test]
fn error_messages() {
    assert_eq!(SanitizeError::Decode.message(), "input could not be decoded");
    assert_eq!(SanitizeError::Write { message: "disk full".to_string() }.message(), "disk full");
    let mut output = Vec::new();
    let failed = sanitize_csv::run(b"\xFF\n", &mut output, None, b',', b',', b'"', b'"', None).unwrap_err();
    assert!(failed.message().starts_with("CSV parse error: record 0 (line 1, field: 0, byte: 0)"));
}
