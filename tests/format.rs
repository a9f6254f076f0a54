use met_csv::error::{
    InvalidDelimiterError, InvalidDelimiterSource, ParseFieldError, ParseHeaderError,
    ParseMissingError,
};
use met_csv::field::{Field, FieldConfig, FieldFilter};
use met_csv::format::{CsvFormat, Delimiter, MissingValue};

const TEST_HEADER: &str = "        Time;StationNumber;StationName                             ;Latitude;Longitude;Elevation;    r; Q_r;    t; Q_t;   ta;Q_ta;   tn;Q_tn;   tx;Q_tx;     v; Q_v;      p; Q_p;   u; Q_u;      sg;Q_sg;     sr;Q_sr;   suv;Q_suv;   fs;Q_fs; fsd;Q_fsd;   fx;Q_fx; fxd;Q_fxd; fxm;Q_fxm; fxs;Q_fxs;  et5;Q_et5; et10;Q_et10; et20;Q_et20; et50;Q_et50;et100;Q_et100;  tsn;Q_tsn; tviz;Q_tviz;EOR";

#[test]
fn test_delimiter() {
    for ch in [';', ',', ' ', '\t', '|', '#'] {
        assert_eq!(Delimiter::try_from(ch).unwrap().as_char(), ch);
    }

    for ch in ['0', 'X', '\0', '\x1f'] {
        assert_eq!(Delimiter::try_from(ch).unwrap_err().0, ch);
    }
}

#[test]
fn test_missing() {
    for s in ["-999", "null", "Null", "NULL", ""] {
        let res = MissingValue::try_from(s);
        assert!(matches!(res, Ok(_)));
    }

    for s in ["999", "nil", "Nyull", "NUL", " ", "\0"] {
        assert_eq!(MissingValue::try_from(s).unwrap_err().0, s);
    }
}

#[test]
fn test_csv_format() {
    let format = CsvFormat::from_str(TEST_HEADER).unwrap();
    assert_eq!(format, CsvFormat::default());
    assert_eq!(format.to_string(), TEST_HEADER);

    let ffilter = FieldFilter::new(vec![Field::Temp], vec![]);
    let fconfig = FieldConfig::new(false, false, false, true, ffilter.as_ref());

    for (header, alignment, delim, missing) in [
        ("        Time,StationNumber,    t,EOR", true, ',', MissingValue::Minus999),
        ("Time;StationNumber;t;EOR", false, ';', MissingValue::Empty),
        ("Time,StationNumber,t,EOR", false, ',', MissingValue::Empty),
        ("Time StationNumber t EOR", false, ' ', MissingValue::Null),
    ] {
        let expected = CsvFormat {
            alignment,
            delimiter: Delimiter::try_from(delim).unwrap(),
            missing,
            field_config: fconfig.clone(),
        };
        let format = CsvFormat::from_str(header).unwrap();
        assert_eq!(format, expected);
        assert_eq!(format.to_string(), header);
    }

    for (header, eexpected) in [
        ("StationNumber;t;EOR", ParseHeaderError::MissingTime),
        ("         Time;StationNumber;t;EOR", ParseHeaderError::InvalidTimeAlignment),
        ("________Time;StationNumber;t;EOR", ParseHeaderError::InvalidTimeAlignment),
        ("Date;Time;StationNumber;t;EOR", ParseHeaderError::InvalidTimeAlignment),
        ("Time;StationName;t;EOR", ParseHeaderError::MissingStationNumber),
        (
            "Time         ;StationNumber;t;EOR",
            ParseHeaderError::InvalidDelimiter(InvalidDelimiterSource::String(
                "         ;".to_string(),
            )),
        ),
        (
            "Time;StationName;StationNumber;t;EOR",
            ParseHeaderError::InvalidDelimiter(InvalidDelimiterSource::String(
                ";StationName;".to_string(),
            )),
        ),
        (
            "Time\x1fStationNumber\x1ft\x1fEOR",
            ParseHeaderError::InvalidDelimiter(InvalidDelimiterSource::Error(
                InvalidDelimiterError('\x1f'),
            )),
        ),
        ("Time;StationNumber;EOR;t", ParseHeaderError::InvalidEorPosition),
    ] {
        assert_eq!(CsvFormat::from_str(header).unwrap_err(), eexpected);
    }
}

#[test]
fn missing_value_texts() {
    assert_eq!(MissingValue::Minus999.as_str(), "-999");
    assert_eq!(MissingValue::Null.as_str(), "null");
    assert_eq!(MissingValue::Empty.as_str(), "");
    assert_eq!(MissingValue::try_from("NULL").unwrap(), MissingValue::Null);
    assert_eq!(MissingValue::try_from("").unwrap(), MissingValue::Empty);
    assert_eq!(MissingValue::try_from("-999").unwrap(), MissingValue::Minus999);
    assert_eq!(MissingValue::default(), MissingValue::Minus999);
}

#[test]
fn every_ascii_punctuation_and_whitespace_is_a_delimiter() {
    for b in 0u8..128 {
        let ch = b as char;
        let ok = ch.is_ascii_punctuation() || ch.is_ascii_whitespace();
        assert_eq!(Delimiter::try_from(ch).is_ok(), ok, "{ch:?}");
    }
    assert!(Delimiter::try_from('é').is_err());
    assert_eq!(Delimiter::default().as_char(), ';');
}

#[test]
fn parse_of_rendered_format_gives_it_back() {
    let ffilter = FieldFilter::new(vec![Field::Temp, Field::StationName], vec![Field::Pressure]);
    for (info, values, q, eor) in [
        (true, true, true, true),
        (false, false, false, false),
        (true, false, false, true),
        (false, true, true, false),
    ] {
        for filter in [None, ffilter.as_ref()] {
            for (alignment, delim) in [(false, ';'), (true, ';'), (false, ','), (true, '\t'), (false, ' ')] {
                let fconfig = FieldConfig::new(info, values, q, eor, filter);
                let delimiter = Delimiter::try_from(delim).unwrap();
                let missing = if alignment {
                    MissingValue::Minus999
                } else if delim == ' ' || delim == '\t' {
                    MissingValue::Null
                } else {
                    MissingValue::Empty
                };
                let format = CsvFormat { alignment, missing, delimiter, field_config: fconfig };
                let header = format.to_string();
                let parsed = CsvFormat::from_str(&header).unwrap();
                assert_eq!(parsed, format);
                assert_eq!(parsed.to_string(), header);
            }
        }
    }
}

#[test]
fn header_rendering_pads_station_name_behind() {
    let ffilter = FieldFilter::new(vec![Field::StationName, Field::Temp], vec![]);
    let format = CsvFormat {
        alignment: true,
        missing: MissingValue::Minus999,
        delimiter: Delimiter::default(),
        field_config: FieldConfig::new(false, false, false, false, ffilter.as_ref()),
    };
    let expected = format!("        Time;StationNumber;StationName{};    t", " ".repeat(29));
    assert_eq!(format.to_string(), expected);
}

#[test]
fn error_messages() {
    assert_eq!(
        ParseHeaderError::MissingTime.message(),
        "failed to parse header, missing `Time` at position #1"
    );
    assert_eq!(
        ParseHeaderError::FoundNoDelimiters.message(),
        "failed to parse header, no delimiters found"
    );
    assert_eq!(
        ParseHeaderError::FoundDuplicates("Time".to_string()).message(),
        "failed to parse header, duplicate field found \"Time\""
    );
    assert_eq!(
        ParseHeaderError::UnknownField(ParseFieldError::new("Eor")).message(),
        "failed to parse header, invalid field title 'Eor'"
    );
    assert_eq!(
        CsvFormat::from_str("Time\x1fStationNumber").unwrap_err().message(),
        "failed to parse header, invalid delimiter character '\\u{1f}'"
    );
    assert_eq!(InvalidDelimiterError::new('\n').message(), "invalid delimiter character '\\n'");
    assert_eq!(InvalidDelimiterError::new('X').message(), "invalid delimiter character 'X'");
    assert_eq!(
        ParseHeaderError::InvalidDelimiter(InvalidDelimiterSource::String(";x;".to_string()))
            .message(),
        "failed to parse header, invalid delimiter found \";x;\""
    );
    assert_eq!(
        ParseHeaderError::InvalidEorPosition.message(),
        "failed to parse header, `EOR` must be last if present"
    );
    assert_eq!(
        ParseMissingError::new("nil").message(),
        "unknown missing value pattern \"nil\""
    );
}

#[test]
fn default_format_renders_the_reference_header() {
    let format = CsvFormat::default();
    assert!(format.alignment);
    assert_eq!(format.missing, MissingValue::Minus999);
    assert_eq!(format.delimiter.as_char(), ';');
    assert_eq!(format.to_string(), TEST_HEADER);
}

#[test]
fn header_that_is_not_canonical_parses_but_renders_differently() {
    let format = CsvFormat::from_str("Time;StationNumber; t").unwrap();
    assert_eq!(format.to_string(), "Time;StationNumber;t");
    let format = CsvFormat::from_str("    Time;StationNumber;t").unwrap();
    assert!(format.alignment);
    assert_eq!(format.to_string(), "        Time;StationNumber;    t");
}

#[test]
fn null_is_recognised_in_any_letter_case() {
    for s in ["nULL", "nUlL", "NuLl", "nulL"] {
        assert_eq!(MissingValue::try_from(s).unwrap(), MissingValue::Null);
    }
    for s in ["nul", "nulll", "n ull", "nil"] {
        assert_eq!(MissingValue::try_from(s).unwrap_err().0, s);
    }
}

#[test]
fn underscore_delimiter_round_trips_without_quality_fields() {
    let format = CsvFormat {
        alignment: false,
        missing: MissingValue::Empty,
        delimiter: Delimiter::try_from('_').unwrap(),
        field_config: FieldConfig::new(true, true, false, true, None),
    };
    let header = format.to_string();
    assert!(header.starts_with("Time_StationNumber_StationName_"));
    let parsed = CsvFormat::from_str(&header).unwrap();
    assert_eq!(parsed, format);
    assert_eq!(parsed.to_string(), header);
}
