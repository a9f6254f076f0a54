use met_csv::error::{ParseRecordError, ParseRecordFilterError};
use met_csv::field::Field;
use met_csv::format::{CsvFormat, MissingValue};
use met_csv::record::{RawRecord, RecordFilter, OPTIONAL_COUNT};

fn condensed() -> CsvFormat {
    CsvFormat::from_str("Time;StationNumber;StationName;t;Q_t;EOR").unwrap()
}

#[test]
fn condensed_line_is_read_by_position() {
    let rec = RawRecord::from_csv("202401010000;13704;Budapest;12.5;;EOR", &condensed()).unwrap();
    assert_eq!(rec.time(), "202401010000");
    assert_eq!(rec.station_number(), "13704");
    assert_eq!(rec.value(Field::Time), Some("202401010000"));
    assert_eq!(rec.value(Field::StationName), Some("Budapest"));
    assert_eq!(rec.value(Field::Temp), Some("12.5"));
    assert_eq!(rec.value(Field::Q_Temp), None);
    assert_eq!(rec.value(Field::EOR), Some("EOR"));
    assert_eq!(rec.value(Field::Rain), None);
    assert_eq!(rec.slot_count(), OPTIONAL_COUNT);
}

#[test]
fn missing_value_texts_leave_fields_absent() {
    for text in ["-999", "null", "NULL", "Null", ""] {
        let line = format!("202401010000;13704;Szeged;{text};x;EOR");
        let rec = RawRecord::from_csv(&line, &condensed()).unwrap();
        assert_eq!(rec.value(Field::Temp), None);
        assert_eq!(rec.value(Field::Q_Temp), Some("x"));
    }
}

#[test]
fn malformed_lines_are_rejected() {
    let format = condensed();
    for line in [
        "202401010000;13704;Budapest;12.5;EOR",
        "202401010000;13704;Budapest;12.5;;EOR;",
        "2024-01-01;13704;Budapest;12.5;;EOR",
        "202401010000;;Budapest;12.5;;EOR",
        "",
    ] {
        assert_eq!(RawRecord::from_csv(line, &format).unwrap_err(), ParseRecordError);
    }
}

#[test]
fn aligned_line_is_trimmed_and_written_back() {
    let format = CsvFormat::from_str("        Time;StationNumber;    t").unwrap();
    assert!(format.alignment);
    let line = "202401011200;        13704;  3.5";
    let rec = RawRecord::from_csv(line, &format).unwrap();
    assert_eq!(rec.station_number(), "13704");
    assert_eq!(rec.value(Field::Temp), Some("3.5"));
    assert_eq!(rec.to_csv(&format), line);
}

#[test]
fn absent_values_are_written_with_the_missing_text() {
    let mut format = condensed();
    let rec = RawRecord::from_csv("202401010000;13704;Budapest;-999;;EOR", &format).unwrap();
    assert_eq!(rec.to_csv(&format), "202401010000;13704;Budapest;;;EOR");
    format.missing = MissingValue::Minus999;
    assert_eq!(rec.to_csv(&format), "202401010000;13704;Budapest;-999;-999;EOR");
    format.missing = MissingValue::Null;
    assert_eq!(rec.to_csv(&format), "202401010000;13704;Budapest;null;null;EOR");
}

#[test]
fn aligned_station_name_is_padded_behind() {
    let aligned = CsvFormat::from_str(
        "        Time;StationNumber;StationName                             ;    t",
    )
    .unwrap();
    let rec = RawRecord::from_csv(
        "202401010000;        13704;Budapest                                ;  1.5",
        &aligned,
    )
    .unwrap();
    assert_eq!(rec.value(Field::StationName), Some("Budapest"));
    assert_eq!(
        rec.to_csv(&aligned),
        format!("202401010000;        13704;Budapest{};  1.5", " ".repeat(32))
    );
}

#[test]
fn cloned_record_keeps_its_values() {
    let rec = RawRecord::from_csv("202401010000;13704;Budapest;12.5;;EOR", &condensed()).unwrap();
    let copy = rec.clone();
    assert_eq!(copy.time(), rec.time());
    assert_eq!(copy.value(Field::Temp), Some("12.5"));
    assert_eq!(copy.to_csv(&condensed()), rec.to_csv(&condensed()));
}

#[test]
fn station_filter_keeps_or_drops_listed_stations() {
    let format = condensed();
    let budapest = RawRecord::from_csv("202401010000;13704;Budapest;1;;EOR", &format).unwrap();
    let szeged = RawRecord::from_csv("202401010000;44527;Szeged;1;;EOR", &format).unwrap();
    let nameless = RawRecord::from_csv("202401010000;13704;;1;;EOR", &format).unwrap();

    let keep = RecordFilter::from_str("13704, Debrecen", false).unwrap().unwrap();
    assert!(keep.filter(&budapest));
    assert!(!keep.filter(&szeged));
    assert!(keep.filter(&nameless));

    let by_name = RecordFilter::from_str("Szeged", false).unwrap().unwrap();
    assert!(by_name.filter(&szeged));
    assert!(!by_name.filter(&budapest));
    assert!(!by_name.filter(&nameless));

    let drop = RecordFilter::from_str("Szeged,13704", true).unwrap().unwrap();
    assert!(!drop.filter(&szeged));
    assert!(!drop.filter(&budapest));

    let drop_other = RecordFilter::from_str("99999", true).unwrap().unwrap();
    assert!(drop_other.filter(&budapest));
}

#[test]
fn station_filter_specifications() {
    assert_eq!(RecordFilter::from_str("", false), Ok(None));
    assert_eq!(RecordFilter::from_str("a,,b", false), Err(ParseRecordFilterError));
    assert_eq!(RecordFilter::from_str(" ", true), Err(ParseRecordFilterError));
    assert_eq!(RecordFilter::from_str("1,", false), Err(ParseRecordFilterError));
    assert!(RecordFilter::from_str("Kékestető", false).unwrap().is_some());
}

#[test]
fn records_are_identified_by_time_and_station() {
    let format = condensed();
    let a = RawRecord::from_csv("202401010000;13704;Budapest;1;;EOR", &format).unwrap();
    let b = RawRecord::from_csv("202401010000;13704;Buda;2;x;EOR", &format).unwrap();
    let c = RawRecord::from_csv("202401010010;13704;Budapest;1;;EOR", &format).unwrap();
    assert_eq!(a, b);
    assert_ne!(a, c);
}

#[test]
fn written_line_reads_back_as_the_same_record() {
    let aligned = CsvFormat::default();
    let mut line_fields = vec!["202401010000".to_string(), "13704".to_string()];
    line_fields.push("Budapest".to_string());
    line_fields.extend(["47.43", "19.18", "138"].map(String::from));
    for _ in 0..48 {
        line_fields.push("-999".to_string());
    }
    line_fields.push("EOR".to_string());
    let condensed_default = CsvFormat { alignment: false, ..CsvFormat::default() };
    let rec = RawRecord::from_csv(&line_fields.join(";"), &condensed_default).unwrap();
    let written = rec.to_csv(&aligned);
    let back = RawRecord::from_csv(&written, &aligned).unwrap();
    assert_eq!(back.to_csv(&aligned), written);
    assert_eq!(back.value(Field::Latitude), Some("47.43"));
    assert_eq!(back.value(Field::Rain), None);
    assert_eq!(back.to_csv(&condensed_default), line_fields.join(";"));
}

#[test]
fn null_in_any_letter_case_leaves_a_field_absent() {
    let rec = RawRecord::from_csv("202401010000;13704;Szeged;nULL;NuLl;EOR", &condensed()).unwrap();
    assert_eq!(rec.value(Field::Temp), None);
    assert_eq!(rec.value(Field::Q_Temp), None);
}

#[test]
fn records_are_ordered_by_time_then_station() {
    let format = condensed();
    let early = RawRecord::from_csv("202401010000;44527;Szeged;1;;EOR", &format).unwrap();
    let late = RawRecord::from_csv("202401010010;13704;Budapest;1;;EOR", &format).unwrap();
    let early_low = RawRecord::from_csv("202401010000;13704;Budapest;9;;EOR", &format).unwrap();
    let early_low_again = RawRecord::from_csv("202401010000;13704;Buda;2;x;EOR", &format).unwrap();
    assert!(early < late);
    assert!(early_low < early);
    assert!(late > early_low);
    assert_eq!(early_low.partial_cmp(&early_low_again), Some(std::cmp::Ordering::Equal));
    let short = RawRecord::from_csv("20240101;13704;Budapest;9;;EOR", &format).unwrap();
    assert!(short < early);
}
