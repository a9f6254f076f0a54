use met_csv::error::ParseFieldError;
use met_csv::error::ParseHeaderError::{
    FoundDuplicates, FoundNoDelimiters, InvalidEorPosition, MissingStationNumber, MissingTime,
    UnknownField,
};
use met_csv::field::{field_array, Field, FieldConfig, FieldFilter, FieldType, FIELD_COUNT};
use met_csv::format::Delimiter;

const TEST_HEADER: &str = "        Time;StationNumber;StationName                             ;Latitude;Longitude;Elevation;    r; Q_r;    t; Q_t;   ta;Q_ta;   tn;Q_tn;   tx;Q_tx;     v; Q_v;      p; Q_p;   u; Q_u;      sg;Q_sg;     sr;Q_sr;   suv;Q_suv;   fs;Q_fs; fsd;Q_fsd;   fx;Q_fx; fxd;Q_fxd; fxm;Q_fxm; fxs;Q_fxs;  et5;Q_et5; et10;Q_et10; et20;Q_et20; et50;Q_et50;et100;Q_et100;  tsn;Q_tsn; tviz;Q_tviz;EOR";

#[test]
fn test_field_array() {
    let array = field_array();

    // Array index equals the field's own position
    for (i, f) in array.iter().enumerate() {
        assert_eq!(i, f.field as usize);
    }

    // EOR is last
    let last = &array[array.len() - 1];
    assert!(matches!(last.field, Field::EOR));
    assert!(matches!(last.field_type, FieldType::EOR));

    // Only one EOR is present
    let count = array
        .iter()
        .filter(|f| matches!(f.field, Field::EOR) || matches!(f.field_type, FieldType::EOR))
        .count();
    assert_eq!(count, 1);

    // Width for all fields and delimiters equals length of the reference
    let test_len = TEST_HEADER.len();
    let calc_len = array
        .iter()
        .map(|f| f.width)
        .fold(0_usize, |acc, w| acc + (w as usize) + 1);
    assert_eq!(calc_len, test_len + 1);

    // Fields starting with Q are exactly those that have FieldType::Q
    for (i, f) in array.iter().enumerate() {
        let start = f.title.starts_with("Q_");
        let q = matches!(f.field_type, FieldType::Q);
        assert_eq!(start, q, "Q mismatch at index {i}");
    }

    // There are no duplicate titles
    for i in 0..(array.len() - 1) {
        let t1 = array[i].title;
        for j in (i + 1)..array.len() {
            let t2 = array[j].title;
            assert_ne!(t1, t2);
        }
    }
}

#[test]
fn test_field_try_from() {
    for s in ["Time", "StationNumber", "StationName", "t", "EOR"] {
        assert_eq!(Field::try_from(s).unwrap().title(), s);
    }

    for s in ["time", "Station_Number", "Station Name", "T", "Eor", "eor", " EOR", "EOR "] {
        assert_eq!(Field::try_from(s).unwrap_err().0, s);
    }
}

#[test]
fn test_fieldconfig() {
    let config = FieldConfig::from_header(TEST_HEADER, Delimiter::default()).unwrap();
    assert_eq!(config, FieldConfig::new_with_all());

    let header = "Time;StationNumber;EOR";
    let expected = FieldConfig::new(false, false, false, true, None);
    let config = FieldConfig::from_header(header, Delimiter::default()).unwrap();
    assert_eq!(config, expected);

    let header = "Time;StationNumber;t";
    let ffilter = FieldFilter::new(vec![Field::Temp], vec![]);
    let expected = FieldConfig::new(false, false, false, false, ffilter.as_ref());
    let config = FieldConfig::from_header(header, Delimiter::default()).unwrap();
    assert_eq!(config, expected);

    for (header, eexpected) in [
        ("Time,StationNumber,t,EOR", FoundNoDelimiters),
        ("Time;StationNumber;Time;EOR", FoundDuplicates("Time".to_string())),
        ("Time;StationNumber;t;Eor", UnknownField(ParseFieldError("Eor".to_string()))),
        ("Time;StationNumber;t;EOR;", UnknownField(ParseFieldError(String::new()))),
        ("StationNumber;t;EOR", MissingTime),
        ("Time;StationName;t;EOR", MissingStationNumber),
        ("Time;StationNumber;EOR;t", InvalidEorPosition),
    ] {
        assert_eq!(
            FieldConfig::from_header(header, Delimiter::default()).unwrap_err(),
            eexpected,
        );
    }
}

#[test]
fn title_lookup_inverts_title_for_every_field() {
    let array = field_array();
    assert_eq!(array.len(), FIELD_COUNT);
    for row in array.iter() {
        assert_eq!(Field::try_from(row.field.title()).unwrap(), row.field);
        assert_eq!(Field::from_index(row.field.index()), row.field);
    }
}

#[test]
fn catalog_widths_and_categories() {
    assert_eq!(Field::Time.width(), 12);
    assert_eq!(Field::StationName.width(), 40);
    assert_eq!(Field::Q_TempMax.title(), "Q_tx");
    assert_eq!(Field::Q_TempMax.field_type(), FieldType::Q);
    assert_eq!(Field::Time.field_type(), FieldType::Mandatory);
    assert_eq!(Field::Latitude.field_type(), FieldType::Info);
    assert_eq!(Field::Rain.field_type(), FieldType::Value);
    assert_eq!(Field::EOR.index(), FIELD_COUNT - 1);
    assert_eq!(Field::EOR.properties().width, 3);
}

#[test]
fn field_filter_from_title_lists() {
    let fl = FieldFilter::from_strs(Some("t, Q_t"), Some("StationName")).unwrap().unwrap();
    assert_eq!(fl.including, vec![Field::Temp, Field::Q_Temp]);
    assert_eq!(fl.excluding, vec![Field::StationName]);

    assert_eq!(FieldFilter::from_strs(None, None), Ok(None));
    assert_eq!(FieldFilter::from_strs(Some(""), Some("")), Ok(None));
    assert_eq!(
        FieldFilter::from_strs(Some("t,x"), None).unwrap_err().0,
        ParseFieldError("x".to_string())
    );
    assert_eq!(
        FieldFilter::from_strs(None, Some("t,,r")).unwrap_err().0,
        ParseFieldError(String::new())
    );
    assert_eq!(FieldFilter::new(vec![], vec![]), None);
}

#[test]
fn field_selection_by_category_and_filter() {
    let fl = FieldFilter::new(vec![Field::Temp], vec![Field::Latitude]);
    let config = FieldConfig::new(true, false, false, false, fl.as_ref());
    assert_eq!(
        config.fields().clone(),
        vec![
            Field::Time,
            Field::StationNumber,
            Field::StationName,
            Field::Longitude,
            Field::Elevation,
            Field::Temp,
        ]
    );

    let all = FieldConfig::new_with_all();
    assert_eq!(all.fields().len(), FIELD_COUNT);
    assert_eq!(all, FieldConfig::default());
    for (i, f) in all.fields().iter().enumerate() {
        assert_eq!(f.index(), i);
    }

    let q_only = FieldConfig::new(false, false, true, false, None);
    assert_eq!(q_only.fields().len(), 2 + 24);
    assert!(q_only.fields()[2..].iter().all(|f| f.title().starts_with("Q_")));
}

#[test]
fn header_errors_carry_the_offending_text() {
    let d = Delimiter::default();
    assert_eq!(
        FieldConfig::from_header("Time;StationNumber; r ;r", d).unwrap_err(),
        FoundDuplicates("r".to_string())
    );
    assert_eq!(
        FieldConfig::from_header("Time;StationNumber;  Eor ", d).unwrap_err(),
        UnknownField(ParseFieldError("Eor".to_string()))
    );
    assert_eq!(
        FieldConfig::from_header("Time;", d).unwrap_err(),
        UnknownField(ParseFieldError(String::new()))
    );
    assert_eq!(FieldConfig::from_header("t;Time", d).unwrap_err(), MissingTime);
    assert_eq!(FieldConfig::from_header("Time;EOR", d).unwrap_err(), MissingStationNumber);
    let config = FieldConfig::from_header(" Time ; StationNumber ;Q_t; EOR", d).unwrap();
    assert_eq!(
        config.fields().clone(),
        vec![Field::Time, Field::StationNumber, Field::Q_Temp, Field::EOR]
    );
}
