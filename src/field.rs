//! The catalog of known columns: each `Field` with its title, category and display width.

use vstd::prelude::*;

use crate::error::ParseFieldError;
use crate::text::{chars_of, range_equals};

pub mod config;

pub use self::config::{FieldConfig, FieldFilter};

verus! {

/// Number of entries in the catalog.
pub const FIELD_COUNT: usize = 55;

/// Categories of fields, used in filtering.
#[allow(clippy::upper_case_acronyms)]
#[derive(Clone, Copy, Debug, PartialEq, Eq, Structural)]
pub enum FieldType {
    Mandatory,
    Info,
    Value,
    Q,
    EOR,
}

/// Auxiliary characteristics of a field: one row of the catalog.
#[derive(Clone, Copy, Debug)]
pub struct FieldProperties {
    pub title: &'static str,
    pub field: Field,
    pub field_type: FieldType,
    pub width: u8,
}

/// All the columns of an unmodified source file, in their fixed order.
/// These are also the possible elements of a `FieldFilter`.
#[allow(non_camel_case_types)]
#[allow(clippy::upper_case_acronyms)]
#[derive(Clone, Copy, Debug, PartialEq, Eq, Hash, PartialOrd, Ord, Structural)]
pub enum Field {
    Time,
    StationNumber,
    StationName,
    Latitude,
    Longitude,
    Elevation,
    Rain,
    Q_Rain,
    Temp,
    Q_Temp,
    TempAvg,
    Q_TempAvg,
    TempMin,
    Q_TempMin,
    TempMax,
    Q_TempMax,
    Visibility,
    Q_Visibility,
    Pressure,
    Q_Pressure,
    Humidity,
    Q_Humidity,
    GammaRad,
    Q_GammaRad,
    SolarRad,
    Q_SolarRad,
    UvRad,
    Q_UvRad,
    WindSpeed,
    Q_WindSpeed,
    WindDir,
    Q_WindDir,
    GustSpeed,
    Q_GustSpeed,
    GustDir,
    Q_GustDir,
    GustMinute,
    Q_GustMinute,
    GustSecond,
    Q_GustSecond,
    GroundTemp5,
    Q_GroundTemp5,
    GroundTemp10,
    Q_GroundTemp10,
    GroundTemp20,
    Q_GroundTemp20,
    GroundTemp50,
    Q_GroundTemp50,
    GroundTemp100,
    Q_GroundTemp100,
    SurfaceTemp,
    Q_SurfaceTemp,
    WaterTemp,
    Q_WaterTemp,
    EOR,
}

/// The field at position `i` of the catalog (`EOR` past the end).
pub open spec fn field_at(i: int) -> Field {
    if i == 0 {
        Field::Time
    } else if i == 1 {
        Field::StationNumber
    } else if i == 2 {
        Field::StationName
    } else if i == 3 {
        Field::Latitude
    } else if i == 4 {
        Field::Longitude
    } else if i == 5 {
        Field::Elevation
    } else if i == 6 {
        Field::Rain
    } else if i == 7 {
        Field::Q_Rain
    } else if i == 8 {
        Field::Temp
    } else if i == 9 {
        Field::Q_Temp
    } else if i == 10 {
        Field::TempAvg
    } else if i == 11 {
        Field::Q_TempAvg
    } else if i == 12 {
        Field::TempMin
    } else if i == 13 {
        Field::Q_TempMin
    } else if i == 14 {
        Field::TempMax
    } else if i == 15 {
        Field::Q_TempMax
    } else if i == 16 {
        Field::Visibility
    } else if i == 17 {
        Field::Q_Visibility
    } else if i == 18 {
        Field::Pressure
    } else if i == 19 {
        Field::Q_Pressure
    } else if i == 20 {
        Field::Humidity
    } else if i == 21 {
        Field::Q_Humidity
    } else if i == 22 {
        Field::GammaRad
    } else if i == 23 {
        Field::Q_GammaRad
    } else if i == 24 {
        Field::SolarRad
    } else if i == 25 {
        Field::Q_SolarRad
    } else if i == 26 {
        Field::UvRad
    } else if i == 27 {
        Field::Q_UvRad
    } else if i == 28 {
        Field::WindSpeed
    } else if i == 29 {
        Field::Q_WindSpeed
    } else if i == 30 {
        Field::WindDir
    } else if i == 31 {
        Field::Q_WindDir
    } else if i == 32 {
        Field::GustSpeed
    } else if i == 33 {
        Field::Q_GustSpeed
    } else if i == 34 {
        Field::GustDir
    } else if i == 35 {
        Field::Q_GustDir
    } else if i == 36 {
        Field::GustMinute
    } else if i == 37 {
        Field::Q_GustMinute
    } else if i == 38 {
        Field::GustSecond
    } else if i == 39 {
        Field::Q_GustSecond
    } else if i == 40 {
        Field::GroundTemp5
    } else if i == 41 {
        Field::Q_GroundTemp5
    } else if i == 42 {
        Field::GroundTemp10
    } else if i == 43 {
        Field::Q_GroundTemp10
    } else if i == 44 {
        Field::GroundTemp20
    } else if i == 45 {
        Field::Q_GroundTemp20
    } else if i == 46 {
        Field::GroundTemp50
    } else if i == 47 {
        Field::Q_GroundTemp50
    } else if i == 48 {
        Field::GroundTemp100
    } else if i == 49 {
        Field::Q_GroundTemp100
    } else if i == 50 {
        Field::SurfaceTemp
    } else if i == 51 {
        Field::Q_SurfaceTemp
    } else if i == 52 {
        Field::WaterTemp
    } else if i == 53 {
        Field::Q_WaterTemp
    } else {
        Field::EOR
    }
}

/// The field whose title is `t`, if any.
pub open spec fn title_lookup(t: Seq<char>) -> Option<Field> {
    if exists|f: Field| f.spec_title() == t {
        Some(choose|f: Field| f.spec_title() == t)
    } else {
        None
    }
}

impl Field {
    /// Position of the field in the catalog.
    pub open spec fn ord(self) -> int {
        match self {
            Field::Time => 0,
            Field::StationNumber => 1,
            Field::StationName => 2,
            Field::Latitude => 3,
            Field::Longitude => 4,
            Field::Elevation => 5,
            Field::Rain => 6,
            Field::Q_Rain => 7,
            Field::Temp => 8,
            Field::Q_Temp => 9,
            Field::TempAvg => 10,
            Field::Q_TempAvg => 11,
            Field::TempMin => 12,
            Field::Q_TempMin => 13,
            Field::TempMax => 14,
            Field::Q_TempMax => 15,
            Field::Visibility => 16,
            Field::Q_Visibility => 17,
            Field::Pressure => 18,
            Field::Q_Pressure => 19,
            Field::Humidity => 20,
            Field::Q_Humidity => 21,
            Field::GammaRad => 22,
            Field::Q_GammaRad => 23,
            Field::SolarRad => 24,
            Field::Q_SolarRad => 25,
            Field::UvRad => 26,
            Field::Q_UvRad => 27,
            Field::WindSpeed => 28,
            Field::Q_WindSpeed => 29,
            Field::WindDir => 30,
            Field::Q_WindDir => 31,
            Field::GustSpeed => 32,
            Field::Q_GustSpeed => 33,
            Field::GustDir => 34,
            Field::Q_GustDir => 35,
            Field::GustMinute => 36,
            Field::Q_GustMinute => 37,
            Field::GustSecond => 38,
            Field::Q_GustSecond => 39,
            Field::GroundTemp5 => 40,
            Field::Q_GroundTemp5 => 41,
            Field::GroundTemp10 => 42,
            Field::Q_GroundTemp10 => 43,
            Field::GroundTemp20 => 44,
            Field::Q_GroundTemp20 => 45,
            Field::GroundTemp50 => 46,
            Field::Q_GroundTemp50 => 47,
            Field::GroundTemp100 => 48,
            Field::Q_GroundTemp100 => 49,
            Field::SurfaceTemp => 50,
            Field::Q_SurfaceTemp => 51,
            Field::WaterTemp => 52,
            Field::Q_WaterTemp => 53,
            Field::EOR => 54,
        }
    }

    /// The exact header token of the field.
    pub open spec fn spec_title(self) -> Seq<char> {
        match self {
            Field::Time => seq!['T', 'i', 'm', 'e'],
            Field::StationNumber => seq!['S', 't', 'a', 't', 'i', 'o', 'n', 'N', 'u', 'm', 'b', 'e', 'r'],
            Field::StationName => seq!['S', 't', 'a', 't', 'i', 'o', 'n', 'N', 'a', 'm', 'e'],
            Field::Latitude => seq!['L', 'a', 't', 'i', 't', 'u', 'd', 'e'],
            Field::Longitude => seq!['L', 'o', 'n', 'g', 'i', 't', 'u', 'd', 'e'],
            Field::Elevation => seq!['E', 'l', 'e', 'v', 'a', 't', 'i', 'o', 'n'],
            Field::Rain => seq!['r'],
            Field::Q_Rain => seq!['Q', '_', 'r'],
            Field::Temp => seq!['t'],
            Field::Q_Temp => seq!['Q', '_', 't'],
            Field::TempAvg => seq!['t', 'a'],
            Field::Q_TempAvg => seq!['Q', '_', 't', 'a'],
            Field::TempMin => seq!['t', 'n'],
            Field::Q_TempMin => seq!['Q', '_', 't', 'n'],
            Field::TempMax => seq!['t', 'x'],
            Field::Q_TempMax => seq!['Q', '_', 't', 'x'],
            Field::Visibility => seq!['v'],
            Field::Q_Visibility => seq!['Q', '_', 'v'],
            Field::Pressure => seq!['p'],
            Field::Q_Pressure => seq!['Q', '_', 'p'],
            Field::Humidity => seq!['u'],
            Field::Q_Humidity => seq!['Q', '_', 'u'],
            Field::GammaRad => seq!['s', 'g'],
            Field::Q_GammaRad => seq!['Q', '_', 's', 'g'],
            Field::SolarRad => seq!['s', 'r'],
            Field::Q_SolarRad => seq!['Q', '_', 's', 'r'],
            Field::UvRad => seq!['s', 'u', 'v'],
            Field::Q_UvRad => seq!['Q', '_', 's', 'u', 'v'],
            Field::WindSpeed => seq!['f', 's'],
            Field::Q_WindSpeed => seq!['Q', '_', 'f', 's'],
            Field::WindDir => seq!['f', 's', 'd'],
            Field::Q_WindDir => seq!['Q', '_', 'f', 's', 'd'],
            Field::GustSpeed => seq!['f', 'x'],
            Field::Q_GustSpeed => seq!['Q', '_', 'f', 'x'],
            Field::GustDir => seq!['f', 'x', 'd'],
            Field::Q_GustDir => seq!['Q', '_', 'f', 'x', 'd'],
            Field::GustMinute => seq!['f', 'x', 'm'],
            Field::Q_GustMinute => seq!['Q', '_', 'f', 'x', 'm'],
            Field::GustSecond => seq!['f', 'x', 's'],
            Field::Q_GustSecond => seq!['Q', '_', 'f', 'x', 's'],
            Field::GroundTemp5 => seq!['e', 't', '5'],
            Field::Q_GroundTemp5 => seq!['Q', '_', 'e', 't', '5'],
            Field::GroundTemp10 => seq!['e', 't', '1', '0'],
            Field::Q_GroundTemp10 => seq!['Q', '_', 'e', 't', '1', '0'],
            Field::GroundTemp20 => seq!['e', 't', '2', '0'],
            Field::Q_GroundTemp20 => seq!['Q', '_', 'e', 't', '2', '0'],
            Field::GroundTemp50 => seq!['e', 't', '5', '0'],
            Field::Q_GroundTemp50 => seq!['Q', '_', 'e', 't', '5', '0'],
            Field::GroundTemp100 => seq!['e', 't', '1', '0', '0'],
            Field::Q_GroundTemp100 => seq!['Q', '_', 'e', 't', '1', '0', '0'],
            Field::SurfaceTemp => seq!['t', 's', 'n'],
            Field::Q_SurfaceTemp => seq!['Q', '_', 't', 's', 'n'],
            Field::WaterTemp => seq!['t', 'v', 'i', 'z'],
            Field::Q_WaterTemp => seq!['Q', '_', 't', 'v', 'i', 'z'],
            Field::EOR => seq!['E', 'O', 'R'],
        }
    }

    /// Characters taken by the field in a padded header, padding included.
    pub open spec fn spec_width(self) -> nat {
        match self {
            Field::Time => 12,
            Field::StationNumber => 13,
            Field::StationName => 40,
            Field::Latitude => 8,
            Field::Longitude => 9,
            Field::Elevation => 9,
            Field::Rain => 5,
            Field::Q_Rain => 4,
            Field::Temp => 5,
            Field::Q_Temp => 4,
            Field::TempAvg => 5,
            Field::Q_TempAvg => 4,
            Field::TempMin => 5,
            Field::Q_TempMin => 4,
            Field::TempMax => 5,
            Field::Q_TempMax => 4,
            Field::Visibility => 6,
            Field::Q_Visibility => 4,
            Field::Pressure => 7,
            Field::Q_Pressure => 4,
            Field::Humidity => 4,
            Field::Q_Humidity => 4,
            Field::GammaRad => 8,
            Field::Q_GammaRad => 4,
            Field::SolarRad => 7,
            Field::Q_SolarRad => 4,
            Field::UvRad => 6,
            Field::Q_UvRad => 5,
            Field::WindSpeed => 5,
            Field::Q_WindSpeed => 4,
            Field::WindDir => 4,
            Field::Q_WindDir => 5,
            Field::GustSpeed => 5,
            Field::Q_GustSpeed => 4,
            Field::GustDir => 4,
            Field::Q_GustDir => 5,
            Field::GustMinute => 4,
            Field::Q_GustMinute => 5,
            Field::GustSecond => 4,
            Field::Q_GustSecond => 5,
            Field::GroundTemp5 => 5,
            Field::Q_GroundTemp5 => 5,
            Field::GroundTemp10 => 5,
            Field::Q_GroundTemp10 => 6,
            Field::GroundTemp20 => 5,
            Field::Q_GroundTemp20 => 6,
            Field::GroundTemp50 => 5,
            Field::Q_GroundTemp50 => 6,
            Field::GroundTemp100 => 5,
            Field::Q_GroundTemp100 => 7,
            Field::SurfaceTemp => 5,
            Field::Q_SurfaceTemp => 5,
            Field::WaterTemp => 5,
            Field::Q_WaterTemp => 6,
            Field::EOR => 3,
        }
    }

    /// Category of the field.
    pub open spec fn category(self) -> FieldType {
        match self {
            Field::Time => FieldType::Mandatory,
            Field::StationNumber => FieldType::Mandatory,
            Field::StationName => FieldType::Info,
            Field::Latitude => FieldType::Info,
            Field::Longitude => FieldType::Info,
            Field::Elevation => FieldType::Info,
            Field::Rain => FieldType::Value,
            Field::Q_Rain => FieldType::Q,
            Field::Temp => FieldType::Value,
            Field::Q_Temp => FieldType::Q,
            Field::TempAvg => FieldType::Value,
            Field::Q_TempAvg => FieldType::Q,
            Field::TempMin => FieldType::Value,
            Field::Q_TempMin => FieldType::Q,
            Field::TempMax => FieldType::Value,
            Field::Q_TempMax => FieldType::Q,
            Field::Visibility => FieldType::Value,
            Field::Q_Visibility => FieldType::Q,
            Field::Pressure => FieldType::Value,
            Field::Q_Pressure => FieldType::Q,
            Field::Humidity => FieldType::Value,
            Field::Q_Humidity => FieldType::Q,
            Field::GammaRad => FieldType::Value,
            Field::Q_GammaRad => FieldType::Q,
            Field::SolarRad => FieldType::Value,
            Field::Q_SolarRad => FieldType::Q,
            Field::UvRad => FieldType::Value,
            Field::Q_UvRad => FieldType::Q,
            Field::WindSpeed => FieldType::Value,
            Field::Q_WindSpeed => FieldType::Q,
            Field::WindDir => FieldType::Value,
            Field::Q_WindDir => FieldType::Q,
            Field::GustSpeed => FieldType::Value,
            Field::Q_GustSpeed => FieldType::Q,
            Field::GustDir => FieldType::Value,
            Field::Q_GustDir => FieldType::Q,
            Field::GustMinute => FieldType::Value,
            Field::Q_GustMinute => FieldType::Q,
            Field::GustSecond => FieldType::Value,
            Field::Q_GustSecond => FieldType::Q,
            Field::GroundTemp5 => FieldType::Value,
            Field::Q_GroundTemp5 => FieldType::Q,
            Field::GroundTemp10 => FieldType::Value,
            Field::Q_GroundTemp10 => FieldType::Q,
            Field::GroundTemp20 => FieldType::Value,
            Field::Q_GroundTemp20 => FieldType::Q,
            Field::GroundTemp50 => FieldType::Value,
            Field::Q_GroundTemp50 => FieldType::Q,
            Field::GroundTemp100 => FieldType::Value,
            Field::Q_GroundTemp100 => FieldType::Q,
            Field::SurfaceTemp => FieldType::Value,
            Field::Q_SurfaceTemp => FieldType::Q,
            Field::WaterTemp => FieldType::Value,
            Field::Q_WaterTemp => FieldType::Q,
            Field::EOR => FieldType::EOR,
        }
    }

    /// Title string representation of the field.
    pub fn title(&self) -> (r: &'static str)
        ensures
            r@ == self.spec_title(),
    {
        match self {
            Field::Time => {
                proof {
                    reveal_strlit("Time");
                }
                "Time"
            },
            Field::StationNumber => {
                proof {
                    reveal_strlit("StationNumber");
                }
                "StationNumber"
            },
            Field::StationName => {
                proof {
                    reveal_strlit("StationName");
                }
                "StationName"
            },
            Field::Latitude => {
                proof {
                    reveal_strlit("Latitude");
                }
                "Latitude"
            },
            Field::Longitude => {
                proof {
                    reveal_strlit("Longitude");
                }
                "Longitude"
            },
            Field::Elevation => {
                proof {
                    reveal_strlit("Elevation");
                }
                "Elevation"
            },
            Field::Rain => {
                proof {
                    reveal_strlit("r");
                }
                "r"
            },
            Field::Q_Rain => {
                proof {
                    reveal_strlit("Q_r");
                }
                "Q_r"
            },
            Field::Temp => {
                proof {
                    reveal_strlit("t");
                }
                "t"
            },
            Field::Q_Temp => {
                proof {
                    reveal_strlit("Q_t");
                }
                "Q_t"
            },
            Field::TempAvg => {
                proof {
                    reveal_strlit("ta");
                }
                "ta"
            },
            Field::Q_TempAvg => {
                proof {
                    reveal_strlit("Q_ta");
                }
                "Q_ta"
            },
            Field::TempMin => {
                proof {
                    reveal_strlit("tn");
                }
                "tn"
            },
            Field::Q_TempMin => {
                proof {
                    reveal_strlit("Q_tn");
                }
                "Q_tn"
            },
            Field::TempMax => {
                proof {
                    reveal_strlit("tx");
                }
                "tx"
            },
            Field::Q_TempMax => {
                proof {
                    reveal_strlit("Q_tx");
                }
                "Q_tx"
            },
            Field::Visibility => {
                proof {
                    reveal_strlit("v");
                }
                "v"
            },
            Field::Q_Visibility => {
                proof {
                    reveal_strlit("Q_v");
                }
                "Q_v"
            },
            Field::Pressure => {
                proof {
                    reveal_strlit("p");
                }
                "p"
            },
            Field::Q_Pressure => {
                proof {
                    reveal_strlit("Q_p");
                }
                "Q_p"
            },
            Field::Humidity => {
                proof {
                    reveal_strlit("u");
                }
                "u"
            },
            Field::Q_Humidity => {
                proof {
                    reveal_strlit("Q_u");
                }
                "Q_u"
            },
            Field::GammaRad => {
                proof {
                    reveal_strlit("sg");
                }
                "sg"
            },
            Field::Q_GammaRad => {
                proof {
                    reveal_strlit("Q_sg");
                }
                "Q_sg"
            },
            Field::SolarRad => {
                proof {
                    reveal_strlit("sr");
                }
                "sr"
            },
            Field::Q_SolarRad => {
                proof {
                    reveal_strlit("Q_sr");
                }
                "Q_sr"
            },
            Field::UvRad => {
                proof {
                    reveal_strlit("suv");
                }
                "suv"
            },
            Field::Q_UvRad => {
                proof {
                    reveal_strlit("Q_suv");
                }
                "Q_suv"
            },
            Field::WindSpeed => {
                proof {
                    reveal_strlit("fs");
                }
                "fs"
            },
            Field::Q_WindSpeed => {
                proof {
                    reveal_strlit("Q_fs");
                }
                "Q_fs"
            },
            Field::WindDir => {
                proof {
                    reveal_strlit("fsd");
                }
                "fsd"
            },
            Field::Q_WindDir => {
                proof {
                    reveal_strlit("Q_fsd");
                }
                "Q_fsd"
            },
            Field::GustSpeed => {
                proof {
                    reveal_strlit("fx");
                }
                "fx"
            },
            Field::Q_GustSpeed => {
                proof {
                    reveal_strlit("Q_fx");
                }
                "Q_fx"
            },
            Field::GustDir => {
                proof {
                    reveal_strlit("fxd");
                }
                "fxd"
            },
            Field::Q_GustDir => {
                proof {
                    reveal_strlit("Q_fxd");
                }
                "Q_fxd"
            },
            Field::GustMinute => {
                proof {
                    reveal_strlit("fxm");
                }
                "fxm"
            },
            Field::Q_GustMinute => {
                proof {
                    reveal_strlit("Q_fxm");
                }
                "Q_fxm"
            },
            Field::GustSecond => {
                proof {
                    reveal_strlit("fxs");
                }
                "fxs"
            },
            Field::Q_GustSecond => {
                proof {
                    reveal_strlit("Q_fxs");
                }
                "Q_fxs"
            },
            Field::GroundTemp5 => {
                proof {
                    reveal_strlit("et5");
                }
                "et5"
            },
            Field::Q_GroundTemp5 => {
                proof {
                    reveal_strlit("Q_et5");
                }
                "Q_et5"
            },
            Field::GroundTemp10 => {
                proof {
                    reveal_strlit("et10");
                }
                "et10"
            },
            Field::Q_GroundTemp10 => {
                proof {
                    reveal_strlit("Q_et10");
                }
                "Q_et10"
            },
            Field::GroundTemp20 => {
                proof {
                    reveal_strlit("et20");
                }
                "et20"
            },
            Field::Q_GroundTemp20 => {
                proof {
                    reveal_strlit("Q_et20");
                }
                "Q_et20"
            },
            Field::GroundTemp50 => {
                proof {
                    reveal_strlit("et50");
                }
                "et50"
            },
            Field::Q_GroundTemp50 => {
                proof {
                    reveal_strlit("Q_et50");
                }
                "Q_et50"
            },
            Field::GroundTemp100 => {
                proof {
                    reveal_strlit("et100");
                }
                "et100"
            },
            Field::Q_GroundTemp100 => {
                proof {
                    reveal_strlit("Q_et100");
                }
                "Q_et100"
            },
            Field::SurfaceTemp => {
                proof {
                    reveal_strlit("tsn");
                }
                "tsn"
            },
            Field::Q_SurfaceTemp => {
                proof {
                    reveal_strlit("Q_tsn");
                }
                "Q_tsn"
            },
            Field::WaterTemp => {
                proof {
                    reveal_strlit("tviz");
                }
                "tviz"
            },
            Field::Q_WaterTemp => {
                proof {
                    reveal_strlit("Q_tviz");
                }
                "Q_tviz"
            },
            Field::EOR => {
                proof {
                    reveal_strlit("EOR");
                }
                "EOR"
            },
        }
    }

    /// Character width of the field title including padding
    /// (used with the optional `alignment` in `CsvFormat`).
    pub fn width(&self) -> (r: u16)
        ensures
            r as nat == self.spec_width(),
    {
        match self {
            Field::Time => 12,
            Field::StationNumber => 13,
            Field::StationName => 40,
            Field::Latitude => 8,
            Field::Longitude => 9,
            Field::Elevation => 9,
            Field::Rain => 5,
            Field::Q_Rain => 4,
            Field::Temp => 5,
            Field::Q_Temp => 4,
            Field::TempAvg => 5,
            Field::Q_TempAvg => 4,
            Field::TempMin => 5,
            Field::Q_TempMin => 4,
            Field::TempMax => 5,
            Field::Q_TempMax => 4,
            Field::Visibility => 6,
            Field::Q_Visibility => 4,
            Field::Pressure => 7,
            Field::Q_Pressure => 4,
            Field::Humidity => 4,
            Field::Q_Humidity => 4,
            Field::GammaRad => 8,
            Field::Q_GammaRad => 4,
            Field::SolarRad => 7,
            Field::Q_SolarRad => 4,
            Field::UvRad => 6,
            Field::Q_UvRad => 5,
            Field::WindSpeed => 5,
            Field::Q_WindSpeed => 4,
            Field::WindDir => 4,
            Field::Q_WindDir => 5,
            Field::GustSpeed => 5,
            Field::Q_GustSpeed => 4,
            Field::GustDir => 4,
            Field::Q_GustDir => 5,
            Field::GustMinute => 4,
            Field::Q_GustMinute => 5,
            Field::GustSecond => 4,
            Field::Q_GustSecond => 5,
            Field::GroundTemp5 => 5,
            Field::Q_GroundTemp5 => 5,
            Field::GroundTemp10 => 5,
            Field::Q_GroundTemp10 => 6,
            Field::GroundTemp20 => 5,
            Field::Q_GroundTemp20 => 6,
            Field::GroundTemp50 => 5,
            Field::Q_GroundTemp50 => 6,
            Field::GroundTemp100 => 5,
            Field::Q_GroundTemp100 => 7,
            Field::SurfaceTemp => 5,
            Field::Q_SurfaceTemp => 5,
            Field::WaterTemp => 5,
            Field::Q_WaterTemp => 6,
            Field::EOR => 3,
        }
    }

    /// Category of the field.
    pub fn field_type(&self) -> (r: FieldType)
        ensures
            r == self.category(),
    {
        match self {
            Field::Time => FieldType::Mandatory,
            Field::StationNumber => FieldType::Mandatory,
            Field::StationName => FieldType::Info,
            Field::Latitude => FieldType::Info,
            Field::Longitude => FieldType::Info,
            Field::Elevation => FieldType::Info,
            Field::Rain => FieldType::Value,
            Field::Q_Rain => FieldType::Q,
            Field::Temp => FieldType::Value,
            Field::Q_Temp => FieldType::Q,
            Field::TempAvg => FieldType::Value,
            Field::Q_TempAvg => FieldType::Q,
            Field::TempMin => FieldType::Value,
            Field::Q_TempMin => FieldType::Q,
            Field::TempMax => FieldType::Value,
            Field::Q_TempMax => FieldType::Q,
            Field::Visibility => FieldType::Value,
            Field::Q_Visibility => FieldType::Q,
            Field::Pressure => FieldType::Value,
            Field::Q_Pressure => FieldType::Q,
            Field::Humidity => FieldType::Value,
            Field::Q_Humidity => FieldType::Q,
            Field::GammaRad => FieldType::Value,
            Field::Q_GammaRad => FieldType::Q,
            Field::SolarRad => FieldType::Value,
            Field::Q_SolarRad => FieldType::Q,
            Field::UvRad => FieldType::Value,
            Field::Q_UvRad => FieldType::Q,
            Field::WindSpeed => FieldType::Value,
            Field::Q_WindSpeed => FieldType::Q,
            Field::WindDir => FieldType::Value,
            Field::Q_WindDir => FieldType::Q,
            Field::GustSpeed => FieldType::Value,
            Field::Q_GustSpeed => FieldType::Q,
            Field::GustDir => FieldType::Value,
            Field::Q_GustDir => FieldType::Q,
            Field::GustMinute => FieldType::Value,
            Field::Q_GustMinute => FieldType::Q,
            Field::GustSecond => FieldType::Value,
            Field::Q_GustSecond => FieldType::Q,
            Field::GroundTemp5 => FieldType::Value,
            Field::Q_GroundTemp5 => FieldType::Q,
            Field::GroundTemp10 => FieldType::Value,
            Field::Q_GroundTemp10 => FieldType::Q,
            Field::GroundTemp20 => FieldType::Value,
            Field::Q_GroundTemp20 => FieldType::Q,
            Field::GroundTemp50 => FieldType::Value,
            Field::Q_GroundTemp50 => FieldType::Q,
            Field::GroundTemp100 => FieldType::Value,
            Field::Q_GroundTemp100 => FieldType::Q,
            Field::SurfaceTemp => FieldType::Value,
            Field::Q_SurfaceTemp => FieldType::Q,
            Field::WaterTemp => FieldType::Value,
            Field::Q_WaterTemp => FieldType::Q,
            Field::EOR => FieldType::EOR,
        }
    }

    /// Position of the field in the catalog.
    pub fn index(&self) -> (r: usize)
        ensures
            r as int == self.ord(),
    {
        match self {
            Field::Time => 0,
            Field::StationNumber => 1,
            Field::StationName => 2,
            Field::Latitude => 3,
            Field::Longitude => 4,
            Field::Elevation => 5,
            Field::Rain => 6,
            Field::Q_Rain => 7,
            Field::Temp => 8,
            Field::Q_Temp => 9,
            Field::TempAvg => 10,
            Field::Q_TempAvg => 11,
            Field::TempMin => 12,
            Field::Q_TempMin => 13,
            Field::TempMax => 14,
            Field::Q_TempMax => 15,
            Field::Visibility => 16,
            Field::Q_Visibility => 17,
            Field::Pressure => 18,
            Field::Q_Pressure => 19,
            Field::Humidity => 20,
            Field::Q_Humidity => 21,
            Field::GammaRad => 22,
            Field::Q_GammaRad => 23,
            Field::SolarRad => 24,
            Field::Q_SolarRad => 25,
            Field::UvRad => 26,
            Field::Q_UvRad => 27,
            Field::WindSpeed => 28,
            Field::Q_WindSpeed => 29,
            Field::WindDir => 30,
            Field::Q_WindDir => 31,
            Field::GustSpeed => 32,
            Field::Q_GustSpeed => 33,
            Field::GustDir => 34,
            Field::Q_GustDir => 35,
            Field::GustMinute => 36,
            Field::Q_GustMinute => 37,
            Field::GustSecond => 38,
            Field::Q_GustSecond => 39,
            Field::GroundTemp5 => 40,
            Field::Q_GroundTemp5 => 41,
            Field::GroundTemp10 => 42,
            Field::Q_GroundTemp10 => 43,
            Field::GroundTemp20 => 44,
            Field::Q_GroundTemp20 => 45,
            Field::GroundTemp50 => 46,
            Field::Q_GroundTemp50 => 47,
            Field::GroundTemp100 => 48,
            Field::Q_GroundTemp100 => 49,
            Field::SurfaceTemp => 50,
            Field::Q_SurfaceTemp => 51,
            Field::WaterTemp => 52,
            Field::Q_WaterTemp => 53,
            Field::EOR => 54,
        }
    }

    /// The field at position `i` of the catalog.
    pub fn from_index(i: usize) -> (r: Field)
        requires
            i < FIELD_COUNT,
        ensures
            r == field_at(i as int),
    {
        if i == 0 {
            Field::Time
        } else if i == 1 {
            Field::StationNumber
        } else if i == 2 {
            Field::StationName
        } else if i == 3 {
            Field::Latitude
        } else if i == 4 {
            Field::Longitude
        } else if i == 5 {
            Field::Elevation
        } else if i == 6 {
            Field::Rain
        } else if i == 7 {
            Field::Q_Rain
        } else if i == 8 {
            Field::Temp
        } else if i == 9 {
            Field::Q_Temp
        } else if i == 10 {
            Field::TempAvg
        } else if i == 11 {
            Field::Q_TempAvg
        } else if i == 12 {
            Field::TempMin
        } else if i == 13 {
            Field::Q_TempMin
        } else if i == 14 {
            Field::TempMax
        } else if i == 15 {
            Field::Q_TempMax
        } else if i == 16 {
            Field::Visibility
        } else if i == 17 {
            Field::Q_Visibility
        } else if i == 18 {
            Field::Pressure
        } else if i == 19 {
            Field::Q_Pressure
        } else if i == 20 {
            Field::Humidity
        } else if i == 21 {
            Field::Q_Humidity
        } else if i == 22 {
            Field::GammaRad
        } else if i == 23 {
            Field::Q_GammaRad
        } else if i == 24 {
            Field::SolarRad
        } else if i == 25 {
            Field::Q_SolarRad
        } else if i == 26 {
            Field::UvRad
        } else if i == 27 {
            Field::Q_UvRad
        } else if i == 28 {
            Field::WindSpeed
        } else if i == 29 {
            Field::Q_WindSpeed
        } else if i == 30 {
            Field::WindDir
        } else if i == 31 {
            Field::Q_WindDir
        } else if i == 32 {
            Field::GustSpeed
        } else if i == 33 {
            Field::Q_GustSpeed
        } else if i == 34 {
            Field::GustDir
        } else if i == 35 {
            Field::Q_GustDir
        } else if i == 36 {
            Field::GustMinute
        } else if i == 37 {
            Field::Q_GustMinute
        } else if i == 38 {
            Field::GustSecond
        } else if i == 39 {
            Field::Q_GustSecond
        } else if i == 40 {
            Field::GroundTemp5
        } else if i == 41 {
            Field::Q_GroundTemp5
        } else if i == 42 {
            Field::GroundTemp10
        } else if i == 43 {
            Field::Q_GroundTemp10
        } else if i == 44 {
            Field::GroundTemp20
        } else if i == 45 {
            Field::Q_GroundTemp20
        } else if i == 46 {
            Field::GroundTemp50
        } else if i == 47 {
            Field::Q_GroundTemp50
        } else if i == 48 {
            Field::GroundTemp100
        } else if i == 49 {
            Field::Q_GroundTemp100
        } else if i == 50 {
            Field::SurfaceTemp
        } else if i == 51 {
            Field::Q_SurfaceTemp
        } else if i == 52 {
            Field::WaterTemp
        } else if i == 53 {
            Field::Q_WaterTemp
        } else {
            Field::EOR
        }
    }


    /// The catalog row of the field.
    pub fn properties(&self) -> (r: FieldProperties)
        ensures
            r.title@ == self.spec_title(),
            r.field == *self,
            r.field_type == self.category(),
            r.width as nat == self.spec_width(),
    {
        let w = self.width();
        assert(w < 256);
        FieldProperties {
            title: self.title(),
            field: *self,
            field_type: self.field_type(),
            width: w as u8,
        }
    }

    /// The field whose title is `v[a..b]`, if any.
    pub fn from_chars(v: &Vec<char>, a: usize, b: usize) -> (r: Option<Field>)
        requires
            a <= b <= v@.len(),
        ensures
            r == title_lookup(v@.subrange(a as int, b as int)),
    {
        let ghost t = v@.subrange(a as int, b as int);
        let mut i: usize = 0;
        while i < FIELD_COUNT
            invariant
                a <= b <= v@.len(),
                t == v@.subrange(a as int, b as int),
                forall|j: int| 0 <= j < i ==> field_at(j).spec_title() != t,
            decreases FIELD_COUNT - i,
        {
            let f = Field::from_index(i);
            if range_equals(v, a, b, f.title()) {
                proof {
                    lemma_title_injective_all();
                }
                return Some(f);
            }
            i = i + 1;
        }
        proof {
            lemma_catalog_index();
            assert forall|g: Field| g.spec_title() != t by {
                assert(field_at(g.ord()) == g);
            }
        }
        None
    }

    /// Tries to convert from a title string (exact, case-sensitive match).
    pub fn try_from(title: &str) -> (r: Result<Field, ParseFieldError>)
        ensures
            match r {
                Ok(f) => title_lookup(title@) == Some(f),
                Err(e) => title_lookup(title@) is None && e.0@ == title@,
            },
    {
        let t = chars_of(title);
        let n = t.len();
        proof {
            assert(t@.subrange(0, n as int) =~= t@);
        }
        match Field::from_chars(&t, 0, n) {
            Some(f) => Ok(f),
            None => Err(ParseFieldError::new(title)),
        }
    }
}

/// The whole catalog, one row per field, in catalog order.
pub fn field_array() -> (r: Vec<FieldProperties>)
    ensures
        r@.len() == FIELD_COUNT,
        forall|i: int| 0 <= i < FIELD_COUNT ==> (#[trigger] r@[i]).field == field_at(i),
        forall|i: int|
            0 <= i < FIELD_COUNT ==> (#[trigger] r@[i]).title@ == field_at(i).spec_title(),
        forall|i: int|
            0 <= i < FIELD_COUNT ==> (#[trigger] r@[i]).field_type == field_at(i).category(),
        forall|i: int|
            0 <= i < FIELD_COUNT ==> (#[trigger] r@[i]).width as nat == field_at(i).spec_width(),
{
    let mut r: Vec<FieldProperties> = Vec::new();
    let mut i: usize = 0;
    while i < FIELD_COUNT
        invariant
            i <= FIELD_COUNT,
            r@.len() == i,
            forall|j: int| 0 <= j < i ==> (#[trigger] r@[j]).field == field_at(j),
            forall|j: int| 0 <= j < i ==> (#[trigger] r@[j]).title@ == field_at(j).spec_title(),
            forall|j: int| 0 <= j < i ==> (#[trigger] r@[j]).field_type == field_at(j).category(),
            forall|j: int| 0 <= j < i ==> (#[trigger] r@[j]).width as nat == field_at(j).spec_width(),
        decreases FIELD_COUNT - i,
    {
        r.push(Field::from_index(i).properties());
        i = i + 1;
    }
    r
}

/// The catalog's order is the fields' own: position `i` holds the field of ordinal `i`,
/// and every field stands at its ordinal.
pub proof fn lemma_catalog_index()
    ensures
        forall|i: int| 0 <= i < FIELD_COUNT ==> #[trigger] field_at(i).ord() == i,
        forall|f: Field| 0 <= #[trigger] f.ord() < FIELD_COUNT && field_at(f.ord()) == f,
{
}

/// There is exactly one end-of-record field, and it is the last of the catalog.
pub proof fn lemma_eor_last()
    ensures
        forall|f: Field| #[trigger] f.category() == FieldType::EOR <==> f == Field::EOR,
        Field::EOR.ord() == FIELD_COUNT - 1,
{
}

/// The field named by `t`, tested character by character.
spec fn field_named(t: Seq<char>) -> Option<Field> {
    if t.len() == 4 && t[0] == 'T' && t[1] == 'i' && t[2] == 'm' && t[3] == 'e' {
        Some(Field::Time)
    } else if t.len() == 13 && t[0] == 'S' && t[1] == 't' && t[2] == 'a' && t[3] == 't' && t[4] == 'i' && t[5] == 'o' && t[6] == 'n' && t[7] == 'N' && t[8] == 'u' && t[9] == 'm' && t[10] == 'b' && t[11] == 'e' && t[12] == 'r' {
        Some(Field::StationNumber)
    } else if t.len() == 11 && t[0] == 'S' && t[1] == 't' && t[2] == 'a' && t[3] == 't' && t[4] == 'i' && t[5] == 'o' && t[6] == 'n' && t[7] == 'N' && t[8] == 'a' && t[9] == 'm' && t[10] == 'e' {
        Some(Field::StationName)
    } else if t.len() == 8 && t[0] == 'L' && t[1] == 'a' && t[2] == 't' && t[3] == 'i' && t[4] == 't' && t[5] == 'u' && t[6] == 'd' && t[7] == 'e' {
        Some(Field::Latitude)
    } else if t.len() == 9 && t[0] == 'L' && t[1] == 'o' && t[2] == 'n' && t[3] == 'g' && t[4] == 'i' && t[5] == 't' && t[6] == 'u' && t[7] == 'd' && t[8] == 'e' {
        Some(Field::Longitude)
    } else if t.len() == 9 && t[0] == 'E' && t[1] == 'l' && t[2] == 'e' && t[3] == 'v' && t[4] == 'a' && t[5] == 't' && t[6] == 'i' && t[7] == 'o' && t[8] == 'n' {
        Some(Field::Elevation)
    } else if t.len() == 1 && t[0] == 'r' {
        Some(Field::Rain)
    } else if t.len() == 3 && t[0] == 'Q' && t[1] == '_' && t[2] == 'r' {
        Some(Field::Q_Rain)
    } else if t.len() == 1 && t[0] == 't' {
        Some(Field::Temp)
    } else if t.len() == 3 && t[0] == 'Q' && t[1] == '_' && t[2] == 't' {
        Some(Field::Q_Temp)
    } else if t.len() == 2 && t[0] == 't' && t[1] == 'a' {
        Some(Field::TempAvg)
    } else if t.len() == 4 && t[0] == 'Q' && t[1] == '_' && t[2] == 't' && t[3] == 'a' {
        Some(Field::Q_TempAvg)
    } else if t.len() == 2 && t[0] == 't' && t[1] == 'n' {
        Some(Field::TempMin)
    } else if t.len() == 4 && t[0] == 'Q' && t[1] == '_' && t[2] == 't' && t[3] == 'n' {
        Some(Field::Q_TempMin)
    } else if t.len() == 2 && t[0] == 't' && t[1] == 'x' {
        Some(Field::TempMax)
    } else if t.len() == 4 && t[0] == 'Q' && t[1] == '_' && t[2] == 't' && t[3] == 'x' {
        Some(Field::Q_TempMax)
    } else if t.len() == 1 && t[0] == 'v' {
        Some(Field::Visibility)
    } else if t.len() == 3 && t[0] == 'Q' && t[1] == '_' && t[2] == 'v' {
        Some(Field::Q_Visibility)
    } else if t.len() == 1 && t[0] == 'p' {
        Some(Field::Pressure)
    } else if t.len() == 3 && t[0] == 'Q' && t[1] == '_' && t[2] == 'p' {
        Some(Field::Q_Pressure)
    } else if t.len() == 1 && t[0] == 'u' {
        Some(Field::Humidity)
    } else if t.len() == 3 && t[0] == 'Q' && t[1] == '_' && t[2] == 'u' {
        Some(Field::Q_Humidity)
    } else if t.len() == 2 && t[0] == 's' && t[1] == 'g' {
        Some(Field::GammaRad)
    } else if t.len() == 4 && t[0] == 'Q' && t[1] == '_' && t[2] == 's' && t[3] == 'g' {
        Some(Field::Q_GammaRad)
    } else if t.len() == 2 && t[0] == 's' && t[1] == 'r' {
        Some(Field::SolarRad)
    } else if t.len() == 4 && t[0] == 'Q' && t[1] == '_' && t[2] == 's' && t[3] == 'r' {
        Some(Field::Q_SolarRad)
    } else if t.len() == 3 && t[0] == 's' && t[1] == 'u' && t[2] == 'v' {
        Some(Field::UvRad)
    } else if t.len() == 5 && t[0] == 'Q' && t[1] == '_' && t[2] == 's' && t[3] == 'u' && t[4] == 'v' {
        Some(Field::Q_UvRad)
    } else if t.len() == 2 && t[0] == 'f' && t[1] == 's' {
        Some(Field::WindSpeed)
    } else if t.len() == 4 && t[0] == 'Q' && t[1] == '_' && t[2] == 'f' && t[3] == 's' {
        Some(Field::Q_WindSpeed)
    } else if t.len() == 3 && t[0] == 'f' && t[1] == 's' && t[2] == 'd' {
        Some(Field::WindDir)
    } else if t.len() == 5 && t[0] == 'Q' && t[1] == '_' && t[2] == 'f' && t[3] == 's' && t[4] == 'd' {
        Some(Field::Q_WindDir)
    } else if t.len() == 2 && t[0] == 'f' && t[1] == 'x' {
        Some(Field::GustSpeed)
    } else if t.len() == 4 && t[0] == 'Q' && t[1] == '_' && t[2] == 'f' && t[3] == 'x' {
        Some(Field::Q_GustSpeed)
    } else if t.len() == 3 && t[0] == 'f' && t[1] == 'x' && t[2] == 'd' {
        Some(Field::GustDir)
    } else if t.len() == 5 && t[0] == 'Q' && t[1] == '_' && t[2] == 'f' && t[3] == 'x' && t[4] == 'd' {
        Some(Field::Q_GustDir)
    } else if t.len() == 3 && t[0] == 'f' && t[1] == 'x' && t[2] == 'm' {
        Some(Field::GustMinute)
    } else if t.len() == 5 && t[0] == 'Q' && t[1] == '_' && t[2] == 'f' && t[3] == 'x' && t[4] == 'm' {
        Some(Field::Q_GustMinute)
    } else if t.len() == 3 && t[0] == 'f' && t[1] == 'x' && t[2] == 's' {
        Some(Field::GustSecond)
    } else if t.len() == 5 && t[0] == 'Q' && t[1] == '_' && t[2] == 'f' && t[3] == 'x' && t[4] == 's' {
        Some(Field::Q_GustSecond)
    } else if t.len() == 3 && t[0] == 'e' && t[1] == 't' && t[2] == '5' {
        Some(Field::GroundTemp5)
    } else if t.len() == 5 && t[0] == 'Q' && t[1] == '_' && t[2] == 'e' && t[3] == 't' && t[4] == '5' {
        Some(Field::Q_GroundTemp5)
    } else if t.len() == 4 && t[0] == 'e' && t[1] == 't' && t[2] == '1' && t[3] == '0' {
        Some(Field::GroundTemp10)
    } else if t.len() == 6 && t[0] == 'Q' && t[1] == '_' && t[2] == 'e' && t[3] == 't' && t[4] == '1' && t[5] == '0' {
        Some(Field::Q_GroundTemp10)
    } else if t.len() == 4 && t[0] == 'e' && t[1] == 't' && t[2] == '2' && t[3] == '0' {
        Some(Field::GroundTemp20)
    } else if t.len() == 6 && t[0] == 'Q' && t[1] == '_' && t[2] == 'e' && t[3] == 't' && t[4] == '2' && t[5] == '0' {
        Some(Field::Q_GroundTemp20)
    } else if t.len() == 4 && t[0] == 'e' && t[1] == 't' && t[2] == '5' && t[3] == '0' {
        Some(Field::GroundTemp50)
    } else if t.len() == 6 && t[0] == 'Q' && t[1] == '_' && t[2] == 'e' && t[3] == 't' && t[4] == '5' && t[5] == '0' {
        Some(Field::Q_GroundTemp50)
    } else if t.len() == 5 && t[0] == 'e' && t[1] == 't' && t[2] == '1' && t[3] == '0' && t[4] == '0' {
        Some(Field::GroundTemp100)
    } else if t.len() == 7 && t[0] == 'Q' && t[1] == '_' && t[2] == 'e' && t[3] == 't' && t[4] == '1' && t[5] == '0' && t[6] == '0' {
        Some(Field::Q_GroundTemp100)
    } else if t.len() == 3 && t[0] == 't' && t[1] == 's' && t[2] == 'n' {
        Some(Field::SurfaceTemp)
    } else if t.len() == 5 && t[0] == 'Q' && t[1] == '_' && t[2] == 't' && t[3] == 's' && t[4] == 'n' {
        Some(Field::Q_SurfaceTemp)
    } else if t.len() == 4 && t[0] == 't' && t[1] == 'v' && t[2] == 'i' && t[3] == 'z' {
        Some(Field::WaterTemp)
    } else if t.len() == 6 && t[0] == 'Q' && t[1] == '_' && t[2] == 't' && t[3] == 'v' && t[4] == 'i' && t[5] == 'z' {
        Some(Field::Q_WaterTemp)
    } else if t.len() == 3 && t[0] == 'E' && t[1] == 'O' && t[2] == 'R' {
        Some(Field::EOR)
    } else {
        None
    }
}

proof fn lemma_field_named(f: Field)
    ensures
        field_named(f.spec_title()) == Some(f),
{
    match f {
        Field::Time => {},
        Field::StationNumber => {},
        Field::StationName => {},
        Field::Latitude => {},
        Field::Longitude => {},
        Field::Elevation => {},
        Field::Rain => {},
        Field::Q_Rain => {},
        Field::Temp => {},
        Field::Q_Temp => {},
        Field::TempAvg => {},
        Field::Q_TempAvg => {},
        Field::TempMin => {},
        Field::Q_TempMin => {},
        Field::TempMax => {},
        Field::Q_TempMax => {},
        Field::Visibility => {},
        Field::Q_Visibility => {},
        Field::Pressure => {},
        Field::Q_Pressure => {},
        Field::Humidity => {},
        Field::Q_Humidity => {},
        Field::GammaRad => {},
        Field::Q_GammaRad => {},
        Field::SolarRad => {},
        Field::Q_SolarRad => {},
        Field::UvRad => {},
        Field::Q_UvRad => {},
        Field::WindSpeed => {},
        Field::Q_WindSpeed => {},
        Field::WindDir => {},
        Field::Q_WindDir => {},
        Field::GustSpeed => {},
        Field::Q_GustSpeed => {},
        Field::GustDir => {},
        Field::Q_GustDir => {},
        Field::GustMinute => {},
        Field::Q_GustMinute => {},
        Field::GustSecond => {},
        Field::Q_GustSecond => {},
        Field::GroundTemp5 => {},
        Field::Q_GroundTemp5 => {},
        Field::GroundTemp10 => {},
        Field::Q_GroundTemp10 => {},
        Field::GroundTemp20 => {},
        Field::Q_GroundTemp20 => {},
        Field::GroundTemp50 => {},
        Field::Q_GroundTemp50 => {},
        Field::GroundTemp100 => {},
        Field::Q_GroundTemp100 => {},
        Field::SurfaceTemp => {},
        Field::Q_SurfaceTemp => {},
        Field::WaterTemp => {},
        Field::Q_WaterTemp => {},
        Field::EOR => {},
    }
}

/// A title starts with the quality-flag prefix `Q_` exactly when its field is a quality flag.
pub proof fn lemma_q_prefix(f: Field)
    ensures
        (f.spec_title().len() >= 2 && f.spec_title()[0] == 'Q' && f.spec_title()[1] == '_')
            <==> f.category() == FieldType::Q,
{
}

/// Distinct fields have distinct titles.
pub proof fn lemma_title_injective(f: Field, g: Field)
    requires
        f.spec_title() == g.spec_title(),
    ensures
        f == g,
{
    lemma_field_named(f);
    lemma_field_named(g);
}

proof fn lemma_title_injective_all()
    ensures
        forall|f: Field, g: Field| #[trigger] f.spec_title() == #[trigger] g.spec_title() ==> f == g,
{
    assert forall|f: Field, g: Field| f.spec_title() == g.spec_title() implies f == g by {
        lemma_title_injective(f, g);
    }
}

/// Looking up the title of a field gives that field back.
pub proof fn lemma_title_round_trip(f: Field)
    ensures
        title_lookup(f.spec_title()) == Some(f),
{
    lemma_title_injective_all();
}

} // verus!
