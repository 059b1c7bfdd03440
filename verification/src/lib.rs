//! Parsing and printing of the identifiers (法令ID) that the Japanese government
//! gives to its laws and ordinances, together with the Japanese era calendar
//! (和暦) that the identifiers are written in.
pub mod text;
pub mod numerals;
pub mod era;
pub mod wareki_text;
pub mod ministry;
pub mod ministries;
pub mod institution;
pub mod law_id;
pub mod round_trip;
pub mod ministry_name;
pub mod convention;

pub use era::{Date, Era, Wareki};
pub use ministry::MinistryContents;
pub use institution::Institution;
pub use law_id::{LawEfficacy, LawId, LawType, Ministry, RippouType};
pub use ministries::{M1Ministry, M2Ministry, M3Ministry, M4Ministry, M5Ministry, M6Ministry};
