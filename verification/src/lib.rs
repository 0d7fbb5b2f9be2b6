//! Exif (TIFF) metadata parsing with verified byte-level logic.


pub mod bytes;
pub mod error;
pub mod value;
pub mod tag;
pub mod util;
pub mod fmt;
pub mod tiff;
pub mod jpeg;
pub mod mpf;
pub mod isobmff;
pub mod raf;
pub mod mrw;
pub mod x3f;
pub mod png;
pub mod webp;
pub mod subimg;
pub mod crw;

pub use error::{Error, PartialResult};
pub use tag::{Context, Tag};
pub use value::{Rational, SRational, Value};
pub use tiff::{parse_exif, is_tiff, DateTime, Field, In, Parser};

pub mod make_note;
pub mod exifimpl;
pub mod reader;

pub use exifimpl::Exif;
pub use reader::Reader;
pub use make_note::maker_tag::{MakerNoteVendor, MakerTag};
