pub mod category;
pub mod emit;
pub mod generate;
pub mod lookup;
pub mod parse;
pub mod ranges;
pub mod table;

pub use category::{Category, HumanReadableCategory};
pub use emit::encode_table;
pub use generate::{build_ranges, generate_table};
pub use lookup::{UnicodeCategorizable, lookup_encoded, unicode_category_from_char};
pub use parse::{parse_dataset, parse_line};
pub use ranges::{Range, Record, compress, resolve, resolve_ordered};
