//! Case styles for renaming identifiers: a closed set of named styles, the
//! lookup that turns a written directive into one of them, and the conversion
//! of a token's text into a chosen style.

pub mod casing;
pub mod rename_to_lit_str;
pub mod style;

pub use casing::{convert, convert_optional};
pub use rename_to_lit_str::{Ident, LitStr, RenameToLitStr};
pub use style::{Directive, ParseError, RenameWith};
