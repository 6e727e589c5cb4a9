//! A safe model of a native text-layout subsystem: font collections,
//! font families, fonts and their localized informational strings.
//!
//! The library holds the bookkeeping logic of such a wrapper — capability
//! tier gating, indexed access, external iteration, locale fallback and
//! wide-string marshalling — as verified code over plain values. The
//! platform calls that populate these types live outside the library.

mod error;
mod factory;
mod font;
mod font_collection;
mod font_family;
mod localized_strings;
mod utf16;

pub use error::Error;
pub use factory::{factory_type_code, Factory, FactoryType, FactoryView};
pub use font::{find_table_from, spec_find_table, Font, FontTable, TableView};
pub use font_collection::{FontCollection, FontCollectionIter};
pub use font_family::{font_family_model_code, FontFamily, FontFamilyIter, FontFamilyModel};
pub use localized_strings::{
    find_locale_from, first_match_from, informational_string_code, lemma_find_locale_case_sensitive,
    lemma_find_locale_exact, lemma_find_locale_from, lemma_string_round_trip, locale_outcome,
    spec_find_locale, string_outcome, string_some_outcome, tags_view, InformationalStringId,
    LocalizedRow, LocalizedStrings, RowView,
};
pub use utf16::{
    combined_scalar, decode_utf16_prefix, encode_char, encode_utf16_str, is_high_surrogate,
    is_low_surrogate, is_single_unit, lemma_utf16_encode_injective, lemma_utf16_round_trip,
    marshal_wide, utf16_decode, utf16_encode,
};

use vstd::prelude::*;

verus! {

/// The highest capability tier a factory can report.
pub const MAX_CAPABILITY_TIER: u8 = 3;

} // verus!
