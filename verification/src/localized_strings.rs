//! Localized string tables: ordered (locale tag, string value) rows, with
//! lookup by index, by exact locale tag, and by an ordered list of locale
//! preferences with fallback.
//!
//! Rows hold the wide units the native side supplies; every string-valued
//! accessor follows the length-query / fill / decode discipline of
//! [`crate::utf16::marshal_wide`]. Locale matching is exact and
//! case-sensitive: tags are compared as supplied, with no normalization.

use vstd::prelude::*;

use crate::error::Error;
use crate::utf16::{marshal_wide, encode_utf16_str, utf16_decode, utf16_encode, lemma_utf16_round_trip};

verus! {

/// The closed set of informational string categories a font can carry.
///
/// Each variant stands for one native category code; see
/// [`informational_string_code`] for the mapping, which must stay in
/// lock-step with the native enumeration.
#[derive(Debug, Clone, Copy, PartialEq, Eq, Hash, Structural)]
pub enum InformationalStringId {
    /// The native "no category" value.
    Unspecified,
    CopyrightNotice,
    VersionStrings,
    Trademark,
    Manufacturer,
    Designer,
    DesignerUrl,
    Description,
    FontVendorUrl,
    LicenseDescription,
    LicenseInfoUrl,
    Win32FamilyNames,
    Win32SubfamilyNames,
    TypographicFamilyNames,
    TypographicSubfamilyNames,
    SampleText,
    FullName,
    PostscriptName,
    PostscriptCidName,
    WeightStretchStyleFamilyName,
    DesignScriptLanguageTag,
    SupportedScriptLanguageTag,
    /// Historical alias of [`InformationalStringId::TypographicFamilyNames`];
    /// shares its native code.
    PreferredFamilyNames,
    /// Historical alias of
    /// [`InformationalStringId::TypographicSubfamilyNames`]; shares its
    /// native code.
    PreferredSubfamilyNames,
    /// Historical alias of
    /// [`InformationalStringId::WeightStretchStyleFamilyName`]; shares its
    /// native code.
    WwsFamilyName,
}

/// The native category code of each informational string kind.
pub open spec fn informational_string_code(id: InformationalStringId) -> i32 {
    match id {
        InformationalStringId::Unspecified => 0,
        InformationalStringId::CopyrightNotice => 1,
        InformationalStringId::VersionStrings => 2,
        InformationalStringId::Trademark => 3,
        InformationalStringId::Manufacturer => 4,
        InformationalStringId::Designer => 5,
        InformationalStringId::DesignerUrl => 6,
        InformationalStringId::Description => 7,
        InformationalStringId::FontVendorUrl => 8,
        InformationalStringId::LicenseDescription => 9,
        InformationalStringId::LicenseInfoUrl => 10,
        InformationalStringId::Win32FamilyNames => 11,
        InformationalStringId::Win32SubfamilyNames => 12,
        InformationalStringId::TypographicFamilyNames => 13,
        InformationalStringId::TypographicSubfamilyNames => 14,
        InformationalStringId::SampleText => 15,
        InformationalStringId::FullName => 16,
        InformationalStringId::PostscriptName => 17,
        InformationalStringId::PostscriptCidName => 18,
        InformationalStringId::WeightStretchStyleFamilyName => 19,
        InformationalStringId::DesignScriptLanguageTag => 20,
        InformationalStringId::SupportedScriptLanguageTag => 21,
        InformationalStringId::PreferredFamilyNames => 13,
        InformationalStringId::PreferredSubfamilyNames => 14,
        InformationalStringId::WwsFamilyName => 19,
    }
}

impl InformationalStringId {
    /// The numeric code the native enumeration assigns to this category.
    pub fn native_code(self) -> (r: i32)
        ensures
            r == informational_string_code(self),
    {
        match self {
            InformationalStringId::Unspecified => 0,
            InformationalStringId::CopyrightNotice => 1,
            InformationalStringId::VersionStrings => 2,
            InformationalStringId::Trademark => 3,
            InformationalStringId::Manufacturer => 4,
            InformationalStringId::Designer => 5,
            InformationalStringId::DesignerUrl => 6,
            InformationalStringId::Description => 7,
            InformationalStringId::FontVendorUrl => 8,
            InformationalStringId::LicenseDescription => 9,
            InformationalStringId::LicenseInfoUrl => 10,
            InformationalStringId::Win32FamilyNames => 11,
            InformationalStringId::Win32SubfamilyNames => 12,
            InformationalStringId::TypographicFamilyNames => 13,
            InformationalStringId::TypographicSubfamilyNames => 14,
            InformationalStringId::SampleText => 15,
            InformationalStringId::FullName => 16,
            InformationalStringId::PostscriptName => 17,
            InformationalStringId::PostscriptCidName => 18,
            InformationalStringId::WeightStretchStyleFamilyName => 19,
            InformationalStringId::DesignScriptLanguageTag => 20,
            InformationalStringId::SupportedScriptLanguageTag => 21,
            InformationalStringId::PreferredFamilyNames => 13,
            InformationalStringId::PreferredSubfamilyNames => 14,
            InformationalStringId::WwsFamilyName => 19,
        }
    }
}

/// One row of a localized string table: a locale tag and a string value,
/// both as the wide units the native side reported.
pub struct LocalizedRow {
    pub locale: Vec<u16>,
    pub value: Vec<u16>,
}

/// The mathematical content of one row.
pub struct RowView {
    pub locale: Seq<u16>,
    pub value: Seq<u16>,
}

impl View for LocalizedRow {
    type V = RowView;

    open spec fn view(&self) -> RowView {
        RowView { locale: self.locale@, value: self.value@ }
    }
}

/// An ordered table of (locale tag, string value) rows.
pub struct LocalizedStrings {
    rows: Vec<LocalizedRow>,
}

impl View for LocalizedStrings {
    type V = Seq<RowView>;

    closed spec fn view(&self) -> Seq<RowView> {
        Seq::new(self.rows@.len(), |i: int| self.rows@[i]@)
    }
}

/// The outcome owed by a string-valued accessor for the value units of row
/// `i`: the decoded string, or the index or decode failure.
pub open spec fn string_outcome(rows: Seq<RowView>, i: int, r: Result<String, Error>) -> bool {
    if !(0 <= i < rows.len()) {
        r == Err::<String, Error>(Error::Index)
    } else {
        match utf16_decode(rows[i].value) {
            Some(cs) => r matches Ok(s) && s@ == cs,
            None => r == Err::<String, Error>(Error::Decode),
        }
    }
}

/// The outcome owed by a locale-valued accessor for the locale units of row
/// `i`.
pub open spec fn locale_outcome(rows: Seq<RowView>, i: int, r: Result<String, Error>) -> bool {
    if !(0 <= i < rows.len()) {
        r == Err::<String, Error>(Error::Index)
    } else {
        match utf16_decode(rows[i].locale) {
            Some(cs) => r matches Ok(s) && s@ == cs,
            None => r == Err::<String, Error>(Error::Decode),
        }
    }
}

/// The outcome owed by an optional-string accessor that resolved to row `i`:
/// the decoded value wrapped in `Some`, or the index or decode failure.
pub open spec fn string_some_outcome(
    rows: Seq<RowView>,
    i: int,
    r: Result<Option<String>, Error>,
) -> bool {
    if !(0 <= i < rows.len()) {
        r == Err::<Option<String>, Error>(Error::Index)
    } else {
        match utf16_decode(rows[i].value) {
            Some(cs) => r matches Ok(op) && op matches Some(s) && s@ == cs,
            None => r == Err::<Option<String>, Error>(Error::Decode),
        }
    }
}

/// The first row at or after `i` whose locale units are exactly `tag_units`.
pub open spec fn find_locale_from(rows: Seq<RowView>, tag_units: Seq<u16>, i: int) -> Option<int>
    decreases rows.len() - i,
{
    if i < 0 || i >= rows.len() {
        None
    } else if rows[i].locale == tag_units {
        Some(i)
    } else {
        find_locale_from(rows, tag_units, i + 1)
    }
}

/// The first row whose locale tag is exactly `tag`, compared case-sensitively.
pub open spec fn spec_find_locale(rows: Seq<RowView>, tag: Seq<char>) -> Option<int> {
    find_locale_from(rows, utf16_encode(tag), 0)
}

/// What [`find_locale_from`] returns: the found row matches and no earlier
/// row at or after the start does; a miss means no row matches at all.
pub proof fn lemma_find_locale_from(rows: Seq<RowView>, tag_units: Seq<u16>, i: int)
    requires
        0 <= i,
    ensures
        match find_locale_from(rows, tag_units, i) {
            Some(j) => i <= j < rows.len() && rows[j].locale == tag_units && (forall|k: int|
                i <= k < j ==> (#[trigger] rows[k]).locale != tag_units),
            None => forall|k: int|
                i <= k < rows.len() ==> (#[trigger] rows[k]).locale != tag_units,
        },
    decreases rows.len() - i,
{
    if i < 0 || i >= rows.len() {
    } else if rows[i].locale == tag_units {
    } else {
        lemma_find_locale_from(rows, tag_units, i + 1);
    }
}

/// The views of an ordered list of locale tags.
pub open spec fn tags_view(locales: Seq<&str>) -> Seq<Seq<char>> {
    Seq::new(locales.len(), |i: int| locales[i]@)
}

/// The row resolved by trying each tag of `tags`, from `k` on, in order:
/// the row found for the first tag that matches any row.
pub open spec fn first_match_from(rows: Seq<RowView>, tags: Seq<Seq<char>>, k: int) -> Option<int>
    decreases tags.len() - k,
{
    if k < 0 || k >= tags.len() {
        None
    } else {
        match spec_find_locale(rows, tags[k]) {
            Some(i) => Some(i),
            None => first_match_from(rows, tags, k + 1),
        }
    }
}

/// Compares two wide unit buffers for exact equality.
fn wide_eq(a: &Vec<u16>, b: &Vec<u16>) -> (r: bool)
    ensures
        r == (a@ == b@),
{
    if a.len() != b.len() {
        return false;
    }
    let n = a.len();
    let mut i: usize = 0;
    while i < n
        invariant
            i <= n,
            n == a@.len() == b@.len(),
            forall|k: int| 0 <= k < i ==> a@[k] == b@[k],
        decreases n - i,
    {
        if a[i] != b[i] {
            return false;
        }
        i += 1;
    }
    proof {
        assert(a@ =~= b@);
    }
    true
}

impl LocalizedStrings {
    /// A table over the given rows, in order.
    pub fn new(rows: Vec<LocalizedRow>) -> (r: LocalizedStrings)
        ensures
            r@.len() == rows@.len(),
            forall|i: int| 0 <= i < rows@.len() ==> r@[i] == rows@[i]@,
    {
        LocalizedStrings { rows }
    }

    /// A table whose rows hold the wide encodings of the given
    /// (locale tag, string value) pairs, in order.
    pub fn from_pairs(pairs: &Vec<(String, String)>) -> (r: LocalizedStrings)
        ensures
            r@.len() == pairs@.len(),
            forall|i: int| 0 <= i < pairs@.len() ==> #[trigger] r@[i] == (RowView {
                locale: utf16_encode(pairs@[i].0@),
                value: utf16_encode(pairs@[i].1@),
            }),
    {
        let n = pairs.len();
        let mut rows: Vec<LocalizedRow> = Vec::new();
        let mut i: usize = 0;
        while i < n
            invariant
                i <= n,
                n == pairs@.len(),
                rows@.len() == i,
                forall|k: int| 0 <= k < i ==> #[trigger] rows@[k]@ == (RowView {
                    locale: utf16_encode(pairs@[k].0@),
                    value: utf16_encode(pairs@[k].1@),
                }),
            decreases n - i,
        {
            let pair = &pairs[i];
            let locale = encode_utf16_str(pair.0.as_str());
            let value = encode_utf16_str(pair.1.as_str());
            rows.push(LocalizedRow { locale, value });
            i += 1;
        }
        LocalizedStrings::new(rows)
    }

    /// How many rows the table holds.
    pub fn get_count(&self) -> (r: usize)
        ensures
            r == self@.len(),
    {
        self.rows.len()
    }

    /// The string value of the given row, marshalled from its wide units.
    pub fn get_string(&self, index: usize) -> (r: Result<String, Error>)
        ensures
            string_outcome(self@, index as int, r),
    {
        if index >= self.rows.len() {
            return Err(Error::Index);
        }
        let row = &self.rows[index];
        proof {
            assert(self@[index as int] == self.rows@[index as int]@);
        }
        marshal_wide(&row.value)
    }

    /// The locale tag of the given row, marshalled from its wide units.
    pub fn get_locale_name(&self, index: usize) -> (r: Result<String, Error>)
        ensures
            locale_outcome(self@, index as int, r),
    {
        if index >= self.rows.len() {
            return Err(Error::Index);
        }
        let row = &self.rows[index];
        proof {
            assert(self@[index as int] == self.rows@[index as int]@);
        }
        marshal_wide(&row.locale)
    }

    /// The first row whose locale tag equals `locale` exactly.
    ///
    /// The comparison is case-sensitive, as supplied: no normalization is
    /// performed, so a caller wanting case-insensitive matching must
    /// pre-normalize both sides.
    pub fn find_locale_name(&self, locale: &str) -> (r: Option<usize>)
        ensures
            match r {
                Some(i) => spec_find_locale(self@, locale@) == Some(i as int),
                None => spec_find_locale(self@, locale@) is None,
            },
    {
        let needle = encode_utf16_str(locale);
        let n = self.rows.len();
        let mut i: usize = 0;
        while i < n
            invariant
                i <= n,
                n == self@.len(),
                needle@ == utf16_encode(locale@),
                self@.len() == self.rows@.len(),
                forall|k: int| 0 <= k < self@.len() ==> #[trigger] self@[k] == self.rows@[k]@,
                find_locale_from(self@, needle@, 0) == find_locale_from(self@, needle@, i as int),
            decreases n - i,
        {
            if wide_eq(&self.rows[i].locale, &needle) {
                proof {
                    assert(self@[i as int].locale == needle@);
                    assert(find_locale_from(self@, needle@, i as int) == Some(i as int));
                }
                return Some(i);
            }
            proof {
                assert(self@[i as int].locale != needle@);
                assert(find_locale_from(self@, needle@, i as int) == find_locale_from(
                    self@,
                    needle@,
                    i + 1,
                ));
            }
            i += 1;
        }
        proof {
            assert(find_locale_from(self@, needle@, i as int) is None);
        }
        None
    }

    /// The string value of the first row whose locale tag equals `locale`
    /// exactly, or nothing when no row matches.
    pub fn get_string_by_locale(&self, locale: &str) -> (r: Result<Option<String>, Error>)
        ensures
            match spec_find_locale(self@, locale@) {
                Some(i) => string_some_outcome(self@, i, r),
                None => r == Ok::<Option<String>, Error>(None),
            },
    {
        proof {
            lemma_find_locale_from(self@, utf16_encode(locale@), 0);
        }
        match self.find_locale_name(locale) {
            Some(index) => match self.get_string(index) {
                Ok(s) => Ok(Some(s)),
                Err(e) => Err(e),
            },
            None => Ok(None),
        }
    }

    /// The string value for the first tag of `locales` that matches a row;
    /// when none matches, whatever the fallback returns, or nothing without
    /// one.
    pub fn get_string_by_locales_with_fallback<F: FnOnce() -> Result<Option<String>, Error>>(
        &self,
        locales: &[&str],
        fallback: Option<F>,
    ) -> (r: Result<Option<String>, Error>)
        requires
            (match fallback {
                Some(f) => call_requires(f, ()),
                None => true,
            }),
        ensures
            (match first_match_from(self@, tags_view(locales@), 0) {
                Some(i) => string_some_outcome(self@, i, r),
                None => match fallback {
                    Some(f) => call_ensures(f, (), r),
                    None => r == Ok::<Option<String>, Error>(None),
                },
            }),
    {
        let ghost tags = tags_view(locales@);
        let n = locales.len();
        let mut k: usize = 0;
        while k < n
            invariant
                k <= n,
                n == locales@.len(),
                tags == tags_view(locales@),
                first_match_from(self@, tags, 0) == first_match_from(self@, tags, k as int),
                (match fallback {
                    Some(f) => call_requires(f, ()),
                    None => true,
                }),
            decreases n - k,
        {
            let tag = locales[k];
            proof {
                assert(tags[k as int] == locales@[k as int]@);
            }
            match self.get_string_by_locale(tag) {
                Ok(Some(s)) => {
                    proof {
                        assert(first_match_from(self@, tags, k as int) == spec_find_locale(
                            self@,
                            tags[k as int],
                        ));
                    }
                    return Ok(Some(s));
                },
                Ok(None) => {
                    proof {
                        assert(first_match_from(self@, tags, k as int) == first_match_from(
                            self@,
                            tags,
                            k + 1,
                        ));
                    }
                },
                Err(e) => {
                    proof {
                        assert(first_match_from(self@, tags, k as int) == spec_find_locale(
                            self@,
                            tags[k as int],
                        ));
                    }
                    return Err(e);
                },
            }
            k += 1;
        }
        match fallback {
            Some(f) => f(),
            None => Ok(None),
        }
    }

    /// The string value for the first tag of `locales` that matches a row,
    /// defaulting to the value of row 0 — the table's natural locale —
    /// when none matches.
    pub fn get_string_by_locales(&self, locales: &[&str]) -> (r: Result<Option<String>, Error>)
        ensures
            (match first_match_from(self@, tags_view(locales@), 0) {
                Some(i) => string_some_outcome(self@, i, r),
                None => string_some_outcome(self@, 0, r),
            }),
    {
        let fallback = || -> (r: Result<Option<String>, Error>)
            ensures
                string_some_outcome(self@, 0, r),
            {
                match self.get_string(0) {
                    Ok(s) => Ok(Some(s)),
                    Err(e) => Err(e),
                }
            };
        self.get_string_by_locales_with_fallback(locales, Some(fallback))
    }
}

/// Round trip through a table: a row whose value units are the wide
/// encoding of a character sequence — as [`LocalizedStrings::from_pairs`]
/// populates them — is read back by [`LocalizedStrings::get_string`] as
/// exactly that sequence, with no embedded terminator.
pub proof fn lemma_string_round_trip(
    rows: Seq<RowView>,
    i: int,
    s: Seq<char>,
    r: Result<String, Error>,
)
    requires
        0 <= i < rows.len(),
        rows[i].value == utf16_encode(s),
        string_outcome(rows, i, r),
    ensures
        r matches Ok(out) && out@ == s,
{
    lemma_utf16_round_trip(s);
}

/// A matched locale row carries exactly the queried tag: when
/// [`spec_find_locale`] resolves `tag` to row `i`, the row's locale units
/// decode to `tag` itself — never to a differently-cased variant.
pub proof fn lemma_find_locale_exact(rows: Seq<RowView>, tag: Seq<char>, i: int)
    requires
        spec_find_locale(rows, tag) == Some(i),
    ensures
        0 <= i < rows.len(),
        utf16_decode(rows[i].locale) == Some(tag),
        forall|k: int| 0 <= k < i ==> rows[k].locale != utf16_encode(tag),
{
    lemma_find_locale_from(rows, utf16_encode(tag), 0);
    lemma_utf16_round_trip(tag);
}

/// Case sensitivity of locale lookup: rows whose tags decode to anything
/// other than `tag` — for instance a differently-cased spelling — are never
/// matched by [`spec_find_locale`] for `tag`.
pub proof fn lemma_find_locale_case_sensitive(rows: Seq<RowView>, tag: Seq<char>, other: Seq<char>)
    requires
        other != tag,
        forall|k: int| 0 <= k < rows.len() ==> #[trigger] rows[k].locale == utf16_encode(other),
    ensures
        spec_find_locale(rows, tag) is None,
{
    lemma_find_locale_from(rows, utf16_encode(tag), 0);
    match spec_find_locale(rows, tag) {
        Some(i) => {
            lemma_utf16_round_trip(tag);
            lemma_utf16_round_trip(other);
            assert(rows[i].locale == utf16_encode(tag));
            assert(rows[i].locale == utf16_encode(other));
            assert(false);
        },
        None => {},
    }
}

} // verus!
