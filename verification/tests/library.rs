use fontsys::{
    encode_utf16_str, Error, Factory, FactoryType, Font, FontCollection, FontFamily,
    FontFamilyModel, FontTable, InformationalStringId, LocalizedRow, LocalizedStrings,
};

fn table(rows: &[(&str, &str)]) -> LocalizedStrings {
    let pairs: Vec<(String, String)> = rows
        .iter()
        .map(|(locale, value)| (locale.to_string(), value.to_string()))
        .collect();
    LocalizedStrings::from_pairs(&pairs)
}

fn full_name_font(names: &[(&str, &str)]) -> Font {
    Font::new(vec![FontTable { id: InformationalStringId::FullName, strings: table(names) }])
}

fn no_fallback() -> Option<fn() -> Result<Option<String>, Error>> {
    None
}

#[test]
fn informational_string_codes_lock_step() {
    let expected: [(InformationalStringId, i32); 25] = [
        (InformationalStringId::Unspecified, 0),
        (InformationalStringId::CopyrightNotice, 1),
        (InformationalStringId::VersionStrings, 2),
        (InformationalStringId::Trademark, 3),
        (InformationalStringId::Manufacturer, 4),
        (InformationalStringId::Designer, 5),
        (InformationalStringId::DesignerUrl, 6),
        (InformationalStringId::Description, 7),
        (InformationalStringId::FontVendorUrl, 8),
        (InformationalStringId::LicenseDescription, 9),
        (InformationalStringId::LicenseInfoUrl, 10),
        (InformationalStringId::Win32FamilyNames, 11),
        (InformationalStringId::Win32SubfamilyNames, 12),
        (InformationalStringId::TypographicFamilyNames, 13),
        (InformationalStringId::TypographicSubfamilyNames, 14),
        (InformationalStringId::SampleText, 15),
        (InformationalStringId::FullName, 16),
        (InformationalStringId::PostscriptName, 17),
        (InformationalStringId::PostscriptCidName, 18),
        (InformationalStringId::WeightStretchStyleFamilyName, 19),
        (InformationalStringId::DesignScriptLanguageTag, 20),
        (InformationalStringId::SupportedScriptLanguageTag, 21),
        (InformationalStringId::PreferredFamilyNames, 13),
        (InformationalStringId::PreferredSubfamilyNames, 14),
        (InformationalStringId::WwsFamilyName, 19),
    ];
    for (id, code) in expected {
        assert_eq!(id.native_code(), code);
    }
}

#[test]
fn factory_and_family_model_codes() {
    assert_eq!(FactoryType::Shared.native_code(), 0);
    assert_eq!(FactoryType::Isolated.native_code(), 1);
    assert_eq!(FontFamilyModel::Typographic.native_code(), 0);
    assert_eq!(FontFamilyModel::WeightStretchStyle.native_code(), 1);
}

#[test]
fn find_locale_is_case_sensitive() {
    let t = table(&[("en-US", "Example")]);
    assert_eq!(t.find_locale_name("en-us"), None);
    assert_eq!(t.find_locale_name("EN-US"), None);
    assert_eq!(t.find_locale_name("en-US"), Some(0));
}

#[test]
fn find_locale_returns_first_match() {
    let t = table(&[("en-US", "first"), ("ja-JP", "second"), ("en-US", "third")]);
    assert_eq!(t.find_locale_name("en-US"), Some(0));
    assert_eq!(t.find_locale_name("ja-JP"), Some(1));
    assert_eq!(t.find_locale_name("de-DE"), None);
}

#[test]
fn find_locale_on_empty_table() {
    let t = table(&[]);
    assert_eq!(t.get_count(), 0);
    assert_eq!(t.find_locale_name("en-US"), None);
}

#[test]
fn string_for_locales_case_mismatch_falls_back_to_row_zero() {
    let t = table(&[("en-US", "Example"), ("ja-JP", "\u{4F8B}")]);
    let r = t.get_string_by_locales(&["ja-jp", "en-us"]);
    assert_eq!(r.unwrap(), Some("Example".to_string()));
}

#[test]
fn string_for_locales_prefers_first_matching_tag() {
    let t = table(&[("en-US", "Example"), ("ja-JP", "\u{4F8B}")]);
    let r = t.get_string_by_locales(&["ja-JP", "en-US"]);
    assert_eq!(r.unwrap(), Some("\u{4F8B}".to_string()));
    let r = t.get_string_by_locales(&["de-DE", "en-US"]);
    assert_eq!(r.unwrap(), Some("Example".to_string()));
}

#[test]
fn string_for_locales_on_empty_table_reports_index_error() {
    let t = table(&[]);
    assert_eq!(t.get_string_by_locales(&["en-US"]), Err(Error::Index));
}

#[test]
fn with_fallback_none_returns_none() {
    let t = table(&[("en-US", "Example")]);
    let r = t.get_string_by_locales_with_fallback(&["ja-JP", "de-DE"], no_fallback());
    assert_eq!(r.unwrap(), None);
}

#[test]
fn with_fallback_closure_runs_only_on_miss() {
    let t = table(&[("en-US", "Example")]);
    let r = t.get_string_by_locales_with_fallback(
        &["ja-JP"],
        Some(|| Ok(Some("default".to_string()))),
    );
    assert_eq!(r.unwrap(), Some("default".to_string()));
    let r = t.get_string_by_locales_with_fallback(
        &["en-US"],
        Some(|| Ok(Some("default".to_string()))),
    );
    assert_eq!(r.unwrap(), Some("Example".to_string()));
}

#[test]
fn string_round_trips_through_wide_units() {
    let t = table(&[("en-US", "Test\u{2122}Name")]);
    let s = t.get_string(0).unwrap();
    assert_eq!(s, "Test\u{2122}Name");
    assert_eq!(s.chars().count(), 9);
    assert!(!s.contains('\u{0}'));
}

#[test]
fn string_round_trips_surrogate_pairs() {
    let units = encode_utf16_str("\u{1D11E}clef");
    assert_eq!(units[0], 0xD834);
    assert_eq!(units[1], 0xDD1E);
    assert_eq!(units.len(), 6);
    let t = table(&[("en-US", "\u{1D11E}clef")]);
    assert_eq!(t.get_string(0).unwrap(), "\u{1D11E}clef");
}

#[test]
fn locale_name_round_trips() {
    let t = table(&[("en-US", "Example"), ("ja-JP", "\u{4F8B}")]);
    assert_eq!(t.get_locale_name(0).unwrap(), "en-US");
    assert_eq!(t.get_locale_name(1).unwrap(), "ja-JP");
}

#[test]
fn table_indexing_out_of_range_is_an_index_error() {
    let t = table(&[("en-US", "Example")]);
    assert_eq!(t.get_count(), 1);
    assert_eq!(t.get_string(1), Err(Error::Index));
    assert_eq!(t.get_locale_name(1), Err(Error::Index));
    let empty = table(&[]);
    assert_eq!(empty.get_string(0), Err(Error::Index));
    assert_eq!(empty.get_locale_name(0), Err(Error::Index));
}

#[test]
fn ill_formed_units_are_a_decode_error() {
    let lone_high = LocalizedStrings::new(vec![LocalizedRow {
        locale: encode_utf16_str("en-US"),
        value: vec![0xD800],
    }]);
    assert_eq!(lone_high.get_string(0), Err(Error::Decode));
    let lone_low = LocalizedStrings::new(vec![LocalizedRow {
        locale: encode_utf16_str("en-US"),
        value: vec![0x0041, 0xDC00],
    }]);
    assert_eq!(lone_low.get_string(0), Err(Error::Decode));
    let reversed = LocalizedStrings::new(vec![LocalizedRow {
        locale: vec![0xDD1E, 0xD834],
        value: encode_utf16_str("ok"),
    }]);
    assert_eq!(reversed.get_locale_name(0), Err(Error::Decode));
    assert_eq!(reversed.get_string(0).unwrap(), "ok");
}

#[test]
fn string_by_locale_exact_match_only() {
    let t = table(&[("en-US", "Example"), ("ja-JP", "\u{4F8B}")]);
    assert_eq!(t.get_string_by_locale("ja-JP").unwrap(), Some("\u{4F8B}".to_string()));
    assert_eq!(t.get_string_by_locale("ja-jp").unwrap(), None);
}

#[test]
fn capability_tiers_are_gated() {
    let f = Factory::new(FactoryType::Isolated, 1, FontCollection::new(Vec::new())).unwrap();
    assert_eq!(f.factory_type(), FactoryType::Isolated);
    assert_eq!(f.supported_tier(), 1);
    assert!(f.supports_tier(0));
    assert!(f.supports_tier(1));
    assert!(!f.supports_tier(2));
    assert!(f.get_system_font_collection(true).is_ok());
    assert!(f.get_system_font_collection1(false, true).is_ok());
    assert!(matches!(
        f.get_system_font_collection2(false, FontFamilyModel::Typographic),
        Err(Error::UnsupportedCapability)
    ));
    assert!(matches!(
        f.get_system_font_collection3(true, FontFamilyModel::WeightStretchStyle),
        Err(Error::UnsupportedCapability)
    ));
}

#[test]
fn top_tier_factory_answers_every_query() {
    let family = FontFamily::new(vec![full_name_font(&[("en-US", "Alpha Regular")])]);
    let f = Factory::new(FactoryType::Shared, 3, FontCollection::new(vec![family])).unwrap();
    let c = f.get_system_font_collection3(false, FontFamilyModel::Typographic).unwrap();
    assert_eq!(c.get_font_family_count(), 1);
    let c = f.get_system_font_collection2(false, FontFamilyModel::WeightStretchStyle).unwrap();
    assert_eq!(c.get_font_family_count(), 1);
}

#[test]
fn factory_rejects_unknown_tier() {
    assert!(matches!(
        Factory::new(FactoryType::Shared, 4, FontCollection::new(Vec::new())),
        Err(Error::Creation)
    ));
}

#[test]
fn empty_collection_yields_nothing() {
    let c = FontCollection::new(Vec::new());
    assert_eq!(c.get_font_family_count(), 0);
    assert!(matches!(c.get_font_family(0), Err(Error::Index)));
    assert!(c.families().is_empty());
    let mut it = c.iter();
    assert_eq!(it.len(), 0);
    assert!(it.next().is_none());
    assert!(it.next().is_none());
}

#[test]
fn collection_iteration_matches_indexed_access() {
    let families = vec![
        FontFamily::new(Vec::new()),
        FontFamily::new(vec![full_name_font(&[("en-US", "Beta Bold")])]),
        FontFamily::new(vec![
            full_name_font(&[("en-US", "Gamma Light")]),
            full_name_font(&[("en-US", "Gamma Heavy")]),
        ]),
    ];
    let c = FontCollection::new(families);
    assert_eq!(c.get_font_family_count(), 3);

    let collected = c.families();
    assert_eq!(collected.len(), 3);
    for (i, family) in collected.iter().enumerate() {
        let direct = c.get_font_family(i).unwrap();
        assert_eq!(family.get_font_count(), i);
        assert_eq!(direct.get_font_count(), i);
    }

    let mut it = c.iter();
    assert_eq!(it.len(), 3);
    assert_eq!(it.next().unwrap().get_font_count(), 0);
    assert_eq!(it.len(), 2);
    assert_eq!(it.next().unwrap().get_font_count(), 1);
    assert_eq!(it.next().unwrap().get_font_count(), 2);
    assert_eq!(it.len(), 0);
    assert!(it.next().is_none());
}

#[test]
fn iteration_cursors_are_independent() {
    let c = FontCollection::new(vec![
        FontFamily::new(Vec::new()),
        FontFamily::new(vec![full_name_font(&[("en-US", "Solo")])]),
    ]);
    let mut a = c.iter();
    let mut b = c.iter();
    assert_eq!(a.next().unwrap().get_font_count(), 0);
    assert_eq!(a.next().unwrap().get_font_count(), 1);
    assert_eq!(b.next().unwrap().get_font_count(), 0);
    assert!(a.next().is_none());
    assert_eq!(b.next().unwrap().get_font_count(), 1);
}

#[test]
fn family_indexing_is_stable_and_bounded() {
    let family = FontFamily::new(vec![
        full_name_font(&[("en-US", "Delta Regular")]),
        full_name_font(&[("en-US", "Delta Italic")]),
    ]);
    assert_eq!(family.get_font_count(), 2);
    for _ in 0..2 {
        let font = family.get_font(1).unwrap();
        let strings = font.get_informational_strings(InformationalStringId::FullName).unwrap();
        assert_eq!(strings.get_string(0).unwrap(), "Delta Italic");
    }
    assert!(matches!(family.get_font(2), Err(Error::Index)));

    let fonts = family.fonts();
    assert_eq!(fonts.len(), 2);
    let first = fonts[0].get_informational_strings(InformationalStringId::FullName).unwrap();
    assert_eq!(first.get_string(0).unwrap(), "Delta Regular");

    let mut it = family.iter();
    assert_eq!(it.len(), 2);
    assert!(it.next().is_some());
    assert!(it.next().is_some());
    assert!(it.next().is_none());
}

#[test]
fn informational_strings_absent_kind_is_none() {
    let font = full_name_font(&[("en-US", "Epsilon")]);
    assert!(font.get_informational_strings(InformationalStringId::FullName).is_some());
    assert!(font.get_informational_strings(InformationalStringId::CopyrightNotice).is_none());
    let empty = Font::new(Vec::new());
    assert!(empty.get_informational_strings(InformationalStringId::FullName).is_none());
}

#[test]
fn informational_strings_first_table_wins() {
    let font = Font::new(vec![
        FontTable { id: InformationalStringId::Trademark, strings: table(&[("en-US", "first")]) },
        FontTable { id: InformationalStringId::Trademark, strings: table(&[("en-US", "second")]) },
    ]);
    let strings = font.get_informational_strings(InformationalStringId::Trademark).unwrap();
    assert_eq!(strings.get_string(0).unwrap(), "first");
}

#[test]
fn error_values_compare_by_variant_and_code() {
    assert_eq!(Error::NativeCall(-2147467259), Error::NativeCall(-2147467259));
    assert_ne!(Error::NativeCall(-2147467259), Error::NativeCall(0));
    assert_ne!(Error::Creation, Error::UnsupportedCapability);
    assert_ne!(Error::Index, Error::Decode);
}

#[test]
fn example_flow_resolves_full_names() {
    let families = vec![
        FontFamily::new(vec![
            full_name_font(&[("en-US", "Zeta Regular"), ("ja-JP", "\u{30BC}\u{30FC}\u{30BF}")]),
            full_name_font(&[("en-US", "Zeta Bold")]),
        ]),
    ];
    let factory = Factory::new(FactoryType::Isolated, 0, FontCollection::new(families)).unwrap();
    let collection = factory.get_system_font_collection(true).unwrap();
    let mut names: Vec<String> = Vec::new();
    for family in collection.families() {
        for font in family.fonts() {
            if let Some(strings) =
                font.get_informational_strings(InformationalStringId::FullName)
            {
                if let Some(name) = strings.get_string_by_locales(&["ja-JP", "en-US"]).unwrap() {
                    names.push(name);
                }
            }
        }
    }
    assert_eq!(names, vec!["\u{30BC}\u{30FC}\u{30BF}".to_string(), "Zeta Bold".to_string()]);
}
