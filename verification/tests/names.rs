use html2text_nif::text::same_text;
use html2text_nif::OptionName;

const ALL: [OptionName; 10] = [
    OptionName::Width,
    OptionName::Decorate,
    OptionName::LinkFootnotes,
    OptionName::TableBorders,
    OptionName::PadBlockWidth,
    OptionName::AllowWidthOverflow,
    OptionName::MinWrapWidth,
    OptionName::RawMode,
    OptionName::WrapLinks,
    OptionName::UnicodeStrikeout,
];

#[test]
fn each_name_has_its_text() {
    let texts: Vec<&str> = ALL.iter().map(|name| name.text()).collect();
    assert_eq!(
        texts,
        vec![
            "width",
            "decorate",
            "link_footnotes",
            "table_borders",
            "pad_block_width",
            "allow_width_overflow",
            "min_wrap_width",
            "raw_mode",
            "wrap_links",
            "unicode_strikeout",
        ]
    );
}

#[test]
fn each_text_parses_to_its_name() {
    for name in ALL {
        assert_eq!(OptionName::parse(name.text()), Some(name));
    }
}

#[test]
fn parse_is_an_exact_match() {
    assert_eq!(OptionName::parse("Width"), None);
    assert_eq!(OptionName::parse("width "), None);
    assert_eq!(OptionName::parse(" width"), None);
    assert_eq!(OptionName::parse("widt"), None);
    assert_eq!(OptionName::parse("widths"), None);
    assert_eq!(OptionName::parse(""), None);
    assert_eq!(OptionName::parse("raw"), None);
    assert_eq!(OptionName::parse("colour"), None);
    assert_eq!(OptionName::parse("d\u{e9}corate"), None);
}

#[test]
fn all_but_two_names_are_flags() {
    let flags: Vec<bool> = ALL.iter().map(|name| name.is_flag()).collect();
    assert_eq!(flags, vec![false, true, true, true, true, true, false, true, true, true]);
}

#[test]
fn same_text_compares_by_content() {
    assert!(same_text("", ""));
    assert!(same_text("width", "width"));
    assert!(same_text("\u{e9}t\u{e9}", "\u{e9}t\u{e9}"));
    assert!(!same_text("width", "widtH"));
    assert!(!same_text("width", "widt"));
    assert!(!same_text("widt", "width"));
    assert!(!same_text("", "x"));
    assert!(!same_text("e\u{301}", "\u{e9}"));
}
