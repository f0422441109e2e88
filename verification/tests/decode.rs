use html2text_nif::{OptionEntry, OptionName, OptionValue, RenderConfig, Width, UNBOUNDED_WIDTH};

fn entry(name: &str, value: OptionValue) -> OptionEntry {
    OptionEntry::new(name.to_string(), value)
}

fn defaults() -> RenderConfig {
    RenderConfig {
        width: 80,
        decorate: true,
        link_footnotes: true,
        table_borders: true,
        pad_block_width: false,
        allow_width_overflow: false,
        min_wrap_width: 3,
        raw_mode: false,
        wrap_links: true,
        unicode_strikeout: true,
    }
}

#[test]
fn default_config_has_the_documented_values() {
    assert_eq!(RenderConfig::default(), defaults());
}

#[test]
fn empty_list_decodes_to_the_defaults() {
    assert_eq!(RenderConfig::decode(&[]), defaults());
}

#[test]
fn restated_defaults_decode_to_the_defaults() {
    let options = vec![
        entry("width", OptionValue::Integer(80)),
        entry("decorate", OptionValue::Boolean(true)),
        entry("link_footnotes", OptionValue::Boolean(true)),
        entry("table_borders", OptionValue::Boolean(true)),
        entry("pad_block_width", OptionValue::Boolean(false)),
        entry("allow_width_overflow", OptionValue::Boolean(false)),
        entry("min_wrap_width", OptionValue::Integer(3)),
        entry("raw_mode", OptionValue::Boolean(false)),
        entry("wrap_links", OptionValue::Boolean(true)),
        entry("unicode_strikeout", OptionValue::Boolean(true)),
    ];
    assert_eq!(RenderConfig::decode(&options), RenderConfig::decode(&[]));
}

#[test]
fn every_option_can_be_changed() {
    let options = vec![
        entry("width", OptionValue::Integer(120)),
        entry("decorate", OptionValue::Boolean(false)),
        entry("link_footnotes", OptionValue::Boolean(false)),
        entry("table_borders", OptionValue::Boolean(false)),
        entry("pad_block_width", OptionValue::Boolean(true)),
        entry("allow_width_overflow", OptionValue::Boolean(true)),
        entry("min_wrap_width", OptionValue::Integer(10)),
        entry("raw_mode", OptionValue::Boolean(true)),
        entry("wrap_links", OptionValue::Boolean(false)),
        entry("unicode_strikeout", OptionValue::Boolean(false)),
    ];
    let expected = RenderConfig {
        width: 120,
        decorate: false,
        link_footnotes: false,
        table_borders: false,
        pad_block_width: true,
        allow_width_overflow: true,
        min_wrap_width: 10,
        raw_mode: true,
        wrap_links: false,
        unicode_strikeout: false,
    };
    assert_eq!(RenderConfig::decode(&options), expected);
}

#[test]
fn one_option_changes_one_field() {
    let config = RenderConfig::decode(&[entry("table_borders", OptionValue::Boolean(false))]);
    assert_eq!(config, RenderConfig { table_borders: false, ..defaults() });
}

#[test]
fn unbounded_marker_gives_the_largest_width() {
    let config = RenderConfig::decode(&[entry("width", OptionValue::Unbounded)]);
    assert_eq!(config.width, usize::MAX);
    assert_eq!(config.width, UNBOUNDED_WIDTH);
    assert!(config.is_unbounded());
    assert_eq!(config, RenderConfig { width: usize::MAX, ..defaults() });
}

#[test]
fn unbounded_marker_wins_over_earlier_widths() {
    let options = vec![
        entry("width", OptionValue::Integer(40)),
        entry("width", OptionValue::Integer(0)),
        entry("width", OptionValue::Other),
        entry("width", OptionValue::Unbounded),
        entry("decorate", OptionValue::Boolean(false)),
    ];
    assert_eq!(RenderConfig::decode(&options).width, usize::MAX);
}

#[test]
fn finite_width_after_unbounded_overrides_it() {
    let options =
        vec![entry("width", OptionValue::Unbounded), entry("width", OptionValue::Integer(40))];
    let config = RenderConfig::decode(&options);
    assert_eq!(config.width, 40);
    assert!(!config.is_unbounded());
}

#[test]
fn later_entry_for_a_name_overrides_an_earlier_one() {
    let options = vec![
        entry("decorate", OptionValue::Boolean(false)),
        entry("min_wrap_width", OptionValue::Integer(9)),
        entry("decorate", OptionValue::Boolean(true)),
        entry("min_wrap_width", OptionValue::Integer(5)),
    ];
    let config = RenderConfig::decode(&options);
    assert_eq!(config.decorate, true);
    assert_eq!(config.min_wrap_width, 5);
}

#[test]
fn zero_width_is_passed_through() {
    let config = RenderConfig::decode(&[entry("width", OptionValue::Integer(0))]);
    assert_eq!(config.width, 0);
}

#[test]
fn mistyped_width_leaves_the_width_as_it_is() {
    assert_eq!(RenderConfig::decode(&[entry("width", OptionValue::Other)]).width, 80);
    assert_eq!(RenderConfig::decode(&[entry("width", OptionValue::Boolean(true))]).width, 80);
    assert_eq!(RenderConfig::decode(&[entry("width", OptionValue::Integer(-5))]).width, 80);
    let too_large = OptionValue::Integer(usize::MAX as i128 + 1);
    assert_eq!(RenderConfig::decode(&[entry("width", too_large)]).width, 80);
    let options = vec![entry("width", OptionValue::Integer(40)), entry("width", OptionValue::Other)];
    assert_eq!(RenderConfig::decode(&options).width, 40);
}

#[test]
fn mistyped_flag_decodes_to_its_default() {
    let text = OptionValue::Other;
    assert_eq!(RenderConfig::decode(&[entry("decorate", text)]).decorate, true);
    assert_eq!(RenderConfig::decode(&[entry("link_footnotes", text)]).link_footnotes, true);
    assert_eq!(RenderConfig::decode(&[entry("table_borders", text)]).table_borders, true);
    assert_eq!(RenderConfig::decode(&[entry("pad_block_width", text)]).pad_block_width, false);
    assert_eq!(
        RenderConfig::decode(&[entry("allow_width_overflow", text)]).allow_width_overflow,
        false
    );
    assert_eq!(RenderConfig::decode(&[entry("raw_mode", text)]).raw_mode, false);
    assert_eq!(RenderConfig::decode(&[entry("wrap_links", text)]).wrap_links, true);
    assert_eq!(RenderConfig::decode(&[entry("unicode_strikeout", text)]).unicode_strikeout, true);
    assert_eq!(RenderConfig::decode(&[entry("decorate", text)]), defaults());
}

#[test]
fn mistyped_flag_undoes_an_earlier_entry() {
    let options =
        vec![entry("decorate", OptionValue::Boolean(false)), entry("decorate", OptionValue::Other)];
    assert_eq!(RenderConfig::decode(&options).decorate, true);
    let options = vec![
        entry("pad_block_width", OptionValue::Boolean(true)),
        entry("pad_block_width", OptionValue::Integer(1)),
    ];
    assert_eq!(RenderConfig::decode(&options).pad_block_width, false);
}

#[test]
fn mistyped_min_wrap_width_decodes_to_three() {
    assert_eq!(RenderConfig::decode(&[entry("min_wrap_width", OptionValue::Other)]).min_wrap_width, 3);
    let options = vec![
        entry("min_wrap_width", OptionValue::Integer(9)),
        entry("min_wrap_width", OptionValue::Integer(-9)),
    ];
    assert_eq!(RenderConfig::decode(&options).min_wrap_width, 3);
    let options = vec![
        entry("min_wrap_width", OptionValue::Integer(9)),
        entry("min_wrap_width", OptionValue::Unbounded),
    ];
    assert_eq!(RenderConfig::decode(&options).min_wrap_width, 3);
}

#[test]
fn min_wrap_width_may_be_zero() {
    let config = RenderConfig::decode(&[entry("min_wrap_width", OptionValue::Integer(0))]);
    assert_eq!(config.min_wrap_width, 0);
}

#[test]
fn unrecognised_option_is_a_no_op() {
    let config = RenderConfig::decode(&[entry("colour", OptionValue::Boolean(true))]);
    assert_eq!(config, RenderConfig::decode(&[]));
}

#[test]
fn unrecognised_options_are_skipped_among_others() {
    let options = vec![
        entry("Width", OptionValue::Integer(10)),
        entry("width", OptionValue::Integer(20)),
        entry("raw", OptionValue::Boolean(true)),
        entry("", OptionValue::Unbounded),
    ];
    assert_eq!(RenderConfig::decode(&options), RenderConfig { width: 20, ..defaults() });
}

#[test]
fn order_of_different_options_does_not_matter() {
    let one = vec![
        entry("width", OptionValue::Integer(30)),
        entry("raw_mode", OptionValue::Boolean(true)),
        entry("wrap_links", OptionValue::Other),
    ];
    let other = vec![
        entry("wrap_links", OptionValue::Other),
        entry("raw_mode", OptionValue::Boolean(true)),
        entry("width", OptionValue::Integer(30)),
    ];
    assert_eq!(RenderConfig::decode(&one), RenderConfig::decode(&other));
}

#[test]
fn apply_changes_a_given_configuration() {
    let start = RenderConfig { width: 10, decorate: false, ..defaults() };
    let next = start.apply(&entry("link_footnotes", OptionValue::Boolean(false)));
    assert_eq!(next, RenderConfig { link_footnotes: false, ..start });
    assert_eq!(start.apply(&entry("unknown", OptionValue::Boolean(false))), start);
}

#[test]
fn set_changes_the_named_field() {
    let start = RenderConfig { width: 10, ..defaults() };
    assert_eq!(start.set(OptionName::Width, OptionValue::Integer(7)).width, 7);
    assert_eq!(start.set(OptionName::Width, OptionValue::Other).width, 10);
    assert_eq!(start.set(OptionName::RawMode, OptionValue::Boolean(true)).raw_mode, true);
    assert_eq!(
        start.set(OptionName::UnicodeStrikeout, OptionValue::Boolean(false)),
        RenderConfig { unicode_strikeout: false, ..start }
    );
}

#[test]
fn with_width_overrides_the_width_only() {
    assert_eq!(RenderConfig::with_width(Width::Columns(80)), defaults());
    assert_eq!(RenderConfig::with_width(Width::Columns(80)), RenderConfig::decode(&[]));
    assert_eq!(RenderConfig::with_width(Width::Columns(33)), RenderConfig { width: 33, ..defaults() });
    assert_eq!(
        RenderConfig::with_width(Width::Unbounded),
        RenderConfig { width: usize::MAX, ..defaults() }
    );
}

#[test]
fn width_gives_its_columns() {
    assert_eq!(Width::Columns(12).columns(), 12);
    assert_eq!(Width::Columns(0).columns(), 0);
    assert_eq!(Width::Unbounded.columns(), usize::MAX);
}

#[test]
fn entry_clone_keeps_name_and_value() {
    let first = entry("width", OptionValue::Integer(5));
    let second = first.clone();
    assert_eq!(second.name, "width");
    assert_eq!(second.value, OptionValue::Integer(5));
}
