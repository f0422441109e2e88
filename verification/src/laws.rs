//! What holds of the decoder and of the two call shapes, for all inputs.

use crate::config::OptionEntryView;
use crate::config::RenderConfig;
use crate::config::Width;
use crate::convert::spec_convert;
use crate::convert::spec_convert_with_width;
use crate::name::OptionName;
use crate::value::OptionValue;
use vstd::prelude::*;

verus! {

/// The value that restates the default of the option `name`.
pub open spec fn default_value(name: OptionName) -> OptionValue {
    match name {
        OptionName::Width => OptionValue::Integer(80),
        OptionName::MinWrapWidth => OptionValue::Integer(3),
        _ => OptionValue::Boolean(RenderConfig::spec_default().spec_flag(name)),
    }
}

/// Whether `entry` names an option and gives it its default value.
pub open spec fn restates_default(entry: OptionEntryView) -> bool {
    match OptionName::spec_parse(entry.name) {
        Some(name) => entry.value == default_value(name),
        None => false,
    }
}

/// The entry that restates the default of the option `name`.
pub open spec fn default_entry(name: OptionName) -> OptionEntryView {
    OptionEntryView { name: name.spec_text(), value: default_value(name) }
}

/// Whether `entry` names the width.
pub open spec fn names_width(entry: OptionEntryView) -> bool {
    OptionName::spec_parse(entry.name) == Some(OptionName::Width)
}

/// Decoding goes through the list from the front: what a list decodes to is
/// what its first part decodes to, changed by the rest.
pub proof fn law_decode_in_order(
    start: RenderConfig,
    first: Seq<OptionEntryView>,
    rest: Seq<OptionEntryView>,
)
    ensures
        start.spec_apply_all(first + rest) == start.spec_apply_all(first).spec_apply_all(rest),
    decreases rest.len(),
{
    if rest.len() == 0 {
        assert(first + rest =~= first);
    } else {
        law_decode_in_order(start, first, rest.drop_last());
        assert((first + rest).drop_last() =~= first + rest.drop_last());
        assert((first + rest).last() == rest.last());
    }
}

/// The last entry of a list is applied to what the entries before it
/// decode to.
pub proof fn law_last_entry_applies(options: Seq<OptionEntryView>, entry: OptionEntryView)
    ensures
        RenderConfig::spec_decode(options.push(entry)) == RenderConfig::spec_decode(
            options,
        ).spec_apply(entry),
{
    assert(options.push(entry).drop_last() =~= options);
}

/// Each option's own text, paired with the option's default value,
/// restates a default.
pub proof fn law_default_entry(name: OptionName)
    ensures
        restates_default(default_entry(name)),
{
    name.lemma_parse_text();
}

/// A list in which every entry restates a default decodes to the same
/// configuration as the empty list.
pub proof fn law_restated_defaults(options: Seq<OptionEntryView>)
    requires
        forall|i: int| 0 <= i < options.len() ==> restates_default(#[trigger] options[i]),
    ensures
        RenderConfig::spec_decode(options) == RenderConfig::spec_decode(Seq::empty()),
    decreases options.len(),
{
    if options.len() > 0 {
        law_restated_defaults(options.drop_last());
        assert(restates_default(options[options.len() - 1]));
    }
}

/// Entries that do not name the width leave the width as it was.
pub proof fn law_width_kept(start: RenderConfig, options: Seq<OptionEntryView>)
    requires
        forall|i: int| 0 <= i < options.len() ==> !names_width(#[trigger] options[i]),
    ensures
        start.spec_apply_all(options).width == start.width,
    decreases options.len(),
{
    if options.len() > 0 {
        law_width_kept(start, options.drop_last());
        assert(!names_width(options[options.len() - 1]));
    }
}

/// An unbounded width entry gives the largest width whatever came before
/// it, and keeps it through later entries that do not name the width.
pub proof fn law_unbounded_width(
    before: Seq<OptionEntryView>,
    marker: OptionEntryView,
    after: Seq<OptionEntryView>,
)
    requires
        names_width(marker),
        marker.value == OptionValue::Unbounded,
        forall|i: int| 0 <= i < after.len() ==> !names_width(#[trigger] after[i]),
    ensures
        RenderConfig::spec_decode(before.push(marker) + after).width == usize::MAX,
{
    let start = RenderConfig::spec_default();
    law_decode_in_order(start, before.push(marker), after);
    law_last_entry_applies(before, marker);
    law_width_kept(start.spec_apply_all(before.push(marker)), after);
}

/// A finite width entry after an unbounded one overrides it: of two entries
/// for the width, the later one counts.
pub proof fn law_later_width_overrides(
    before: Seq<OptionEntryView>,
    marker: OptionEntryView,
    finite: OptionEntryView,
    columns: usize,
)
    requires
        names_width(marker),
        marker.value == OptionValue::Unbounded,
        names_width(finite),
        finite.value == OptionValue::Integer(columns as i128),
    ensures
        RenderConfig::spec_decode(before.push(marker).push(finite)).width == columns,
{
    law_last_entry_applies(before.push(marker), finite);
}

/// A flag given a value that is no truth value decodes to the flag's
/// default, whatever an earlier entry had set it to.
pub proof fn law_mistyped_flag_is_default(
    before: Seq<OptionEntryView>,
    entry: OptionEntryView,
    name: OptionName,
)
    requires
        OptionName::spec_parse(entry.name) == Some(name),
        name.spec_is_flag(),
        entry.value.spec_as_bool() is None,
    ensures
        RenderConfig::spec_decode(before.push(entry)).spec_flag(name)
            == RenderConfig::spec_default().spec_flag(name),
{
    law_last_entry_applies(before, entry);
}

/// A minimum wrap width given a value that is no count decodes to the
/// default of 3, and a width given a value that is no width stays as the
/// entries before it left it.
pub proof fn law_mistyped_number(before: Seq<OptionEntryView>, entry: OptionEntryView)
    ensures
        OptionName::spec_parse(entry.name) == Some(OptionName::MinWrapWidth)
            && entry.value.spec_as_count() is None ==> RenderConfig::spec_decode(
            before.push(entry),
        ).min_wrap_width == 3,
        names_width(entry) && entry.value.spec_as_width() is None ==> RenderConfig::spec_decode(
            before.push(entry),
        ).width == RenderConfig::spec_decode(before).width,
{
    law_last_entry_applies(before, entry);
}

/// An entry whose name is none of the ten changes nothing, wherever it
/// stands in the list.
pub proof fn law_unrecognised_is_ignored(
    before: Seq<OptionEntryView>,
    entry: OptionEntryView,
    after: Seq<OptionEntryView>,
)
    requires
        OptionName::spec_parse(entry.name) is None,
    ensures
        RenderConfig::spec_decode(before.push(entry) + after) == RenderConfig::spec_decode(
            before + after,
        ),
        RenderConfig::spec_decode(seq![entry]) == RenderConfig::spec_decode(Seq::empty()),
{
    let start = RenderConfig::spec_default();
    law_decode_in_order(start, before.push(entry), after);
    law_decode_in_order(start, before, after);
    law_last_entry_applies(before, entry);
    law_last_entry_applies(Seq::empty(), entry);
    assert(Seq::<OptionEntryView>::empty().push(entry) =~= seq![entry]);
}

/// `start` after the option `name`, written out field by field: each field
/// is either decoded from `value` or kept.
pub open spec fn set_by_field(start: RenderConfig, name: OptionName, value: OptionValue) -> RenderConfig {
    let d = RenderConfig::spec_default();
    RenderConfig {
        width: if name == OptionName::Width {
            value.spec_width_or(start.width)
        } else {
            start.width
        },
        min_wrap_width: if name == OptionName::MinWrapWidth {
            value.spec_count_or(d.min_wrap_width)
        } else {
            start.min_wrap_width
        },
        decorate: if name == OptionName::Decorate {
            value.spec_bool_or(d.decorate)
        } else {
            start.decorate
        },
        link_footnotes: if name == OptionName::LinkFootnotes {
            value.spec_bool_or(d.link_footnotes)
        } else {
            start.link_footnotes
        },
        table_borders: if name == OptionName::TableBorders {
            value.spec_bool_or(d.table_borders)
        } else {
            start.table_borders
        },
        pad_block_width: if name == OptionName::PadBlockWidth {
            value.spec_bool_or(d.pad_block_width)
        } else {
            start.pad_block_width
        },
        allow_width_overflow: if name == OptionName::AllowWidthOverflow {
            value.spec_bool_or(d.allow_width_overflow)
        } else {
            start.allow_width_overflow
        },
        raw_mode: if name == OptionName::RawMode {
            value.spec_bool_or(d.raw_mode)
        } else {
            start.raw_mode
        },
        wrap_links: if name == OptionName::WrapLinks {
            value.spec_bool_or(d.wrap_links)
        } else {
            start.wrap_links
        },
        unicode_strikeout: if name == OptionName::UnicodeStrikeout {
            value.spec_bool_or(d.unicode_strikeout)
        } else {
            start.unicode_strikeout
        },
    }
}

/// Setting an option changes the one field that the option names and no
/// other.
pub proof fn law_set_changes_one_field(start: RenderConfig, name: OptionName, value: OptionValue)
    ensures
        start.spec_set(name, value) == set_by_field(start, name, value),
{
}

proof fn lemma_fields_commute(
    start: RenderConfig,
    first: OptionName,
    x: OptionValue,
    second: OptionName,
    y: OptionValue,
)
    requires
        first != second,
    ensures
        set_by_field(set_by_field(start, first, x), second, y) == set_by_field(
            set_by_field(start, second, y),
            first,
            x,
        ),
{
}

/// Two different options may be set in either order.
pub proof fn law_different_options_commute(
    start: RenderConfig,
    first: OptionName,
    x: OptionValue,
    second: OptionName,
    y: OptionValue,
)
    requires
        first != second,
    ensures
        start.spec_set(first, x).spec_set(second, y) == start.spec_set(second, y).spec_set(
            first,
            x,
        ),
{
    law_set_changes_one_field(start, first, x);
    law_set_changes_one_field(start, second, y);
    law_set_changes_one_field(set_by_field(start, first, x), second, y);
    law_set_changes_one_field(set_by_field(start, second, y), first, x);
    lemma_fields_commute(start, first, x, second, y);
}

/// Two entries for different options may change places: the order of a
/// list matters only among entries for the same option.
pub proof fn law_different_names_commute(
    start: RenderConfig,
    a: OptionEntryView,
    b: OptionEntryView,
)
    requires
        OptionName::spec_parse(a.name) is None || OptionName::spec_parse(a.name)
            != OptionName::spec_parse(b.name),
    ensures
        start.spec_apply(a).spec_apply(b) == start.spec_apply(b).spec_apply(a),
{
    match (OptionName::spec_parse(a.name), OptionName::spec_parse(b.name)) {
        (Some(first), Some(second)) => {
            law_different_options_commute(start, first, a.value, second, b.value);
        },
        _ => {},
    }
}

/// The width-only shape at 80 columns answers as the option-list shape
/// does for an empty list, for every input.
pub proof fn law_width_only_matches_empty_list(html: Seq<u8>)
    ensures
        spec_convert_with_width(html, Width::Columns(80)) == spec_convert(html, Seq::empty()),
        RenderConfig::spec_with_width(Width::Columns(80)) == RenderConfig::spec_decode(
            Seq::empty(),
        ),
{
}

} // verus!
