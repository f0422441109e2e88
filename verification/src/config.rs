//! The rendering configuration and the decoder that builds it from options.

use crate::name::OptionName;
use crate::value::OptionValue;
use vstd::prelude::*;

verus! {

/// The width that stands for "do not wrap".
pub const UNBOUNDED_WIDTH: usize = usize::MAX;

/// A target width as the width-only call shape takes it.
#[derive(Clone, Copy, Debug, PartialEq, Eq, Structural)]
pub enum Width {
    /// Wrap at this many columns.
    Columns(usize),
    /// Do not wrap.
    Unbounded,
}

impl Width {
    /// The number of columns that the engine is given.
    pub open spec fn spec_columns(self) -> usize {
        match self {
            Width::Columns(n) => n,
            Width::Unbounded => UNBOUNDED_WIDTH,
        }
    }

    #[verifier::when_used_as_spec(spec_columns)]
    pub fn columns(self) -> (r: usize)
        ensures
            r == self.spec_columns(),
    {
        match self {
            Width::Columns(n) => n,
            Width::Unbounded => UNBOUNDED_WIDTH,
        }
    }
}

/// All rendering options of one conversion.
#[derive(Clone, Copy, Debug, PartialEq, Eq, Structural)]
pub struct RenderConfig {
    /// Target width in columns; `UNBOUNDED_WIDTH` disables wrapping. A width
    /// of zero can be decoded; the engine answers it with an error.
    pub width: usize,
    /// Mark emphasis, strong text and code with surrounding characters.
    pub decorate: bool,
    /// List link targets as footnotes after the text.
    pub link_footnotes: bool,
    /// Draw borders around tables.
    pub table_borders: bool,
    /// Pad blocks to the full width.
    pub pad_block_width: bool,
    /// Let content that cannot be broken exceed the width.
    pub allow_width_overflow: bool,
    /// Width below which no wrapping is attempted.
    pub min_wrap_width: usize,
    /// Emit near-literal text without higher-level layout.
    pub raw_mode: bool,
    /// Let link text take part in wrapping.
    pub wrap_links: bool,
    /// Strike text out with combining characters.
    pub unicode_strikeout: bool,
}

/// One option as the caller supplied it.
#[derive(Debug)]
pub struct OptionEntry {
    pub name: String,
    pub value: OptionValue,
}

/// What an `OptionEntry` holds.
pub struct OptionEntryView {
    pub name: Seq<char>,
    pub value: OptionValue,
}

impl View for OptionEntry {
    type V = OptionEntryView;

    open spec fn view(&self) -> OptionEntryView {
        OptionEntryView { name: self.name@, value: self.value }
    }
}

impl OptionEntry {
    pub fn new(name: String, value: OptionValue) -> (r: OptionEntry)
        ensures
            r@ == (OptionEntryView { name: name@, value }),
    {
        OptionEntry { name, value }
    }
}

impl Clone for OptionEntry {
    fn clone(&self) -> (r: OptionEntry)
        ensures
            r@ == self@,
    {
        OptionEntry { name: self.name.clone(), value: self.value }
    }
}

/// The views of a list of entries, in order.
pub open spec fn entry_views(options: Seq<OptionEntry>) -> Seq<OptionEntryView> {
    options.map_values(|e: OptionEntry| e@)
}

impl RenderConfig {
    /// The configuration that an empty option list decodes to.
    pub open spec fn spec_default() -> RenderConfig {
        RenderConfig {
            width: 80,
            decorate: true,
            link_footnotes: true,
            table_borders: true,
            pad_block_width: false,
            allow_width_overflow: false,
            min_wrap_width: 3,
            raw_mode: false,
            wrap_links: true,
            unicode_strikeout: true,
        }
    }

    /// The default configuration with only the width replaced.
    pub open spec fn spec_with_width(width: Width) -> RenderConfig {
        RenderConfig { width: width.spec_columns(), ..RenderConfig::spec_default() }
    }

    /// Whether `self` asks for no wrapping.
    pub open spec fn spec_is_unbounded(self) -> bool {
        self.width == UNBOUNDED_WIDTH
    }

    /// The value of the flag that `name` names; `false` for the two options
    /// that are no flags.
    pub open spec fn spec_flag(self, name: OptionName) -> bool {
        match name {
            OptionName::Decorate => self.decorate,
            OptionName::LinkFootnotes => self.link_footnotes,
            OptionName::TableBorders => self.table_borders,
            OptionName::PadBlockWidth => self.pad_block_width,
            OptionName::AllowWidthOverflow => self.allow_width_overflow,
            OptionName::RawMode => self.raw_mode,
            OptionName::WrapLinks => self.wrap_links,
            OptionName::UnicodeStrikeout => self.unicode_strikeout,
            OptionName::Width | OptionName::MinWrapWidth => false,
        }
    }

    /// `self` after one recognised option.
    ///
    /// A width of the wrong type leaves the width as it is. Every other
    /// option of the wrong type puts its field back to the default, whatever
    /// an earlier entry had set.
    pub open spec fn spec_set(self, name: OptionName, value: OptionValue) -> RenderConfig {
        let d = RenderConfig::spec_default();
        match name {
            OptionName::Width => RenderConfig { width: value.spec_width_or(self.width), ..self },
            OptionName::Decorate => RenderConfig {
                decorate: value.spec_bool_or(d.decorate),
                ..self
            },
            OptionName::LinkFootnotes => RenderConfig {
                link_footnotes: value.spec_bool_or(d.link_footnotes),
                ..self
            },
            OptionName::TableBorders => RenderConfig {
                table_borders: value.spec_bool_or(d.table_borders),
                ..self
            },
            OptionName::PadBlockWidth => RenderConfig {
                pad_block_width: value.spec_bool_or(d.pad_block_width),
                ..self
            },
            OptionName::AllowWidthOverflow => RenderConfig {
                allow_width_overflow: value.spec_bool_or(d.allow_width_overflow),
                ..self
            },
            OptionName::MinWrapWidth => RenderConfig {
                min_wrap_width: value.spec_count_or(d.min_wrap_width),
                ..self
            },
            OptionName::RawMode => RenderConfig {
                raw_mode: value.spec_bool_or(d.raw_mode),
                ..self
            },
            OptionName::WrapLinks => RenderConfig {
                wrap_links: value.spec_bool_or(d.wrap_links),
                ..self
            },
            OptionName::UnicodeStrikeout => RenderConfig {
                unicode_strikeout: value.spec_bool_or(d.unicode_strikeout),
                ..self
            },
        }
    }

    /// `self` after one entry: an entry whose name is none of the ten
    /// changes nothing.
    pub open spec fn spec_apply(self, entry: OptionEntryView) -> RenderConfig {
        match OptionName::spec_parse(entry.name) {
            Some(name) => self.spec_set(name, entry.value),
            None => self,
        }
    }

    /// `self` after each entry of `options` in turn.
    pub open spec fn spec_apply_all(self, options: Seq<OptionEntryView>) -> RenderConfig
        decreases options.len(),
    {
        if options.len() == 0 {
            self
        } else {
            self.spec_apply_all(options.drop_last()).spec_apply(options.last())
        }
    }

    /// The configuration that `options` decode to: the default, changed by
    /// each entry in turn, so that a later entry for a name overrides an
    /// earlier one.
    pub open spec fn spec_decode(options: Seq<OptionEntryView>) -> RenderConfig {
        RenderConfig::spec_default().spec_apply_all(options)
    }

    pub fn with_width(width: Width) -> (r: RenderConfig)
        ensures
            r == RenderConfig::spec_with_width(width),
    {
        let mut config = RenderConfig::default();
        config.width = width.columns();
        config
    }

    #[verifier::when_used_as_spec(spec_is_unbounded)]
    pub fn is_unbounded(self) -> (r: bool)
        ensures
            r == self.spec_is_unbounded(),
    {
        self.width == UNBOUNDED_WIDTH
    }

    pub fn set(self, name: OptionName, value: OptionValue) -> (r: RenderConfig)
        ensures
            r == self.spec_set(name, value),
    {
        let d = RenderConfig::default();
        let mut config = self;
        match name {
            OptionName::Width => {
                config.width = value.width_or(self.width);
            },
            OptionName::Decorate => {
                config.decorate = value.bool_or(d.decorate);
            },
            OptionName::LinkFootnotes => {
                config.link_footnotes = value.bool_or(d.link_footnotes);
            },
            OptionName::TableBorders => {
                config.table_borders = value.bool_or(d.table_borders);
            },
            OptionName::PadBlockWidth => {
                config.pad_block_width = value.bool_or(d.pad_block_width);
            },
            OptionName::AllowWidthOverflow => {
                config.allow_width_overflow = value.bool_or(d.allow_width_overflow);
            },
            OptionName::MinWrapWidth => {
                config.min_wrap_width = value.count_or(d.min_wrap_width);
            },
            OptionName::RawMode => {
                config.raw_mode = value.bool_or(d.raw_mode);
            },
            OptionName::WrapLinks => {
                config.wrap_links = value.bool_or(d.wrap_links);
            },
            OptionName::UnicodeStrikeout => {
                config.unicode_strikeout = value.bool_or(d.unicode_strikeout);
            },
        }
        config
    }

    pub fn apply(self, entry: &OptionEntry) -> (r: RenderConfig)
        ensures
            r == self.spec_apply(entry@),
    {
        match OptionName::parse(entry.name.as_str()) {
            Some(name) => self.set(name, entry.value),
            None => self,
        }
    }

    /// Decodes an option list. Never fails: whatever the entries hold, the
    /// result has every field set.
    pub fn decode(options: &[OptionEntry]) -> (r: RenderConfig)
        ensures
            r == RenderConfig::spec_decode(entry_views(options@)),
    {
        let ghost views = entry_views(options@);
        let mut config = RenderConfig::default();
        let mut i: usize = 0;
        assert(views.take(0) =~= Seq::<OptionEntryView>::empty());
        while i < options.len()
            invariant
                i <= options@.len(),
                views == entry_views(options@),
                config == RenderConfig::spec_decode(views.take(i as int)),
            decreases options@.len() - i,
        {
            config = config.apply(&options[i]);
            proof {
                let next = views.take(i + 1);
                assert(next.drop_last() =~= views.take(i as int));
                assert(next.last() == options@[i as int]@);
            }
            i += 1;
        }
        assert(views.take(i as int) =~= views);
        config
    }
}

impl Default for RenderConfig {
    fn default() -> (r: RenderConfig)
        ensures
            r == RenderConfig::spec_default(),
    {
        RenderConfig {
            width: 80,
            decorate: true,
            link_footnotes: true,
            table_borders: true,
            pad_block_width: false,
            allow_width_overflow: false,
            min_wrap_width: 3,
            raw_mode: false,
            wrap_links: true,
            unicode_strikeout: true,
        }
    }
}

} // verus!
