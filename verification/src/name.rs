//! The names of the options that the decoder knows.

use crate::text::same_text;
use vstd::prelude::*;

verus! {

/// One of the ten options. A name is recognised by exact match only.
#[derive(Clone, Copy, Debug, PartialEq, Eq, Structural)]
pub enum OptionName {
    Width,
    Decorate,
    LinkFootnotes,
    TableBorders,
    PadBlockWidth,
    AllowWidthOverflow,
    MinWrapWidth,
    RawMode,
    WrapLinks,
    UnicodeStrikeout,
}

impl OptionName {
    /// The text by which a caller names this option.
    pub open spec fn spec_text(self) -> Seq<char> {
        match self {
            OptionName::Width => "width"@,
            OptionName::Decorate => "decorate"@,
            OptionName::LinkFootnotes => "link_footnotes"@,
            OptionName::TableBorders => "table_borders"@,
            OptionName::PadBlockWidth => "pad_block_width"@,
            OptionName::AllowWidthOverflow => "allow_width_overflow"@,
            OptionName::MinWrapWidth => "min_wrap_width"@,
            OptionName::RawMode => "raw_mode"@,
            OptionName::WrapLinks => "wrap_links"@,
            OptionName::UnicodeStrikeout => "unicode_strikeout"@,
        }
    }

    /// The option that `text` names, if it names one.
    pub open spec fn spec_parse(text: Seq<char>) -> Option<OptionName> {
        if text == OptionName::Width.spec_text() {
            Some(OptionName::Width)
        } else if text == OptionName::Decorate.spec_text() {
            Some(OptionName::Decorate)
        } else if text == OptionName::LinkFootnotes.spec_text() {
            Some(OptionName::LinkFootnotes)
        } else if text == OptionName::TableBorders.spec_text() {
            Some(OptionName::TableBorders)
        } else if text == OptionName::PadBlockWidth.spec_text() {
            Some(OptionName::PadBlockWidth)
        } else if text == OptionName::AllowWidthOverflow.spec_text() {
            Some(OptionName::AllowWidthOverflow)
        } else if text == OptionName::MinWrapWidth.spec_text() {
            Some(OptionName::MinWrapWidth)
        } else if text == OptionName::RawMode.spec_text() {
            Some(OptionName::RawMode)
        } else if text == OptionName::WrapLinks.spec_text() {
            Some(OptionName::WrapLinks)
        } else if text == OptionName::UnicodeStrikeout.spec_text() {
            Some(OptionName::UnicodeStrikeout)
        } else {
            None
        }
    }

    /// Whether the option takes a truth value.
    pub open spec fn spec_is_flag(self) -> bool {
        self != OptionName::Width && self != OptionName::MinWrapWidth
    }

    #[verifier::when_used_as_spec(spec_is_flag)]
    pub fn is_flag(self) -> (r: bool)
        ensures
            r == self.spec_is_flag(),
    {
        match self {
            OptionName::Width | OptionName::MinWrapWidth => false,
            _ => true,
        }
    }

    pub fn text(self) -> (r: &'static str)
        ensures
            r@ == self.spec_text(),
    {
        match self {
            OptionName::Width => "width",
            OptionName::Decorate => "decorate",
            OptionName::LinkFootnotes => "link_footnotes",
            OptionName::TableBorders => "table_borders",
            OptionName::PadBlockWidth => "pad_block_width",
            OptionName::AllowWidthOverflow => "allow_width_overflow",
            OptionName::MinWrapWidth => "min_wrap_width",
            OptionName::RawMode => "raw_mode",
            OptionName::WrapLinks => "wrap_links",
            OptionName::UnicodeStrikeout => "unicode_strikeout",
        }
    }

    pub fn parse(text: &str) -> (r: Option<OptionName>)
        ensures
            r == OptionName::spec_parse(text@),
    {
        if same_text(text, OptionName::Width.text()) {
            Some(OptionName::Width)
        } else if same_text(text, OptionName::Decorate.text()) {
            Some(OptionName::Decorate)
        } else if same_text(text, OptionName::LinkFootnotes.text()) {
            Some(OptionName::LinkFootnotes)
        } else if same_text(text, OptionName::TableBorders.text()) {
            Some(OptionName::TableBorders)
        } else if same_text(text, OptionName::PadBlockWidth.text()) {
            Some(OptionName::PadBlockWidth)
        } else if same_text(text, OptionName::AllowWidthOverflow.text()) {
            Some(OptionName::AllowWidthOverflow)
        } else if same_text(text, OptionName::MinWrapWidth.text()) {
            Some(OptionName::MinWrapWidth)
        } else if same_text(text, OptionName::RawMode.text()) {
            Some(OptionName::RawMode)
        } else if same_text(text, OptionName::WrapLinks.text()) {
            Some(OptionName::WrapLinks)
        } else if same_text(text, OptionName::UnicodeStrikeout.text()) {
            Some(OptionName::UnicodeStrikeout)
        } else {
            None
        }
    }

    /// Every option is found again under its own text: no two options share
    /// a name.
    pub proof fn lemma_parse_text(self)
        ensures
            OptionName::spec_parse(self.spec_text()) == Some(self),
    {
        reveal_strlit("width");
        reveal_strlit("decorate");
        reveal_strlit("link_footnotes");
        reveal_strlit("table_borders");
        reveal_strlit("pad_block_width");
        reveal_strlit("allow_width_overflow");
        reveal_strlit("min_wrap_width");
        reveal_strlit("raw_mode");
        reveal_strlit("wrap_links");
        reveal_strlit("unicode_strikeout");
        assert("width"@.len() == 5);
        assert("decorate"@.len() == 8 && "decorate"@[0] == 'd');
        assert("link_footnotes"@.len() == 14 && "link_footnotes"@[0] == 'l');
        assert("table_borders"@.len() == 13);
        assert("pad_block_width"@.len() == 15);
        assert("allow_width_overflow"@.len() == 20);
        assert("min_wrap_width"@.len() == 14 && "min_wrap_width"@[0] == 'm');
        assert("raw_mode"@.len() == 8 && "raw_mode"@[0] == 'r');
        assert("wrap_links"@.len() == 10);
        assert("unicode_strikeout"@.len() == 17);
    }

    /// A text names an option exactly when it is that option's text.
    pub proof fn law_parse_is_exact(text: Seq<char>, name: OptionName)
        ensures
            OptionName::spec_parse(text) == Some(name) <==> text == name.spec_text(),
    {
        name.lemma_parse_text();
    }
}

} // verus!
