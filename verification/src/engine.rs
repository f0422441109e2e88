//! The layout engine, reached through `html2text`.
//!
//! Everything the engine does is taken on trust here. The trusted part is
//! kept to single calls: one function per setter of the engine's
//! configuration, one for the rendering call and one for an error's message.
//! Which setters are called, and with what, is decided in verified code.

use crate::config::RenderConfig;
use crate::limits::spec_call_within_limits;
use crate::limits::spec_renderable;
use html2text::config::Config;
use html2text::render::PlainDecorator;
use vstd::prelude::*;

verus! {

/// A configuration of the engine, an `html2text::config::Config` for plain
/// text output. Nothing inside it is visible to the verifier;
/// `engine_settings` names what it holds.
#[verifier::external_body]
pub struct EngineConfig {
    inner: Config<PlainDecorator>,
}

/// An error of the engine, `html2text::Error`. It is carried from the
/// rendering call to `error_message` and no further.
#[verifier::external_type_specification]
#[verifier::external_body]
pub struct ExEngineError(html2text::Error);

/// The settings of an engine configuration that this library changes, each
/// under the name of the field that holds it in the engine.
pub struct EngineSettings {
    /// Width at which paragraphs are wrapped, if one was set.
    pub max_wrap_width: Option<usize>,
    /// Whether the rules that mark emphasis, strong text and code were added.
    pub decorated: bool,
    /// Whether lines are padded to the full width.
    pub pad_block_width: bool,
    /// Whether output may exceed the width.
    pub allow_width_overflow: bool,
    /// Width that a block of text is given at least.
    pub min_wrap_width: usize,
    /// Whether tables are walked cell by cell.
    pub raw: bool,
    /// Whether tables get borders.
    pub draw_borders: bool,
    /// Whether links take part in wrapping.
    pub wrap_links: bool,
    /// Whether link targets are listed as footnotes.
    pub include_link_footnotes: bool,
    /// Whether struck-out text uses combining characters.
    pub use_unicode_strikeout: bool,
}

impl EngineSettings {
    /// The settings of a fresh configuration for undecorated plain text.
    pub open spec fn initial() -> EngineSettings {
        EngineSettings {
            max_wrap_width: None,
            decorated: false,
            pad_block_width: false,
            allow_width_overflow: false,
            min_wrap_width: 3,
            raw: false,
            draw_borders: true,
            wrap_links: true,
            include_link_footnotes: false,
            use_unicode_strikeout: true,
        }
    }

    /// The settings that the engine is given for `config`. Raw mode turns the
    /// table borders off whatever `table_borders` says.
    pub open spec fn of(config: RenderConfig) -> EngineSettings {
        EngineSettings {
            max_wrap_width: Some(config.width),
            decorated: config.decorate,
            pad_block_width: config.pad_block_width,
            allow_width_overflow: config.allow_width_overflow,
            min_wrap_width: config.min_wrap_width,
            raw: config.raw_mode,
            draw_borders: config.table_borders && !config.raw_mode,
            wrap_links: config.wrap_links,
            include_link_footnotes: config.link_footnotes,
            use_unicode_strikeout: config.unicode_strikeout,
        }
    }
}

/// What the configuration `c` holds: `Some` of its settings where everything
/// that `EngineSettings` leaves out (table fencing, image handling, style
/// rules other than the decoration rules) is as a fresh configuration has it,
/// and `None` otherwise.
pub uninterp spec fn engine_settings(c: EngineConfig) -> Option<EngineSettings>;

/// What the engine makes of `html` at `width` columns under `settings`: the
/// rendered text, or the message of the error it reports.
pub uninterp spec fn engine_output(settings: EngineSettings, html: Seq<u8>, width: usize) -> Result<
    Seq<char>,
    Seq<char>,
>;

/// The message that the engine's error `e` displays.
pub uninterp spec fn engine_message(e: html2text::Error) -> Seq<char>;

/// The text, or the message of the error, that a rendering call returned.
pub open spec fn engine_outcome(r: Result<String, html2text::Error>) -> Result<
    Seq<char>,
    Seq<char>,
> {
    match r {
        Ok(text) => Ok(text@),
        Err(e) => Err(engine_message(e)),
    }
}

/// `html2text::config::plain_no_decorate`: a fresh configuration, in which
/// every setting has the engine's built-in default.
#[verifier::external_body]
fn plain_no_decorate() -> (r: EngineConfig)
    ensures
        engine_settings(r) == Some(EngineSettings::initial()),
{
    EngineConfig { inner: html2text::config::plain_no_decorate() }
}

/// `Config::max_wrap_width`: sets the wrap width and nothing else.
#[verifier::external_body]
fn max_wrap_width(c: EngineConfig, wrap_width: usize) -> (r: EngineConfig)
    requires
        engine_settings(c) is Some,
    ensures
        engine_settings(r) == Some(
            EngineSettings { max_wrap_width: Some(wrap_width), ..engine_settings(c).unwrap() },
        ),
{
    EngineConfig { inner: c.inner.max_wrap_width(wrap_width) }
}

/// `Config::do_decorate`: adds the decoration rules to a configuration that
/// has none yet, and changes nothing else.
#[verifier::external_body]
fn do_decorate(c: EngineConfig) -> (r: EngineConfig)
    requires
        engine_settings(c) is Some,
        !engine_settings(c).unwrap().decorated,
    ensures
        engine_settings(r) == Some(
            EngineSettings { decorated: true, ..engine_settings(c).unwrap() },
        ),
{
    EngineConfig { inner: c.inner.do_decorate() }
}

/// `Config::link_footnotes`: sets whether link targets are listed as
/// footnotes, and nothing else.
#[verifier::external_body]
fn link_footnotes(c: EngineConfig, include_footnotes: bool) -> (r: EngineConfig)
    requires
        engine_settings(c) is Some,
    ensures
        engine_settings(r) == Some(
            EngineSettings {
                include_link_footnotes: include_footnotes,
                ..engine_settings(c).unwrap()
            },
        ),
{
    EngineConfig { inner: c.inner.link_footnotes(include_footnotes) }
}

/// `Config::no_table_borders`: turns the table borders off and changes
/// nothing else.
#[verifier::external_body]
fn no_table_borders(c: EngineConfig) -> (r: EngineConfig)
    requires
        engine_settings(c) is Some,
    ensures
        engine_settings(r) == Some(
            EngineSettings { draw_borders: false, ..engine_settings(c).unwrap() },
        ),
{
    EngineConfig { inner: c.inner.no_table_borders() }
}

/// `Config::pad_block_width`: turns padding on and changes nothing else.
#[verifier::external_body]
fn pad_block_width(c: EngineConfig) -> (r: EngineConfig)
    requires
        engine_settings(c) is Some,
    ensures
        engine_settings(r) == Some(
            EngineSettings { pad_block_width: true, ..engine_settings(c).unwrap() },
        ),
{
    EngineConfig { inner: c.inner.pad_block_width() }
}

/// `Config::allow_width_overflow`: lets output exceed the width and changes
/// nothing else.
#[verifier::external_body]
fn allow_width_overflow(c: EngineConfig) -> (r: EngineConfig)
    requires
        engine_settings(c) is Some,
    ensures
        engine_settings(r) == Some(
            EngineSettings { allow_width_overflow: true, ..engine_settings(c).unwrap() },
        ),
{
    EngineConfig { inner: c.inner.allow_width_overflow() }
}

/// `Config::min_wrap_width`: sets the minimum wrap width and nothing else.
#[verifier::external_body]
fn min_wrap_width(c: EngineConfig, min_width: usize) -> (r: EngineConfig)
    requires
        engine_settings(c) is Some,
    ensures
        engine_settings(r) == Some(
            EngineSettings { min_wrap_width: min_width, ..engine_settings(c).unwrap() },
        ),
{
    EngineConfig { inner: c.inner.min_wrap_width(min_width) }
}

/// `Config::raw_mode`: sets raw mode as given and, whichever way it is set,
/// turns the table borders off.
#[verifier::external_body]
fn raw_mode(c: EngineConfig, raw: bool) -> (r: EngineConfig)
    requires
        engine_settings(c) is Some,
    ensures
        engine_settings(r) == Some(
            EngineSettings { raw, draw_borders: false, ..engine_settings(c).unwrap() },
        ),
{
    EngineConfig { inner: c.inner.raw_mode(raw) }
}

/// `Config::no_link_wrapping`: keeps links out of wrapping and changes
/// nothing else.
#[verifier::external_body]
fn no_link_wrapping(c: EngineConfig) -> (r: EngineConfig)
    requires
        engine_settings(c) is Some,
    ensures
        engine_settings(r) == Some(
            EngineSettings { wrap_links: false, ..engine_settings(c).unwrap() },
        ),
{
    EngineConfig { inner: c.inner.no_link_wrapping() }
}

/// `Config::unicode_strikeout`: sets whether struck-out text uses combining
/// characters, and nothing else.
#[verifier::external_body]
fn unicode_strikeout(c: EngineConfig, use_unicode: bool) -> (r: EngineConfig)
    requires
        engine_settings(c) is Some,
    ensures
        engine_settings(r) == Some(
            EngineSettings { use_unicode_strikeout: use_unicode, ..engine_settings(c).unwrap() },
        ),
{
    EngineConfig { inner: c.inner.unicode_strikeout(use_unicode) }
}

/// `Config::string_from_read`, reading from a byte slice: parses `html` and
/// renders it at `width` columns. The outcome depends on the settings, the
/// bytes and the width alone. At width zero the engine reads the document,
/// renders nothing and reports an error.
///
/// The engine does not return from every call, and those calls are left
/// out:
/// - It adds the `colspan`s of a table row unchecked, and the `start` of an
///   ordered list to the number of its items.
/// - It lays a cell whose `rowspan` reaches below the last row of its table
///   into rows of their own, and then looks up a column that may not exist.
/// - With padding on it fills each line up to its width with `str::repeat`,
///   which panics where the line would take more than `isize::MAX` bytes.
/// - In raw mode it lays every cell of a table out at the full width and
///   adds these widths up along a row, unchecked.
/// - It can give a nested block a width of zero, and then loops without end
///   over preformatted text in it.
/// - It keeps the width of a line as a sum over the pieces it was put
///   together from, asserts that this is the width of the whole line, and
///   subtracts it from the width of the block; for characters that join
///   with their neighbours the sum is not the width.
///
/// `spec_call_within_limits` says what is admitted, and why that keeps
/// clear of each of these. That the allocator has the memory that a call
/// asks for is assumed, as for every allocation.
#[verifier::external_body]
fn string_from_read(c: EngineConfig, html: &[u8], width: usize) -> (r: Result<
    String,
    html2text::Error,
>)
    requires
        engine_settings(c) is Some,
        spec_call_within_limits(
            html@,
            width,
            engine_settings(c).unwrap().pad_block_width,
            engine_settings(c).unwrap().raw,
        ),
    ensures
        engine_output(engine_settings(c).unwrap(), html@, width) == engine_outcome(r),
        width == 0 ==> r is Err,
{
    c.inner.string_from_read(html, width)
}

/// `ToString::to_string` on an `html2text::Error`: the message that the
/// error displays. Every error of the engine displays a fixed text that is
/// not empty.
#[verifier::external_body]
fn error_message(e: &html2text::Error) -> (r: String)
    ensures
        r@ == engine_message(*e),
        r@.len() > 0,
{
    e.to_string()
}

/// Why a rendering failed, in the engine's own words.
#[derive(Debug)]
pub struct RenderError {
    pub message: String,
}

impl View for RenderError {
    type V = Seq<char>;

    open spec fn view(&self) -> Seq<char> {
        self.message@
    }
}

impl RenderError {
    pub fn message(&self) -> (r: &str)
        ensures
            r@ == self@,
    {
        self.message.as_str()
    }
}

/// The text or message that an outcome carries.
pub open spec fn outcome_view(outcome: Result<String, RenderError>) -> Result<
    Seq<char>,
    Seq<char>,
> {
    match outcome {
        Ok(text) => Ok(text@),
        Err(e) => Err(e@),
    }
}

/// What rendering `html` under `config` gives: the engine's output for the
/// settings of `config`, at the width of `config`.
pub open spec fn spec_render(html: Seq<u8>, config: RenderConfig) -> Result<Seq<char>, Seq<char>> {
    engine_output(EngineSettings::of(config), html, config.width)
}

/// Builds the engine's configuration for `config`.
///
/// A setter that could only repeat the engine's default is left out; the
/// settings that result are those of `config` all the same.
fn engine_config(config: &RenderConfig) -> (r: EngineConfig)
    ensures
        engine_settings(r) == Some(EngineSettings::of(*config)),
{
    let mut engine = max_wrap_width(plain_no_decorate(), config.width);
    if config.decorate {
        engine = do_decorate(engine);
    }
    engine = link_footnotes(engine, config.link_footnotes);
    if !config.table_borders {
        engine = no_table_borders(engine);
    }
    if config.pad_block_width {
        engine = pad_block_width(engine);
    }
    if config.allow_width_overflow {
        engine = allow_width_overflow(engine);
    }
    engine = min_wrap_width(engine, config.min_wrap_width);
    if config.raw_mode {
        engine = raw_mode(engine, true);
    }
    if !config.wrap_links {
        engine = no_link_wrapping(engine);
    }
    unicode_strikeout(engine, config.unicode_strikeout)
}

/// Renders `html` under `config`: one call of the engine, no retry.
///
/// The text comes back as the engine made it. A failure carries the
/// engine's message and no text. The width handed to the rendering call is
/// the width that the engine's configuration was built with.
///
/// The configuration and the document must be within the engine's limits;
/// `renderable` tests them.
pub fn render(html: &[u8], config: &RenderConfig) -> (r: Result<String, RenderError>)
    requires
        spec_renderable(html@, *config),
    ensures
        outcome_view(r) == spec_render(html@, *config),
        r matches Err(e) ==> e@.len() > 0,
        config.width == 0 ==> r is Err,
{
    let engine = engine_config(config);
    match string_from_read(engine, html, config.width) {
        Ok(text) => Ok(text),
        Err(e) => Err(RenderError { message: error_message(&e) }),
    }
}

} // verus!
