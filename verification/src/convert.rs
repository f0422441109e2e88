//! The two call shapes and the tagged reply.
//!
//! Both shapes end in the same `render`. The option-list shape answers with
//! a tagged `Reply` and never with an error value; the width-only shape
//! hands the engine's failure on as an `Err`. Each shape comes twice: as a
//! function that asks its caller for input within the engine's limits, and
//! as a `try_` function that tests the input and answers `None` outside
//! them. `convert_or_decline` turns that `None` into a failure reply of its
//! own, so that a caller always gets one of the two tags.

use crate::config::entry_views;
use crate::config::OptionEntry;
use crate::config::OptionEntryView;
use crate::config::RenderConfig;
use crate::config::Width;
use crate::engine::outcome_view;
use crate::engine::render;
use crate::engine::spec_render;
use crate::engine::RenderError;
use crate::limits::renderable;
use crate::limits::spec_renderable;
use vstd::prelude::*;

verus! {

/// The tag of a reply.
#[derive(Clone, Copy, Debug, PartialEq, Eq, Structural)]
pub enum ReplyTag {
    /// The body is the rendered text.
    Success,
    /// The body is the engine's message.
    Failure,
}

impl ReplyTag {
    /// The word that a caller matches on.
    pub open spec fn spec_name(self) -> Seq<char> {
        match self {
            ReplyTag::Success => "ok"@,
            ReplyTag::Failure => "error"@,
        }
    }

    pub fn name(self) -> (r: &'static str)
        ensures
            r@ == self.spec_name(),
    {
        match self {
            ReplyTag::Success => "ok",
            ReplyTag::Failure => "error",
        }
    }
}

/// The answer to a conversion: a tag and one string, never both a text and
/// a message.
#[derive(Debug)]
pub struct Reply {
    pub tag: ReplyTag,
    pub body: String,
}

impl View for Reply {
    type V = Result<Seq<char>, Seq<char>>;

    open spec fn view(&self) -> Result<Seq<char>, Seq<char>> {
        match self.tag {
            ReplyTag::Success => Ok(self.body@),
            ReplyTag::Failure => Err(self.body@),
        }
    }
}

/// What a reply says of an input that the engine cannot be given.
pub open spec fn spec_declined() -> Seq<char> {
    "The input is outside the limits of the layout engine."@
}

impl Reply {
    /// The reply to an input that the engine cannot be given: a failure
    /// that says so.
    pub fn declined() -> (r: Reply)
        ensures
            r@ == Err::<Seq<char>, Seq<char>>(spec_declined()),
    {
        Reply {
            tag: ReplyTag::Failure,
            body: "The input is outside the limits of the layout engine.".to_string(),
        }
    }

    /// Tags an outcome: a text goes out under `Success` as it is, a
    /// failure goes out under `Failure` as its message.
    pub fn from_outcome(outcome: Result<String, RenderError>) -> (r: Reply)
        ensures
            r@ == outcome_view(outcome),
    {
        match outcome {
            Ok(text) => Reply { tag: ReplyTag::Success, body: text },
            Err(e) => Reply { tag: ReplyTag::Failure, body: e.message },
        }
    }
}

/// What the option-list shape answers for `html` and `options`.
pub open spec fn spec_convert(html: Seq<u8>, options: Seq<OptionEntryView>) -> Result<
    Seq<char>,
    Seq<char>,
> {
    spec_render(html, RenderConfig::spec_decode(options))
}

/// What the width-only shape answers for `html` and `width`.
pub open spec fn spec_convert_with_width(html: Seq<u8>, width: Width) -> Result<
    Seq<char>,
    Seq<char>,
> {
    spec_render(html, RenderConfig::spec_with_width(width))
}

/// Whether the engine can be given `html` under what `options` decode to.
pub open spec fn spec_convertible(html: Seq<u8>, options: Seq<OptionEntryView>) -> bool {
    spec_renderable(html, RenderConfig::spec_decode(options))
}

/// Converts `html` under a list of options: decodes the options, renders
/// once, and tags what came back.
///
/// The options must decode to a configuration that, with the document, is
/// within the engine's limits; `try_convert` makes that test itself.
pub fn convert(html: &[u8], options: &[OptionEntry]) -> (r: Reply)
    requires
        spec_convertible(html@, entry_views(options@)),
    ensures
        r@ == spec_convert(html@, entry_views(options@)),
        r.tag == ReplyTag::Failure ==> r.body@.len() > 0,
        RenderConfig::spec_decode(entry_views(options@)).width == 0 ==> r.tag == ReplyTag::Failure,
{
    let config = RenderConfig::decode(options);
    Reply::from_outcome(render(html, &config))
}

/// Converts any `html` under any list of options: `None`, with nothing
/// rendered, where the configuration or the document is outside the
/// engine's limits, and the reply of `convert` otherwise.
pub fn try_convert(html: &[u8], options: &[OptionEntry]) -> (r: Option<Reply>)
    ensures
        r is Some <==> spec_convertible(html@, entry_views(options@)),
        r matches Some(reply) ==> {
            &&& reply@ == spec_convert(html@, entry_views(options@))
            &&& (reply.tag == ReplyTag::Failure ==> reply.body@.len() > 0)
            &&& (RenderConfig::spec_decode(entry_views(options@)).width == 0 ==> reply.tag
                == ReplyTag::Failure)
        },
{
    let config = RenderConfig::decode(options);
    if renderable(html, &config) {
        Some(Reply::from_outcome(render(html, &config)))
    } else {
        None
    }
}

/// Converts any `html` under any list of options and always answers with a
/// reply: that of `convert` where the input is within the engine's limits,
/// and the failure of `Reply::declined` where it is not.
pub fn convert_or_decline(html: &[u8], options: &[OptionEntry]) -> (r: Reply)
    ensures
        spec_convertible(html@, entry_views(options@)) ==> r@ == spec_convert(
            html@,
            entry_views(options@),
        ),
        !spec_convertible(html@, entry_views(options@)) ==> r@ == Err::<Seq<char>, Seq<char>>(
            spec_declined(),
        ),
{
    match try_convert(html, options) {
        Some(reply) => reply,
        None => Reply::declined(),
    }
}

/// Converts `html` at a width, every other option at its default.
///
/// The document and the width must be within the engine's limits;
/// `try_convert_with_width` makes that test itself.
pub fn convert_with_width(html: &[u8], width: Width) -> (r: Result<String, RenderError>)
    requires
        spec_renderable(html@, RenderConfig::spec_with_width(width)),
    ensures
        outcome_view(r) == spec_convert_with_width(html@, width),
        r matches Err(e) ==> e@.len() > 0,
        width.spec_columns() == 0 ==> r is Err,
{
    let config = RenderConfig::with_width(width);
    render(html, &config)
}

/// Converts any `html` at a width: `None`, with nothing rendered, where the
/// document or the width is outside the engine's limits, and the outcome of
/// `convert_with_width` otherwise.
pub fn try_convert_with_width(html: &[u8], width: Width) -> (r: Option<
    Result<String, RenderError>,
>)
    ensures
        r is Some <==> spec_renderable(html@, RenderConfig::spec_with_width(width)),
        r matches Some(outcome) ==> {
            &&& outcome_view(outcome) == spec_convert_with_width(html@, width)
            &&& (outcome matches Err(e) ==> e@.len() > 0)
            &&& (width.spec_columns() == 0 ==> outcome is Err)
        },
{
    let config = RenderConfig::with_width(width);
    if renderable(html, &config) {
        Some(render(html, &config))
    } else {
        None
    }
}

} // verus!
