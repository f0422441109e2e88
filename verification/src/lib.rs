//! Decoding of rendering options and the bridge to the HTML-to-text engine.
//!
//! A caller hands over HTML bytes and a loosely typed list of options. The
//! options are decoded into a [`RenderConfig`], the engine is run once with
//! that configuration, and its outcome comes back as a tagged [`Reply`].
//!
//! The engine does not return from every input. [`renderable`] tests an
//! input against the limits within which it does; the `try_` functions and
//! [`convert_or_decline`] make that test before they call it.

pub mod config;
pub mod convert;
pub mod engine;
pub mod laws;
pub mod limits;
pub mod name;
pub mod text;
pub mod value;

pub use config::OptionEntry;
pub use config::RenderConfig;
pub use config::Width;
pub use config::UNBOUNDED_WIDTH;
pub use convert::convert;
pub use convert::convert_or_decline;
pub use convert::convert_with_width;
pub use convert::try_convert;
pub use convert::try_convert_with_width;
pub use convert::Reply;
pub use convert::ReplyTag;
pub use engine::render;
pub use engine::RenderError;
pub use limits::renderable;
pub use name::OptionName;
pub use value::OptionValue;
