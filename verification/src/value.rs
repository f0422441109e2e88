//! Dynamically typed option values and the rules that coerce them.
//!
//! A value of the wrong type never fails a decode. Each rule here says what
//! a field becomes instead.

use crate::text::same_text;
use vstd::prelude::*;

verus! {

/// A dynamically typed value, classified once where it enters the library.
#[derive(Clone, Copy, Debug, PartialEq, Eq, Structural)]
pub enum OptionValue {
    /// The marker that stands for "no limit".
    Unbounded,
    /// A truth value.
    Boolean(bool),
    /// An integer of any sign.
    Integer(i128),
    /// Anything else: text, a list, an unknown symbol.
    Other,
}

impl OptionValue {
    /// The value that a bare symbol stands for: `infinity` is the unbounded
    /// marker, `true` and `false` are the truth values, any other symbol has
    /// no meaning of its own.
    pub open spec fn spec_from_symbol(symbol: Seq<char>) -> OptionValue {
        if symbol == "infinity"@ {
            OptionValue::Unbounded
        } else if symbol == "true"@ {
            OptionValue::Boolean(true)
        } else if symbol == "false"@ {
            OptionValue::Boolean(false)
        } else {
            OptionValue::Other
        }
    }

    /// The truth value that `self` holds, if it holds one.
    pub open spec fn spec_as_bool(self) -> Option<bool> {
        match self {
            OptionValue::Boolean(b) => Some(b),
            _ => None,
        }
    }

    /// The count that `self` holds: an integer that is not negative and fits
    /// a `usize`.
    pub open spec fn spec_as_count(self) -> Option<usize> {
        match self {
            OptionValue::Integer(n) if 0 <= n <= usize::MAX => Some(n as usize),
            _ => None,
        }
    }

    /// The width that `self` asks for: the largest `usize` for the unbounded
    /// marker, the number itself for a count. Zero is a count like any other.
    pub open spec fn spec_as_width(self) -> Option<usize> {
        match self {
            OptionValue::Unbounded => Some(usize::MAX),
            _ => self.spec_as_count(),
        }
    }

    /// A flag decoded from `self`: its truth value, or `default` where it
    /// holds none.
    pub open spec fn spec_bool_or(self, default: bool) -> bool {
        match self.spec_as_bool() {
            Some(b) => b,
            None => default,
        }
    }

    /// A count decoded from `self`: its count, or `default` where it holds
    /// none.
    pub open spec fn spec_count_or(self, default: usize) -> usize {
        match self.spec_as_count() {
            Some(n) => n,
            None => default,
        }
    }

    /// A width decoded from `self`: the width it asks for, or `current`
    /// where it asks for none.
    pub open spec fn spec_width_or(self, current: usize) -> usize {
        match self.spec_as_width() {
            Some(w) => w,
            None => current,
        }
    }

    pub fn from_symbol(symbol: &str) -> (r: OptionValue)
        ensures
            r == OptionValue::spec_from_symbol(symbol@),
    {
        if same_text(symbol, "infinity") {
            OptionValue::Unbounded
        } else if same_text(symbol, "true") {
            OptionValue::Boolean(true)
        } else if same_text(symbol, "false") {
            OptionValue::Boolean(false)
        } else {
            OptionValue::Other
        }
    }

    #[verifier::when_used_as_spec(spec_as_bool)]
    pub fn as_bool(self) -> (r: Option<bool>)
        ensures
            r == self.spec_as_bool(),
    {
        match self {
            OptionValue::Boolean(b) => Some(b),
            _ => None,
        }
    }

    #[verifier::when_used_as_spec(spec_as_count)]
    pub fn as_count(self) -> (r: Option<usize>)
        ensures
            r == self.spec_as_count(),
    {
        match self {
            OptionValue::Integer(n) => {
                if 0 <= n && n <= usize::MAX as i128 {
                    Some(n as usize)
                } else {
                    None
                }
            },
            _ => None,
        }
    }

    #[verifier::when_used_as_spec(spec_as_width)]
    pub fn as_width(self) -> (r: Option<usize>)
        ensures
            r == self.spec_as_width(),
    {
        match self {
            OptionValue::Unbounded => Some(usize::MAX),
            _ => self.as_count(),
        }
    }

    #[verifier::when_used_as_spec(spec_bool_or)]
    pub fn bool_or(self, default: bool) -> (r: bool)
        ensures
            r == self.spec_bool_or(default),
    {
        match self.as_bool() {
            Some(b) => b,
            None => default,
        }
    }

    #[verifier::when_used_as_spec(spec_count_or)]
    pub fn count_or(self, default: usize) -> (r: usize)
        ensures
            r == self.spec_count_or(default),
    {
        match self.as_count() {
            Some(n) => n,
            None => default,
        }
    }

    #[verifier::when_used_as_spec(spec_width_or)]
    pub fn width_or(self, current: usize) -> (r: usize)
        ensures
            r == self.spec_width_or(current),
    {
        match self.as_width() {
            Some(w) => w,
            None => current,
        }
    }
}

} // verus!
