//! What a battery's sensor files hold, and how a reading can fail.

use crate::decimal::{parse_u8, parse_unsigned};
use vstd::prelude::*;
use vstd::string::*;

verus! {

/// Why a battery could not be read.
#[derive(Clone, Debug, PartialEq, Eq)]
pub enum BatteryError {
    /// The sensor file could not be read; the text says why.
    IOError(String),
    /// The sensor file does not hold a capacity; the text is what it holds.
    ParseError(String),
}

/// A `BatteryError` with its texts as character sequences.
pub enum BatteryErrorView {
    IOError(Seq<char>),
    ParseError(Seq<char>),
}

impl BatteryErrorView {
    /// The text that describes the failure.
    pub open spec fn message(self) -> Seq<char> {
        match self {
            BatteryErrorView::IOError(text) => text,
            BatteryErrorView::ParseError(text) => text,
        }
    }
}

impl View for BatteryError {
    type V = BatteryErrorView;

    open spec fn view(&self) -> BatteryErrorView {
        match self {
            BatteryError::IOError(text) => BatteryErrorView::IOError(text@),
            BatteryError::ParseError(text) => BatteryErrorView::ParseError(text@),
        }
    }
}

impl BatteryError {
    /// The text that describes the failure.
    pub fn message(&self) -> (text: String)
        ensures
            text@ == self@.message(),
    {
        match self {
            BatteryError::IOError(text) => text.clone(),
            BatteryError::ParseError(text) => text.clone(),
        }
    }
}

/// A sensor file's content without its last character, the line end.
pub open spec fn property_text(content: Seq<char>) -> Seq<char> {
    if content.len() > 0 {
        content.drop_last()
    } else {
        content
    }
}

/// The capacity that a sensor file's content states, if it states one: the
/// content without its line end is a decimal number that fits in 8 bits.
pub open spec fn capacity_text(content: Seq<char>) -> Option<nat> {
    parse_unsigned(property_text(content), u8::MAX as nat)
}

/// Takes the line end off a sensor file's content. Empty content stays
/// empty.
pub fn property_value(content: &str) -> (value: &str)
    ensures
        value@ == property_text(content@),
{
    let n: usize = content.unicode_len();
    if n == 0 {
        content
    } else {
        content.substring_char(0, n - 1)
    }
}

/// Reads the capacity from the content of a battery's capacity file.
pub fn parse_capacity(content: &str) -> (r: Result<u8, BatteryError>)
    ensures
        match r {
            Ok(capacity) => capacity_text(content@) == Some(capacity as nat),
            Err(e) => capacity_text(content@) is None && e@ == BatteryErrorView::ParseError(
                property_text(content@),
            ),
        },
{
    let value = property_value(content);
    match parse_u8(value) {
        Some(capacity) => Ok(capacity),
        None => Err(BatteryError::ParseError(String::from_str(value))),
    }
}

} // verus!
