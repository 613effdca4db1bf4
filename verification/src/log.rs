//! Messages between the prompts, with no interaction: one styled block each.

use vstd::prelude::*;
use crate::theme::Theme;

verus! {

/// A message behind `symbol`.
pub fn log(theme: &Theme, text: &str, symbol: &str) -> (out: String)
    ensures
        out@ == theme.log(text@, symbol@),
{
    theme.format_log(text, symbol)
}

/// A remark.
pub fn remark(theme: &Theme, text: &str) -> (out: String)
    ensures
        out@ == theme.log(text@, theme.remark_mark()),
{
    let symbol = theme.remark_symbol();
    log(theme, text, symbol.as_str())
}

/// A piece of information.
pub fn info(theme: &Theme, text: &str) -> (out: String)
    ensures
        out@ == theme.log(text@, theme.info_mark()),
{
    let symbol = theme.info_symbol();
    log(theme, text, symbol.as_str())
}

/// A warning.
pub fn warning(theme: &Theme, message: &str) -> (out: String)
    ensures
        out@ == theme.log(message@, theme.warning_mark()),
{
    let symbol = theme.warning_symbol();
    log(theme, message, symbol.as_str())
}

/// An error.
pub fn error(theme: &Theme, message: &str) -> (out: String)
    ensures
        out@ == theme.log(message@, theme.error_mark()),
{
    let symbol = theme.error_symbol();
    log(theme, message, symbol.as_str())
}

/// A success.
pub fn success(theme: &Theme, message: &str) -> (out: String)
    ensures
        out@ == theme.log(message@, theme.active_mark()),
{
    let symbol = theme.active_symbol();
    log(theme, message, symbol.as_str())
}

/// A step that is done.
pub fn step(theme: &Theme, message: &str) -> (out: String)
    ensures
        out@ == theme.log(message@, theme.submit_mark()),
{
    let symbol = theme.submit_symbol();
    log(theme, message, symbol.as_str())
}

} // verus!
