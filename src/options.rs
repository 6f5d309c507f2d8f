//! Which images the program shows, from the options it was given.

use vstd::prelude::*;
use vstd::string::to_string_from_display_ensures_for_str;

verus! {

/// The theme shown when no option names a source.
pub const DEFAULT_THEME: &'static str = "cat";

/// Where the slideshow's images come from.
#[derive(Clone, Debug)]
pub enum Source {
    /// A directory of images under the themes directory.
    Theme(String),
    /// Generated images, from the prompt stored under this key in the configuration.
    Key(String),
    /// Generated images, from this prompt.
    Prompt(String),
}

#[derive(Clone, Copy, Debug, PartialEq, Eq, Structural)]
pub enum UsageError {
    /// More than one of theme, key and prompt was given.
    ConflictingSources,
}

/// The source named by the options, given at most one of them; the default
/// theme when none is given.
pub fn select_source(
    theme: Option<String>,
    key: Option<String>,
    prompt: Option<String>,
) -> (r: Result<Source, UsageError>)
    ensures
        match (theme, key, prompt) {
            (Some(t), None, None) => r matches Ok(Source::Theme(s)) && s == t,
            (None, Some(k), None) => r matches Ok(Source::Key(s)) && s == k,
            (None, None, Some(p)) => r matches Ok(Source::Prompt(s)) && s == p,
            (None, None, None) => r matches Ok(Source::Theme(s)) && s@ == DEFAULT_THEME@,
            _ => r == Err::<Source, UsageError>(UsageError::ConflictingSources),
        },
{
    match (theme, key, prompt) {
        (Some(t), None, None) => Ok(Source::Theme(t)),
        (None, Some(k), None) => Ok(Source::Key(k)),
        (None, None, Some(p)) => Ok(Source::Prompt(p)),
        (None, None, None) => {
            let name = DEFAULT_THEME.to_string();
            proof {
                to_string_from_display_ensures_for_str(DEFAULT_THEME, name);
            }
            Ok(Source::Theme(name))
        },
        _ => Err(UsageError::ConflictingSources),
    }
}

} // verus!
