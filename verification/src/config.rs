//! The settings of the interpreter.

use crate::text::opt_text;
use vstd::prelude::*;
use vstd::string::*;

verus! {

/// What the user can set.
#[derive(Debug, Clone)]
pub struct VshConfig {
    /// The grammar that help texts are written in.
    pub default_syntax: Option<String>,
    /// Whether an error is followed by a hint.
    pub show_suggestions: bool,
    /// Whether an error is followed by an example.
    pub show_examples: bool,
    /// Whether an error is explained at length.
    pub explain_errors: bool,
    /// The prompt, where the built-in one is not wanted.
    pub prompt: Option<String>,
    /// The name of the colour scheme.
    pub color_scheme: Option<String>,
}

/// The settings as a mathematical value.
pub struct ConfigView {
    pub default_syntax: Option<Seq<char>>,
    pub show_suggestions: bool,
    pub show_examples: bool,
    pub explain_errors: bool,
    pub prompt: Option<Seq<char>>,
    pub color_scheme: Option<Seq<char>>,
}

impl View for VshConfig {
    type V = ConfigView;

    open spec fn view(&self) -> ConfigView {
        ConfigView {
            default_syntax: opt_text(self.default_syntax),
            show_suggestions: self.show_suggestions,
            show_examples: self.show_examples,
            explain_errors: self.explain_errors,
            prompt: opt_text(self.prompt),
            color_scheme: opt_text(self.color_scheme),
        }
    }
}

/// The settings of a fresh installation: the adaptive grammar, every aid
/// switched on, the prompt `vsh$ ` and the default colours.
pub open spec fn default_config() -> ConfigView {
    ConfigView {
        default_syntax: Some("adaptive"@),
        show_suggestions: true,
        show_examples: true,
        explain_errors: true,
        prompt: Some("vsh$ "@),
        color_scheme: Some("default"@),
    }
}

impl Default for VshConfig {
    fn default() -> (r: Self)
        ensures
            r@ == default_config(),
    {
        VshConfig {
            default_syntax: Some("adaptive".to_string()),
            show_suggestions: true,
            show_examples: true,
            explain_errors: true,
            prompt: Some("vsh$ ".to_string()),
            color_scheme: Some("default".to_string()),
        }
    }
}

} // verus!
