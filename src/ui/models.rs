//! The practice screen: one prompt to type, no opponent.
use crate::ui::fsm::Key;
use crate::ui::types::{is_fresh_prompt, prompt_keys};
use vstd::prelude::*;

pub use crate::ui::types::{CharState, PromptKey, TouchState};

verus! {

/// The state of the practice screen.
pub struct App {
    /// The keys of the prompt.
    pub prompt: Vec<PromptKey>,
    /// The position of the cursor.
    pub position: u16,
    pub help_text: String,
}

impl App {
    /// Practice on `quote`, the cursor on its first character.
    pub fn new(quote: String) -> (r: Self)
        ensures
            is_fresh_prompt(r.prompt@, quote@),
            r.position == 0,
            r.help_text@.len() == 0,
    {
        App { prompt: prompt_keys(quote.as_str()), position: 0, help_text: String::new() }
    }
}

impl Default for App {
    fn default() -> (r: App)
        ensures
            r.prompt@.len() == 0,
            r.position == 0,
            r.help_text@.len() == 0,
    {
        App { prompt: Vec::new(), position: 0, help_text: String::new() }
    }
}

/// What the practice screen reacts to.
pub enum UiMessage {
    Hello,
    Input(Key),
}

} // verus!
