use vstd::prelude::*;

verus! {

/// The languages offered by the picker.
#[derive(Debug, Clone, Copy, PartialEq, Eq, Structural)]
pub enum Language {
    Rust,
    Elm,
    Ruby,
    Haskell,
    C,
    JavaScript,
    Other,
}

/// The order in which the picker lists the languages.
pub open spec fn listed() -> Seq<Language> {
    seq![
        Language::C,
        Language::Elm,
        Language::Ruby,
        Language::Haskell,
        Language::Rust,
        Language::JavaScript,
        Language::Other,
    ]
}

/// The label shown for a language.
pub open spec fn label_of(l: Language) -> Seq<char> {
    match l {
        Language::Rust => "Rust"@,
        Language::Elm => "Elm"@,
        Language::Ruby => "Ruby"@,
        Language::Haskell => "Haskell"@,
        Language::C => "C"@,
        Language::JavaScript => "JavaScript"@,
        Language::Other => "Other language"@,
    }
}

impl Default for Language {
    fn default() -> (r: Language)
        ensures
            r == Language::Rust,
    {
        Language::Rust
    }
}

impl Language {
    /// Every language, in the order the picker lists them.
    pub fn all() -> (r: Vec<Language>)
        ensures
            r@ == listed(),
    {
        let r = vec![
            Language::C,
            Language::Elm,
            Language::Ruby,
            Language::Haskell,
            Language::Rust,
            Language::JavaScript,
            Language::Other,
        ];
        assert(r@ =~= listed());
        r
    }

    /// The label shown for the language.
    pub fn label(&self) -> (r: &'static str)
        ensures
            r@ == label_of(*self),
    {
        match self {
            Language::Rust => "Rust",
            Language::Elm => "Elm",
            Language::Ruby => "Ruby",
            Language::Haskell => "Haskell",
            Language::C => "C",
            Language::JavaScript => "JavaScript",
            Language::Other => "Other language",
        }
    }
}

/// An event of the picker.
#[derive(Debug, Clone, Copy, PartialEq, Eq, Structural)]
pub enum PickerMessage {
    LanguageSelected(Language),
}

/// The picker's state: the language chosen, if any.
#[derive(Debug, Clone, Copy, PartialEq, Eq, Structural)]
pub struct Picker {
    pub selected_language: Option<Language>,
}

impl Picker {
    /// The state after selecting `l`.
    pub open spec fn selected(self, l: Language) -> Picker {
        Picker { selected_language: Some(l) }
    }

    /// A picker with nothing chosen yet.
    pub fn new() -> (r: Picker)
        ensures
            r.selected_language is None,
    {
        Picker { selected_language: None }
    }

    /// Handles one event.
    pub fn update(&mut self, message: PickerMessage)
        ensures
            match message {
                PickerMessage::LanguageSelected(l) => *final(self) == old(self).selected(l),
            },
    {
        match message {
            PickerMessage::LanguageSelected(l) => {
                self.selected_language = Some(l);
            },
        }
    }
}

/// Selecting a language leaves exactly that language selected, and selecting it
/// again changes nothing.
pub proof fn lemma_select_idempotent(p: Picker, l: Language)
    ensures
        p.selected(l).selected_language == Some(l),
        p.selected(l).selected(l) == p.selected(l),
{
}

} // verus!
