//! The languages that the interface can be shown in.

use vstd::prelude::*;

verus! {

/// A language of the interface.
///
/// Phrases that have no entry for a language are shown in English.
#[derive(Clone, Copy, Debug, PartialEq, Eq, Hash, Structural)]
pub enum Language {
    /// English.
    EN,
    /// Italian.
    IT,
    /// French.
    FR,
    /// Spanish.
    ES,
    /// Polish.
    PL,
    /// German.
    DE,
    /// Ukrainian.
    UK,
    /// Simplified Chinese.
    ZH,
    /// Romanian.
    RO,
    /// Korean.
    KO,
    /// Portuguese.
    PT,
    /// Turkish.
    TR,
    /// Russian.
    RU,
    /// Greek.
    EL,
    /// Persian.
    FA,
    /// Swedish.
    SV,
    /// Finnish.
    FI,
    /// Japanese.
    JA,
    /// Uzbek.
    UZ,
}

impl Language {
    /// Whether phrases have texts of their own in this language. In every
    /// other language all phrases are shown in English.
    pub open spec fn has_texts(self) -> bool {
        self is EN || self is ES || self is IT || self is FR || self is DE
    }
}

impl Default for Language {
    fn default() -> (language: Language)
        ensures
            language == Language::EN,
    {
        Language::EN
    }
}

} // verus!
