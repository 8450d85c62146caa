//! Phrases shared by several pages.

use vstd::prelude::*;

use crate::translations::language::Language;

verus! {

/// What [`network_adapter_translation`] shows in each language.
pub open spec fn network_adapter_text(language: Language) -> Seq<char> {
    match language {
        Language::IT => "Adattatore di rete"@,
        Language::FR => "Carte réseau"@,
        Language::ES => "Adaptador de red"@,
        Language::DE => "Netzwerkadapter"@,
        _ => "Network adapter"@,
    }
}

/// Label of the network adapter.
pub fn network_adapter_translation(language: Language) -> (text: &'static str)
    ensures
        text@ == network_adapter_text(language),
{
    match language {
        Language::IT => "Adattatore di rete",
        Language::FR => "Carte réseau",
        Language::ES => "Adaptador de red",
        Language::DE => "Netzwerkadapter",
        _ => "Network adapter",
    }
}

/// What [`appearance_title_translation`] shows in each language.
pub open spec fn appearance_title_text(language: Language) -> Seq<char> {
    match language {
        Language::IT => "Scegli il tuo tema preferito"@,
        Language::FR => "Sélectionnez votre thème préféré"@,
        Language::ES => "Elige tu tema favorito"@,
        Language::DE => "Wähle dein Lieblingsdesign"@,
        _ => "Choose your favorite theme"@,
    }
}

/// Title of the appearance settings.
pub fn appearance_title_translation(language: Language) -> (text: &'static str)
    ensures
        text@ == appearance_title_text(language),
{
    match language {
        Language::IT => "Scegli il tuo tema preferito",
        Language::FR => "Sélectionnez votre thème préféré",
        Language::ES => "Elige tu tema favorito",
        Language::DE => "Wähle dein Lieblingsdesign",
        _ => "Choose your favorite theme",
    }
}

/// What [`yeti_night_translation`] shows in each language.
pub open spec fn yeti_night_text(language: Language) -> Seq<char> {
    match language {
        Language::IT => "Il classico tema scuro di Sniffnet"@,
        Language::FR => "Le thème sombre classique de Sniffnet"@,
        Language::ES => "El tema oscuro clásico de Sniffnet"@,
        Language::DE => "Sniffnets klassisches dunkles Design"@,
        _ => "Sniffnet's classic dark theme"@,
    }
}

/// Description of the dark built-in style.
pub fn yeti_night_translation(language: Language) -> (text: &'static str)
    ensures
        text@ == yeti_night_text(language),
{
    match language {
        Language::IT => "Il classico tema scuro di Sniffnet",
        Language::FR => "Le thème sombre classique de Sniffnet",
        Language::ES => "El tema oscuro clásico de Sniffnet",
        Language::DE => "Sniffnets klassisches dunkles Design",
        _ => "Sniffnet's classic dark theme",
    }
}

/// What [`yeti_day_translation`] shows in each language.
pub open spec fn yeti_day_text(language: Language) -> Seq<char> {
    match language {
        Language::IT => "Il classico tema chiaro di Sniffnet"@,
        Language::FR => "Le thème clair classique de Sniffnet"@,
        Language::ES => "El tema claro clásico de Sniffnet"@,
        Language::DE => "Sniffnets klassisches helles Design"@,
        _ => "Sniffnet's classic light theme"@,
    }
}

/// Description of the light built-in style.
pub fn yeti_day_translation(language: Language) -> (text: &'static str)
    ensures
        text@ == yeti_day_text(language),
{
    match language {
        Language::IT => "Il classico tema chiaro di Sniffnet",
        Language::FR => "Le thème clair classique de Sniffnet",
        Language::ES => "El tema claro clásico de Sniffnet",
        Language::DE => "Sniffnets klassisches helles Design",
        _ => "Sniffnet's classic light theme",
    }
}

/// What [`deep_sea_translation`] shows in each language.
pub open spec fn deep_sea_text(language: Language) -> Seq<char> {
    match language {
        Language::IT => "Per immergersi nel traffico di rete"@,
        Language::FR => "Pour plonger dans votre trafic réseau"@,
        Language::ES => "Para sumergirse en el tráfico de la red"@,
        Language::DE => "Um in den Netzwerkverkehr einzutauchen"@,
        _ => "To dive into network traffic"@,
    }
}

/// Description of the sea-colored built-in style.
pub fn deep_sea_translation(language: Language) -> (text: &'static str)
    ensures
        text@ == deep_sea_text(language),
{
    match language {
        Language::IT => "Per immergersi nel traffico di rete",
        Language::FR => "Pour plonger dans votre trafic réseau",
        Language::ES => "Para sumergirse en el tráfico de la red",
        Language::DE => "Um in den Netzwerkverkehr einzutauchen",
        _ => "To dive into network traffic",
    }
}

/// What [`mon_amour_translation`] shows in each language.
pub open spec fn mon_amour_text(language: Language) -> Seq<char> {
    match language {
        Language::IT => "Tema incantevole fatto per i sognatori"@,
        Language::FR => "Thème romantique fait pour les rêveurs"@,
        Language::ES => "Tema encantador hecho para soñadores"@,
        Language::DE => "Schönes Design für Träumer"@,
        _ => "Lovely theme made for dreamers"@,
    }
}

/// Description of the pink built-in style.
pub fn mon_amour_translation(language: Language) -> (text: &'static str)
    ensures
        text@ == mon_amour_text(language),
{
    match language {
        Language::IT => "Tema incantevole fatto per i sognatori",
        Language::FR => "Thème romantique fait pour les rêveurs",
        Language::ES => "Tema encantador hecho para soñadores",
        Language::DE => "Schönes Design für Träumer",
        _ => "Lovely theme made for dreamers",
    }
}

/// What [`color_gradients_translation`] shows in each language.
pub open spec fn color_gradients_text(language: Language) -> Seq<char> {
    match language {
        Language::IT => "Applica sfumature di colore"@,
        Language::FR => "Appliquer des gradients de couleur"@,
        Language::ES => "Aplicar gradientes de color"@,
        Language::DE => "Farbverläufe anwenden"@,
        _ => "Apply color gradients"@,
    }
}

/// Label of the gradient choice.
pub fn color_gradients_translation(language: Language) -> (text: &'static str)
    ensures
        text@ == color_gradients_text(language),
{
    match language {
        Language::IT => "Applica sfumature di colore",
        Language::FR => "Appliquer des gradients de couleur",
        Language::ES => "Aplicar gradientes de color",
        Language::DE => "Farbverläufe anwenden",
        _ => "Apply color gradients",
    }
}

/// In a language without texts of its own every phrase of this module reads
/// as in English.
pub proof fn lemma_other_languages_read_english(language: Language)
    requires
        !language.has_texts(),
    ensures
        network_adapter_text(language) == network_adapter_text(Language::EN),
        appearance_title_text(language) == appearance_title_text(Language::EN),
        yeti_night_text(language) == yeti_night_text(Language::EN),
        yeti_day_text(language) == yeti_day_text(Language::EN),
        deep_sea_text(language) == deep_sea_text(Language::EN),
        mon_amour_text(language) == mon_amour_text(Language::EN),
        color_gradients_text(language) == color_gradients_text(Language::EN),
{
}

} // verus!
