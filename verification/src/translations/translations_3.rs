//! Phrases of the settings pages and of the capture-export dialog.
//!
//! Every phrase has an English text. A language without an entry of its own
//! gets the English one.

use vstd::prelude::*;
use vstd::string::StringExecFns;

use crate::translations::language::Language;
use crate::translations::translations::{network_adapter_text, network_adapter_translation};

verus! {

/// What [`general_translation`] shows in each language.
pub open spec fn general_text(language: Language) -> Seq<char> {
    match language {
        Language::ES => "Generales"@,
        Language::IT => "Generali"@,
        Language::FR => "Général"@,
        Language::DE => "Allgemein"@,
        _ => "General"@,
    }
}

/// Heading of the general settings.
pub fn general_translation(language: Language) -> (text: &'static str)
    ensures
        text@ == general_text(language),
{
    match language {
        Language::ES => "Generales",
        Language::IT => "Generali",
        Language::FR => "Général",
        Language::DE => "Allgemein",
        _ => "General",
    }
}

/// What [`zoom_translation`] shows in each language.
pub open spec fn zoom_text(language: Language) -> Seq<char> {
    "Zoom"@
}

/// Label of the zoom control.
pub fn zoom_translation(language: Language) -> (text: &'static str)
    ensures
        text@ == zoom_text(language),
{
    "Zoom"
}

/// What [`mmdb_files_translation`] shows in each language.
pub open spec fn mmdb_files_text(language: Language) -> Seq<char> {
    match language {
        Language::ES => "Archivos de la base de datos"@,
        Language::IT => "File di database"@,
        Language::FR => "Fichiers de la base de données"@,
        Language::DE => "Datenbank Dateien"@,
        _ => "Database files"@,
    }
}

/// Label of the database file inputs.
pub fn mmdb_files_translation(language: Language) -> (text: &'static str)
    ensures
        text@ == mmdb_files_text(language),
{
    match language {
        Language::ES => "Archivos de la base de datos",
        Language::IT => "File di database",
        Language::FR => "Fichiers de la base de données",
        Language::DE => "Datenbank Dateien",
        _ => "Database files",
    }
}

/// What [`params_not_editable_translation`] shows in each language.
pub open spec fn params_not_editable_text(language: Language) -> Seq<char> {
    match language {
        Language::ES => "Los siguientes parámetros no pueden modificarse durante el análisis"@,
        Language::IT => "I seguenti parametri non sono modificabili durante l'analisi"@,
        Language::FR => "Les paramètres suivants ne peuvent pas être modifiés durant l'analyse"@,
        Language::DE => "Die folgenden Paramter können während der Analyse nicht verändert werden"@,
        _ => "The following parameters can't be modified during the analysis"@,
    }
}

/// Notice shown above settings that are locked while a capture runs.
pub fn params_not_editable_translation(language: Language) -> (text: &'static str)
    ensures
        text@ == params_not_editable_text(language),
{
    match language {
        Language::ES => "Los siguientes parámetros no pueden modificarse durante el análisis",
        Language::IT => "I seguenti parametri non sono modificabili durante l'analisi",
        Language::FR => "Les paramètres suivants ne peuvent pas être modifiés durant l'analyse",
        Language::DE => "Die folgenden Paramter können während der Analyse nicht verändert werden",
        _ => "The following parameters can't be modified during the analysis",
    }
}

/// What [`custom_style_translation`] shows in each language.
pub open spec fn custom_style_text(language: Language) -> Seq<char> {
    match language {
        Language::ES => "Estilo personalizado"@,
        Language::IT => "Stile personalizzato"@,
        Language::FR => "Style personnalisé"@,
        Language::DE => "Benutzerdefinierter Stil"@,
        _ => "Custom style"@,
    }
}

/// Label of the custom style input.
pub fn custom_style_translation(language: Language) -> (text: &'static str)
    ensures
        text@ == custom_style_text(language),
{
    match language {
        Language::ES => "Estilo personalizado",
        Language::IT => "Stile personalizzato",
        Language::FR => "Style personnalisé",
        Language::DE => "Benutzerdefinierter Stil",
        _ => "Custom style",
    }
}

/// What [`copy_translation`] shows in each language.
pub open spec fn copy_text(language: Language) -> Seq<char> {
    match language {
        Language::ES => "Copia"@,
        Language::IT => "Copia"@,
        Language::FR => "Copie"@,
        Language::DE => "Kopieren"@,
        _ => "Copy"@,
    }
}

/// Label of the copy action.
pub fn copy_translation(language: Language) -> (text: &'static str)
    ensures
        text@ == copy_text(language),
{
    match language {
        Language::ES => "Copia",
        Language::IT => "Copia",
        Language::FR => "Copie",
        Language::DE => "Kopieren",
        _ => "Copy",
    }
}

/// What [`port_translation`] shows in each language.
pub open spec fn port_text(language: Language) -> Seq<char> {
    match language {
        Language::ES => "Puerto"@,
        Language::IT => "Porta"@,
        _ => "Port"@,
    }
}

/// Label of a port filter.
pub fn port_translation(language: Language) -> (text: &'static str)
    ensures
        text@ == port_text(language),
{
    match language {
        Language::ES => "Puerto",
        Language::IT => "Porta",
        _ => "Port",
    }
}

/// What [`invalid_filters_translation`] shows in each language.
pub open spec fn invalid_filters_text(language: Language) -> Seq<char> {
    match language {
        Language::ES => "Filtros inválidos"@,
        Language::IT => "Filtri non validi"@,
        Language::FR => "Filtres invalides"@,
        Language::DE => "Ungültige Filter"@,
        _ => "Invalid filters"@,
    }
}

/// Message shown when the filters cannot be applied.
pub fn invalid_filters_translation(language: Language) -> (text: &'static str)
    ensures
        text@ == invalid_filters_text(language),
{
    match language {
        Language::ES => "Filtros inválidos",
        Language::IT => "Filtri non validi",
        Language::FR => "Filtres invalides",
        Language::DE => "Ungültige Filter",
        _ => "Invalid filters",
    }
}

/// What [`messages_translation`] shows in each language.
pub open spec fn messages_text(language: Language) -> Seq<char> {
    match language {
        Language::ES => "Mensajes"@,
        Language::IT => "Messaggi"@,
        Language::DE => "Nachrichten"@,
        _ => "Messages"@,
    }
}

/// Label of the message counter.
pub fn messages_translation(language: Language) -> (text: &'static str)
    ensures
        text@ == messages_text(language),
{
    match language {
        Language::ES => "Mensajes",
        Language::IT => "Messaggi",
        Language::DE => "Nachrichten",
        _ => "Messages",
    }
}

/// What [`link_type_translation`] shows in each language.
pub open spec fn link_type_text(language: Language) -> Seq<char> {
    match language {
        Language::ES => "Tipo de conexión"@,
        Language::IT => "Tipo di collegamento"@,
        Language::FR => "Type de connexion"@,
        Language::DE => "Verbindungsart"@,
        _ => "Link type"@,
    }
}

/// Label of an adapter's link type.
pub fn link_type_translation(language: Language) -> (text: &'static str)
    ensures
        text@ == link_type_text(language),
{
    match language {
        Language::ES => "Tipo de conexión",
        Language::IT => "Tipo di collegamento",
        Language::FR => "Type de connexion",
        Language::DE => "Verbindungsart",
        _ => "Link type",
    }
}

/// What [`style_from_file_translation`] shows in each language.
pub open spec fn style_from_file_text(language: Language) -> Seq<char> {
    match language {
        Language::ES => "Selecciona el estilo desde un archivo"@,
        Language::IT => "Seleziona lo stile da un file"@,
        Language::FR => "Sélectionner un style à partir d'un fichier"@,
        Language::DE => "Stil aus einer Datei wählen"@,
        _ => "Select style from a file"@,
    }
}

/// Tooltip of the button that picks a style file.
pub fn style_from_file_translation(language: Language) -> (text: &'static str)
    ensures
        text@ == style_from_file_text(language),
{
    match language {
        Language::ES => "Selecciona el estilo desde un archivo",
        Language::IT => "Seleziona lo stile da un file",
        Language::FR => "Sélectionner un style à partir d'un fichier",
        Language::DE => "Stil aus einer Datei wählen",
        _ => "Select style from a file",
    }
}

/// What [`database_from_file_translation`] shows in each language.
pub open spec fn database_from_file_text(language: Language) -> Seq<char> {
    match language {
        Language::ES => "Selecciona un archivo de base de datos"@,
        Language::IT => "Seleziona file di database"@,
        Language::FR => "Sélection d'un fichier de base de données"@,
        Language::DE => "Datenbank Datei auswählen"@,
        _ => "Select database file"@,
    }
}

/// Tooltip of the button that picks a database file.
pub fn database_from_file_translation(language: Language) -> (text: &'static str)
    ensures
        text@ == database_from_file_text(language),
{
    match language {
        Language::ES => "Selecciona un archivo de base de datos",
        Language::IT => "Seleziona file di database",
        Language::FR => "Sélection d'un fichier de base de données",
        Language::DE => "Datenbank Datei auswählen",
        _ => "Select database file",
    }
}

/// What [`filter_by_host_translation`] shows in each language.
pub open spec fn filter_by_host_text(language: Language) -> Seq<char> {
    match language {
        Language::ES => "Filtra por host de red"@,
        Language::IT => "Filtra per host di rete"@,
        Language::FR => "Filtrer par réseau hôte"@,
        Language::DE => "Nach Netzwerk-Host filtern"@,
        _ => "Filter by network host"@,
    }
}

/// Label of the host filter.
pub fn filter_by_host_translation(language: Language) -> (text: &'static str)
    ensures
        text@ == filter_by_host_text(language),
{
    match language {
        Language::ES => "Filtra por host de red",
        Language::IT => "Filtra per host di rete",
        Language::FR => "Filtrer par réseau hôte",
        Language::DE => "Nach Netzwerk-Host filtern",
        _ => "Filter by network host",
    }
}

/// What [`service_translation`] shows in each language.
pub open spec fn service_text(language: Language) -> Seq<char> {
    match language {
        Language::ES => "Servicio"@,
        Language::IT => "Servizio"@,
        _ => "Service"@,
    }
}

/// Label of a connection's service.
pub fn service_translation(language: Language) -> (text: &'static str)
    ensures
        text@ == service_text(language),
{
    match language {
        Language::ES => "Servicio",
        Language::IT => "Servizio",
        _ => "Service",
    }
}

/// What [`export_capture_translation`] shows in each language.
pub open spec fn export_capture_text(language: Language) -> Seq<char> {
    match language {
        Language::IT => "Esporta file di cattura"@,
        Language::FR => "Exporter le fichier de capture"@,
        Language::DE => "Aufzeichnungsdatei exportieren"@,
        _ => "Export capture file"@,
    }
}

/// Title of the capture-export dialog.
pub fn export_capture_translation(language: Language) -> (text: &'static str)
    ensures
        text@ == export_capture_text(language),
{
    match language {
        Language::IT => "Esporta file di cattura",
        Language::FR => "Exporter le fichier de capture",
        Language::DE => "Aufzeichnungsdatei exportieren",
        _ => "Export capture file",
    }
}

/// What [`directory_translation`] shows in each language.
pub open spec fn directory_text(language: Language) -> Seq<char> {
    match language {
        Language::IT => "Cartella"@,
        Language::FR => "Répertoire"@,
        Language::DE => "Ordner"@,
        _ => "Directory"@,
    }
}

/// Label of a file-system directory.
pub fn directory_translation(language: Language) -> (text: &'static str)
    ensures
        text@ == directory_text(language),
{
    match language {
        Language::IT => "Cartella",
        Language::FR => "Répertoire",
        Language::DE => "Ordner",
        _ => "Directory",
    }
}

/// What [`select_directory_translation`] shows in each language.
pub open spec fn select_directory_text(language: Language) -> Seq<char> {
    match language {
        Language::IT => "Seleziona cartella di destinazione"@,
        Language::FR => "Sélectionner le répertoire de destination"@,
        Language::DE => "Zielorder wählen"@,
        _ => "Select destination directory"@,
    }
}

/// Tooltip of the button that picks the export directory.
pub fn select_directory_translation(language: Language) -> (text: &'static str)
    ensures
        text@ == select_directory_text(language),
{
    match language {
        Language::IT => "Seleziona cartella di destinazione",
        Language::FR => "Sélectionner le répertoire de destination",
        Language::DE => "Zielorder wählen",
        _ => "Select destination directory",
    }
}

/// What [`file_name_translation`] shows in each language.
pub open spec fn file_name_text(language: Language) -> Seq<char> {
    match language {
        Language::IT => "Nome del file"@,
        Language::FR => "Nom du fichier"@,
        Language::DE => "Dateiname"@,
        _ => "File name"@,
    }
}

/// Label of the export file name.
pub fn file_name_translation(language: Language) -> (text: &'static str)
    ensures
        text@ == file_name_text(language),
{
    match language {
        Language::IT => "Nome del file",
        Language::FR => "Nom du fichier",
        Language::DE => "Dateiname",
        _ => "File name",
    }
}

/// What [`thumbnail_mode_translation`] shows in each language.
pub open spec fn thumbnail_mode_text(language: Language) -> Seq<char> {
    match language {
        Language::IT => "Modalità miniatura"@,
        Language::FR => "Mode miniature"@,
        Language::DE => "Bild-in-Bild Modus"@,
        _ => "Thumbnail mode"@,
    }
}

/// Label of the thumbnail mode.
pub fn thumbnail_mode_translation(language: Language) -> (text: &'static str)
    ensures
        text@ == thumbnail_mode_text(language),
{
    match language {
        Language::IT => "Modalità miniatura",
        Language::FR => "Mode miniature",
        Language::DE => "Bild-in-Bild Modus",
        _ => "Thumbnail mode",
    }
}

/// What [`learn_more_translation`] shows in each language.
pub open spec fn learn_more_text(language: Language) -> Seq<char> {
    match language {
        Language::IT => "Vuoi saperne di più?"@,
        Language::FR => "Voulez-vous en savoir davantage?"@,
        Language::DE => "Mehr erfahren"@,
        _ => "Do you want to learn more?"@,
    }
}

/// Question that invites the user to read more.
pub fn learn_more_translation(language: Language) -> (text: &'static str)
    ensures
        text@ == learn_more_text(language),
{
    match language {
        Language::IT => "Vuoi saperne di più?",
        Language::FR => "Voulez-vous en savoir davantage?",
        Language::DE => "Mehr erfahren",
        _ => "Do you want to learn more?",
    }
}

/// The sentence of [`unsupported_link_type_translation`] in each language,
/// without the line that names the adapter.
pub open spec fn unsupported_link_type_notice(language: Language) -> Seq<char> {
    match language {
        Language::ES => "La conexión asociada con este adaptador aún no esta implementada en Sniffnet..."@,
        Language::IT => "Il tipo di collegamento associato a questo adattatore di rete non è ancora supportato da Sniffnet..."@,
        Language::FR => "Le type de connexion associé à cet adaptateur n'est pas encore supporté par Sniffnet..."@,
        Language::DE => "Die Verbindungsart dieses Adapters wird noch nicht von Sniffnet unterstützt"@,
        _ => "The link type associated with this adapter is not supported by Sniffnet yet..."@,
    }
}

/// What [`unsupported_link_type_translation`] shows: the notice, an empty
/// line, and a line that names the adapter.
pub open spec fn unsupported_link_type_text(language: Language, adapter: Seq<char>) -> Seq<char> {
    unsupported_link_type_notice(language) + "\n\n"@ + network_adapter_text(language) + ": "@
        + adapter
}

/// Message shown when the chosen adapter has a link type that cannot be
/// analysed. The caller wraps the text in a widget.
pub fn unsupported_link_type_translation(language: Language, adapter: &str) -> (text: String)
    ensures
        text@ == unsupported_link_type_text(language, adapter@),
{
    let notice = match language {
        Language::ES => "La conexión asociada con este adaptador aún no esta implementada en Sniffnet...",
        Language::IT => "Il tipo di collegamento associato a questo adattatore di rete non è ancora supportato da Sniffnet...",
        Language::FR => "Le type de connexion associé à cet adaptateur n'est pas encore supporté par Sniffnet...",
        Language::DE => "Die Verbindungsart dieses Adapters wird noch nicht von Sniffnet unterstützt",
        _ => "The link type associated with this adapter is not supported by Sniffnet yet...",
    };
    let mut text = String::from_str(notice);
    text.append("\n\n");
    text.append(network_adapter_translation(language));
    text.append(": ");
    text.append(adapter);
    text
}

/// In a language without texts of its own every phrase of this module reads
/// as in English.
pub proof fn lemma_other_languages_read_english(language: Language)
    requires
        !language.has_texts(),
    ensures
        general_text(language) == general_text(Language::EN),
        zoom_text(language) == zoom_text(Language::EN),
        mmdb_files_text(language) == mmdb_files_text(Language::EN),
        params_not_editable_text(language) == params_not_editable_text(Language::EN),
        custom_style_text(language) == custom_style_text(Language::EN),
        copy_text(language) == copy_text(Language::EN),
        port_text(language) == port_text(Language::EN),
        invalid_filters_text(language) == invalid_filters_text(Language::EN),
        messages_text(language) == messages_text(Language::EN),
        link_type_text(language) == link_type_text(Language::EN),
        style_from_file_text(language) == style_from_file_text(Language::EN),
        database_from_file_text(language) == database_from_file_text(Language::EN),
        filter_by_host_text(language) == filter_by_host_text(Language::EN),
        service_text(language) == service_text(Language::EN),
        export_capture_text(language) == export_capture_text(Language::EN),
        directory_text(language) == directory_text(Language::EN),
        select_directory_text(language) == select_directory_text(Language::EN),
        file_name_text(language) == file_name_text(Language::EN),
        thumbnail_mode_text(language) == thumbnail_mode_text(Language::EN),
        learn_more_text(language) == learn_more_text(Language::EN),
        unsupported_link_type_notice(language) == unsupported_link_type_notice(Language::EN),
{
}

} // verus!
