use std::cell::Cell;

use sniffnet::gui::styles::color::Color;
use sniffnet::gui::styles::palette::{ColorRole, PaletteData};
use sniffnet::gui::styles::palette_file::{FileRead, FormatError, ValidationError};
use sniffnet::gui::styles::style_registry::{
    all_styles, BuiltInStyle, ExtraStyleId, StyleIdentifier, StyleKind,
};
use sniffnet::gui::styles::style_resolver::{
    begin_resolve, begin_resolve_file, finish_resolve, resolve, MemoizationCache, ResolveStep,
    ResolvedStyle,
};

const FILE: &str = "primary = \"#101010\"\n\
secondary = \"#202020\"\n\
outgoing = \"#303030\"\n\
incoming = \"#404040\"\n\
buttons = \"#505050\"\n\
text_headers = \"#606060\"\n\
text_body = \"#707070\"\n";

const OTHER_FILE: &str = "primary = \"#111111\"\n\
secondary = \"#222222\"\n\
outgoing = \"#333333\"\n\
incoming = \"#444444\"\n\
buttons = \"#555555\"\n\
text_headers = \"#666666\"\n\
text_body = \"#777777\"\n";

fn palette_of_file() -> PaletteData {
    PaletteData::from_rgb(
        "Custom",
        [0x101010, 0x202020, 0x303030, 0x404040, 0x505050, 0x606060, 0x707070],
    )
}

fn palette_of_other_file() -> PaletteData {
    PaletteData::from_rgb(
        "Custom",
        [0x111111, 0x222222, 0x333333, 0x444444, 0x555555, 0x666666, 0x777777],
    )
}

fn custom() -> StyleIdentifier {
    StyleIdentifier::Extra(ExtraStyleId::CustomFile(PaletteData::from_rgb(
        "Carried",
        [9, 9, 9, 9, 9, 9, 9],
    )))
}

fn contents(text: &str) -> FileRead {
    FileRead::Contents(String::from(text))
}

/// Resolves with a reader that counts how often it is asked and for what.
fn resolve_counting(
    active: &StyleIdentifier,
    path: &str,
    cache: &mut MemoizationCache,
    reads: &Cell<usize>,
    text: Option<&str>,
) -> ResolvedStyle {
    resolve(active, path, cache, |asked: &str| {
        assert_eq!(asked, path);
        reads.set(reads.get() + 1);
        match text {
            Some(text) => contents(text),
            None => FileRead::Unreadable,
        }
    })
}

#[test]
fn catalog_styles_resolve_without_a_read() {
    for style in all_styles() {
        let mut cache = MemoizationCache::new();
        let reads = Cell::new(0);
        for path in ["", "palette.toml"] {
            let resolved = resolve_counting(&style, path, &mut cache, &reads, None);
            assert_eq!(resolved, ResolvedStyle::Palette(style.palette()));
        }
        assert_eq!(reads.get(), 0);
        assert_eq!(cache, MemoizationCache::new());
    }
}

#[test]
fn catalog_styles_never_ask_for_the_file() {
    let mut cache = MemoizationCache::new();
    finish_resolve("palette.toml", &FileRead::Unreadable, &mut cache);
    for style in all_styles() {
        assert_eq!(
            begin_resolve(&style, "palette.toml", &cache),
            ResolveStep::Done(ResolvedStyle::Palette(style.palette()))
        );
        assert_eq!(
            begin_resolve(&style, "other.toml", &cache),
            ResolveStep::Done(ResolvedStyle::Palette(style.palette()))
        );
    }
}

#[test]
fn empty_path_is_unset_and_no_error() {
    let mut cache = MemoizationCache::new();
    let reads = Cell::new(0);
    assert_eq!(resolve_counting(&custom(), "", &mut cache, &reads, None), ResolvedStyle::Unset);
    assert_eq!(reads.get(), 0);
    assert_eq!(cache, MemoizationCache::new());
    assert_eq!(begin_resolve(&custom(), "", &cache), ResolveStep::Done(ResolvedStyle::Unset));
    assert_eq!(begin_resolve_file("", &cache), ResolveStep::Done(ResolvedStyle::Unset));
}

#[test]
fn empty_path_is_unset_whatever_the_cache_holds() {
    let mut cache = MemoizationCache::new();
    finish_resolve("palette.toml", &FileRead::Unreadable, &mut cache);
    assert_eq!(begin_resolve(&custom(), "", &cache), ResolveStep::Done(ResolvedStyle::Unset));
    assert_eq!(cache.path(), Some(String::from("palette.toml")));
}

#[test]
fn finishing_without_a_path_leaves_the_cache() {
    let mut cache = MemoizationCache::new();
    assert_eq!(finish_resolve("", &contents(FILE), &mut cache), ResolvedStyle::Unset);
    assert_eq!(cache, MemoizationCache::new());
    finish_resolve("palette.toml", &contents(FILE), &mut cache);
    assert_eq!(finish_resolve("", &FileRead::Unreadable, &mut cache), ResolvedStyle::Unset);
    assert_eq!(
        cache.lookup("palette.toml", StyleKind::CustomFile),
        Some(Ok(palette_of_file()))
    );
}

#[test]
fn first_resolution_reads_the_file() {
    let mut cache = MemoizationCache::new();
    assert_eq!(begin_resolve(&custom(), "palette.toml", &cache), ResolveStep::ReadFile);
    let reads = Cell::new(0);
    let resolved = resolve_counting(&custom(), "palette.toml", &mut cache, &reads, Some(FILE));
    assert_eq!(resolved, ResolvedStyle::Palette(palette_of_file()));
    assert_eq!(reads.get(), 1);
    assert_eq!(cache.path(), Some(String::from("palette.toml")));
}

#[test]
fn second_resolution_is_served_from_the_cache() {
    let mut cache = MemoizationCache::new();
    let reads = Cell::new(0);
    let first = resolve_counting(&custom(), "palette.toml", &mut cache, &reads, Some(FILE));
    let second = resolve_counting(&custom(), "palette.toml", &mut cache, &reads, Some(FILE));
    assert_eq!(first, ResolvedStyle::Palette(palette_of_file()));
    assert_eq!(second, first);
    assert_eq!(reads.get(), 1);
}

#[test]
fn change_of_the_file_is_not_seen_while_the_path_stays() {
    let mut cache = MemoizationCache::new();
    let reads = Cell::new(0);
    resolve_counting(&custom(), "palette.toml", &mut cache, &reads, Some(FILE));
    let later = resolve_counting(&custom(), "palette.toml", &mut cache, &reads, Some(OTHER_FILE));
    assert_eq!(later, ResolvedStyle::Palette(palette_of_file()));
    assert_eq!(reads.get(), 1);
}

#[test]
fn errors_are_remembered_too() {
    let mut cache = MemoizationCache::new();
    let reads = Cell::new(0);
    let first = resolve_counting(&custom(), "missing.toml", &mut cache, &reads, None);
    assert_eq!(first, ResolvedStyle::Error(ValidationError::Io));
    let second = resolve_counting(&custom(), "missing.toml", &mut cache, &reads, Some(FILE));
    assert_eq!(second, ResolvedStyle::Error(ValidationError::Io));
    assert_eq!(reads.get(), 1);
    assert_eq!(cache.lookup("missing.toml", StyleKind::CustomFile), Some(Err(ValidationError::Io)));
}

#[test]
fn file_without_a_role_is_a_format_error() {
    let mut cache = MemoizationCache::new();
    let text = FILE.replace("buttons", "button");
    let resolved = finish_resolve("palette.toml", &contents(&text), &mut cache);
    assert_eq!(
        resolved,
        ResolvedStyle::Error(ValidationError::Format(FormatError::MissingRole {
            role: ColorRole::Buttons
        }))
    );
    assert_eq!(
        begin_resolve(&custom(), "palette.toml", &cache),
        ResolveStep::Done(ResolvedStyle::Error(ValidationError::Format(
            FormatError::MissingRole { role: ColorRole::Buttons }
        )))
    );
}

#[test]
fn another_path_is_read_anew() {
    let mut cache = MemoizationCache::new();
    let reads = Cell::new(0);
    resolve_counting(&custom(), "palette.toml", &mut cache, &reads, Some(FILE));
    assert_eq!(begin_resolve(&custom(), "copy.toml", &cache), ResolveStep::ReadFile);
    let copy = resolve_counting(&custom(), "copy.toml", &mut cache, &reads, Some(FILE));
    assert_eq!(copy, ResolvedStyle::Palette(palette_of_file()));
    assert_eq!(reads.get(), 2);
    assert_eq!(cache.path(), Some(String::from("copy.toml")));
    assert_eq!(cache.lookup("palette.toml", StyleKind::CustomFile), None);
}

#[test]
fn going_back_to_the_first_path_reads_again() {
    let mut cache = MemoizationCache::new();
    let reads = Cell::new(0);
    resolve_counting(&custom(), "a.toml", &mut cache, &reads, Some(FILE));
    resolve_counting(&custom(), "b.toml", &mut cache, &reads, Some(OTHER_FILE));
    let back = resolve_counting(&custom(), "a.toml", &mut cache, &reads, Some(OTHER_FILE));
    assert_eq!(back, ResolvedStyle::Palette(palette_of_other_file()));
    assert_eq!(reads.get(), 3);
}

#[test]
fn paths_differ_by_a_single_character() {
    let mut cache = MemoizationCache::new();
    finish_resolve("palette.toml", &contents(FILE), &mut cache);
    for path in ["palette.tom", "palette.toml ", "Palette.toml", "palette.tomL", "é"] {
        assert_eq!(begin_resolve(&custom(), path, &cache), ResolveStep::ReadFile);
    }
    assert_eq!(
        begin_resolve(&custom(), "palette.toml", &cache),
        ResolveStep::Done(ResolvedStyle::Palette(palette_of_file()))
    );
}

#[test]
fn switching_away_and_back_reads_nothing() {
    let mut cache = MemoizationCache::new();
    let reads = Cell::new(0);
    let first = resolve_counting(&custom(), "palette.toml", &mut cache, &reads, Some(FILE));
    let night = StyleIdentifier::BuiltIn(BuiltInStyle::Night);
    let between = resolve_counting(&night, "palette.toml", &mut cache, &reads, Some(OTHER_FILE));
    assert_eq!(between, ResolvedStyle::Palette(BuiltInStyle::Night.palette()));
    let back = resolve_counting(&custom(), "palette.toml", &mut cache, &reads, Some(OTHER_FILE));
    assert_eq!(back, first);
    assert_eq!(reads.get(), 1);
}

#[test]
fn carried_palette_does_not_decide_the_resolution() {
    let mut cache = MemoizationCache::new();
    finish_resolve("palette.toml", &contents(FILE), &mut cache);
    let other = StyleIdentifier::Extra(ExtraStyleId::CustomFile(palette_of_other_file()));
    assert_eq!(
        begin_resolve(&other, "palette.toml", &cache),
        begin_resolve(&custom(), "palette.toml", &cache)
    );
    assert_eq!(
        begin_resolve_file("palette.toml", &cache),
        ResolveStep::Done(ResolvedStyle::Palette(palette_of_file()))
    );
}

#[test]
fn cache_remembers_under_path_and_kind() {
    let mut cache = MemoizationCache::new();
    assert_eq!(cache.path(), None);
    assert_eq!(cache.lookup("a", StyleKind::CustomFile), None);
    cache.store("a", StyleKind::CustomFile, Ok(palette_of_file()));
    assert_eq!(cache.lookup("a", StyleKind::CustomFile), Some(Ok(palette_of_file())));
    assert_eq!(cache.lookup("a", StyleKind::Bundled), None);
    assert_eq!(cache.lookup("a", StyleKind::BuiltIn), None);
    assert_eq!(cache.lookup("b", StyleKind::CustomFile), None);
    cache.store("b", StyleKind::CustomFile, Err(ValidationError::Io));
    assert_eq!(cache.lookup("a", StyleKind::CustomFile), None);
    assert_eq!(cache.lookup("b", StyleKind::CustomFile), Some(Err(ValidationError::Io)));
    cache.clear();
    assert_eq!(cache, MemoizationCache::new());
    assert_eq!(cache.lookup("b", StyleKind::CustomFile), None);
}

#[test]
fn resolved_palette_has_the_colors_of_the_file() {
    let mut cache = MemoizationCache::new();
    match finish_resolve("palette.toml", &contents(OTHER_FILE), &mut cache) {
        ResolvedStyle::Palette(palette) => {
            assert_eq!(palette.primary, Color { r: 0x11, g: 0x11, b: 0x11, a: 255 });
            assert_eq!(palette.text_body, Color { r: 0x77, g: 0x77, b: 0x77, a: 255 });
            assert_eq!(palette.name, "Custom");
        }
        other => panic!("no palette: {:?}", other),
    }
}
