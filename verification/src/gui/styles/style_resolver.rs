//! Resolving the active style to a palette, and remembering the last file
//! that was validated.
//!
//! A built-in or bundled style resolves to its palette at once. The
//! file-backed style resolves to what its file holds. Reading and validating
//! a file is costly and the screen asks again on every redraw, so the outcome
//! of the last read is kept in a [`MemoizationCache`] under the path it was
//! read from, failures too. The file is read again only when another path is
//! asked for.
//!
//! Reading is left to the caller: [`begin_resolve`] answers from the catalog
//! or the cache, or asks for the file; [`finish_resolve`] takes what the read
//! brought. [`resolve`] runs both around a reader that the caller hands in.

use vstd::prelude::*;

use crate::gui::styles::palette::{PaletteData, PaletteModel};
use crate::gui::styles::palette_file::{
    validate, validated, validation_model, FileRead, FileReadModel, ValidationError,
};
use crate::gui::styles::style_registry::{StyleIdentifier, StyleKind, StyleModel};
use crate::gui::styles::text::same_text;

verus! {

/// What the active style resolved to.
#[derive(Debug, PartialEq, Eq)]
pub enum ResolvedStyle {
    /// The file-backed style is active and no file is named.
    Unset,
    /// The palette to render.
    Palette(PaletteData),
    /// The file that is named gave no palette.
    Error(ValidationError),
}

/// The mathematical content of a [`ResolvedStyle`].
pub enum ResolvedModel {
    Unset,
    Palette(PaletteModel),
    Error(ValidationError),
}

impl View for ResolvedStyle {
    type V = ResolvedModel;

    open spec fn view(&self) -> ResolvedModel {
        match self {
            ResolvedStyle::Unset => ResolvedModel::Unset,
            ResolvedStyle::Palette(palette) => ResolvedModel::Palette(palette@),
            ResolvedStyle::Error(error) => ResolvedModel::Error(*error),
        }
    }
}

/// What [`begin_resolve`] found.
#[derive(Debug, PartialEq, Eq)]
pub enum ResolveStep {
    /// The style is resolved without a read.
    Done(ResolvedStyle),
    /// The file has to be read and handed to [`finish_resolve`].
    ReadFile,
}

/// The mathematical content of a [`ResolveStep`].
pub enum StepModel {
    Done(ResolvedModel),
    ReadFile,
}

impl View for ResolveStep {
    type V = StepModel;

    open spec fn view(&self) -> StepModel {
        match self {
            ResolveStep::Done(style) => StepModel::Done(style@),
            ResolveStep::ReadFile => StepModel::ReadFile,
        }
    }
}

/// The one entry of a cache: what the file at `path` gave when it was read
/// for a style of kind `kind`.
pub struct EntryModel {
    pub path: Seq<char>,
    pub kind: StyleKind,
    pub result: Result<PaletteModel, ValidationError>,
}

/// What a resolution is remembered under.
#[derive(Debug, PartialEq, Eq)]
pub struct CacheKey {
    pub path: String,
    pub kind: StyleKind,
}

/// What the cache remembers: the outcome of one read, under its key.
#[derive(Debug, PartialEq, Eq)]
pub struct CacheEntry {
    pub key: CacheKey,
    pub result: Result<PaletteData, ValidationError>,
}

impl View for CacheEntry {
    type V = EntryModel;

    open spec fn view(&self) -> EntryModel {
        EntryModel {
            path: self.key.path@,
            kind: self.key.kind,
            result: validation_model(self.result),
        }
    }
}

/// The outcome of the last read of a palette file. It holds at most one
/// entry, which is replaced as a whole.
#[derive(Debug, PartialEq, Eq)]
pub struct MemoizationCache {
    entry: Option<CacheEntry>,
}

impl View for MemoizationCache {
    type V = Option<EntryModel>;

    closed spec fn view(&self) -> Option<EntryModel> {
        match self.entry {
            Some(entry) => Some(entry@),
            None => None,
        }
    }
}

/// What `cache` remembers under `path` and `kind`.
pub open spec fn remembered(cache: Option<EntryModel>, path: Seq<char>, kind: StyleKind) -> Option<
    Result<PaletteModel, ValidationError>,
> {
    match cache {
        Some(entry) => if entry.path == path && entry.kind == kind {
            Some(entry.result)
        } else {
            None
        },
        None => None,
    }
}

/// What the screen is given for a palette or the reason why there is none.
pub open spec fn outcome(result: Result<PaletteModel, ValidationError>) -> ResolvedModel {
    match result {
        Ok(palette) => ResolvedModel::Palette(palette),
        Err(error) => ResolvedModel::Error(error),
    }
}

/// What can be said of the style `active` before anything is read.
///
/// A style of the catalog has its palette. The file-backed style with no
/// path is unset. With a path it has what the cache remembers under that
/// path; where the cache remembers nothing under it, the file must be read.
pub open spec fn next_step(active: StyleModel, path: Seq<char>, cache: Option<EntryModel>) -> StepModel {
    if !active.is_file_backed() {
        StepModel::Done(ResolvedModel::Palette(active.palette()))
    } else {
        next_file_step(path, cache)
    }
}

/// What can be said of the palette file at `path` before anything is read:
/// the part of [`next_step`] that is about the file-backed style.
pub open spec fn next_file_step(path: Seq<char>, cache: Option<EntryModel>) -> StepModel {
    if path.len() == 0 {
        StepModel::Done(ResolvedModel::Unset)
    } else {
        match remembered(cache, path, StyleKind::CustomFile) {
            Some(result) => StepModel::Done(outcome(result)),
            None => StepModel::ReadFile,
        }
    }
}

/// The cache and the resolved style once the file at `path` was read.
///
/// The outcome of the read, whether a palette or an error, replaces what the
/// cache held. Without a path nothing was to be read: the style is unset
/// and the cache stays as it is.
pub open spec fn after_read(path: Seq<char>, read: FileReadModel, cache: Option<EntryModel>) -> (
    Option<EntryModel>,
    ResolvedModel,
) {
    if path.len() == 0 {
        (cache, ResolvedModel::Unset)
    } else {
        let result = validated(read);
        (Some(EntryModel { path, kind: StyleKind::CustomFile, result }), outcome(result))
    }
}

/// A resolution from start to end: the style, the cache afterwards, and how
/// often the file was read.
pub struct Resolution {
    pub style: ResolvedModel,
    pub cache: Option<EntryModel>,
    pub reads: nat,
}

/// The resolution of `active` with `path` and `cache`, where a read of the
/// file, if one is made, brings `file`.
pub open spec fn resolution(
    active: StyleModel,
    path: Seq<char>,
    cache: Option<EntryModel>,
    file: FileReadModel,
) -> Resolution {
    match next_step(active, path, cache) {
        StepModel::Done(style) => Resolution { style, cache, reads: 0 },
        StepModel::ReadFile => Resolution {
            style: after_read(path, file, cache).1,
            cache: after_read(path, file, cache).0,
            reads: 1,
        },
    }
}

fn clone_result(result: &Result<PaletteData, ValidationError>) -> (copy: Result<
    PaletteData,
    ValidationError,
>)
    ensures
        copy == *result,
{
    match result {
        Ok(palette) => Ok(palette.clone()),
        Err(error) => Err(*error),
    }
}

fn resolved(result: Result<PaletteData, ValidationError>) -> (style: ResolvedStyle)
    ensures
        style@ == outcome(validation_model(result)),
{
    match result {
        Ok(palette) => ResolvedStyle::Palette(palette),
        Err(error) => ResolvedStyle::Error(error),
    }
}

impl Default for MemoizationCache {
    fn default() -> (cache: MemoizationCache)
        ensures
            cache@ is None,
    {
        MemoizationCache { entry: None }
    }
}

impl MemoizationCache {
    /// A cache that remembers nothing.
    pub fn new() -> (cache: MemoizationCache)
        ensures
            cache@ is None,
    {
        MemoizationCache { entry: None }
    }

    /// What the cache remembers under `path` and `kind`.
    pub fn lookup(&self, path: &str, kind: StyleKind) -> (found: Option<
        Result<PaletteData, ValidationError>,
    >)
        ensures
            match remembered(self@, path@, kind) {
                Some(result) => found is Some && validation_model(found->0) == result,
                None => found is None,
            },
    {
        match &self.entry {
            Some(entry) => if entry.key.kind == kind && same_text(entry.key.path.as_str(), path) {
                Some(clone_result(&entry.result))
            } else {
                None
            },
            None => None,
        }
    }

    /// Replaces what the cache remembers.
    pub fn store(&mut self, path: &str, kind: StyleKind, result: Result<
        PaletteData,
        ValidationError,
    >)
        ensures
            final(self)@ == Some(
                EntryModel { path: path@, kind, result: validation_model(result) },
            ),
    {
        self.entry = Some(CacheEntry { key: CacheKey { path: path.to_owned(), kind }, result });
    }

    /// Forgets what the cache remembers.
    pub fn clear(&mut self)
        ensures
            final(self)@ is None,
    {
        self.entry = None;
    }

    /// The path under which the cache remembers something.
    pub fn path(&self) -> (path: Option<String>)
        ensures
            match self@ {
                Some(entry) => path is Some && path->0@ == entry.path,
                None => path is None,
            },
    {
        match &self.entry {
            Some(entry) => Some(entry.key.path.clone()),
            None => None,
        }
    }
}

/// Resolves `active` as far as that takes no read, see [`next_step`].
///
/// A style of the catalog is always `Done` with its palette. The file-backed
/// style without a path is `Done` and unset. `ReadFile` comes only for the
/// file-backed style with a path that the cache remembers nothing under.
pub fn begin_resolve(active: &StyleIdentifier, path: &str, cache: &MemoizationCache) -> (step:
    ResolveStep)
    ensures
        step@ == next_step(active@, path@, cache@),
{
    if !active.is_file_backed() {
        ResolveStep::Done(ResolvedStyle::Palette(active.palette()))
    } else {
        begin_resolve_file(path, cache)
    }
}

/// Resolves the palette file at `path` as far as that takes no read, see
/// [`next_file_step`]. This is what [`begin_resolve`] does for the
/// file-backed style; the screen also asks it for the preview of the file
/// while another style is active.
pub fn begin_resolve_file(path: &str, cache: &MemoizationCache) -> (step: ResolveStep)
    ensures
        step@ == next_file_step(path@, cache@),
{
    if path.is_empty() {
        ResolveStep::Done(ResolvedStyle::Unset)
    } else {
        match cache.lookup(path, StyleKind::CustomFile) {
            Some(result) => ResolveStep::Done(resolved(result)),
            None => ResolveStep::ReadFile,
        }
    }
}

/// Resolves the file-backed style from what reading the file at `path`
/// brought, and remembers the outcome under `path`, see [`after_read`].
pub fn finish_resolve(path: &str, read: &FileRead, cache: &mut MemoizationCache) -> (style:
    ResolvedStyle)
    ensures
        (final(cache)@, style@) == after_read(path@, read@, old(cache)@),
{
    if path.is_empty() {
        return ResolvedStyle::Unset;
    }
    let result = validate(read);
    let style = resolved(clone_result(&result));
    cache.store(path, StyleKind::CustomFile, result);
    style
}


/// Resolves `active`, reading the file with `read` where that is needed.
///
/// `read` is called at most once, with `path`, and only where
/// [`begin_resolve`] asks for the file: for the file-backed style, with a
/// path, when the cache remembers nothing under that path. What it brings is
/// then validated and remembered. In every other case the cache is left as
/// it is.
pub fn resolve<F: FnOnce(&str) -> FileRead>(
    active: &StyleIdentifier,
    path: &str,
    cache: &mut MemoizationCache,
    read: F,
) -> (style: ResolvedStyle)
    requires
        read.requires((path,)),
    ensures
        match next_step(active@, path@, old(cache)@) {
            StepModel::Done(done) => style@ == done && final(cache)@ == old(cache)@,
            StepModel::ReadFile => exists|file: FileRead|
                read.ensures((path,), file) && (final(cache)@, style@) == after_read(
                    path@,
                    file@,
                    old(cache)@,
                ),
        },
{
    match begin_resolve(active, path, cache) {
        ResolveStep::Done(style) => style,
        ResolveStep::ReadFile => {
            let file = read(path);
            finish_resolve(path, &file, cache)
        },
    }
}

/// A style of the catalog resolves to its palette, never to an error, and
/// without a read or a change of the cache.
pub proof fn lemma_catalog_styles_resolve_without_a_read(
    active: StyleModel,
    path: Seq<char>,
    cache: Option<EntryModel>,
    file: FileReadModel,
)
    requires
        !active.is_file_backed(),
    ensures
        resolution(active, path, cache, file).style == ResolvedModel::Palette(active.palette()),
        resolution(active, path, cache, file).reads == 0,
        resolution(active, path, cache, file).cache == cache,
{
}

/// The file-backed style without a path is unset: that is no error, and
/// nothing is read.
pub proof fn lemma_empty_path_is_unset(
    active: StyleModel,
    cache: Option<EntryModel>,
    file: FileReadModel,
)
    requires
        active.is_file_backed(),
    ensures
        resolution(active, Seq::empty(), cache, file).style == ResolvedModel::Unset,
        resolution(active, Seq::empty(), cache, file).reads == 0,
        resolution(active, Seq::empty(), cache, file).cache == cache,
{
}

/// Resolving the file-backed style twice in a row with the same path reads
/// the file at most once: the second resolution reads nothing and gives what
/// the first gave, whatever the file holds by then. Where the cache did not
/// remember the path before, the first resolution reads the file once.
pub proof fn lemma_second_resolution_is_served_from_the_cache(
    first: StyleModel,
    second: StyleModel,
    path: Seq<char>,
    cache: Option<EntryModel>,
    file: FileReadModel,
    file_later: FileReadModel,
)
    requires
        first.is_file_backed(),
        second.is_file_backed(),
    ensures
        ({
            let one = resolution(first, path, cache, file);
            let two = resolution(second, path, one.cache, file_later);
            &&& two.reads == 0
            &&& two.style == one.style
            &&& two.cache == one.cache
            &&& path.len() > 0 && remembered(cache, path, StyleKind::CustomFile) is None
                ==> one.reads == 1 && one.style == outcome(validated(file))
        }),
{
}

/// Once the file-backed style is resolved with a path, resolving it with
/// another path reads the file at that path, even if both files hold the
/// same text: what was remembered under the first path is not used.
pub proof fn lemma_another_path_is_read_anew(
    first: StyleModel,
    second: StyleModel,
    path: Seq<char>,
    other_path: Seq<char>,
    cache: Option<EntryModel>,
    file: FileReadModel,
    other_file: FileReadModel,
)
    requires
        first.is_file_backed(),
        second.is_file_backed(),
        path.len() > 0,
        other_path.len() > 0,
        other_path != path,
    ensures
        ({
            let one = resolution(first, path, cache, file);
            let two = resolution(second, other_path, one.cache, other_file);
            &&& two.reads == 1
            &&& two.style == outcome(validated(other_file))
            &&& remembered(two.cache, other_path, StyleKind::CustomFile) == Some(
                validated(other_file),
            )
            &&& remembered(two.cache, path, StyleKind::CustomFile) is None
        }),
{
}

/// Making a style of the catalog the active one and then the file-backed
/// style again, with the path unchanged, gives what the file-backed style
/// gave before, without a read.
pub proof fn lemma_switching_away_and_back_reads_nothing(
    first: StyleModel,
    between: StyleModel,
    again: StyleModel,
    path: Seq<char>,
    path_between: Seq<char>,
    cache: Option<EntryModel>,
    file: FileReadModel,
    file_between: FileReadModel,
    file_later: FileReadModel,
)
    requires
        first.is_file_backed(),
        !between.is_file_backed(),
        again.is_file_backed(),
    ensures
        ({
            let one = resolution(first, path, cache, file);
            let two = resolution(between, path_between, one.cache, file_between);
            let three = resolution(again, path, two.cache, file_later);
            &&& two.reads == 0
            &&& two.cache == one.cache
            &&& three.reads == 0
            &&& three.style == one.style
            &&& three.cache == one.cache
        }),
{
}

/// A resolution gives an error only where a file was named and gave no
/// palette, and a palette from a file only where the file holds one.
pub proof fn lemma_resolution_of_a_read(
    active: StyleModel,
    path: Seq<char>,
    cache: Option<EntryModel>,
    file: FileReadModel,
)
    requires
        resolution(active, path, cache, file).reads == 1,
    ensures
        active.is_file_backed(),
        path.len() > 0,
        remembered(cache, path, StyleKind::CustomFile) is None,
        resolution(active, path, cache, file).style == outcome(validated(file)),
        resolution(active, path, cache, file).cache == Some(
            EntryModel { path, kind: StyleKind::CustomFile, result: validated(file) },
        ),
{
}

} // verus!
