//! The palette file format and its parser.
//!
//! A palette file is a text of lines that end in a line feed. Blanks are
//! spaces, tabs and carriage returns; they are ignored at both ends of a
//! line, of a key and of a value. A line is one of:
//!
//! - empty, or a comment that starts with `#`: it is skipped;
//! - an entry `key = value`: the key is made of ASCII letters, digits, `_`
//!   and `-`, and the value is whatever follows the first `=`, not empty.
//!
//! Any other line is malformed. The key of a color role must have a quoted
//! color as its value, such as `primary = "#1c315e"`, and must not occur
//! twice. Entries with other keys are ignored, whatever their value. A file
//! is a palette only if it gives every role a color.

use vstd::prelude::*;
use vstd::slice::{slice_subrange, spec_slice_len};
use vstd::string::StringExecFns;
use vstd::string::StringSliceAdditionalSpecFns;
use vstd::utf8::encode_utf8;

use crate::gui::styles::ascii::{
    CARRIAGE_RETURN, DIGIT_0, DIGIT_9, EQUALS_SIGN, HYPHEN, LINE_FEED, LOWER_A, LOWER_Z,
    NUMBER_SIGN, QUOTE, SPACE, TAB, UNDERSCORE, UPPER_A, UPPER_Z,
};
use crate::gui::styles::color::{color_literal, Color};
use crate::gui::styles::palette::{palette_of, ColorRole, PaletteData, PaletteModel};
use crate::gui::styles::text::bytes_equal;

verus! {

/// Why a text is not a palette file. Lines count from 1.
#[derive(Clone, Copy, Debug, PartialEq, Eq, Structural)]
pub enum FormatError {
    /// The line is neither empty, nor a comment, nor an entry.
    Syntax { line: usize },
    /// The line gives `role` a value that is not a quoted color.
    InvalidColor { role: ColorRole, line: usize },
    /// The line gives `role` a color that an earlier line gave already.
    DuplicateRole { role: ColorRole, line: usize },
    /// No line gives `role` a color.
    MissingRole { role: ColorRole },
}

/// The name under which a palette read from a file is shown.
pub open spec fn custom_name() -> Seq<char> {
    "Custom"@
}

/// Whether `byte` is a blank: a space, a tab or a carriage return.
pub open spec fn is_blank(byte: u8) -> bool {
    byte == SPACE || byte == TAB || byte == CARRIAGE_RETURN
}

/// Whether `byte` can stand in a key: an ASCII letter or digit, `_` or `-`.
pub open spec fn is_key_byte(byte: u8) -> bool {
    ||| LOWER_A <= byte <= LOWER_Z
    ||| UPPER_A <= byte <= UPPER_Z
    ||| DIGIT_0 <= byte <= DIGIT_9
    ||| byte == UNDERSCORE
    ||| byte == HYPHEN
}

/// How many bytes of `text` stand before its first `byte`; the length of
/// `text` where it holds none.
pub open spec fn prefix_len(text: Seq<u8>, byte: u8) -> nat
    decreases text.len(),
{
    if text.len() == 0 || text[0] == byte {
        0
    } else {
        1 + prefix_len(text.drop_first(), byte)
    }
}

/// The lines of `text`: what stands between its line feeds. A text without a
/// line feed is one line, and so is the empty text.
pub open spec fn lines(text: Seq<u8>) -> Seq<Seq<u8>>
    decreases text.len(),
{
    let end = prefix_len(text, LINE_FEED);
    if end >= text.len() {
        seq![text]
    } else {
        seq![text.subrange(0, end as int)] + lines(text.subrange(end as int + 1, text.len() as int))
    }
}

/// `text` without the blanks at its start.
pub open spec fn trim_start(text: Seq<u8>) -> Seq<u8>
    decreases text.len(),
{
    if text.len() > 0 && is_blank(text[0]) {
        trim_start(text.drop_first())
    } else {
        text
    }
}

/// `text` without the blanks at its end.
pub open spec fn trim_end(text: Seq<u8>) -> Seq<u8>
    decreases text.len(),
{
    if text.len() > 0 && is_blank(text.last()) {
        trim_end(text.drop_last())
    } else {
        text
    }
}

/// `text` without the blanks at its start and at its end.
pub open spec fn trim(text: Seq<u8>) -> Seq<u8> {
    trim_end(trim_start(text))
}

/// Whether `key` can stand before the `=` of an entry.
pub open spec fn is_key(key: Seq<u8>) -> bool {
    key.len() > 0 && forall|i: int| 0 <= i < key.len() ==> is_key_byte(#[trigger] key[i])
}

/// What a line of a palette file is.
pub enum Line {
    /// An empty line or a comment.
    Skip,
    /// An entry, with its key and its value trimmed.
    Entry { key: Seq<u8>, value: Seq<u8> },
    /// Anything else.
    Malformed,
}

/// What `line` is, see the module's description.
#[verifier::opaque]
pub open spec fn classify(line: Seq<u8>) -> Line {
    let text = trim(line);
    if text.len() == 0 || text[0] == NUMBER_SIGN {
        Line::Skip
    } else {
        let split = prefix_len(text, EQUALS_SIGN);
        if split >= text.len() {
            Line::Malformed
        } else {
            let key = trim(text.subrange(0, split as int));
            let value = trim(text.subrange(split as int + 1, text.len() as int));
            if is_key(key) && value.len() > 0 {
                Line::Entry { key, value }
            } else {
                Line::Malformed
            }
        }
    }
}

/// The bytes of the key of `role`.
pub open spec fn key_bytes(role: ColorRole) -> Seq<u8> {
    encode_utf8(role.key_text())
}

/// The role that `key` is the key of.
pub open spec fn role_of_key(key: Seq<u8>) -> Option<ColorRole> {
    if key == key_bytes(ColorRole::Primary) {
        Some(ColorRole::Primary)
    } else if key == key_bytes(ColorRole::Secondary) {
        Some(ColorRole::Secondary)
    } else if key == key_bytes(ColorRole::Outgoing) {
        Some(ColorRole::Outgoing)
    } else if key == key_bytes(ColorRole::Incoming) {
        Some(ColorRole::Incoming)
    } else if key == key_bytes(ColorRole::Buttons) {
        Some(ColorRole::Buttons)
    } else if key == key_bytes(ColorRole::TextHeaders) {
        Some(ColorRole::TextHeaders)
    } else if key == key_bytes(ColorRole::TextBody) {
        Some(ColorRole::TextBody)
    } else {
        None
    }
}

/// The color that `value` denotes: a color literal between double quotes.
pub open spec fn quoted_color(value: Seq<u8>) -> Option<Color> {
    if value.len() >= 2 && value[0] == QUOTE && value.last() == QUOTE {
        color_literal(value.subrange(1, value.len() - 1))
    } else {
        None
    }
}

/// The role that `line` speaks of: that of its key, where it is an entry
/// with the key of a role.
pub open spec fn line_role(line: Seq<u8>) -> Option<ColorRole> {
    match classify(line) {
        Line::Entry { key, value } => role_of_key(key),
        _ => None,
    }
}

/// The color that `line` gives: that of its value, where it is an entry
/// whose value is a quoted color.
pub open spec fn line_color(line: Seq<u8>) -> Option<Color> {
    match classify(line) {
        Line::Entry { key, value } => quoted_color(value),
        _ => None,
    }
}

/// The colors found once line `number` is read, given those `found` in the
/// lines before it; or what is wrong with the line.
pub open spec fn read_line(found: Map<ColorRole, Color>, line: Seq<u8>, number: int) -> Result<
    Map<ColorRole, Color>,
    FormatError,
> {
    if classify(line) is Malformed {
        Err(FormatError::Syntax { line: number as usize })
    } else {
        match line_role(line) {
            None => Ok(found),
            Some(role) => match line_color(line) {
                None => Err(FormatError::InvalidColor { role, line: number as usize }),
                Some(color) => if found.dom().contains(role) {
                    Err(FormatError::DuplicateRole { role, line: number as usize })
                } else {
                    Ok(found.insert(role, color))
                },
            },
        }
    }
}

/// The colors found once all of `lines` from index `from` on are read, given
/// those `found` before; or the first thing that is wrong.
pub open spec fn read_lines(lines: Seq<Seq<u8>>, from: int, found: Map<ColorRole, Color>) -> Result<
    Map<ColorRole, Color>,
    FormatError,
>
    decreases lines.len() - from,
{
    if from < 0 || from >= lines.len() {
        Ok(found)
    } else {
        match read_line(found, lines[from], from + 1) {
            Err(error) => Err(error),
            Ok(next) => read_lines(lines, from + 1, next),
        }
    }
}

/// The first role, in palette order, that `found` has no color for.
pub open spec fn first_missing(found: Map<ColorRole, Color>) -> Option<ColorRole> {
    if !found.dom().contains(ColorRole::Primary) {
        Some(ColorRole::Primary)
    } else if !found.dom().contains(ColorRole::Secondary) {
        Some(ColorRole::Secondary)
    } else if !found.dom().contains(ColorRole::Outgoing) {
        Some(ColorRole::Outgoing)
    } else if !found.dom().contains(ColorRole::Incoming) {
        Some(ColorRole::Incoming)
    } else if !found.dom().contains(ColorRole::Buttons) {
        Some(ColorRole::Buttons)
    } else if !found.dom().contains(ColorRole::TextHeaders) {
        Some(ColorRole::TextHeaders)
    } else if !found.dom().contains(ColorRole::TextBody) {
        Some(ColorRole::TextBody)
    } else {
        None
    }
}

/// The palette that `text` is the file of, or why it is none.
///
/// The lines are read in order and the first that is wrong decides the
/// error. A text whose lines are all in order is a palette if every role has
/// a color; else the first role without one is reported.
pub open spec fn parse_document(text: Seq<u8>) -> Result<PaletteModel, FormatError> {
    match read_lines(lines(text), 0, Map::empty()) {
        Err(error) => Err(error),
        Ok(found) => match first_missing(found) {
            Some(role) => Err(FormatError::MissingRole { role }),
            None => Ok(palette_of(custom_name(), found)),
        },
    }
}

/// The model of what [`parse`] returns.
pub open spec fn parsed_model(result: Result<PaletteData, FormatError>) -> Result<
    PaletteModel,
    FormatError,
> {
    match result {
        Ok(palette) => Ok(palette@),
        Err(error) => Err(error),
    }
}

fn blank(byte: u8) -> (yes: bool)
    ensures
        yes == is_blank(byte),
{
    byte == SPACE || byte == TAB || byte == CARRIAGE_RETURN
}

fn key_byte(byte: u8) -> (yes: bool)
    ensures
        yes == is_key_byte(byte),
{
    (LOWER_A <= byte && byte <= LOWER_Z) || (UPPER_A <= byte && byte <= UPPER_Z) || (DIGIT_0
        <= byte && byte <= DIGIT_9) || byte == UNDERSCORE || byte == HYPHEN
}

fn count_before(text: &[u8], byte: u8) -> (count: usize)
    ensures
        count == prefix_len(text@, byte),
        count <= text@.len(),
{
    let len = text.len();
    let mut count: usize = 0;
    assert(text@.subrange(0, len as int) =~= text@);
    while count < len && text[count] != byte
        invariant
            len == text@.len(),
            count <= len,
            prefix_len(text@, byte) == count + prefix_len(
                text@.subrange(count as int, len as int),
                byte,
            ),
        decreases len - count,
    {
        assert(text@.subrange(count as int, len as int).drop_first() =~= text@.subrange(
            count + 1,
            len as int,
        ));
        count += 1;
    }
    count
}

fn trim_bytes(text: &[u8]) -> (trimmed: &[u8])
    ensures
        trimmed@ == trim(text@),
{
    let len = text.len();
    let mut start: usize = 0;
    assert(text@.subrange(0, len as int) =~= text@);
    while start < len && blank(text[start])
        invariant
            len == text@.len(),
            start <= len,
            trim_start(text@) == trim_start(text@.subrange(start as int, len as int)),
        decreases len - start,
    {
        assert(text@.subrange(start as int, len as int).drop_first() =~= text@.subrange(
            start + 1,
            len as int,
        ));
        start += 1;
    }
    let mut end: usize = len;
    while end > start && blank(text[end - 1])
        invariant
            len == text@.len(),
            start <= end <= len,
            trim(text@) == trim_end(text@.subrange(start as int, end as int)),
        decreases end - start,
    {
        assert(text@.subrange(start as int, end as int).drop_last() =~= text@.subrange(
            start as int,
            end - 1,
        ));
        end -= 1;
    }
    slice_subrange(text, start, end)
}

fn is_key_text(key: &[u8]) -> (yes: bool)
    ensures
        yes == is_key(key@),
{
    let len = key.len();
    if len == 0 {
        return false;
    }
    let mut i: usize = 0;
    while i < len
        invariant
            len == key@.len(),
            i <= len,
            forall|j: int| 0 <= j < i ==> is_key_byte(#[trigger] key@[j]),
        decreases len - i,
    {
        if !key_byte(key[i]) {
            return false;
        }
        i += 1;
    }
    true
}

/// A line as the parser sees it: [`Line`], with the key and the value as
/// parts of the text that was read.
enum ParsedLine<'a> {
    Skip,
    Entry { key: &'a [u8], value: &'a [u8] },
    Malformed,
}

impl<'a> ParsedLine<'a> {
    spec fn line(&self) -> Line {
        match self {
            ParsedLine::Skip => Line::Skip,
            ParsedLine::Entry { key, value } => Line::Entry { key: key@, value: value@ },
            ParsedLine::Malformed => Line::Malformed,
        }
    }
}

fn classify_line<'a>(line: &'a [u8]) -> (parsed: ParsedLine<'a>)
    ensures
        parsed.line() == classify(line@),
{
    proof {
        reveal(classify);
    }
    let text = trim_bytes(line);
    let len = text.len();
    if len == 0 || text[0] == NUMBER_SIGN {
        return ParsedLine::Skip;
    }
    let split = count_before(text, EQUALS_SIGN);
    if split >= len {
        return ParsedLine::Malformed;
    }
    let key = trim_bytes(slice_subrange(text, 0, split));
    let value = trim_bytes(slice_subrange(text, split + 1, len));
    if is_key_text(key) && value.len() > 0 {
        ParsedLine::Entry { key, value }
    } else {
        ParsedLine::Malformed
    }
}

fn is_key_of(key: &[u8], role: ColorRole) -> (yes: bool)
    ensures
        yes == (key@ == key_bytes(role)),
{
    bytes_equal(key, role.key().as_bytes())
}

fn role_for_key(key: &[u8]) -> (role: Option<ColorRole>)
    ensures
        role == role_of_key(key@),
{
    if is_key_of(key, ColorRole::Primary) {
        Some(ColorRole::Primary)
    } else if is_key_of(key, ColorRole::Secondary) {
        Some(ColorRole::Secondary)
    } else if is_key_of(key, ColorRole::Outgoing) {
        Some(ColorRole::Outgoing)
    } else if is_key_of(key, ColorRole::Incoming) {
        Some(ColorRole::Incoming)
    } else if is_key_of(key, ColorRole::Buttons) {
        Some(ColorRole::Buttons)
    } else if is_key_of(key, ColorRole::TextHeaders) {
        Some(ColorRole::TextHeaders)
    } else if is_key_of(key, ColorRole::TextBody) {
        Some(ColorRole::TextBody)
    } else {
        None
    }
}

fn quoted_color_value(value: &[u8]) -> (color: Option<Color>)
    ensures
        color == quoted_color(value@),
{
    let len = value.len();
    if len >= 2 && value[0] == QUOTE && value[len - 1] == QUOTE {
        Color::from_hex(slice_subrange(value, 1, len - 1))
    } else {
        None
    }
}


/// The colors that the lines read so far have given.
#[derive(Clone, Copy)]
struct FoundColors {
    primary: Option<Color>,
    secondary: Option<Color>,
    outgoing: Option<Color>,
    incoming: Option<Color>,
    buttons: Option<Color>,
    text_headers: Option<Color>,
    text_body: Option<Color>,
}

impl FoundColors {
    spec fn slot(self, role: ColorRole) -> Option<Color> {
        match role {
            ColorRole::Primary => self.primary,
            ColorRole::Secondary => self.secondary,
            ColorRole::Outgoing => self.outgoing,
            ColorRole::Incoming => self.incoming,
            ColorRole::Buttons => self.buttons,
            ColorRole::TextHeaders => self.text_headers,
            ColorRole::TextBody => self.text_body,
        }
    }

    spec fn colors(self) -> Map<ColorRole, Color> {
        Map::new(|role: ColorRole| self.slot(role) is Some, |role: ColorRole| self.slot(role)->0)
    }

    fn none() -> (found: FoundColors)
        ensures
            found.colors() == Map::<ColorRole, Color>::empty(),
    {
        let found = FoundColors {
            primary: None,
            secondary: None,
            outgoing: None,
            incoming: None,
            buttons: None,
            text_headers: None,
            text_body: None,
        };
        assert(found.colors() =~= Map::<ColorRole, Color>::empty());
        found
    }

    fn get(&self, role: ColorRole) -> (color: Option<Color>)
        ensures
            color is Some <==> self.colors().dom().contains(role),
            color is Some ==> color->0 == self.colors()[role],
    {
        match role {
            ColorRole::Primary => self.primary,
            ColorRole::Secondary => self.secondary,
            ColorRole::Outgoing => self.outgoing,
            ColorRole::Incoming => self.incoming,
            ColorRole::Buttons => self.buttons,
            ColorRole::TextHeaders => self.text_headers,
            ColorRole::TextBody => self.text_body,
        }
    }

    fn with(self, role: ColorRole, color: Color) -> (found: FoundColors)
        ensures
            found.colors() == self.colors().insert(role, color),
    {
        let mut found = self;
        match role {
            ColorRole::Primary => {
                found.primary = Some(color);
            },
            ColorRole::Secondary => {
                found.secondary = Some(color);
            },
            ColorRole::Outgoing => {
                found.outgoing = Some(color);
            },
            ColorRole::Incoming => {
                found.incoming = Some(color);
            },
            ColorRole::Buttons => {
                found.buttons = Some(color);
            },
            ColorRole::TextHeaders => {
                found.text_headers = Some(color);
            },
            ColorRole::TextBody => {
                found.text_body = Some(color);
            },
        }
        assert(found.colors() =~= self.colors().insert(role, color));
        found
    }

    fn into_palette(self) -> (result: Result<PaletteData, FormatError>)
        ensures
            parsed_model(result) == match first_missing(self.colors()) {
                Some(role) => Err::<PaletteModel, FormatError>(FormatError::MissingRole { role }),
                None => Ok(palette_of(custom_name(), self.colors())),
            },
    {
        let Some(primary) = self.primary else {
            return Err(FormatError::MissingRole { role: ColorRole::Primary });
        };
        let Some(secondary) = self.secondary else {
            return Err(FormatError::MissingRole { role: ColorRole::Secondary });
        };
        let Some(outgoing) = self.outgoing else {
            return Err(FormatError::MissingRole { role: ColorRole::Outgoing });
        };
        let Some(incoming) = self.incoming else {
            return Err(FormatError::MissingRole { role: ColorRole::Incoming });
        };
        let Some(buttons) = self.buttons else {
            return Err(FormatError::MissingRole { role: ColorRole::Buttons });
        };
        let Some(text_headers) = self.text_headers else {
            return Err(FormatError::MissingRole { role: ColorRole::TextHeaders });
        };
        let Some(text_body) = self.text_body else {
            return Err(FormatError::MissingRole { role: ColorRole::TextBody });
        };
        Ok(
            PaletteData {
                primary,
                secondary,
                outgoing,
                incoming,
                buttons,
                text_headers,
                text_body,
                name: String::from_str("Custom"),
            },
        )
    }
}

spec fn found_model(result: Result<FoundColors, FormatError>) -> Result<
    Map<ColorRole, Color>,
    FormatError,
> {
    match result {
        Ok(found) => Ok(found.colors()),
        Err(error) => Err(error),
    }
}

/// Reads the line with index `index`, counted from 0.
fn read_line_at(found: FoundColors, line: &[u8], index: usize) -> (result: Result<
    FoundColors,
    FormatError,
>)
    requires
        line@.len() > 0 ==> index < usize::MAX,
    ensures
        found_model(result) == read_line(found.colors(), line@, index + 1),
{
    proof {
        reveal(classify);
    }
    match classify_line(line) {
        ParsedLine::Skip => Ok(found),
        ParsedLine::Malformed => Err(FormatError::Syntax { line: index + 1 }),
        ParsedLine::Entry { key, value } => match role_for_key(key) {
            None => Ok(found),
            Some(role) => match quoted_color_value(value) {
                None => Err(FormatError::InvalidColor { role, line: index + 1 }),
                Some(color) => if found.get(role).is_some() {
                    Err(FormatError::DuplicateRole { role, line: index + 1 })
                } else {
                    Ok(found.with(role, color))
                },
            },
        },
    }
}

/// Reads a palette from the bytes of its file.
pub fn parse_bytes(text: &[u8]) -> (result: Result<PaletteData, FormatError>)
    ensures
        parsed_model(result) == parse_document(text@),
{
    let ghost all = lines(text@);
    let mut found = FoundColors::none();
    let mut rest: &[u8] = text;
    let mut index: usize = 0;
    assert(text@.len() <= usize::MAX) by {
        assert(text@.len() == spec_slice_len(text));
    }
    loop
        invariant_except_break
            all == lines(text@),
            text@.len() <= usize::MAX,
            0 <= index < all.len(),
            index + rest@.len() <= text@.len(),
            all.skip(index as int) == lines(rest@),
            read_lines(all, 0, Map::empty()) == read_lines(all, index as int, found.colors()),
        ensures
            read_lines(all, 0, Map::empty()) == Ok::<Map<ColorRole, Color>, FormatError>(
                found.colors(),
            ),
        decreases rest@.len(),
    {
        let end = count_before(rest, LINE_FEED);
        let line = slice_subrange(rest, 0, end);
        assert(line@ == all[index as int]) by {
            assert(all.skip(index as int)[0] == all[index as int]);
        }
        let ghost before = found.colors();
        match read_line_at(found, line, index) {
            Err(error) => {
                return Err(error);
            },
            Ok(next) => {
                found = next;
            },
        }
        assert(read_lines(all, index as int, before) == read_lines(
            all,
            index + 1,
            found.colors(),
        ));
        if end >= rest.len() {
            assert(all.len() == index + 1) by {
                assert(all.skip(index as int).len() == 1);
            }
            break ;
        }
        proof {
            let after = rest@.subrange(end as int + 1, rest@.len() as int);
            assert(all.skip(index as int + 1) =~= all.skip(index as int).skip(1));
            assert((seq![line@] + lines(after)).skip(1) =~= lines(after));
        }
        rest = slice_subrange(rest, end + 1, rest.len());
        index += 1;
    }
    found.into_palette()
}

/// Reads a palette from the text of its file.
pub fn parse(contents: &str) -> (result: Result<PaletteData, FormatError>)
    ensures
        parsed_model(result) == parse_document(contents.spec_bytes()),
{
    parse_bytes(contents.as_bytes())
}


/// Why a palette file gave no palette.
#[derive(Clone, Copy, Debug, PartialEq, Eq, Structural)]
pub enum ValidationError {
    /// The file could not be read as text: it is missing, access was
    /// refused, or it does not hold text.
    Io,
    /// The file was read, and its text is no palette.
    Format(FormatError),
}

/// What an attempt to read a palette file brought.
#[derive(Debug, PartialEq, Eq)]
pub enum FileRead {
    /// The file could not be read as text.
    Unreadable,
    /// The text of the file.
    Contents(String),
}

/// The mathematical content of a [`FileRead`].
pub enum FileReadModel {
    Unreadable,
    Contents(Seq<char>),
}

impl View for FileRead {
    type V = FileReadModel;

    open spec fn view(&self) -> FileReadModel {
        match self {
            FileRead::Unreadable => FileReadModel::Unreadable,
            FileRead::Contents(text) => FileReadModel::Contents(text@),
        }
    }
}

/// The palette that a read brought, or why it brought none.
pub open spec fn validated(read: FileReadModel) -> Result<PaletteModel, ValidationError> {
    match read {
        FileReadModel::Unreadable => Err(ValidationError::Io),
        FileReadModel::Contents(text) => match parse_document(encode_utf8(text)) {
            Ok(palette) => Ok(palette),
            Err(error) => Err(ValidationError::Format(error)),
        },
    }
}

/// The model of a palette or the reason why there is none.
pub open spec fn validation_model(result: Result<PaletteData, ValidationError>) -> Result<
    PaletteModel,
    ValidationError,
> {
    match result {
        Ok(palette) => Ok(palette@),
        Err(error) => Err(error),
    }
}

/// Turns what was read from a palette file into a palette. Either every role
/// has its color or there is an error: nothing in between is returned.
pub fn validate(read: &FileRead) -> (result: Result<PaletteData, ValidationError>)
    ensures
        validation_model(result) == validated(read@),
{
    match read {
        FileRead::Unreadable => Err(ValidationError::Io),
        FileRead::Contents(text) => match parse(text.as_str()) {
            Ok(palette) => Ok(palette),
            Err(error) => Err(ValidationError::Format(error)),
        },
    }
}

} // verus!
