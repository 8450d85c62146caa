//! What holds of the palette file format: the laws that the parser's
//! contract rests on, stated over the format's own definitions.

use vstd::prelude::*;
use vstd::utf8::{encode_utf8, encode_utf8_decode_utf8};

use crate::gui::styles::ascii::LINE_FEED;
use crate::gui::styles::color::Color;
use crate::gui::styles::palette::{palette_of, ColorRole, PaletteModel};
use crate::gui::styles::palette_file::{
    classify, custom_name, first_missing, is_blank, key_bytes, line_color, line_role, lines,
    parse_document, prefix_len, read_line, read_lines, role_of_key, trim, trim_end, trim_start,
    validated, FileReadModel, FormatError,
};

verus! {

/// What holds of lines that [`read_lines`] accepts: none is malformed; each
/// that speaks of a role gives it a color, is the only one to speak of that
/// role, and that color is the one found; and nothing else is found but what
/// was found before.
pub proof fn lemma_accepted_lines(lines: Seq<Seq<u8>>, from: int, found: Map<ColorRole, Color>)
    requires
        0 <= from <= lines.len(),
        read_lines(lines, from, found) is Ok,
    ensures
        forall|i: int| from <= i < lines.len() ==> !(classify(#[trigger] lines[i]) is Malformed),
        forall|i: int|
            from <= i < lines.len() && line_role(#[trigger] lines[i]) is Some ==> {
                let role = line_role(lines[i])->0;
                &&& line_color(lines[i]) is Some
                &&& !found.dom().contains(role)
                &&& read_lines(lines, from, found)->Ok_0.dom().contains(role)
                &&& read_lines(lines, from, found)->Ok_0[role] == line_color(lines[i])->0
            },
        forall|i: int, j: int|
            from <= i < j < lines.len() && line_role(#[trigger] lines[i]) is Some ==> line_role(
                lines[i],
            ) != line_role(#[trigger] lines[j]),
        forall|role: ColorRole| #[trigger]
            found.dom().contains(role) ==> read_lines(lines, from, found)->Ok_0.dom().contains(
                role,
            ) && read_lines(lines, from, found)->Ok_0[role] == found[role],
        forall|role: ColorRole| #[trigger]
            read_lines(lines, from, found)->Ok_0.dom().contains(role) ==> found.dom().contains(
                role,
            ) || exists|i: int|
                from <= i < lines.len() && line_role(#[trigger] lines[i]) == Some(role),
    decreases lines.len() - from,
{
    if from < lines.len() {
        let first = lines[from];
        let step = read_line(found, first, from + 1);
        assert(step is Ok);
        let next = step->Ok_0;
        let all = read_lines(lines, from, found)->Ok_0;
        assert(read_lines(lines, from, found) == read_lines(lines, from + 1, next));
        lemma_accepted_lines(lines, from + 1, next);
        assert(!(classify(first) is Malformed));
        assert(forall|role: ColorRole| #[trigger]
            found.dom().contains(role) ==> next.dom().contains(role) && next[role] == found[role]);
        if line_role(first) is Some {
            let role = line_role(first)->0;
            assert(line_color(first) is Some);
            assert(!found.dom().contains(role));
            assert(next == found.insert(role, line_color(first)->0));
            assert(next.dom().contains(role));
            assert(all.dom().contains(role) && all[role] == next[role]);
        } else {
            assert(next == found);
        }
        assert forall|i: int|
            from <= i < lines.len() && line_role(#[trigger] lines[i]) is Some implies {
            let role = line_role(lines[i])->0;
            &&& line_color(lines[i]) is Some
            &&& !found.dom().contains(role)
            &&& all.dom().contains(role)
            &&& all[role] == line_color(lines[i])->0
        } by {
            let role = line_role(lines[i])->0;
            if i > from {
                assert(!next.dom().contains(role));
                if found.dom().contains(role) {
                    assert(next.dom().contains(role));
                }
            }
        }
        assert forall|i: int, j: int|
            from <= i < j < lines.len() && line_role(#[trigger] lines[i]) is Some implies line_role(
            lines[i],
        ) != line_role(#[trigger] lines[j]) by {
            if i == from && line_role(lines[j]) is Some {
                assert(!next.dom().contains(line_role(lines[j])->0));
            }
        }
        assert forall|role: ColorRole| #[trigger] found.dom().contains(role) implies all.dom().contains(
            role,
        ) && all[role] == found[role] by {
            assert(next.dom().contains(role));
        }
        assert forall|role: ColorRole| #[trigger] all.dom().contains(role) implies found.dom().contains(
            role,
        ) || exists|i: int|
            from <= i < lines.len() && line_role(#[trigger] lines[i]) == Some(role) by {
            if !found.dom().contains(role) {
                if next.dom().contains(role) {
                    assert(line_role(lines[from]) == Some(role));
                } else {
                    let i = choose|i: int|
                        from + 1 <= i < lines.len() && line_role(#[trigger] lines[i]) == Some(role);
                    assert(line_role(lines[i]) == Some(role));
                }
            }
        }
    }
}

/// Lines are accepted by [`read_lines`] if none is malformed and each that
/// speaks of a role gives it a color and is the first to speak of it.
pub proof fn lemma_orderly_lines_are_accepted(
    lines: Seq<Seq<u8>>,
    from: int,
    found: Map<ColorRole, Color>,
)
    requires
        0 <= from <= lines.len(),
        forall|i: int| from <= i < lines.len() ==> !(classify(#[trigger] lines[i]) is Malformed),
        forall|i: int|
            from <= i < lines.len() && line_role(#[trigger] lines[i]) is Some ==> line_color(
                lines[i],
            ) is Some && !found.dom().contains(line_role(lines[i])->0),
        forall|i: int, j: int|
            from <= i < j < lines.len() && line_role(#[trigger] lines[i]) is Some ==> line_role(
                lines[i],
            ) != line_role(#[trigger] lines[j]),
    ensures
        read_lines(lines, from, found) is Ok,
    decreases lines.len() - from,
{
    if from < lines.len() {
        let step = read_line(found, lines[from], from + 1);
        assert(!(classify(lines[from]) is Malformed));
        assert(step is Ok);
        let next = step->Ok_0;
        assert forall|i: int|
            from + 1 <= i < lines.len() && line_role(#[trigger] lines[i]) is Some implies line_color(
            lines[i],
        ) is Some && !next.dom().contains(line_role(lines[i])->0) by {
            if line_role(lines[from]) is Some {
                assert(line_role(lines[from]) != line_role(lines[i]));
            }
        }
        lemma_orderly_lines_are_accepted(lines, from + 1, next);
    }
}

/// A file in which no line speaks of `role` is no palette: there is no
/// palette with a role left out.
pub proof fn lemma_file_without_a_role_is_rejected(text: Seq<u8>, role: ColorRole)
    requires
        forall|i: int|
            0 <= i < lines(text).len() ==> line_role(#[trigger] lines(text)[i]) != Some(role),
    ensures
        parse_document(text) is Err,
{
    let read = read_lines(lines(text), 0, Map::empty());
    if read is Ok {
        lemma_accepted_lines(lines(text), 0, Map::empty());
        assert(!read->Ok_0.dom().contains(role));
    }
}

/// A file is a palette if none of its lines is malformed and every role has
/// exactly one line that speaks of it, with a quoted color as its value. The
/// palette then gives each role the color of that line, and has the name of
/// the custom style.
///
/// `line_of` says, for each role, which line speaks of it.
pub proof fn lemma_complete_file_is_its_palette(text: Seq<u8>, line_of: spec_fn(ColorRole) -> int)
    requires
        forall|i: int|
            0 <= i < lines(text).len() ==> !(classify(#[trigger] lines(text)[i]) is Malformed),
        forall|role: ColorRole|
            0 <= #[trigger] line_of(role) < lines(text).len() && line_role(
                lines(text)[line_of(role)],
            ) == Some(role) && line_color(lines(text)[line_of(role)]) is Some,
        forall|i: int|
            0 <= i < lines(text).len() && line_role(#[trigger] lines(text)[i]) is Some ==> i
                == line_of(line_role(lines(text)[i])->0),
    ensures
        parse_document(text) is Ok,
        parse_document(text)->Ok_0.name == custom_name(),
        forall|role: ColorRole| #[trigger]
            parse_document(text)->Ok_0.color(role) == line_color(lines(text)[line_of(role)])->0,
{
    let all = lines(text);
    assert forall|i: int| 0 <= i < all.len() && line_role(#[trigger] all[i]) is Some implies line_color(
        all[i],
    ) is Some by {
        assert(i == line_of(line_role(all[i])->0));
    }
    assert forall|i: int, j: int|
        0 <= i < j < all.len() && line_role(#[trigger] all[i]) is Some implies line_role(all[i])
        != line_role(#[trigger] all[j]) by {
        if line_role(all[i]) == line_role(all[j]) {
            assert(i == line_of(line_role(all[i])->0));
            assert(j == line_of(line_role(all[j])->0));
        }
    }
    lemma_orderly_lines_are_accepted(all, 0, Map::empty());
    lemma_accepted_lines(all, 0, Map::empty());
    let found = read_lines(all, 0, Map::empty())->Ok_0;
    assert forall|role: ColorRole|
        found.dom().contains(role) && found[role] == line_color(
            all[#[trigger] line_of(role)],
        )->0 by {
        assert(line_role(all[line_of(role)]) == Some(role));
    }
    assert(found.dom().contains(ColorRole::Primary)) by {
        let _ = line_of(ColorRole::Primary);
    }
    assert(found.dom().contains(ColorRole::Secondary)) by {
        let _ = line_of(ColorRole::Secondary);
    }
    assert(found.dom().contains(ColorRole::Outgoing)) by {
        let _ = line_of(ColorRole::Outgoing);
    }
    assert(found.dom().contains(ColorRole::Incoming)) by {
        let _ = line_of(ColorRole::Incoming);
    }
    assert(found.dom().contains(ColorRole::Buttons)) by {
        let _ = line_of(ColorRole::Buttons);
    }
    assert(found.dom().contains(ColorRole::TextHeaders)) by {
        let _ = line_of(ColorRole::TextHeaders);
    }
    assert(found.dom().contains(ColorRole::TextBody)) by {
        let _ = line_of(ColorRole::TextBody);
    }
    assert(first_missing(found) is None);
    let palette = palette_of(custom_name(), found);
    assert(parse_document(text) == Ok::<PaletteModel, FormatError>(palette));
    assert forall|role: ColorRole| #[trigger]
        palette.color(role) == line_color(all[line_of(role)])->0 by {
        assert(found[role] == line_color(all[line_of(role)])->0);
    }
}

/// A file that is a palette has no malformed line, and for every role exactly
/// one line that speaks of it; the palette gives the role the color of that
/// line.
pub proof fn lemma_palette_matches_its_file(text: Seq<u8>, role: ColorRole) -> (line: int)
    requires
        parse_document(text) is Ok,
    ensures
        forall|i: int|
            0 <= i < lines(text).len() ==> !(classify(#[trigger] lines(text)[i]) is Malformed),
        0 <= line < lines(text).len(),
        line_role(lines(text)[line]) == Some(role),
        line_color(lines(text)[line]) == Some(parse_document(text)->Ok_0.color(role)),
        forall|i: int|
            0 <= i < lines(text).len() && line_role(#[trigger] lines(text)[i]) == Some(role) ==> i
                == line,
{
    let all = lines(text);
    let found = read_lines(all, 0, Map::empty())->Ok_0;
    lemma_accepted_lines(all, 0, Map::empty());
    assert(found.dom().contains(role));
    let line = choose|i: int| 0 <= i < all.len() && line_role(#[trigger] all[i]) == Some(role);
    assert forall|i: int|
        0 <= i < all.len() && line_role(#[trigger] all[i]) == Some(role) implies i == line by {
        if i < line {
            assert(line_role(all[i]) != line_role(all[line]));
        } else if line < i {
            assert(line_role(all[line]) != line_role(all[i]));
        }
    }
    line
}


/// The key of a role is the key of that role alone: no two roles share their
/// key.
pub proof fn lemma_key_names_its_role(role: ColorRole)
    ensures
        role_of_key(key_bytes(role)) == Some(role),
        forall|other: ColorRole| key_bytes(other) == key_bytes(role) ==> other == role,
{
    reveal_strlit("primary");
    reveal_strlit("secondary");
    reveal_strlit("outgoing");
    reveal_strlit("incoming");
    reveal_strlit("buttons");
    reveal_strlit("text_headers");
    reveal_strlit("text_body");
    assert forall|a: ColorRole, b: ColorRole| key_bytes(a) == key_bytes(b) implies a == b by {
        encode_utf8_decode_utf8(a.key_text());
        encode_utf8_decode_utf8(b.key_text());
        assert(a.key_text() == b.key_text());
        assert(a.key_text().len() == b.key_text().len());
        assert(a.key_text()[0] == b.key_text()[0]);
    }
}

/// [`first_missing`] goes by the palette order: it reports a role that has no
/// color while every role before it has one, and reports none exactly when
/// every role has a color.
pub proof fn lemma_first_missing_is_the_first(found: Map<ColorRole, Color>)
    ensures
        first_missing(found) is None <==> forall|role: ColorRole| found.dom().contains(role),
        first_missing(found) matches Some(missing) ==> !found.dom().contains(missing) && forall|
            role: ColorRole,
        |
            role.position() < missing.position() ==> found.dom().contains(role),
{
    if first_missing(found) is None {
        assert forall|role: ColorRole| found.dom().contains(role) by {
            match role {
                ColorRole::Primary => {},
                ColorRole::Secondary => {},
                ColorRole::Outgoing => {},
                ColorRole::Incoming => {},
                ColorRole::Buttons => {},
                ColorRole::TextHeaders => {},
                ColorRole::TextBody => {},
            }
        }
    }
}

/// What was read from a file in which no line speaks of `role` is a format
/// error, whatever else the file holds.
pub proof fn lemma_file_without_a_role_is_a_format_error(text: Seq<char>, role: ColorRole)
    requires
        forall|i: int|
            0 <= i < lines(encode_utf8(text)).len() ==> line_role(
                #[trigger] lines(encode_utf8(text))[i],
            ) != Some(role),
    ensures
        validated(FileReadModel::Contents(text)) matches Err(error) && error is Format,
{
    lemma_file_without_a_role_is_rejected(encode_utf8(text), role);
}


/// [`prefix_len`] finds the first `byte`: none stands before the place it
/// gives, and one stands at that place unless the text holds none.
pub proof fn lemma_prefix_len_is_first(text: Seq<u8>, byte: u8)
    ensures
        prefix_len(text, byte) <= text.len(),
        forall|i: int| 0 <= i < prefix_len(text, byte) ==> text[i] != byte,
        prefix_len(text, byte) < text.len() ==> text[prefix_len(text, byte) as int] == byte,
    decreases text.len(),
{
    if text.len() > 0 && text[0] != byte {
        let rest = text.drop_first();
        lemma_prefix_len_is_first(rest, byte);
        assert forall|i: int| 0 <= i < prefix_len(text, byte) implies text[i] != byte by {
            if i > 0 {
                assert(rest[i - 1] == text[i]);
            }
        }
    }
}

/// The lines put together again, with a line feed between each two.
pub open spec fn join_lines(lines: Seq<Seq<u8>>) -> Seq<u8>
    decreases lines.len(),
{
    if lines.len() == 0 {
        Seq::empty()
    } else if lines.len() == 1 {
        lines[0]
    } else {
        lines[0] + seq![LINE_FEED] + join_lines(lines.drop_first())
    }
}

/// [`lines`] cuts a text at its line feeds and nowhere else: there is at
/// least one line, no line holds a line feed, and the lines joined by line
/// feeds are the text.
pub proof fn lemma_lines_split_the_text(text: Seq<u8>)
    ensures
        lines(text).len() >= 1,
        join_lines(lines(text)) == text,
        forall|i: int, j: int|
            0 <= i < lines(text).len() && 0 <= j < lines(text)[i].len() ==> lines(text)[i][j]
                != LINE_FEED,
    decreases text.len(),
{
    lemma_prefix_len_is_first(text, LINE_FEED);
    let end = prefix_len(text, LINE_FEED) as int;
    if end < text.len() {
        let first = text.subrange(0, end);
        let rest = text.subrange(end + 1, text.len() as int);
        lemma_lines_split_the_text(rest);
        assert(lines(text).drop_first() =~= lines(rest));
        assert(first + seq![LINE_FEED] + rest =~= text);
        assert forall|i: int, j: int|
            0 <= i < lines(text).len() && 0 <= j < lines(text)[i].len() implies lines(text)[i][j]
            != LINE_FEED by {
            if i > 0 {
                assert(lines(text)[i] == lines(rest)[i - 1]);
            }
        }
    }
}

/// [`trim_start`] cuts the blanks at the start and nothing else. The result
/// says how many bytes are cut.
pub proof fn lemma_trim_start_cuts_blanks(text: Seq<u8>) -> (cut: int)
    ensures
        0 <= cut <= text.len(),
        trim_start(text) == text.subrange(cut, text.len() as int),
        forall|i: int| 0 <= i < cut ==> is_blank(text[i]),
        cut < text.len() ==> !is_blank(text[cut]),
    decreases text.len(),
{
    if text.len() > 0 && is_blank(text[0]) {
        let rest = text.drop_first();
        let cut = lemma_trim_start_cuts_blanks(rest);
        assert(rest.subrange(cut, rest.len() as int) =~= text.subrange(cut + 1, text.len() as int));
        assert forall|i: int| 0 <= i < cut + 1 implies is_blank(text[i]) by {
            if i > 0 {
                assert(rest[i - 1] == text[i]);
            }
        }
        cut + 1
    } else {
        assert(text.subrange(0, text.len() as int) =~= text);
        0
    }
}

/// [`trim_end`] cuts the blanks at the end and nothing else. The result says
/// how many bytes are kept.
pub proof fn lemma_trim_end_cuts_blanks(text: Seq<u8>) -> (kept: int)
    ensures
        0 <= kept <= text.len(),
        trim_end(text) == text.subrange(0, kept),
        forall|i: int| kept <= i < text.len() ==> is_blank(text[i]),
        kept > 0 ==> !is_blank(text[kept - 1]),
    decreases text.len(),
{
    if text.len() > 0 && is_blank(text.last()) {
        let rest = text.drop_last();
        let kept = lemma_trim_end_cuts_blanks(rest);
        assert(rest.subrange(0, kept) =~= text.subrange(0, kept));
        assert forall|i: int| kept <= i < text.len() implies is_blank(text[i]) by {
            if i < rest.len() {
                assert(rest[i] == text[i]);
            }
        }
        if kept > 0 {
            assert(rest[kept - 1] == text[kept - 1]);
        }
        kept
    } else {
        assert(text.subrange(0, text.len() as int) =~= text);
        text.len() as int
    }
}

/// [`trim`] keeps the part of a text from its first to its last byte that is
/// no blank: what it cuts is blank, and what it keeps neither starts nor ends
/// with a blank. The result gives the bounds of the part that is kept.
pub proof fn lemma_trim_keeps_the_core(text: Seq<u8>) -> (bounds: (int, int))
    ensures
        0 <= bounds.0 <= bounds.1 <= text.len(),
        trim(text) == text.subrange(bounds.0, bounds.1),
        forall|i: int| 0 <= i < bounds.0 || bounds.1 <= i < text.len() ==> is_blank(text[i]),
        trim(text).len() > 0 ==> !is_blank(trim(text).first()) && !is_blank(trim(text).last()),
{
    let cut = lemma_trim_start_cuts_blanks(text);
    let middle = text.subrange(cut, text.len() as int);
    let kept = lemma_trim_end_cuts_blanks(middle);
    assert(middle.subrange(0, kept) =~= text.subrange(cut, cut + kept));
    assert forall|i: int| cut + kept <= i < text.len() implies is_blank(text[i]) by {
        assert(middle[i - cut] == text[i]);
    }
    if kept > 0 {
        assert(middle[kept - 1] == text[cut + kept - 1]);
        assert(middle[0] == text[cut]);
    }
    (cut, cut + kept)
}

} // verus!
