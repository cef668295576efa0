//! The editor for a sound's name and aliases.

use vstd::prelude::*;

use crate::library::Sound;
use crate::text;
use crate::text::{join, split_text, trim};

verus! {

/// A field of the editor.
#[derive(Clone, Copy, Debug, PartialEq, Eq, Structural)]
pub enum MetadataField {
    Name,
    Aliases,
}

/// The editor: the place of the sound and the texts of its fields.
pub struct MetadataEditor {
    pub sound_index: usize,
    pub name: String,
    pub aliases: String,
    pub field: MetadataField,
}

/// The aliases that a text names: its parts between commas, without the white space around them,
/// and without those that are empty.
pub open spec fn aliases_in(value: Seq<char>) -> Seq<Seq<char>> {
    trimmed_parts(text::split(value, ','))
}

/// The parts without the white space around them, and without those that are empty then.
pub open spec fn trimmed_parts(parts: Seq<Seq<char>>) -> Seq<Seq<char>> {
    parts.filter_map(|part: Seq<char>| trimmed_part(part))
}

/// The part without the white space around it, unless nothing is left of it.
pub open spec fn trimmed_part(part: Seq<char>) -> Option<Seq<char>> {
    if text::trimmed(part).len() > 0 {
        Some(text::trimmed(part))
    } else {
        None
    }
}

/// The aliases that a text names.
pub fn parse_aliases(value: &str) -> (aliases: Vec<String>)
    ensures
        text::views(aliases@) == aliases_in(value@),
{
    let parts = split_text(value, ',');
    let ghost pieces = text::split(value@, ',');
    let ghost to_alias = |part: Seq<char>| trimmed_part(part);
    assert(text::views(parts@).len() == parts@.len());
    let mut aliases: Vec<String> = Vec::new();
    let mut i: usize = 0;
    assert(pieces.take(0) == Seq::<Seq<char>>::empty());
    assert(text::views(aliases@) =~= pieces.take(0).filter_map(to_alias));
    while i < parts.len()
        invariant
            i <= parts@.len(),
            pieces == text::views(parts@),
            pieces.len() == parts@.len(),
            to_alias == (|part: Seq<char>| trimmed_part(part)),
            text::views(aliases@) == pieces.take(i as int).filter_map(to_alias),
        decreases parts@.len() - i,
    {
        proof {
            pieces.lemma_filter_map_take_succ(to_alias, i as int);
        }
        assert(pieces[i as int] == parts@[i as int]@);
        let ghost before = text::views(aliases@);
        let alias = trim(&parts[i]);
        if !alias.as_str().is_empty() {
            let ghost view = alias@;
            aliases.push(alias);
            assert(text::views(aliases@) =~= before + seq![view]);
        }
        i += 1;
    }
    assert(pieces.take(i as int) == pieces);
    aliases
}

/// The editor with another text in its active field.
pub open spec fn edited(before: MetadataEditor, after: MetadataEditor, text: Seq<char>) -> bool {
    &&& after.active() == text
    &&& match before.field {
        MetadataField::Name => after == (MetadataEditor { name: after.name, ..before }),
        MetadataField::Aliases => after == (MetadataEditor { aliases: after.aliases, ..before }),
    }
}

impl MetadataEditor {
    /// The text of the active field.
    pub open spec fn active(self) -> Seq<char> {
        match self.field {
            MetadataField::Name => self.name@,
            MetadataField::Aliases => self.aliases@,
        }
    }

    /// The editor on the other field.
    pub open spec fn on_other_field(self) -> MetadataEditor {
        MetadataEditor {
            field: match self.field {
                MetadataField::Name => MetadataField::Aliases,
                MetadataField::Aliases => MetadataField::Name,
            },
            ..self
        }
    }

    /// The editor as it opens for a sound: with its name, and its aliases between commas.
    pub open spec fn opened(self, sound_index: usize, sound: Sound) -> bool {
        &&& self.sound_index == sound_index
        &&& self.name == sound.name
        &&& self.aliases@ == text::joined(text::views(sound.aliases@), ", "@)
        &&& self.field == MetadataField::Name
    }

    /// The editor as it opens for a sound.
    pub fn new(sound_index: usize, sound: &Sound) -> (editor: MetadataEditor)
        ensures
            editor.opened(sound_index, *sound),
    {
        MetadataEditor {
            sound_index,
            name: sound.name.clone(),
            aliases: join(&sound.aliases, ", "),
            field: MetadataField::Name,
        }
    }

    /// The text of the active field.
    pub fn active_value_mut(&mut self) -> (value: &mut String)
        ensures
            match old(self).field {
                MetadataField::Name => *value == old(self).name && *final(self) == (
                MetadataEditor { name: *final(value), ..*old(self) }),
                MetadataField::Aliases => *value == old(self).aliases && *final(self) == (
                MetadataEditor { aliases: *final(value), ..*old(self) }),
            },
    {
        match self.field {
            MetadataField::Name => &mut self.name,
            MetadataField::Aliases => &mut self.aliases,
        }
    }

    /// Goes to the other field.
    pub fn toggle_field(&mut self)
        ensures
            *final(self) == old(self).on_other_field(),
    {
        self.field = match self.field {
            MetadataField::Name => MetadataField::Aliases,
            MetadataField::Aliases => MetadataField::Name,
        };
    }
}

/// The text can be an alias: it is not empty, has no comma, and no white space at its ends.
pub open spec fn proper_alias(alias: Seq<char>) -> bool {
    &&& alias.len() > 0
    &&& !alias.contains(',')
    &&& !text::white_space(alias[0])
    &&& !text::white_space(alias.last())
}

proof fn lemma_split_extends(start: Seq<char>, rest: Seq<char>, separator: char)
    requires
        !rest.contains(separator),
    ensures
        text::split(start, separator).len() > 0,
        text::split(start + rest, separator) == text::split(start, separator).drop_last().push(
            text::split(start, separator).last() + rest,
        ),
    decreases rest.len(),
{
    lemma_split_has_a_part(start, separator);
    let parts = text::split(start, separator);
    if rest.len() == 0 {
        assert(start + rest == start);
        assert(parts.last() + rest == parts.last());
        assert(parts.drop_last().push(parts.last()) == parts);
    } else {
        let shorter = rest.drop_last();
        assert forall|i: int| 0 <= i < shorter.len() implies shorter[i] != separator by {
            assert(rest[i] == shorter[i]);
            assert(rest.contains(rest[i]));
        }
        lemma_split_extends(start, shorter, separator);
        assert((start + rest).drop_last() == start + shorter);
        assert((start + rest).last() == rest.last());
        assert(rest.contains(rest.last()));
        let before = text::split(start + shorter, separator);
        assert(before.drop_last() == parts.drop_last());
        assert((parts.last() + shorter).push(rest.last()) == parts.last() + rest);
    }
}

proof fn lemma_split_has_a_part(value: Seq<char>, separator: char)
    ensures
        text::split(value, separator).len() > 0,
    decreases value.len(),
{
    if value.len() > 0 {
        lemma_split_has_a_part(value.drop_last(), separator);
    }
}

proof fn lemma_parts_hold_no_separator(value: Seq<char>, separator: char)
    ensures
        forall|i: int|
            0 <= i < text::split(value, separator).len() ==> !(#[trigger] text::split(
                value,
                separator,
            )[i]).contains(separator),
    decreases value.len(),
{
    if value.len() > 0 {
        lemma_parts_hold_no_separator(value.drop_last(), separator);
        lemma_split_has_a_part(value.drop_last(), separator);
        let parts = text::split(value.drop_last(), separator);
        if value.last() != separator {
            let longer = parts.last().push(value.last());
            assert forall|i: int| 0 <= i < longer.len() implies longer[i] != separator by {
                if i < parts.last().len() {
                    assert(parts.last().contains(parts.last()[i]));
                }
            }
        }
    }
}

proof fn lemma_trimmed_is_inside(value: Seq<char>)
    ensures
        forall|c: char| text::trimmed(value).contains(c) ==> value.contains(c),
        text::trimmed(value).len() > 0 ==> !text::white_space(text::trimmed(value)[0])
            && !text::white_space(text::trimmed(value).last()),
{
    lemma_trimmed_start(value);
    lemma_trimmed_end(text::trimmed_start(value));
}

proof fn lemma_trimmed_start(value: Seq<char>)
    ensures
        forall|c: char| text::trimmed_start(value).contains(c) ==> value.contains(c),
        text::trimmed_start(value).len() > 0 ==> !text::white_space(text::trimmed_start(value)[0]),
    decreases value.len(),
{
    if value.len() > 0 && text::white_space(value[0]) {
        let rest = value.drop_first();
        lemma_trimmed_start(rest);
        assert forall|c: char| rest.contains(c) implies value.contains(c) by {
            let i = choose|i: int| 0 <= i < rest.len() && rest[i] == c;
            assert(value[i + 1] == c);
        }
    }
}

proof fn lemma_trimmed_end(value: Seq<char>)
    ensures
        forall|c: char| text::trimmed_end(value).contains(c) ==> value.contains(c),
        text::trimmed_end(value).len() > 0 ==> !text::white_space(text::trimmed_end(value).last())
            && text::trimmed_end(value)[0] == value[0],
    decreases value.len(),
{
    if value.len() > 0 && text::white_space(value.last()) {
        let rest = value.drop_last();
        lemma_trimmed_end(rest);
        assert forall|c: char| rest.contains(c) implies value.contains(c) by {
            let i = choose|i: int| 0 <= i < rest.len() && rest[i] == c;
            assert(value[i] == c);
        }
    }
}

/// Every alias that is read from a text is a proper one.
pub proof fn parsed_aliases_are_proper(value: Seq<char>)
    ensures
        forall|i: int| 0 <= i < aliases_in(value).len() ==> proper_alias(#[trigger] aliases_in(value)[i]),
{
    let parts = text::split(value, ',');
    lemma_parts_hold_no_separator(value, ',');
    lemma_trimmed_parts_are_proper(parts);
}

proof fn lemma_trimmed_parts_are_proper(parts: Seq<Seq<char>>)
    requires
        forall|i: int| 0 <= i < parts.len() ==> !(#[trigger] parts[i]).contains(','),
    ensures
        forall|i: int|
            0 <= i < trimmed_parts(parts).len() ==> proper_alias(#[trigger] trimmed_parts(parts)[i]),
    decreases parts.len(),
{
    if parts.len() > 0 {
        let shorter = parts.drop_last();
        assert forall|i: int| 0 <= i < shorter.len() implies !(#[trigger] shorter[i]).contains(
            ',',
        ) by {
            assert(shorter[i] == parts[i]);
        }
        lemma_trimmed_parts_are_proper(shorter);
        lemma_trimmed_is_inside(parts.last());
        assert(!parts[parts.len() - 1].contains(','));
        assert(trimmed_part(parts.last()) is Some ==> proper_alias(
            trimmed_part(parts.last())->Some_0,
        ));
        let before = trimmed_parts(shorter);
        let all = trimmed_parts(parts);
        assert forall|i: int| 0 <= i < all.len() implies proper_alias(#[trigger] all[i]) by {
            if i < before.len() {
                assert(all[i] == before[i]);
            } else {
                assert(all == before + seq![trimmed_part(parts.last())->Some_0]);
            }
        }
    }
}

/// Opening a sound in the editor and saving it unchanged keeps its aliases: the text that the
/// editor shows for proper aliases names exactly these aliases, in their order.
pub proof fn aliases_survive_editing(aliases: Seq<Seq<char>>)
    requires
        forall|i: int| 0 <= i < aliases.len() ==> proper_alias(#[trigger] aliases[i]),
    ensures
        aliases_in(text::joined(aliases, ", "@)) == aliases,
    decreases aliases.len(),
{
    reveal_strlit(", ");
    let to_alias = |part: Seq<char>| trimmed_part(part);
    if aliases.len() == 0 {
        let parts = text::split(Seq::<char>::empty(), ',');
        assert(parts == seq![Seq::<char>::empty()]);
        assert(text::trimmed(Seq::<char>::empty()).len() == 0);
        assert(parts.drop_last() == Seq::<Seq<char>>::empty());
        assert(parts.drop_last().filter_map(to_alias) == Seq::<Seq<char>>::empty());
        assert(trimmed_parts(parts) =~= aliases);
    } else if aliases.len() == 1 {
        let alias = aliases[0];
        let nothing = Seq::<char>::empty();
        lemma_split_extends(nothing, alias, ',');
        assert(nothing + alias == alias);
        let parts = text::split(alias, ',');
        assert(parts =~= seq![alias]);
        assert(parts.drop_last() == Seq::<Seq<char>>::empty());
        assert(parts.drop_last().filter_map(to_alias) == Seq::<Seq<char>>::empty());
        assert(text::trimmed(alias) == alias);
        assert(trimmed_parts(parts) =~= aliases);
    } else {
        let shorter = aliases.drop_last();
        let alias = aliases.last();
        assert forall|i: int| 0 <= i < shorter.len() implies proper_alias(
            #[trigger] shorter[i],
        ) by {
            assert(shorter[i] == aliases[i]);
        }
        aliases_survive_editing(shorter);
        let start = text::joined(shorter, ", "@);
        let spaced = seq![' '] + alias;
        let whole = text::joined(aliases, ", "@);
        assert(whole =~= start.push(',') + spaced);
        assert(proper_alias(aliases[aliases.len() - 1]));
        assert forall|i: int| 0 <= i < spaced.len() implies spaced[i] != ',' by {
            if i > 0 {
                assert(alias.contains(alias[i - 1]));
            }
        }
        lemma_split_extends(start.push(','), spaced, ',');
        assert(start.push(',').drop_last() == start);
        let parts = text::split(whole, ',');
        assert(parts =~= text::split(start, ',').push(spaced));
        assert(parts.drop_last() =~= text::split(start, ','));
        assert(spaced.drop_first() =~= alias);
        assert(text::trimmed_start(spaced) == text::trimmed_start(alias));
        assert(text::trimmed(spaced) == alias);
        assert(trimmed_parts(parts) =~= aliases);
    }
}

/// Aliases are what stands between commas, without the white space around it: an alias with white
/// space before and after it, behind a text and a comma, is read as the last alias, after those of
/// the text. What is blank is no alias.
pub proof fn aliases_stand_between_commas(
    text: &str,
    aliases: Vec<String>,
    longer: &str,
    more: Vec<String>,
    lead: Seq<char>,
    alias: Seq<char>,
    tail: Seq<char>,
    blank: &str,
    same: Vec<String>,
)
    requires
        call_ensures(parse_aliases, (text,), aliases),
        proper_alias(alias),
        text::all_white(lead) && text::all_white(tail),
        !lead.contains(',') && !tail.contains(','),
        longer@ == text@.push(',') + (lead + alias + tail),
        call_ensures(parse_aliases, (longer,), more),
        blank@ == text@.push(',') + lead,
        call_ensures(parse_aliases, (blank,), same),
    ensures
        text::views(more@) == text::views(aliases@).push(alias),
        text::views(same@) == text::views(aliases@),
{
    let part = lead + alias + tail;
    lemma_trimmed_between(lead, alias, tail);
    lemma_part_is_read(text@, part);
    lemma_trimmed_blank(lead);
    lemma_part_is_read(text@, lead);
    assert(aliases_in(longer@) =~= aliases_in(text@).push(alias));
}

proof fn lemma_part_is_read(text: Seq<char>, part: Seq<char>)
    requires
        !part.contains(','),
    ensures
        text::trimmed(part).len() > 0 ==> aliases_in(text.push(',') + part) == aliases_in(
            text,
        ).push(text::trimmed(part)),
        text::trimmed(part).len() == 0 ==> aliases_in(text.push(',') + part) == aliases_in(text),
{
    let start = text.push(',');
    lemma_split_extends(start, part, ',');
    assert(start.drop_last() =~= text);
    lemma_split_has_a_part(text, ',');
    let parts = text::split(start + part, ',');
    assert(Seq::<char>::empty() + part =~= part);
    assert(parts =~= text::split(text, ',').push(part));
    assert(parts.drop_last() =~= text::split(text, ','));
    if text::trimmed(part).len() > 0 {
        assert(aliases_in(start + part) =~= aliases_in(text).push(text::trimmed(part)));
    }
}

proof fn lemma_trimmed_blank(blank: Seq<char>)
    requires
        text::all_white(blank),
    ensures
        text::trimmed(blank).len() == 0,
        text::trimmed_start(blank).len() == 0,
    decreases blank.len(),
{
    if blank.len() > 0 {
        let rest = blank.drop_first();
        assert forall|i: int| 0 <= i < rest.len() implies text::white_space(
            #[trigger] rest[i],
        ) by {
            assert(rest[i] == blank[i + 1]);
        }
        lemma_trimmed_blank(rest);
        assert(text::white_space(blank[0]));
    }
}

proof fn lemma_trimmed_between(lead: Seq<char>, alias: Seq<char>, tail: Seq<char>)
    requires
        text::all_white(lead),
        text::all_white(tail),
        proper_alias(alias),
    ensures
        text::trimmed(lead + alias + tail) == alias,
        !lead.contains(',') && !tail.contains(',') ==> !(lead + alias + tail).contains(','),
{
    lemma_lead_is_trimmed(lead, alias + tail);
    assert(lead + alias + tail =~= lead + (alias + tail));
    lemma_tail_is_trimmed(alias, tail);
    if !lead.contains(',') && !tail.contains(',') {
        let whole = lead + alias + tail;
        assert forall|i: int| 0 <= i < whole.len() implies whole[i] != ',' by {
            if i < lead.len() {
                assert(lead.contains(lead[i]));
            } else if i < lead.len() + alias.len() {
                assert(alias.contains(alias[i - lead.len()]));
            } else {
                assert(tail.contains(tail[i - lead.len() - alias.len()]));
            }
        }
    }
}

proof fn lemma_lead_is_trimmed(lead: Seq<char>, rest: Seq<char>)
    requires
        text::all_white(lead),
        rest.len() > 0 && !text::white_space(rest[0]),
    ensures
        text::trimmed_start(lead + rest) == rest,
    decreases lead.len(),
{
    if lead.len() > 0 {
        let shorter = lead.drop_first();
        assert forall|i: int| 0 <= i < shorter.len() implies text::white_space(
            #[trigger] shorter[i],
        ) by {
            assert(shorter[i] == lead[i + 1]);
        }
        lemma_lead_is_trimmed(shorter, rest);
        assert(text::white_space(lead[0]));
        assert((lead + rest).drop_first() =~= shorter + rest);
    } else {
        assert(lead + rest =~= rest);
    }
}

proof fn lemma_tail_is_trimmed(start: Seq<char>, tail: Seq<char>)
    requires
        text::all_white(tail),
        start.len() > 0 && !text::white_space(start.last()),
    ensures
        text::trimmed_end(start + tail) == start,
    decreases tail.len(),
{
    if tail.len() > 0 {
        let shorter = tail.drop_last();
        assert forall|i: int| 0 <= i < shorter.len() implies text::white_space(
            #[trigger] shorter[i],
        ) by {
            assert(shorter[i] == tail[i]);
        }
        lemma_tail_is_trimmed(start, shorter);
        assert(text::white_space(tail[tail.len() - 1]));
        assert((start + tail).drop_last() =~= start + shorter);
    } else {
        assert(start + tail =~= start);
    }
}

/// The editor opens with the sound's name and aliases, and reading the aliases that it shows gives
/// the sound's aliases; it is on the name first, and going to the other field twice changes nothing.
pub proof fn the_editor_shows_the_sound(
    sound_index: usize,
    sound: Sound,
    editor: MetadataEditor,
    shown: &str,
    aliases: Vec<String>,
    once: &mut MetadataEditor,
    twice: &mut MetadataEditor,
)
    requires
        call_ensures(MetadataEditor::new, (sound_index, &sound), editor),
        forall|i: int|
            0 <= i < sound.aliases@.len() ==> proper_alias((#[trigger] sound.aliases@[i])@),
        shown@ == editor.aliases@,
        call_ensures(parse_aliases, (shown,), aliases),
        *old(once) == editor,
        call_ensures(MetadataEditor::toggle_field, (once,), ()),
        *old(twice) == *final(once),
        call_ensures(MetadataEditor::toggle_field, (twice,), ()),
    ensures
        editor.sound_index == sound_index,
        editor.name@ == sound.name@,
        editor.field == MetadataField::Name,
        text::views(aliases@) == text::views(sound.aliases@),
        final(once).field == MetadataField::Aliases,
        final(once).name == editor.name && final(once).aliases == editor.aliases,
        *final(twice) == editor,
{
    let all = text::views(sound.aliases@);
    assert forall|i: int| 0 <= i < all.len() implies proper_alias(#[trigger] all[i]) by {
        assert(all[i] == sound.aliases@[i]@);
    }
    aliases_survive_editing(all);
}

} // verus!
