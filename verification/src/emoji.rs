//! The emojis that the picker offers, their groups and skin tones, and the
//! names of the files that hold their pictures.

use vstd::prelude::*;
use vstd::string::StrSliceExecFns;

verus! {

/// `emojis::Emoji`, an emoji of the outside crate. Nothing is known of what
/// it holds but what the functions below say.
#[verifier::external_type_specification]
#[verifier::external_body]
pub struct ExEmoji(emojis::Emoji);

/// `emojis::Group`, the groups of the outside crate: an enumeration without
/// fields, which is read as it is written there.
#[verifier::external_type_specification]
pub struct ExGroup(emojis::Group);

/// `emojis::SkinTone`, the skin tones of the outside crate: an enumeration
/// without fields, which is read as it is written there. It may grow.
#[verifier::external_type_specification]
pub struct ExSkinTone(emojis::SkinTone);

/// The name that `emojis::Emoji::name` gives for an emoji.
pub uninterp spec fn name_of(emoji: &emojis::Emoji) -> Seq<char>;

/// The text that `emojis::Emoji::as_str` gives for an emoji: the emoji itself.
pub uninterp spec fn text_of(emoji: &emojis::Emoji) -> Seq<char>;

/// The skin tone that `emojis::Emoji::skin_tone` gives for an emoji.
pub uninterp spec fn tone_of(emoji: &emojis::Emoji) -> Option<emojis::SkinTone>;

/// `emojis::Emoji::name`: the name of an emoji is a property of the emoji;
/// nothing more is claimed of it.
pub assume_specification[ emojis::Emoji::name ](emoji: &emojis::Emoji) -> (name: &str)
    ensures
        name@ == name_of(emoji),
;

/// `emojis::Emoji::as_str`: the text of an emoji is a property of the emoji;
/// nothing more is claimed of it.
pub assume_specification[ emojis::Emoji::as_str ](emoji: &emojis::Emoji) -> (text: &str)
    ensures
        text@ == text_of(emoji),
;

/// `emojis::Emoji::skin_tone`: the skin tone of an emoji is a property of the
/// emoji; nothing more is claimed of it.
pub assume_specification[ emojis::Emoji::skin_tone ](emoji: &emojis::Emoji) -> (tone: Option<
    emojis::SkinTone,
>)
    ensures
        tone == tone_of(emoji),
;

/// `String::push` of the standard library appends the character to the end
/// of the string.
pub assume_specification[ String::push ](text: &mut String, c: char)
    ensures
        final(text)@ == old(text)@.push(c),
;

/// An emoji.
#[derive(Debug, Clone, Copy, PartialEq, Eq, Hash)]
pub struct EmojiWrapper(pub &'static emojis::Emoji);

/// The number of a skin tone in the order in which the skin tones of an
/// emoji are listed, where it has one.
pub open spec fn tone_index(tone: emojis::SkinTone) -> Option<u16> {
    match tone {
        emojis::SkinTone::Default => Some(0u16),
        emojis::SkinTone::Light => Some(1u16),
        emojis::SkinTone::MediumLight => Some(2u16),
        emojis::SkinTone::Medium => Some(3u16),
        emojis::SkinTone::MediumDark => Some(4u16),
        emojis::SkinTone::Dark => Some(5u16),
        emojis::SkinTone::LightAndMediumLight => Some(6u16),
        emojis::SkinTone::LightAndMedium => Some(7u16),
        emojis::SkinTone::LightAndMediumDark => Some(8u16),
        emojis::SkinTone::LightAndDark => Some(9u16),
        emojis::SkinTone::MediumLightAndLight => Some(10u16),
        emojis::SkinTone::MediumLightAndMedium => Some(11u16),
        emojis::SkinTone::MediumLightAndMediumDark => Some(12u16),
        emojis::SkinTone::MediumLightAndDark => Some(13u16),
        emojis::SkinTone::MediumAndLight => Some(14u16),
        emojis::SkinTone::MediumAndMediumLight => Some(15u16),
        emojis::SkinTone::MediumAndMediumDark => Some(16u16),
        emojis::SkinTone::MediumAndDark => Some(17u16),
        emojis::SkinTone::MediumDarkAndLight => Some(18u16),
        emojis::SkinTone::MediumDarkAndMediumLight => Some(19u16),
        emojis::SkinTone::MediumDarkAndMedium => Some(20u16),
        emojis::SkinTone::MediumDarkAndDark => Some(21u16),
        emojis::SkinTone::DarkAndLight => Some(22u16),
        emojis::SkinTone::DarkAndMediumLight => Some(23u16),
        emojis::SkinTone::DarkAndMedium => Some(24u16),
        emojis::SkinTone::DarkAndMediumDark => Some(25u16),
        _ => None,
    }
}

impl EmojiWrapper {
    /// The name of the emoji.
    pub fn name(&self) -> (name: &str)
        ensures
            name@ == name_of(self.0),
    {
        self.0.name()
    }

    /// The emoji, as text.
    pub fn code(&self) -> (code: &str)
        ensures
            code@ == text_of(self.0),
    {
        self.0.as_str()
    }

    /// The number of the emoji's skin tone, where the emoji has a skin tone
    /// and the skin tone has a number.
    pub fn skin_tone(&self) -> (index: Option<u16>)
        ensures
            index == match tone_of(self.0) {
                Some(tone) => tone_index(tone),
                None => None,
            },
    {
        match self.0.skin_tone() {
            Some(tone) => Self::skin_tone_idx(tone),
            None => None,
        }
    }

    /// The number of a skin tone: see [`tone_index`].
    pub fn skin_tone_idx(st: emojis::SkinTone) -> (index: Option<u16>)
        ensures
            index == tone_index(st),
    {
        match st {
            emojis::SkinTone::Default => Some(0),
            emojis::SkinTone::Light => Some(1),
            emojis::SkinTone::MediumLight => Some(2),
            emojis::SkinTone::Medium => Some(3),
            emojis::SkinTone::MediumDark => Some(4),
            emojis::SkinTone::Dark => Some(5),
            emojis::SkinTone::LightAndMediumLight => Some(6),
            emojis::SkinTone::LightAndMedium => Some(7),
            emojis::SkinTone::LightAndMediumDark => Some(8),
            emojis::SkinTone::LightAndDark => Some(9),
            emojis::SkinTone::MediumLightAndLight => Some(10),
            emojis::SkinTone::MediumLightAndMedium => Some(11),
            emojis::SkinTone::MediumLightAndMediumDark => Some(12),
            emojis::SkinTone::MediumLightAndDark => Some(13),
            emojis::SkinTone::MediumAndLight => Some(14),
            emojis::SkinTone::MediumAndMediumLight => Some(15),
            emojis::SkinTone::MediumAndMediumDark => Some(16),
            emojis::SkinTone::MediumAndDark => Some(17),
            emojis::SkinTone::MediumDarkAndLight => Some(18),
            emojis::SkinTone::MediumDarkAndMediumLight => Some(19),
            emojis::SkinTone::MediumDarkAndMedium => Some(20),
            emojis::SkinTone::MediumDarkAndDark => Some(21),
            emojis::SkinTone::DarkAndLight => Some(22),
            emojis::SkinTone::DarkAndMediumLight => Some(23),
            emojis::SkinTone::DarkAndMedium => Some(24),
            emojis::SkinTone::DarkAndMediumDark => Some(25),
            _ => None,
        }
    }
}

/// A group of emojis.
#[derive(Debug, Clone, Copy, PartialEq, Eq, PartialOrd, Ord, Hash)]
pub struct EmojiGroupWrapper(pub emojis::Group);

/// The title of a group.
pub open spec fn group_title(group: emojis::Group) -> Seq<char> {
    match group {
        emojis::Group::Activities => "Activities"@,
        emojis::Group::AnimalsAndNature => "Animals & Nature"@,
        emojis::Group::Flags => "Flags"@,
        emojis::Group::FoodAndDrink => "Food & Drink"@,
        emojis::Group::Objects => "Objects"@,
        emojis::Group::PeopleAndBody => "People & Body"@,
        emojis::Group::SmileysAndEmotion => "Smileys & Emotion"@,
        emojis::Group::Symbols => "Symbols"@,
        emojis::Group::TravelAndPlaces => "Travel & Places"@,
    }
}

/// The groups, in the order in which the picker shows them.
pub open spec fn all_groups() -> Seq<EmojiGroupWrapper> {
    seq![
        EmojiGroupWrapper(emojis::Group::SmileysAndEmotion),
        EmojiGroupWrapper(emojis::Group::PeopleAndBody),
        EmojiGroupWrapper(emojis::Group::AnimalsAndNature),
        EmojiGroupWrapper(emojis::Group::FoodAndDrink),
        EmojiGroupWrapper(emojis::Group::TravelAndPlaces),
        EmojiGroupWrapper(emojis::Group::Activities),
        EmojiGroupWrapper(emojis::Group::Objects),
        EmojiGroupWrapper(emojis::Group::Symbols),
        EmojiGroupWrapper(emojis::Group::Flags),
    ]
}

impl EmojiGroupWrapper {
    /// The title of the group.
    pub fn group_name(&self) -> (name: &'static str)
        ensures
            name@ == group_title(self.0),
    {
        match self.0 {
            emojis::Group::Activities => "Activities",
            emojis::Group::AnimalsAndNature => "Animals & Nature",
            emojis::Group::Flags => "Flags",
            emojis::Group::FoodAndDrink => "Food & Drink",
            emojis::Group::Objects => "Objects",
            emojis::Group::PeopleAndBody => "People & Body",
            emojis::Group::SmileysAndEmotion => "Smileys & Emotion",
            emojis::Group::Symbols => "Symbols",
            emojis::Group::TravelAndPlaces => "Travel & Places",
        }
    }
}

/// The emojis that `emojis::Emoji::skin_tones` lists for an emoji: the emoji
/// in each of its skin tones, where it has any.
pub uninterp spec fn tones_of(emoji: &emojis::Emoji) -> Option<Seq<EmojiWrapper>>;

/// The emojis that `emojis::Group::emojis` lists for a group.
pub uninterp spec fn members_of(group: emojis::Group) -> Seq<EmojiWrapper>;

/// Calls `emojis::Emoji::skin_tones` and collects what it lists, each item
/// wrapped. The list is there exactly if the emoji has a skin tone: the
/// outside function and `skin_tone` go by the same field.
#[verifier::external_body]
fn listed_tones(emoji: &'static emojis::Emoji) -> (tones: Option<Vec<EmojiWrapper>>)
    ensures
        tones is Some <==> tone_of(emoji) is Some,
        tones_of(emoji) == match tones {
            Some(list) => Some(list@),
            None => None,
        },
{
    emoji.skin_tones().map(|tones| tones.map(EmojiWrapper).collect())
}

/// Calls `emojis::Group::iter`, which lists the nine groups in this order.
#[verifier::external_body]
fn listed_groups() -> (groups: Vec<EmojiGroupWrapper>)
    ensures
        groups@ == all_groups(),
{
    emojis::Group::iter().map(EmojiGroupWrapper).collect()
}

/// Calls `emojis::Group::emojis` and collects what it lists, each item
/// wrapped.
#[verifier::external_body]
fn listed_members(group: emojis::Group) -> (members: Vec<EmojiWrapper>)
    ensures
        members@ == members_of(group),
{
    group.emojis().map(EmojiWrapper).collect()
}

impl EmojiWrapper {
    /// The emoji in each of its skin tones, where it has any.
    pub fn skin_tones(&self) -> (tones: Option<Vec<EmojiWrapper>>)
        ensures
            tones is Some <==> tone_of(self.0) is Some,
            tones_of(self.0) == match tones {
                Some(list) => Some(list@),
                None => None,
            },
    {
        listed_tones(self.0)
    }
}

impl EmojiGroupWrapper {
    /// The groups, in the order in which the picker shows them.
    pub fn all() -> (groups: Vec<EmojiGroupWrapper>)
        ensures
            groups@ == all_groups(),
    {
        listed_groups()
    }

    /// The emojis of the group.
    pub fn members(&self) -> (members: Vec<EmojiWrapper>)
        ensures
            members@ == members_of(self.0),
    {
        listed_members(self.0)
    }
}

/// The character that joins the parts of an emoji into one.
pub const ZERO_WIDTH_JOINER: u32 = 0x200D;

/// The character that asks for the coloured picture of the character before
/// it.
pub const VARIATION_SELECTOR_16: u32 = 0xFE0F;

/// The hexadecimal digit of `d`, in lower case.
pub open spec fn hex_digit(d: int) -> char {
    if d < 10 {
        (0x30 + d) as char
    } else {
        (0x61 + d - 10) as char
    }
}

/// A code point in hexadecimal, in lower case and with at least four digits.
pub open spec fn hex_code(v: int) -> Seq<char> {
    let low = seq![
        hex_digit(v / 0x1000 % 16),
        hex_digit(v / 0x100 % 16),
        hex_digit(v / 0x10 % 16),
        hex_digit(v % 16),
    ];
    if v < 0x1_0000 {
        low
    } else if v < 0x10_0000 {
        seq![hex_digit(v / 0x1_0000 % 16)] + low
    } else {
        seq![hex_digit(v / 0x10_0000 % 16), hex_digit(v / 0x1_0000 % 16)] + low
    }
}

/// Whether `c` goes into the file name of an emoji: every character does,
/// but for the variation selector in an emoji without a joiner.
pub open spec fn named(c: char, joined: bool) -> bool {
    joined || c as u32 != VARIATION_SELECTOR_16
}

/// The codes of the characters of `text` that go into a file name, in
/// hexadecimal and with a hyphen between them.
pub open spec fn hex_codes(text: Seq<char>, joined: bool) -> Seq<char>
    decreases text.len(),
{
    if text.len() == 0 {
        Seq::empty()
    } else {
        let before = hex_codes(text.drop_last(), joined);
        if !named(text.last(), joined) {
            before
        } else if before.len() == 0 {
            hex_code(text.last() as int)
        } else {
            before + seq!['-'] + hex_code(text.last() as int)
        }
    }
}

/// Whether `text` holds a joiner.
pub open spec fn is_joined(text: Seq<char>) -> bool {
    exists|i: int| 0 <= i < text.len() && text[i] as u32 == ZERO_WIDTH_JOINER
}

/// The name, without its ending, of the file that holds the picture of the
/// emoji `text` in the Twemoji collection.
pub open spec fn twemoji_name(text: Seq<char>) -> Seq<char> {
    hex_codes(text, is_joined(text))
}

/// The directory of the pictures, with the slash that ends it.
pub open spec fn picture_directory() -> Seq<char> {
    "./emojis/twemoji/assets/svg/"@
}

/// The ending of the pictures' file names.
pub open spec fn picture_ending() -> Seq<char> {
    ".svg"@
}

fn digit(d: u32) -> (c: char)
    requires
        d < 16,
    ensures
        c == hex_digit(d as int),
{
    if d < 10 {
        (0x30u8 + d as u8) as char
    } else {
        (0x61u8 + (d as u8 - 10)) as char
    }
}

/// Appends the hexadecimal code of `c` to `out`.
fn push_hex_code(out: &mut String, c: char)
    ensures
        final(out)@ == old(out)@ + hex_code(c as int),
{
    let v = c as u32;
    if v >= 0x10_0000 {
        out.push(digit(v / 0x10_0000 % 16));
    }
    if v >= 0x1_0000 {
        out.push(digit(v / 0x1_0000 % 16));
    }
    out.push(digit(v / 0x1000 % 16));
    out.push(digit(v / 0x100 % 16));
    out.push(digit(v / 0x10 % 16));
    out.push(digit(v % 16));
    assert(out@ =~= old(out)@ + hex_code(c as int));
}

/// Appends `text` to `out`.
fn push_text(out: &mut String, text: &str)
    ensures
        final(out)@ == old(out)@ + text@,
{
    let n = text.unicode_len();
    let mut i: usize = 0;
    while i < n
        invariant
            i <= n,
            n == text@.len(),
            out@ == old(out)@ + text@.take(i as int),
        decreases n - i,
    {
        out.push(text.get_char(i));
        assert(out@ =~= old(out)@ + text@.take(i + 1));
        i += 1;
    }
    assert(text@.take(n as int) =~= text@);
}

/// Whether `text` holds a joiner.
fn has_joiner(text: &str) -> (joined: bool)
    ensures
        joined == is_joined(text@),
{
    let n = text.unicode_len();
    let mut i: usize = 0;
    while i < n
        invariant
            i <= n,
            n == text@.len(),
            forall|k: int| 0 <= k < i ==> text@[k] as u32 != ZERO_WIDTH_JOINER,
        decreases n - i,
    {
        if text.get_char(i) as u32 == ZERO_WIDTH_JOINER {
            return true;
        }
        i += 1;
    }
    false
}

/// The name of the file that holds the picture of an emoji.
pub trait TwemojiFilename {
    /// The emoji, as text.
    spec fn text(&self) -> Seq<char>;

    /// The name of the file without its ending: the codes of the emoji's
    /// characters in hexadecimal, with hyphens between them. The variation
    /// selector is left out, except in an emoji that holds a joiner.
    fn get_filename(&self) -> (name: String)
        ensures
            name@ == twemoji_name(self.text()),
    ;

    /// The path of the file.
    fn get_filename_path(&self) -> (path: String)
        ensures
            path@ == picture_directory() + twemoji_name(self.text()) + picture_ending(),
    ;
}

impl TwemojiFilename for EmojiWrapper {
    open spec fn text(&self) -> Seq<char> {
        text_of(self.0)
    }

    fn get_filename(&self) -> (name: String) {
        let text = self.code();
        let joined = has_joiner(text);
        let mut name = String::new();
        let n = text.unicode_len();
        let mut i: usize = 0;
        while i < n
            invariant
                i <= n,
                n == text@.len(),
                joined == is_joined(text@),
                name@ == hex_codes(text@.take(i as int), joined),
            decreases n - i,
        {
            let c = text.get_char(i);
            proof {
                assert(text@.take(i + 1).drop_last() =~= text@.take(i as int));
                assert(text@.take(i + 1).last() == c);
            }
            if joined || c as u32 != VARIATION_SELECTOR_16 {
                if name.as_str().unicode_len() > 0 {
                    name.push('-');
                }
                push_hex_code(&mut name, c);
                assert(name@ =~= hex_codes(text@.take(i + 1), joined));
            }
            i += 1;
        }
        proof {
            assert(text@.take(n as int) =~= text@);
        }
        name
    }

    fn get_filename_path(&self) -> (path: String) {
        let filename = self.get_filename();
        let mut path = String::new();
        push_text(&mut path, "./emojis/twemoji/assets/svg/");
        push_text(&mut path, filename.as_str());
        push_text(&mut path, ".svg");
        assert(path@ =~= picture_directory() + twemoji_name(self.text()) + picture_ending());
        path
    }
}

} // verus!
