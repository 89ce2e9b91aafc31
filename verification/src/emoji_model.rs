//! What the picker shows: the emojis, group by group, narrowed by the filter
//! that the user types.

use crate::emoji::all_groups;
use crate::emoji::group_title;
use crate::emoji::members_of;
use crate::emoji::name_of;
use crate::emoji::picture_directory;
use crate::emoji::picture_ending;
use crate::emoji::text_of;
use crate::emoji::tone_index;
use crate::emoji::tone_of;
use crate::emoji::tones_of;
use crate::emoji::twemoji_name;
use crate::emoji::EmojiGroupWrapper;
use crate::emoji::EmojiWrapper;
use crate::emoji::TwemojiFilename;
use vstd::prelude::*;

verus! {

/// The text that `str::to_lowercase` of the standard library gives.
pub uninterp spec fn lowercase_of(text: Seq<char>) -> Seq<char>;

/// Calls `str::to_lowercase` of the standard library, which is a function of
/// the text alone; nothing more is claimed of it.
#[verifier::external_body]
fn to_lowercase(text: &str) -> (lower: String)
    ensures
        lower@ == lowercase_of(text@),
{
    text.to_lowercase()
}

/// Whether `needle` is a stretch of `hay`.
pub open spec fn is_infix(needle: Seq<char>, hay: Seq<char>) -> bool {
    exists|i: int|
        0 <= i <= hay.len() - needle.len() && #[trigger] hay.subrange(i, i + needle.len())
            == needle
}

/// Calls `str::contains` of the standard library, which tells whether the
/// pattern, here a string, matches a stretch of the text.
#[verifier::external_body]
fn contains(hay: &str, needle: &str) -> (found: bool)
    ensures
        found == is_infix(needle@, hay@),
{
    hay.contains(needle)
}

/// One skin tone of an emoji, as the picker shows it.
pub struct EmojiSkinToneModel {
    /// The emoji in this skin tone, as text.
    pub code: String,
    /// The path of its picture.
    pub image: String,
    /// The number of the skin tone.
    pub skin_tone: i32,
}

/// An emoji, as the picker shows it.
pub struct EmojiModel {
    /// The name to search by.
    pub name: String,
    /// The emoji, as text.
    pub code: String,
    /// The path of its picture.
    pub image: String,
    /// The emoji in each of its numbered skin tones.
    pub skin_tones: Vec<EmojiSkinToneModel>,
}

/// The path of the picture of the emoji `text`.
pub open spec fn picture_of(text: Seq<char>) -> Seq<char> {
    picture_directory() + twemoji_name(text) + picture_ending()
}

/// Whether the skin tone of an emoji has a number.
pub open spec fn has_numbered_tone(emoji: EmojiWrapper) -> bool {
    tone_of(emoji.0) matches Some(tone) && tone_index(tone) is Some
}

/// Whether `model` shows the skin tone `emoji`.
pub open spec fn shows_tone(model: EmojiSkinToneModel, emoji: EmojiWrapper) -> bool {
    &&& model.code@ == text_of(emoji.0)
    &&& model.image@ == picture_of(text_of(emoji.0))
    &&& tone_of(emoji.0) matches Some(tone) && tone_index(tone) == Some(model.skin_tone as u16)
    &&& 0 <= model.skin_tone <= u16::MAX
}

/// [`has_numbered_tone`], as a test to pick by.
pub open spec fn numbered() -> spec_fn(EmojiWrapper) -> bool {
    |emoji: EmojiWrapper| has_numbered_tone(emoji)
}

/// The skin tones that are shown of the skin tones that an emoji lists: those
/// with a number, in the order of the list.
pub open spec fn numbered_tones(listed: Option<Seq<EmojiWrapper>>) -> Seq<EmojiWrapper> {
    match listed {
        Some(list) => list.filter(numbered()),
        None => Seq::empty(),
    }
}

/// Whether `model` shows `emoji`: its name, its text, its picture, and its
/// numbered skin tones in the order in which the emoji lists them.
pub open spec fn shows(model: EmojiModel, emoji: EmojiWrapper) -> bool {
    let tones = numbered_tones(tones_of(emoji.0));
    &&& model.name@ == name_of(emoji.0)
    &&& model.code@ == text_of(emoji.0)
    &&& model.image@ == picture_of(text_of(emoji.0))
    &&& model.skin_tones@.len() == tones.len()
    &&& forall|i: int|
        0 <= i < tones.len() ==> shows_tone(#[trigger] model.skin_tones@[i], tones[i])
}

impl EmojiSkinToneModel {
    /// What the picker shows of the skin tone `e`, if its skin tone has a
    /// number.
    pub fn try_from(e: EmojiWrapper) -> (model: Result<EmojiSkinToneModel, ()>)
        ensures
            model is Ok <==> has_numbered_tone(e),
            model matches Ok(shown) ==> shows_tone(shown, e),
    {
        let image = e.get_filename_path();
        match e.skin_tone() {
            Some(skin_tone) => Ok(
                EmojiSkinToneModel {
                    code: e.code().to_owned(),
                    image,
                    skin_tone: skin_tone as i32,
                },
            ),
            None => Err(()),
        }
    }
}

impl EmojiModel {
    /// What the picker shows of the emoji `e`.
    pub fn from(e: EmojiWrapper) -> (model: EmojiModel)
        ensures
            shows(model, e),
    {
        let image = e.get_filename_path();
        let mut skin_tones: Vec<EmojiSkinToneModel> = Vec::new();
        let listed = e.skin_tones();
        match listed {
            Some(list) => {
                let mut i: usize = 0;
                while i < list.len()
                    invariant
                        i <= list.len(),
                        skin_tones@.len() == list@.take(i as int).filter(numbered()).len(),
                        forall|k: int|
                            0 <= k < skin_tones@.len() ==> shows_tone(
                                #[trigger] skin_tones@[k],
                                list@.take(i as int).filter(numbered())[k],
                            ),
                    decreases list.len() - i,
                {
                    proof {
                        reveal(Seq::filter);
                        assert(list@.take(i + 1).drop_last() =~= list@.take(i as int));
                        assert(list@.take(i + 1).last() == list@[i as int]);
                    }
                    match EmojiSkinToneModel::try_from(list[i]) {
                        Ok(tone) => {
                            skin_tones.push(tone);
                        },
                        Err(_) => {},
                    }
                    i += 1;
                }
                proof {
                    assert(list@.take(list@.len() as int) =~= list@);
                }
            },
            None => {},
        }
        EmojiModel { name: e.name().to_owned(), code: e.code().to_owned(), image, skin_tones }
    }
}

/// The rows `0 .. n`.
pub open spec fn all_rows(n: nat) -> Seq<usize> {
    Seq::new(n, |i: int| i as usize)
}

/// Which emojis stay when the filter grows: those whose name holds the
/// filter in lower case.
pub open spec fn stays(entries: Seq<EmojiModel>, filter: Seq<char>) -> spec_fn(usize) -> bool {
    |row: usize| is_infix(lowercase_of(filter), entries[row as int].name@)
}

/// Which emojis come back when the filter shrinks: those whose name, in
/// lower case, holds the filter in lower case.
pub open spec fn comes_back(entries: Seq<EmojiModel>, filter: Seq<char>) -> spec_fn(usize) -> bool {
    |row: usize| is_infix(lowercase_of(filter), lowercase_of(entries[row as int].name@))
}

/// The emojis of one group, and which of them the filter lets through.
pub struct VecEmojiListModel {
    initial: Vec<EmojiModel>,
    vec: Vec<usize>,
    filter: String,
}

impl VecEmojiListModel {
    /// All the emojis of the list, shown or not.
    pub closed spec fn entries(&self) -> Seq<EmojiModel> {
        self.initial@
    }

    /// The places in [`Self::entries`] of the emojis that are shown, in the
    /// order in which they are shown.
    pub closed spec fn rows(&self) -> Seq<usize> {
        self.vec@
    }

    /// The filter that was applied last, in lower case.
    pub closed spec fn filter(&self) -> Seq<char> {
        self.filter@
    }

    /// Every row is an emoji of the list.
    pub open spec fn wf(&self) -> bool {
        forall|k: int| 0 <= k < self.rows().len() ==> (#[trigger] self.rows()[k]) < self.entries().len()
    }

    /// The list of `listed`, all of them shown, with an empty filter.
    pub fn new(listed: Vec<EmojiWrapper>) -> (model: Self)
        ensures
            model.wf(),
            model.entries().len() == listed@.len(),
            forall|i: int|
                0 <= i < listed@.len() ==> shows(#[trigger] model.entries()[i], listed@[i]),
            model.rows() == all_rows(listed@.len()),
            model.filter() == Seq::<char>::empty(),
    {
        let mut initial: Vec<EmojiModel> = Vec::new();
        let mut vec: Vec<usize> = Vec::new();
        let mut i: usize = 0;
        while i < listed.len()
            invariant
                i <= listed.len(),
                initial@.len() == i,
                forall|k: int| 0 <= k < i ==> shows(#[trigger] initial@[k], listed@[k]),
                vec@ == all_rows(i as nat),
            decreases listed.len() - i,
        {
            initial.push(EmojiModel::from(listed[i]));
            vec.push(i);
            assert(vec@ =~= all_rows((i + 1) as nat));
            i += 1;
        }
        VecEmojiListModel { initial, vec, filter: String::new() }
    }

    /// Narrows what is shown to the emojis whose name holds `filter` in
    /// lower case. This is for a filter that grew: what is hidden stays hidden.
    pub fn filter_down(&mut self, filter: String)
        requires
            old(self).wf(),
        ensures
            final(self).wf(),
            final(self).entries() == old(self).entries(),
            final(self).rows() == old(self).rows().filter(stays(old(self).entries(), filter@)),
            final(self).filter() == lowercase_of(filter@),
    {
        let lowered = to_lowercase(filter.as_str());
        let mut kept: Vec<usize> = Vec::new();
        let ghost keep = stays(self.initial@, filter@);
        let mut k: usize = 0;
        while k < self.vec.len()
            invariant
                k <= self.vec@.len(),
                *self == *old(self),
                self.wf(),
                lowered@ == lowercase_of(filter@),
                keep == stays(self.initial@, filter@),
                kept@ == self.vec@.take(k as int).filter(keep),
                forall|j: int| 0 <= j < kept@.len() ==> (#[trigger] kept@[j]) < self.initial@.len(),
            decreases self.vec@.len() - k,
        {
            let row = self.vec[k];
            proof {
                reveal(Seq::filter);
                assert(self.vec@.take(k + 1).drop_last() =~= self.vec@.take(k as int));
                assert(self.vec@.take(k + 1).last() == row);
                assert(self.rows()[k as int] == row);
            }
            if contains(self.initial[row].name.as_str(), lowered.as_str()) {
                kept.push(row);
            }
            k += 1;
        }
        proof {
            assert(self.vec@.take(self.vec@.len() as int) =~= self.vec@);
        }
        self.vec = kept;
        self.filter = lowered;
    }

    /// Shows, of all the emojis of the list, those whose name in lower case
    /// holds `filter` in lower case. This is for a filter that shrank or
    /// changed: what was hidden can come back.
    pub fn filter_up(&mut self, filter: String)
        ensures
            final(self).wf(),
            final(self).entries() == old(self).entries(),
            final(self).rows() == all_rows(old(self).entries().len()).filter(
                comes_back(old(self).entries(), filter@),
            ),
            final(self).filter() == lowercase_of(filter@),
    {
        let lowered = to_lowercase(filter.as_str());
        let mut kept: Vec<usize> = Vec::new();
        let ghost keep = comes_back(self.initial@, filter@);
        let ghost all = all_rows(self.initial@.len());
        let mut row: usize = 0;
        while row < self.initial.len()
            invariant
                row <= self.initial@.len(),
                *self == *old(self),
                lowered@ == lowercase_of(filter@),
                all == all_rows(self.initial@.len()),
                keep == comes_back(self.initial@, filter@),
                kept@ == all.take(row as int).filter(keep),
                forall|j: int| 0 <= j < kept@.len() ==> (#[trigger] kept@[j]) < self.initial@.len(),
            decreases self.initial@.len() - row,
        {
            proof {
                reveal(Seq::filter);
                assert(all.take(row + 1).drop_last() =~= all.take(row as int));
                assert(all.take(row + 1).last() == row);
            }
            let name = to_lowercase(self.initial[row].name.as_str());
            if contains(name.as_str(), lowered.as_str()) {
                kept.push(row);
            }
            row += 1;
        }
        proof {
            assert(all.take(self.initial@.len() as int) =~= all);
        }
        self.vec = kept;
        self.filter = lowered;
    }

    /// The number of emojis that are shown.
    pub fn row_count(&self) -> (count: usize)
        ensures
            count == self.rows().len(),
    {
        self.vec.len()
    }

    /// The emoji that is shown in the row `row`, if there is such a row.
    pub fn row_data(&self, row: usize) -> (data: Option<&EmojiModel>)
        requires
            self.wf(),
        ensures
            row < self.rows().len() ==> data == Some(&self.entries()[self.rows()[row as int] as int]),
            row >= self.rows().len() ==> data is None,
    {
        if row < self.vec.len() {
            assert(self.rows()[row as int] < self.entries().len());
            Some(&self.initial[self.vec[row]])
        } else {
            None
        }
    }
}

/// A group of emojis, as the picker shows it.
pub struct EmojiGroupModel {
    /// The title of the group.
    pub title: String,
    /// The path of the picture that stands for the group: that of its first
    /// emoji, and none in a group without emojis.
    pub image: String,
    /// The emojis of the group.
    pub list: VecEmojiListModel,
}

/// The length of a text in bytes, as `str::len` gives it.
pub open spec fn byte_length(text: Seq<char>) -> usize {
    vstd::utf8::encode_utf8(text).len() as usize
}

/// Whether the filter `next` counts as grown against the filter `current`:
/// in lower case it is longer, in bytes.
pub open spec fn grows(current: Seq<char>, next: Seq<char>) -> bool {
    byte_length(lowercase_of(next)) > byte_length(current)
}

/// What a list shows after the filter changed from `current` to `next`. A
/// filter that grew only narrows what was shown; any other goes through all
/// the emojis of the list again.
pub open spec fn filtered(list: VecEmojiListModel, current: Seq<char>, next: Seq<char>) -> Seq<
    usize,
> {
    if grows(current, next) {
        list.rows().filter(stays(list.entries(), next))
    } else {
        all_rows(list.entries().len()).filter(comes_back(list.entries(), next))
    }
}

/// The groups of emojis, and the filter that the user typed.
pub struct VecEmojiGroupModel {
    vec: Vec<EmojiGroupModel>,
    filter: String,
}

impl VecEmojiGroupModel {
    /// The groups, in the order in which they are shown.
    pub closed spec fn groups(&self) -> Seq<EmojiGroupModel> {
        self.vec@
    }

    /// The filter as the user typed it.
    pub closed spec fn filter_text(&self) -> Seq<char> {
        self.filter@
    }

    /// Every list shows emojis of its own.
    pub open spec fn wf(&self) -> bool {
        forall|i: int| 0 <= i < self.groups().len() ==> (#[trigger] self.groups()[i]).list.wf()
    }

    /// Whether `group` shows the group `of` with all its emojis: its title,
    /// the picture of its first emoji, and every emoji in the order in which
    /// the group lists them.
    pub open spec fn shows_group(group: EmojiGroupModel, of: EmojiGroupWrapper) -> bool {
        let members = members_of(of.0);
        &&& group.title@ == group_title(of.0)
        &&& group.image@ == (if members.len() > 0 {
            picture_of(text_of(members[0].0))
        } else {
            Seq::empty()
        })
        &&& group.list.wf()
        &&& group.list.entries().len() == members.len()
        &&& forall|k: int|
            0 <= k < members.len() ==> shows(#[trigger] group.list.entries()[k], members[k])
        &&& group.list.rows() == all_rows(members.len())
    }

    /// All the groups with all their emojis, and an empty filter.
    pub fn new() -> (model: Self)
        ensures
            model.wf(),
            model.filter_text() == Seq::<char>::empty(),
            model.groups().len() == all_groups().len(),
            forall|i: int|
                0 <= i < model.groups().len() ==> Self::shows_group(
                    #[trigger] model.groups()[i],
                    all_groups()[i],
                ),
    {
        let groups = EmojiGroupWrapper::all();
        let mut vec: Vec<EmojiGroupModel> = Vec::new();
        let mut i: usize = 0;
        while i < groups.len()
            invariant
                i <= groups.len(),
                groups@ == all_groups(),
                vec@.len() == i,
                forall|k: int| 0 <= k < i ==> Self::shows_group(#[trigger] vec@[k], groups@[k]),
            decreases groups.len() - i,
        {
            let group = groups[i];
            let list = VecEmojiListModel::new(group.members());
            let image = match list.row_data(0) {
                Some(first) => first.image.clone(),
                None => String::new(),
            };
            vec.push(EmojiGroupModel { title: group.group_name().to_owned(), image, list });
            i += 1;
        }
        VecEmojiGroupModel { vec, filter: String::new() }
    }

    /// Applies the filter `filter` to every group: see [`filtered`]. The
    /// filter is kept as it was typed.
    pub fn filter(&mut self, filter: String)
        requires
            old(self).wf(),
        ensures
            final(self).wf(),
            final(self).filter_text() == filter@,
            final(self).groups().len() == old(self).groups().len(),
            forall|i: int|
                0 <= i < old(self).groups().len() ==> {
                    let before = old(self).groups()[i];
                    let after = #[trigger] final(self).groups()[i];
                    &&& after.title == before.title
                    &&& after.image == before.image
                    &&& after.list.entries() == before.list.entries()
                    &&& after.list.rows() == filtered(before.list, old(self).filter_text(), filter@)
                },
    {
        let is_filter_down = to_lowercase(filter.as_str()).as_str().len()
            > self.filter.as_str().len();
        let n = self.vec.len();
        let mut i: usize = 0;
        while i < n
            invariant
                i <= n,
                n == self.vec@.len(),
                n == old(self).vec@.len(),
                self.filter == old(self).filter,
                is_filter_down == grows(old(self).filter@, filter@),
                forall|k: int| 0 <= k < n ==> (#[trigger] self.vec@[k]).list.wf(),
                forall|k: int| i <= k < n ==> self.vec@[k] == old(self).vec@[k],
                forall|k: int|
                    0 <= k < i ==> {
                        let before = old(self).vec@[k];
                        let after = #[trigger] self.vec@[k];
                        &&& after.title == before.title
                        &&& after.image == before.image
                        &&& after.list.entries() == before.list.entries()
                        &&& after.list.rows() == filtered(before.list, old(self).filter@, filter@)
                    },
            decreases n - i,
        {
            if is_filter_down {
                self.vec[i].list.filter_down(filter.clone());
            } else {
                self.vec[i].list.filter_up(filter.clone());
            }
            i += 1;
        }
        self.filter = filter;
    }

    /// The number of groups.
    pub fn row_count(&self) -> (count: usize)
        ensures
            count == self.groups().len(),
    {
        self.vec.len()
    }

    /// The group in the row `row`, if there is such a row.
    pub fn row_data(&self, row: usize) -> (data: Option<&EmojiGroupModel>)
        ensures
            row < self.groups().len() ==> data == Some(&self.groups()[row as int]),
            row >= self.groups().len() ==> data is None,
    {
        if row < self.vec.len() {
            Some(&self.vec[row])
        } else {
            None
        }
    }
}

} // verus!
