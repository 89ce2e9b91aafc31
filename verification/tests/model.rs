use emoji_picker::emoji::{EmojiGroupWrapper, EmojiWrapper};
use emoji_picker::emoji_model::{
    EmojiModel, EmojiSkinToneModel, VecEmojiGroupModel, VecEmojiListModel,
};

fn emoji(text: &str) -> EmojiWrapper {
    EmojiWrapper(emojis::get(text).unwrap())
}

fn names(list: &VecEmojiListModel) -> Vec<String> {
    (0..list.row_count()).map(|row| list.row_data(row).unwrap().name.clone()).collect()
}

fn sample() -> VecEmojiListModel {
    VecEmojiListModel::new(vec![
        emoji("\u{1F680}"),
        emoji("\u{1F1FF}\u{1F1E6}"),
        emoji("\u{1F60E}"),
        emoji("\u{1F1EB}\u{1F1F7}"),
    ])
}

#[test]
fn model_shows_name_code_and_picture() {
    let model = EmojiModel::from(emoji("\u{1F680}"));
    assert_eq!(model.name, "rocket");
    assert_eq!(model.code, "\u{1F680}");
    assert_eq!(model.image, "./emojis/twemoji/assets/svg/1f680.svg");
    assert!(model.skin_tones.is_empty());
}

#[test]
fn model_lists_the_skin_tones_with_their_numbers() {
    let model = EmojiModel::from(emoji("\u{1F44D}"));
    assert_eq!(model.name, "thumbs up");
    let tones: Vec<(String, String, i32)> = model
        .skin_tones
        .iter()
        .map(|tone| (tone.code.clone(), tone.image.clone(), tone.skin_tone))
        .collect();
    let svg = |name: &str| format!("./emojis/twemoji/assets/svg/{name}.svg");
    assert_eq!(
        tones,
        vec![
            ("\u{1F44D}".to_string(), svg("1f44d"), 0),
            ("\u{1F44D}\u{1F3FB}".to_string(), svg("1f44d-1f3fb"), 1),
            ("\u{1F44D}\u{1F3FC}".to_string(), svg("1f44d-1f3fc"), 2),
            ("\u{1F44D}\u{1F3FD}".to_string(), svg("1f44d-1f3fd"), 3),
            ("\u{1F44D}\u{1F3FE}".to_string(), svg("1f44d-1f3fe"), 4),
            ("\u{1F44D}\u{1F3FF}".to_string(), svg("1f44d-1f3ff"), 5),
        ]
    );
}

#[test]
fn skin_tone_model_needs_a_skin_tone() {
    assert!(EmojiSkinToneModel::try_from(emoji("\u{1F680}")).is_err());
    let tone = EmojiSkinToneModel::try_from(emoji("\u{1F44D}\u{1F3FE}")).ok().unwrap();
    assert_eq!(tone.code, "\u{1F44D}\u{1F3FE}");
    assert_eq!(tone.image, "./emojis/twemoji/assets/svg/1f44d-1f3fe.svg");
    assert_eq!(tone.skin_tone, 4);
}

#[test]
fn list_shows_everything_at_first() {
    let list = sample();
    assert_eq!(list.row_count(), 4);
    assert_eq!(
        names(&list),
        vec!["rocket", "flag: South Africa", "smiling face with sunglasses", "flag: France"]
    );
    assert!(list.row_data(4).is_none());
}

#[test]
fn growing_filter_narrows_what_is_shown() {
    let mut list = sample();
    list.filter_down("fla".to_string());
    assert_eq!(names(&list), vec!["flag: South Africa", "flag: France"]);
    list.filter_down("flag: f".to_string());
    assert_eq!(names(&list), Vec::<String>::new());
}

#[test]
fn growing_filter_compares_the_names_as_they_are() {
    let mut list = sample();
    list.filter_down("FLAG: ".to_string());
    assert_eq!(names(&list), vec!["flag: South Africa", "flag: France"]);
    list.filter_down("flag: F".to_string());
    assert_eq!(names(&list), Vec::<String>::new());
}

#[test]
fn growing_filter_never_brings_back_what_is_hidden() {
    let mut list = sample();
    list.filter_down("rocket".to_string());
    assert_eq!(names(&list), vec!["rocket"]);
    list.filter_down("".to_string());
    assert_eq!(names(&list), vec!["rocket"]);
    list.filter_down("s".to_string());
    assert_eq!(names(&list), Vec::<String>::new());
}

#[test]
fn shrinking_filter_goes_through_all_emojis_again() {
    let mut list = sample();
    list.filter_down("rocket".to_string());
    list.filter_up("FLAG: F".to_string());
    assert_eq!(names(&list), vec!["flag: France"]);
    list.filter_up("s".to_string());
    assert_eq!(
        names(&list),
        vec!["flag: South Africa", "smiling face with sunglasses"]
    );
    list.filter_up("".to_string());
    assert_eq!(list.row_count(), 4);
}

#[test]
fn empty_list_stays_empty() {
    let mut list = VecEmojiListModel::new(Vec::new());
    assert_eq!(list.row_count(), 0);
    assert!(list.row_data(0).is_none());
    list.filter_up("a".to_string());
    list.filter_down("ab".to_string());
    assert_eq!(list.row_count(), 0);
}

#[test]
fn groups_are_shown_with_title_picture_and_emojis() {
    let model = VecEmojiGroupModel::new();
    assert_eq!(model.row_count(), 9);
    let smileys = model.row_data(0).unwrap();
    assert_eq!(smileys.title, "Smileys & Emotion");
    assert_eq!(smileys.image, "./emojis/twemoji/assets/svg/1f600.svg");
    assert_eq!(smileys.list.row_data(0).unwrap().name, "grinning face");
    let flags = model.row_data(8).unwrap();
    assert_eq!(flags.title, "Flags");
    assert_eq!(flags.image, "./emojis/twemoji/assets/svg/1f3c1.svg");
    assert_eq!(
        flags.list.row_count(),
        EmojiGroupWrapper(emojis::Group::Flags).members().len()
    );
    assert!(model.row_data(9).is_none());
}

#[test]
fn group_filter_narrows_while_it_grows_and_starts_over_when_it_shrinks() {
    let mut model = VecEmojiGroupModel::new();
    let shown = |model: &VecEmojiGroupModel, group: usize| names(&model.row_data(group).unwrap().list);

    model.filter("rocke".to_string());
    assert_eq!(shown(&model, 4), vec!["rocket"]);
    assert_eq!(shown(&model, 8), Vec::<String>::new());

    model.filter("rocket".to_string());
    assert_eq!(shown(&model, 4), vec!["rocket"]);

    model.filter("flag: fra".to_string());
    assert_eq!(shown(&model, 4), Vec::<String>::new());
    assert_eq!(shown(&model, 8), Vec::<String>::new());

    model.filter("flag: f".to_string());
    assert!(shown(&model, 8).contains(&"flag: France".to_string()));
    assert!(shown(&model, 8).contains(&"flag: Finland".to_string()));
    assert_eq!(shown(&model, 4), Vec::<String>::new());

    model.filter("".to_string());
    assert_eq!(
        model.row_data(8).unwrap().list.row_count(),
        EmojiGroupWrapper(emojis::Group::Flags).members().len()
    );
}

#[test]
fn group_filter_of_the_same_length_starts_over() {
    let mut model = VecEmojiGroupModel::new();
    let shown = |model: &VecEmojiGroupModel, group: usize| names(&model.row_data(group).unwrap().list);
    model.filter("rocket".to_string());
    assert_eq!(shown(&model, 4), vec!["rocket"]);
    model.filter("anchor".to_string());
    assert_eq!(shown(&model, 4), vec!["anchor"]);
}
