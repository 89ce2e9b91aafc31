use emoji_picker::emoji::{EmojiGroupWrapper, EmojiWrapper, TwemojiFilename};

fn emoji(text: &str) -> EmojiWrapper {
    EmojiWrapper(emojis::get(text).unwrap())
}

#[test]
fn wrapper_gives_name_and_code_of_the_emoji() {
    let cool = emoji("\u{1F60E}");
    assert_eq!(cool.name(), "smiling face with sunglasses");
    assert_eq!(cool.code(), "\u{1F60E}");
    let rocket = emoji("\u{1F680}");
    assert_eq!(rocket.name(), "rocket");
    assert_eq!(rocket.code(), "\u{1F680}");
}

#[test]
fn skin_tone_has_its_number() {
    assert_eq!(emoji("\u{1F60E}").skin_tone(), None);
    assert_eq!(emoji("\u{270C}\u{FE0F}").skin_tone(), Some(0));
    assert_eq!(emoji("\u{270C}\u{1F3FB}").skin_tone(), Some(1));
    assert_eq!(emoji("\u{270C}\u{1F3FD}").skin_tone(), Some(3));
    assert_eq!(emoji("\u{270C}\u{1F3FF}").skin_tone(), Some(5));
}

#[test]
fn skin_tones_are_numbered_in_their_order() {
    assert_eq!(EmojiWrapper::skin_tone_idx(emojis::SkinTone::Default), Some(0));
    assert_eq!(EmojiWrapper::skin_tone_idx(emojis::SkinTone::Dark), Some(5));
    assert_eq!(EmojiWrapper::skin_tone_idx(emojis::SkinTone::LightAndMediumLight), Some(6));
    assert_eq!(EmojiWrapper::skin_tone_idx(emojis::SkinTone::MediumLightAndDark), Some(13));
    assert_eq!(EmojiWrapper::skin_tone_idx(emojis::SkinTone::MediumDarkAndDark), Some(21));
    assert_eq!(EmojiWrapper::skin_tone_idx(emojis::SkinTone::DarkAndMediumDark), Some(25));
}

#[test]
fn number_of_a_skin_tone_is_its_place_among_the_variants() {
    let couple = emoji("\u{1F469}\u{1F3FF}\u{200D}\u{2764}\u{FE0F}\u{200D}\u{1F468}\u{1F3FC}");
    let tones = couple.skin_tones().unwrap();
    assert_eq!(tones.len(), 26);
    for (place, tone) in tones.iter().enumerate() {
        assert_eq!(tone.skin_tone(), Some(place as u16));
    }
}

#[test]
fn emoji_lists_itself_in_every_skin_tone() {
    let luck = emoji("\u{1F91E}\u{1F3FC}");
    let codes: Vec<String> =
        luck.skin_tones().unwrap().iter().map(|tone| tone.code().to_string()).collect();
    assert_eq!(
        codes,
        vec![
            "\u{1F91E}",
            "\u{1F91E}\u{1F3FB}",
            "\u{1F91E}\u{1F3FC}",
            "\u{1F91E}\u{1F3FD}",
            "\u{1F91E}\u{1F3FE}",
            "\u{1F91E}\u{1F3FF}",
        ]
    );
    assert!(emoji("\u{1F60E}").skin_tones().is_none());
}

#[test]
fn groups_have_their_titles() {
    let titles: Vec<&str> = EmojiGroupWrapper::all().iter().map(|group| group.group_name()).collect();
    assert_eq!(
        titles,
        vec![
            "Smileys & Emotion",
            "People & Body",
            "Animals & Nature",
            "Food & Drink",
            "Travel & Places",
            "Activities",
            "Objects",
            "Symbols",
            "Flags",
        ]
    );
}

#[test]
fn group_lists_its_emojis() {
    let flags = EmojiGroupWrapper(emojis::Group::Flags).members();
    let first: Vec<&str> = flags.iter().take(3).map(|flag| flag.code()).collect();
    assert_eq!(first, vec!["\u{1F3C1}", "\u{1F6A9}", "\u{1F38C}"]);
    assert!(flags.iter().all(|flag| flag.0.group() == emojis::Group::Flags));
    let smileys = EmojiGroupWrapper(emojis::Group::SmileysAndEmotion).members();
    assert_eq!(smileys[0].code(), "\u{1F600}");
}

#[test]
fn file_name_is_the_code_in_hexadecimal() {
    assert_eq!(emoji("\u{1F680}").get_filename(), "1f680");
    assert_eq!(emoji("\u{1F600}").get_filename(), "1f600");
    assert_eq!(emoji("\u{a9}\u{FE0F}").get_filename(), "00a9");
    assert_eq!(emoji("#\u{FE0F}\u{20E3}").get_filename(), "0023-20e3");
}

#[test]
fn file_name_leaves_out_the_variation_selector() {
    assert_eq!(emoji("\u{2764}\u{FE0F}").get_filename(), "2764");
    assert_eq!(emoji("\u{270C}\u{FE0F}").get_filename(), "270c");
}

#[test]
fn file_name_of_a_joined_emoji_keeps_the_variation_selector() {
    assert_eq!(
        emoji("\u{1F441}\u{FE0F}\u{200D}\u{1F5E8}\u{FE0F}").get_filename(),
        "1f441-fe0f-200d-1f5e8-fe0f"
    );
    assert_eq!(
        emoji("\u{1F468}\u{200D}\u{1F469}\u{200D}\u{1F467}").get_filename(),
        "1f468-200d-1f469-200d-1f467"
    );
}

#[test]
fn file_name_joins_the_codes_with_hyphens() {
    assert_eq!(emoji("\u{1F44D}\u{1F3FD}").get_filename(), "1f44d-1f3fd");
    assert_eq!(emoji("\u{1F1FF}\u{1F1E6}").get_filename(), "1f1ff-1f1e6");
}

#[test]
fn file_name_agrees_with_formatting_each_code() {
    for group in EmojiGroupWrapper::all() {
        for emoji in group.members().iter().take(40) {
            let chars: Vec<u32> = emoji.code().chars().map(u32::from).collect();
            let kept: Vec<u32> = if chars.contains(&0x200D) {
                chars
            } else {
                chars.into_iter().filter(|c| *c != 0xFE0F).collect()
            };
            let expected: Vec<String> = kept.into_iter().map(|c| format!("{:0>4x}", c)).collect();
            assert_eq!(emoji.get_filename(), expected.join("-"));
        }
    }
}

#[test]
fn path_of_the_picture() {
    assert_eq!(
        emoji("\u{1F680}").get_filename_path(),
        "./emojis/twemoji/assets/svg/1f680.svg"
    );
    assert_eq!(
        emoji("\u{2764}\u{FE0F}").get_filename_path(),
        "./emojis/twemoji/assets/svg/2764.svg"
    );
}
