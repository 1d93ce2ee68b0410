use sdl_safe::SdlError;
use sdl_safe::ttf::script::Script;

#[test]
fn script_tags_pack_the_four_letters_big_endian() {
    assert_eq!(Script::Latin.into_raw(), 0x4C61746E); // "Latn"
    assert_eq!(Script::Common.into_raw(), 0x5A797979); // "Zyyy"
    assert_eq!(Script::Arabic.into_raw(), 0x41726162); // "Arab"
    assert_eq!(Script::Han.into_raw(), 0x48616E69); // "Hani"
}

#[test]
fn script_tag_round_trip_recovers_the_member() {
    let members = [
        Script::Common,
        Script::Inherited,
        Script::Unknown,
        Script::Latin,
        Script::Cyrillic,
        Script::Greek,
        Script::Hiragana,
        Script::Katakana,
        Script::Hangul,
        Script::Thai,
        Script::Yezidi,
        Script::KhitanSmallScript,
        Script::Adlam,
        Script::Osage,
    ];
    for s in members {
        assert_eq!(Script::from_raw(s.into_raw()), Some(s));
    }
}

#[test]
fn script_tags_are_injective_on_a_sample() {
    let members = [
        Script::Common,
        Script::Inherited,
        Script::Unknown,
        Script::Latin,
        Script::Cyrillic,
        Script::Hiragana,
        Script::Katakana,
    ];
    for (i, a) in members.iter().enumerate() {
        for (j, b) in members.iter().enumerate() {
            assert_eq!(a.into_raw() == b.into_raw(), i == j);
        }
    }
}

#[test]
fn unknown_tag_decodes_to_none() {
    assert_eq!(Script::from_raw(0), None);
    assert_eq!(Script::from_raw(0x12345678), None);
}

#[test]
fn set_surfaces_unsupported_feature_distinctly() {
    assert_eq!(Script::Latin.set(0), Ok(()));
    assert_eq!(Script::Latin.set(-1), Err(SdlError::UnsupportedFeature));
    assert_eq!(Script::Tangut.set(7), Err(SdlError::UnsupportedFeature));
}
