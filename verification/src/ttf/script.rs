//! Language-script identifiers and their fixed native tag codes.
//!
//! Each script maps one-to-one to a four-byte tag code known at compile
//! time (the four ASCII letters of its identifier, packed big-endian).
//! The mapping is closed and lossless in both directions.

use vstd::prelude::*;

use crate::SdlError;
use crate::SdlResult;

verus! {

/// A writing script that text shaping can be directed to use.
#[derive(Debug, Clone, Copy, PartialEq, Eq, Structural)]
pub enum Script {
    Common,
    Inherited,
    Unknown,
    Arabic,
    Armenian,
    Bengali,
    Cyrillic,
    Devanagari,
    Georgian,
    Greek,
    Gujarati,
    Gurmukhi,
    Hangul,
    Han,
    Hebrew,
    Hiragana,
    Kannada,
    Katakana,
    Lao,
    Latin,
    Malayalam,
    Oriya,
    Tamil,
    Telugu,
    Thai,
    Tibetan,
    Bopomofo,
    Braille,
    CanadianSyllabics,
    Cherokee,
    Ethiopic,
    Khmer,
    Mongolian,
    Myanmar,
    Ogham,
    Runic,
    Sinhala,
    Syriac,
    Thaana,
    Yi,
    Deseret,
    Gothic,
    OldItalic,
    Buhid,
    Hanunoo,
    Tagalog,
    Tagbanwa,
    Cypriot,
    Limbu,
    LinearB,
    Osmanya,
    Shavian,
    TaiLe,
    Ugaritic,
    Buginese,
    Coptic,
    Glagolitic,
    Kharoshthi,
    NewTaiLue,
    OldPersian,
    SylotiNagri,
    Tifinagh,
    Balinese,
    Cuneiform,
    Nko,
    PhagsPa,
    Phoenician,
    Carian,
    Cham,
    KayahLi,
    Lepcha,
    Lycian,
    Lydian,
    OlChiki,
    Rejang,
    Saurashtra,
    Sundanese,
    Vai,
    Avestan,
    Bamum,
    EgyptianHieroglyphs,
    ImperialAramaic,
    InscriptionalPahlavi,
    InscriptionalParthian,
    Javanese,
    Kaithi,
    Lisu,
    MeeteiMayek,
    OldSouthArabian,
    OldTurkic,
    Samaritan,
    TaiTham,
    TaiViet,
    Batak,
    Brahmi,
    Mandaic,
    Chakma,
    MeroiticCursive,
    MeroiticHieroglyphs,
    Miao,
    Sharada,
    SoraSompeng,
    Takri,
    BassaVah,
    CaucasianAlbanian,
    Duployan,
    Elbasan,
    Grantha,
    Khojki,
    Khudawadi,
    LinearA,
    Mahajani,
    Manichaean,
    MendeKikakui,
    Modi,
    Mro,
    Nabataean,
    OldNorthArabian,
    OldPermic,
    PahawhHmong,
    Palmyrene,
    PauCinHau,
    PsalterPahlavi,
    Siddham,
    Tirhuta,
    WarangCiti,
    Ahom,
    AnatolianHieroglyphs,
    Hatran,
    Multani,
    OldHungarian,
    Signwriting,
    Adlam,
    Bhaiksuki,
    Marchen,
    Osage,
    Tangut,
    Newa,
    MasaramGondi,
    Nushu,
    Soyombo,
    ZanabazarSquare,
    Dogra,
    GunjalaGondi,
    HanifiRohingya,
    Makasar,
    Medefaidrin,
    OldSogdian,
    Sogdian,
    Elymaic,
    Nandinagari,
    NyiakengPuachueHmong,
    Wancho,
    Chorasmian,
    DivesAkuru,
    KhitanSmallScript,
    Yezidi,
}

impl Script {
    /// The fixed four-byte tag code of this script, packed big-endian.
    pub open spec fn spec_tag(self) -> u32 {
        match self {
            Script::Common => 0x5A797979,
            Script::Inherited => 0x5A696E68,
            Script::Unknown => 0x5A7A7A7A,
            Script::Arabic => 0x41726162,
            Script::Armenian => 0x41726D6E,
            Script::Bengali => 0x42656E67,
            Script::Cyrillic => 0x4379726C,
            Script::Devanagari => 0x44657661,
            Script::Georgian => 0x47656F72,
            Script::Greek => 0x4772656B,
            Script::Gujarati => 0x47756A72,
            Script::Gurmukhi => 0x47757275,
            Script::Hangul => 0x48616E67,
            Script::Han => 0x48616E69,
            Script::Hebrew => 0x48656272,
            Script::Hiragana => 0x48697261,
            Script::Kannada => 0x4B6E6461,
            Script::Katakana => 0x4B616E61,
            Script::Lao => 0x4C616F6F,
            Script::Latin => 0x4C61746E,
            Script::Malayalam => 0x4D6C796D,
            Script::Oriya => 0x4F727961,
            Script::Tamil => 0x54616D6C,
            Script::Telugu => 0x54656C75,
            Script::Thai => 0x54686169,
            Script::Tibetan => 0x54696274,
            Script::Bopomofo => 0x426F706F,
            Script::Braille => 0x42726169,
            Script::CanadianSyllabics => 0x43616E73,
            Script::Cherokee => 0x43686572,
            Script::Ethiopic => 0x45746869,
            Script::Khmer => 0x4B686D72,
            Script::Mongolian => 0x4D6F6E67,
            Script::Myanmar => 0x4D796D72,
            Script::Ogham => 0x4F67616D,
            Script::Runic => 0x52756E72,
            Script::Sinhala => 0x53696E68,
            Script::Syriac => 0x53797263,
            Script::Thaana => 0x54686161,
            Script::Yi => 0x59696969,
            Script::Deseret => 0x44737274,
            Script::Gothic => 0x476F7468,
            Script::OldItalic => 0x4974616C,
            Script::Buhid => 0x42756864,
            Script::Hanunoo => 0x48616E6F,
            Script::Tagalog => 0x54676C67,
            Script::Tagbanwa => 0x54616762,
            Script::Cypriot => 0x43707274,
            Script::Limbu => 0x4C696D62,
            Script::LinearB => 0x4C696E62,
            Script::Osmanya => 0x4F736D61,
            Script::Shavian => 0x53686177,
            Script::TaiLe => 0x54616C65,
            Script::Ugaritic => 0x55676172,
            Script::Buginese => 0x42756769,
            Script::Coptic => 0x436F7074,
            Script::Glagolitic => 0x476C6167,
            Script::Kharoshthi => 0x4B686172,
            Script::NewTaiLue => 0x54616C75,
            Script::OldPersian => 0x5870656F,
            Script::SylotiNagri => 0x53796C6F,
            Script::Tifinagh => 0x54666E67,
            Script::Balinese => 0x42616C69,
            Script::Cuneiform => 0x58737578,
            Script::Nko => 0x4E6B6F6F,
            Script::PhagsPa => 0x50686167,
            Script::Phoenician => 0x50686E78,
            Script::Carian => 0x43617269,
            Script::Cham => 0x4368616D,
            Script::KayahLi => 0x4B616C69,
            Script::Lepcha => 0x4C657063,
            Script::Lycian => 0x4C796369,
            Script::Lydian => 0x4C796469,
            Script::OlChiki => 0x4F6C636B,
            Script::Rejang => 0x526A6E67,
            Script::Saurashtra => 0x53617572,
            Script::Sundanese => 0x53756E64,
            Script::Vai => 0x56616969,
            Script::Avestan => 0x41767374,
            Script::Bamum => 0x42616D75,
            Script::EgyptianHieroglyphs => 0x45677970,
            Script::ImperialAramaic => 0x41726D69,
            Script::InscriptionalPahlavi => 0x50686C69,
            Script::InscriptionalParthian => 0x50727469,
            Script::Javanese => 0x4A617661,
            Script::Kaithi => 0x4B746869,
            Script::Lisu => 0x4C697375,
            Script::MeeteiMayek => 0x4D746569,
            Script::OldSouthArabian => 0x53617262,
            Script::OldTurkic => 0x4F726B68,
            Script::Samaritan => 0x53616D72,
            Script::TaiTham => 0x4C616E61,
            Script::TaiViet => 0x54617679,
            Script::Batak => 0x4261746B,
            Script::Brahmi => 0x42726168,
            Script::Mandaic => 0x4D616E64,
            Script::Chakma => 0x43616B6D,
            Script::MeroiticCursive => 0x4D657263,
            Script::MeroiticHieroglyphs => 0x4D65726F,
            Script::Miao => 0x506C7264,
            Script::Sharada => 0x53687264,
            Script::SoraSompeng => 0x536F7261,
            Script::Takri => 0x54616B72,
            Script::BassaVah => 0x42617373,
            Script::CaucasianAlbanian => 0x41676862,
            Script::Duployan => 0x4475706C,
            Script::Elbasan => 0x456C6261,
            Script::Grantha => 0x4772616E,
            Script::Khojki => 0x4B686F6A,
            Script::Khudawadi => 0x53696E64,
            Script::LinearA => 0x4C696E61,
            Script::Mahajani => 0x4D61686A,
            Script::Manichaean => 0x4D616E69,
            Script::MendeKikakui => 0x4D656E64,
            Script::Modi => 0x4D6F6469,
            Script::Mro => 0x4D726F6F,
            Script::Nabataean => 0x4E626174,
            Script::OldNorthArabian => 0x4E617262,
            Script::OldPermic => 0x5065726D,
            Script::PahawhHmong => 0x486D6E67,
            Script::Palmyrene => 0x50616C6D,
            Script::PauCinHau => 0x50617563,
            Script::PsalterPahlavi => 0x50686C70,
            Script::Siddham => 0x53696464,
            Script::Tirhuta => 0x54697268,
            Script::WarangCiti => 0x57617261,
            Script::Ahom => 0x41686F6D,
            Script::AnatolianHieroglyphs => 0x486C7577,
            Script::Hatran => 0x48617472,
            Script::Multani => 0x4D756C74,
            Script::OldHungarian => 0x48756E67,
            Script::Signwriting => 0x53676E77,
            Script::Adlam => 0x41646C6D,
            Script::Bhaiksuki => 0x42686B73,
            Script::Marchen => 0x4D617263,
            Script::Osage => 0x4F736765,
            Script::Tangut => 0x54616E67,
            Script::Newa => 0x4E657761,
            Script::MasaramGondi => 0x476F6E6D,
            Script::Nushu => 0x4E736875,
            Script::Soyombo => 0x536F796F,
            Script::ZanabazarSquare => 0x5A616E62,
            Script::Dogra => 0x446F6772,
            Script::GunjalaGondi => 0x476F6E67,
            Script::HanifiRohingya => 0x526F6867,
            Script::Makasar => 0x4D616B61,
            Script::Medefaidrin => 0x4D656466,
            Script::OldSogdian => 0x536F676F,
            Script::Sogdian => 0x536F6764,
            Script::Elymaic => 0x456C796D,
            Script::Nandinagari => 0x4E616E64,
            Script::NyiakengPuachueHmong => 0x486D6E70,
            Script::Wancho => 0x5763686F,
            Script::Chorasmian => 0x43687273,
            Script::DivesAkuru => 0x4469616B,
            Script::KhitanSmallScript => 0x4B697473,
            Script::Yezidi => 0x59657A69,
        }
    }

    /// Encodes this script as the tag code the native layer expects.
    pub fn into_raw(self) -> (raw: u32)
        ensures
            raw == self.spec_tag(),
    {
        match self {
            Script::Common => 0x5A797979,
            Script::Inherited => 0x5A696E68,
            Script::Unknown => 0x5A7A7A7A,
            Script::Arabic => 0x41726162,
            Script::Armenian => 0x41726D6E,
            Script::Bengali => 0x42656E67,
            Script::Cyrillic => 0x4379726C,
            Script::Devanagari => 0x44657661,
            Script::Georgian => 0x47656F72,
            Script::Greek => 0x4772656B,
            Script::Gujarati => 0x47756A72,
            Script::Gurmukhi => 0x47757275,
            Script::Hangul => 0x48616E67,
            Script::Han => 0x48616E69,
            Script::Hebrew => 0x48656272,
            Script::Hiragana => 0x48697261,
            Script::Kannada => 0x4B6E6461,
            Script::Katakana => 0x4B616E61,
            Script::Lao => 0x4C616F6F,
            Script::Latin => 0x4C61746E,
            Script::Malayalam => 0x4D6C796D,
            Script::Oriya => 0x4F727961,
            Script::Tamil => 0x54616D6C,
            Script::Telugu => 0x54656C75,
            Script::Thai => 0x54686169,
            Script::Tibetan => 0x54696274,
            Script::Bopomofo => 0x426F706F,
            Script::Braille => 0x42726169,
            Script::CanadianSyllabics => 0x43616E73,
            Script::Cherokee => 0x43686572,
            Script::Ethiopic => 0x45746869,
            Script::Khmer => 0x4B686D72,
            Script::Mongolian => 0x4D6F6E67,
            Script::Myanmar => 0x4D796D72,
            Script::Ogham => 0x4F67616D,
            Script::Runic => 0x52756E72,
            Script::Sinhala => 0x53696E68,
            Script::Syriac => 0x53797263,
            Script::Thaana => 0x54686161,
            Script::Yi => 0x59696969,
            Script::Deseret => 0x44737274,
            Script::Gothic => 0x476F7468,
            Script::OldItalic => 0x4974616C,
            Script::Buhid => 0x42756864,
            Script::Hanunoo => 0x48616E6F,
            Script::Tagalog => 0x54676C67,
            Script::Tagbanwa => 0x54616762,
            Script::Cypriot => 0x43707274,
            Script::Limbu => 0x4C696D62,
            Script::LinearB => 0x4C696E62,
            Script::Osmanya => 0x4F736D61,
            Script::Shavian => 0x53686177,
            Script::TaiLe => 0x54616C65,
            Script::Ugaritic => 0x55676172,
            Script::Buginese => 0x42756769,
            Script::Coptic => 0x436F7074,
            Script::Glagolitic => 0x476C6167,
            Script::Kharoshthi => 0x4B686172,
            Script::NewTaiLue => 0x54616C75,
            Script::OldPersian => 0x5870656F,
            Script::SylotiNagri => 0x53796C6F,
            Script::Tifinagh => 0x54666E67,
            Script::Balinese => 0x42616C69,
            Script::Cuneiform => 0x58737578,
            Script::Nko => 0x4E6B6F6F,
            Script::PhagsPa => 0x50686167,
            Script::Phoenician => 0x50686E78,
            Script::Carian => 0x43617269,
            Script::Cham => 0x4368616D,
            Script::KayahLi => 0x4B616C69,
            Script::Lepcha => 0x4C657063,
            Script::Lycian => 0x4C796369,
            Script::Lydian => 0x4C796469,
            Script::OlChiki => 0x4F6C636B,
            Script::Rejang => 0x526A6E67,
            Script::Saurashtra => 0x53617572,
            Script::Sundanese => 0x53756E64,
            Script::Vai => 0x56616969,
            Script::Avestan => 0x41767374,
            Script::Bamum => 0x42616D75,
            Script::EgyptianHieroglyphs => 0x45677970,
            Script::ImperialAramaic => 0x41726D69,
            Script::InscriptionalPahlavi => 0x50686C69,
            Script::InscriptionalParthian => 0x50727469,
            Script::Javanese => 0x4A617661,
            Script::Kaithi => 0x4B746869,
            Script::Lisu => 0x4C697375,
            Script::MeeteiMayek => 0x4D746569,
            Script::OldSouthArabian => 0x53617262,
            Script::OldTurkic => 0x4F726B68,
            Script::Samaritan => 0x53616D72,
            Script::TaiTham => 0x4C616E61,
            Script::TaiViet => 0x54617679,
            Script::Batak => 0x4261746B,
            Script::Brahmi => 0x42726168,
            Script::Mandaic => 0x4D616E64,
            Script::Chakma => 0x43616B6D,
            Script::MeroiticCursive => 0x4D657263,
            Script::MeroiticHieroglyphs => 0x4D65726F,
            Script::Miao => 0x506C7264,
            Script::Sharada => 0x53687264,
            Script::SoraSompeng => 0x536F7261,
            Script::Takri => 0x54616B72,
            Script::BassaVah => 0x42617373,
            Script::CaucasianAlbanian => 0x41676862,
            Script::Duployan => 0x4475706C,
            Script::Elbasan => 0x456C6261,
            Script::Grantha => 0x4772616E,
            Script::Khojki => 0x4B686F6A,
            Script::Khudawadi => 0x53696E64,
            Script::LinearA => 0x4C696E61,
            Script::Mahajani => 0x4D61686A,
            Script::Manichaean => 0x4D616E69,
            Script::MendeKikakui => 0x4D656E64,
            Script::Modi => 0x4D6F6469,
            Script::Mro => 0x4D726F6F,
            Script::Nabataean => 0x4E626174,
            Script::OldNorthArabian => 0x4E617262,
            Script::OldPermic => 0x5065726D,
            Script::PahawhHmong => 0x486D6E67,
            Script::Palmyrene => 0x50616C6D,
            Script::PauCinHau => 0x50617563,
            Script::PsalterPahlavi => 0x50686C70,
            Script::Siddham => 0x53696464,
            Script::Tirhuta => 0x54697268,
            Script::WarangCiti => 0x57617261,
            Script::Ahom => 0x41686F6D,
            Script::AnatolianHieroglyphs => 0x486C7577,
            Script::Hatran => 0x48617472,
            Script::Multani => 0x4D756C74,
            Script::OldHungarian => 0x48756E67,
            Script::Signwriting => 0x53676E77,
            Script::Adlam => 0x41646C6D,
            Script::Bhaiksuki => 0x42686B73,
            Script::Marchen => 0x4D617263,
            Script::Osage => 0x4F736765,
            Script::Tangut => 0x54616E67,
            Script::Newa => 0x4E657761,
            Script::MasaramGondi => 0x476F6E6D,
            Script::Nushu => 0x4E736875,
            Script::Soyombo => 0x536F796F,
            Script::ZanabazarSquare => 0x5A616E62,
            Script::Dogra => 0x446F6772,
            Script::GunjalaGondi => 0x476F6E67,
            Script::HanifiRohingya => 0x526F6867,
            Script::Makasar => 0x4D616B61,
            Script::Medefaidrin => 0x4D656466,
            Script::OldSogdian => 0x536F676F,
            Script::Sogdian => 0x536F6764,
            Script::Elymaic => 0x456C796D,
            Script::Nandinagari => 0x4E616E64,
            Script::NyiakengPuachueHmong => 0x486D6E70,
            Script::Wancho => 0x5763686F,
            Script::Chorasmian => 0x43687273,
            Script::DivesAkuru => 0x4469616B,
            Script::KhitanSmallScript => 0x4B697473,
            Script::Yezidi => 0x59657A69,
        }
    }

    /// The script a tag code stands for, or `None` for a code outside
    /// the closed set.
    pub open spec fn spec_from_raw(raw: u32) -> Option<Script> {
        if raw == 0x5A797979 {
            Some(Script::Common)
        } else if raw == 0x5A696E68 {
            Some(Script::Inherited)
        } else if raw == 0x5A7A7A7A {
            Some(Script::Unknown)
        } else if raw == 0x41726162 {
            Some(Script::Arabic)
        } else if raw == 0x41726D6E {
            Some(Script::Armenian)
        } else if raw == 0x42656E67 {
            Some(Script::Bengali)
        } else if raw == 0x4379726C {
            Some(Script::Cyrillic)
        } else if raw == 0x44657661 {
            Some(Script::Devanagari)
        } else if raw == 0x47656F72 {
            Some(Script::Georgian)
        } else if raw == 0x4772656B {
            Some(Script::Greek)
        } else if raw == 0x47756A72 {
            Some(Script::Gujarati)
        } else if raw == 0x47757275 {
            Some(Script::Gurmukhi)
        } else if raw == 0x48616E67 {
            Some(Script::Hangul)
        } else if raw == 0x48616E69 {
            Some(Script::Han)
        } else if raw == 0x48656272 {
            Some(Script::Hebrew)
        } else if raw == 0x48697261 {
            Some(Script::Hiragana)
        } else if raw == 0x4B6E6461 {
            Some(Script::Kannada)
        } else if raw == 0x4B616E61 {
            Some(Script::Katakana)
        } else if raw == 0x4C616F6F {
            Some(Script::Lao)
        } else if raw == 0x4C61746E {
            Some(Script::Latin)
        } else if raw == 0x4D6C796D {
            Some(Script::Malayalam)
        } else if raw == 0x4F727961 {
            Some(Script::Oriya)
        } else if raw == 0x54616D6C {
            Some(Script::Tamil)
        } else if raw == 0x54656C75 {
            Some(Script::Telugu)
        } else if raw == 0x54686169 {
            Some(Script::Thai)
        } else if raw == 0x54696274 {
            Some(Script::Tibetan)
        } else if raw == 0x426F706F {
            Some(Script::Bopomofo)
        } else if raw == 0x42726169 {
            Some(Script::Braille)
        } else if raw == 0x43616E73 {
            Some(Script::CanadianSyllabics)
        } else if raw == 0x43686572 {
            Some(Script::Cherokee)
        } else if raw == 0x45746869 {
            Some(Script::Ethiopic)
        } else if raw == 0x4B686D72 {
            Some(Script::Khmer)
        } else if raw == 0x4D6F6E67 {
            Some(Script::Mongolian)
        } else if raw == 0x4D796D72 {
            Some(Script::Myanmar)
        } else if raw == 0x4F67616D {
            Some(Script::Ogham)
        } else if raw == 0x52756E72 {
            Some(Script::Runic)
        } else if raw == 0x53696E68 {
            Some(Script::Sinhala)
        } else if raw == 0x53797263 {
            Some(Script::Syriac)
        } else if raw == 0x54686161 {
            Some(Script::Thaana)
        } else if raw == 0x59696969 {
            Some(Script::Yi)
        } else if raw == 0x44737274 {
            Some(Script::Deseret)
        } else if raw == 0x476F7468 {
            Some(Script::Gothic)
        } else if raw == 0x4974616C {
            Some(Script::OldItalic)
        } else if raw == 0x42756864 {
            Some(Script::Buhid)
        } else if raw == 0x48616E6F {
            Some(Script::Hanunoo)
        } else if raw == 0x54676C67 {
            Some(Script::Tagalog)
        } else if raw == 0x54616762 {
            Some(Script::Tagbanwa)
        } else if raw == 0x43707274 {
            Some(Script::Cypriot)
        } else if raw == 0x4C696D62 {
            Some(Script::Limbu)
        } else if raw == 0x4C696E62 {
            Some(Script::LinearB)
        } else if raw == 0x4F736D61 {
            Some(Script::Osmanya)
        } else if raw == 0x53686177 {
            Some(Script::Shavian)
        } else if raw == 0x54616C65 {
            Some(Script::TaiLe)
        } else if raw == 0x55676172 {
            Some(Script::Ugaritic)
        } else if raw == 0x42756769 {
            Some(Script::Buginese)
        } else if raw == 0x436F7074 {
            Some(Script::Coptic)
        } else if raw == 0x476C6167 {
            Some(Script::Glagolitic)
        } else if raw == 0x4B686172 {
            Some(Script::Kharoshthi)
        } else if raw == 0x54616C75 {
            Some(Script::NewTaiLue)
        } else if raw == 0x5870656F {
            Some(Script::OldPersian)
        } else if raw == 0x53796C6F {
            Some(Script::SylotiNagri)
        } else if raw == 0x54666E67 {
            Some(Script::Tifinagh)
        } else if raw == 0x42616C69 {
            Some(Script::Balinese)
        } else if raw == 0x58737578 {
            Some(Script::Cuneiform)
        } else if raw == 0x4E6B6F6F {
            Some(Script::Nko)
        } else if raw == 0x50686167 {
            Some(Script::PhagsPa)
        } else if raw == 0x50686E78 {
            Some(Script::Phoenician)
        } else if raw == 0x43617269 {
            Some(Script::Carian)
        } else if raw == 0x4368616D {
            Some(Script::Cham)
        } else if raw == 0x4B616C69 {
            Some(Script::KayahLi)
        } else if raw == 0x4C657063 {
            Some(Script::Lepcha)
        } else if raw == 0x4C796369 {
            Some(Script::Lycian)
        } else if raw == 0x4C796469 {
            Some(Script::Lydian)
        } else if raw == 0x4F6C636B {
            Some(Script::OlChiki)
        } else if raw == 0x526A6E67 {
            Some(Script::Rejang)
        } else if raw == 0x53617572 {
            Some(Script::Saurashtra)
        } else if raw == 0x53756E64 {
            Some(Script::Sundanese)
        } else if raw == 0x56616969 {
            Some(Script::Vai)
        } else if raw == 0x41767374 {
            Some(Script::Avestan)
        } else if raw == 0x42616D75 {
            Some(Script::Bamum)
        } else if raw == 0x45677970 {
            Some(Script::EgyptianHieroglyphs)
        } else if raw == 0x41726D69 {
            Some(Script::ImperialAramaic)
        } else if raw == 0x50686C69 {
            Some(Script::InscriptionalPahlavi)
        } else if raw == 0x50727469 {
            Some(Script::InscriptionalParthian)
        } else if raw == 0x4A617661 {
            Some(Script::Javanese)
        } else if raw == 0x4B746869 {
            Some(Script::Kaithi)
        } else if raw == 0x4C697375 {
            Some(Script::Lisu)
        } else if raw == 0x4D746569 {
            Some(Script::MeeteiMayek)
        } else if raw == 0x53617262 {
            Some(Script::OldSouthArabian)
        } else if raw == 0x4F726B68 {
            Some(Script::OldTurkic)
        } else if raw == 0x53616D72 {
            Some(Script::Samaritan)
        } else if raw == 0x4C616E61 {
            Some(Script::TaiTham)
        } else if raw == 0x54617679 {
            Some(Script::TaiViet)
        } else if raw == 0x4261746B {
            Some(Script::Batak)
        } else if raw == 0x42726168 {
            Some(Script::Brahmi)
        } else if raw == 0x4D616E64 {
            Some(Script::Mandaic)
        } else if raw == 0x43616B6D {
            Some(Script::Chakma)
        } else if raw == 0x4D657263 {
            Some(Script::MeroiticCursive)
        } else if raw == 0x4D65726F {
            Some(Script::MeroiticHieroglyphs)
        } else if raw == 0x506C7264 {
            Some(Script::Miao)
        } else if raw == 0x53687264 {
            Some(Script::Sharada)
        } else if raw == 0x536F7261 {
            Some(Script::SoraSompeng)
        } else if raw == 0x54616B72 {
            Some(Script::Takri)
        } else if raw == 0x42617373 {
            Some(Script::BassaVah)
        } else if raw == 0x41676862 {
            Some(Script::CaucasianAlbanian)
        } else if raw == 0x4475706C {
            Some(Script::Duployan)
        } else if raw == 0x456C6261 {
            Some(Script::Elbasan)
        } else if raw == 0x4772616E {
            Some(Script::Grantha)
        } else if raw == 0x4B686F6A {
            Some(Script::Khojki)
        } else if raw == 0x53696E64 {
            Some(Script::Khudawadi)
        } else if raw == 0x4C696E61 {
            Some(Script::LinearA)
        } else if raw == 0x4D61686A {
            Some(Script::Mahajani)
        } else if raw == 0x4D616E69 {
            Some(Script::Manichaean)
        } else if raw == 0x4D656E64 {
            Some(Script::MendeKikakui)
        } else if raw == 0x4D6F6469 {
            Some(Script::Modi)
        } else if raw == 0x4D726F6F {
            Some(Script::Mro)
        } else if raw == 0x4E626174 {
            Some(Script::Nabataean)
        } else if raw == 0x4E617262 {
            Some(Script::OldNorthArabian)
        } else if raw == 0x5065726D {
            Some(Script::OldPermic)
        } else if raw == 0x486D6E67 {
            Some(Script::PahawhHmong)
        } else if raw == 0x50616C6D {
            Some(Script::Palmyrene)
        } else if raw == 0x50617563 {
            Some(Script::PauCinHau)
        } else if raw == 0x50686C70 {
            Some(Script::PsalterPahlavi)
        } else if raw == 0x53696464 {
            Some(Script::Siddham)
        } else if raw == 0x54697268 {
            Some(Script::Tirhuta)
        } else if raw == 0x57617261 {
            Some(Script::WarangCiti)
        } else if raw == 0x41686F6D {
            Some(Script::Ahom)
        } else if raw == 0x486C7577 {
            Some(Script::AnatolianHieroglyphs)
        } else if raw == 0x48617472 {
            Some(Script::Hatran)
        } else if raw == 0x4D756C74 {
            Some(Script::Multani)
        } else if raw == 0x48756E67 {
            Some(Script::OldHungarian)
        } else if raw == 0x53676E77 {
            Some(Script::Signwriting)
        } else if raw == 0x41646C6D {
            Some(Script::Adlam)
        } else if raw == 0x42686B73 {
            Some(Script::Bhaiksuki)
        } else if raw == 0x4D617263 {
            Some(Script::Marchen)
        } else if raw == 0x4F736765 {
            Some(Script::Osage)
        } else if raw == 0x54616E67 {
            Some(Script::Tangut)
        } else if raw == 0x4E657761 {
            Some(Script::Newa)
        } else if raw == 0x476F6E6D {
            Some(Script::MasaramGondi)
        } else if raw == 0x4E736875 {
            Some(Script::Nushu)
        } else if raw == 0x536F796F {
            Some(Script::Soyombo)
        } else if raw == 0x5A616E62 {
            Some(Script::ZanabazarSquare)
        } else if raw == 0x446F6772 {
            Some(Script::Dogra)
        } else if raw == 0x476F6E67 {
            Some(Script::GunjalaGondi)
        } else if raw == 0x526F6867 {
            Some(Script::HanifiRohingya)
        } else if raw == 0x4D616B61 {
            Some(Script::Makasar)
        } else if raw == 0x4D656466 {
            Some(Script::Medefaidrin)
        } else if raw == 0x536F676F {
            Some(Script::OldSogdian)
        } else if raw == 0x536F6764 {
            Some(Script::Sogdian)
        } else if raw == 0x456C796D {
            Some(Script::Elymaic)
        } else if raw == 0x4E616E64 {
            Some(Script::Nandinagari)
        } else if raw == 0x486D6E70 {
            Some(Script::NyiakengPuachueHmong)
        } else if raw == 0x5763686F {
            Some(Script::Wancho)
        } else if raw == 0x43687273 {
            Some(Script::Chorasmian)
        } else if raw == 0x4469616B {
            Some(Script::DivesAkuru)
        } else if raw == 0x4B697473 {
            Some(Script::KhitanSmallScript)
        } else if raw == 0x59657A69 {
            Some(Script::Yezidi)
        } else {
            None
        }
    }

    /// Decodes a native tag code back into the script it stands for.
    pub fn from_raw(raw: u32) -> (script: Option<Script>)
        ensures
            script == Script::spec_from_raw(raw),
    {
        if raw == 0x5A797979 {
            Some(Script::Common)
        } else if raw == 0x5A696E68 {
            Some(Script::Inherited)
        } else if raw == 0x5A7A7A7A {
            Some(Script::Unknown)
        } else if raw == 0x41726162 {
            Some(Script::Arabic)
        } else if raw == 0x41726D6E {
            Some(Script::Armenian)
        } else if raw == 0x42656E67 {
            Some(Script::Bengali)
        } else if raw == 0x4379726C {
            Some(Script::Cyrillic)
        } else if raw == 0x44657661 {
            Some(Script::Devanagari)
        } else if raw == 0x47656F72 {
            Some(Script::Georgian)
        } else if raw == 0x4772656B {
            Some(Script::Greek)
        } else if raw == 0x47756A72 {
            Some(Script::Gujarati)
        } else if raw == 0x47757275 {
            Some(Script::Gurmukhi)
        } else if raw == 0x48616E67 {
            Some(Script::Hangul)
        } else if raw == 0x48616E69 {
            Some(Script::Han)
        } else if raw == 0x48656272 {
            Some(Script::Hebrew)
        } else if raw == 0x48697261 {
            Some(Script::Hiragana)
        } else if raw == 0x4B6E6461 {
            Some(Script::Kannada)
        } else if raw == 0x4B616E61 {
            Some(Script::Katakana)
        } else if raw == 0x4C616F6F {
            Some(Script::Lao)
        } else if raw == 0x4C61746E {
            Some(Script::Latin)
        } else if raw == 0x4D6C796D {
            Some(Script::Malayalam)
        } else if raw == 0x4F727961 {
            Some(Script::Oriya)
        } else if raw == 0x54616D6C {
            Some(Script::Tamil)
        } else if raw == 0x54656C75 {
            Some(Script::Telugu)
        } else if raw == 0x54686169 {
            Some(Script::Thai)
        } else if raw == 0x54696274 {
            Some(Script::Tibetan)
        } else if raw == 0x426F706F {
            Some(Script::Bopomofo)
        } else if raw == 0x42726169 {
            Some(Script::Braille)
        } else if raw == 0x43616E73 {
            Some(Script::CanadianSyllabics)
        } else if raw == 0x43686572 {
            Some(Script::Cherokee)
        } else if raw == 0x45746869 {
            Some(Script::Ethiopic)
        } else if raw == 0x4B686D72 {
            Some(Script::Khmer)
        } else if raw == 0x4D6F6E67 {
            Some(Script::Mongolian)
        } else if raw == 0x4D796D72 {
            Some(Script::Myanmar)
        } else if raw == 0x4F67616D {
            Some(Script::Ogham)
        } else if raw == 0x52756E72 {
            Some(Script::Runic)
        } else if raw == 0x53696E68 {
            Some(Script::Sinhala)
        } else if raw == 0x53797263 {
            Some(Script::Syriac)
        } else if raw == 0x54686161 {
            Some(Script::Thaana)
        } else if raw == 0x59696969 {
            Some(Script::Yi)
        } else if raw == 0x44737274 {
            Some(Script::Deseret)
        } else if raw == 0x476F7468 {
            Some(Script::Gothic)
        } else if raw == 0x4974616C {
            Some(Script::OldItalic)
        } else if raw == 0x42756864 {
            Some(Script::Buhid)
        } else if raw == 0x48616E6F {
            Some(Script::Hanunoo)
        } else if raw == 0x54676C67 {
            Some(Script::Tagalog)
        } else if raw == 0x54616762 {
            Some(Script::Tagbanwa)
        } else if raw == 0x43707274 {
            Some(Script::Cypriot)
        } else if raw == 0x4C696D62 {
            Some(Script::Limbu)
        } else if raw == 0x4C696E62 {
            Some(Script::LinearB)
        } else if raw == 0x4F736D61 {
            Some(Script::Osmanya)
        } else if raw == 0x53686177 {
            Some(Script::Shavian)
        } else if raw == 0x54616C65 {
            Some(Script::TaiLe)
        } else if raw == 0x55676172 {
            Some(Script::Ugaritic)
        } else if raw == 0x42756769 {
            Some(Script::Buginese)
        } else if raw == 0x436F7074 {
            Some(Script::Coptic)
        } else if raw == 0x476C6167 {
            Some(Script::Glagolitic)
        } else if raw == 0x4B686172 {
            Some(Script::Kharoshthi)
        } else if raw == 0x54616C75 {
            Some(Script::NewTaiLue)
        } else if raw == 0x5870656F {
            Some(Script::OldPersian)
        } else if raw == 0x53796C6F {
            Some(Script::SylotiNagri)
        } else if raw == 0x54666E67 {
            Some(Script::Tifinagh)
        } else if raw == 0x42616C69 {
            Some(Script::Balinese)
        } else if raw == 0x58737578 {
            Some(Script::Cuneiform)
        } else if raw == 0x4E6B6F6F {
            Some(Script::Nko)
        } else if raw == 0x50686167 {
            Some(Script::PhagsPa)
        } else if raw == 0x50686E78 {
            Some(Script::Phoenician)
        } else if raw == 0x43617269 {
            Some(Script::Carian)
        } else if raw == 0x4368616D {
            Some(Script::Cham)
        } else if raw == 0x4B616C69 {
            Some(Script::KayahLi)
        } else if raw == 0x4C657063 {
            Some(Script::Lepcha)
        } else if raw == 0x4C796369 {
            Some(Script::Lycian)
        } else if raw == 0x4C796469 {
            Some(Script::Lydian)
        } else if raw == 0x4F6C636B {
            Some(Script::OlChiki)
        } else if raw == 0x526A6E67 {
            Some(Script::Rejang)
        } else if raw == 0x53617572 {
            Some(Script::Saurashtra)
        } else if raw == 0x53756E64 {
            Some(Script::Sundanese)
        } else if raw == 0x56616969 {
            Some(Script::Vai)
        } else if raw == 0x41767374 {
            Some(Script::Avestan)
        } else if raw == 0x42616D75 {
            Some(Script::Bamum)
        } else if raw == 0x45677970 {
            Some(Script::EgyptianHieroglyphs)
        } else if raw == 0x41726D69 {
            Some(Script::ImperialAramaic)
        } else if raw == 0x50686C69 {
            Some(Script::InscriptionalPahlavi)
        } else if raw == 0x50727469 {
            Some(Script::InscriptionalParthian)
        } else if raw == 0x4A617661 {
            Some(Script::Javanese)
        } else if raw == 0x4B746869 {
            Some(Script::Kaithi)
        } else if raw == 0x4C697375 {
            Some(Script::Lisu)
        } else if raw == 0x4D746569 {
            Some(Script::MeeteiMayek)
        } else if raw == 0x53617262 {
            Some(Script::OldSouthArabian)
        } else if raw == 0x4F726B68 {
            Some(Script::OldTurkic)
        } else if raw == 0x53616D72 {
            Some(Script::Samaritan)
        } else if raw == 0x4C616E61 {
            Some(Script::TaiTham)
        } else if raw == 0x54617679 {
            Some(Script::TaiViet)
        } else if raw == 0x4261746B {
            Some(Script::Batak)
        } else if raw == 0x42726168 {
            Some(Script::Brahmi)
        } else if raw == 0x4D616E64 {
            Some(Script::Mandaic)
        } else if raw == 0x43616B6D {
            Some(Script::Chakma)
        } else if raw == 0x4D657263 {
            Some(Script::MeroiticCursive)
        } else if raw == 0x4D65726F {
            Some(Script::MeroiticHieroglyphs)
        } else if raw == 0x506C7264 {
            Some(Script::Miao)
        } else if raw == 0x53687264 {
            Some(Script::Sharada)
        } else if raw == 0x536F7261 {
            Some(Script::SoraSompeng)
        } else if raw == 0x54616B72 {
            Some(Script::Takri)
        } else if raw == 0x42617373 {
            Some(Script::BassaVah)
        } else if raw == 0x41676862 {
            Some(Script::CaucasianAlbanian)
        } else if raw == 0x4475706C {
            Some(Script::Duployan)
        } else if raw == 0x456C6261 {
            Some(Script::Elbasan)
        } else if raw == 0x4772616E {
            Some(Script::Grantha)
        } else if raw == 0x4B686F6A {
            Some(Script::Khojki)
        } else if raw == 0x53696E64 {
            Some(Script::Khudawadi)
        } else if raw == 0x4C696E61 {
            Some(Script::LinearA)
        } else if raw == 0x4D61686A {
            Some(Script::Mahajani)
        } else if raw == 0x4D616E69 {
            Some(Script::Manichaean)
        } else if raw == 0x4D656E64 {
            Some(Script::MendeKikakui)
        } else if raw == 0x4D6F6469 {
            Some(Script::Modi)
        } else if raw == 0x4D726F6F {
            Some(Script::Mro)
        } else if raw == 0x4E626174 {
            Some(Script::Nabataean)
        } else if raw == 0x4E617262 {
            Some(Script::OldNorthArabian)
        } else if raw == 0x5065726D {
            Some(Script::OldPermic)
        } else if raw == 0x486D6E67 {
            Some(Script::PahawhHmong)
        } else if raw == 0x50616C6D {
            Some(Script::Palmyrene)
        } else if raw == 0x50617563 {
            Some(Script::PauCinHau)
        } else if raw == 0x50686C70 {
            Some(Script::PsalterPahlavi)
        } else if raw == 0x53696464 {
            Some(Script::Siddham)
        } else if raw == 0x54697268 {
            Some(Script::Tirhuta)
        } else if raw == 0x57617261 {
            Some(Script::WarangCiti)
        } else if raw == 0x41686F6D {
            Some(Script::Ahom)
        } else if raw == 0x486C7577 {
            Some(Script::AnatolianHieroglyphs)
        } else if raw == 0x48617472 {
            Some(Script::Hatran)
        } else if raw == 0x4D756C74 {
            Some(Script::Multani)
        } else if raw == 0x48756E67 {
            Some(Script::OldHungarian)
        } else if raw == 0x53676E77 {
            Some(Script::Signwriting)
        } else if raw == 0x41646C6D {
            Some(Script::Adlam)
        } else if raw == 0x42686B73 {
            Some(Script::Bhaiksuki)
        } else if raw == 0x4D617263 {
            Some(Script::Marchen)
        } else if raw == 0x4F736765 {
            Some(Script::Osage)
        } else if raw == 0x54616E67 {
            Some(Script::Tangut)
        } else if raw == 0x4E657761 {
            Some(Script::Newa)
        } else if raw == 0x476F6E6D {
            Some(Script::MasaramGondi)
        } else if raw == 0x4E736875 {
            Some(Script::Nushu)
        } else if raw == 0x536F796F {
            Some(Script::Soyombo)
        } else if raw == 0x5A616E62 {
            Some(Script::ZanabazarSquare)
        } else if raw == 0x446F6772 {
            Some(Script::Dogra)
        } else if raw == 0x476F6E67 {
            Some(Script::GunjalaGondi)
        } else if raw == 0x526F6867 {
            Some(Script::HanifiRohingya)
        } else if raw == 0x4D616B61 {
            Some(Script::Makasar)
        } else if raw == 0x4D656466 {
            Some(Script::Medefaidrin)
        } else if raw == 0x536F676F {
            Some(Script::OldSogdian)
        } else if raw == 0x536F6764 {
            Some(Script::Sogdian)
        } else if raw == 0x456C796D {
            Some(Script::Elymaic)
        } else if raw == 0x4E616E64 {
            Some(Script::Nandinagari)
        } else if raw == 0x486D6E70 {
            Some(Script::NyiakengPuachueHmong)
        } else if raw == 0x5763686F {
            Some(Script::Wancho)
        } else if raw == 0x43687273 {
            Some(Script::Chorasmian)
        } else if raw == 0x4469616B {
            Some(Script::DivesAkuru)
        } else if raw == 0x4B697473 {
            Some(Script::KhitanSmallScript)
        } else if raw == 0x59657A69 {
            Some(Script::Yezidi)
        } else {
            None
        }
    }

    /// Directs the native shaping engine to this script.
    ///
    /// `ret` is what the native set-script call returned for this tag;
    /// a nonzero value reports that the feature is not supported for
    /// the current configuration.
    pub fn set(self, ret: i32) -> (r: SdlResult<()>)
        ensures
            ret == 0 ==> r == Ok::<(), SdlError>(()),
            ret != 0 ==> r == Err::<(), SdlError>(SdlError::UnsupportedFeature),
    {
        if ret != 0 {
            Err(SdlError::UnsupportedFeature)
        } else {
            Ok(())
        }
    }
}

/// Round trip: decoding a script's own tag code recovers the script.
pub proof fn lemma_script_tag_round_trip(s: Script)
    ensures
        Script::spec_from_raw(s.spec_tag()) == Some(s),
{
}

/// The tag codes are injective: no two scripts share one.
pub proof fn lemma_script_tag_injective(s1: Script, s2: Script)
    requires
        s1.spec_tag() == s2.spec_tag(),
    ensures
        s1 == s2,
{
    lemma_script_tag_round_trip(s1);
    lemma_script_tag_round_trip(s2);
}

} // verus!
