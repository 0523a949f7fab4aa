//! Writing scripts, CJK variants, generic families and platforms.

use vstd::prelude::*;

verus! {

/// A Unicode script. The variants stand in the order of
/// `swash::text::Script` (by ISO 15924 code, then `Inherited`, `Common` and
/// `Unknown`), so that a script's position in this list is its code there.
#[derive(Clone, Copy, Debug, PartialEq, Eq, Structural, Hash)]
pub enum Script {
    Adlam,
    CaucasianAlbanian,
    Ahom,
    Arabic,
    ImperialAramaic,
    Armenian,
    Avestan,
    Balinese,
    Bamum,
    BassaVah,
    Batak,
    Bengali,
    Bhaiksuki,
    Bopomofo,
    Brahmi,
    Braille,
    Buginese,
    Buhid,
    Chakma,
    CanadianAboriginal,
    Carian,
    Cham,
    Cherokee,
    Chorasmian,
    Coptic,
    Cypriot,
    Cyrillic,
    Devanagari,
    DivesAkuru,
    Dogra,
    Deseret,
    Duployan,
    EgyptianHieroglyphs,
    Elbasan,
    Elymaic,
    Ethiopic,
    Georgian,
    Glagolitic,
    GunjalaGondi,
    MasaramGondi,
    Gothic,
    Grantha,
    Greek,
    Gujarati,
    Gurmukhi,
    Hangul,
    Han,
    Hanunoo,
    Hatran,
    Hebrew,
    Hiragana,
    AnatolianHieroglyphs,
    PahawhHmong,
    NyiakengPuachueHmong,
    OldHungarian,
    OldItalic,
    Javanese,
    KayahLi,
    Katakana,
    Kharoshthi,
    Khmer,
    Khojki,
    KhitanSmallScript,
    Kannada,
    Kaithi,
    TaiTham,
    Lao,
    Latin,
    Lepcha,
    Limbu,
    LinearA,
    LinearB,
    Lisu,
    Lycian,
    Lydian,
    Mahajani,
    Makasar,
    Mandaic,
    Manichaean,
    Marchen,
    Medefaidrin,
    MendeKikakui,
    MeroiticCursive,
    MeroiticHieroglyphs,
    Malayalam,
    Modi,
    Mongolian,
    Mro,
    MeeteiMayek,
    Multani,
    Myanmar,
    Nandinagari,
    OldNorthArabian,
    Nabataean,
    Newa,
    Nko,
    Nushu,
    Ogham,
    OlChiki,
    OldTurkic,
    Oriya,
    Osage,
    Osmanya,
    Palmyrene,
    PauCinHau,
    OldPermic,
    PhagsPa,
    InscriptionalPahlavi,
    PsalterPahlavi,
    Phoenician,
    Miao,
    InscriptionalParthian,
    Rejang,
    HanifiRohingya,
    Runic,
    Samaritan,
    OldSouthArabian,
    Saurashtra,
    SignWriting,
    Shavian,
    Sharada,
    Siddham,
    Khudawadi,
    Sinhala,
    Sogdian,
    OldSogdian,
    SoraSompeng,
    Soyombo,
    Sundanese,
    SylotiNagri,
    Syriac,
    Tagbanwa,
    Takri,
    TaiLe,
    NewTaiLue,
    Tamil,
    Tangut,
    TaiViet,
    Telugu,
    Tifinagh,
    Tagalog,
    Thaana,
    Thai,
    Tibetan,
    Tirhuta,
    Ugaritic,
    Vai,
    WarangCiti,
    Wancho,
    OldPersian,
    Cuneiform,
    Yezidi,
    Yi,
    ZanabazarSquare,
    Inherited,
    Common,
    Unknown,
}

/// The number of scripts.
pub const SCRIPT_COUNT: usize = 157;

impl Script {
    /// The position of the script in the list of scripts.
    pub open spec fn spec_code(self) -> u8 {
        self as u8
    }

    /// The position of the script in the list of scripts.
    #[verifier::when_used_as_spec(spec_code)]
    pub fn code(self) -> (code: u8)
        ensures
            code == self.spec_code(),
            code < SCRIPT_COUNT,
    {
        self as u8
    }

    /// The script with the given code, if there is one.
    pub open spec fn spec_from_code(code: u8) -> Option<Script> {
        match code {
            0 => Some(Script::Adlam),
            1 => Some(Script::CaucasianAlbanian),
            2 => Some(Script::Ahom),
            3 => Some(Script::Arabic),
            4 => Some(Script::ImperialAramaic),
            5 => Some(Script::Armenian),
            6 => Some(Script::Avestan),
            7 => Some(Script::Balinese),
            8 => Some(Script::Bamum),
            9 => Some(Script::BassaVah),
            10 => Some(Script::Batak),
            11 => Some(Script::Bengali),
            12 => Some(Script::Bhaiksuki),
            13 => Some(Script::Bopomofo),
            14 => Some(Script::Brahmi),
            15 => Some(Script::Braille),
            16 => Some(Script::Buginese),
            17 => Some(Script::Buhid),
            18 => Some(Script::Chakma),
            19 => Some(Script::CanadianAboriginal),
            20 => Some(Script::Carian),
            21 => Some(Script::Cham),
            22 => Some(Script::Cherokee),
            23 => Some(Script::Chorasmian),
            24 => Some(Script::Coptic),
            25 => Some(Script::Cypriot),
            26 => Some(Script::Cyrillic),
            27 => Some(Script::Devanagari),
            28 => Some(Script::DivesAkuru),
            29 => Some(Script::Dogra),
            30 => Some(Script::Deseret),
            31 => Some(Script::Duployan),
            32 => Some(Script::EgyptianHieroglyphs),
            33 => Some(Script::Elbasan),
            34 => Some(Script::Elymaic),
            35 => Some(Script::Ethiopic),
            36 => Some(Script::Georgian),
            37 => Some(Script::Glagolitic),
            38 => Some(Script::GunjalaGondi),
            39 => Some(Script::MasaramGondi),
            40 => Some(Script::Gothic),
            41 => Some(Script::Grantha),
            42 => Some(Script::Greek),
            43 => Some(Script::Gujarati),
            44 => Some(Script::Gurmukhi),
            45 => Some(Script::Hangul),
            46 => Some(Script::Han),
            47 => Some(Script::Hanunoo),
            48 => Some(Script::Hatran),
            49 => Some(Script::Hebrew),
            50 => Some(Script::Hiragana),
            51 => Some(Script::AnatolianHieroglyphs),
            52 => Some(Script::PahawhHmong),
            53 => Some(Script::NyiakengPuachueHmong),
            54 => Some(Script::OldHungarian),
            55 => Some(Script::OldItalic),
            56 => Some(Script::Javanese),
            57 => Some(Script::KayahLi),
            58 => Some(Script::Katakana),
            59 => Some(Script::Kharoshthi),
            60 => Some(Script::Khmer),
            61 => Some(Script::Khojki),
            62 => Some(Script::KhitanSmallScript),
            63 => Some(Script::Kannada),
            64 => Some(Script::Kaithi),
            65 => Some(Script::TaiTham),
            66 => Some(Script::Lao),
            67 => Some(Script::Latin),
            68 => Some(Script::Lepcha),
            69 => Some(Script::Limbu),
            70 => Some(Script::LinearA),
            71 => Some(Script::LinearB),
            72 => Some(Script::Lisu),
            73 => Some(Script::Lycian),
            74 => Some(Script::Lydian),
            75 => Some(Script::Mahajani),
            76 => Some(Script::Makasar),
            77 => Some(Script::Mandaic),
            78 => Some(Script::Manichaean),
            79 => Some(Script::Marchen),
            80 => Some(Script::Medefaidrin),
            81 => Some(Script::MendeKikakui),
            82 => Some(Script::MeroiticCursive),
            83 => Some(Script::MeroiticHieroglyphs),
            84 => Some(Script::Malayalam),
            85 => Some(Script::Modi),
            86 => Some(Script::Mongolian),
            87 => Some(Script::Mro),
            88 => Some(Script::MeeteiMayek),
            89 => Some(Script::Multani),
            90 => Some(Script::Myanmar),
            91 => Some(Script::Nandinagari),
            92 => Some(Script::OldNorthArabian),
            93 => Some(Script::Nabataean),
            94 => Some(Script::Newa),
            95 => Some(Script::Nko),
            96 => Some(Script::Nushu),
            97 => Some(Script::Ogham),
            98 => Some(Script::OlChiki),
            99 => Some(Script::OldTurkic),
            100 => Some(Script::Oriya),
            101 => Some(Script::Osage),
            102 => Some(Script::Osmanya),
            103 => Some(Script::Palmyrene),
            104 => Some(Script::PauCinHau),
            105 => Some(Script::OldPermic),
            106 => Some(Script::PhagsPa),
            107 => Some(Script::InscriptionalPahlavi),
            108 => Some(Script::PsalterPahlavi),
            109 => Some(Script::Phoenician),
            110 => Some(Script::Miao),
            111 => Some(Script::InscriptionalParthian),
            112 => Some(Script::Rejang),
            113 => Some(Script::HanifiRohingya),
            114 => Some(Script::Runic),
            115 => Some(Script::Samaritan),
            116 => Some(Script::OldSouthArabian),
            117 => Some(Script::Saurashtra),
            118 => Some(Script::SignWriting),
            119 => Some(Script::Shavian),
            120 => Some(Script::Sharada),
            121 => Some(Script::Siddham),
            122 => Some(Script::Khudawadi),
            123 => Some(Script::Sinhala),
            124 => Some(Script::Sogdian),
            125 => Some(Script::OldSogdian),
            126 => Some(Script::SoraSompeng),
            127 => Some(Script::Soyombo),
            128 => Some(Script::Sundanese),
            129 => Some(Script::SylotiNagri),
            130 => Some(Script::Syriac),
            131 => Some(Script::Tagbanwa),
            132 => Some(Script::Takri),
            133 => Some(Script::TaiLe),
            134 => Some(Script::NewTaiLue),
            135 => Some(Script::Tamil),
            136 => Some(Script::Tangut),
            137 => Some(Script::TaiViet),
            138 => Some(Script::Telugu),
            139 => Some(Script::Tifinagh),
            140 => Some(Script::Tagalog),
            141 => Some(Script::Thaana),
            142 => Some(Script::Thai),
            143 => Some(Script::Tibetan),
            144 => Some(Script::Tirhuta),
            145 => Some(Script::Ugaritic),
            146 => Some(Script::Vai),
            147 => Some(Script::WarangCiti),
            148 => Some(Script::Wancho),
            149 => Some(Script::OldPersian),
            150 => Some(Script::Cuneiform),
            151 => Some(Script::Yezidi),
            152 => Some(Script::Yi),
            153 => Some(Script::ZanabazarSquare),
            154 => Some(Script::Inherited),
            155 => Some(Script::Common),
            156 => Some(Script::Unknown),
            _ => None,
        }
    }

    /// The script with the given code, if there is one.
    pub fn from_code(code: u8) -> (script: Option<Script>)
        ensures
            script == Script::spec_from_code(code),
            script.is_some() == (code < SCRIPT_COUNT),
            script.is_some() ==> script.unwrap().spec_code() == code,
    {
        match code {
            0 => Some(Script::Adlam),
            1 => Some(Script::CaucasianAlbanian),
            2 => Some(Script::Ahom),
            3 => Some(Script::Arabic),
            4 => Some(Script::ImperialAramaic),
            5 => Some(Script::Armenian),
            6 => Some(Script::Avestan),
            7 => Some(Script::Balinese),
            8 => Some(Script::Bamum),
            9 => Some(Script::BassaVah),
            10 => Some(Script::Batak),
            11 => Some(Script::Bengali),
            12 => Some(Script::Bhaiksuki),
            13 => Some(Script::Bopomofo),
            14 => Some(Script::Brahmi),
            15 => Some(Script::Braille),
            16 => Some(Script::Buginese),
            17 => Some(Script::Buhid),
            18 => Some(Script::Chakma),
            19 => Some(Script::CanadianAboriginal),
            20 => Some(Script::Carian),
            21 => Some(Script::Cham),
            22 => Some(Script::Cherokee),
            23 => Some(Script::Chorasmian),
            24 => Some(Script::Coptic),
            25 => Some(Script::Cypriot),
            26 => Some(Script::Cyrillic),
            27 => Some(Script::Devanagari),
            28 => Some(Script::DivesAkuru),
            29 => Some(Script::Dogra),
            30 => Some(Script::Deseret),
            31 => Some(Script::Duployan),
            32 => Some(Script::EgyptianHieroglyphs),
            33 => Some(Script::Elbasan),
            34 => Some(Script::Elymaic),
            35 => Some(Script::Ethiopic),
            36 => Some(Script::Georgian),
            37 => Some(Script::Glagolitic),
            38 => Some(Script::GunjalaGondi),
            39 => Some(Script::MasaramGondi),
            40 => Some(Script::Gothic),
            41 => Some(Script::Grantha),
            42 => Some(Script::Greek),
            43 => Some(Script::Gujarati),
            44 => Some(Script::Gurmukhi),
            45 => Some(Script::Hangul),
            46 => Some(Script::Han),
            47 => Some(Script::Hanunoo),
            48 => Some(Script::Hatran),
            49 => Some(Script::Hebrew),
            50 => Some(Script::Hiragana),
            51 => Some(Script::AnatolianHieroglyphs),
            52 => Some(Script::PahawhHmong),
            53 => Some(Script::NyiakengPuachueHmong),
            54 => Some(Script::OldHungarian),
            55 => Some(Script::OldItalic),
            56 => Some(Script::Javanese),
            57 => Some(Script::KayahLi),
            58 => Some(Script::Katakana),
            59 => Some(Script::Kharoshthi),
            60 => Some(Script::Khmer),
            61 => Some(Script::Khojki),
            62 => Some(Script::KhitanSmallScript),
            63 => Some(Script::Kannada),
            64 => Some(Script::Kaithi),
            65 => Some(Script::TaiTham),
            66 => Some(Script::Lao),
            67 => Some(Script::Latin),
            68 => Some(Script::Lepcha),
            69 => Some(Script::Limbu),
            70 => Some(Script::LinearA),
            71 => Some(Script::LinearB),
            72 => Some(Script::Lisu),
            73 => Some(Script::Lycian),
            74 => Some(Script::Lydian),
            75 => Some(Script::Mahajani),
            76 => Some(Script::Makasar),
            77 => Some(Script::Mandaic),
            78 => Some(Script::Manichaean),
            79 => Some(Script::Marchen),
            80 => Some(Script::Medefaidrin),
            81 => Some(Script::MendeKikakui),
            82 => Some(Script::MeroiticCursive),
            83 => Some(Script::MeroiticHieroglyphs),
            84 => Some(Script::Malayalam),
            85 => Some(Script::Modi),
            86 => Some(Script::Mongolian),
            87 => Some(Script::Mro),
            88 => Some(Script::MeeteiMayek),
            89 => Some(Script::Multani),
            90 => Some(Script::Myanmar),
            91 => Some(Script::Nandinagari),
            92 => Some(Script::OldNorthArabian),
            93 => Some(Script::Nabataean),
            94 => Some(Script::Newa),
            95 => Some(Script::Nko),
            96 => Some(Script::Nushu),
            97 => Some(Script::Ogham),
            98 => Some(Script::OlChiki),
            99 => Some(Script::OldTurkic),
            100 => Some(Script::Oriya),
            101 => Some(Script::Osage),
            102 => Some(Script::Osmanya),
            103 => Some(Script::Palmyrene),
            104 => Some(Script::PauCinHau),
            105 => Some(Script::OldPermic),
            106 => Some(Script::PhagsPa),
            107 => Some(Script::InscriptionalPahlavi),
            108 => Some(Script::PsalterPahlavi),
            109 => Some(Script::Phoenician),
            110 => Some(Script::Miao),
            111 => Some(Script::InscriptionalParthian),
            112 => Some(Script::Rejang),
            113 => Some(Script::HanifiRohingya),
            114 => Some(Script::Runic),
            115 => Some(Script::Samaritan),
            116 => Some(Script::OldSouthArabian),
            117 => Some(Script::Saurashtra),
            118 => Some(Script::SignWriting),
            119 => Some(Script::Shavian),
            120 => Some(Script::Sharada),
            121 => Some(Script::Siddham),
            122 => Some(Script::Khudawadi),
            123 => Some(Script::Sinhala),
            124 => Some(Script::Sogdian),
            125 => Some(Script::OldSogdian),
            126 => Some(Script::SoraSompeng),
            127 => Some(Script::Soyombo),
            128 => Some(Script::Sundanese),
            129 => Some(Script::SylotiNagri),
            130 => Some(Script::Syriac),
            131 => Some(Script::Tagbanwa),
            132 => Some(Script::Takri),
            133 => Some(Script::TaiLe),
            134 => Some(Script::NewTaiLue),
            135 => Some(Script::Tamil),
            136 => Some(Script::Tangut),
            137 => Some(Script::TaiViet),
            138 => Some(Script::Telugu),
            139 => Some(Script::Tifinagh),
            140 => Some(Script::Tagalog),
            141 => Some(Script::Thaana),
            142 => Some(Script::Thai),
            143 => Some(Script::Tibetan),
            144 => Some(Script::Tirhuta),
            145 => Some(Script::Ugaritic),
            146 => Some(Script::Vai),
            147 => Some(Script::WarangCiti),
            148 => Some(Script::Wancho),
            149 => Some(Script::OldPersian),
            150 => Some(Script::Cuneiform),
            151 => Some(Script::Yezidi),
            152 => Some(Script::Yi),
            153 => Some(Script::ZanabazarSquare),
            154 => Some(Script::Inherited),
            155 => Some(Script::Common),
            156 => Some(Script::Unknown),
            _ => None,
        }
    }
}

/// Two scripts with the same code are the same script.
pub proof fn lemma_script_code_injective(a: Script, b: Script)
    requires
        a.spec_code() == b.spec_code(),
    ensures
        a == b,
{
}

/// Every script is the script of its code, and a code below the number of
/// scripts is the code of its script.
pub proof fn lemma_script_codes(script: Script, code: u8)
    ensures
        Script::spec_from_code(script.spec_code()) == Some(script),
        Script::spec_from_code(code).is_some() == (code < SCRIPT_COUNT),
        Script::spec_from_code(code).is_some() ==> Script::spec_from_code(code).unwrap().spec_code()
            == code,
{
}

/// The regional variant that decides which fonts serve Han text.
#[derive(Clone, Copy, Debug, PartialEq, Eq, Structural, Hash)]
pub enum Cjk {
    /// No variant was signalled.
    Unspecified,
    Traditional,
    Simplified,
    Japanese,
    Korean,
}

/// The number of CJK variants.
pub const CJK_COUNT: usize = 5;

impl Cjk {
    /// The slot of the variant in a table of `CJK_COUNT` entries.
    pub open spec fn spec_slot(self) -> int {
        self as int
    }

    /// The slot of the variant in a table of `CJK_COUNT` entries.
    pub fn slot(self) -> (slot: usize)
        ensures
            slot == self.spec_slot(),
            slot < CJK_COUNT,
    {
        self as usize
    }
}

/// A generic family: a style class that a platform maps to one installed
/// family.
#[derive(Clone, Copy, Debug, PartialEq, Eq, Structural, Hash)]
pub enum GenericFamily {
    Serif,
    SansSerif,
    Monospace,
    Cursive,
    Fantasy,
    SystemUI,
    Emoji,
    Math,
    FangSong,
    UISerif,
    UISansSerif,
    UIMonospace,
    UIRounded,
}

/// The number of generic families.
pub const GENERIC_COUNT: usize = 13;

impl GenericFamily {
    /// The slot of the generic family in a table of `GENERIC_COUNT` entries.
    pub open spec fn spec_slot(self) -> int {
        self as int
    }

    /// The slot of the generic family in a table of `GENERIC_COUNT` entries.
    pub fn slot(self) -> (slot: usize)
        ensures
            slot == self.spec_slot(),
            slot < GENERIC_COUNT,
    {
        self as usize
    }
}

/// The platform whose default font names an index is set up with.
#[derive(Clone, Copy, Debug, PartialEq, Eq, Structural, Hash)]
pub enum Os {
    Windows,
    MacOs,
    Ios,
    Android,
    Unix,
    Other,
}

} // verus!
