//! The families that each platform ships for a script, a CJK variant or a
//! generic family, in the order in which they are tried.

use crate::names::name_views;
use crate::script::{Cjk, GenericFamily, Os, Script};
use vstd::prelude::*;

verus! {

/// The families that serve Han text of variant `cjk` on `os`. Where no
/// variant is signalled, the families for traditional Chinese serve.
pub open spec fn default_cjk_names(os: Os, cjk: Cjk) -> Seq<Seq<char>> {
    match os {
        Os::Windows => match cjk {
            Cjk::Simplified => seq!["microsoft yahei"@, "simsun"@, "simsun-extb"@],
            Cjk::Traditional | Cjk::Unspecified => seq![
                "microsoft jhenghei"@,
                "pmingliu"@,
                "pmingliu-extb"@,
            ],
            Cjk::Japanese => seq![
                "meiryo"@,
                "yu gothic"@,
                "microsoft yahei"@,
                "simsun"@,
                "simsun-extb"@,
            ],
            Cjk::Korean => seq![
                "malgun gothic"@,
                "gulim"@,
                "microsoft yahei"@,
                "simsun"@,
                "simsun-extb"@,
            ],
        },
        Os::MacOs => match cjk {
            Cjk::Simplified => seq!["pingfang sc"@],
            Cjk::Traditional | Cjk::Unspecified => seq!["pingfang tc"@],
            Cjk::Japanese => seq!["hiragino kaku gothic pron w3"@],
            Cjk::Korean => seq!["apple sd gothic neo"@],
        },
        Os::Ios | Os::Android | Os::Unix | Os::Other => match cjk {
            Cjk::Simplified => seq!["noto sans cjk sc"@, "noto serif cjk sc"@],
            Cjk::Traditional | Cjk::Unspecified => seq!["noto sans cjk tc"@, "noto serif cjk tc"@],
            Cjk::Japanese => seq!["noto sans cjk jp"@, "noto serif cjk jp"@],
            Cjk::Korean => seq!["noto sans cjk kr"@, "noto serif cjk kr"@],
        },
    }
}

/// The families that serve `script` on `os`; none for a script that the
/// platform has no default for. Han has none: it goes by the CJK variant.
pub open spec fn default_script_names(os: Os, script: Script) -> Seq<Seq<char>> {
    match os {
        Os::Windows => match script {
            Script::Latin => seq!["times new roman"@],
            Script::Arabic => seq!["tahoma"@, "segoe ui"@],
            Script::Armenian => seq!["segoe ui"@, "sylfaen"@],
            Script::Bengali => seq!["nirmala ui"@, "vrinda"@],
            Script::Brahmi => seq!["segoe ui historic"@],
            Script::Braille => seq!["segoe ui symbol"@],
            Script::Buginese => seq!["leelawadee ui"@],
            Script::CanadianAboriginal => seq!["gadugi"@, "euphemia"@],
            Script::Carian => seq!["segoe ui historic"@],
            Script::Devanagari => seq!["nirmala ui"@, "mangal"@],
            Script::Hebrew => seq!["david"@, "segoe ui"@, "calibri"@],
            Script::Hangul => seq!["malgun gothic"@, "gulim"@],
            Script::Myanmar => seq!["myanmar text"@],
            Script::Malayalam => seq!["nirmala ui"@, "kartika"@],
            Script::Hiragana => seq!["meiryo"@, "yu gothic"@, "ms pgothic"@, "microsoft yahei"@],
            Script::Katakana => seq!["meiryo"@, "yu gothic"@, "ms pgothic"@, "microsoft yahei"@],
            Script::Kharoshthi => seq!["segoe ui historic"@],
            Script::Khmer => seq![
                "leelawadee ui"@,
                "khmer ui"@,
                "khmer os"@,
                "moolboran"@,
                "daunpenh"@,
            ],
            Script::Lao => seq![
                "leelawadee ui"@,
                "lao ui"@,
                "dokchampa"@,
                "saysettha ot"@,
                "phetsarath ot"@,
                "code2000"@,
            ],
            Script::Lisu => seq!["segoe ui"@],
            Script::Syriac => seq!["estrangelo edessa"@, "estrangelo nisibin"@, "code2000"@],
            Script::Thai => seq!["tahoma"@, "leelawadee ui"@, "leelawadee"@],
            Script::Tibetan => seq!["microsoft himalaya"@, "jomolhari"@, "tibetan machine uni"@],
            Script::Vai => seq!["ebrima"@],
            Script::Yi => seq!["microsoft yi baiti"@, "nuosu sil"@, "code2000"@],
            _ => Seq::empty(),
        },
        Os::MacOs => match script {
            Script::Latin => seq!["times"@, "times new roman"@],
            Script::Arabic => seq!["geeza pro"@],
            Script::Devanagari => seq![
                "itf devanagari"@,
                "kohinoor devanagari"@,
                "devanagari sangam mn"@,
                "devanagari mt"@,
            ],
            Script::Bengali => Seq::empty(),
            Script::Myanmar => seq!["noto sans myanmar"@, "myanmar mn"@],
            Script::Malayalam => seq!["malayalam mn"@],
            Script::Hebrew => seq!["lucida grande"@, "arial hebrew"@],
            _ => Seq::empty(),
        },
        Os::Ios | Os::Android | Os::Unix | Os::Other => match script {
            Script::Hiragana => seq!["noto sans cjk jp"@],
            Script::Katakana => seq!["noto sans cjk jp"@],
            Script::Latin => seq![
                "liberation sans"@,
                "dejavu sans"@,
                "ubuntu"@,
                "source sans pro"@,
            ],
            Script::Arabic => seq!["noto sans arabic"@],
            Script::Hebrew => seq!["noto sans hebrew"@, "noto serif hebrew"@],
            Script::Bengali => seq!["noto sans bengali"@, "noto serif bengali"@],
            Script::Devanagari => seq!["noto sans devanagari"@, "noto serif devanagari"@],
            Script::Malayalam => seq!["noto sans malayalam"@, "noto serif malayalam"@],
            Script::Myanmar => seq!["noto sans myanmar"@, "noto serif myanmar"@],
            _ => Seq::empty(),
        },
    }
}

/// Whether platforms name families for `generic`.
pub open spec fn has_default_generic(generic: GenericFamily) -> bool {
    match generic {
        GenericFamily::SansSerif
        | GenericFamily::Serif
        | GenericFamily::Monospace
        | GenericFamily::Fantasy
        | GenericFamily::Cursive
        | GenericFamily::SystemUI
        | GenericFamily::Emoji => true,
        _ => false,
    }
}

/// The families that stand for `generic` on `os`; none for a generic
/// family that platforms name no families for.
pub open spec fn default_generic_names(os: Os, generic: GenericFamily) -> Seq<Seq<char>> {
    match os {
        Os::Windows => match generic {
            GenericFamily::SansSerif => seq!["arial"@],
            GenericFamily::Serif => seq!["times new roman"@],
            GenericFamily::Monospace => seq!["courier new"@],
            GenericFamily::Fantasy => seq!["impact"@],
            GenericFamily::Cursive => seq!["comic sans ms"@],
            GenericFamily::SystemUI => seq!["segoe ui"@],
            GenericFamily::Emoji => seq!["segoe ui emoji"@],
            _ => Seq::empty(),
        },
        Os::MacOs => match generic {
            GenericFamily::SansSerif => seq!["helvetica"@],
            GenericFamily::Serif => seq!["times"@],
            GenericFamily::Monospace => seq!["courier"@],
            GenericFamily::Fantasy => seq!["papyrus"@],
            GenericFamily::Cursive => seq!["apple chancery"@],
            GenericFamily::SystemUI => seq!["system font"@, "helvetica"@],
            GenericFamily::Emoji => seq!["apple color emoji"@],
            _ => Seq::empty(),
        },
        Os::Ios => match generic {
            GenericFamily::SansSerif => seq!["helvetica"@],
            GenericFamily::Serif => seq!["times new roman"@],
            GenericFamily::Monospace => seq!["courier"@],
            GenericFamily::Fantasy => seq!["papyrus"@],
            GenericFamily::Cursive => seq!["snell roundhand"@],
            GenericFamily::SystemUI => seq!["system font"@, "helvetica"@],
            GenericFamily::Emoji => seq!["apple color emoji"@],
            _ => Seq::empty(),
        },
        Os::Android => match generic {
            GenericFamily::SansSerif => seq!["roboto"@],
            GenericFamily::Serif => seq!["noto serif"@, "droid serif"@],
            GenericFamily::Monospace => seq!["droid sans mono"@],
            GenericFamily::Fantasy => seq!["noto serif"@],
            GenericFamily::Cursive => seq!["dancing script"@],
            GenericFamily::SystemUI => seq!["roboto"@],
            GenericFamily::Emoji => seq!["noto color emoji"@],
            _ => Seq::empty(),
        },
        Os::Unix | Os::Other => match generic {
            GenericFamily::SansSerif => seq!["liberation sans"@, "dejavu sans"@],
            GenericFamily::Serif => seq![
                "liberation serif"@,
                "dejavu serif"@,
                "noto serif"@,
                "times new roman"@,
            ],
            GenericFamily::Monospace => seq!["dejavu sans mono"@],
            GenericFamily::Fantasy => seq!["liberation serif"@, "dejavu serif"@],
            GenericFamily::Cursive => seq!["liberation serif"@, "dejavu serif"@],
            GenericFamily::SystemUI => seq!["liberation sans"@, "dejavu sans"@],
            GenericFamily::Emoji => seq!["noto color emoji"@, "emoji one"@],
            _ => Seq::empty(),
        },
    }
}

/// Returns the families that serve Han text of variant `cjk` on `os`.
pub fn default_cjk_families(os: Os, cjk: Cjk) -> (names: Vec<&'static str>)
    ensures
        name_views(names@) == default_cjk_names(os, cjk),
{
    match os {
        Os::Windows => match cjk {
            Cjk::Simplified => vec!["microsoft yahei", "simsun", "simsun-extb"],
            Cjk::Traditional | Cjk::Unspecified => vec![
                "microsoft jhenghei",
                "pmingliu",
                "pmingliu-extb",
            ],
            Cjk::Japanese => vec![
                "meiryo",
                "yu gothic",
                "microsoft yahei",
                "simsun",
                "simsun-extb",
            ],
            Cjk::Korean => vec![
                "malgun gothic",
                "gulim",
                "microsoft yahei",
                "simsun",
                "simsun-extb",
            ],
        },
        Os::MacOs => match cjk {
            Cjk::Simplified => vec!["pingfang sc"],
            Cjk::Traditional | Cjk::Unspecified => vec!["pingfang tc"],
            Cjk::Japanese => vec!["hiragino kaku gothic pron w3"],
            Cjk::Korean => vec!["apple sd gothic neo"],
        },
        Os::Ios | Os::Android | Os::Unix | Os::Other => match cjk {
            Cjk::Simplified => vec!["noto sans cjk sc", "noto serif cjk sc"],
            Cjk::Traditional | Cjk::Unspecified => vec!["noto sans cjk tc", "noto serif cjk tc"],
            Cjk::Japanese => vec!["noto sans cjk jp", "noto serif cjk jp"],
            Cjk::Korean => vec!["noto sans cjk kr", "noto serif cjk kr"],
        },
    }
}

/// Returns the families that serve `script` on `os`.
pub fn default_script_families(os: Os, script: Script) -> (names: Vec<&'static str>)
    ensures
        name_views(names@) == default_script_names(os, script),
{
    match os {
        Os::Windows => match script {
            Script::Latin => vec!["times new roman"],
            Script::Arabic => vec!["tahoma", "segoe ui"],
            Script::Armenian => vec!["segoe ui", "sylfaen"],
            Script::Bengali => vec!["nirmala ui", "vrinda"],
            Script::Brahmi => vec!["segoe ui historic"],
            Script::Braille => vec!["segoe ui symbol"],
            Script::Buginese => vec!["leelawadee ui"],
            Script::CanadianAboriginal => vec!["gadugi", "euphemia"],
            Script::Carian => vec!["segoe ui historic"],
            Script::Devanagari => vec!["nirmala ui", "mangal"],
            Script::Hebrew => vec!["david", "segoe ui", "calibri"],
            Script::Hangul => vec!["malgun gothic", "gulim"],
            Script::Myanmar => vec!["myanmar text"],
            Script::Malayalam => vec!["nirmala ui", "kartika"],
            Script::Hiragana => vec!["meiryo", "yu gothic", "ms pgothic", "microsoft yahei"],
            Script::Katakana => vec!["meiryo", "yu gothic", "ms pgothic", "microsoft yahei"],
            Script::Kharoshthi => vec!["segoe ui historic"],
            Script::Khmer => vec!["leelawadee ui", "khmer ui", "khmer os", "moolboran", "daunpenh"],
            Script::Lao => vec![
                "leelawadee ui",
                "lao ui",
                "dokchampa",
                "saysettha ot",
                "phetsarath ot",
                "code2000",
            ],
            Script::Lisu => vec!["segoe ui"],
            Script::Syriac => vec!["estrangelo edessa", "estrangelo nisibin", "code2000"],
            Script::Thai => vec!["tahoma", "leelawadee ui", "leelawadee"],
            Script::Tibetan => vec!["microsoft himalaya", "jomolhari", "tibetan machine uni"],
            Script::Vai => vec!["ebrima"],
            Script::Yi => vec!["microsoft yi baiti", "nuosu sil", "code2000"],
            _ => Vec::new(),
        },
        Os::MacOs => match script {
            Script::Latin => vec!["times", "times new roman"],
            Script::Arabic => vec!["geeza pro"],
            Script::Devanagari => vec![
                "itf devanagari",
                "kohinoor devanagari",
                "devanagari sangam mn",
                "devanagari mt",
            ],
            Script::Bengali => Vec::new(),
            Script::Myanmar => vec!["noto sans myanmar", "myanmar mn"],
            Script::Malayalam => vec!["malayalam mn"],
            Script::Hebrew => vec!["lucida grande", "arial hebrew"],
            _ => Vec::new(),
        },
        Os::Ios | Os::Android | Os::Unix | Os::Other => match script {
            Script::Hiragana => vec!["noto sans cjk jp"],
            Script::Katakana => vec!["noto sans cjk jp"],
            Script::Latin => vec!["liberation sans", "dejavu sans", "ubuntu", "source sans pro"],
            Script::Arabic => vec!["noto sans arabic"],
            Script::Hebrew => vec!["noto sans hebrew", "noto serif hebrew"],
            Script::Bengali => vec!["noto sans bengali", "noto serif bengali"],
            Script::Devanagari => vec!["noto sans devanagari", "noto serif devanagari"],
            Script::Malayalam => vec!["noto sans malayalam", "noto serif malayalam"],
            Script::Myanmar => vec!["noto sans myanmar", "noto serif myanmar"],
            _ => Vec::new(),
        },
    }
}

/// Returns the families that stand for `generic` on `os`.
pub fn default_generic_families(os: Os, generic: GenericFamily) -> (names: Vec<&'static str>)
    ensures
        name_views(names@) == default_generic_names(os, generic),
{
    match os {
        Os::Windows => match generic {
            GenericFamily::SansSerif => vec!["arial"],
            GenericFamily::Serif => vec!["times new roman"],
            GenericFamily::Monospace => vec!["courier new"],
            GenericFamily::Fantasy => vec!["impact"],
            GenericFamily::Cursive => vec!["comic sans ms"],
            GenericFamily::SystemUI => vec!["segoe ui"],
            GenericFamily::Emoji => vec!["segoe ui emoji"],
            _ => Vec::new(),
        },
        Os::MacOs => match generic {
            GenericFamily::SansSerif => vec!["helvetica"],
            GenericFamily::Serif => vec!["times"],
            GenericFamily::Monospace => vec!["courier"],
            GenericFamily::Fantasy => vec!["papyrus"],
            GenericFamily::Cursive => vec!["apple chancery"],
            GenericFamily::SystemUI => vec!["system font", "helvetica"],
            GenericFamily::Emoji => vec!["apple color emoji"],
            _ => Vec::new(),
        },
        Os::Ios => match generic {
            GenericFamily::SansSerif => vec!["helvetica"],
            GenericFamily::Serif => vec!["times new roman"],
            GenericFamily::Monospace => vec!["courier"],
            GenericFamily::Fantasy => vec!["papyrus"],
            GenericFamily::Cursive => vec!["snell roundhand"],
            GenericFamily::SystemUI => vec!["system font", "helvetica"],
            GenericFamily::Emoji => vec!["apple color emoji"],
            _ => Vec::new(),
        },
        Os::Android => match generic {
            GenericFamily::SansSerif => vec!["roboto"],
            GenericFamily::Serif => vec!["noto serif", "droid serif"],
            GenericFamily::Monospace => vec!["droid sans mono"],
            GenericFamily::Fantasy => vec!["noto serif"],
            GenericFamily::Cursive => vec!["dancing script"],
            GenericFamily::SystemUI => vec!["roboto"],
            GenericFamily::Emoji => vec!["noto color emoji"],
            _ => Vec::new(),
        },
        Os::Unix | Os::Other => match generic {
            GenericFamily::SansSerif => vec!["liberation sans", "dejavu sans"],
            GenericFamily::Serif => vec![
                "liberation serif",
                "dejavu serif",
                "noto serif",
                "times new roman",
            ],
            GenericFamily::Monospace => vec!["dejavu sans mono"],
            GenericFamily::Fantasy => vec!["liberation serif", "dejavu serif"],
            GenericFamily::Cursive => vec!["liberation serif", "dejavu serif"],
            GenericFamily::SystemUI => vec!["liberation sans", "dejavu sans"],
            GenericFamily::Emoji => vec!["noto color emoji", "emoji one"],
            _ => Vec::new(),
        },
    }
}

} // verus!
