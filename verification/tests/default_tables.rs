use font_index::defaults::{
    default_cjk_families, default_generic_families, default_script_families,
};
use font_index::{
    Cjk, FamilyId, FamilyKey, GenericFamily, Os, Script, SourceKind, StaticIndex,
};

fn index_of_families(names: &[&str]) -> StaticIndex {
    let mut index = StaticIndex::new();
    index.add_source(SourceKind::Memory(Vec::new())).unwrap();
    for name in names {
        index.add_family(name).unwrap();
    }
    index
}

const ALL_OS: [Os; 6] = [Os::Windows, Os::MacOs, Os::Ios, Os::Android, Os::Unix, Os::Other];

const ALL_CJK: [Cjk; 5] =
    [Cjk::Unspecified, Cjk::Traditional, Cjk::Simplified, Cjk::Japanese, Cjk::Korean];

#[test]
fn windows_names_its_script_families() {
    assert_eq!(default_script_families(Os::Windows, Script::Latin), vec!["times new roman"]);
    assert_eq!(default_script_families(Os::Windows, Script::Arabic), vec!["tahoma", "segoe ui"]);
    assert_eq!(
        default_script_families(Os::Windows, Script::Hebrew),
        vec!["david", "segoe ui", "calibri"]
    );
    assert_eq!(
        default_script_families(Os::Windows, Script::Hiragana),
        vec!["meiryo", "yu gothic", "ms pgothic", "microsoft yahei"]
    );
    assert_eq!(
        default_script_families(Os::Windows, Script::Katakana),
        vec!["meiryo", "yu gothic", "ms pgothic", "microsoft yahei"]
    );
    assert_eq!(
        default_script_families(Os::Windows, Script::Khmer),
        vec!["leelawadee ui", "khmer ui", "khmer os", "moolboran", "daunpenh"]
    );
    assert_eq!(
        default_script_families(Os::Windows, Script::Lao),
        vec!["leelawadee ui", "lao ui", "dokchampa", "saysettha ot", "phetsarath ot", "code2000"]
    );
    assert_eq!(
        default_script_families(Os::Windows, Script::Yi),
        vec!["microsoft yi baiti", "nuosu sil", "code2000"]
    );
    assert_eq!(default_script_families(Os::Windows, Script::Vai), vec!["ebrima"]);
    assert!(default_script_families(Os::Windows, Script::Cyrillic).is_empty());
}

#[test]
fn macos_names_its_script_families() {
    assert_eq!(
        default_script_families(Os::MacOs, Script::Latin),
        vec!["times", "times new roman"]
    );
    assert_eq!(default_script_families(Os::MacOs, Script::Arabic), vec!["geeza pro"]);
    assert_eq!(
        default_script_families(Os::MacOs, Script::Devanagari),
        vec!["itf devanagari", "kohinoor devanagari", "devanagari sangam mn", "devanagari mt"]
    );
    assert!(default_script_families(Os::MacOs, Script::Bengali).is_empty());
    assert_eq!(
        default_script_families(Os::MacOs, Script::Hebrew),
        vec!["lucida grande", "arial hebrew"]
    );
    assert!(default_script_families(Os::MacOs, Script::Hiragana).is_empty());
}

#[test]
fn other_platforms_share_one_script_table() {
    for os in [Os::Ios, Os::Android, Os::Unix, Os::Other] {
        assert_eq!(
            default_script_families(os, Script::Latin),
            vec!["liberation sans", "dejavu sans", "ubuntu", "source sans pro"]
        );
        assert_eq!(default_script_families(os, Script::Hiragana), vec!["noto sans cjk jp"]);
        assert_eq!(default_script_families(os, Script::Katakana), vec!["noto sans cjk jp"]);
        assert_eq!(
            default_script_families(os, Script::Myanmar),
            vec!["noto sans myanmar", "noto serif myanmar"]
        );
        assert!(default_script_families(os, Script::Thai).is_empty());
    }
}

#[test]
fn no_platform_names_script_families_for_han() {
    for os in ALL_OS {
        assert!(default_script_families(os, Script::Han).is_empty());
    }
}

#[test]
fn every_platform_names_its_cjk_families() {
    assert_eq!(
        default_cjk_families(Os::Windows, Cjk::Simplified),
        vec!["microsoft yahei", "simsun", "simsun-extb"]
    );
    assert_eq!(
        default_cjk_families(Os::Windows, Cjk::Traditional),
        vec!["microsoft jhenghei", "pmingliu", "pmingliu-extb"]
    );
    assert_eq!(
        default_cjk_families(Os::Windows, Cjk::Japanese),
        vec!["meiryo", "yu gothic", "microsoft yahei", "simsun", "simsun-extb"]
    );
    assert_eq!(
        default_cjk_families(Os::Windows, Cjk::Korean),
        vec!["malgun gothic", "gulim", "microsoft yahei", "simsun", "simsun-extb"]
    );
    assert_eq!(default_cjk_families(Os::MacOs, Cjk::Simplified), vec!["pingfang sc"]);
    assert_eq!(default_cjk_families(Os::MacOs, Cjk::Traditional), vec!["pingfang tc"]);
    assert_eq!(
        default_cjk_families(Os::MacOs, Cjk::Japanese),
        vec!["hiragino kaku gothic pron w3"]
    );
    assert_eq!(default_cjk_families(Os::MacOs, Cjk::Korean), vec!["apple sd gothic neo"]);
    for os in [Os::Ios, Os::Android, Os::Unix, Os::Other] {
        assert_eq!(
            default_cjk_families(os, Cjk::Simplified),
            vec!["noto sans cjk sc", "noto serif cjk sc"]
        );
        assert_eq!(
            default_cjk_families(os, Cjk::Traditional),
            vec!["noto sans cjk tc", "noto serif cjk tc"]
        );
        assert_eq!(
            default_cjk_families(os, Cjk::Japanese),
            vec!["noto sans cjk jp", "noto serif cjk jp"]
        );
        assert_eq!(
            default_cjk_families(os, Cjk::Korean),
            vec!["noto sans cjk kr", "noto serif cjk kr"]
        );
    }
    for os in ALL_OS {
        assert_eq!(
            default_cjk_families(os, Cjk::Unspecified),
            default_cjk_families(os, Cjk::Traditional)
        );
    }
}

#[test]
fn every_platform_names_its_generic_families() {
    let expected: [(Os, [&[&str]; 7]); 6] = [
        (
            Os::Windows,
            [
                &["arial"],
                &["times new roman"],
                &["courier new"],
                &["impact"],
                &["comic sans ms"],
                &["segoe ui"],
                &["segoe ui emoji"],
            ],
        ),
        (
            Os::MacOs,
            [
                &["helvetica"],
                &["times"],
                &["courier"],
                &["papyrus"],
                &["apple chancery"],
                &["system font", "helvetica"],
                &["apple color emoji"],
            ],
        ),
        (
            Os::Ios,
            [
                &["helvetica"],
                &["times new roman"],
                &["courier"],
                &["papyrus"],
                &["snell roundhand"],
                &["system font", "helvetica"],
                &["apple color emoji"],
            ],
        ),
        (
            Os::Android,
            [
                &["roboto"],
                &["noto serif", "droid serif"],
                &["droid sans mono"],
                &["noto serif"],
                &["dancing script"],
                &["roboto"],
                &["noto color emoji"],
            ],
        ),
        (
            Os::Unix,
            [
                &["liberation sans", "dejavu sans"],
                &["liberation serif", "dejavu serif", "noto serif", "times new roman"],
                &["dejavu sans mono"],
                &["liberation serif", "dejavu serif"],
                &["liberation serif", "dejavu serif"],
                &["liberation sans", "dejavu sans"],
                &["noto color emoji", "emoji one"],
            ],
        ),
        (
            Os::Other,
            [
                &["liberation sans", "dejavu sans"],
                &["liberation serif", "dejavu serif", "noto serif", "times new roman"],
                &["dejavu sans mono"],
                &["liberation serif", "dejavu serif"],
                &["liberation serif", "dejavu serif"],
                &["liberation sans", "dejavu sans"],
                &["noto color emoji", "emoji one"],
            ],
        ),
    ];
    let generics = [
        GenericFamily::SansSerif,
        GenericFamily::Serif,
        GenericFamily::Monospace,
        GenericFamily::Fantasy,
        GenericFamily::Cursive,
        GenericFamily::SystemUI,
        GenericFamily::Emoji,
    ];
    for (os, lists) in expected {
        for (generic, names) in generics.iter().zip(lists) {
            assert_eq!(default_generic_families(os, *generic).as_slice(), names);
        }
        for generic in [
            GenericFamily::Math,
            GenericFamily::FangSong,
            GenericFamily::UISerif,
            GenericFamily::UISansSerif,
            GenericFamily::UIMonospace,
            GenericFamily::UIRounded,
        ] {
            assert!(default_generic_families(os, generic).is_empty());
        }
    }
}

#[test]
fn default_fallbacks_come_to_nothing_where_nothing_is_installed() {
    for os in ALL_OS {
        let mut index = index_of_families(&["Seldom Seen Sans"]);
        index.setup_default_fallbacks(os);
        assert!(index.script_map.is_empty());
        for code in 0..=255u8 {
            if let Some(script) = Script::from_code(code) {
                for cjk in ALL_CJK {
                    assert!(index.fallbacks(script, cjk).is_empty());
                }
            }
        }
    }
}

#[test]
fn default_generic_families_come_to_nothing_where_nothing_is_installed() {
    for os in ALL_OS {
        let mut index = index_of_families(&["Seldom Seen Sans"]);
        index.setup_default_generic(os);
        assert!(index.generic.iter().all(|family| family.is_none()));
        assert!(index.emoji_family().is_none());
        assert!(index.family_by_key(FamilyKey::Generic(GenericFamily::Serif)).is_none());
    }
}

#[test]
fn windows_fallbacks_follow_the_windows_table() {
    let mut index = index_of_families(&[
        "SimSun",            // 0
        "Microsoft YaHei",   // 1
        "Meiryo",            // 2
        "Malgun Gothic",     // 3
        "PMingLiU",          // 4
        "Times New Roman",   // 5
        "Segoe UI",          // 6
        "Tahoma",            // 7
        "Leelawadee UI",     // 8
        "Code2000",          // 9
        "Nirmala UI",        // 10
    ]);
    index.setup_default_fallbacks(Os::Windows);
    assert_eq!(index.fallbacks(Script::Han, Cjk::Simplified), &[FamilyId(1), FamilyId(0)]);
    assert_eq!(index.fallbacks(Script::Han, Cjk::Traditional), &[FamilyId(4)]);
    assert_eq!(index.fallbacks(Script::Han, Cjk::Unspecified), &[FamilyId(4)]);
    assert_eq!(
        index.fallbacks(Script::Han, Cjk::Japanese),
        &[FamilyId(2), FamilyId(1), FamilyId(0)]
    );
    assert_eq!(
        index.fallbacks(Script::Han, Cjk::Korean),
        &[FamilyId(3), FamilyId(1), FamilyId(0)]
    );
    assert_eq!(index.fallbacks(Script::Latin, Cjk::Unspecified), &[FamilyId(5)]);
    assert_eq!(index.fallbacks(Script::Arabic, Cjk::Unspecified), &[FamilyId(7), FamilyId(6)]);
    assert_eq!(index.fallbacks(Script::Armenian, Cjk::Unspecified), &[FamilyId(6)]);
    assert_eq!(index.fallbacks(Script::Hebrew, Cjk::Unspecified), &[FamilyId(6)]);
    assert_eq!(index.fallbacks(Script::Lisu, Cjk::Unspecified), &[FamilyId(6)]);
    assert_eq!(index.fallbacks(Script::Thai, Cjk::Unspecified), &[FamilyId(7), FamilyId(8)]);
    assert_eq!(index.fallbacks(Script::Lao, Cjk::Unspecified), &[FamilyId(8), FamilyId(9)]);
    assert_eq!(index.fallbacks(Script::Khmer, Cjk::Unspecified), &[FamilyId(8)]);
    assert_eq!(index.fallbacks(Script::Buginese, Cjk::Unspecified), &[FamilyId(8)]);
    assert_eq!(index.fallbacks(Script::Hiragana, Cjk::Unspecified), &[FamilyId(2), FamilyId(1)]);
    assert_eq!(index.fallbacks(Script::Katakana, Cjk::Korean), &[FamilyId(2), FamilyId(1)]);
    assert_eq!(index.fallbacks(Script::Hangul, Cjk::Unspecified), &[FamilyId(3)]);
    assert_eq!(index.fallbacks(Script::Syriac, Cjk::Unspecified), &[FamilyId(9)]);
    assert_eq!(index.fallbacks(Script::Yi, Cjk::Unspecified), &[FamilyId(9)]);
    assert_eq!(index.fallbacks(Script::Bengali, Cjk::Unspecified), &[FamilyId(10)]);
    assert_eq!(index.fallbacks(Script::Devanagari, Cjk::Unspecified), &[FamilyId(10)]);
    assert_eq!(index.fallbacks(Script::Malayalam, Cjk::Unspecified), &[FamilyId(10)]);
    assert!(index.fallbacks(Script::Tibetan, Cjk::Unspecified).is_empty());
    assert!(index.fallbacks(Script::Vai, Cjk::Unspecified).is_empty());
    assert!(index.fallbacks(Script::Cyrillic, Cjk::Unspecified).is_empty());
    // The script map holds the scripts that resolved, and never Han.
    assert_eq!(index.script_map.len(), 17);
    assert!(!index.script_map.contains_key(&Script::Han.code()));
    assert!(index.script_map.contains_key(&Script::Latin.code()));
    assert!(!index.script_map.contains_key(&Script::Tibetan.code()));
}

#[test]
fn macos_fallbacks_follow_the_macos_table() {
    let mut index = index_of_families(&[
        "Times New Roman",   // 0
        "Times",             // 1
        "PingFang TC",       // 2
        "PingFang SC",       // 3
        "Apple SD Gothic Neo", // 4
        "Arial Hebrew",      // 5
        "Noto Sans Bengali", // 6
        "Myanmar MN",        // 7
    ]);
    index.setup_default_fallbacks(Os::MacOs);
    assert_eq!(index.fallbacks(Script::Latin, Cjk::Unspecified), &[FamilyId(1), FamilyId(0)]);
    assert_eq!(index.fallbacks(Script::Han, Cjk::Simplified), &[FamilyId(3)]);
    assert_eq!(index.fallbacks(Script::Han, Cjk::Traditional), &[FamilyId(2)]);
    assert_eq!(index.fallbacks(Script::Han, Cjk::Unspecified), &[FamilyId(2)]);
    assert!(index.fallbacks(Script::Han, Cjk::Japanese).is_empty());
    assert_eq!(index.fallbacks(Script::Han, Cjk::Korean), &[FamilyId(4)]);
    assert_eq!(index.fallbacks(Script::Hebrew, Cjk::Unspecified), &[FamilyId(5)]);
    assert_eq!(index.fallbacks(Script::Myanmar, Cjk::Unspecified), &[FamilyId(7)]);
    assert!(index.fallbacks(Script::Bengali, Cjk::Unspecified).is_empty());
    assert!(index.fallbacks(Script::Arabic, Cjk::Unspecified).is_empty());
    assert_eq!(index.script_map.len(), 3);
}

#[test]
fn other_platforms_fall_back_on_the_common_table() {
    for os in [Os::Ios, Os::Android, Os::Unix, Os::Other] {
        let mut index = index_of_families(&[
            "Ubuntu",            // 0
            "DejaVu Sans",       // 1
            "Noto Serif CJK JP", // 2
            "Noto Sans CJK JP",  // 3
            "Noto Sans CJK TC",  // 4
            "Noto Serif Hebrew", // 5
            "Noto Sans Arabic",  // 6
        ]);
        index.setup_default_fallbacks(os);
        assert_eq!(index.fallbacks(Script::Latin, Cjk::Unspecified), &[FamilyId(1), FamilyId(0)]);
        assert_eq!(index.fallbacks(Script::Han, Cjk::Japanese), &[FamilyId(3), FamilyId(2)]);
        assert_eq!(index.fallbacks(Script::Han, Cjk::Traditional), &[FamilyId(4)]);
        assert_eq!(index.fallbacks(Script::Han, Cjk::Unspecified), &[FamilyId(4)]);
        assert!(index.fallbacks(Script::Han, Cjk::Simplified).is_empty());
        assert!(index.fallbacks(Script::Han, Cjk::Korean).is_empty());
        assert_eq!(index.fallbacks(Script::Hiragana, Cjk::Unspecified), &[FamilyId(3)]);
        assert_eq!(index.fallbacks(Script::Katakana, Cjk::Unspecified), &[FamilyId(3)]);
        assert_eq!(index.fallbacks(Script::Hebrew, Cjk::Unspecified), &[FamilyId(5)]);
        assert_eq!(index.fallbacks(Script::Arabic, Cjk::Unspecified), &[FamilyId(6)]);
        assert!(index.fallbacks(Script::Bengali, Cjk::Unspecified).is_empty());
        assert_eq!(index.script_map.len(), 5);
    }
}

#[test]
fn setup_keeps_the_chain_of_a_script_that_resolves_to_nothing() {
    let mut index = index_of_families(&["Gentium", "Noto Sans Arabic"]);
    index.map_script(Script::Latin, &["gentium"]);
    index.map_script(Script::Cyrillic, &["gentium"]);
    index.map_script(Script::Arabic, &["gentium"]);
    index.map_cjk(Cjk::Korean, &["gentium"]);
    index.setup_default_fallbacks(Os::Unix);
    // Latin has defaults, none installed; Cyrillic has no defaults.
    assert_eq!(index.fallbacks(Script::Latin, Cjk::Unspecified), &[FamilyId(0)]);
    assert_eq!(index.fallbacks(Script::Cyrillic, Cjk::Unspecified), &[FamilyId(0)]);
    // Arabic has a default that is installed.
    assert_eq!(index.fallbacks(Script::Arabic, Cjk::Unspecified), &[FamilyId(1)]);
    // The CJK chains are set anew, also to nothing.
    assert!(index.fallbacks(Script::Han, Cjk::Korean).is_empty());
}

#[test]
fn a_second_setup_changes_nothing() {
    for os in ALL_OS {
        let mut index = index_of_families(&["Ubuntu", "DejaVu Sans", "Tahoma", "SimSun", "Times"]);
        index.setup_default_fallbacks(os);
        let mut keys: Vec<u8> = index.script_map.keys().copied().collect();
        keys.sort();
        let chains: Vec<Vec<FamilyId>> =
            keys.iter().map(|key| index.script_map[key].get().to_vec()).collect();
        let cjk: Vec<Vec<FamilyId>> = index.cjk.iter().map(|chain| chain.get().to_vec()).collect();
        index.setup_default_fallbacks(os);
        let mut keys_again: Vec<u8> = index.script_map.keys().copied().collect();
        keys_again.sort();
        let chains_again: Vec<Vec<FamilyId>> =
            keys_again.iter().map(|key| index.script_map[key].get().to_vec()).collect();
        let cjk_again: Vec<Vec<FamilyId>> =
            index.cjk.iter().map(|chain| chain.get().to_vec()).collect();
        assert_eq!(keys, keys_again);
        assert_eq!(chains, chains_again);
        assert_eq!(cjk, cjk_again);
    }
}

#[test]
fn setup_fills_the_script_map_with_scripts_that_resolve_and_nothing_else() {
    let mut index = index_of_families(&["Ubuntu", "DejaVu Sans"]);
    index.setup_default_fallbacks(Os::Unix);
    assert_eq!(index.script_map.len(), 1);
    assert_eq!(index.script_map[&Script::Latin.code()].get(), &[FamilyId(1), FamilyId(0)]);
    assert!(index.cjk.iter().all(|chain| chain.len() == 0));
    assert_eq!(index.fallbacks(Script::Latin, Cjk::Korean), &[FamilyId(1), FamilyId(0)]);
    assert!(index.script_map.values().all(|chain| chain.len() >= 1));
}

#[test]
fn setup_leaves_a_key_that_is_no_script_alone() {
    let mut index = index_of_families(&["Ubuntu"]);
    let chain = index.find_fallbacks(&["ubuntu"]);
    index.script_map.insert(200, chain);
    index.setup_default_fallbacks(Os::Unix);
    assert_eq!(index.script_map.len(), 2);
    assert_eq!(index.script_map[&200].get(), &[FamilyId(0)]);
    assert_eq!(index.script_map[&Script::Latin.code()].get(), &[FamilyId(0)]);
}

#[test]
fn setup_looks_its_tables_up_as_keys() {
    // The tables hold lowercase keys; a family is registered under the
    // lowercase form of its name, so it is found whatever its spelling.
    let mut index = index_of_families(&["UBUNTU", "dejavu SANS"]);
    index.setup_default_fallbacks(Os::Unix);
    index.setup_default_generic(Os::Unix);
    assert_eq!(index.fallbacks(Script::Latin, Cjk::Unspecified), &[FamilyId(1), FamilyId(0)]);
    assert_eq!(index.generic[GenericFamily::SansSerif.slot()], Some(FamilyId(1)));
}

#[test]
fn setup_leaves_families_and_generic_families_alone() {
    let mut index = index_of_families(&["Arial", "Tahoma"]);
    index.map_generic(GenericFamily::Math, &["arial"]);
    index.setup_default_fallbacks(Os::Windows);
    assert_eq!(index.families.len(), 2);
    assert_eq!(index.generic[GenericFamily::Math.slot()], Some(FamilyId(0)));
    assert_eq!(index.family_by_name("tahoma").unwrap().id(), FamilyId(1));
    assert_eq!(index.fallbacks(Script::Arabic, Cjk::Unspecified), &[FamilyId(1)]);
}

#[test]
fn windows_generic_families() {
    let mut index = index_of_families(&[
        "Segoe UI Emoji",
        "Segoe UI",
        "Comic Sans MS",
        "Impact",
        "Courier New",
        "Times New Roman",
        "Arial",
    ]);
    index.setup_default_generic(Os::Windows);
    assert_eq!(index.generic[GenericFamily::SansSerif.slot()], Some(FamilyId(6)));
    assert_eq!(index.generic[GenericFamily::Serif.slot()], Some(FamilyId(5)));
    assert_eq!(index.generic[GenericFamily::Monospace.slot()], Some(FamilyId(4)));
    assert_eq!(index.generic[GenericFamily::Fantasy.slot()], Some(FamilyId(3)));
    assert_eq!(index.generic[GenericFamily::Cursive.slot()], Some(FamilyId(2)));
    assert_eq!(index.generic[GenericFamily::SystemUI.slot()], Some(FamilyId(1)));
    assert_eq!(index.generic[GenericFamily::Emoji.slot()], Some(FamilyId(0)));
    assert_eq!(index.emoji_family(), Some(FamilyId(0)));
    assert_eq!(index.generic[GenericFamily::Math.slot()], None);
    assert_eq!(
        index.family_by_key(FamilyKey::Generic(GenericFamily::SansSerif)).unwrap().name(),
        "Arial"
    );
    assert_eq!(
        index.family_by_key(FamilyKey::Generic(GenericFamily::Emoji)).unwrap().name(),
        "Segoe UI Emoji"
    );
}

#[test]
fn apple_generic_families() {
    let names = ["Helvetica", "Times", "Times New Roman", "Courier", "Snell Roundhand"];
    let mut index = index_of_families(&names);
    index.setup_default_generic(Os::MacOs);
    assert_eq!(index.generic[GenericFamily::SansSerif.slot()], Some(FamilyId(0)));
    assert_eq!(index.generic[GenericFamily::Serif.slot()], Some(FamilyId(1)));
    assert_eq!(index.generic[GenericFamily::Monospace.slot()], Some(FamilyId(3)));
    assert_eq!(index.generic[GenericFamily::Fantasy.slot()], None);
    assert_eq!(index.generic[GenericFamily::Cursive.slot()], None);
    // No "System Font" here: the second candidate serves.
    assert_eq!(index.generic[GenericFamily::SystemUI.slot()], Some(FamilyId(0)));
    assert_eq!(index.emoji_family(), None);
    let mut index = index_of_families(&names);
    index.setup_default_generic(Os::Ios);
    assert_eq!(index.generic[GenericFamily::SansSerif.slot()], Some(FamilyId(0)));
    assert_eq!(index.generic[GenericFamily::Serif.slot()], Some(FamilyId(2)));
    assert_eq!(index.generic[GenericFamily::Monospace.slot()], Some(FamilyId(3)));
    assert_eq!(index.generic[GenericFamily::Cursive.slot()], Some(FamilyId(4)));
    assert_eq!(index.generic[GenericFamily::SystemUI.slot()], Some(FamilyId(0)));
}

#[test]
fn android_generic_families() {
    let mut index = index_of_families(&["Droid Serif", "Roboto", "Noto Color Emoji", "Noto Serif"]);
    index.setup_default_generic(Os::Android);
    assert_eq!(index.generic[GenericFamily::SansSerif.slot()], Some(FamilyId(1)));
    assert_eq!(index.generic[GenericFamily::Serif.slot()], Some(FamilyId(3)));
    assert_eq!(index.generic[GenericFamily::Monospace.slot()], None);
    assert_eq!(index.generic[GenericFamily::Fantasy.slot()], Some(FamilyId(3)));
    assert_eq!(index.generic[GenericFamily::Cursive.slot()], None);
    assert_eq!(index.generic[GenericFamily::SystemUI.slot()], Some(FamilyId(1)));
    assert_eq!(index.emoji_family(), Some(FamilyId(2)));
}

#[test]
fn unix_generic_families() {
    for os in [Os::Unix, Os::Other] {
        let mut index =
            index_of_families(&["DejaVu Sans", "DejaVu Serif", "DejaVu Sans Mono", "Emoji One", "Noto Serif"]);
        index.setup_default_generic(os);
        assert_eq!(index.generic[GenericFamily::SansSerif.slot()], Some(FamilyId(0)));
        assert_eq!(index.generic[GenericFamily::Serif.slot()], Some(FamilyId(1)));
        assert_eq!(index.generic[GenericFamily::Monospace.slot()], Some(FamilyId(2)));
        assert_eq!(index.generic[GenericFamily::Fantasy.slot()], Some(FamilyId(1)));
        assert_eq!(index.generic[GenericFamily::Cursive.slot()], Some(FamilyId(1)));
        assert_eq!(index.generic[GenericFamily::SystemUI.slot()], Some(FamilyId(0)));
        assert_eq!(index.emoji_family(), Some(FamilyId(3)));
    }
}

#[test]
fn generic_setup_clears_what_is_not_installed_and_keeps_what_has_no_default() {
    let mut index = index_of_families(&["Gentium", "Arial"]);
    index.map_generic(GenericFamily::Serif, &["gentium"]);
    index.map_generic(GenericFamily::Math, &["gentium"]);
    index.setup_default_generic(Os::Windows);
    assert_eq!(index.generic[GenericFamily::Serif.slot()], None);
    assert_eq!(index.generic[GenericFamily::SansSerif.slot()], Some(FamilyId(1)));
    assert_eq!(index.generic[GenericFamily::Math.slot()], Some(FamilyId(0)));
}
