use yas::artifact::{ArtifactSetKey, ArtifactSlotKey, ArtifactStat, ArtifactStatKey, CharacterKey, InternalArtifact};
use yas::expo::to_char_key;
use yas::scan::YasScanResult;

#[test]
fn stat_fields_parse_to_thousandths() {
    assert_eq!(
        ArtifactStat::from_zh_cn_raw("生命值+4,780"),
        Some(ArtifactStat { key: ArtifactStatKey::Hp, value: 4_780_000 })
    );
    assert_eq!(
        ArtifactStat::from_zh_cn_raw("暴击率+10.5%"),
        Some(ArtifactStat { key: ArtifactStatKey::Critical, value: 10_500 })
    );
    assert_eq!(
        ArtifactStat::from_zh_cn_raw("攻击力+5.8%"),
        Some(ArtifactStat { key: ArtifactStatKey::AtkPercentage, value: 5_800 })
    );
    assert_eq!(
        ArtifactStat::from_zh_cn_raw("雷伤+46.6%"),
        Some(ArtifactStat { key: ArtifactStatKey::ElectroBonus, value: 46_600 })
    );
    assert_eq!(ArtifactStat::from_zh_cn_raw("生命值4780"), None);
    assert_eq!(ArtifactStat::from_zh_cn_raw("生命值+4+7"), None);
    assert_eq!(ArtifactStat::from_zh_cn_raw("未知+12"), None);
    assert_eq!(ArtifactStat::from_zh_cn_raw("生命值+abc"), None);
}

#[test]
fn stat_values_agree_to_three_decimals() {
    let a = ArtifactStat::from_zh_cn_raw("暴击率+10.5%").unwrap();
    let close = ArtifactStat::from_zh_cn_raw("暴击率+10.5004%").unwrap();
    let far = ArtifactStat::from_zh_cn_raw("暴击率+10.5011%").unwrap();
    assert_eq!(a, close);
    assert_ne!(a, far);
}

fn item(sub: Option<ArtifactStat>) -> InternalArtifact {
    InternalArtifact {
        set_key: ArtifactSetKey::GladiatorsFinale,
        slot_key: ArtifactSlotKey::Flower,
        rarity: 5,
        level: 20,
        lock: false,
        location: None,
        main_stat: ArtifactStat { key: ArtifactStatKey::Hp, value: 4_780_000 },
        sub_stat_1: sub,
        sub_stat_2: None,
        sub_stat_3: None,
        sub_stat_4: None,
    }
}

#[test]
fn items_differing_below_the_third_decimal_are_equal() {
    let a = item(ArtifactStat::from_zh_cn_raw("暴击伤害+7.8%"));
    let b = item(ArtifactStat::from_zh_cn_raw("暴击伤害+7.8004%"));
    let c = item(ArtifactStat::from_zh_cn_raw("暴击伤害+7.8011%"));
    assert_eq!(a, b);
    assert_ne!(a, c);
}

#[test]
fn decimal_numerals() {
    assert_eq!(yas::artifact::parse_milli("12"), Some(12_000));
    assert_eq!(yas::artifact::parse_milli("3.14159"), Some(3_141));
    assert_eq!(yas::artifact::parse_milli(".5"), Some(500));
    assert_eq!(yas::artifact::parse_milli("7."), Some(7_000));
    assert_eq!(yas::artifact::parse_milli("."), None);
    assert_eq!(yas::artifact::parse_milli(""), None);
    assert_eq!(yas::artifact::parse_milli("1.2.3"), None);
}

#[test]
fn name_tables() {
    assert_eq!(ArtifactSetKey::from_zh_cn("角斗士的留恋"), Some(ArtifactSetKey::GladiatorsFinale));
    assert_eq!(ArtifactSlotKey::from_zh_cn("角斗士的留恋"), Some(ArtifactSlotKey::Flower));
    assert_eq!(ArtifactSlotKey::from_zh_cn("宗室面具"), Some(ArtifactSlotKey::Circlet));
    assert_eq!(CharacterKey::from_zh_cn("雷电将军"), Some(CharacterKey::RaidenShogun));
    assert_eq!(CharacterKey::from_zh_cn("不存在"), None);
    assert_eq!(ArtifactStatKey::from_zh_cn("防御力", false), Some(ArtifactStatKey::Def));
    assert_eq!(ArtifactStatKey::from_zh_cn("防御力", true), Some(ArtifactStatKey::DefPercentage));
}

#[test]
fn export_names() {
    assert_eq!(ArtifactStatKey::CriticalDamage.to_good(), "critDMG_");
    assert_eq!(ArtifactSetKey::EmblemOfSeveredFate.to_good(), "EmblemOfSeveredFate");
    assert_eq!(ArtifactSlotKey::Plume.to_good(), "plume");
    assert_eq!(ArtifactStatKey::Hp.to_mona(), "lifeStatic");
    assert_eq!(ArtifactSetKey::GladiatorsFinale.to_mona(), "gladiatorFinale");
    assert_eq!(ArtifactSetKey::GoldenTroupe.to_mona(), "GoldenTroupe");
    assert_eq!(ArtifactSlotKey::Goblet.to_mona(), "cup");
    assert_eq!(CharacterKey::Furina.to_mona(), "芙宁娜");
    assert_eq!(to_char_key("神里绫华"), "KamisatoAyaka");
    assert_eq!(to_char_key(""), "");
    assert_eq!(to_char_key("不存在"), "Wanderer");
}

fn result(level: &str, location: &str, sub1: &str) -> YasScanResult {
    YasScanResult {
        name: String::from("角斗士的留恋"),
        main_stat_name: String::from("生命值"),
        main_stat_value: String::from("4,780"),
        sub_stat_1: String::from(sub1),
        sub_stat_2: String::from("攻击力+19"),
        sub_stat_3: String::new(),
        sub_stat_4: String::new(),
        level: String::from(level),
        location: String::from(location),
        rarity: 5,
        lock: true,
    }
}

#[test]
fn panel_text_becomes_an_item() {
    let a = result("+20", "雷电将军已装备", "暴击率+3.9%").to_internal_artifact().unwrap();
    assert_eq!(a.set_key, ArtifactSetKey::GladiatorsFinale);
    assert_eq!(a.slot_key, ArtifactSlotKey::Flower);
    assert_eq!(a.level, 20);
    assert_eq!(a.location, Some(CharacterKey::RaidenShogun));
    assert_eq!(a.main_stat, ArtifactStat { key: ArtifactStatKey::Hp, value: 4_780_000 });
    assert_eq!(a.sub_stat_1, Some(ArtifactStat { key: ArtifactStatKey::Critical, value: 3_900 }));
    assert_eq!(a.sub_stat_2, Some(ArtifactStat { key: ArtifactStatKey::Atk, value: 19_000 }));
    assert_eq!(a.sub_stat_3, None);
    assert!(a.lock);
}

#[test]
fn unreadable_panel_gets_a_stand_in() {
    let r = result("20", "", "暴击率+3.9%");
    assert_eq!(r.to_internal_artifact(), None);
    let f = r.to_fallback_artifact();
    assert_eq!(f.level, 0);
    assert_eq!(f.set_key, ArtifactSetKey::GladiatorsFinale);
    assert_eq!(f.location, None);
    let mut bad = result("+4", "", "");
    bad.name = String::from("???");
    bad.main_stat_value = String::from("x");
    let g = bad.to_fallback_artifact();
    assert_eq!(g.set_key, ArtifactSetKey::GladiatorsFinale);
    assert_eq!(g.slot_key, ArtifactSlotKey::Flower);
    assert_eq!(g.level, 4);
    assert_eq!(g.main_stat, ArtifactStat { key: ArtifactStatKey::Hp, value: 4_780_000 });
}

#[test]
fn inventory_header_count() {
    assert_eq!(yas::scan::parse_art_count("圣遗物 1234/1500"), Some(1234));
    assert_eq!(yas::scan::parse_art_count("圣遗物 12/1500"), Some(12));
    assert_eq!(yas::scan::parse_art_count("武器 12/1500"), None);
    assert_eq!(yas::scan::parse_art_count("圣遗物 ab/1500"), None);
}

#[test]
fn items_grouped_by_slot_keep_their_order() {
    let mut a = item(None);
    a.level = 1;
    let mut b = item(None);
    b.slot_key = ArtifactSlotKey::Goblet;
    let mut c = item(None);
    c.level = 3;
    let all = vec![a, b, c];
    assert_eq!(yas::expo::of_slot(&all, ArtifactSlotKey::Flower), vec![a, c]);
    assert_eq!(yas::expo::of_slot(&all, ArtifactSlotKey::Goblet), vec![b]);
    assert_eq!(yas::expo::of_slot(&all, ArtifactSlotKey::Sands), vec![]);
}
