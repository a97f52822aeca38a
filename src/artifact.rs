use vstd::prelude::*;
use crate::outside::{regex_replace_all, regex_replace_all_of};
use crate::text::{chars_of, contains_char, equals, slice, starts_with};
use vstd::string::StrSliceExecFns;

verus! {

/// The kind of a main stat or substat.
#[derive(Debug, Clone, Copy, PartialEq, Eq, Structural, Hash)]
pub enum ArtifactStatKey {
    HealingBonus,
    CriticalDamage,
    Critical,
    Atk,
    AtkPercentage,
    ElementalMastery,
    Recharge,
    HpPercentage,
    Hp,
    DefPercentage,
    Def,
    ElectroBonus,
    PyroBonus,
    HydroBonus,
    CryoBonus,
    AnemoBonus,
    GeoBonus,
    PhysicalBonus,
    DendroBonus,
}

/// The equipment slot of an item.
#[derive(Debug, Clone, Copy, PartialEq, Eq, Structural, Hash)]
pub enum ArtifactSlotKey {
    Flower,
    Plume,
    Sands,
    Goblet,
    Circlet,
}

/// The set an item belongs to.
#[derive(Debug, Clone, Copy, PartialEq, Eq, Structural, Hash)]
pub enum ArtifactSetKey {
    ArchaicPetra,
    HeartOfDepth,
    BlizzardStrayer,
    RetracingBolide,
    NoblesseOblige,
    GladiatorsFinale,
    MaidenBeloved,
    ViridescentVenerer,
    Lavawalker,
    CrimsonWitchOfFlames,
    Thundersoother,
    ThunderingFury,
    BloodstainedChivalry,
    WanderersTroupe,
    Scholar,
    Gambler,
    TinyMiracle,
    MartialArtist,
    BraveHeart,
    ResolutionOfSojourner,
    DefenderWill,
    Berserker,
    Instructor,
    Exile,
    Adventurer,
    LuckyDog,
    TravelingDoctor,
    PrayersForWisdom,
    PrayersToSpringtime,
    PrayersForIllumination,
    PrayersForDestiny,
    PaleFlame,
    TenacityOfTheMillelith,
    EmblemOfSeveredFate,
    ShimenawasReminiscence,
    HuskOfOpulentDreams,
    OceanHuedClam,
    VermillionHereafter,
    EchoesOfAnOffering,
    DeepwoodMemories,
    GildedDreams,
    DesertPavilionChronicle,
    FlowerOfParadiseLost,
    NymphsDream,
    VourukashasGlow,
    MarechausseeHunter,
    GoldenTroupe,
    SongOfDaysPast,
    NighttimeWhispersInTheEchoingWoods,
}

/// A character that can hold an item.
#[derive(Debug, Clone, Copy, PartialEq, Eq, Structural, Hash)]
pub enum CharacterKey {
    KamisatoAyaka,
    Jean,
    Traveler,
    Lisa,
    Barbara,
    Kaeya,
    Diluc,
    Razor,
    Amber,
    Venti,
    Xiangling,
    Beidou,
    Xingqiu,
    Xiao,
    Ningguang,
    Klee,
    Zhongli,
    Fischl,
    Bennett,
    Tartaglia,
    Noelle,
    Qiqi,
    Chongyun,
    Ganyu,
    Albedo,
    Diona,
    Mona,
    Keqing,
    Sucrose,
    Xinyan,
    Rosaria,
    HuTao,
    KaedeharaKazuha,
    Yanfei,
    Yoimiya,
    Thoma,
    Eula,
    RaidenShogun,
    Sayu,
    SangonomiyaKokomi,
    Gorou,
    KujouSara,
    AratakiItto,
    YaeMiko,
    ShikanoinHeizou,
    Yelan,
    Kirara,
    Aloy,
    Shenhe,
    YunJin,
    KukiShinobu,
    KamisatoAyato,
    Collei,
    Dori,
    Tighnari,
    Nilou,
    Cyno,
    Candace,
    Nahida,
    Layla,
    Wanderer,
    Faruzan,
    Yaoyao,
    Alhaitham,
    Dehya,
    Mika,
    Kaveh,
    Baizhu,
    Lynette,
    Lyney,
    Freminet,
    Wriothesley,
    Neuvillette,
    Charlotte,
    Furina,
    Navia,
    Xianyun,
}

/// The set named by an item's title.
pub open spec fn set_key_table(s: Seq<char>) -> Option<ArtifactSetKey> {
    if s == "磐陀裂生之花"@ {
        Some(ArtifactSetKey::ArchaicPetra)
    } else if s == "嵯峨群峰之翼"@ {
        Some(ArtifactSetKey::ArchaicPetra)
    } else if s == "星罗圭壁之晷"@ {
        Some(ArtifactSetKey::ArchaicPetra)
    } else if s == "星罗圭璧之晷"@ {
        Some(ArtifactSetKey::ArchaicPetra)
    } else if s == "巉岩琢塑之樽"@ {
        Some(ArtifactSetKey::ArchaicPetra)
    } else if s == "不动玄石之相"@ {
        Some(ArtifactSetKey::ArchaicPetra)
    } else if s == "历经风雪的思念"@ {
        Some(ArtifactSetKey::BlizzardStrayer)
    } else if s == "摧冰而行的执望"@ {
        Some(ArtifactSetKey::BlizzardStrayer)
    } else if s == "冰雪故园的终期"@ {
        Some(ArtifactSetKey::BlizzardStrayer)
    } else if s == "遍结寒霜的傲骨"@ {
        Some(ArtifactSetKey::BlizzardStrayer)
    } else if s == "破冰踏雪的回音"@ {
        Some(ArtifactSetKey::BlizzardStrayer)
    } else if s == "染血的铁之心"@ {
        Some(ArtifactSetKey::BloodstainedChivalry)
    } else if s == "染血的黑之羽"@ {
        Some(ArtifactSetKey::BloodstainedChivalry)
    } else if s == "骑士染血之时"@ {
        Some(ArtifactSetKey::BloodstainedChivalry)
    } else if s == "染血骑士之杯"@ {
        Some(ArtifactSetKey::BloodstainedChivalry)
    } else if s == "染血的铁假面"@ {
        Some(ArtifactSetKey::BloodstainedChivalry)
    } else if s == "魔女的炎之花"@ {
        Some(ArtifactSetKey::CrimsonWitchOfFlames)
    } else if s == "魔女常燃之羽"@ {
        Some(ArtifactSetKey::CrimsonWitchOfFlames)
    } else if s == "魔女破灭之时"@ {
        Some(ArtifactSetKey::CrimsonWitchOfFlames)
    } else if s == "魔女的心之火"@ {
        Some(ArtifactSetKey::CrimsonWitchOfFlames)
    } else if s == "焦灼的魔女帽"@ {
        Some(ArtifactSetKey::CrimsonWitchOfFlames)
    } else if s == "角斗士的留恋"@ {
        Some(ArtifactSetKey::GladiatorsFinale)
    } else if s == "角斗士的归宿"@ {
        Some(ArtifactSetKey::GladiatorsFinale)
    } else if s == "角斗士的希冀"@ {
        Some(ArtifactSetKey::GladiatorsFinale)
    } else if s == "角斗士的酣醉"@ {
        Some(ArtifactSetKey::GladiatorsFinale)
    } else if s == "角斗士的凯旋"@ {
        Some(ArtifactSetKey::GladiatorsFinale)
    } else if s == "饰金胸花"@ {
        Some(ArtifactSetKey::HeartOfDepth)
    } else if s == "追忆之风"@ {
        Some(ArtifactSetKey::HeartOfDepth)
    } else if s == "坚铜罗盘"@ {
        Some(ArtifactSetKey::HeartOfDepth)
    } else if s == "沉波之盏"@ {
        Some(ArtifactSetKey::HeartOfDepth)
    } else if s == "酒渍船帽"@ {
        Some(ArtifactSetKey::HeartOfDepth)
    } else if s == "渡火者的决绝"@ {
        Some(ArtifactSetKey::Lavawalker)
    } else if s == "渡火者的解脱"@ {
        Some(ArtifactSetKey::Lavawalker)
    } else if s == "渡火者的煎熬"@ {
        Some(ArtifactSetKey::Lavawalker)
    } else if s == "渡火者的醒悟"@ {
        Some(ArtifactSetKey::Lavawalker)
    } else if s == "渡火者的智慧"@ {
        Some(ArtifactSetKey::Lavawalker)
    } else if s == "远方的少女之心"@ {
        Some(ArtifactSetKey::MaidenBeloved)
    } else if s == "少女飘摇的思念"@ {
        Some(ArtifactSetKey::MaidenBeloved)
    } else if s == "少女苦短的良辰"@ {
        Some(ArtifactSetKey::MaidenBeloved)
    } else if s == "少女片刻的闲暇"@ {
        Some(ArtifactSetKey::MaidenBeloved)
    } else if s == "少女易逝的芳颜"@ {
        Some(ArtifactSetKey::MaidenBeloved)
    } else if s == "宗室之花"@ {
        Some(ArtifactSetKey::NoblesseOblige)
    } else if s == "宗室之翎"@ {
        Some(ArtifactSetKey::NoblesseOblige)
    } else if s == "宗室时计"@ {
        Some(ArtifactSetKey::NoblesseOblige)
    } else if s == "宗室银瓮"@ {
        Some(ArtifactSetKey::NoblesseOblige)
    } else if s == "宗室面具"@ {
        Some(ArtifactSetKey::NoblesseOblige)
    } else if s == "夏祭之花"@ {
        Some(ArtifactSetKey::RetracingBolide)
    } else if s == "夏祭终末"@ {
        Some(ArtifactSetKey::RetracingBolide)
    } else if s == "夏祭之刻"@ {
        Some(ArtifactSetKey::RetracingBolide)
    } else if s == "夏祭水玉"@ {
        Some(ArtifactSetKey::RetracingBolide)
    } else if s == "夏祭之面"@ {
        Some(ArtifactSetKey::RetracingBolide)
    } else if s == "平雷之心"@ {
        Some(ArtifactSetKey::Thundersoother)
    } else if s == "平雷之羽"@ {
        Some(ArtifactSetKey::Thundersoother)
    } else if s == "平雷之刻"@ {
        Some(ArtifactSetKey::Thundersoother)
    } else if s == "平雷之器"@ {
        Some(ArtifactSetKey::Thundersoother)
    } else if s == "平雷之冠"@ {
        Some(ArtifactSetKey::Thundersoother)
    } else if s == "雷鸟的怜悯"@ {
        Some(ArtifactSetKey::ThunderingFury)
    } else if s == "雷灾的孑遗"@ {
        Some(ArtifactSetKey::ThunderingFury)
    } else if s == "雷霆的时计"@ {
        Some(ArtifactSetKey::ThunderingFury)
    } else if s == "降雷的凶兆"@ {
        Some(ArtifactSetKey::ThunderingFury)
    } else if s == "唤雷的头冠"@ {
        Some(ArtifactSetKey::ThunderingFury)
    } else if s == "野花记忆的绿野"@ {
        Some(ArtifactSetKey::ViridescentVenerer)
    } else if s == "猎人青翠的箭羽"@ {
        Some(ArtifactSetKey::ViridescentVenerer)
    } else if s == "翠绿猎人的笃定"@ {
        Some(ArtifactSetKey::ViridescentVenerer)
    } else if s == "翠绿猎人的容器"@ {
        Some(ArtifactSetKey::ViridescentVenerer)
    } else if s == "翠绿的猎人之冠"@ {
        Some(ArtifactSetKey::ViridescentVenerer)
    } else if s == "乐团的晨光"@ {
        Some(ArtifactSetKey::WanderersTroupe)
    } else if s == "琴师的箭羽"@ {
        Some(ArtifactSetKey::WanderersTroupe)
    } else if s == "终幕的时计"@ {
        Some(ArtifactSetKey::WanderersTroupe)
    } else if s == "终末的时计"@ {
        Some(ArtifactSetKey::WanderersTroupe)
    } else if s == "吟游者之壶"@ {
        Some(ArtifactSetKey::WanderersTroupe)
    } else if s == "指挥的礼帽"@ {
        Some(ArtifactSetKey::WanderersTroupe)
    } else if s == "战狂的蔷薇"@ {
        Some(ArtifactSetKey::Berserker)
    } else if s == "战狂的翎羽"@ {
        Some(ArtifactSetKey::Berserker)
    } else if s == "战狂的时计"@ {
        Some(ArtifactSetKey::Berserker)
    } else if s == "战狂的骨杯"@ {
        Some(ArtifactSetKey::Berserker)
    } else if s == "战狂的鬼面"@ {
        Some(ArtifactSetKey::Berserker)
    } else if s == "勇士的勋章"@ {
        Some(ArtifactSetKey::BraveHeart)
    } else if s == "勇士的期许"@ {
        Some(ArtifactSetKey::BraveHeart)
    } else if s == "勇士的坚毅"@ {
        Some(ArtifactSetKey::BraveHeart)
    } else if s == "勇士的壮行"@ {
        Some(ArtifactSetKey::BraveHeart)
    } else if s == "勇士的冠冕"@ {
        Some(ArtifactSetKey::BraveHeart)
    } else if s == "守护之花"@ {
        Some(ArtifactSetKey::DefenderWill)
    } else if s == "守护徽印"@ {
        Some(ArtifactSetKey::DefenderWill)
    } else if s == "守护座钟"@ {
        Some(ArtifactSetKey::DefenderWill)
    } else if s == "守护之皿"@ {
        Some(ArtifactSetKey::DefenderWill)
    } else if s == "守护束带"@ {
        Some(ArtifactSetKey::DefenderWill)
    } else if s == "流放者之花"@ {
        Some(ArtifactSetKey::Exile)
    } else if s == "流放者之羽"@ {
        Some(ArtifactSetKey::Exile)
    } else if s == "流放者怀表"@ {
        Some(ArtifactSetKey::Exile)
    } else if s == "流放者之杯"@ {
        Some(ArtifactSetKey::Exile)
    } else if s == "流放者头冠"@ {
        Some(ArtifactSetKey::Exile)
    } else if s == "赌徒的胸花"@ {
        Some(ArtifactSetKey::Gambler)
    } else if s == "赌徒的羽饰"@ {
        Some(ArtifactSetKey::Gambler)
    } else if s == "赌徒的怀表"@ {
        Some(ArtifactSetKey::Gambler)
    } else if s == "赌徒的骰盅"@ {
        Some(ArtifactSetKey::Gambler)
    } else if s == "赌徒的耳环"@ {
        Some(ArtifactSetKey::Gambler)
    } else if s == "教官的胸花"@ {
        Some(ArtifactSetKey::Instructor)
    } else if s == "教官的羽饰"@ {
        Some(ArtifactSetKey::Instructor)
    } else if s == "教官的怀表"@ {
        Some(ArtifactSetKey::Instructor)
    } else if s == "教官的茶杯"@ {
        Some(ArtifactSetKey::Instructor)
    } else if s == "教官的帽子"@ {
        Some(ArtifactSetKey::Instructor)
    } else if s == "武人的红花"@ {
        Some(ArtifactSetKey::MartialArtist)
    } else if s == "武人的羽饰"@ {
        Some(ArtifactSetKey::MartialArtist)
    } else if s == "武人的水漏"@ {
        Some(ArtifactSetKey::MartialArtist)
    } else if s == "武人的酒杯"@ {
        Some(ArtifactSetKey::MartialArtist)
    } else if s == "武人的头巾"@ {
        Some(ArtifactSetKey::MartialArtist)
    } else if s == "祭水礼冠"@ {
        Some(ArtifactSetKey::PrayersForDestiny)
    } else if s == "祭火礼冠"@ {
        Some(ArtifactSetKey::PrayersForIllumination)
    } else if s == "祭雷礼冠"@ {
        Some(ArtifactSetKey::PrayersForWisdom)
    } else if s == "祭冰礼冠"@ {
        Some(ArtifactSetKey::PrayersToSpringtime)
    } else if s == "故人之心"@ {
        Some(ArtifactSetKey::ResolutionOfSojourner)
    } else if s == "归乡之羽"@ {
        Some(ArtifactSetKey::ResolutionOfSojourner)
    } else if s == "逐光之石"@ {
        Some(ArtifactSetKey::ResolutionOfSojourner)
    } else if s == "异国之盏"@ {
        Some(ArtifactSetKey::ResolutionOfSojourner)
    } else if s == "感别之冠"@ {
        Some(ArtifactSetKey::ResolutionOfSojourner)
    } else if s == "学士的书签"@ {
        Some(ArtifactSetKey::Scholar)
    } else if s == "学士的羽笔"@ {
        Some(ArtifactSetKey::Scholar)
    } else if s == "学士的时钟"@ {
        Some(ArtifactSetKey::Scholar)
    } else if s == "学士的墨杯"@ {
        Some(ArtifactSetKey::Scholar)
    } else if s == "学士的镜片"@ {
        Some(ArtifactSetKey::Scholar)
    } else if s == "奇迹之花"@ {
        Some(ArtifactSetKey::TinyMiracle)
    } else if s == "奇迹之羽"@ {
        Some(ArtifactSetKey::TinyMiracle)
    } else if s == "奇迹之沙"@ {
        Some(ArtifactSetKey::TinyMiracle)
    } else if s == "奇迹之杯"@ {
        Some(ArtifactSetKey::TinyMiracle)
    } else if s == "奇迹耳坠"@ {
        Some(ArtifactSetKey::TinyMiracle)
    } else if s == "冒险家之花"@ {
        Some(ArtifactSetKey::Adventurer)
    } else if s == "冒险家尾羽"@ {
        Some(ArtifactSetKey::Adventurer)
    } else if s == "冒险家怀表"@ {
        Some(ArtifactSetKey::Adventurer)
    } else if s == "冒险家金杯"@ {
        Some(ArtifactSetKey::Adventurer)
    } else if s == "冒险家头带"@ {
        Some(ArtifactSetKey::Adventurer)
    } else if s == "幸运儿绿花"@ {
        Some(ArtifactSetKey::LuckyDog)
    } else if s == "幸运儿鹰羽"@ {
        Some(ArtifactSetKey::LuckyDog)
    } else if s == "幸运儿沙漏"@ {
        Some(ArtifactSetKey::LuckyDog)
    } else if s == "幸运儿之杯"@ {
        Some(ArtifactSetKey::LuckyDog)
    } else if s == "幸运儿银冠"@ {
        Some(ArtifactSetKey::LuckyDog)
    } else if s == "游医的银莲"@ {
        Some(ArtifactSetKey::TravelingDoctor)
    } else if s == "游医的枭羽"@ {
        Some(ArtifactSetKey::TravelingDoctor)
    } else if s == "游医的怀钟"@ {
        Some(ArtifactSetKey::TravelingDoctor)
    } else if s == "游医的药壶"@ {
        Some(ArtifactSetKey::TravelingDoctor)
    } else if s == "游医的方巾"@ {
        Some(ArtifactSetKey::TravelingDoctor)
    } else if s == "勋绩之花"@ {
        Some(ArtifactSetKey::TenacityOfTheMillelith)
    } else if s == "昭武翎羽"@ {
        Some(ArtifactSetKey::TenacityOfTheMillelith)
    } else if s == "金铜时晷"@ {
        Some(ArtifactSetKey::TenacityOfTheMillelith)
    } else if s == "盟誓金爵"@ {
        Some(ArtifactSetKey::TenacityOfTheMillelith)
    } else if s == "将帅兜鍪"@ {
        Some(ArtifactSetKey::TenacityOfTheMillelith)
    } else if s == "无垢之花"@ {
        Some(ArtifactSetKey::PaleFlame)
    } else if s == "贤医之羽"@ {
        Some(ArtifactSetKey::PaleFlame)
    } else if s == "停摆之刻"@ {
        Some(ArtifactSetKey::PaleFlame)
    } else if s == "超越之盏"@ {
        Some(ArtifactSetKey::PaleFlame)
    } else if s == "嗤笑之面"@ {
        Some(ArtifactSetKey::PaleFlame)
    } else if s == "明威之镡"@ {
        Some(ArtifactSetKey::EmblemOfSeveredFate)
    } else if s == "切落之羽"@ {
        Some(ArtifactSetKey::EmblemOfSeveredFate)
    } else if s == "雷云之笼"@ {
        Some(ArtifactSetKey::EmblemOfSeveredFate)
    } else if s == "绯花之壶"@ {
        Some(ArtifactSetKey::EmblemOfSeveredFate)
    } else if s == "华饰之兜"@ {
        Some(ArtifactSetKey::EmblemOfSeveredFate)
    } else if s == "羁缠之花"@ {
        Some(ArtifactSetKey::ShimenawasReminiscence)
    } else if s == "思忆之矢"@ {
        Some(ArtifactSetKey::ShimenawasReminiscence)
    } else if s == "朝露之时"@ {
        Some(ArtifactSetKey::ShimenawasReminiscence)
    } else if s == "祈望之心"@ {
        Some(ArtifactSetKey::ShimenawasReminiscence)
    } else if s == "无常之面"@ {
        Some(ArtifactSetKey::ShimenawasReminiscence)
    } else if s == "荣花之期"@ {
        Some(ArtifactSetKey::HuskOfOpulentDreams)
    } else if s == "华馆之羽"@ {
        Some(ArtifactSetKey::HuskOfOpulentDreams)
    } else if s == "众生之谣"@ {
        Some(ArtifactSetKey::HuskOfOpulentDreams)
    } else if s == "梦醒之瓢"@ {
        Some(ArtifactSetKey::HuskOfOpulentDreams)
    } else if s == "形骸之笠"@ {
        Some(ArtifactSetKey::HuskOfOpulentDreams)
    } else if s == "海染之花"@ {
        Some(ArtifactSetKey::OceanHuedClam)
    } else if s == "渊宫之羽"@ {
        Some(ArtifactSetKey::OceanHuedClam)
    } else if s == "离别之贝"@ {
        Some(ArtifactSetKey::OceanHuedClam)
    } else if s == "真珠之笼"@ {
        Some(ArtifactSetKey::OceanHuedClam)
    } else if s == "海祇之冠"@ {
        Some(ArtifactSetKey::OceanHuedClam)
    } else {
        None
    }
}

#[verifier::rlimit(100)]
fn set_key_of_chars(v: &Vec<char>) -> (r: Option<ArtifactSetKey>)
    ensures
        r == set_key_table(v@),
{
    if equals(v, "磐陀裂生之花") {
        Some(ArtifactSetKey::ArchaicPetra)
    } else if equals(v, "嵯峨群峰之翼") {
        Some(ArtifactSetKey::ArchaicPetra)
    } else if equals(v, "星罗圭壁之晷") {
        Some(ArtifactSetKey::ArchaicPetra)
    } else if equals(v, "星罗圭璧之晷") {
        Some(ArtifactSetKey::ArchaicPetra)
    } else if equals(v, "巉岩琢塑之樽") {
        Some(ArtifactSetKey::ArchaicPetra)
    } else if equals(v, "不动玄石之相") {
        Some(ArtifactSetKey::ArchaicPetra)
    } else if equals(v, "历经风雪的思念") {
        Some(ArtifactSetKey::BlizzardStrayer)
    } else if equals(v, "摧冰而行的执望") {
        Some(ArtifactSetKey::BlizzardStrayer)
    } else if equals(v, "冰雪故园的终期") {
        Some(ArtifactSetKey::BlizzardStrayer)
    } else if equals(v, "遍结寒霜的傲骨") {
        Some(ArtifactSetKey::BlizzardStrayer)
    } else if equals(v, "破冰踏雪的回音") {
        Some(ArtifactSetKey::BlizzardStrayer)
    } else if equals(v, "染血的铁之心") {
        Some(ArtifactSetKey::BloodstainedChivalry)
    } else if equals(v, "染血的黑之羽") {
        Some(ArtifactSetKey::BloodstainedChivalry)
    } else if equals(v, "骑士染血之时") {
        Some(ArtifactSetKey::BloodstainedChivalry)
    } else if equals(v, "染血骑士之杯") {
        Some(ArtifactSetKey::BloodstainedChivalry)
    } else if equals(v, "染血的铁假面") {
        Some(ArtifactSetKey::BloodstainedChivalry)
    } else if equals(v, "魔女的炎之花") {
        Some(ArtifactSetKey::CrimsonWitchOfFlames)
    } else if equals(v, "魔女常燃之羽") {
        Some(ArtifactSetKey::CrimsonWitchOfFlames)
    } else if equals(v, "魔女破灭之时") {
        Some(ArtifactSetKey::CrimsonWitchOfFlames)
    } else if equals(v, "魔女的心之火") {
        Some(ArtifactSetKey::CrimsonWitchOfFlames)
    } else if equals(v, "焦灼的魔女帽") {
        Some(ArtifactSetKey::CrimsonWitchOfFlames)
    } else if equals(v, "角斗士的留恋") {
        Some(ArtifactSetKey::GladiatorsFinale)
    } else if equals(v, "角斗士的归宿") {
        Some(ArtifactSetKey::GladiatorsFinale)
    } else if equals(v, "角斗士的希冀") {
        Some(ArtifactSetKey::GladiatorsFinale)
    } else if equals(v, "角斗士的酣醉") {
        Some(ArtifactSetKey::GladiatorsFinale)
    } else if equals(v, "角斗士的凯旋") {
        Some(ArtifactSetKey::GladiatorsFinale)
    } else if equals(v, "饰金胸花") {
        Some(ArtifactSetKey::HeartOfDepth)
    } else if equals(v, "追忆之风") {
        Some(ArtifactSetKey::HeartOfDepth)
    } else if equals(v, "坚铜罗盘") {
        Some(ArtifactSetKey::HeartOfDepth)
    } else if equals(v, "沉波之盏") {
        Some(ArtifactSetKey::HeartOfDepth)
    } else if equals(v, "酒渍船帽") {
        Some(ArtifactSetKey::HeartOfDepth)
    } else if equals(v, "渡火者的决绝") {
        Some(ArtifactSetKey::Lavawalker)
    } else if equals(v, "渡火者的解脱") {
        Some(ArtifactSetKey::Lavawalker)
    } else if equals(v, "渡火者的煎熬") {
        Some(ArtifactSetKey::Lavawalker)
    } else if equals(v, "渡火者的醒悟") {
        Some(ArtifactSetKey::Lavawalker)
    } else if equals(v, "渡火者的智慧") {
        Some(ArtifactSetKey::Lavawalker)
    } else if equals(v, "远方的少女之心") {
        Some(ArtifactSetKey::MaidenBeloved)
    } else if equals(v, "少女飘摇的思念") {
        Some(ArtifactSetKey::MaidenBeloved)
    } else if equals(v, "少女苦短的良辰") {
        Some(ArtifactSetKey::MaidenBeloved)
    } else if equals(v, "少女片刻的闲暇") {
        Some(ArtifactSetKey::MaidenBeloved)
    } else if equals(v, "少女易逝的芳颜") {
        Some(ArtifactSetKey::MaidenBeloved)
    } else if equals(v, "宗室之花") {
        Some(ArtifactSetKey::NoblesseOblige)
    } else if equals(v, "宗室之翎") {
        Some(ArtifactSetKey::NoblesseOblige)
    } else if equals(v, "宗室时计") {
        Some(ArtifactSetKey::NoblesseOblige)
    } else if equals(v, "宗室银瓮") {
        Some(ArtifactSetKey::NoblesseOblige)
    } else if equals(v, "宗室面具") {
        Some(ArtifactSetKey::NoblesseOblige)
    } else if equals(v, "夏祭之花") {
        Some(ArtifactSetKey::RetracingBolide)
    } else if equals(v, "夏祭终末") {
        Some(ArtifactSetKey::RetracingBolide)
    } else if equals(v, "夏祭之刻") {
        Some(ArtifactSetKey::RetracingBolide)
    } else if equals(v, "夏祭水玉") {
        Some(ArtifactSetKey::RetracingBolide)
    } else if equals(v, "夏祭之面") {
        Some(ArtifactSetKey::RetracingBolide)
    } else if equals(v, "平雷之心") {
        Some(ArtifactSetKey::Thundersoother)
    } else if equals(v, "平雷之羽") {
        Some(ArtifactSetKey::Thundersoother)
    } else if equals(v, "平雷之刻") {
        Some(ArtifactSetKey::Thundersoother)
    } else if equals(v, "平雷之器") {
        Some(ArtifactSetKey::Thundersoother)
    } else if equals(v, "平雷之冠") {
        Some(ArtifactSetKey::Thundersoother)
    } else if equals(v, "雷鸟的怜悯") {
        Some(ArtifactSetKey::ThunderingFury)
    } else if equals(v, "雷灾的孑遗") {
        Some(ArtifactSetKey::ThunderingFury)
    } else if equals(v, "雷霆的时计") {
        Some(ArtifactSetKey::ThunderingFury)
    } else if equals(v, "降雷的凶兆") {
        Some(ArtifactSetKey::ThunderingFury)
    } else if equals(v, "唤雷的头冠") {
        Some(ArtifactSetKey::ThunderingFury)
    } else if equals(v, "野花记忆的绿野") {
        Some(ArtifactSetKey::ViridescentVenerer)
    } else if equals(v, "猎人青翠的箭羽") {
        Some(ArtifactSetKey::ViridescentVenerer)
    } else if equals(v, "翠绿猎人的笃定") {
        Some(ArtifactSetKey::ViridescentVenerer)
    } else if equals(v, "翠绿猎人的容器") {
        Some(ArtifactSetKey::ViridescentVenerer)
    } else if equals(v, "翠绿的猎人之冠") {
        Some(ArtifactSetKey::ViridescentVenerer)
    } else if equals(v, "乐团的晨光") {
        Some(ArtifactSetKey::WanderersTroupe)
    } else if equals(v, "琴师的箭羽") {
        Some(ArtifactSetKey::WanderersTroupe)
    } else if equals(v, "终幕的时计") {
        Some(ArtifactSetKey::WanderersTroupe)
    } else if equals(v, "终末的时计") {
        Some(ArtifactSetKey::WanderersTroupe)
    } else if equals(v, "吟游者之壶") {
        Some(ArtifactSetKey::WanderersTroupe)
    } else if equals(v, "指挥的礼帽") {
        Some(ArtifactSetKey::WanderersTroupe)
    } else if equals(v, "战狂的蔷薇") {
        Some(ArtifactSetKey::Berserker)
    } else if equals(v, "战狂的翎羽") {
        Some(ArtifactSetKey::Berserker)
    } else if equals(v, "战狂的时计") {
        Some(ArtifactSetKey::Berserker)
    } else if equals(v, "战狂的骨杯") {
        Some(ArtifactSetKey::Berserker)
    } else if equals(v, "战狂的鬼面") {
        Some(ArtifactSetKey::Berserker)
    } else if equals(v, "勇士的勋章") {
        Some(ArtifactSetKey::BraveHeart)
    } else if equals(v, "勇士的期许") {
        Some(ArtifactSetKey::BraveHeart)
    } else if equals(v, "勇士的坚毅") {
        Some(ArtifactSetKey::BraveHeart)
    } else if equals(v, "勇士的壮行") {
        Some(ArtifactSetKey::BraveHeart)
    } else if equals(v, "勇士的冠冕") {
        Some(ArtifactSetKey::BraveHeart)
    } else if equals(v, "守护之花") {
        Some(ArtifactSetKey::DefenderWill)
    } else if equals(v, "守护徽印") {
        Some(ArtifactSetKey::DefenderWill)
    } else if equals(v, "守护座钟") {
        Some(ArtifactSetKey::DefenderWill)
    } else if equals(v, "守护之皿") {
        Some(ArtifactSetKey::DefenderWill)
    } else if equals(v, "守护束带") {
        Some(ArtifactSetKey::DefenderWill)
    } else if equals(v, "流放者之花") {
        Some(ArtifactSetKey::Exile)
    } else if equals(v, "流放者之羽") {
        Some(ArtifactSetKey::Exile)
    } else if equals(v, "流放者怀表") {
        Some(ArtifactSetKey::Exile)
    } else if equals(v, "流放者之杯") {
        Some(ArtifactSetKey::Exile)
    } else if equals(v, "流放者头冠") {
        Some(ArtifactSetKey::Exile)
    } else if equals(v, "赌徒的胸花") {
        Some(ArtifactSetKey::Gambler)
    } else if equals(v, "赌徒的羽饰") {
        Some(ArtifactSetKey::Gambler)
    } else if equals(v, "赌徒的怀表") {
        Some(ArtifactSetKey::Gambler)
    } else if equals(v, "赌徒的骰盅") {
        Some(ArtifactSetKey::Gambler)
    } else if equals(v, "赌徒的耳环") {
        Some(ArtifactSetKey::Gambler)
    } else if equals(v, "教官的胸花") {
        Some(ArtifactSetKey::Instructor)
    } else if equals(v, "教官的羽饰") {
        Some(ArtifactSetKey::Instructor)
    } else if equals(v, "教官的怀表") {
        Some(ArtifactSetKey::Instructor)
    } else if equals(v, "教官的茶杯") {
        Some(ArtifactSetKey::Instructor)
    } else if equals(v, "教官的帽子") {
        Some(ArtifactSetKey::Instructor)
    } else if equals(v, "武人的红花") {
        Some(ArtifactSetKey::MartialArtist)
    } else if equals(v, "武人的羽饰") {
        Some(ArtifactSetKey::MartialArtist)
    } else if equals(v, "武人的水漏") {
        Some(ArtifactSetKey::MartialArtist)
    } else if equals(v, "武人的酒杯") {
        Some(ArtifactSetKey::MartialArtist)
    } else if equals(v, "武人的头巾") {
        Some(ArtifactSetKey::MartialArtist)
    } else if equals(v, "祭水礼冠") {
        Some(ArtifactSetKey::PrayersForDestiny)
    } else if equals(v, "祭火礼冠") {
        Some(ArtifactSetKey::PrayersForIllumination)
    } else if equals(v, "祭雷礼冠") {
        Some(ArtifactSetKey::PrayersForWisdom)
    } else if equals(v, "祭冰礼冠") {
        Some(ArtifactSetKey::PrayersToSpringtime)
    } else if equals(v, "故人之心") {
        Some(ArtifactSetKey::ResolutionOfSojourner)
    } else if equals(v, "归乡之羽") {
        Some(ArtifactSetKey::ResolutionOfSojourner)
    } else if equals(v, "逐光之石") {
        Some(ArtifactSetKey::ResolutionOfSojourner)
    } else if equals(v, "异国之盏") {
        Some(ArtifactSetKey::ResolutionOfSojourner)
    } else if equals(v, "感别之冠") {
        Some(ArtifactSetKey::ResolutionOfSojourner)
    } else if equals(v, "学士的书签") {
        Some(ArtifactSetKey::Scholar)
    } else if equals(v, "学士的羽笔") {
        Some(ArtifactSetKey::Scholar)
    } else if equals(v, "学士的时钟") {
        Some(ArtifactSetKey::Scholar)
    } else if equals(v, "学士的墨杯") {
        Some(ArtifactSetKey::Scholar)
    } else if equals(v, "学士的镜片") {
        Some(ArtifactSetKey::Scholar)
    } else if equals(v, "奇迹之花") {
        Some(ArtifactSetKey::TinyMiracle)
    } else if equals(v, "奇迹之羽") {
        Some(ArtifactSetKey::TinyMiracle)
    } else if equals(v, "奇迹之沙") {
        Some(ArtifactSetKey::TinyMiracle)
    } else if equals(v, "奇迹之杯") {
        Some(ArtifactSetKey::TinyMiracle)
    } else if equals(v, "奇迹耳坠") {
        Some(ArtifactSetKey::TinyMiracle)
    } else if equals(v, "冒险家之花") {
        Some(ArtifactSetKey::Adventurer)
    } else if equals(v, "冒险家尾羽") {
        Some(ArtifactSetKey::Adventurer)
    } else if equals(v, "冒险家怀表") {
        Some(ArtifactSetKey::Adventurer)
    } else if equals(v, "冒险家金杯") {
        Some(ArtifactSetKey::Adventurer)
    } else if equals(v, "冒险家头带") {
        Some(ArtifactSetKey::Adventurer)
    } else if equals(v, "幸运儿绿花") {
        Some(ArtifactSetKey::LuckyDog)
    } else if equals(v, "幸运儿鹰羽") {
        Some(ArtifactSetKey::LuckyDog)
    } else if equals(v, "幸运儿沙漏") {
        Some(ArtifactSetKey::LuckyDog)
    } else if equals(v, "幸运儿之杯") {
        Some(ArtifactSetKey::LuckyDog)
    } else if equals(v, "幸运儿银冠") {
        Some(ArtifactSetKey::LuckyDog)
    } else if equals(v, "游医的银莲") {
        Some(ArtifactSetKey::TravelingDoctor)
    } else if equals(v, "游医的枭羽") {
        Some(ArtifactSetKey::TravelingDoctor)
    } else if equals(v, "游医的怀钟") {
        Some(ArtifactSetKey::TravelingDoctor)
    } else if equals(v, "游医的药壶") {
        Some(ArtifactSetKey::TravelingDoctor)
    } else if equals(v, "游医的方巾") {
        Some(ArtifactSetKey::TravelingDoctor)
    } else if equals(v, "勋绩之花") {
        Some(ArtifactSetKey::TenacityOfTheMillelith)
    } else if equals(v, "昭武翎羽") {
        Some(ArtifactSetKey::TenacityOfTheMillelith)
    } else if equals(v, "金铜时晷") {
        Some(ArtifactSetKey::TenacityOfTheMillelith)
    } else if equals(v, "盟誓金爵") {
        Some(ArtifactSetKey::TenacityOfTheMillelith)
    } else if equals(v, "将帅兜鍪") {
        Some(ArtifactSetKey::TenacityOfTheMillelith)
    } else if equals(v, "无垢之花") {
        Some(ArtifactSetKey::PaleFlame)
    } else if equals(v, "贤医之羽") {
        Some(ArtifactSetKey::PaleFlame)
    } else if equals(v, "停摆之刻") {
        Some(ArtifactSetKey::PaleFlame)
    } else if equals(v, "超越之盏") {
        Some(ArtifactSetKey::PaleFlame)
    } else if equals(v, "嗤笑之面") {
        Some(ArtifactSetKey::PaleFlame)
    } else if equals(v, "明威之镡") {
        Some(ArtifactSetKey::EmblemOfSeveredFate)
    } else if equals(v, "切落之羽") {
        Some(ArtifactSetKey::EmblemOfSeveredFate)
    } else if equals(v, "雷云之笼") {
        Some(ArtifactSetKey::EmblemOfSeveredFate)
    } else if equals(v, "绯花之壶") {
        Some(ArtifactSetKey::EmblemOfSeveredFate)
    } else if equals(v, "华饰之兜") {
        Some(ArtifactSetKey::EmblemOfSeveredFate)
    } else if equals(v, "羁缠之花") {
        Some(ArtifactSetKey::ShimenawasReminiscence)
    } else if equals(v, "思忆之矢") {
        Some(ArtifactSetKey::ShimenawasReminiscence)
    } else if equals(v, "朝露之时") {
        Some(ArtifactSetKey::ShimenawasReminiscence)
    } else if equals(v, "祈望之心") {
        Some(ArtifactSetKey::ShimenawasReminiscence)
    } else if equals(v, "无常之面") {
        Some(ArtifactSetKey::ShimenawasReminiscence)
    } else if equals(v, "荣花之期") {
        Some(ArtifactSetKey::HuskOfOpulentDreams)
    } else if equals(v, "华馆之羽") {
        Some(ArtifactSetKey::HuskOfOpulentDreams)
    } else if equals(v, "众生之谣") {
        Some(ArtifactSetKey::HuskOfOpulentDreams)
    } else if equals(v, "梦醒之瓢") {
        Some(ArtifactSetKey::HuskOfOpulentDreams)
    } else if equals(v, "形骸之笠") {
        Some(ArtifactSetKey::HuskOfOpulentDreams)
    } else if equals(v, "海染之花") {
        Some(ArtifactSetKey::OceanHuedClam)
    } else if equals(v, "渊宫之羽") {
        Some(ArtifactSetKey::OceanHuedClam)
    } else if equals(v, "离别之贝") {
        Some(ArtifactSetKey::OceanHuedClam)
    } else if equals(v, "真珠之笼") {
        Some(ArtifactSetKey::OceanHuedClam)
    } else if equals(v, "海祇之冠") {
        Some(ArtifactSetKey::OceanHuedClam)
    } else {
        None
    }
}

/// The slot named by an item's title.
pub open spec fn slot_key_table(s: Seq<char>) -> Option<ArtifactSlotKey> {
    if s == "磐陀裂生之花"@ {
        Some(ArtifactSlotKey::Flower)
    } else if s == "嵯峨群峰之翼"@ {
        Some(ArtifactSlotKey::Plume)
    } else if s == "星罗圭壁之晷"@ {
        Some(ArtifactSlotKey::Sands)
    } else if s == "星罗圭璧之晷"@ {
        Some(ArtifactSlotKey::Sands)
    } else if s == "巉岩琢塑之樽"@ {
        Some(ArtifactSlotKey::Goblet)
    } else if s == "不动玄石之相"@ {
        Some(ArtifactSlotKey::Circlet)
    } else if s == "历经风雪的思念"@ {
        Some(ArtifactSlotKey::Flower)
    } else if s == "摧冰而行的执望"@ {
        Some(ArtifactSlotKey::Plume)
    } else if s == "冰雪故园的终期"@ {
        Some(ArtifactSlotKey::Sands)
    } else if s == "遍结寒霜的傲骨"@ {
        Some(ArtifactSlotKey::Goblet)
    } else if s == "破冰踏雪的回音"@ {
        Some(ArtifactSlotKey::Circlet)
    } else if s == "染血的铁之心"@ {
        Some(ArtifactSlotKey::Flower)
    } else if s == "染血的黑之羽"@ {
        Some(ArtifactSlotKey::Plume)
    } else if s == "骑士染血之时"@ {
        Some(ArtifactSlotKey::Sands)
    } else if s == "染血骑士之杯"@ {
        Some(ArtifactSlotKey::Goblet)
    } else if s == "染血的铁假面"@ {
        Some(ArtifactSlotKey::Circlet)
    } else if s == "魔女的炎之花"@ {
        Some(ArtifactSlotKey::Flower)
    } else if s == "魔女常燃之羽"@ {
        Some(ArtifactSlotKey::Plume)
    } else if s == "魔女破灭之时"@ {
        Some(ArtifactSlotKey::Sands)
    } else if s == "魔女的心之火"@ {
        Some(ArtifactSlotKey::Goblet)
    } else if s == "焦灼的魔女帽"@ {
        Some(ArtifactSlotKey::Circlet)
    } else if s == "角斗士的留恋"@ {
        Some(ArtifactSlotKey::Flower)
    } else if s == "角斗士的归宿"@ {
        Some(ArtifactSlotKey::Plume)
    } else if s == "角斗士的希冀"@ {
        Some(ArtifactSlotKey::Sands)
    } else if s == "角斗士的酣醉"@ {
        Some(ArtifactSlotKey::Goblet)
    } else if s == "角斗士的凯旋"@ {
        Some(ArtifactSlotKey::Circlet)
    } else if s == "饰金胸花"@ {
        Some(ArtifactSlotKey::Flower)
    } else if s == "追忆之风"@ {
        Some(ArtifactSlotKey::Plume)
    } else if s == "坚铜罗盘"@ {
        Some(ArtifactSlotKey::Sands)
    } else if s == "沉波之盏"@ {
        Some(ArtifactSlotKey::Goblet)
    } else if s == "酒渍船帽"@ {
        Some(ArtifactSlotKey::Circlet)
    } else if s == "渡火者的决绝"@ {
        Some(ArtifactSlotKey::Flower)
    } else if s == "渡火者的解脱"@ {
        Some(ArtifactSlotKey::Plume)
    } else if s == "渡火者的煎熬"@ {
        Some(ArtifactSlotKey::Sands)
    } else if s == "渡火者的醒悟"@ {
        Some(ArtifactSlotKey::Goblet)
    } else if s == "渡火者的智慧"@ {
        Some(ArtifactSlotKey::Circlet)
    } else if s == "远方的少女之心"@ {
        Some(ArtifactSlotKey::Flower)
    } else if s == "少女飘摇的思念"@ {
        Some(ArtifactSlotKey::Plume)
    } else if s == "少女苦短的良辰"@ {
        Some(ArtifactSlotKey::Sands)
    } else if s == "少女片刻的闲暇"@ {
        Some(ArtifactSlotKey::Goblet)
    } else if s == "少女易逝的芳颜"@ {
        Some(ArtifactSlotKey::Circlet)
    } else if s == "宗室之花"@ {
        Some(ArtifactSlotKey::Flower)
    } else if s == "宗室之翎"@ {
        Some(ArtifactSlotKey::Plume)
    } else if s == "宗室时计"@ {
        Some(ArtifactSlotKey::Sands)
    } else if s == "宗室银瓮"@ {
        Some(ArtifactSlotKey::Goblet)
    } else if s == "宗室面具"@ {
        Some(ArtifactSlotKey::Circlet)
    } else if s == "夏祭之花"@ {
        Some(ArtifactSlotKey::Flower)
    } else if s == "夏祭终末"@ {
        Some(ArtifactSlotKey::Plume)
    } else if s == "夏祭之刻"@ {
        Some(ArtifactSlotKey::Sands)
    } else if s == "夏祭水玉"@ {
        Some(ArtifactSlotKey::Goblet)
    } else if s == "夏祭之面"@ {
        Some(ArtifactSlotKey::Circlet)
    } else if s == "平雷之心"@ {
        Some(ArtifactSlotKey::Flower)
    } else if s == "平雷之羽"@ {
        Some(ArtifactSlotKey::Plume)
    } else if s == "平雷之刻"@ {
        Some(ArtifactSlotKey::Sands)
    } else if s == "平雷之器"@ {
        Some(ArtifactSlotKey::Goblet)
    } else if s == "平雷之冠"@ {
        Some(ArtifactSlotKey::Circlet)
    } else if s == "雷鸟的怜悯"@ {
        Some(ArtifactSlotKey::Flower)
    } else if s == "雷灾的孑遗"@ {
        Some(ArtifactSlotKey::Plume)
    } else if s == "雷霆的时计"@ {
        Some(ArtifactSlotKey::Sands)
    } else if s == "降雷的凶兆"@ {
        Some(ArtifactSlotKey::Goblet)
    } else if s == "唤雷的头冠"@ {
        Some(ArtifactSlotKey::Circlet)
    } else if s == "野花记忆的绿野"@ {
        Some(ArtifactSlotKey::Flower)
    } else if s == "猎人青翠的箭羽"@ {
        Some(ArtifactSlotKey::Plume)
    } else if s == "翠绿猎人的笃定"@ {
        Some(ArtifactSlotKey::Sands)
    } else if s == "翠绿猎人的容器"@ {
        Some(ArtifactSlotKey::Goblet)
    } else if s == "翠绿的猎人之冠"@ {
        Some(ArtifactSlotKey::Circlet)
    } else if s == "乐团的晨光"@ {
        Some(ArtifactSlotKey::Flower)
    } else if s == "琴师的箭羽"@ {
        Some(ArtifactSlotKey::Plume)
    } else if s == "终幕的时计"@ {
        Some(ArtifactSlotKey::Sands)
    } else if s == "终末的时计"@ {
        Some(ArtifactSlotKey::Sands)
    } else if s == "吟游者之壶"@ {
        Some(ArtifactSlotKey::Goblet)
    } else if s == "指挥的礼帽"@ {
        Some(ArtifactSlotKey::Circlet)
    } else if s == "战狂的蔷薇"@ {
        Some(ArtifactSlotKey::Flower)
    } else if s == "战狂的翎羽"@ {
        Some(ArtifactSlotKey::Plume)
    } else if s == "战狂的时计"@ {
        Some(ArtifactSlotKey::Sands)
    } else if s == "战狂的骨杯"@ {
        Some(ArtifactSlotKey::Goblet)
    } else if s == "战狂的鬼面"@ {
        Some(ArtifactSlotKey::Circlet)
    } else if s == "勇士的勋章"@ {
        Some(ArtifactSlotKey::Flower)
    } else if s == "勇士的期许"@ {
        Some(ArtifactSlotKey::Plume)
    } else if s == "勇士的坚毅"@ {
        Some(ArtifactSlotKey::Sands)
    } else if s == "勇士的壮行"@ {
        Some(ArtifactSlotKey::Goblet)
    } else if s == "勇士的冠冕"@ {
        Some(ArtifactSlotKey::Circlet)
    } else if s == "守护之花"@ {
        Some(ArtifactSlotKey::Flower)
    } else if s == "守护徽印"@ {
        Some(ArtifactSlotKey::Plume)
    } else if s == "守护座钟"@ {
        Some(ArtifactSlotKey::Sands)
    } else if s == "守护之皿"@ {
        Some(ArtifactSlotKey::Goblet)
    } else if s == "守护束带"@ {
        Some(ArtifactSlotKey::Circlet)
    } else if s == "流放者之花"@ {
        Some(ArtifactSlotKey::Flower)
    } else if s == "流放者之羽"@ {
        Some(ArtifactSlotKey::Plume)
    } else if s == "流放者怀表"@ {
        Some(ArtifactSlotKey::Sands)
    } else if s == "流放者之杯"@ {
        Some(ArtifactSlotKey::Goblet)
    } else if s == "流放者头冠"@ {
        Some(ArtifactSlotKey::Circlet)
    } else if s == "赌徒的胸花"@ {
        Some(ArtifactSlotKey::Flower)
    } else if s == "赌徒的羽饰"@ {
        Some(ArtifactSlotKey::Plume)
    } else if s == "赌徒的怀表"@ {
        Some(ArtifactSlotKey::Sands)
    } else if s == "赌徒的骰盅"@ {
        Some(ArtifactSlotKey::Goblet)
    } else if s == "赌徒的耳环"@ {
        Some(ArtifactSlotKey::Circlet)
    } else if s == "教官的胸花"@ {
        Some(ArtifactSlotKey::Flower)
    } else if s == "教官的羽饰"@ {
        Some(ArtifactSlotKey::Plume)
    } else if s == "教官的怀表"@ {
        Some(ArtifactSlotKey::Sands)
    } else if s == "教官的茶杯"@ {
        Some(ArtifactSlotKey::Goblet)
    } else if s == "教官的帽子"@ {
        Some(ArtifactSlotKey::Circlet)
    } else if s == "武人的红花"@ {
        Some(ArtifactSlotKey::Flower)
    } else if s == "武人的羽饰"@ {
        Some(ArtifactSlotKey::Plume)
    } else if s == "武人的水漏"@ {
        Some(ArtifactSlotKey::Sands)
    } else if s == "武人的酒杯"@ {
        Some(ArtifactSlotKey::Goblet)
    } else if s == "武人的头巾"@ {
        Some(ArtifactSlotKey::Circlet)
    } else if s == "祭水礼冠"@ {
        Some(ArtifactSlotKey::Circlet)
    } else if s == "祭火礼冠"@ {
        Some(ArtifactSlotKey::Circlet)
    } else if s == "祭雷礼冠"@ {
        Some(ArtifactSlotKey::Circlet)
    } else if s == "祭冰礼冠"@ {
        Some(ArtifactSlotKey::Circlet)
    } else if s == "故人之心"@ {
        Some(ArtifactSlotKey::Flower)
    } else if s == "归乡之羽"@ {
        Some(ArtifactSlotKey::Plume)
    } else if s == "逐光之石"@ {
        Some(ArtifactSlotKey::Sands)
    } else if s == "异国之盏"@ {
        Some(ArtifactSlotKey::Goblet)
    } else if s == "感别之冠"@ {
        Some(ArtifactSlotKey::Circlet)
    } else if s == "学士的书签"@ {
        Some(ArtifactSlotKey::Flower)
    } else if s == "学士的羽笔"@ {
        Some(ArtifactSlotKey::Plume)
    } else if s == "学士的时钟"@ {
        Some(ArtifactSlotKey::Sands)
    } else if s == "学士的墨杯"@ {
        Some(ArtifactSlotKey::Goblet)
    } else if s == "学士的镜片"@ {
        Some(ArtifactSlotKey::Circlet)
    } else if s == "奇迹之花"@ {
        Some(ArtifactSlotKey::Flower)
    } else if s == "奇迹之羽"@ {
        Some(ArtifactSlotKey::Plume)
    } else if s == "奇迹之沙"@ {
        Some(ArtifactSlotKey::Sands)
    } else if s == "奇迹之杯"@ {
        Some(ArtifactSlotKey::Goblet)
    } else if s == "奇迹耳坠"@ {
        Some(ArtifactSlotKey::Circlet)
    } else if s == "冒险家之花"@ {
        Some(ArtifactSlotKey::Flower)
    } else if s == "冒险家尾羽"@ {
        Some(ArtifactSlotKey::Plume)
    } else if s == "冒险家怀表"@ {
        Some(ArtifactSlotKey::Sands)
    } else if s == "冒险家金杯"@ {
        Some(ArtifactSlotKey::Goblet)
    } else if s == "冒险家头带"@ {
        Some(ArtifactSlotKey::Circlet)
    } else if s == "幸运儿绿花"@ {
        Some(ArtifactSlotKey::Flower)
    } else if s == "幸运儿鹰羽"@ {
        Some(ArtifactSlotKey::Plume)
    } else if s == "幸运儿沙漏"@ {
        Some(ArtifactSlotKey::Sands)
    } else if s == "幸运儿之杯"@ {
        Some(ArtifactSlotKey::Goblet)
    } else if s == "幸运儿银冠"@ {
        Some(ArtifactSlotKey::Circlet)
    } else if s == "游医的银莲"@ {
        Some(ArtifactSlotKey::Flower)
    } else if s == "游医的枭羽"@ {
        Some(ArtifactSlotKey::Plume)
    } else if s == "游医的怀钟"@ {
        Some(ArtifactSlotKey::Sands)
    } else if s == "游医的药壶"@ {
        Some(ArtifactSlotKey::Goblet)
    } else if s == "游医的方巾"@ {
        Some(ArtifactSlotKey::Circlet)
    } else if s == "勋绩之花"@ {
        Some(ArtifactSlotKey::Flower)
    } else if s == "昭武翎羽"@ {
        Some(ArtifactSlotKey::Plume)
    } else if s == "金铜时晷"@ {
        Some(ArtifactSlotKey::Sands)
    } else if s == "盟誓金爵"@ {
        Some(ArtifactSlotKey::Goblet)
    } else if s == "将帅兜鍪"@ {
        Some(ArtifactSlotKey::Circlet)
    } else if s == "无垢之花"@ {
        Some(ArtifactSlotKey::Flower)
    } else if s == "贤医之羽"@ {
        Some(ArtifactSlotKey::Plume)
    } else if s == "停摆之刻"@ {
        Some(ArtifactSlotKey::Sands)
    } else if s == "超越之盏"@ {
        Some(ArtifactSlotKey::Goblet)
    } else if s == "嗤笑之面"@ {
        Some(ArtifactSlotKey::Circlet)
    } else if s == "明威之镡"@ {
        Some(ArtifactSlotKey::Flower)
    } else if s == "切落之羽"@ {
        Some(ArtifactSlotKey::Plume)
    } else if s == "雷云之笼"@ {
        Some(ArtifactSlotKey::Sands)
    } else if s == "绯花之壶"@ {
        Some(ArtifactSlotKey::Goblet)
    } else if s == "华饰之兜"@ {
        Some(ArtifactSlotKey::Circlet)
    } else if s == "羁缠之花"@ {
        Some(ArtifactSlotKey::Flower)
    } else if s == "思忆之矢"@ {
        Some(ArtifactSlotKey::Plume)
    } else if s == "朝露之时"@ {
        Some(ArtifactSlotKey::Sands)
    } else if s == "祈望之心"@ {
        Some(ArtifactSlotKey::Goblet)
    } else if s == "无常之面"@ {
        Some(ArtifactSlotKey::Circlet)
    } else if s == "荣花之期"@ {
        Some(ArtifactSlotKey::Flower)
    } else if s == "华馆之羽"@ {
        Some(ArtifactSlotKey::Plume)
    } else if s == "众生之谣"@ {
        Some(ArtifactSlotKey::Sands)
    } else if s == "梦醒之瓢"@ {
        Some(ArtifactSlotKey::Goblet)
    } else if s == "形骸之笠"@ {
        Some(ArtifactSlotKey::Circlet)
    } else if s == "海染之花"@ {
        Some(ArtifactSlotKey::Flower)
    } else if s == "渊宫之羽"@ {
        Some(ArtifactSlotKey::Plume)
    } else if s == "离别之贝"@ {
        Some(ArtifactSlotKey::Sands)
    } else if s == "真珠之笼"@ {
        Some(ArtifactSlotKey::Goblet)
    } else if s == "海祇之冠"@ {
        Some(ArtifactSlotKey::Circlet)
    } else if s == "生灵之华"@ {
        Some(ArtifactSlotKey::Flower)
    } else if s == "阳辔之遗"@ {
        Some(ArtifactSlotKey::Sands)
    } else if s == "潜光片羽"@ {
        Some(ArtifactSlotKey::Plume)
    } else if s == "结契之刻"@ {
        Some(ArtifactSlotKey::Goblet)
    } else if s == "虺雷之姿"@ {
        Some(ArtifactSlotKey::Circlet)
    } else if s == "魂香之花"@ {
        Some(ArtifactSlotKey::Flower)
    } else if s == "祝祀之凭"@ {
        Some(ArtifactSlotKey::Sands)
    } else if s == "垂玉之叶"@ {
        Some(ArtifactSlotKey::Plume)
    } else if s == "涌泉之盏"@ {
        Some(ArtifactSlotKey::Goblet)
    } else if s == "浮溯之珏"@ {
        Some(ArtifactSlotKey::Circlet)
    } else if s == "迷宫的游人"@ {
        Some(ArtifactSlotKey::Flower)
    } else if s == "翠蔓的智者"@ {
        Some(ArtifactSlotKey::Plume)
    } else if s == "贤智的定期"@ {
        Some(ArtifactSlotKey::Sands)
    } else if s == "迷误者之灯"@ {
        Some(ArtifactSlotKey::Goblet)
    } else if s == "月桂的宝冠"@ {
        Some(ArtifactSlotKey::Circlet)
    } else if s == "梦中的铁花"@ {
        Some(ArtifactSlotKey::Flower)
    } else if s == "裁断的翎羽"@ {
        Some(ArtifactSlotKey::Plume)
    } else if s == "沉金的岁月"@ {
        Some(ArtifactSlotKey::Sands)
    } else if s == "如蜜的终宴"@ {
        Some(ArtifactSlotKey::Goblet)
    } else if s == "沙王的投影"@ {
        Some(ArtifactSlotKey::Circlet)
    } else if s == "流沙贵嗣的遗宝"@ {
        Some(ArtifactSlotKey::Circlet)
    } else if s == "黄金邦国的结末"@ {
        Some(ArtifactSlotKey::Plume)
    } else if s == "众王之都的开端"@ {
        Some(ArtifactSlotKey::Flower)
    } else if s == "失落迷途的机芯"@ {
        Some(ArtifactSlotKey::Sands)
    } else if s == "迷醉长梦的守护"@ {
        Some(ArtifactSlotKey::Goblet)
    } else if s == "紫晶的花冠"@ {
        Some(ArtifactSlotKey::Circlet)
    } else if s == "谢落的筵席"@ {
        Some(ArtifactSlotKey::Plume)
    } else if s == "月女的华彩"@ {
        Some(ArtifactSlotKey::Flower)
    } else if s == "凝结的时刻"@ {
        Some(ArtifactSlotKey::Sands)
    } else if s == "守秘的魔瓶"@ {
        Some(ArtifactSlotKey::Goblet)
    } else if s == "旅途中的鲜花"@ {
        Some(ArtifactSlotKey::Flower)
    } else if s == "坏巫师的羽杖"@ {
        Some(ArtifactSlotKey::Plume)
    } else if s == "水仙的时时刻刻"@ {
        Some(ArtifactSlotKey::Sands)
    } else if s == "勇者们的茶会"@ {
        Some(ArtifactSlotKey::Goblet)
    } else if s == "恶龙的单片镜"@ {
        Some(ArtifactSlotKey::Circlet)
    } else if s == "灵光源起之蕊"@ {
        Some(ArtifactSlotKey::Flower)
    } else if s == "琦色灵彩之羽"@ {
        Some(ArtifactSlotKey::Plume)
    } else if s == "久远花落之时"@ {
        Some(ArtifactSlotKey::Sands)
    } else if s == "无边酣乐之筵"@ {
        Some(ArtifactSlotKey::Goblet)
    } else if s == "灵光明烁之心"@ {
        Some(ArtifactSlotKey::Circlet)
    } else if s == "猎人的胸花"@ {
        Some(ArtifactSlotKey::Flower)
    } else if s == "杰作的序曲"@ {
        Some(ArtifactSlotKey::Plume)
    } else if s == "裁判的时刻"@ {
        Some(ArtifactSlotKey::Sands)
    } else if s == "遗忘的容器"@ {
        Some(ArtifactSlotKey::Goblet)
    } else if s == "老兵的容颜"@ {
        Some(ArtifactSlotKey::Circlet)
    } else if s == "黄金乐曲的变奏"@ {
        Some(ArtifactSlotKey::Flower)
    } else if s == "黄金飞鸟的落羽"@ {
        Some(ArtifactSlotKey::Plume)
    } else if s == "黄金时代的先声"@ {
        Some(ArtifactSlotKey::Sands)
    } else if s == "黄金之夜的喧嚣"@ {
        Some(ArtifactSlotKey::Goblet)
    } else if s == "黄金剧团的奖赏"@ {
        Some(ArtifactSlotKey::Circlet)
    } else if s == "昔时传奏之诗"@ {
        Some(ArtifactSlotKey::Circlet)
    } else if s == "昔时浮想之思"@ {
        Some(ArtifactSlotKey::Plume)
    } else if s == "昔时遗落之誓"@ {
        Some(ArtifactSlotKey::Flower)
    } else if s == "昔时回映之音"@ {
        Some(ArtifactSlotKey::Sands)
    } else if s == "昔时应许之梦"@ {
        Some(ArtifactSlotKey::Goblet)
    } else if s == "慈爱的淑女帽"@ {
        Some(ArtifactSlotKey::Circlet)
    } else if s == "诚恳的蘸水笔"@ {
        Some(ArtifactSlotKey::Plume)
    } else if s == "无私的妆饰花"@ {
        Some(ArtifactSlotKey::Flower)
    } else if s == "忠实的砂时计"@ {
        Some(ArtifactSlotKey::Sands)
    } else if s == "慷慨的墨水瓶"@ {
        Some(ArtifactSlotKey::Goblet)
    } else {
        None
    }
}

#[verifier::rlimit(100)]
fn slot_key_of_chars(v: &Vec<char>) -> (r: Option<ArtifactSlotKey>)
    ensures
        r == slot_key_table(v@),
{
    if equals(v, "磐陀裂生之花") {
        Some(ArtifactSlotKey::Flower)
    } else if equals(v, "嵯峨群峰之翼") {
        Some(ArtifactSlotKey::Plume)
    } else if equals(v, "星罗圭壁之晷") {
        Some(ArtifactSlotKey::Sands)
    } else if equals(v, "星罗圭璧之晷") {
        Some(ArtifactSlotKey::Sands)
    } else if equals(v, "巉岩琢塑之樽") {
        Some(ArtifactSlotKey::Goblet)
    } else if equals(v, "不动玄石之相") {
        Some(ArtifactSlotKey::Circlet)
    } else if equals(v, "历经风雪的思念") {
        Some(ArtifactSlotKey::Flower)
    } else if equals(v, "摧冰而行的执望") {
        Some(ArtifactSlotKey::Plume)
    } else if equals(v, "冰雪故园的终期") {
        Some(ArtifactSlotKey::Sands)
    } else if equals(v, "遍结寒霜的傲骨") {
        Some(ArtifactSlotKey::Goblet)
    } else if equals(v, "破冰踏雪的回音") {
        Some(ArtifactSlotKey::Circlet)
    } else if equals(v, "染血的铁之心") {
        Some(ArtifactSlotKey::Flower)
    } else if equals(v, "染血的黑之羽") {
        Some(ArtifactSlotKey::Plume)
    } else if equals(v, "骑士染血之时") {
        Some(ArtifactSlotKey::Sands)
    } else if equals(v, "染血骑士之杯") {
        Some(ArtifactSlotKey::Goblet)
    } else if equals(v, "染血的铁假面") {
        Some(ArtifactSlotKey::Circlet)
    } else if equals(v, "魔女的炎之花") {
        Some(ArtifactSlotKey::Flower)
    } else if equals(v, "魔女常燃之羽") {
        Some(ArtifactSlotKey::Plume)
    } else if equals(v, "魔女破灭之时") {
        Some(ArtifactSlotKey::Sands)
    } else if equals(v, "魔女的心之火") {
        Some(ArtifactSlotKey::Goblet)
    } else if equals(v, "焦灼的魔女帽") {
        Some(ArtifactSlotKey::Circlet)
    } else if equals(v, "角斗士的留恋") {
        Some(ArtifactSlotKey::Flower)
    } else if equals(v, "角斗士的归宿") {
        Some(ArtifactSlotKey::Plume)
    } else if equals(v, "角斗士的希冀") {
        Some(ArtifactSlotKey::Sands)
    } else if equals(v, "角斗士的酣醉") {
        Some(ArtifactSlotKey::Goblet)
    } else if equals(v, "角斗士的凯旋") {
        Some(ArtifactSlotKey::Circlet)
    } else if equals(v, "饰金胸花") {
        Some(ArtifactSlotKey::Flower)
    } else if equals(v, "追忆之风") {
        Some(ArtifactSlotKey::Plume)
    } else if equals(v, "坚铜罗盘") {
        Some(ArtifactSlotKey::Sands)
    } else if equals(v, "沉波之盏") {
        Some(ArtifactSlotKey::Goblet)
    } else if equals(v, "酒渍船帽") {
        Some(ArtifactSlotKey::Circlet)
    } else if equals(v, "渡火者的决绝") {
        Some(ArtifactSlotKey::Flower)
    } else if equals(v, "渡火者的解脱") {
        Some(ArtifactSlotKey::Plume)
    } else if equals(v, "渡火者的煎熬") {
        Some(ArtifactSlotKey::Sands)
    } else if equals(v, "渡火者的醒悟") {
        Some(ArtifactSlotKey::Goblet)
    } else if equals(v, "渡火者的智慧") {
        Some(ArtifactSlotKey::Circlet)
    } else if equals(v, "远方的少女之心") {
        Some(ArtifactSlotKey::Flower)
    } else if equals(v, "少女飘摇的思念") {
        Some(ArtifactSlotKey::Plume)
    } else if equals(v, "少女苦短的良辰") {
        Some(ArtifactSlotKey::Sands)
    } else if equals(v, "少女片刻的闲暇") {
        Some(ArtifactSlotKey::Goblet)
    } else if equals(v, "少女易逝的芳颜") {
        Some(ArtifactSlotKey::Circlet)
    } else if equals(v, "宗室之花") {
        Some(ArtifactSlotKey::Flower)
    } else if equals(v, "宗室之翎") {
        Some(ArtifactSlotKey::Plume)
    } else if equals(v, "宗室时计") {
        Some(ArtifactSlotKey::Sands)
    } else if equals(v, "宗室银瓮") {
        Some(ArtifactSlotKey::Goblet)
    } else if equals(v, "宗室面具") {
        Some(ArtifactSlotKey::Circlet)
    } else if equals(v, "夏祭之花") {
        Some(ArtifactSlotKey::Flower)
    } else if equals(v, "夏祭终末") {
        Some(ArtifactSlotKey::Plume)
    } else if equals(v, "夏祭之刻") {
        Some(ArtifactSlotKey::Sands)
    } else if equals(v, "夏祭水玉") {
        Some(ArtifactSlotKey::Goblet)
    } else if equals(v, "夏祭之面") {
        Some(ArtifactSlotKey::Circlet)
    } else if equals(v, "平雷之心") {
        Some(ArtifactSlotKey::Flower)
    } else if equals(v, "平雷之羽") {
        Some(ArtifactSlotKey::Plume)
    } else if equals(v, "平雷之刻") {
        Some(ArtifactSlotKey::Sands)
    } else if equals(v, "平雷之器") {
        Some(ArtifactSlotKey::Goblet)
    } else if equals(v, "平雷之冠") {
        Some(ArtifactSlotKey::Circlet)
    } else if equals(v, "雷鸟的怜悯") {
        Some(ArtifactSlotKey::Flower)
    } else if equals(v, "雷灾的孑遗") {
        Some(ArtifactSlotKey::Plume)
    } else if equals(v, "雷霆的时计") {
        Some(ArtifactSlotKey::Sands)
    } else if equals(v, "降雷的凶兆") {
        Some(ArtifactSlotKey::Goblet)
    } else if equals(v, "唤雷的头冠") {
        Some(ArtifactSlotKey::Circlet)
    } else if equals(v, "野花记忆的绿野") {
        Some(ArtifactSlotKey::Flower)
    } else if equals(v, "猎人青翠的箭羽") {
        Some(ArtifactSlotKey::Plume)
    } else if equals(v, "翠绿猎人的笃定") {
        Some(ArtifactSlotKey::Sands)
    } else if equals(v, "翠绿猎人的容器") {
        Some(ArtifactSlotKey::Goblet)
    } else if equals(v, "翠绿的猎人之冠") {
        Some(ArtifactSlotKey::Circlet)
    } else if equals(v, "乐团的晨光") {
        Some(ArtifactSlotKey::Flower)
    } else if equals(v, "琴师的箭羽") {
        Some(ArtifactSlotKey::Plume)
    } else if equals(v, "终幕的时计") {
        Some(ArtifactSlotKey::Sands)
    } else if equals(v, "终末的时计") {
        Some(ArtifactSlotKey::Sands)
    } else if equals(v, "吟游者之壶") {
        Some(ArtifactSlotKey::Goblet)
    } else if equals(v, "指挥的礼帽") {
        Some(ArtifactSlotKey::Circlet)
    } else if equals(v, "战狂的蔷薇") {
        Some(ArtifactSlotKey::Flower)
    } else if equals(v, "战狂的翎羽") {
        Some(ArtifactSlotKey::Plume)
    } else if equals(v, "战狂的时计") {
        Some(ArtifactSlotKey::Sands)
    } else if equals(v, "战狂的骨杯") {
        Some(ArtifactSlotKey::Goblet)
    } else if equals(v, "战狂的鬼面") {
        Some(ArtifactSlotKey::Circlet)
    } else if equals(v, "勇士的勋章") {
        Some(ArtifactSlotKey::Flower)
    } else if equals(v, "勇士的期许") {
        Some(ArtifactSlotKey::Plume)
    } else if equals(v, "勇士的坚毅") {
        Some(ArtifactSlotKey::Sands)
    } else if equals(v, "勇士的壮行") {
        Some(ArtifactSlotKey::Goblet)
    } else if equals(v, "勇士的冠冕") {
        Some(ArtifactSlotKey::Circlet)
    } else if equals(v, "守护之花") {
        Some(ArtifactSlotKey::Flower)
    } else if equals(v, "守护徽印") {
        Some(ArtifactSlotKey::Plume)
    } else if equals(v, "守护座钟") {
        Some(ArtifactSlotKey::Sands)
    } else if equals(v, "守护之皿") {
        Some(ArtifactSlotKey::Goblet)
    } else if equals(v, "守护束带") {
        Some(ArtifactSlotKey::Circlet)
    } else if equals(v, "流放者之花") {
        Some(ArtifactSlotKey::Flower)
    } else if equals(v, "流放者之羽") {
        Some(ArtifactSlotKey::Plume)
    } else if equals(v, "流放者怀表") {
        Some(ArtifactSlotKey::Sands)
    } else if equals(v, "流放者之杯") {
        Some(ArtifactSlotKey::Goblet)
    } else if equals(v, "流放者头冠") {
        Some(ArtifactSlotKey::Circlet)
    } else if equals(v, "赌徒的胸花") {
        Some(ArtifactSlotKey::Flower)
    } else if equals(v, "赌徒的羽饰") {
        Some(ArtifactSlotKey::Plume)
    } else if equals(v, "赌徒的怀表") {
        Some(ArtifactSlotKey::Sands)
    } else if equals(v, "赌徒的骰盅") {
        Some(ArtifactSlotKey::Goblet)
    } else if equals(v, "赌徒的耳环") {
        Some(ArtifactSlotKey::Circlet)
    } else if equals(v, "教官的胸花") {
        Some(ArtifactSlotKey::Flower)
    } else if equals(v, "教官的羽饰") {
        Some(ArtifactSlotKey::Plume)
    } else if equals(v, "教官的怀表") {
        Some(ArtifactSlotKey::Sands)
    } else if equals(v, "教官的茶杯") {
        Some(ArtifactSlotKey::Goblet)
    } else if equals(v, "教官的帽子") {
        Some(ArtifactSlotKey::Circlet)
    } else if equals(v, "武人的红花") {
        Some(ArtifactSlotKey::Flower)
    } else if equals(v, "武人的羽饰") {
        Some(ArtifactSlotKey::Plume)
    } else if equals(v, "武人的水漏") {
        Some(ArtifactSlotKey::Sands)
    } else if equals(v, "武人的酒杯") {
        Some(ArtifactSlotKey::Goblet)
    } else if equals(v, "武人的头巾") {
        Some(ArtifactSlotKey::Circlet)
    } else if equals(v, "祭水礼冠") {
        Some(ArtifactSlotKey::Circlet)
    } else if equals(v, "祭火礼冠") {
        Some(ArtifactSlotKey::Circlet)
    } else if equals(v, "祭雷礼冠") {
        Some(ArtifactSlotKey::Circlet)
    } else if equals(v, "祭冰礼冠") {
        Some(ArtifactSlotKey::Circlet)
    } else if equals(v, "故人之心") {
        Some(ArtifactSlotKey::Flower)
    } else if equals(v, "归乡之羽") {
        Some(ArtifactSlotKey::Plume)
    } else if equals(v, "逐光之石") {
        Some(ArtifactSlotKey::Sands)
    } else if equals(v, "异国之盏") {
        Some(ArtifactSlotKey::Goblet)
    } else if equals(v, "感别之冠") {
        Some(ArtifactSlotKey::Circlet)
    } else if equals(v, "学士的书签") {
        Some(ArtifactSlotKey::Flower)
    } else if equals(v, "学士的羽笔") {
        Some(ArtifactSlotKey::Plume)
    } else if equals(v, "学士的时钟") {
        Some(ArtifactSlotKey::Sands)
    } else if equals(v, "学士的墨杯") {
        Some(ArtifactSlotKey::Goblet)
    } else if equals(v, "学士的镜片") {
        Some(ArtifactSlotKey::Circlet)
    } else if equals(v, "奇迹之花") {
        Some(ArtifactSlotKey::Flower)
    } else if equals(v, "奇迹之羽") {
        Some(ArtifactSlotKey::Plume)
    } else if equals(v, "奇迹之沙") {
        Some(ArtifactSlotKey::Sands)
    } else if equals(v, "奇迹之杯") {
        Some(ArtifactSlotKey::Goblet)
    } else if equals(v, "奇迹耳坠") {
        Some(ArtifactSlotKey::Circlet)
    } else if equals(v, "冒险家之花") {
        Some(ArtifactSlotKey::Flower)
    } else if equals(v, "冒险家尾羽") {
        Some(ArtifactSlotKey::Plume)
    } else if equals(v, "冒险家怀表") {
        Some(ArtifactSlotKey::Sands)
    } else if equals(v, "冒险家金杯") {
        Some(ArtifactSlotKey::Goblet)
    } else if equals(v, "冒险家头带") {
        Some(ArtifactSlotKey::Circlet)
    } else if equals(v, "幸运儿绿花") {
        Some(ArtifactSlotKey::Flower)
    } else if equals(v, "幸运儿鹰羽") {
        Some(ArtifactSlotKey::Plume)
    } else if equals(v, "幸运儿沙漏") {
        Some(ArtifactSlotKey::Sands)
    } else if equals(v, "幸运儿之杯") {
        Some(ArtifactSlotKey::Goblet)
    } else if equals(v, "幸运儿银冠") {
        Some(ArtifactSlotKey::Circlet)
    } else if equals(v, "游医的银莲") {
        Some(ArtifactSlotKey::Flower)
    } else if equals(v, "游医的枭羽") {
        Some(ArtifactSlotKey::Plume)
    } else if equals(v, "游医的怀钟") {
        Some(ArtifactSlotKey::Sands)
    } else if equals(v, "游医的药壶") {
        Some(ArtifactSlotKey::Goblet)
    } else if equals(v, "游医的方巾") {
        Some(ArtifactSlotKey::Circlet)
    } else if equals(v, "勋绩之花") {
        Some(ArtifactSlotKey::Flower)
    } else if equals(v, "昭武翎羽") {
        Some(ArtifactSlotKey::Plume)
    } else if equals(v, "金铜时晷") {
        Some(ArtifactSlotKey::Sands)
    } else if equals(v, "盟誓金爵") {
        Some(ArtifactSlotKey::Goblet)
    } else if equals(v, "将帅兜鍪") {
        Some(ArtifactSlotKey::Circlet)
    } else if equals(v, "无垢之花") {
        Some(ArtifactSlotKey::Flower)
    } else if equals(v, "贤医之羽") {
        Some(ArtifactSlotKey::Plume)
    } else if equals(v, "停摆之刻") {
        Some(ArtifactSlotKey::Sands)
    } else if equals(v, "超越之盏") {
        Some(ArtifactSlotKey::Goblet)
    } else if equals(v, "嗤笑之面") {
        Some(ArtifactSlotKey::Circlet)
    } else if equals(v, "明威之镡") {
        Some(ArtifactSlotKey::Flower)
    } else if equals(v, "切落之羽") {
        Some(ArtifactSlotKey::Plume)
    } else if equals(v, "雷云之笼") {
        Some(ArtifactSlotKey::Sands)
    } else if equals(v, "绯花之壶") {
        Some(ArtifactSlotKey::Goblet)
    } else if equals(v, "华饰之兜") {
        Some(ArtifactSlotKey::Circlet)
    } else if equals(v, "羁缠之花") {
        Some(ArtifactSlotKey::Flower)
    } else if equals(v, "思忆之矢") {
        Some(ArtifactSlotKey::Plume)
    } else if equals(v, "朝露之时") {
        Some(ArtifactSlotKey::Sands)
    } else if equals(v, "祈望之心") {
        Some(ArtifactSlotKey::Goblet)
    } else if equals(v, "无常之面") {
        Some(ArtifactSlotKey::Circlet)
    } else if equals(v, "荣花之期") {
        Some(ArtifactSlotKey::Flower)
    } else if equals(v, "华馆之羽") {
        Some(ArtifactSlotKey::Plume)
    } else if equals(v, "众生之谣") {
        Some(ArtifactSlotKey::Sands)
    } else if equals(v, "梦醒之瓢") {
        Some(ArtifactSlotKey::Goblet)
    } else if equals(v, "形骸之笠") {
        Some(ArtifactSlotKey::Circlet)
    } else if equals(v, "海染之花") {
        Some(ArtifactSlotKey::Flower)
    } else if equals(v, "渊宫之羽") {
        Some(ArtifactSlotKey::Plume)
    } else if equals(v, "离别之贝") {
        Some(ArtifactSlotKey::Sands)
    } else if equals(v, "真珠之笼") {
        Some(ArtifactSlotKey::Goblet)
    } else if equals(v, "海祇之冠") {
        Some(ArtifactSlotKey::Circlet)
    } else if equals(v, "生灵之华") {
        Some(ArtifactSlotKey::Flower)
    } else if equals(v, "阳辔之遗") {
        Some(ArtifactSlotKey::Sands)
    } else if equals(v, "潜光片羽") {
        Some(ArtifactSlotKey::Plume)
    } else if equals(v, "结契之刻") {
        Some(ArtifactSlotKey::Goblet)
    } else if equals(v, "虺雷之姿") {
        Some(ArtifactSlotKey::Circlet)
    } else if equals(v, "魂香之花") {
        Some(ArtifactSlotKey::Flower)
    } else if equals(v, "祝祀之凭") {
        Some(ArtifactSlotKey::Sands)
    } else if equals(v, "垂玉之叶") {
        Some(ArtifactSlotKey::Plume)
    } else if equals(v, "涌泉之盏") {
        Some(ArtifactSlotKey::Goblet)
    } else if equals(v, "浮溯之珏") {
        Some(ArtifactSlotKey::Circlet)
    } else if equals(v, "迷宫的游人") {
        Some(ArtifactSlotKey::Flower)
    } else if equals(v, "翠蔓的智者") {
        Some(ArtifactSlotKey::Plume)
    } else if equals(v, "贤智的定期") {
        Some(ArtifactSlotKey::Sands)
    } else if equals(v, "迷误者之灯") {
        Some(ArtifactSlotKey::Goblet)
    } else if equals(v, "月桂的宝冠") {
        Some(ArtifactSlotKey::Circlet)
    } else if equals(v, "梦中的铁花") {
        Some(ArtifactSlotKey::Flower)
    } else if equals(v, "裁断的翎羽") {
        Some(ArtifactSlotKey::Plume)
    } else if equals(v, "沉金的岁月") {
        Some(ArtifactSlotKey::Sands)
    } else if equals(v, "如蜜的终宴") {
        Some(ArtifactSlotKey::Goblet)
    } else if equals(v, "沙王的投影") {
        Some(ArtifactSlotKey::Circlet)
    } else if equals(v, "流沙贵嗣的遗宝") {
        Some(ArtifactSlotKey::Circlet)
    } else if equals(v, "黄金邦国的结末") {
        Some(ArtifactSlotKey::Plume)
    } else if equals(v, "众王之都的开端") {
        Some(ArtifactSlotKey::Flower)
    } else if equals(v, "失落迷途的机芯") {
        Some(ArtifactSlotKey::Sands)
    } else if equals(v, "迷醉长梦的守护") {
        Some(ArtifactSlotKey::Goblet)
    } else if equals(v, "紫晶的花冠") {
        Some(ArtifactSlotKey::Circlet)
    } else if equals(v, "谢落的筵席") {
        Some(ArtifactSlotKey::Plume)
    } else if equals(v, "月女的华彩") {
        Some(ArtifactSlotKey::Flower)
    } else if equals(v, "凝结的时刻") {
        Some(ArtifactSlotKey::Sands)
    } else if equals(v, "守秘的魔瓶") {
        Some(ArtifactSlotKey::Goblet)
    } else if equals(v, "旅途中的鲜花") {
        Some(ArtifactSlotKey::Flower)
    } else if equals(v, "坏巫师的羽杖") {
        Some(ArtifactSlotKey::Plume)
    } else if equals(v, "水仙的时时刻刻") {
        Some(ArtifactSlotKey::Sands)
    } else if equals(v, "勇者们的茶会") {
        Some(ArtifactSlotKey::Goblet)
    } else if equals(v, "恶龙的单片镜") {
        Some(ArtifactSlotKey::Circlet)
    } else if equals(v, "灵光源起之蕊") {
        Some(ArtifactSlotKey::Flower)
    } else if equals(v, "琦色灵彩之羽") {
        Some(ArtifactSlotKey::Plume)
    } else if equals(v, "久远花落之时") {
        Some(ArtifactSlotKey::Sands)
    } else if equals(v, "无边酣乐之筵") {
        Some(ArtifactSlotKey::Goblet)
    } else if equals(v, "灵光明烁之心") {
        Some(ArtifactSlotKey::Circlet)
    } else if equals(v, "猎人的胸花") {
        Some(ArtifactSlotKey::Flower)
    } else if equals(v, "杰作的序曲") {
        Some(ArtifactSlotKey::Plume)
    } else if equals(v, "裁判的时刻") {
        Some(ArtifactSlotKey::Sands)
    } else if equals(v, "遗忘的容器") {
        Some(ArtifactSlotKey::Goblet)
    } else if equals(v, "老兵的容颜") {
        Some(ArtifactSlotKey::Circlet)
    } else if equals(v, "黄金乐曲的变奏") {
        Some(ArtifactSlotKey::Flower)
    } else if equals(v, "黄金飞鸟的落羽") {
        Some(ArtifactSlotKey::Plume)
    } else if equals(v, "黄金时代的先声") {
        Some(ArtifactSlotKey::Sands)
    } else if equals(v, "黄金之夜的喧嚣") {
        Some(ArtifactSlotKey::Goblet)
    } else if equals(v, "黄金剧团的奖赏") {
        Some(ArtifactSlotKey::Circlet)
    } else if equals(v, "昔时传奏之诗") {
        Some(ArtifactSlotKey::Circlet)
    } else if equals(v, "昔时浮想之思") {
        Some(ArtifactSlotKey::Plume)
    } else if equals(v, "昔时遗落之誓") {
        Some(ArtifactSlotKey::Flower)
    } else if equals(v, "昔时回映之音") {
        Some(ArtifactSlotKey::Sands)
    } else if equals(v, "昔时应许之梦") {
        Some(ArtifactSlotKey::Goblet)
    } else if equals(v, "慈爱的淑女帽") {
        Some(ArtifactSlotKey::Circlet)
    } else if equals(v, "诚恳的蘸水笔") {
        Some(ArtifactSlotKey::Plume)
    } else if equals(v, "无私的妆饰花") {
        Some(ArtifactSlotKey::Flower)
    } else if equals(v, "忠实的砂时计") {
        Some(ArtifactSlotKey::Sands)
    } else if equals(v, "慷慨的墨水瓶") {
        Some(ArtifactSlotKey::Goblet)
    } else {
        None
    }
}

/// The character with the given display name.
pub open spec fn character_key_table(s: Seq<char>) -> Option<CharacterKey> {
    if s == "神里绫华"@ {
        Some(CharacterKey::KamisatoAyaka)
    } else if s == "琴"@ {
        Some(CharacterKey::Jean)
    } else if s == "旅行者"@ {
        Some(CharacterKey::Traveler)
    } else if s == "丽莎"@ {
        Some(CharacterKey::Lisa)
    } else if s == "芭芭拉"@ {
        Some(CharacterKey::Barbara)
    } else if s == "凯亚"@ {
        Some(CharacterKey::Kaeya)
    } else if s == "迪卢克"@ {
        Some(CharacterKey::Diluc)
    } else if s == "雷泽"@ {
        Some(CharacterKey::Razor)
    } else if s == "安柏"@ {
        Some(CharacterKey::Amber)
    } else if s == "温迪"@ {
        Some(CharacterKey::Venti)
    } else if s == "香菱"@ {
        Some(CharacterKey::Xiangling)
    } else if s == "北斗"@ {
        Some(CharacterKey::Beidou)
    } else if s == "行秋"@ {
        Some(CharacterKey::Xingqiu)
    } else if s == "魈"@ {
        Some(CharacterKey::Xiao)
    } else if s == "凝光"@ {
        Some(CharacterKey::Ningguang)
    } else if s == "可莉"@ {
        Some(CharacterKey::Klee)
    } else if s == "钟离"@ {
        Some(CharacterKey::Zhongli)
    } else if s == "菲谢尔"@ {
        Some(CharacterKey::Fischl)
    } else if s == "班尼特"@ {
        Some(CharacterKey::Bennett)
    } else if s == "达达利亚"@ {
        Some(CharacterKey::Tartaglia)
    } else if s == "诺艾尔"@ {
        Some(CharacterKey::Noelle)
    } else if s == "七七"@ {
        Some(CharacterKey::Qiqi)
    } else if s == "重云"@ {
        Some(CharacterKey::Chongyun)
    } else if s == "甘雨"@ {
        Some(CharacterKey::Ganyu)
    } else if s == "阿贝多"@ {
        Some(CharacterKey::Albedo)
    } else if s == "迪奥娜"@ {
        Some(CharacterKey::Diona)
    } else if s == "莫娜"@ {
        Some(CharacterKey::Mona)
    } else if s == "刻晴"@ {
        Some(CharacterKey::Keqing)
    } else if s == "砂糖"@ {
        Some(CharacterKey::Sucrose)
    } else if s == "辛焱"@ {
        Some(CharacterKey::Xinyan)
    } else if s == "罗莎莉亚"@ {
        Some(CharacterKey::Rosaria)
    } else if s == "胡桃"@ {
        Some(CharacterKey::HuTao)
    } else if s == "枫原万叶"@ {
        Some(CharacterKey::KaedeharaKazuha)
    } else if s == "烟绯"@ {
        Some(CharacterKey::Yanfei)
    } else if s == "宵宫"@ {
        Some(CharacterKey::Yoimiya)
    } else if s == "托马"@ {
        Some(CharacterKey::Thoma)
    } else if s == "优菈"@ {
        Some(CharacterKey::Eula)
    } else if s == "雷电将军"@ {
        Some(CharacterKey::RaidenShogun)
    } else if s == "早柚"@ {
        Some(CharacterKey::Sayu)
    } else if s == "珊瑚宫心海"@ {
        Some(CharacterKey::SangonomiyaKokomi)
    } else if s == "五郎"@ {
        Some(CharacterKey::Gorou)
    } else if s == "九条裟罗"@ {
        Some(CharacterKey::KujouSara)
    } else if s == "荒泷一斗"@ {
        Some(CharacterKey::AratakiItto)
    } else if s == "八重神子"@ {
        Some(CharacterKey::YaeMiko)
    } else if s == "鹿野院平藏"@ {
        Some(CharacterKey::ShikanoinHeizou)
    } else if s == "夜兰"@ {
        Some(CharacterKey::Yelan)
    } else if s == "绮良良"@ {
        Some(CharacterKey::Kirara)
    } else if s == "埃洛伊"@ {
        Some(CharacterKey::Aloy)
    } else if s == "申鹤"@ {
        Some(CharacterKey::Shenhe)
    } else if s == "云堇"@ {
        Some(CharacterKey::YunJin)
    } else if s == "久岐忍"@ {
        Some(CharacterKey::KukiShinobu)
    } else if s == "神里绫人"@ {
        Some(CharacterKey::KamisatoAyato)
    } else if s == "柯莱"@ {
        Some(CharacterKey::Collei)
    } else if s == "多莉"@ {
        Some(CharacterKey::Dori)
    } else if s == "提纳里"@ {
        Some(CharacterKey::Tighnari)
    } else if s == "妮露"@ {
        Some(CharacterKey::Nilou)
    } else if s == "赛诺"@ {
        Some(CharacterKey::Cyno)
    } else if s == "坎蒂丝"@ {
        Some(CharacterKey::Candace)
    } else if s == "纳西妲"@ {
        Some(CharacterKey::Nahida)
    } else if s == "莱依拉"@ {
        Some(CharacterKey::Layla)
    } else if s == "流浪者"@ {
        Some(CharacterKey::Wanderer)
    } else if s == "珐露珊"@ {
        Some(CharacterKey::Faruzan)
    } else if s == "瑶瑶"@ {
        Some(CharacterKey::Yaoyao)
    } else if s == "艾尔海森"@ {
        Some(CharacterKey::Alhaitham)
    } else if s == "迪希雅"@ {
        Some(CharacterKey::Dehya)
    } else if s == "米卡"@ {
        Some(CharacterKey::Mika)
    } else if s == "卡维"@ {
        Some(CharacterKey::Kaveh)
    } else if s == "白术"@ {
        Some(CharacterKey::Baizhu)
    } else if s == "琳妮特"@ {
        Some(CharacterKey::Lynette)
    } else if s == "林尼"@ {
        Some(CharacterKey::Lyney)
    } else if s == "菲米尼"@ {
        Some(CharacterKey::Freminet)
    } else if s == "莱欧斯利"@ {
        Some(CharacterKey::Wriothesley)
    } else if s == "那维莱特"@ {
        Some(CharacterKey::Neuvillette)
    } else if s == "夏洛蒂"@ {
        Some(CharacterKey::Charlotte)
    } else if s == "芙宁娜"@ {
        Some(CharacterKey::Furina)
    } else if s == "娜维娅"@ {
        Some(CharacterKey::Navia)
    } else if s == "闲云"@ {
        Some(CharacterKey::Xianyun)
    } else {
        None
    }
}

#[verifier::rlimit(100)]
fn character_key_of_chars(v: &Vec<char>) -> (r: Option<CharacterKey>)
    ensures
        r == character_key_table(v@),
{
    if equals(v, "神里绫华") {
        Some(CharacterKey::KamisatoAyaka)
    } else if equals(v, "琴") {
        Some(CharacterKey::Jean)
    } else if equals(v, "旅行者") {
        Some(CharacterKey::Traveler)
    } else if equals(v, "丽莎") {
        Some(CharacterKey::Lisa)
    } else if equals(v, "芭芭拉") {
        Some(CharacterKey::Barbara)
    } else if equals(v, "凯亚") {
        Some(CharacterKey::Kaeya)
    } else if equals(v, "迪卢克") {
        Some(CharacterKey::Diluc)
    } else if equals(v, "雷泽") {
        Some(CharacterKey::Razor)
    } else if equals(v, "安柏") {
        Some(CharacterKey::Amber)
    } else if equals(v, "温迪") {
        Some(CharacterKey::Venti)
    } else if equals(v, "香菱") {
        Some(CharacterKey::Xiangling)
    } else if equals(v, "北斗") {
        Some(CharacterKey::Beidou)
    } else if equals(v, "行秋") {
        Some(CharacterKey::Xingqiu)
    } else if equals(v, "魈") {
        Some(CharacterKey::Xiao)
    } else if equals(v, "凝光") {
        Some(CharacterKey::Ningguang)
    } else if equals(v, "可莉") {
        Some(CharacterKey::Klee)
    } else if equals(v, "钟离") {
        Some(CharacterKey::Zhongli)
    } else if equals(v, "菲谢尔") {
        Some(CharacterKey::Fischl)
    } else if equals(v, "班尼特") {
        Some(CharacterKey::Bennett)
    } else if equals(v, "达达利亚") {
        Some(CharacterKey::Tartaglia)
    } else if equals(v, "诺艾尔") {
        Some(CharacterKey::Noelle)
    } else if equals(v, "七七") {
        Some(CharacterKey::Qiqi)
    } else if equals(v, "重云") {
        Some(CharacterKey::Chongyun)
    } else if equals(v, "甘雨") {
        Some(CharacterKey::Ganyu)
    } else if equals(v, "阿贝多") {
        Some(CharacterKey::Albedo)
    } else if equals(v, "迪奥娜") {
        Some(CharacterKey::Diona)
    } else if equals(v, "莫娜") {
        Some(CharacterKey::Mona)
    } else if equals(v, "刻晴") {
        Some(CharacterKey::Keqing)
    } else if equals(v, "砂糖") {
        Some(CharacterKey::Sucrose)
    } else if equals(v, "辛焱") {
        Some(CharacterKey::Xinyan)
    } else if equals(v, "罗莎莉亚") {
        Some(CharacterKey::Rosaria)
    } else if equals(v, "胡桃") {
        Some(CharacterKey::HuTao)
    } else if equals(v, "枫原万叶") {
        Some(CharacterKey::KaedeharaKazuha)
    } else if equals(v, "烟绯") {
        Some(CharacterKey::Yanfei)
    } else if equals(v, "宵宫") {
        Some(CharacterKey::Yoimiya)
    } else if equals(v, "托马") {
        Some(CharacterKey::Thoma)
    } else if equals(v, "优菈") {
        Some(CharacterKey::Eula)
    } else if equals(v, "雷电将军") {
        Some(CharacterKey::RaidenShogun)
    } else if equals(v, "早柚") {
        Some(CharacterKey::Sayu)
    } else if equals(v, "珊瑚宫心海") {
        Some(CharacterKey::SangonomiyaKokomi)
    } else if equals(v, "五郎") {
        Some(CharacterKey::Gorou)
    } else if equals(v, "九条裟罗") {
        Some(CharacterKey::KujouSara)
    } else if equals(v, "荒泷一斗") {
        Some(CharacterKey::AratakiItto)
    } else if equals(v, "八重神子") {
        Some(CharacterKey::YaeMiko)
    } else if equals(v, "鹿野院平藏") {
        Some(CharacterKey::ShikanoinHeizou)
    } else if equals(v, "夜兰") {
        Some(CharacterKey::Yelan)
    } else if equals(v, "绮良良") {
        Some(CharacterKey::Kirara)
    } else if equals(v, "埃洛伊") {
        Some(CharacterKey::Aloy)
    } else if equals(v, "申鹤") {
        Some(CharacterKey::Shenhe)
    } else if equals(v, "云堇") {
        Some(CharacterKey::YunJin)
    } else if equals(v, "久岐忍") {
        Some(CharacterKey::KukiShinobu)
    } else if equals(v, "神里绫人") {
        Some(CharacterKey::KamisatoAyato)
    } else if equals(v, "柯莱") {
        Some(CharacterKey::Collei)
    } else if equals(v, "多莉") {
        Some(CharacterKey::Dori)
    } else if equals(v, "提纳里") {
        Some(CharacterKey::Tighnari)
    } else if equals(v, "妮露") {
        Some(CharacterKey::Nilou)
    } else if equals(v, "赛诺") {
        Some(CharacterKey::Cyno)
    } else if equals(v, "坎蒂丝") {
        Some(CharacterKey::Candace)
    } else if equals(v, "纳西妲") {
        Some(CharacterKey::Nahida)
    } else if equals(v, "莱依拉") {
        Some(CharacterKey::Layla)
    } else if equals(v, "流浪者") {
        Some(CharacterKey::Wanderer)
    } else if equals(v, "珐露珊") {
        Some(CharacterKey::Faruzan)
    } else if equals(v, "瑶瑶") {
        Some(CharacterKey::Yaoyao)
    } else if equals(v, "艾尔海森") {
        Some(CharacterKey::Alhaitham)
    } else if equals(v, "迪希雅") {
        Some(CharacterKey::Dehya)
    } else if equals(v, "米卡") {
        Some(CharacterKey::Mika)
    } else if equals(v, "卡维") {
        Some(CharacterKey::Kaveh)
    } else if equals(v, "白术") {
        Some(CharacterKey::Baizhu)
    } else if equals(v, "琳妮特") {
        Some(CharacterKey::Lynette)
    } else if equals(v, "林尼") {
        Some(CharacterKey::Lyney)
    } else if equals(v, "菲米尼") {
        Some(CharacterKey::Freminet)
    } else if equals(v, "莱欧斯利") {
        Some(CharacterKey::Wriothesley)
    } else if equals(v, "那维莱特") {
        Some(CharacterKey::Neuvillette)
    } else if equals(v, "夏洛蒂") {
        Some(CharacterKey::Charlotte)
    } else if equals(v, "芙宁娜") {
        Some(CharacterKey::Furina)
    } else if equals(v, "娜维娅") {
        Some(CharacterKey::Navia)
    } else if equals(v, "闲云") {
        Some(CharacterKey::Xianyun)
    } else {
        None
    }
}


/// A stat: its kind and its value in thousandths, digits past the third
/// decimal dropped. Two values that agree to three decimals are the same
/// value.
#[derive(Debug, Clone, Copy, PartialEq, Eq, Structural, Hash)]
pub struct ArtifactStat {
    pub key: ArtifactStatKey,
    pub value: u64,
}

/// A recognised item.
#[derive(Debug, Clone, Copy, PartialEq, Eq, Structural, Hash)]
pub struct InternalArtifact {
    pub set_key: ArtifactSetKey,
    pub slot_key: ArtifactSlotKey,
    pub rarity: u32,
    pub level: u32,
    pub lock: bool,
    pub location: Option<CharacterKey>,
    pub main_stat: ArtifactStat,
    pub sub_stat_1: Option<ArtifactStat>,
    pub sub_stat_2: Option<ArtifactStat>,
    pub sub_stat_3: Option<ArtifactStat>,
    pub sub_stat_4: Option<ArtifactStat>,
}

pub open spec fn has_prefix(s: Seq<char>, p: Seq<char>) -> bool {
    p.len() <= s.len() && s.subrange(0, p.len() as int) == p
}

/// The stat named in Chinese; `pct` tells a percentage stat from a flat one.
pub open spec fn stat_key_table(s: Seq<char>, pct: bool) -> Option<ArtifactStatKey> {
    if s == "治疗加成"@ {
        Some(ArtifactStatKey::HealingBonus)
    } else if s == "暴击伤害"@ {
        Some(ArtifactStatKey::CriticalDamage)
    } else if s == "暴击率"@ {
        Some(ArtifactStatKey::Critical)
    } else if s == "攻击力"@ {
        Some(if pct { ArtifactStatKey::AtkPercentage } else { ArtifactStatKey::Atk })
    } else if s == "元素精通"@ {
        Some(ArtifactStatKey::ElementalMastery)
    } else if s == "元素充能效率"@ {
        Some(ArtifactStatKey::Recharge)
    } else if s == "生命值"@ {
        Some(if pct { ArtifactStatKey::HpPercentage } else { ArtifactStatKey::Hp })
    } else if s == "防御力"@ {
        Some(if pct { ArtifactStatKey::DefPercentage } else { ArtifactStatKey::Def })
    } else if s == "雷元素伤害加成"@ {
        Some(ArtifactStatKey::ElectroBonus)
    } else if s == "火元素伤害加成"@ {
        Some(ArtifactStatKey::PyroBonus)
    } else if s == "水元素伤害加成"@ {
        Some(ArtifactStatKey::HydroBonus)
    } else if s == "冰元素伤害加成"@ {
        Some(ArtifactStatKey::CryoBonus)
    } else if s == "风元素伤害加成"@ {
        Some(ArtifactStatKey::AnemoBonus)
    } else if s == "岩元素伤害加成"@ {
        Some(ArtifactStatKey::GeoBonus)
    } else if s == "草元素伤害加成"@ {
        Some(ArtifactStatKey::DendroBonus)
    } else if s == "物理伤害加成"@ {
        Some(ArtifactStatKey::PhysicalBonus)
    } else if has_prefix(s, "雷"@) {
        Some(ArtifactStatKey::ElectroBonus)
    } else if has_prefix(s, "火"@) {
        Some(ArtifactStatKey::PyroBonus)
    } else if has_prefix(s, "水"@) {
        Some(ArtifactStatKey::HydroBonus)
    } else if has_prefix(s, "冰"@) {
        Some(ArtifactStatKey::CryoBonus)
    } else if has_prefix(s, "风"@) {
        Some(ArtifactStatKey::AnemoBonus)
    } else if has_prefix(s, "岩"@) {
        Some(ArtifactStatKey::GeoBonus)
    } else if has_prefix(s, "草"@) {
        Some(ArtifactStatKey::DendroBonus)
    } else if has_prefix(s, "物理"@) {
        Some(ArtifactStatKey::PhysicalBonus)
    } else {
        None
    }
}

fn stat_key_of_chars(v: &Vec<char>, pct: bool) -> (r: Option<ArtifactStatKey>)
    ensures
        r == stat_key_table(v@, pct),
{
    if equals(v, "治疗加成") {
        Some(ArtifactStatKey::HealingBonus)
    } else if equals(v, "暴击伤害") {
        Some(ArtifactStatKey::CriticalDamage)
    } else if equals(v, "暴击率") {
        Some(ArtifactStatKey::Critical)
    } else if equals(v, "攻击力") {
        Some(if pct { ArtifactStatKey::AtkPercentage } else { ArtifactStatKey::Atk })
    } else if equals(v, "元素精通") {
        Some(ArtifactStatKey::ElementalMastery)
    } else if equals(v, "元素充能效率") {
        Some(ArtifactStatKey::Recharge)
    } else if equals(v, "生命值") {
        Some(if pct { ArtifactStatKey::HpPercentage } else { ArtifactStatKey::Hp })
    } else if equals(v, "防御力") {
        Some(if pct { ArtifactStatKey::DefPercentage } else { ArtifactStatKey::Def })
    } else if equals(v, "雷元素伤害加成") {
        Some(ArtifactStatKey::ElectroBonus)
    } else if equals(v, "火元素伤害加成") {
        Some(ArtifactStatKey::PyroBonus)
    } else if equals(v, "水元素伤害加成") {
        Some(ArtifactStatKey::HydroBonus)
    } else if equals(v, "冰元素伤害加成") {
        Some(ArtifactStatKey::CryoBonus)
    } else if equals(v, "风元素伤害加成") {
        Some(ArtifactStatKey::AnemoBonus)
    } else if equals(v, "岩元素伤害加成") {
        Some(ArtifactStatKey::GeoBonus)
    } else if equals(v, "草元素伤害加成") {
        Some(ArtifactStatKey::DendroBonus)
    } else if equals(v, "物理伤害加成") {
        Some(ArtifactStatKey::PhysicalBonus)
    } else if starts_with(v, "雷") {
        Some(ArtifactStatKey::ElectroBonus)
    } else if starts_with(v, "火") {
        Some(ArtifactStatKey::PyroBonus)
    } else if starts_with(v, "水") {
        Some(ArtifactStatKey::HydroBonus)
    } else if starts_with(v, "冰") {
        Some(ArtifactStatKey::CryoBonus)
    } else if starts_with(v, "风") {
        Some(ArtifactStatKey::AnemoBonus)
    } else if starts_with(v, "岩") {
        Some(ArtifactStatKey::GeoBonus)
    } else if starts_with(v, "草") {
        Some(ArtifactStatKey::DendroBonus)
    } else if starts_with(v, "物理") {
        Some(ArtifactStatKey::PhysicalBonus)
    } else {
        None
    }
}

pub open spec fn is_digit(c: char) -> bool {
    '0' <= c && c <= '9'
}

pub open spec fn digit_value(c: char) -> int {
    c as int - '0' as int
}

pub open spec fn all_digits(s: Seq<char>) -> bool {
    forall|i: int| 0 <= i < s.len() ==> is_digit(#[trigger] s[i])
}

/// The number that a string of decimal digits spells.
pub open spec fn digits_value(s: Seq<char>) -> int
    decreases s.len(),
{
    if s.len() == 0 {
        0
    } else {
        digits_value(s.drop_last()) * 10 + digit_value(s.last())
    }
}

pub open spec fn pow10(n: nat) -> int
    decreases n,
{
    if n == 0 {
        1
    } else {
        10 * pow10((n - 1) as nat)
    }
}

/// The first three digits of a fraction, in thousandths.
pub open spec fn frac_milli(f: Seq<char>) -> int {
    (if f.len() > 0 { digit_value(f[0]) * 100 } else { 0 }) + (if f.len() > 1 {
        digit_value(f[1]) * 10
    } else {
        0
    }) + (if f.len() > 2 { digit_value(f[2]) } else { 0 })
}

/// `s[k]` is the one occurrence of `c` in `s`.
pub open spec fn single_at(s: Seq<char>, k: int, c: char) -> bool {
    0 <= k < s.len() && s[k] == c && forall|i: int| 0 <= i < s.len() && i != k ==> #[trigger] s[i] != c
}

/// The value in thousandths of a decimal numeral: at most nine digits before
/// an optional point, any digits after it (those past the third dropped), at
/// least one digit in all.
pub open spec fn milli_of(s: Seq<char>) -> Option<int> {
    if all_digits(s) && 1 <= s.len() <= 9 {
        Some(digits_value(s) * 1000)
    } else if exists|k: int| single_at(s, k, '.') {
        let k = choose|k: int| single_at(s, k, '.');
        let ip = s.subrange(0, k);
        let fp = s.subrange(k + 1, s.len() as int);
        if all_digits(ip) && all_digits(fp) && k <= 9 && s.len() >= 2 {
            Some(digits_value(ip) * 1000 + frac_milli(fp))
        } else {
            None
        }
    } else {
        None
    }
}

pub proof fn lemma_digits_nonneg(s: Seq<char>)
    ensures
        all_digits(s) ==> 0 <= digits_value(s),
    decreases s.len(),
{
    if s.len() > 0 && all_digits(s) {
        lemma_digits_nonneg(s.drop_last());
        assert(is_digit(s[s.len() - 1]));
        assert(all_digits(s.drop_last()));
    }
}

proof fn lemma_digits_bound(s: Seq<char>)
    requires
        all_digits(s),
    ensures
        0 <= digits_value(s) < pow10(s.len()),
    decreases s.len(),
{
    if s.len() > 0 {
        lemma_digits_bound(s.drop_last());
        assert(is_digit(s[s.len() - 1]));
    }
}

/// The one index of `c` in `v`, if `c` occurs exactly once.
fn find_single(v: &Vec<char>, c: char) -> (r: Option<usize>)
    ensures
        r matches Some(k) ==> single_at(v@, k as int, c),
        r is None ==> !exists|k: int| single_at(v@, k, c),
{
    let mut found: Option<usize> = None;
    let mut i: usize = 0;
    while i < v.len()
        invariant
            i <= v@.len(),
            found matches Some(k) ==> k < i && v@[k as int] == c && forall|j: int| 0 <= j < i && j != k ==> v@[j] != c,
            found is None ==> forall|j: int| 0 <= j < i ==> v@[j] != c,
        decreases v@.len() - i,
    {
        if v[i] == c {
            if found.is_some() {
                proof {
                    let k = found->Some_0;
                    assert forall|k2: int| !single_at(v@, k2, c) by {
                        if single_at(v@, k2, c) {
                            if k2 != k as int {
                                assert(v@[k as int] == c);
                            } else {
                                assert(v@[i as int] == c);
                            }
                        }
                    }
                }
                return None;
            }
            found = Some(i);
        }
        i = i + 1;
    }
    found
}

/// The number spelled by `v[from..to]`, all decimal digits, at most nine.
fn digits_at(v: &Vec<char>, from: usize, to: usize) -> (r: u64)
    requires
        from <= to <= v@.len(),
        to - from <= 9,
        all_digits(v@.subrange(from as int, to as int)),
    ensures
        r == digits_value(v@.subrange(from as int, to as int)),
        r < 1_000_000_000,
{
    let mut acc: u64 = 0;
    let mut i = from;
    while i < to
        invariant
            from <= i <= to <= v@.len(),
            to - from <= 9,
            all_digits(v@.subrange(from as int, to as int)),
            acc == digits_value(v@.subrange(from as int, i as int)),
        decreases to - i,
    {
        proof {
            assert(v@.subrange(from as int, to as int)[i - from] == v@[i as int]);
            assert(all_digits(v@.subrange(from as int, i as int))) by {
                assert forall|j: int| 0 <= j < i - from implies is_digit(#[trigger] v@.subrange(from as int, i as int)[j]) by {
                    assert(v@.subrange(from as int, i as int)[j] == v@.subrange(from as int, to as int)[j]);
                }
            }
            lemma_digits_bound(v@.subrange(from as int, i as int));
            assert(pow10((i - from) as nat) <= 100_000_000) by {
                reveal_with_fuel(pow10, 10);
            }
            assert(v@.subrange(from as int, i + 1).drop_last() =~= v@.subrange(from as int, i as int));
        }
        let d = (v[i] as u32 - '0' as u32) as u64;
        acc = acc * 10 + d;
        i = i + 1;
    }
    proof {
        lemma_digits_bound(v@.subrange(from as int, to as int));
        assert(pow10((to - from) as nat) <= 1_000_000_000) by {
            reveal_with_fuel(pow10, 10);
        }
    }
    acc
}

fn all_digits_at(v: &Vec<char>, from: usize, to: usize) -> (r: bool)
    requires
        from <= to <= v@.len(),
    ensures
        r == all_digits(v@.subrange(from as int, to as int)),
{
    let mut i = from;
    while i < to
        invariant
            from <= i <= to <= v@.len(),
            forall|j: int| from <= j < i ==> is_digit(#[trigger] v@[j]),
        decreases to - i,
    {
        if !(v[i] >= '0' && v[i] <= '9') {
            assert(!is_digit(v@.subrange(from as int, to as int)[i - from]));
            return false;
        }
        i = i + 1;
    }
    assert forall|j: int| 0 <= j < to - from implies is_digit(#[trigger] v@.subrange(from as int, to as int)[j]) by {
        assert(v@.subrange(from as int, to as int)[j] == v@[from + j]);
    }
    true
}

/// The value in thousandths of a decimal numeral, see `milli_of`.
pub fn parse_milli(s: &str) -> (r: Option<u64>)
    ensures
        r matches Some(x) ==> milli_of(s@) == Some(x as int),
        r is None ==> milli_of(s@) is None,
{
    let v = chars_of(s);
    let n = v.len();
    assert(v@.subrange(0, n as int) =~= v@);
    if n >= 1 && n <= 9 && all_digits_at(&v, 0, n) {
        let x = digits_at(&v, 0, n);
        return Some(x * 1000);
    }
    assert(!(all_digits(s@) && 1 <= s@.len() <= 9));
    match find_single(&v, '.') {
        None => None,
        Some(k) => {
            proof {
                assert(single_at(v@, k as int, '.'));
                assert(forall|k2: int| single_at(v@, k2, '.') ==> k2 == k as int);
            }
            if k <= 9 && n >= 2 && all_digits_at(&v, 0, k) && all_digits_at(&v, k + 1, n) {
                let ip = digits_at(&v, 0, k);
                let f0: u64 = if k + 1 < n { (v[k + 1] as u32 - '0' as u32) as u64 * 100 } else { 0 };
                let f1: u64 = if k + 2 < n { (v[k + 2] as u32 - '0' as u32) as u64 * 10 } else { 0 };
                let f2: u64 = if k + 3 < n { (v[k + 3] as u32 - '0' as u32) as u64 } else { 0 };
                proof {
                    let fp = v@.subrange(k + 1, n as int);
                    if k + 1 < n { assert(fp[0] == v@[k + 1]); assert(is_digit(fp[0])); }
                    if k + 2 < n { assert(fp[1] == v@[k + 2]); assert(is_digit(fp[1])); }
                    if k + 3 < n { assert(fp[2] == v@[k + 3]); assert(is_digit(fp[2])); }
                }
                Some(ip * 1000 + f0 + f1 + f2)
            } else {
                None
            }
        },
    }
}

/// The stat that a field such as `暴击率+10.5%` or `生命值+4,780` shows: the
/// name before the one `+`, the value after it with `%` and `,` removed.
pub open spec fn stat_of(s: Seq<char>) -> Option<ArtifactStat> {
    if exists|k: int| single_at(s, k, '+') {
        let k = choose|k: int| single_at(s, k, '+');
        let name = s.subrange(0, k);
        let rest = s.subrange(k + 1, s.len() as int);
        match stat_key_table(name, rest.contains('%')) {
            None => None,
            Some(key) => match regex_replace_all_of("[%,]"@, rest, ""@) {
                None => None,
                Some(c) => match milli_of(c) {
                    None => None,
                    Some(x) => Some(ArtifactStat { key, value: x as u64 }),
                },
            },
        }
    } else {
        None
    }
}

impl ArtifactStatKey {
    /// The stat named in Chinese; `is_percentage` tells a percentage stat
    /// from a flat one.
    pub fn from_zh_cn(name: &str, is_percentage: bool) -> (r: Option<ArtifactStatKey>)
        ensures
            r == stat_key_table(name@, is_percentage),
    {
        let v = chars_of(name);
        stat_key_of_chars(&v, is_percentage)
    }
}

impl ArtifactStat {
    /// Reads a stat field, see `stat_of`.
    pub fn from_zh_cn_raw(s: &str) -> (r: Option<ArtifactStat>)
        ensures
            r == stat_of(s@),
    {
        let v = chars_of(s);
        let k = match find_single(&v, '+') {
            None => {
                return None;
            },
            Some(k) => k,
        };
        proof {
            assert(forall|k2: int| single_at(v@, k2, '+') ==> k2 == k as int);
        }
        let n = v.len();
        let name = slice(&v, 0, k);
        let rest = slice(&v, k + 1, n);
        let pct = contains_char(&rest, '%');
        let key = match stat_key_of_chars(&name, pct) {
            None => {
                return None;
            },
            Some(key) => key,
        };
        let rest_str = s.substring_char(k + 1, n);
        let cleaned = match regex_replace_all("[%,]", rest_str, "") {
            None => {
                return None;
            },
            Some(c) => c,
        };
        match parse_milli(cleaned.as_str()) {
            None => None,
            Some(x) => Some(ArtifactStat { key, value: x }),
        }
    }
}

impl ArtifactSetKey {
    /// The set named by an item's title.
    pub fn from_zh_cn(s: &str) -> (r: Option<ArtifactSetKey>)
        ensures
            r == set_key_table(s@),
    {
        let v = chars_of(s);
        set_key_of_chars(&v)
    }
}

impl ArtifactSlotKey {
    /// The slot named by an item's title.
    pub fn from_zh_cn(s: &str) -> (r: Option<ArtifactSlotKey>)
        ensures
            r == slot_key_table(s@),
    {
        let v = chars_of(s);
        slot_key_of_chars(&v)
    }
}

impl CharacterKey {
    /// The character with the given display name.
    pub fn from_zh_cn(s: &str) -> (r: Option<CharacterKey>)
        ensures
            r == character_key_table(s@),
    {
        let v = chars_of(s);
        character_key_of_chars(&v)
    }
}

} // verus!
