use vstd::prelude::*;
use vstd::string::StringExecFns;
use crate::artifact::{ArtifactSetKey, ArtifactSlotKey, ArtifactStatKey, CharacterKey, InternalArtifact};
use crate::text::{chars_of, equals};

verus! {

/// The stat's key in the GOOD export format.
pub open spec fn stat_good_name(k: ArtifactStatKey) -> Seq<char> {
    match k {
        ArtifactStatKey::HealingBonus => "heal_"@,
        ArtifactStatKey::CriticalDamage => "critDMG_"@,
        ArtifactStatKey::Critical => "critRate_"@,
        ArtifactStatKey::Atk => "atk"@,
        ArtifactStatKey::AtkPercentage => "atk_"@,
        ArtifactStatKey::ElementalMastery => "eleMas"@,
        ArtifactStatKey::Recharge => "enerRech_"@,
        ArtifactStatKey::HpPercentage => "hp_"@,
        ArtifactStatKey::Hp => "hp"@,
        ArtifactStatKey::DefPercentage => "def_"@,
        ArtifactStatKey::Def => "def"@,
        ArtifactStatKey::ElectroBonus => "electro_dmg_"@,
        ArtifactStatKey::PyroBonus => "pyro_dmg_"@,
        ArtifactStatKey::HydroBonus => "hydro_dmg_"@,
        ArtifactStatKey::CryoBonus => "cryo_dmg_"@,
        ArtifactStatKey::AnemoBonus => "anemo_dmg_"@,
        ArtifactStatKey::GeoBonus => "geo_dmg_"@,
        ArtifactStatKey::PhysicalBonus => "physical_dmg_"@,
        ArtifactStatKey::DendroBonus => "dendro_dmg_"@,
    }
}

impl ArtifactStatKey {
    /// The stat's key in the GOOD export format.
    pub fn to_good(&self) -> (r: String)
        ensures
            r@ == stat_good_name(*self),
    {
        match self {
            ArtifactStatKey::HealingBonus => String::from_str("heal_"),
            ArtifactStatKey::CriticalDamage => String::from_str("critDMG_"),
            ArtifactStatKey::Critical => String::from_str("critRate_"),
            ArtifactStatKey::Atk => String::from_str("atk"),
            ArtifactStatKey::AtkPercentage => String::from_str("atk_"),
            ArtifactStatKey::ElementalMastery => String::from_str("eleMas"),
            ArtifactStatKey::Recharge => String::from_str("enerRech_"),
            ArtifactStatKey::HpPercentage => String::from_str("hp_"),
            ArtifactStatKey::Hp => String::from_str("hp"),
            ArtifactStatKey::DefPercentage => String::from_str("def_"),
            ArtifactStatKey::Def => String::from_str("def"),
            ArtifactStatKey::ElectroBonus => String::from_str("electro_dmg_"),
            ArtifactStatKey::PyroBonus => String::from_str("pyro_dmg_"),
            ArtifactStatKey::HydroBonus => String::from_str("hydro_dmg_"),
            ArtifactStatKey::CryoBonus => String::from_str("cryo_dmg_"),
            ArtifactStatKey::AnemoBonus => String::from_str("anemo_dmg_"),
            ArtifactStatKey::GeoBonus => String::from_str("geo_dmg_"),
            ArtifactStatKey::PhysicalBonus => String::from_str("physical_dmg_"),
            ArtifactStatKey::DendroBonus => String::from_str("dendro_dmg_"),
        }
    }
}

/// The set's key in the GOOD export format: the variant's own name.
pub open spec fn set_good_name(k: ArtifactSetKey) -> Seq<char> {
    match k {
        ArtifactSetKey::ArchaicPetra => "ArchaicPetra"@,
        ArtifactSetKey::HeartOfDepth => "HeartOfDepth"@,
        ArtifactSetKey::BlizzardStrayer => "BlizzardStrayer"@,
        ArtifactSetKey::RetracingBolide => "RetracingBolide"@,
        ArtifactSetKey::NoblesseOblige => "NoblesseOblige"@,
        ArtifactSetKey::GladiatorsFinale => "GladiatorsFinale"@,
        ArtifactSetKey::MaidenBeloved => "MaidenBeloved"@,
        ArtifactSetKey::ViridescentVenerer => "ViridescentVenerer"@,
        ArtifactSetKey::Lavawalker => "Lavawalker"@,
        ArtifactSetKey::CrimsonWitchOfFlames => "CrimsonWitchOfFlames"@,
        ArtifactSetKey::Thundersoother => "Thundersoother"@,
        ArtifactSetKey::ThunderingFury => "ThunderingFury"@,
        ArtifactSetKey::BloodstainedChivalry => "BloodstainedChivalry"@,
        ArtifactSetKey::WanderersTroupe => "WanderersTroupe"@,
        ArtifactSetKey::Scholar => "Scholar"@,
        ArtifactSetKey::Gambler => "Gambler"@,
        ArtifactSetKey::TinyMiracle => "TinyMiracle"@,
        ArtifactSetKey::MartialArtist => "MartialArtist"@,
        ArtifactSetKey::BraveHeart => "BraveHeart"@,
        ArtifactSetKey::ResolutionOfSojourner => "ResolutionOfSojourner"@,
        ArtifactSetKey::DefenderWill => "DefenderWill"@,
        ArtifactSetKey::Berserker => "Berserker"@,
        ArtifactSetKey::Instructor => "Instructor"@,
        ArtifactSetKey::Exile => "Exile"@,
        ArtifactSetKey::Adventurer => "Adventurer"@,
        ArtifactSetKey::LuckyDog => "LuckyDog"@,
        ArtifactSetKey::TravelingDoctor => "TravelingDoctor"@,
        ArtifactSetKey::PrayersForWisdom => "PrayersForWisdom"@,
        ArtifactSetKey::PrayersToSpringtime => "PrayersToSpringtime"@,
        ArtifactSetKey::PrayersForIllumination => "PrayersForIllumination"@,
        ArtifactSetKey::PrayersForDestiny => "PrayersForDestiny"@,
        ArtifactSetKey::PaleFlame => "PaleFlame"@,
        ArtifactSetKey::TenacityOfTheMillelith => "TenacityOfTheMillelith"@,
        ArtifactSetKey::EmblemOfSeveredFate => "EmblemOfSeveredFate"@,
        ArtifactSetKey::ShimenawasReminiscence => "ShimenawasReminiscence"@,
        ArtifactSetKey::HuskOfOpulentDreams => "HuskOfOpulentDreams"@,
        ArtifactSetKey::OceanHuedClam => "OceanHuedClam"@,
        ArtifactSetKey::VermillionHereafter => "VermillionHereafter"@,
        ArtifactSetKey::EchoesOfAnOffering => "EchoesOfAnOffering"@,
        ArtifactSetKey::DeepwoodMemories => "DeepwoodMemories"@,
        ArtifactSetKey::GildedDreams => "GildedDreams"@,
        ArtifactSetKey::DesertPavilionChronicle => "DesertPavilionChronicle"@,
        ArtifactSetKey::FlowerOfParadiseLost => "FlowerOfParadiseLost"@,
        ArtifactSetKey::NymphsDream => "NymphsDream"@,
        ArtifactSetKey::VourukashasGlow => "VourukashasGlow"@,
        ArtifactSetKey::MarechausseeHunter => "MarechausseeHunter"@,
        ArtifactSetKey::GoldenTroupe => "GoldenTroupe"@,
        ArtifactSetKey::SongOfDaysPast => "SongOfDaysPast"@,
        ArtifactSetKey::NighttimeWhispersInTheEchoingWoods => "NighttimeWhispersInTheEchoingWoods"@,
    }
}

impl ArtifactSetKey {
    /// The set's key in the GOOD export format.
    pub fn to_good(&self) -> (r: String)
        ensures
            r@ == set_good_name(*self),
    {
        match self {
            ArtifactSetKey::ArchaicPetra => String::from_str("ArchaicPetra"),
            ArtifactSetKey::HeartOfDepth => String::from_str("HeartOfDepth"),
            ArtifactSetKey::BlizzardStrayer => String::from_str("BlizzardStrayer"),
            ArtifactSetKey::RetracingBolide => String::from_str("RetracingBolide"),
            ArtifactSetKey::NoblesseOblige => String::from_str("NoblesseOblige"),
            ArtifactSetKey::GladiatorsFinale => String::from_str("GladiatorsFinale"),
            ArtifactSetKey::MaidenBeloved => String::from_str("MaidenBeloved"),
            ArtifactSetKey::ViridescentVenerer => String::from_str("ViridescentVenerer"),
            ArtifactSetKey::Lavawalker => String::from_str("Lavawalker"),
            ArtifactSetKey::CrimsonWitchOfFlames => String::from_str("CrimsonWitchOfFlames"),
            ArtifactSetKey::Thundersoother => String::from_str("Thundersoother"),
            ArtifactSetKey::ThunderingFury => String::from_str("ThunderingFury"),
            ArtifactSetKey::BloodstainedChivalry => String::from_str("BloodstainedChivalry"),
            ArtifactSetKey::WanderersTroupe => String::from_str("WanderersTroupe"),
            ArtifactSetKey::Scholar => String::from_str("Scholar"),
            ArtifactSetKey::Gambler => String::from_str("Gambler"),
            ArtifactSetKey::TinyMiracle => String::from_str("TinyMiracle"),
            ArtifactSetKey::MartialArtist => String::from_str("MartialArtist"),
            ArtifactSetKey::BraveHeart => String::from_str("BraveHeart"),
            ArtifactSetKey::ResolutionOfSojourner => String::from_str("ResolutionOfSojourner"),
            ArtifactSetKey::DefenderWill => String::from_str("DefenderWill"),
            ArtifactSetKey::Berserker => String::from_str("Berserker"),
            ArtifactSetKey::Instructor => String::from_str("Instructor"),
            ArtifactSetKey::Exile => String::from_str("Exile"),
            ArtifactSetKey::Adventurer => String::from_str("Adventurer"),
            ArtifactSetKey::LuckyDog => String::from_str("LuckyDog"),
            ArtifactSetKey::TravelingDoctor => String::from_str("TravelingDoctor"),
            ArtifactSetKey::PrayersForWisdom => String::from_str("PrayersForWisdom"),
            ArtifactSetKey::PrayersToSpringtime => String::from_str("PrayersToSpringtime"),
            ArtifactSetKey::PrayersForIllumination => String::from_str("PrayersForIllumination"),
            ArtifactSetKey::PrayersForDestiny => String::from_str("PrayersForDestiny"),
            ArtifactSetKey::PaleFlame => String::from_str("PaleFlame"),
            ArtifactSetKey::TenacityOfTheMillelith => String::from_str("TenacityOfTheMillelith"),
            ArtifactSetKey::EmblemOfSeveredFate => String::from_str("EmblemOfSeveredFate"),
            ArtifactSetKey::ShimenawasReminiscence => String::from_str("ShimenawasReminiscence"),
            ArtifactSetKey::HuskOfOpulentDreams => String::from_str("HuskOfOpulentDreams"),
            ArtifactSetKey::OceanHuedClam => String::from_str("OceanHuedClam"),
            ArtifactSetKey::VermillionHereafter => String::from_str("VermillionHereafter"),
            ArtifactSetKey::EchoesOfAnOffering => String::from_str("EchoesOfAnOffering"),
            ArtifactSetKey::DeepwoodMemories => String::from_str("DeepwoodMemories"),
            ArtifactSetKey::GildedDreams => String::from_str("GildedDreams"),
            ArtifactSetKey::DesertPavilionChronicle => String::from_str("DesertPavilionChronicle"),
            ArtifactSetKey::FlowerOfParadiseLost => String::from_str("FlowerOfParadiseLost"),
            ArtifactSetKey::NymphsDream => String::from_str("NymphsDream"),
            ArtifactSetKey::VourukashasGlow => String::from_str("VourukashasGlow"),
            ArtifactSetKey::MarechausseeHunter => String::from_str("MarechausseeHunter"),
            ArtifactSetKey::GoldenTroupe => String::from_str("GoldenTroupe"),
            ArtifactSetKey::SongOfDaysPast => String::from_str("SongOfDaysPast"),
            ArtifactSetKey::NighttimeWhispersInTheEchoingWoods => String::from_str("NighttimeWhispersInTheEchoingWoods"),
        }
    }
}

/// The slot's key in the GOOD export format.
pub open spec fn slot_good_name(k: ArtifactSlotKey) -> Seq<char> {
    match k {
        ArtifactSlotKey::Flower => "flower"@,
        ArtifactSlotKey::Plume => "plume"@,
        ArtifactSlotKey::Sands => "sands"@,
        ArtifactSlotKey::Goblet => "goblet"@,
        ArtifactSlotKey::Circlet => "circlet"@,
    }
}

impl ArtifactSlotKey {
    /// The slot's key in the GOOD export format.
    pub fn to_good(&self) -> (r: String)
        ensures
            r@ == slot_good_name(*self),
    {
        match self {
            ArtifactSlotKey::Flower => String::from_str("flower"),
            ArtifactSlotKey::Plume => String::from_str("plume"),
            ArtifactSlotKey::Sands => String::from_str("sands"),
            ArtifactSlotKey::Goblet => String::from_str("goblet"),
            ArtifactSlotKey::Circlet => String::from_str("circlet"),
        }
    }
}

/// The stat's key in the Mona export format.
pub open spec fn stat_mona_name(k: ArtifactStatKey) -> Seq<char> {
    match k {
        ArtifactStatKey::HealingBonus => "cureEffect"@,
        ArtifactStatKey::CriticalDamage => "criticalDamage"@,
        ArtifactStatKey::Critical => "critical"@,
        ArtifactStatKey::Atk => "attackStatic"@,
        ArtifactStatKey::AtkPercentage => "attackPercentage"@,
        ArtifactStatKey::ElementalMastery => "elementalMastery"@,
        ArtifactStatKey::Recharge => "recharge"@,
        ArtifactStatKey::HpPercentage => "lifePercentage"@,
        ArtifactStatKey::Hp => "lifeStatic"@,
        ArtifactStatKey::DefPercentage => "defendPercentage"@,
        ArtifactStatKey::Def => "defendStatic"@,
        ArtifactStatKey::ElectroBonus => "thunderBonus"@,
        ArtifactStatKey::PyroBonus => "fireBonus"@,
        ArtifactStatKey::HydroBonus => "waterBonus"@,
        ArtifactStatKey::CryoBonus => "iceBonus"@,
        ArtifactStatKey::AnemoBonus => "windBonus"@,
        ArtifactStatKey::GeoBonus => "rockBonus"@,
        ArtifactStatKey::PhysicalBonus => "physicalBonus"@,
        ArtifactStatKey::DendroBonus => "dendroBonus"@,
    }
}

impl ArtifactStatKey {
    /// The stat's key in the Mona export format.
    pub fn to_mona(&self) -> (r: String)
        ensures
            r@ == stat_mona_name(*self),
    {
        match self {
            ArtifactStatKey::HealingBonus => String::from_str("cureEffect"),
            ArtifactStatKey::CriticalDamage => String::from_str("criticalDamage"),
            ArtifactStatKey::Critical => String::from_str("critical"),
            ArtifactStatKey::Atk => String::from_str("attackStatic"),
            ArtifactStatKey::AtkPercentage => String::from_str("attackPercentage"),
            ArtifactStatKey::ElementalMastery => String::from_str("elementalMastery"),
            ArtifactStatKey::Recharge => String::from_str("recharge"),
            ArtifactStatKey::HpPercentage => String::from_str("lifePercentage"),
            ArtifactStatKey::Hp => String::from_str("lifeStatic"),
            ArtifactStatKey::DefPercentage => String::from_str("defendPercentage"),
            ArtifactStatKey::Def => String::from_str("defendStatic"),
            ArtifactStatKey::ElectroBonus => String::from_str("thunderBonus"),
            ArtifactStatKey::PyroBonus => String::from_str("fireBonus"),
            ArtifactStatKey::HydroBonus => String::from_str("waterBonus"),
            ArtifactStatKey::CryoBonus => String::from_str("iceBonus"),
            ArtifactStatKey::AnemoBonus => String::from_str("windBonus"),
            ArtifactStatKey::GeoBonus => String::from_str("rockBonus"),
            ArtifactStatKey::PhysicalBonus => String::from_str("physicalBonus"),
            ArtifactStatKey::DendroBonus => String::from_str("dendroBonus"),
        }
    }
}

/// The set's key in the Mona export format; sets without a Mona name keep their own.
pub open spec fn set_mona_name(k: ArtifactSetKey) -> Seq<char> {
    match k {
        ArtifactSetKey::ArchaicPetra => "archaicPetra"@,
        ArtifactSetKey::HeartOfDepth => "heartOfDepth"@,
        ArtifactSetKey::BlizzardStrayer => "blizzardStrayer"@,
        ArtifactSetKey::RetracingBolide => "retracingBolide"@,
        ArtifactSetKey::NoblesseOblige => "noblesseOblige"@,
        ArtifactSetKey::GladiatorsFinale => "gladiatorFinale"@,
        ArtifactSetKey::MaidenBeloved => "maidenBeloved"@,
        ArtifactSetKey::ViridescentVenerer => "viridescentVenerer"@,
        ArtifactSetKey::Lavawalker => "lavaWalker"@,
        ArtifactSetKey::CrimsonWitchOfFlames => "crimsonWitch"@,
        ArtifactSetKey::Thundersoother => "thunderSmoother"@,
        ArtifactSetKey::ThunderingFury => "thunderingFury"@,
        ArtifactSetKey::BloodstainedChivalry => "bloodstainedChivalry"@,
        ArtifactSetKey::WanderersTroupe => "wandererTroupe"@,
        ArtifactSetKey::Scholar => "scholar"@,
        ArtifactSetKey::Gambler => "gambler"@,
        ArtifactSetKey::TinyMiracle => "tinyMiracle"@,
        ArtifactSetKey::MartialArtist => "martialArtist"@,
        ArtifactSetKey::BraveHeart => "braveHeart"@,
        ArtifactSetKey::ResolutionOfSojourner => "resolutionOfSojourner"@,
        ArtifactSetKey::DefenderWill => "defenderWill"@,
        ArtifactSetKey::Berserker => "berserker"@,
        ArtifactSetKey::Instructor => "instructor"@,
        ArtifactSetKey::Exile => "exile"@,
        ArtifactSetKey::Adventurer => "adventurer"@,
        ArtifactSetKey::LuckyDog => "luckyDog"@,
        ArtifactSetKey::TravelingDoctor => "travelingDoctor"@,
        ArtifactSetKey::PrayersForWisdom => "prayersForWisdom"@,
        ArtifactSetKey::PrayersToSpringtime => "prayersToSpringtime"@,
        ArtifactSetKey::PrayersForIllumination => "prayersForIllumination"@,
        ArtifactSetKey::PrayersForDestiny => "prayersForDestiny"@,
        ArtifactSetKey::PaleFlame => "paleFlame"@,
        ArtifactSetKey::TenacityOfTheMillelith => "tenacityOfTheMillelith"@,
        ArtifactSetKey::EmblemOfSeveredFate => "emblemOfSeveredFate"@,
        ArtifactSetKey::ShimenawasReminiscence => "shimenawaReminiscence"@,
        ArtifactSetKey::HuskOfOpulentDreams => "huskOfOpulentDreams"@,
        ArtifactSetKey::OceanHuedClam => "oceanHuedClam"@,
        ArtifactSetKey::VermillionHereafter => "VermillionHereafter"@,
        ArtifactSetKey::EchoesOfAnOffering => "EchoesOfAnOffering"@,
        ArtifactSetKey::DeepwoodMemories => "DeepwoodMemories"@,
        ArtifactSetKey::GildedDreams => "GildedDreams"@,
        ArtifactSetKey::DesertPavilionChronicle => "DesertPavilionChronicle"@,
        ArtifactSetKey::FlowerOfParadiseLost => "FlowerOfParadiseLost"@,
        ArtifactSetKey::NymphsDream => "NymphsDream"@,
        ArtifactSetKey::VourukashasGlow => "VourukashasGlow"@,
        ArtifactSetKey::MarechausseeHunter => "MarechausseeHunter"@,
        ArtifactSetKey::GoldenTroupe => "GoldenTroupe"@,
        ArtifactSetKey::SongOfDaysPast => "SongOfDaysPast"@,
        ArtifactSetKey::NighttimeWhispersInTheEchoingWoods => "NighttimeWhispersInTheEchoingWoods"@,
    }
}

impl ArtifactSetKey {
    /// The set's key in the Mona export format.
    pub fn to_mona(&self) -> (r: String)
        ensures
            r@ == set_mona_name(*self),
    {
        match self {
            ArtifactSetKey::ArchaicPetra => String::from_str("archaicPetra"),
            ArtifactSetKey::HeartOfDepth => String::from_str("heartOfDepth"),
            ArtifactSetKey::BlizzardStrayer => String::from_str("blizzardStrayer"),
            ArtifactSetKey::RetracingBolide => String::from_str("retracingBolide"),
            ArtifactSetKey::NoblesseOblige => String::from_str("noblesseOblige"),
            ArtifactSetKey::GladiatorsFinale => String::from_str("gladiatorFinale"),
            ArtifactSetKey::MaidenBeloved => String::from_str("maidenBeloved"),
            ArtifactSetKey::ViridescentVenerer => String::from_str("viridescentVenerer"),
            ArtifactSetKey::Lavawalker => String::from_str("lavaWalker"),
            ArtifactSetKey::CrimsonWitchOfFlames => String::from_str("crimsonWitch"),
            ArtifactSetKey::Thundersoother => String::from_str("thunderSmoother"),
            ArtifactSetKey::ThunderingFury => String::from_str("thunderingFury"),
            ArtifactSetKey::BloodstainedChivalry => String::from_str("bloodstainedChivalry"),
            ArtifactSetKey::WanderersTroupe => String::from_str("wandererTroupe"),
            ArtifactSetKey::Scholar => String::from_str("scholar"),
            ArtifactSetKey::Gambler => String::from_str("gambler"),
            ArtifactSetKey::TinyMiracle => String::from_str("tinyMiracle"),
            ArtifactSetKey::MartialArtist => String::from_str("martialArtist"),
            ArtifactSetKey::BraveHeart => String::from_str("braveHeart"),
            ArtifactSetKey::ResolutionOfSojourner => String::from_str("resolutionOfSojourner"),
            ArtifactSetKey::DefenderWill => String::from_str("defenderWill"),
            ArtifactSetKey::Berserker => String::from_str("berserker"),
            ArtifactSetKey::Instructor => String::from_str("instructor"),
            ArtifactSetKey::Exile => String::from_str("exile"),
            ArtifactSetKey::Adventurer => String::from_str("adventurer"),
            ArtifactSetKey::LuckyDog => String::from_str("luckyDog"),
            ArtifactSetKey::TravelingDoctor => String::from_str("travelingDoctor"),
            ArtifactSetKey::PrayersForWisdom => String::from_str("prayersForWisdom"),
            ArtifactSetKey::PrayersToSpringtime => String::from_str("prayersToSpringtime"),
            ArtifactSetKey::PrayersForIllumination => String::from_str("prayersForIllumination"),
            ArtifactSetKey::PrayersForDestiny => String::from_str("prayersForDestiny"),
            ArtifactSetKey::PaleFlame => String::from_str("paleFlame"),
            ArtifactSetKey::TenacityOfTheMillelith => String::from_str("tenacityOfTheMillelith"),
            ArtifactSetKey::EmblemOfSeveredFate => String::from_str("emblemOfSeveredFate"),
            ArtifactSetKey::ShimenawasReminiscence => String::from_str("shimenawaReminiscence"),
            ArtifactSetKey::HuskOfOpulentDreams => String::from_str("huskOfOpulentDreams"),
            ArtifactSetKey::OceanHuedClam => String::from_str("oceanHuedClam"),
            ArtifactSetKey::VermillionHereafter => String::from_str("VermillionHereafter"),
            ArtifactSetKey::EchoesOfAnOffering => String::from_str("EchoesOfAnOffering"),
            ArtifactSetKey::DeepwoodMemories => String::from_str("DeepwoodMemories"),
            ArtifactSetKey::GildedDreams => String::from_str("GildedDreams"),
            ArtifactSetKey::DesertPavilionChronicle => String::from_str("DesertPavilionChronicle"),
            ArtifactSetKey::FlowerOfParadiseLost => String::from_str("FlowerOfParadiseLost"),
            ArtifactSetKey::NymphsDream => String::from_str("NymphsDream"),
            ArtifactSetKey::VourukashasGlow => String::from_str("VourukashasGlow"),
            ArtifactSetKey::MarechausseeHunter => String::from_str("MarechausseeHunter"),
            ArtifactSetKey::GoldenTroupe => String::from_str("GoldenTroupe"),
            ArtifactSetKey::SongOfDaysPast => String::from_str("SongOfDaysPast"),
            ArtifactSetKey::NighttimeWhispersInTheEchoingWoods => String::from_str("NighttimeWhispersInTheEchoingWoods"),
        }
    }
}

/// The slot's key in the Mona export format.
pub open spec fn slot_mona_name(k: ArtifactSlotKey) -> Seq<char> {
    match k {
        ArtifactSlotKey::Flower => "flower"@,
        ArtifactSlotKey::Plume => "feather"@,
        ArtifactSlotKey::Sands => "sand"@,
        ArtifactSlotKey::Goblet => "cup"@,
        ArtifactSlotKey::Circlet => "head"@,
    }
}

impl ArtifactSlotKey {
    /// The slot's key in the Mona export format.
    pub fn to_mona(&self) -> (r: String)
        ensures
            r@ == slot_mona_name(*self),
    {
        match self {
            ArtifactSlotKey::Flower => String::from_str("flower"),
            ArtifactSlotKey::Plume => String::from_str("feather"),
            ArtifactSlotKey::Sands => String::from_str("sand"),
            ArtifactSlotKey::Goblet => String::from_str("cup"),
            ArtifactSlotKey::Circlet => String::from_str("head"),
        }
    }
}

/// The character's key in the Mona export format: the display name.
pub open spec fn character_mona_name(k: CharacterKey) -> Seq<char> {
    match k {
        CharacterKey::KamisatoAyaka => "神里绫华"@,
        CharacterKey::Jean => "琴"@,
        CharacterKey::Traveler => "旅行者"@,
        CharacterKey::Lisa => "丽莎"@,
        CharacterKey::Barbara => "芭芭拉"@,
        CharacterKey::Kaeya => "凯亚"@,
        CharacterKey::Diluc => "迪卢克"@,
        CharacterKey::Razor => "雷泽"@,
        CharacterKey::Amber => "安柏"@,
        CharacterKey::Venti => "温迪"@,
        CharacterKey::Xiangling => "香菱"@,
        CharacterKey::Beidou => "北斗"@,
        CharacterKey::Xingqiu => "行秋"@,
        CharacterKey::Xiao => "魈"@,
        CharacterKey::Ningguang => "凝光"@,
        CharacterKey::Klee => "可莉"@,
        CharacterKey::Zhongli => "钟离"@,
        CharacterKey::Fischl => "菲谢尔"@,
        CharacterKey::Bennett => "班尼特"@,
        CharacterKey::Tartaglia => "达达利亚"@,
        CharacterKey::Noelle => "诺艾尔"@,
        CharacterKey::Qiqi => "七七"@,
        CharacterKey::Chongyun => "重云"@,
        CharacterKey::Ganyu => "甘雨"@,
        CharacterKey::Albedo => "阿贝多"@,
        CharacterKey::Diona => "迪奥娜"@,
        CharacterKey::Mona => "莫娜"@,
        CharacterKey::Keqing => "刻晴"@,
        CharacterKey::Sucrose => "砂糖"@,
        CharacterKey::Xinyan => "辛焱"@,
        CharacterKey::Rosaria => "罗莎莉亚"@,
        CharacterKey::HuTao => "胡桃"@,
        CharacterKey::KaedeharaKazuha => "枫原万叶"@,
        CharacterKey::Yanfei => "烟绯"@,
        CharacterKey::Yoimiya => "宵宫"@,
        CharacterKey::Thoma => "托马"@,
        CharacterKey::Eula => "优菈"@,
        CharacterKey::RaidenShogun => "雷电将军"@,
        CharacterKey::Sayu => "早柚"@,
        CharacterKey::SangonomiyaKokomi => "珊瑚宫心海"@,
        CharacterKey::Gorou => "五郎"@,
        CharacterKey::KujouSara => "九条裟罗"@,
        CharacterKey::AratakiItto => "荒泷一斗"@,
        CharacterKey::YaeMiko => "八重神子"@,
        CharacterKey::ShikanoinHeizou => "鹿野院平藏"@,
        CharacterKey::Yelan => "夜兰"@,
        CharacterKey::Kirara => "绮良良"@,
        CharacterKey::Aloy => "埃洛伊"@,
        CharacterKey::Shenhe => "申鹤"@,
        CharacterKey::YunJin => "云堇"@,
        CharacterKey::KukiShinobu => "久岐忍"@,
        CharacterKey::KamisatoAyato => "神里绫人"@,
        CharacterKey::Collei => "柯莱"@,
        CharacterKey::Dori => "多莉"@,
        CharacterKey::Tighnari => "提纳里"@,
        CharacterKey::Nilou => "妮露"@,
        CharacterKey::Cyno => "赛诺"@,
        CharacterKey::Candace => "坎蒂丝"@,
        CharacterKey::Nahida => "纳西妲"@,
        CharacterKey::Layla => "莱依拉"@,
        CharacterKey::Wanderer => "流浪者"@,
        CharacterKey::Faruzan => "珐露珊"@,
        CharacterKey::Yaoyao => "瑶瑶"@,
        CharacterKey::Alhaitham => "艾尔海森"@,
        CharacterKey::Dehya => "迪希雅"@,
        CharacterKey::Mika => "米卡"@,
        CharacterKey::Kaveh => "卡维"@,
        CharacterKey::Baizhu => "白术"@,
        CharacterKey::Lynette => "琳妮特"@,
        CharacterKey::Lyney => "林尼"@,
        CharacterKey::Freminet => "菲米尼"@,
        CharacterKey::Wriothesley => "莱欧斯利"@,
        CharacterKey::Neuvillette => "那维莱特"@,
        CharacterKey::Charlotte => "夏洛蒂"@,
        CharacterKey::Furina => "芙宁娜"@,
        CharacterKey::Navia => "娜维娅"@,
        CharacterKey::Xianyun => "闲云"@,
    }
}

impl CharacterKey {
    /// The character's key in the Mona export format.
    pub fn to_mona(&self) -> (r: String)
        ensures
            r@ == character_mona_name(*self),
    {
        match self {
            CharacterKey::KamisatoAyaka => String::from_str("神里绫华"),
            CharacterKey::Jean => String::from_str("琴"),
            CharacterKey::Traveler => String::from_str("旅行者"),
            CharacterKey::Lisa => String::from_str("丽莎"),
            CharacterKey::Barbara => String::from_str("芭芭拉"),
            CharacterKey::Kaeya => String::from_str("凯亚"),
            CharacterKey::Diluc => String::from_str("迪卢克"),
            CharacterKey::Razor => String::from_str("雷泽"),
            CharacterKey::Amber => String::from_str("安柏"),
            CharacterKey::Venti => String::from_str("温迪"),
            CharacterKey::Xiangling => String::from_str("香菱"),
            CharacterKey::Beidou => String::from_str("北斗"),
            CharacterKey::Xingqiu => String::from_str("行秋"),
            CharacterKey::Xiao => String::from_str("魈"),
            CharacterKey::Ningguang => String::from_str("凝光"),
            CharacterKey::Klee => String::from_str("可莉"),
            CharacterKey::Zhongli => String::from_str("钟离"),
            CharacterKey::Fischl => String::from_str("菲谢尔"),
            CharacterKey::Bennett => String::from_str("班尼特"),
            CharacterKey::Tartaglia => String::from_str("达达利亚"),
            CharacterKey::Noelle => String::from_str("诺艾尔"),
            CharacterKey::Qiqi => String::from_str("七七"),
            CharacterKey::Chongyun => String::from_str("重云"),
            CharacterKey::Ganyu => String::from_str("甘雨"),
            CharacterKey::Albedo => String::from_str("阿贝多"),
            CharacterKey::Diona => String::from_str("迪奥娜"),
            CharacterKey::Mona => String::from_str("莫娜"),
            CharacterKey::Keqing => String::from_str("刻晴"),
            CharacterKey::Sucrose => String::from_str("砂糖"),
            CharacterKey::Xinyan => String::from_str("辛焱"),
            CharacterKey::Rosaria => String::from_str("罗莎莉亚"),
            CharacterKey::HuTao => String::from_str("胡桃"),
            CharacterKey::KaedeharaKazuha => String::from_str("枫原万叶"),
            CharacterKey::Yanfei => String::from_str("烟绯"),
            CharacterKey::Yoimiya => String::from_str("宵宫"),
            CharacterKey::Thoma => String::from_str("托马"),
            CharacterKey::Eula => String::from_str("优菈"),
            CharacterKey::RaidenShogun => String::from_str("雷电将军"),
            CharacterKey::Sayu => String::from_str("早柚"),
            CharacterKey::SangonomiyaKokomi => String::from_str("珊瑚宫心海"),
            CharacterKey::Gorou => String::from_str("五郎"),
            CharacterKey::KujouSara => String::from_str("九条裟罗"),
            CharacterKey::AratakiItto => String::from_str("荒泷一斗"),
            CharacterKey::YaeMiko => String::from_str("八重神子"),
            CharacterKey::ShikanoinHeizou => String::from_str("鹿野院平藏"),
            CharacterKey::Yelan => String::from_str("夜兰"),
            CharacterKey::Kirara => String::from_str("绮良良"),
            CharacterKey::Aloy => String::from_str("埃洛伊"),
            CharacterKey::Shenhe => String::from_str("申鹤"),
            CharacterKey::YunJin => String::from_str("云堇"),
            CharacterKey::KukiShinobu => String::from_str("久岐忍"),
            CharacterKey::KamisatoAyato => String::from_str("神里绫人"),
            CharacterKey::Collei => String::from_str("柯莱"),
            CharacterKey::Dori => String::from_str("多莉"),
            CharacterKey::Tighnari => String::from_str("提纳里"),
            CharacterKey::Nilou => String::from_str("妮露"),
            CharacterKey::Cyno => String::from_str("赛诺"),
            CharacterKey::Candace => String::from_str("坎蒂丝"),
            CharacterKey::Nahida => String::from_str("纳西妲"),
            CharacterKey::Layla => String::from_str("莱依拉"),
            CharacterKey::Wanderer => String::from_str("流浪者"),
            CharacterKey::Faruzan => String::from_str("珐露珊"),
            CharacterKey::Yaoyao => String::from_str("瑶瑶"),
            CharacterKey::Alhaitham => String::from_str("艾尔海森"),
            CharacterKey::Dehya => String::from_str("迪希雅"),
            CharacterKey::Mika => String::from_str("米卡"),
            CharacterKey::Kaveh => String::from_str("卡维"),
            CharacterKey::Baizhu => String::from_str("白术"),
            CharacterKey::Lynette => String::from_str("琳妮特"),
            CharacterKey::Lyney => String::from_str("林尼"),
            CharacterKey::Freminet => String::from_str("菲米尼"),
            CharacterKey::Wriothesley => String::from_str("莱欧斯利"),
            CharacterKey::Neuvillette => String::from_str("那维莱特"),
            CharacterKey::Charlotte => String::from_str("夏洛蒂"),
            CharacterKey::Furina => String::from_str("芙宁娜"),
            CharacterKey::Navia => String::from_str("娜维娅"),
            CharacterKey::Xianyun => String::from_str("闲云"),
        }
    }
}

/// The GOOD key of a character given by display name: empty for no
/// character, the wanderer for any name the table lacks.
pub open spec fn good_character_table(s: Seq<char>) -> Seq<char> {
    if s == "神里绫华"@ {
        "KamisatoAyaka"@
    } else if s == "琴"@ {
        "Jean"@
    } else if s == "旅行者"@ {
        "Traveler"@
    } else if s == "丽莎"@ {
        "Lisa"@
    } else if s == "芭芭拉"@ {
        "Barbara"@
    } else if s == "凯亚"@ {
        "Kaeya"@
    } else if s == "迪卢克"@ {
        "Diluc"@
    } else if s == "雷泽"@ {
        "Razor"@
    } else if s == "安柏"@ {
        "Amber"@
    } else if s == "温迪"@ {
        "Venti"@
    } else if s == "香菱"@ {
        "Xiangling"@
    } else if s == "北斗"@ {
        "Beidou"@
    } else if s == "行秋"@ {
        "Xingqiu"@
    } else if s == "魈"@ {
        "Xiao"@
    } else if s == "凝光"@ {
        "Ningguang"@
    } else if s == "可莉"@ {
        "Klee"@
    } else if s == "钟离"@ {
        "Zhongli"@
    } else if s == "菲谢尔"@ {
        "Fischl"@
    } else if s == "班尼特"@ {
        "Bennett"@
    } else if s == "达达利亚"@ {
        "Tartaglia"@
    } else if s == "诺艾尔"@ {
        "Noelle"@
    } else if s == "七七"@ {
        "Qiqi"@
    } else if s == "重云"@ {
        "Chongyun"@
    } else if s == "甘雨"@ {
        "Ganyu"@
    } else if s == "阿贝多"@ {
        "Albedo"@
    } else if s == "迪奥娜"@ {
        "Diona"@
    } else if s == "莫娜"@ {
        "Mona"@
    } else if s == "刻晴"@ {
        "Keqing"@
    } else if s == "砂糖"@ {
        "Sucrose"@
    } else if s == "辛焱"@ {
        "Xinyan"@
    } else if s == "罗莎莉亚"@ {
        "Rosaria"@
    } else if s == "胡桃"@ {
        "HuTao"@
    } else if s == "枫原万叶"@ {
        "KaedeharaKazuha"@
    } else if s == "烟绯"@ {
        "Yanfei"@
    } else if s == "宵宫"@ {
        "Yoimiya"@
    } else if s == "托马"@ {
        "Thoma"@
    } else if s == "优菈"@ {
        "Eula"@
    } else if s == "雷电将军"@ {
        "RaidenShogun"@
    } else if s == "早柚"@ {
        "Sayu"@
    } else if s == "珊瑚宫心海"@ {
        "SangonomiyaKokomi"@
    } else if s == "五郎"@ {
        "Gorou"@
    } else if s == "九条裟罗"@ {
        "KujouSara"@
    } else if s == "荒泷一斗"@ {
        "AratakiItto"@
    } else if s == "八重神子"@ {
        "YaeMiko"@
    } else if s == "鹿野院平藏"@ {
        "ShikanoinHeizou"@
    } else if s == "夜兰"@ {
        "Yelan"@
    } else if s == "绮良良"@ {
        "Kirara"@
    } else if s == "埃洛伊"@ {
        "Aloy"@
    } else if s == "申鹤"@ {
        "Shenhe"@
    } else if s == "云堇"@ {
        "YunJin"@
    } else if s == "久岐忍"@ {
        "KukiShinobu"@
    } else if s == "神里绫人"@ {
        "KamisatoAyato"@
    } else if s == "柯莱"@ {
        "Collei"@
    } else if s == "多莉"@ {
        "Dori"@
    } else if s == "提纳里"@ {
        "Tighnari"@
    } else if s == "妮露"@ {
        "Nilou"@
    } else if s == "赛诺"@ {
        "Cyno"@
    } else if s == "坎蒂丝"@ {
        "Candace"@
    } else if s == "纳西妲"@ {
        "Nahida"@
    } else if s == "莱依拉"@ {
        "Layla"@
    } else if s == "流浪者"@ {
        "Wanderer"@
    } else if s == "珐露珊"@ {
        "Faruzan"@
    } else if s == "瑶瑶"@ {
        "Yaoyao"@
    } else if s == "艾尔海森"@ {
        "Alhaitham"@
    } else if s == "迪希雅"@ {
        "Dehya"@
    } else if s == "米卡"@ {
        "Mika"@
    } else if s == "卡维"@ {
        "Kaveh"@
    } else if s == "白术"@ {
        "Baizhu"@
    } else if s == ""@ {
        ""@
    } else {
        "Wanderer"@
    }
}

/// The GOOD key of a character given by display name.
#[verifier::rlimit(100)]
pub fn to_char_key(name: &str) -> (r: String)
    ensures
        r@ == good_character_table(name@),
{
    let v = chars_of(name);
    if equals(&v, "神里绫华") {
        String::from_str("KamisatoAyaka")
    } else if equals(&v, "琴") {
        String::from_str("Jean")
    } else if equals(&v, "旅行者") {
        String::from_str("Traveler")
    } else if equals(&v, "丽莎") {
        String::from_str("Lisa")
    } else if equals(&v, "芭芭拉") {
        String::from_str("Barbara")
    } else if equals(&v, "凯亚") {
        String::from_str("Kaeya")
    } else if equals(&v, "迪卢克") {
        String::from_str("Diluc")
    } else if equals(&v, "雷泽") {
        String::from_str("Razor")
    } else if equals(&v, "安柏") {
        String::from_str("Amber")
    } else if equals(&v, "温迪") {
        String::from_str("Venti")
    } else if equals(&v, "香菱") {
        String::from_str("Xiangling")
    } else if equals(&v, "北斗") {
        String::from_str("Beidou")
    } else if equals(&v, "行秋") {
        String::from_str("Xingqiu")
    } else if equals(&v, "魈") {
        String::from_str("Xiao")
    } else if equals(&v, "凝光") {
        String::from_str("Ningguang")
    } else if equals(&v, "可莉") {
        String::from_str("Klee")
    } else if equals(&v, "钟离") {
        String::from_str("Zhongli")
    } else if equals(&v, "菲谢尔") {
        String::from_str("Fischl")
    } else if equals(&v, "班尼特") {
        String::from_str("Bennett")
    } else if equals(&v, "达达利亚") {
        String::from_str("Tartaglia")
    } else if equals(&v, "诺艾尔") {
        String::from_str("Noelle")
    } else if equals(&v, "七七") {
        String::from_str("Qiqi")
    } else if equals(&v, "重云") {
        String::from_str("Chongyun")
    } else if equals(&v, "甘雨") {
        String::from_str("Ganyu")
    } else if equals(&v, "阿贝多") {
        String::from_str("Albedo")
    } else if equals(&v, "迪奥娜") {
        String::from_str("Diona")
    } else if equals(&v, "莫娜") {
        String::from_str("Mona")
    } else if equals(&v, "刻晴") {
        String::from_str("Keqing")
    } else if equals(&v, "砂糖") {
        String::from_str("Sucrose")
    } else if equals(&v, "辛焱") {
        String::from_str("Xinyan")
    } else if equals(&v, "罗莎莉亚") {
        String::from_str("Rosaria")
    } else if equals(&v, "胡桃") {
        String::from_str("HuTao")
    } else if equals(&v, "枫原万叶") {
        String::from_str("KaedeharaKazuha")
    } else if equals(&v, "烟绯") {
        String::from_str("Yanfei")
    } else if equals(&v, "宵宫") {
        String::from_str("Yoimiya")
    } else if equals(&v, "托马") {
        String::from_str("Thoma")
    } else if equals(&v, "优菈") {
        String::from_str("Eula")
    } else if equals(&v, "雷电将军") {
        String::from_str("RaidenShogun")
    } else if equals(&v, "早柚") {
        String::from_str("Sayu")
    } else if equals(&v, "珊瑚宫心海") {
        String::from_str("SangonomiyaKokomi")
    } else if equals(&v, "五郎") {
        String::from_str("Gorou")
    } else if equals(&v, "九条裟罗") {
        String::from_str("KujouSara")
    } else if equals(&v, "荒泷一斗") {
        String::from_str("AratakiItto")
    } else if equals(&v, "八重神子") {
        String::from_str("YaeMiko")
    } else if equals(&v, "鹿野院平藏") {
        String::from_str("ShikanoinHeizou")
    } else if equals(&v, "夜兰") {
        String::from_str("Yelan")
    } else if equals(&v, "绮良良") {
        String::from_str("Kirara")
    } else if equals(&v, "埃洛伊") {
        String::from_str("Aloy")
    } else if equals(&v, "申鹤") {
        String::from_str("Shenhe")
    } else if equals(&v, "云堇") {
        String::from_str("YunJin")
    } else if equals(&v, "久岐忍") {
        String::from_str("KukiShinobu")
    } else if equals(&v, "神里绫人") {
        String::from_str("KamisatoAyato")
    } else if equals(&v, "柯莱") {
        String::from_str("Collei")
    } else if equals(&v, "多莉") {
        String::from_str("Dori")
    } else if equals(&v, "提纳里") {
        String::from_str("Tighnari")
    } else if equals(&v, "妮露") {
        String::from_str("Nilou")
    } else if equals(&v, "赛诺") {
        String::from_str("Cyno")
    } else if equals(&v, "坎蒂丝") {
        String::from_str("Candace")
    } else if equals(&v, "纳西妲") {
        String::from_str("Nahida")
    } else if equals(&v, "莱依拉") {
        String::from_str("Layla")
    } else if equals(&v, "流浪者") {
        String::from_str("Wanderer")
    } else if equals(&v, "珐露珊") {
        String::from_str("Faruzan")
    } else if equals(&v, "瑶瑶") {
        String::from_str("Yaoyao")
    } else if equals(&v, "艾尔海森") {
        String::from_str("Alhaitham")
    } else if equals(&v, "迪希雅") {
        String::from_str("Dehya")
    } else if equals(&v, "米卡") {
        String::from_str("Mika")
    } else if equals(&v, "卡维") {
        String::from_str("Kaveh")
    } else if equals(&v, "白术") {
        String::from_str("Baizhu")
    } else if equals(&v, "") {
        String::from_str("")
    } else {
        String::from_str("Wanderer")
    }
}


pub open spec fn in_slot(slot: ArtifactSlotKey) -> spec_fn(InternalArtifact) -> bool {
    |a: InternalArtifact| a.slot_key == slot
}

/// The items of one slot, in the order given.
pub fn of_slot(results: &Vec<InternalArtifact>, slot: ArtifactSlotKey) -> (r: Vec<InternalArtifact>)
    ensures
        r@ == results@.filter(in_slot(slot)),
{
    let mut out: Vec<InternalArtifact> = Vec::new();
    let mut i: usize = 0;
    while i < results.len()
        invariant
            i <= results@.len(),
            out@ == results@.subrange(0, i as int).filter(in_slot(slot)),
        decreases results@.len() - i,
    {
        let a = results[i];
        proof {
            reveal(Seq::filter);
            assert(results@.subrange(0, i + 1).drop_last() =~= results@.subrange(0, i as int));
            assert(results@.subrange(0, i + 1).last() == a);
        }
        if a.slot_key == slot {
            out.push(a);
        }
        i = i + 1;
    }
    assert(results@.subrange(0, results@.len() as int) =~= results@);
    out
}

} // verus!
