use vstd::prelude::*;
use crate::artifact::{
    all_digits, character_key_table, has_prefix, digits_value, set_key_table, slot_key_table, stat_of,
    ArtifactSetKey, ArtifactSlotKey, ArtifactStat, ArtifactStatKey, CharacterKey, InternalArtifact,
};
use crate::outside::string_of_chars;
use crate::text::{chars_of, contains_char, slice, slice_equals, starts_with};
use vstd::string::StrSliceExecFns;

verus! {

/// The text recognised in the nine fields of one item's panel, with the
/// rarity and lock flag sampled when it was captured.
#[derive(Debug)]
pub struct YasScanResult {
    pub name: String,
    pub main_stat_name: String,
    pub main_stat_value: String,
    pub sub_stat_1: String,
    pub sub_stat_2: String,
    pub sub_stat_3: String,
    pub sub_stat_4: String,
    pub level: String,
    pub location: String,
    pub rarity: u32,
    pub lock: bool,
}

/// What `str::parse::<u32>` accepts: an optional `+`, then one or more
/// decimal digits whose value fits in 32 bits.
pub open spec fn u32_of(s: Seq<char>) -> Option<u32> {
    let d = if s.len() > 0 && s[0] == '+' { s.drop_first() } else { s };
    if d.len() >= 1 && all_digits(d) && digits_value(d) <= u32::MAX {
        Some(digits_value(d) as u32)
    } else {
        None
    }
}

/// The level shown as `+20`: the number after the first character, when the
/// field holds a `+`.
pub open spec fn level_of(s: Seq<char>) -> Option<u32> {
    if s.contains('+') {
        u32_of(s.drop_first())
    } else {
        None
    }
}

pub open spec fn contains_text(s: Seq<char>, p: Seq<char>) -> bool {
    exists|i: int| 0 <= i && i + p.len() <= s.len() && #[trigger] s.subrange(i, i + p.len()) == p
}

/// The character that the equip field names, `<name>已装备`.
pub open spec fn location_of(s: Seq<char>) -> Option<CharacterKey> {
    if contains_text(s, "已装备"@) {
        character_key_table(s.subrange(0, s.len() - 3))
    } else {
        None
    }
}

/// The main stat's two fields joined as one stat field; a `+` inside the
/// name becomes `?`.
pub open spec fn main_stat_text(name: Seq<char>, value: Seq<char>) -> Seq<char> {
    name.map_values(|c: char| if c == '+' { '?' } else { c }) + seq!['+'] + value
}

/// The item that a recognised panel shows, if every required field reads.
pub open spec fn artifact_of(r: &YasScanResult) -> Option<InternalArtifact> {
    match (set_key_table(r.name@), slot_key_table(r.name@), level_of(r.level@), stat_of(
        main_stat_text(r.main_stat_name@, r.main_stat_value@),
    )) {
        (Some(set_key), Some(slot_key), Some(level), Some(main_stat)) => Some(
            InternalArtifact {
                set_key,
                slot_key,
                rarity: r.rarity,
                level,
                lock: r.lock,
                location: location_of(r.location@),
                main_stat,
                sub_stat_1: stat_of(r.sub_stat_1@),
                sub_stat_2: stat_of(r.sub_stat_2@),
                sub_stat_3: stat_of(r.sub_stat_3@),
                sub_stat_4: stat_of(r.sub_stat_4@),
            },
        ),
        _ => None,
    }
}

/// The main stat put in when the main stat fields do not read.
pub open spec fn default_main_stat() -> ArtifactStat {
    ArtifactStat { key: ArtifactStatKey::Hp, value: 4_780_000 }
}

/// The stand-in for a panel that does not read: each field that reads is
/// kept, the others take a fixed default.
pub open spec fn fallback_of(r: &YasScanResult) -> InternalArtifact {
    InternalArtifact {
        set_key: match set_key_table(r.name@) {
            Some(k) => k,
            None => ArtifactSetKey::GladiatorsFinale,
        },
        slot_key: match slot_key_table(r.name@) {
            Some(k) => k,
            None => ArtifactSlotKey::Flower,
        },
        rarity: r.rarity,
        level: match level_of(r.level@) {
            Some(l) => l,
            None => 0,
        },
        lock: r.lock,
        location: location_of(r.location@),
        main_stat: match stat_of(main_stat_text(r.main_stat_name@, r.main_stat_value@)) {
            Some(m) => m,
            None => default_main_stat(),
        },
        sub_stat_1: stat_of(r.sub_stat_1@),
        sub_stat_2: stat_of(r.sub_stat_2@),
        sub_stat_3: stat_of(r.sub_stat_3@),
        sub_stat_4: stat_of(r.sub_stat_4@),
    }
}

/// The item a panel contributes to the output: the item it shows, or its
/// stand-in.
pub open spec fn output_of(r: &YasScanResult) -> InternalArtifact {
    match artifact_of(r) {
        Some(a) => a,
        None => fallback_of(r),
    }
}

/// What `str::parse::<u32>` gives for `v[from..]`, see `u32_of`.
pub fn parse_u32(v: &Vec<char>, from: usize) -> (r: Option<u32>)
    requires
        from <= v@.len(),
    ensures
        r == u32_of(v@.subrange(from as int, v@.len() as int)),
{
    let n = v.len();
    let ghost s = v@.subrange(from as int, n as int);
    let start = if from < n && v[from] == '+' { from + 1 } else { from };
    let ghost d = v@.subrange(start as int, n as int);
    assert(d == (if s.len() > 0 && s[0] == '+' { s.drop_first() } else { s }));
    if start >= n {
        assert(d.len() == 0);
        return None;
    }
    let mut acc: u64 = 0;
    let mut i = start;
    while i < n
        invariant
            start <= i <= n == v@.len(),
            d == v@.subrange(start as int, n as int),
            s == v@.subrange(from as int, n as int),
            d == (if s.len() > 0 && s[0] == '+' { s.drop_first() } else { s }),
            forall|j: int| start <= j < i ==> crate::artifact::is_digit(#[trigger] v@[j]),
            acc == if digits_value(v@.subrange(start as int, i as int)) <= u32::MAX {
                digits_value(v@.subrange(start as int, i as int))
            } else {
                u32::MAX + 1
            },
        decreases n - i,
    {
        let c = v[i];
        if !(c >= '0' && c <= '9') {
            assert(d[i - start] == v@[i as int]);
            assert(!crate::artifact::is_digit(d[i - start]));
            assert(!all_digits(d));
            assert(u32_of(s) is None);
            return None;
        }
        proof {
            assert(v@.subrange(start as int, i + 1).drop_last() =~= v@.subrange(start as int, i as int));
            assert(v@.subrange(start as int, i + 1).last() == c);
            crate::artifact::lemma_digits_nonneg(v@.subrange(start as int, i as int));
        }
        let next: u64 = acc * 10 + (c as u32 - '0' as u32) as u64;
        acc = if next > 0xFFFF_FFFF { 0x1_0000_0000 } else { next };
        i = i + 1;
    }
    assert(all_digits(d)) by {
        assert forall|j: int| 0 <= j < d.len() implies crate::artifact::is_digit(#[trigger] d[j]) by {
            assert(d[j] == v@[start + j]);
        }
    }
    if acc > 0xFFFF_FFFF {
        None
    } else {
        Some(acc as u32)
    }
}

/// Whether `v` holds `p` somewhere.
fn find_text(v: &Vec<char>, p: &str) -> (r: bool)
    ensures
        r == contains_text(v@, p@),
{
    let n = v.len();
    let m = p.unicode_len();
    if m > n {
        return false;
    }
    if m == 0 {
        assert(v@.subrange(0, (0 + p@.len()) as int) =~= p@) by { assert(p@.len() == 0); }
        return true;
    }
    let mut i: usize = 0;
    while i <= n - m
        invariant
            m == p@.len(),
            n == v@.len(),
            1 <= m <= n,
            i <= n - m + 1,
            forall|j: int| 0 <= j < i ==> #[trigger] v@.subrange(j, j + m) != p@,
        decreases n - i,
    {
        if slice_equals(v, i, i + m, p) {
            return true;
        }
        i = i + 1;
    }
    false
}

fn level_from(s: &String) -> (r: Option<u32>)
    ensures
        r == level_of(s@),
{
    let v = chars_of(s.as_str());
    if !contains_char(&v, '+') {
        return None;
    }
    assert(v@.len() > 0);
    let r = parse_u32(&v, 1);
    assert(v@.subrange(1, v@.len() as int) =~= v@.drop_first());
    assert(s@.contains('+'));
    r
}

fn location_from(s: &String) -> (r: Option<CharacterKey>)
    ensures
        r == location_of(s@),
{
    let v = chars_of(s.as_str());
    if !find_text(&v, "已装备") {
        return None;
    }
    proof {
        reveal_strlit("已装备");
        let i = choose|i: int| 0 <= i && i + "已装备"@.len() <= v@.len() && #[trigger] v@.subrange(i, i + "已装备"@.len()) == "已装备"@;
    }
    let n = v.len();
    let m = "已装备".unicode_len();
    let name = slice(&v, 0, n - m);
    let name_str = string_of_chars(&name);
    CharacterKey::from_zh_cn(name_str.as_str())
}

fn main_stat_from(name: &String, value: &String) -> (r: Option<ArtifactStat>)
    ensures
        r == stat_of(main_stat_text(name@, value@)),
{
    let n = chars_of(name.as_str());
    let v = chars_of(value.as_str());
    let mut joined: Vec<char> = Vec::new();
    let mut i: usize = 0;
    while i < n.len()
        invariant
            i <= n@.len(),
            joined@ == n@.subrange(0, i as int).map_values(|c: char| if c == '+' { '?' } else { c }),
        decreases n@.len() - i,
    {
        let c = if n[i] == '+' { '?' } else { n[i] };
        proof {
            assert(n@.subrange(0, i + 1).map_values(|c: char| if c == '+' { '?' } else { c }) =~= n@.subrange(0, i as int).map_values(|c: char| if c == '+' { '?' } else { c }).push(c));
        }
        joined.push(c);
        i = i + 1;
    }
    assert(n@.subrange(0, n@.len() as int) =~= n@);
    joined.push('+');
    let mut j: usize = 0;
    let ghost base = joined@;
    while j < v.len()
        invariant
            j <= v@.len(),
            joined@ == base + v@.subrange(0, j as int),
        decreases v@.len() - j,
    {
        proof {
            assert(v@.subrange(0, j + 1) =~= v@.subrange(0, j as int).push(v@[j as int]));
        }
        joined.push(v[j]);
        j = j + 1;
    }
    assert(v@.subrange(0, v@.len() as int) =~= v@);
    assert(joined@ =~= main_stat_text(name@, value@));
    let text = string_of_chars(&joined);
    ArtifactStat::from_zh_cn_raw(text.as_str())
}

impl YasScanResult {
    /// The item this panel shows, or `None` when the title, level or main
    /// stat does not read.
    pub fn to_internal_artifact(&self) -> (r: Option<InternalArtifact>)
        ensures
            r == artifact_of(self),
    {
        let set_key = match ArtifactSetKey::from_zh_cn(self.name.as_str()) {
            Some(k) => k,
            None => {
                return None;
            },
        };
        let slot_key = match ArtifactSlotKey::from_zh_cn(self.name.as_str()) {
            Some(k) => k,
            None => {
                return None;
            },
        };
        let level = match level_from(&self.level) {
            Some(l) => l,
            None => {
                return None;
            },
        };
        let main_stat = match main_stat_from(&self.main_stat_name, &self.main_stat_value) {
            Some(m) => m,
            None => {
                return None;
            },
        };
        Some(InternalArtifact {
            set_key,
            slot_key,
            rarity: self.rarity,
            level,
            lock: self.lock,
            location: location_from(&self.location),
            main_stat,
            sub_stat_1: ArtifactStat::from_zh_cn_raw(self.sub_stat_1.as_str()),
            sub_stat_2: ArtifactStat::from_zh_cn_raw(self.sub_stat_2.as_str()),
            sub_stat_3: ArtifactStat::from_zh_cn_raw(self.sub_stat_3.as_str()),
            sub_stat_4: ArtifactStat::from_zh_cn_raw(self.sub_stat_4.as_str()),
        })
    }

    /// The stand-in item for a panel that does not read, keeping the fields
    /// that do.
    pub fn to_fallback_artifact(&self) -> (r: InternalArtifact)
        ensures
            r == fallback_of(self),
    {
        let set_key = match ArtifactSetKey::from_zh_cn(self.name.as_str()) {
            Some(k) => k,
            None => ArtifactSetKey::GladiatorsFinale,
        };
        let slot_key = match ArtifactSlotKey::from_zh_cn(self.name.as_str()) {
            Some(k) => k,
            None => ArtifactSlotKey::Flower,
        };
        let level = match level_from(&self.level) {
            Some(l) => l,
            None => 0,
        };
        let main_stat = match main_stat_from(&self.main_stat_name, &self.main_stat_value) {
            Some(m) => m,
            None => ArtifactStat { key: ArtifactStatKey::Hp, value: 4_780_000 },
        };
        InternalArtifact {
            set_key,
            slot_key,
            rarity: self.rarity,
            level,
            lock: self.lock,
            location: location_from(&self.location),
            main_stat,
            sub_stat_1: ArtifactStat::from_zh_cn_raw(self.sub_stat_1.as_str()),
            sub_stat_2: ArtifactStat::from_zh_cn_raw(self.sub_stat_2.as_str()),
            sub_stat_3: ArtifactStat::from_zh_cn_raw(self.sub_stat_3.as_str()),
            sub_stat_4: ArtifactStat::from_zh_cn_raw(self.sub_stat_4.as_str()),
        }
    }
}

/// The item count in the inventory header `圣遗物 123/1500`: the number
/// between the fifth character and the last five.
pub open spec fn art_count_of(s: Seq<char>) -> Option<u32> {
    if has_prefix(s, "圣遗物"@) && s.len() >= 9 {
        u32_of(s.subrange(4, s.len() - 5))
    } else {
        None
    }
}

/// Reads the item count from the recognised inventory header.
pub fn parse_art_count(s: &str) -> (r: Option<u32>)
    ensures
        r == art_count_of(s@),
{
    let v = chars_of(s);
    let n = v.len();
    if !starts_with(&v, "圣遗物") || n < 9 {
        return None;
    }
    let body = slice(&v, 4, n - 5);
    let r = parse_u32(&body, 0);
    assert(body@.subrange(0, body@.len() as int) =~= body@);
    r
}

} // verus!
