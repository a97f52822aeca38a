use vstd::prelude::*;
use crate::error::YasError;
use crate::outside::{decode_u32_list, json_u32_list_of, regex_is_match, regex_match_of};

verus! {

/// An expected lock state for one item, checked before any toggle.
#[derive(Debug, Clone, Copy, PartialEq, Eq, Structural)]
pub struct LockValidationRecord {
    pub index: u32,
    pub locked: bool,
}

/// The structured lock instruction format.
#[derive(Debug)]
pub struct LockFormatV2 {
    pub version: u32,
    pub flip_indices: Vec<u32>,
    pub lock_indices: Vec<u32>,
    pub unlock_indices: Vec<u32>,
    pub validation: Vec<LockValidationRecord>,
}

/// What to do with one item.
#[derive(Debug, Clone, Copy, PartialEq, Eq, Structural)]
pub enum LockActionType {
    ValidateLocked,
    ValidateUnlocked,
    Lock,
    Unlock,
    Flip,
}

/// One action on the item at index `target`.
#[derive(Debug, Clone, Copy, PartialEq, Eq, Structural)]
pub struct LockAction {
    pub target: u32,
    pub type_: LockActionType,
}

/// Which of the two wire formats a payload is in.
#[derive(Debug, Clone, Copy, PartialEq, Eq, Structural)]
pub enum LockFormat {
    V1,
    V2,
    Unknown,
}

pub open spec fn is_validation(t: LockActionType) -> bool {
    t == LockActionType::ValidateLocked || t == LockActionType::ValidateUnlocked
}

pub open spec fn actions_of(targets: Seq<u32>, t: LockActionType) -> Seq<LockAction> {
    targets.map_values(|x: u32| LockAction { target: x, type_: t })
}

pub open spec fn validation_action(r: LockValidationRecord) -> LockAction {
    LockAction {
        target: r.index,
        type_: if r.locked {
            LockActionType::ValidateLocked
        } else {
            LockActionType::ValidateUnlocked
        },
    }
}

/// The actions of a structured payload in the order its lists give them.
pub open spec fn v2_actions(
    flips: Seq<u32>,
    locks: Seq<u32>,
    unlocks: Seq<u32>,
    validation: Seq<LockValidationRecord>,
) -> Seq<LockAction> {
    actions_of(flips, LockActionType::Flip) + actions_of(locks, LockActionType::Lock)
        + actions_of(unlocks, LockActionType::Unlock) + validation.map_values(
        |r: LockValidationRecord| validation_action(r),
    )
}

pub open spec fn sorted_by_target(s: Seq<LockAction>) -> bool {
    forall|i: int, j: int| 0 <= i < j < s.len() ==> s[i].target <= s[j].target
}

pub open spec fn with_target(t: u32) -> spec_fn(LockAction) -> bool {
    |a: LockAction| a.target == t
}

/// `r` is `s` sorted by target, actions on one target kept in the order `s`
/// gives them.
pub open spec fn stable_sorted(r: Seq<LockAction>, s: Seq<LockAction>) -> bool {
    &&& sorted_by_target(r)
    &&& forall|t: u32| #[trigger] r.filter(with_target(t)) == s.filter(with_target(t))
}

/// At most one click action and at most one validation per target.
pub open spec fn conflict_free(s: Seq<LockAction>) -> bool {
    forall|i: int, j: int|
        0 <= i < j < s.len() && #[trigger] s[i].target == #[trigger] s[j].target ==> is_validation(
            s[i].type_,
        ) != is_validation(s[j].type_)
}

/// Two actions of the same group on the same target.
pub open spec fn conflict_at(s: Seq<LockAction>, t: u32) -> bool {
    exists|i: int, j: int|
        0 <= i < j < s.len() && #[trigger] s[i].target == t && #[trigger] s[j].target == t
            && is_validation(s[i].type_) == is_validation(s[j].type_)
}

/// Inserting `x` after every action whose target is at most its own keeps
/// each target's actions in order, `x` last among its target's.
proof fn lemma_insert_keeps_order(before: Seq<LockAction>, pos: int, x: LockAction, done: Seq<LockAction>)
    requires
        0 <= pos <= before.len(),
        forall|k: int| pos <= k < before.len() ==> before[k].target > x.target,
        forall|t: u32| #[trigger] before.filter(with_target(t)) == done.filter(with_target(t)),
    ensures
        forall|t: u32| #[trigger] before.insert(pos, x).filter(with_target(t)) == done.push(x).filter(with_target(t)),
{
    reveal_with_fuel(Seq::filter, 2);
    let a = before.subrange(0, pos);
    let b = before.subrange(pos, before.len() as int);
    assert(before =~= a + b);
    assert(before.insert(pos, x) =~= a + seq![x] + b);
    assert forall|t: u32| #[trigger] before.insert(pos, x).filter(with_target(t)) == done.push(x).filter(with_target(t)) by {
        let f = with_target(t);
        Seq::filter_distributes_over_add(a + seq![x], b, f);
        Seq::filter_distributes_over_add(a, seq![x], f);
        Seq::filter_distributes_over_add(a, b, f);
        assert(done.push(x).drop_last() =~= done);
        assert(seq![x].drop_last() =~= Seq::<LockAction>::empty());
        if t == x.target {
            assert(b.all(|y: LockAction| !f(y))) by {
                assert forall|k: int| 0 <= k < b.len() implies !f(b[k]) by {
                    assert(b[k] == before[pos + k]);
                }
            }
            b.lemma_all_neg_filter_empty(f);
            assert(b.filter(f) =~= Seq::<LockAction>::empty());
            assert(seq![x].filter(f) =~= seq![x]);
            assert(before.insert(pos, x).filter(f) =~= before.filter(f).push(x));
        } else {
            assert(seq![x].filter(f) =~= Seq::<LockAction>::empty());
            assert(before.insert(pos, x).filter(f) =~= before.filter(f));
        }
    }
}

proof fn lemma_insert_multiset(s: Seq<LockAction>, pos: int, x: LockAction)
    requires
        0 <= pos <= s.len(),
    ensures
        s.insert(pos, x).to_multiset() =~= s.to_multiset().insert(x),
{
    broadcast use vstd::seq_lib::group_to_multiset_ensures;
    let a = s.subrange(0, pos);
    let b = s.subrange(pos, s.len() as int);
    assert(s =~= a + b);
    assert(s.insert(pos, x) =~= a.push(x) + b);
    vstd::seq_lib::lemma_multiset_commutative(a.push(x), b);
    vstd::seq_lib::lemma_multiset_commutative(a, b);
}

/// Sorts by target, keeping the given order among equal targets.
fn sort_by_target(actions: Vec<LockAction>) -> (r: Vec<LockAction>)
    ensures
        stable_sorted(r@, actions@),
        r@.to_multiset() =~= actions@.to_multiset(),
{
    broadcast use vstd::seq_lib::group_to_multiset_ensures;
    let mut out: Vec<LockAction> = Vec::new();
    let mut i: usize = 0;
    while i < actions.len()
        invariant
            i <= actions@.len(),
            sorted_by_target(out@),
            out@.to_multiset() =~= actions@.subrange(0, i as int).to_multiset(),
            forall|t: u32| #[trigger] out@.filter(with_target(t)) == actions@.subrange(0, i as int).filter(with_target(t)),
        decreases actions@.len() - i,
    {
        let x = actions[i];
        let mut pos: usize = 0;
        while pos < out.len() && out[pos].target <= x.target
            invariant
                pos <= out@.len(),
                forall|k: int| 0 <= k < pos ==> out@[k].target <= x.target,
            decreases out@.len() - pos,
        {
            pos = pos + 1;
        }
        proof {
            lemma_insert_multiset(out@, pos as int, x);
            assert(actions@.subrange(0, i + 1) =~= actions@.subrange(0, i as int).push(x));
        }
        let ghost before = out@;
        out.insert(pos, x);
        proof {
            actions@.subrange(0, i as int).to_multiset_ensures();
            assert(actions@.subrange(0, i as int).push(x).to_multiset() =~= actions@.subrange(
                0,
                i as int,
            ).to_multiset().insert(x));
            assert(out@.to_multiset() =~= before.to_multiset().insert(x));
        }
        proof {
            lemma_insert_keeps_order(before, pos as int, x, actions@.subrange(0, i as int));
            assert(actions@.subrange(0, i + 1) =~= actions@.subrange(0, i as int).push(x));
        }
        assert(sorted_by_target(out@)) by {
            assert forall|a: int, b: int| 0 <= a < b < out@.len() implies out@[a].target
                <= out@[b].target by {
                if a < pos && b == pos {
                } else if a == pos && b > pos {
                    assert(before[pos as int].target > x.target);
                    assert(before[pos as int].target <= before[b - 1].target);
                } else if a < pos && b > pos {
                    assert(before[a].target <= before[b - 1].target);
                } else if a > pos {
                    assert(before[a - 1].target <= before[b - 1].target);
                } else {
                }
            }
        }
        i = i + 1;
    }
    assert(actions@.subrange(0, actions@.len() as int) =~= actions@);
    out
}

fn push_all(out: &mut Vec<LockAction>, targets: &Vec<u32>, t: LockActionType)
    ensures
        final(out)@ == old(out)@ + actions_of(targets@, t),
{
    let mut i: usize = 0;
    while i < targets.len()
        invariant
            i <= targets@.len(),
            out@ == old(out)@ + actions_of(targets@.subrange(0, i as int), t),
        decreases targets@.len() - i,
    {
        proof {
            assert(actions_of(targets@.subrange(0, i + 1), t) =~= actions_of(
                targets@.subrange(0, i as int),
                t,
            ).push(LockAction { target: targets@[i as int], type_: t }));
        }
        out.push(LockAction { target: targets[i], type_: t });
        i = i + 1;
    }
    assert(targets@.subrange(0, targets@.len() as int) =~= targets@);
}

impl LockAction {
    /// One flip per index, sorted by index.
    pub fn from_v1(flip_indices: &Vec<u32>) -> (r: Vec<LockAction>)
        ensures
            stable_sorted(r@, actions_of(flip_indices@, LockActionType::Flip)),
            r@.to_multiset() =~= actions_of(flip_indices@, LockActionType::Flip).to_multiset(),
    {
        let mut actions: Vec<LockAction> = Vec::new();
        push_all(&mut actions, flip_indices, LockActionType::Flip);
        sort_by_target(actions)
    }

    /// The flips, locks, unlocks and validations of a structured payload,
    /// sorted by index.
    pub fn from_v2(data: &LockFormatV2) -> (r: Vec<LockAction>)
        ensures
            stable_sorted(r@, v2_actions(
                data.flip_indices@,
                data.lock_indices@,
                data.unlock_indices@,
                data.validation@,
            )),
            r@.to_multiset() =~= v2_actions(
                data.flip_indices@,
                data.lock_indices@,
                data.unlock_indices@,
                data.validation@,
            ).to_multiset(),
    {
        let mut actions: Vec<LockAction> = Vec::new();
        push_all(&mut actions, &data.flip_indices, LockActionType::Flip);
        push_all(&mut actions, &data.lock_indices, LockActionType::Lock);
        push_all(&mut actions, &data.unlock_indices, LockActionType::Unlock);
        let ghost before = actions@;
        let mut i: usize = 0;
        while i < data.validation.len()
            invariant
                i <= data.validation@.len(),
                actions@ == before + data.validation@.subrange(0, i as int).map_values(
                    |r: LockValidationRecord| validation_action(r),
                ),
            decreases data.validation@.len() - i,
        {
            let rec = data.validation[i];
            let t = if rec.locked {
                LockActionType::ValidateLocked
            } else {
                LockActionType::ValidateUnlocked
            };
            proof {
                assert(data.validation@.subrange(0, i + 1).map_values(
                    |r: LockValidationRecord| validation_action(r),
                ) =~= data.validation@.subrange(0, i as int).map_values(
                    |r: LockValidationRecord| validation_action(r),
                ).push(validation_action(rec)));
            }
            actions.push(LockAction { target: rec.index, type_: t });
            i = i + 1;
        }
        assert(data.validation@.subrange(0, data.validation@.len() as int) =~= data.validation@);
        sort_by_target(actions)
    }

    /// Checks a sorted schedule for two click actions, or two validations, on
    /// one target.
    pub fn validate(actions: &Vec<LockAction>) -> (r: Result<(), YasError>)
        requires
            sorted_by_target(actions@),
        ensures
            r is Ok <==> conflict_free(actions@),
            r matches Err(e) ==> (e matches YasError::LockConflict(t) && conflict_at(actions@, t)),
    {
        let ghost s = actions@;
        let mut a_target: u32 = u32::MAX;
        let mut has_validation = false;
        let mut has_click = false;
        let mut k: usize = 0;
        while k < actions.len()
            invariant
                k <= s.len(),
                s == actions@,
                sorted_by_target(s),
                conflict_free(s.subrange(0, k as int)),
                k > 0 ==> a_target == s[k - 1].target,
                k == 0 ==> !has_validation && !has_click,
                has_validation == exists|i: int|
                    0 <= i < k && #[trigger] s[i].target == a_target && is_validation(s[i].type_),
                has_click == exists|i: int|
                    0 <= i < k && #[trigger] s[i].target == a_target && !is_validation(s[i].type_),
            decreases s.len() - k,
        {
            let a = actions[k];
            if a.target != a_target {
                proof {
                    if k > 0 {
                        assert(s[k - 1].target <= a.target);
                        assert forall|i: int| 0 <= i < k implies #[trigger] s[i].target != a.target by {
                            assert(s[i].target <= s[k - 1].target);
                        }
                    }
                }
                a_target = a.target;
                has_validation = false;
                has_click = false;
            }
            let v = a.type_ == LockActionType::ValidateLocked || a.type_ == LockActionType::ValidateUnlocked;
            if (v && has_validation) || (!v && has_click) {
                proof {
                    if v {
                        let i = choose|i: int| 0 <= i < k && #[trigger] s[i].target == a_target && is_validation(s[i].type_);
                        assert(s[i].target == a_target && s[k as int].target == a_target);
                    } else {
                        let i = choose|i: int| 0 <= i < k && #[trigger] s[i].target == a_target && !is_validation(s[i].type_);
                        assert(s[i].target == a_target && s[k as int].target == a_target);
                    }
                }
                return Err(YasError::LockConflict(a_target));
            }
            proof {
                assert forall|i: int, j: int|
                    0 <= i < j < k + 1 && #[trigger] s.subrange(0, k + 1)[i].target
                        == #[trigger] s.subrange(0, k + 1)[j].target implies is_validation(
                    s.subrange(0, k + 1)[i].type_,
                ) != is_validation(s.subrange(0, k + 1)[j].type_) by {
                    if j < k {
                        assert(s.subrange(0, k as int)[i] == s[i]);
                        assert(s.subrange(0, k as int)[j] == s[j]);
                    }
                }
            }
            if v {
                has_validation = true;
            } else {
                has_click = true;
            }
            k = k + 1;
        }
        assert(s.subrange(0, s.len() as int) =~= s);
        Ok(())
    }
}


/// The whole payload is a bracketed list of digits, commas and blanks.
pub open spec fn v1_pattern() -> Seq<char> {
    "^\\s*\\[[\\d,\\s]*\\]\\s*$"@
}

/// The payload holds a `"version": 2` key.
pub open spec fn v2_pattern() -> Seq<char> {
    "\"version\"\\s*:\\s*2"@
}

pub open spec fn lock_format_of(s: Seq<char>) -> LockFormat {
    if regex_match_of(v1_pattern(), s) == Some(true) {
        LockFormat::V1
    } else if regex_match_of(v2_pattern(), s) == Some(true) {
        LockFormat::V2
    } else {
        LockFormat::Unknown
    }
}

/// Whether the action needs a toggle, given the item's current lock state.
pub open spec fn needs_toggle(t: LockActionType, locked: bool) -> bool {
    t == LockActionType::Flip || (t == LockActionType::Lock && !locked) || (t
        == LockActionType::Unlock && locked)
}

/// Whether a validation disagrees with the item's current lock state.
pub open spec fn mismatches(t: LockActionType, locked: bool) -> bool {
    (t == LockActionType::ValidateLocked && !locked) || (t == LockActionType::ValidateUnlocked
        && locked)
}

/// The lock state read for the action's item on a page starting at `start_art`.
pub open spec fn state_of(a: LockAction, start_art: u32, locks: Seq<bool>) -> bool {
    locks[a.target - start_art]
}

/// Page positions to toggle for the actions `s[start..end]`, in order.
pub open spec fn toggles(
    s: Seq<LockAction>,
    start: int,
    end: int,
    start_art: u32,
    locks: Seq<bool>,
) -> Seq<u32>
    decreases end - start,
{
    if end <= start {
        Seq::empty()
    } else {
        let a = s[end - 1];
        let prev = toggles(s, start, end - 1, start_art, locks);
        if needs_toggle(a.type_, state_of(a, start_art, locks)) {
            prev.push((a.target - start_art) as u32)
        } else {
            prev
        }
    }
}

/// The page layout can read the state of every action in `s[start..end]`
/// that depends on it.
pub open spec fn page_readable(
    s: Seq<LockAction>,
    start: int,
    end: int,
    start_art: u32,
    locks: Seq<bool>,
) -> bool {
    &&& 0 <= start <= end <= s.len()
    &&& forall|k: int| start <= k < end ==> start_art <= #[trigger] s[k].target
    &&& forall|k: int|
        start <= k < end && #[trigger] s[k].type_ != LockActionType::Flip ==> s[k].target
            - start_art < locks.len()
}

impl LockAction {
    /// Which wire format a lock payload is in.
    pub fn detect_format(json_str: &str) -> (r: LockFormat)
        ensures
            r == lock_format_of(json_str@),
    {
        let v1 = regex_is_match("^\\s*\\[[\\d,\\s]*\\]\\s*$", json_str);
        if v1 == Some(true) {
            return LockFormat::V1;
        }
        let v2 = regex_is_match("\"version\"\\s*:\\s*2", json_str);
        if v2 == Some(true) {
            return LockFormat::V2;
        }
        LockFormat::Unknown
    }

    /// Decodes and checks a flat list of indices to flip.
    pub fn from_v1_json(json_str: &str) -> (r: Result<Vec<LockAction>, YasError>)
        ensures
            json_u32_list_of(json_str@) is None ==> r == Err::<Vec<LockAction>, YasError>(YasError::LockDecode),
            json_u32_list_of(json_str@) matches Some(l) ==> {
                let all = actions_of(l, LockActionType::Flip);
                &&& (r is Ok <==> conflict_free(all))
                &&& r matches Ok(v) ==> stable_sorted(v@, all) && v@.to_multiset() =~= all.to_multiset()
                &&& r matches Err(e) ==> e matches YasError::LockConflict(t) && exists|i: int, j: int| 0 <= i < j < l.len() && l[i] == t && l[j] == t
            },
    {
        let flips = match decode_u32_list(json_str) {
            Ok(v) => v,
            Err(_) => {
                return Err(YasError::LockDecode);
            },
        };
        let actions = Self::from_v1(&flips);
        proof {
            lemma_conflict_free_multiset(actions@, actions_of(flips@, LockActionType::Flip));
        }
        match Self::validate(&actions) {
            Ok(()) => Ok(actions),
            Err(e) => {
                proof {
                    lemma_flip_conflict(actions@, flips@);
                }
                Err(e)
            },
        }
    }

    /// Normalises and checks a structured payload.
    pub fn from_v2_checked(data: &LockFormatV2) -> (r: Result<Vec<LockAction>, YasError>)
        ensures
            ({
                let all = v2_actions(
                    data.flip_indices@,
                    data.lock_indices@,
                    data.unlock_indices@,
                    data.validation@,
                );
                &&& (r is Ok <==> conflict_free(all))
                &&& r matches Ok(v) ==> stable_sorted(v@, all) && v@.to_multiset() =~= all.to_multiset()
                &&& r matches Err(e) ==> e matches YasError::LockConflict(t)
            }),
    {
        let actions = Self::from_v2(data);
        let r = Self::validate(&actions);
        proof {
            lemma_conflict_free_multiset(actions@, v2_actions(
                data.flip_indices@,
                data.lock_indices@,
                data.unlock_indices@,
                data.validation@,
            ));
        }
        match r {
            Ok(()) => Ok(actions),
            Err(e) => Err(e),
        }
    }

    /// Fails when a sorted schedule targets an index at or beyond `total`.
    pub fn check_targets(actions: &Vec<LockAction>, total: u32) -> (r: Result<(), YasError>)
        requires
            sorted_by_target(actions@),
        ensures
            r is Ok <==> forall|k: int| 0 <= k < actions@.len() ==> #[trigger] actions@[k].target < total,
            r matches Err(e) ==> e == YasError::TargetOutOfRange(actions@.last().target),
    {
        if actions.len() == 0 {
            return Ok(());
        }
        let last = actions[actions.len() - 1].target;
        if last >= total {
            return Err(YasError::TargetOutOfRange(last));
        }
        assert forall|k: int| 0 <= k < actions@.len() implies #[trigger] actions@[k].target < total by {
            if k < actions@.len() - 1 {
                assert(actions@[k].target <= actions@[actions@.len() - 1].target);
            }
        }
        Ok(())
    }

    /// One past the last action from `start` on whose target lies before
    /// `end_art`.
    pub fn page_end(actions: &Vec<LockAction>, start: usize, end_art: u32) -> (r: usize)
        requires
            start <= actions@.len(),
        ensures
            start <= r <= actions@.len(),
            forall|k: int| start <= k < r ==> #[trigger] actions@[k].target < end_art,
            r < actions@.len() ==> actions@[r as int].target >= end_art,
    {
        let mut e = start;
        while e < actions.len() && actions[e].target < end_art
            invariant
                start <= e <= actions@.len(),
                forall|k: int| start <= k < e ==> #[trigger] actions@[k].target < end_art,
            decreases actions@.len() - e,
        {
            e = e + 1;
        }
        e
    }

    /// Whether the lock states of a page must be read before acting on
    /// `actions[start..end]`: always when flips are to be awaited, else only
    /// when some action there is not a flip.
    pub fn page_needs_locks(actions: &Vec<LockAction>, start: usize, end: usize, await_flips: bool) -> (r: bool)
        requires
            start <= end <= actions@.len(),
        ensures
            r == (await_flips || exists|k: int| start <= k < end && #[trigger] actions@[k].type_ != LockActionType::Flip),
    {
        let mut needs = await_flips;
        let mut i = start;
        while i < end
            invariant
                start <= i <= end <= actions@.len(),
                needs == (await_flips || exists|k: int| start <= k < i && #[trigger] actions@[k].type_ != LockActionType::Flip),
            decreases end - i,
        {
            if actions[i].type_ != LockActionType::Flip {
                needs = true;
            }
            i = i + 1;
        }
        needs
    }

    /// Checks the validations of `actions[start..end]` against the page's lock
    /// states, then lists the page positions to toggle. A mismatch fails the
    /// page before any toggle is listed.
    pub fn plan_page(
        actions: &Vec<LockAction>,
        start: usize,
        end: usize,
        start_art: u32,
        locks: &Vec<bool>,
    ) -> (r: Result<Vec<u32>, YasError>)
        requires
            page_readable(actions@, start as int, end as int, start_art, locks@),
        ensures
            (r is Err) <==> exists|k: int|
                start <= k < end && #[trigger] mismatches(
                    actions@[k].type_,
                    state_of(actions@[k], start_art, locks@),
                ),
            r matches Err(e) ==> exists|k: int|
                start <= k < end && e == YasError::ValidationMismatch(actions@[k].target)
                    && #[trigger] mismatches(actions@[k].type_, state_of(actions@[k], start_art, locks@)),
            r matches Ok(v) ==> v@ == toggles(actions@, start as int, end as int, start_art, locks@),
    {
        let mut i = start;
        while i < end
            invariant
                page_readable(actions@, start as int, end as int, start_art, locks@),
                start <= i <= end,
                forall|k: int|
                    start <= k < i ==> !#[trigger] mismatches(
                        actions@[k].type_,
                        state_of(actions@[k], start_art, locks@),
                    ),
            decreases end - i,
        {
            let a = actions[i];
            if a.type_ == LockActionType::ValidateLocked || a.type_ == LockActionType::ValidateUnlocked {
                let locked = locks[(a.target - start_art) as usize];
                if (a.type_ == LockActionType::ValidateLocked && !locked) || (a.type_
                    == LockActionType::ValidateUnlocked && locked) {
                    assert(mismatches(actions@[i as int].type_, state_of(actions@[i as int], start_art, locks@)));
                    return Err(YasError::ValidationMismatch(a.target));
                }
            }
            i = i + 1;
        }
        let mut out: Vec<u32> = Vec::new();
        let mut j = start;
        while j < end
            invariant
                page_readable(actions@, start as int, end as int, start_art, locks@),
                start <= j <= end,
                out@ == toggles(actions@, start as int, j as int, start_art, locks@),
            decreases end - j,
        {
            let a = actions[j];
            let p: u32 = a.target - start_art;
            if a.type_ == LockActionType::Flip {
                out.push(p);
            } else {
                let locked = locks[p as usize];
                if (a.type_ == LockActionType::Lock && !locked) || (a.type_ == LockActionType::Unlock && locked) {
                    out.push(p);
                }
            }
            j = j + 1;
        }
        Ok(out)
    }

    /// Rows to scroll to reach the next page, or `None` when the last page is
    /// on screen or no action is left.
    pub fn page_scroll(total_rows: u32, scrolled_rows: u32, rows: u32, actions_left: bool) -> (r: Option<u32>)
        ensures
            (total_rows as int <= scrolled_rows as int + rows as int || !actions_left) ==> r is None,
            (total_rows as int > scrolled_rows as int + rows as int && actions_left) ==> r == Some(
                vstd::math::min(total_rows as int - scrolled_rows as int - rows as int, rows as int) as u32,
            ),
    {
        if total_rows as u64 <= scrolled_rows as u64 + rows as u64 || !actions_left {
            return None;
        }
        let remaining = total_rows - scrolled_rows - rows;
        if remaining < rows {
            Some(remaining)
        } else {
            Some(rows)
        }
    }
}

/// Conflicts depend on the multiset of actions only.
proof fn lemma_conflict_free_multiset(a: Seq<LockAction>, b: Seq<LockAction>)
    requires
        a.to_multiset() =~= b.to_multiset(),
    ensures
        conflict_free(a) <==> conflict_free(b),
{
    if conflict_free(a) {
        lemma_conflict_free_one_way(a, b);
    }
    if conflict_free(b) {
        lemma_conflict_free_one_way(b, a);
    }
}

proof fn lemma_conflict_free_one_way(a: Seq<LockAction>, b: Seq<LockAction>)
    requires
        a.to_multiset() =~= b.to_multiset(),
        conflict_free(a),
    ensures
        conflict_free(b),
{
    broadcast use vstd::seq_lib::group_to_multiset_ensures;
    broadcast use vstd::multiset::group_multiset_axioms;
    if !conflict_free(b) {
        let (i, j) = choose|i: int, j: int|
            0 <= i < j < b.len() && #[trigger] b[i].target == #[trigger] b[j].target
                && is_validation(b[i].type_) == is_validation(b[j].type_);
        let x = b[i];
        let y = b[j];
        assert(b.contains(x));
        assert(b.to_multiset().count(x) > 0);
        assert(a.to_multiset().count(x) > 0);
        assert(a.contains(x));
        let ia = choose|k: int| 0 <= k < a.len() && a[k] == x;
        if x == y {
            lemma_count_two(b, i, j);
            assert(a.to_multiset().count(x) >= 2);
            lemma_second_index(a, ia);
            let ja = choose|k: int| 0 <= k < a.len() && k != ia && a[k] == x;
            if ia < ja {
                assert(a[ia].target == a[ja].target);
            } else {
                assert(a[ja].target == a[ia].target);
            }
        } else {
            assert(b.contains(y));
            assert(b.to_multiset().count(y) > 0);
            assert(a.to_multiset().count(y) > 0);
            assert(a.contains(y));
            let ja = choose|k: int| 0 <= k < a.len() && a[k] == y;
            if ia < ja {
                assert(a[ia].target == a[ja].target);
            } else {
                assert(a[ja].target == a[ia].target);
            }
        }
    }
}

/// Two equal entries at distinct indices count twice.
proof fn lemma_count_two(s: Seq<LockAction>, i: int, j: int)
    requires
        0 <= i < j < s.len(),
        s[i] == s[j],
    ensures
        s.to_multiset().count(s[i]) >= 2,
{
    broadcast use vstd::seq_lib::group_to_multiset_ensures;
    broadcast use vstd::multiset::group_multiset_axioms;
    let x = s[i];
    let r = s.remove(j);
    assert(r[i] == x);
    assert(r.contains(x));
    assert(s.remove(j).to_multiset() =~= s.to_multiset().remove(x));
    assert(r.to_multiset().count(x) > 0);
    assert(s.to_multiset().remove(x).count(x) > 0);
}

/// An entry that the multiset counts twice occurs at another index too.
proof fn lemma_second_index(s: Seq<LockAction>, i: int)
    requires
        0 <= i < s.len(),
        s.to_multiset().count(s[i]) >= 2,
    ensures
        exists|k: int| 0 <= k < s.len() && k != i && s[k] == s[i],
{
    broadcast use vstd::seq_lib::group_to_multiset_ensures;
    broadcast use vstd::multiset::group_multiset_axioms;
    let x = s[i];
    let r = s.remove(i);
    assert(s.remove(i).to_multiset() =~= s.to_multiset().remove(x));
    assert(s.to_multiset().remove(x).count(x) == s.to_multiset().count(x) - 1);
    assert(r.to_multiset().count(x) >= 1);
    assert(r.contains(x));
    let k = choose|k: int| 0 <= k < r.len() && r[k] == x;
    if k < i {
        assert(s[k] == x);
    } else {
        assert(s[k + 1] == x);
    }
}

/// A conflict among sorted flips names an index listed twice.
proof fn lemma_flip_conflict(actions: Seq<LockAction>, flips: Seq<u32>)
    requires
        actions.to_multiset() =~= actions_of(flips, LockActionType::Flip).to_multiset(),
    ensures
        forall|t: u32| conflict_at(actions, t) ==> exists|i: int, j: int|
            0 <= i < j < flips.len() && flips[i] == t && flips[j] == t,
{
    broadcast use vstd::seq_lib::group_to_multiset_ensures;
    broadcast use vstd::multiset::group_multiset_axioms;
    let all = actions_of(flips, LockActionType::Flip);
    assert forall|t: u32| conflict_at(actions, t) implies exists|i: int, j: int|
        0 <= i < j < flips.len() && flips[i] == t && flips[j] == t by {
        let (i, j) = choose|i: int, j: int|
            0 <= i < j < actions.len() && #[trigger] actions[i].target == t && #[trigger] actions[j].target == t
                && is_validation(actions[i].type_) == is_validation(actions[j].type_);
        let x = actions[i];
        assert(actions.contains(x));
        assert(actions.to_multiset().count(x) > 0);
        assert(all.to_multiset().count(x) > 0);
        assert(all.contains(x));
        assert(x == LockAction { target: t, type_: LockActionType::Flip });
        let y = actions[j];
        assert(actions.contains(y));
        assert(actions.to_multiset().count(y) > 0);
        assert(all.to_multiset().count(y) > 0);
        assert(all.contains(y));
        assert(actions[j] == x);
        lemma_count_two(actions, i, j);
        assert(all.to_multiset().count(x) >= 2);
        let ia = choose|k: int| 0 <= k < all.len() && all[k] == x;
        lemma_second_index(all, ia);
        let ja = choose|k: int| 0 <= k < all.len() && k != ia && all[k] == x;
        assert(flips[ia] == t && flips[ja] == t);
        if ia < ja {
        } else {
            assert(flips[ja] == t && flips[ia] == t);
        }
    }
}

} // verus!
