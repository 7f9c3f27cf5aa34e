//! Item condition levels and physical containment measures.

use vstd::prelude::*;

use crate::text::{string_views, strings_contain};

verus! {

/// Display damage levels run from 0 (pristine) to 5.
pub const MAX_ITEM_DAMAGE_LEVEL: u16 = 5;
/// Maximum raw damage of an ordinary damageable item.
pub const MAX_ITEM_RAW_DAMAGE: u16 = 4_000;

pub open spec fn damage_level_of(raw_damage: u16) -> u16 {
    if raw_damage == 0 {
        0
    } else {
        (1 + 4 * raw_damage as nat / MAX_ITEM_RAW_DAMAGE as nat) as u16
    }
}

pub open spec fn minimum_raw_damage_of(level: u16) -> Option<u16> {
    if level == 0 {
        Some(0)
    } else if level == 1 {
        Some(1)
    } else if level <= 5 {
        Some(((level - 1) * 1000) as u16)
    } else {
        None
    }
}

/// Display damage level of a raw damage value.
pub fn item_damage_level(raw_damage: u16) -> (r: u16)
    requires
        4 * raw_damage <= u16::MAX,
    ensures
        r == damage_level_of(raw_damage),
{
    if raw_damage == 0 {
        0
    } else {
        1 + (4 * raw_damage / MAX_ITEM_RAW_DAMAGE)
    }
}

/// Smallest raw damage that displays as `level`, if the level exists.
pub fn minimum_raw_damage_for_level(level: u16) -> (r: Option<u16>)
    ensures
        r == minimum_raw_damage_of(level),
{
    match level {
        0 => Some(0),
        1 => Some(1),
        2 => Some(1_000),
        3 => Some(2_000),
        4 => Some(3_000),
        5 => Some(4_000),
        _ => None,
    }
}

/// Every displayable level is reached exactly at its minimum raw damage, and
/// a raw damage value never lies below the minimum of its own level.
pub proof fn lemma_damage_level_round_trip(level: u16, raw_damage: u16)
    requires
        raw_damage <= MAX_ITEM_RAW_DAMAGE,
    ensures
        level <= MAX_ITEM_DAMAGE_LEVEL ==> minimum_raw_damage_of(level) is Some
            && damage_level_of(minimum_raw_damage_of(level)->0) == level,
        level > MAX_ITEM_DAMAGE_LEVEL ==> minimum_raw_damage_of(level) is None,
        damage_level_of(raw_damage) <= MAX_ITEM_DAMAGE_LEVEL,
        minimum_raw_damage_of(damage_level_of(raw_damage)) matches Some(m) && m <= raw_damage,
        damage_level_of(raw_damage) < MAX_ITEM_DAMAGE_LEVEL ==> (minimum_raw_damage_of(
            (damage_level_of(raw_damage) + 1) as u16,
        ) matches Some(m) && raw_damage < m),
{
}

#[derive(Clone, Copy, Debug, PartialEq, Eq, Structural)]
pub enum ItemPhaseV1 {
    Solid,
    Liquid,
    Gas,
}

impl Default for ItemPhaseV1 {
    fn default() -> (r: Self)
        ensures
            r == ItemPhaseV1::Solid,
    {
        ItemPhaseV1::Solid
    }
}

#[derive(Clone, Debug, PartialEq, Eq)]
pub struct ItemContainmentProfileV1 {
    /// Finalized type weight; multiplied by charges only for count-by-charges items.
    pub weight_milligrams: u64,
    /// Finalized type volume; charge-scaled volume divides by `stack_size`, rounding up.
    pub volume_milliliters: u64,
    pub longest_side_millimeters: u64,
    pub flags: Vec<String>,
    pub estorable: bool,
    pub phase: ItemPhaseV1,
    pub count_by_charges: bool,
    pub stack_size: u32,
}

impl Default for ItemContainmentProfileV1 {
    fn default() -> (r: Self)
        ensures
            r.weight_milligrams == 0,
            r.volume_milliliters == 0,
            r.longest_side_millimeters == 0,
            r.flags@.len() == 0,
            !r.estorable,
            r.phase == ItemPhaseV1::Solid,
            !r.count_by_charges,
            r.stack_size == 0,
    {
        ItemContainmentProfileV1 {
            weight_milligrams: 0,
            volume_milliliters: 0,
            longest_side_millimeters: 0,
            flags: Vec::new(),
            estorable: false,
            phase: ItemPhaseV1::Solid,
            count_by_charges: false,
            stack_size: 0,
        }
    }
}

pub open spec fn profile_has_flag(profile: ItemContainmentProfileV1, flag: Seq<char>) -> bool {
    string_views(profile.flags@).contains(flag)
}

/// Whether the profile carries `expected` among its flags.
pub fn item_profile_has_flag(profile: &ItemContainmentProfileV1, expected: &str) -> (r: bool)
    ensures
        r == profile_has_flag(*profile, expected@),
{
    strings_contain(&profile.flags, expected)
}

/// Containment weight: zero for `NO_DROP`, charge-scaled for count-by-charges
/// items, and three quarters (rounded down) for `REDUCED_WEIGHT`; `None` on a
/// negative charge count or overflow.
pub open spec fn containment_weight(profile: ItemContainmentProfileV1, charges: i32) -> Option<u64> {
    if profile_has_flag(profile, "NO_DROP"@) {
        Some(0)
    } else if profile.count_by_charges && charges < 0 {
        None
    } else {
        let weight: int = if profile.count_by_charges {
            profile.weight_milligrams * charges
        } else {
            profile.weight_milligrams as int
        };
        if weight > u64::MAX {
            None
        } else if profile_has_flag(profile, "REDUCED_WEIGHT"@) {
            if weight * 3 > u64::MAX {
                None
            } else {
                Some((weight * 3 / 4) as u64)
            }
        } else {
            Some(weight as u64)
        }
    }
}

pub fn item_containment_weight_milligrams(profile: &ItemContainmentProfileV1, charges: i32) -> (r:
    Option<u64>)
    ensures
        r == containment_weight(*profile, charges),
{
    if item_profile_has_flag(profile, "NO_DROP") {
        return Some(0);
    }
    let weight = if profile.count_by_charges {
        if charges < 0 {
            return None;
        }
        match profile.weight_milligrams.checked_mul(charges as u64) {
            Some(w) => w,
            None => return None,
        }
    } else {
        profile.weight_milligrams
    };
    if item_profile_has_flag(profile, "REDUCED_WEIGHT") {
        match weight.checked_mul(3) {
            Some(w) => Some(w / 4),
            None => None,
        }
    } else {
        Some(weight)
    }
}

/// Containment volume: the type volume for ordinary solids, otherwise the
/// charge-scaled volume divided by the stack size and rounded up.
pub open spec fn containment_volume(profile: ItemContainmentProfileV1, charges: i32) -> Option<u64> {
    if !profile.count_by_charges && profile.phase != ItemPhaseV1::Liquid {
        Some(profile.volume_milliliters)
    } else if charges < 0 {
        None
    } else {
        let numerator = profile.volume_milliliters * charges;
        if numerator > u64::MAX {
            None
        } else if profile.stack_size == 0 {
            Some(numerator as u64)
        } else if numerator + profile.stack_size - 1 > u64::MAX {
            None
        } else {
            Some(((numerator + profile.stack_size - 1) / profile.stack_size as int) as u64)
        }
    }
}

pub fn item_containment_volume_milliliters(profile: &ItemContainmentProfileV1, charges: i32) -> (r:
    Option<u64>)
    ensures
        r == containment_volume(*profile, charges),
{
    if !profile.count_by_charges && profile.phase != ItemPhaseV1::Liquid {
        return Some(profile.volume_milliliters);
    }
    if charges < 0 {
        return None;
    }
    let numerator = match profile.volume_milliliters.checked_mul(charges as u64) {
        Some(n) => n,
        None => return None,
    };
    if profile.stack_size == 0 {
        return Some(numerator);
    }
    match numerator.checked_add(profile.stack_size as u64 - 1) {
        Some(rounded) => Some(rounded / profile.stack_size as u64),
        None => None,
    }
}

pub fn item_containment_single_charge_volume_milliliters(profile: &ItemContainmentProfileV1) -> (r:
    Option<u64>)
    ensures
        r == containment_volume(*profile, 1),
{
    item_containment_volume_milliliters(profile, 1)
}

/// A profile carrying neither `NO_DROP` nor `REDUCED_WEIGHT`.
pub open spec fn plain_weight_flags(profile: ItemContainmentProfileV1) -> bool {
    !string_views(profile.flags@).contains("NO_DROP"@) && !string_views(profile.flags@).contains("REDUCED_WEIGHT"@)
}

/// A stack counted by charges weighs its per-charge weight times its charge
/// count, whenever that product fits.
pub proof fn law_stack_weight_scales_with_charges(profile: ItemContainmentProfileV1, charges: i32)
    requires
        profile.count_by_charges,
        plain_weight_flags(profile),
        charges >= 0,
        profile.weight_milligrams * charges <= u64::MAX,
    ensures
        containment_weight(profile, charges) == Some((profile.weight_milligrams * charges) as u64),
{
}

/// Two stacks of one profile weigh together what one stack of all their
/// charges weighs.
pub proof fn law_stack_weights_add(profile: ItemContainmentProfileV1, a: i32, b: i32)
    requires
        profile.count_by_charges,
        plain_weight_flags(profile),
        a >= 0,
        b >= 0,
        a + b <= i32::MAX,
        profile.weight_milligrams * (a + b) <= u64::MAX,
    ensures
        containment_weight(profile, (a + b) as i32) matches Some(total) && containment_weight(profile, a) matches Some(
            x,
        ) && containment_weight(profile, b) matches Some(y) && total == x + y,
{
    let w = profile.weight_milligrams as int;
    assert(w * (a + b) == w * a + w * b && 0 <= w * a <= w * (a + b) && 0 <= w * b <= w * (a + b)) by (nonlinear_arith)
        requires w >= 0, a >= 0, b >= 0;
}

/// An item that is not counted by charges weighs the same whatever its
/// charge count; a `NO_DROP` item weighs nothing; a `REDUCED_WEIGHT` item
/// weighs three quarters of its type weight, rounded down.
pub proof fn law_single_item_weight(profile: ItemContainmentProfileV1, a: i32, b: i32)
    ensures
        !profile.count_by_charges ==> containment_weight(profile, a) == containment_weight(profile, b),
        string_views(profile.flags@).contains("NO_DROP"@) ==> containment_weight(profile, a) == Some(0u64),
        !profile.count_by_charges && plain_weight_flags(profile) ==> containment_weight(profile, a) == Some(
            profile.weight_milligrams,
        ),
        !profile.count_by_charges && !string_views(profile.flags@).contains("NO_DROP"@) && string_views(
            profile.flags@,
        ).contains("REDUCED_WEIGHT"@) && profile.weight_milligrams * 3 <= u64::MAX ==> containment_weight(profile, a)
            == Some((profile.weight_milligrams * 3 / 4) as u64),
{
}

/// A `REDUCED_WEIGHT` stack weighs three quarters, rounded down, of its
/// per-charge weight times its charges; a stack with a negative charge count
/// has no weight unless it is `NO_DROP`.
pub proof fn law_reduced_and_negative_stacks(profile: ItemContainmentProfileV1, charges: i32)
    requires
        profile.count_by_charges,
        !string_views(profile.flags@).contains("NO_DROP"@),
    ensures
        charges < 0 ==> containment_weight(profile, charges) is None,
        charges >= 0 && string_views(profile.flags@).contains("REDUCED_WEIGHT"@) && profile.weight_milligrams * charges
            * 3 <= u64::MAX ==> containment_weight(profile, charges) == Some(
            (profile.weight_milligrams * charges * 3 / 4) as u64,
        ),
{
    if charges >= 0 {
        let w = profile.weight_milligrams as int;
        let c = charges as int;
        assert(0 <= w * c <= w * c * 3) by (nonlinear_arith)
            requires w >= 0, c >= 0;
    }
}

/// An ordinary solid item takes its type volume whatever its charge count; a
/// stack takes the least whole number of stack-size units that covers its
/// per-charge volume times its charges.
pub proof fn law_containment_volume(profile: ItemContainmentProfileV1, charges: i32)
    ensures
        !profile.count_by_charges && profile.phase != ItemPhaseV1::Liquid ==> containment_volume(profile, charges)
            == Some(profile.volume_milliliters),
        profile.count_by_charges && charges >= 0 && profile.stack_size > 0 && profile.volume_milliliters * charges
            + profile.stack_size <= u64::MAX ==> (containment_volume(profile, charges) matches Some(r) && r
            * profile.stack_size >= profile.volume_milliliters * charges && (r == 0 || (r - 1) * profile.stack_size
            < profile.volume_milliliters * charges)),
        profile.count_by_charges && charges >= 0 && profile.stack_size == 0 && profile.volume_milliliters * charges
            <= u64::MAX ==> containment_volume(profile, charges) == Some((profile.volume_milliliters * charges) as u64),
{
    if profile.count_by_charges && charges >= 0 && profile.stack_size > 0 {
        let v = profile.volume_milliliters as int;
        let c = charges as int;
        let n = v * c;
        let st = profile.stack_size as int;
        assert(n >= 0) by (nonlinear_arith)
            requires v >= 0, c >= 0, n == v * c;
        let r = (n + st - 1) / st;
        assert(r * st >= n && (r == 0 || (r - 1) * st < n)) by (nonlinear_arith)
            requires st > 0, n >= 0, r == (n + st - 1) / st;
    }
}

} // verus!
