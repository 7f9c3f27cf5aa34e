//! Item-group wire records, item presentation records, and their bounds.

use vstd::prelude::*;

use crate::items::{item_profile_has_flag, profile_has_flag, ItemContainmentProfileV1, ItemPhaseV1};
use crate::text::{
    bounded_text_is_valid, has_control, has_disallowed_control, str_eq, str_has_control,
    str_has_disallowed_control, text_len, utf8_len, valid_bounded_text,
};
use crate::text_map::TextMap;
use crate::time::SimTick;

verus! {

/// Temperature state of a nonperishable temperature-tracked item whose material
/// mix is empty. `None` energy is the indeterminate materialless result.
#[derive(Clone, Copy, Debug, PartialEq, Eq, Structural)]
pub struct ItemTemperatureStateV1 {
    pub temperature_millikelvin: i32,
    pub specific_energy_millijoules_per_gram: Option<i32>,
    pub last_check_tick: SimTick,
    pub current_phase: ItemPhaseV1,
    pub hot: bool,
    pub cold: bool,
    pub frozen: bool,
}

pub const ITEM_TEMPERATURE_UNPROCESSED_MILLIKELVIN: i32 = 0;
pub const ITEM_TEMPERATURE_UNPROCESSED_ENERGY_MJ_PER_G: i32 = -10_000;
pub const ITEM_TEMPERATURE_NORMAL_AMBIENT_MILLIKELVIN: i32 = 293_150;
pub const ITEM_TEMPERATURE_PROCESS_INTERVAL_TICKS: u64 = 12_000;

/// State of a freshly constructed item: unprocessed sentinel temperature and
/// energy, checked at birth, with no derived flags.
pub fn initial_item_temperature_state(birth_tick: SimTick, current_phase: ItemPhaseV1) -> (r:
    ItemTemperatureStateV1)
    ensures
        r == (ItemTemperatureStateV1 {
            temperature_millikelvin: ITEM_TEMPERATURE_UNPROCESSED_MILLIKELVIN,
            specific_energy_millijoules_per_gram: Some(ITEM_TEMPERATURE_UNPROCESSED_ENERGY_MJ_PER_G),
            last_check_tick: birth_tick,
            current_phase,
            hot: false,
            cold: false,
            frozen: false,
        }),
{
    ItemTemperatureStateV1 {
        temperature_millikelvin: ITEM_TEMPERATURE_UNPROCESSED_MILLIKELVIN,
        specific_energy_millijoules_per_gram: Some(ITEM_TEMPERATURE_UNPROCESSED_ENERGY_MJ_PER_G),
        last_check_tick: birth_tick,
        current_phase,
        hot: false,
        cold: false,
        frozen: false,
    }
}

/// Solid or liquid, no derived flag, and either the unprocessed sentinel pair
/// or the normal ambient temperature with indeterminate energy.
pub open spec fn temperature_state_is_valid(state: ItemTemperatureStateV1) -> bool {
    (state.current_phase == ItemPhaseV1::Solid || state.current_phase == ItemPhaseV1::Liquid)
        && !state.hot && !state.cold && !state.frozen
        && ((state.temperature_millikelvin == ITEM_TEMPERATURE_UNPROCESSED_MILLIKELVIN
            && state.specific_energy_millijoules_per_gram == Some(ITEM_TEMPERATURE_UNPROCESSED_ENERGY_MJ_PER_G))
        || (state.temperature_millikelvin == ITEM_TEMPERATURE_NORMAL_AMBIENT_MILLIKELVIN
            && state.specific_energy_millijoules_per_gram is None))
}

pub fn valid_item_temperature_state(state: &ItemTemperatureStateV1) -> (r: bool)
    ensures
        r == temperature_state_is_valid(*state),
{
    let phase_ok = match state.current_phase {
        ItemPhaseV1::Solid | ItemPhaseV1::Liquid => true,
        ItemPhaseV1::Gas => false,
    };
    let pair_ok = match state.specific_energy_millijoules_per_gram {
        Some(energy) => state.temperature_millikelvin == ITEM_TEMPERATURE_UNPROCESSED_MILLIKELVIN
            && energy == ITEM_TEMPERATURE_UNPROCESSED_ENERGY_MJ_PER_G,
        None => state.temperature_millikelvin == ITEM_TEMPERATURE_NORMAL_AMBIENT_MILLIKELVIN,
    };
    phase_ok && !state.hot && !state.cold && !state.frozen && pair_ok
}

/// A constructed item starts in a valid temperature state whenever its phase
/// is solid or liquid.
pub proof fn lemma_initial_temperature_state_is_valid(birth_tick: SimTick, phase: ItemPhaseV1)
    requires
        phase != ItemPhaseV1::Gas,
    ensures
        temperature_state_is_valid(ItemTemperatureStateV1 {
            temperature_millikelvin: ITEM_TEMPERATURE_UNPROCESSED_MILLIKELVIN,
            specific_energy_millijoules_per_gram: Some(ITEM_TEMPERATURE_UNPROCESSED_ENERGY_MJ_PER_G),
            last_check_tick: birth_tick,
            current_phase: phase,
            hot: false,
            cold: false,
            frozen: false,
        }),
{
}

/// `FIT` items are always fitted; other items may be fitted only when `VARSIZE`.
pub open spec fn fit_state_is_valid(fitted: bool, containment: ItemContainmentProfileV1) -> bool {
    let immutable_fit = profile_has_flag(containment, "FIT"@);
    let variable_size = profile_has_flag(containment, "VARSIZE"@);
    (!immutable_fit || fitted) && (!fitted || immutable_fit || variable_size)
}

pub fn valid_item_fit_state(fitted: bool, containment: &ItemContainmentProfileV1) -> (r: bool)
    ensures
        r == fit_state_is_valid(fitted, *containment),
{
    let immutable_fit = initial_item_fit_state(containment);
    let variable_size = item_profile_has_flag(containment, "VARSIZE");
    (!immutable_fit || fitted) && (!fitted || immutable_fit || variable_size)
}

/// A constructed item is fitted exactly when its type carries `FIT`.
pub fn initial_item_fit_state(containment: &ItemContainmentProfileV1) -> (r: bool)
    ensures
        r == profile_has_flag(*containment, "FIT"@),
{
    item_profile_has_flag(containment, "FIT")
}

/// The constructor's fit state is always a valid fit state.
pub proof fn lemma_initial_fit_state_is_valid(containment: ItemContainmentProfileV1)
    ensures
        fit_state_is_valid(profile_has_flag(containment, "FIT"@), containment),
{
}

pub const MAX_ITEM_VARIANTS: usize = 256;
pub const MAX_ITEM_SNIPPETS: usize = 256;
pub const MAX_ITEM_VARIABLES: usize = 64;
pub const MAX_DESCRIPTION_SNIPPET_CATEGORIES: usize = 256;
pub const MAX_DESCRIPTION_SNIPPET_CHOICES: usize = 32_768;
pub const MAX_DESCRIPTION_SNIPPET_DEPTH: usize = 32;
pub const MAX_EXPANDED_DESCRIPTION_BYTES: usize = 16_384;

/// A selected cosmetic item variant retained in canonical state.
#[derive(Clone, Debug, PartialEq, Eq)]
pub struct ItemVariantV1 {
    pub id: String,
    pub name: String,
    pub description: String,
    pub symbol: String,
    pub color: String,
    pub ascii_picture: String,
}

/// One source-ordered constructor choice; zero-weight variants are never
/// selected at construction.
#[derive(Clone, Debug, PartialEq, Eq)]
pub struct ItemGroupVariantOptionV1 {
    pub variant: ItemVariantV1,
    pub weight: u32,
    pub description_expansion: Option<ItemDescriptionExpansionV1>,
}

#[derive(Clone, Debug, PartialEq, Eq)]
pub struct ItemDescriptionSnippetChoiceV1 {
    pub text: String,
    pub weight: u64,
}

#[derive(Clone, Debug, PartialEq, Eq)]
pub struct ItemDescriptionSnippetCategoryV1 {
    pub category: String,
    pub choices: Vec<ItemDescriptionSnippetChoiceV1>,
}

#[derive(Clone, Debug, PartialEq, Eq)]
pub struct ItemDescriptionExpansionV1 {
    pub template: String,
    /// Sorted reachable closure; unknown tags remain literal.
    pub categories: Vec<ItemDescriptionSnippetCategoryV1>,
}

#[derive(Clone, Debug, PartialEq, Eq)]
pub struct ItemSnippetV1 {
    pub id: String,
    pub text: String,
}

#[derive(Clone, Debug, PartialEq, Eq)]
pub enum ItemVariableValueV1 {
    Integer(i64),
    String(String),
}

pub open spec fn text_within(s: Seq<char>, maximum: nat) -> bool {
    utf8_len(s) <= maximum && !has_control(s)
}

fn text_is_within(s: &str, maximum: usize) -> (r: bool)
    ensures
        r == text_within(s@, maximum as nat),
{
    text_len(s) <= maximum && !str_has_control(s)
}

pub open spec fn variant_is_valid(variant: ItemVariantV1) -> bool {
    &&& valid_bounded_text(variant.id@, 512)
    &&& variant.id@ != "<any>"@
    &&& valid_bounded_text(variant.name@, 1024)
    &&& text_within(variant.description@, 16_384)
    &&& text_within(variant.symbol@, 16)
    &&& text_within(variant.color@, 64)
    &&& text_within(variant.ascii_picture@, 512)
}

pub fn item_variant_is_valid(variant: &ItemVariantV1) -> (r: bool)
    ensures
        r == variant_is_valid(*variant),
{
    bounded_text_is_valid(variant.id.as_str(), 512) && !str_eq(variant.id.as_str(), "<any>")
        && bounded_text_is_valid(variant.name.as_str(), 1024) && text_is_within(
        variant.description.as_str(),
        16_384,
    ) && text_is_within(variant.symbol.as_str(), 16) && text_is_within(variant.color.as_str(), 64)
        && text_is_within(variant.ascii_picture.as_str(), 512)
}

pub open spec fn snippet_is_valid(snippet: ItemSnippetV1) -> bool {
    &&& valid_bounded_text(snippet.id@, 512)
    &&& snippet.text@.len() > 0
    &&& utf8_len(snippet.text@) <= 16_384
    &&& !has_disallowed_control(snippet.text@)
}

pub fn item_snippet_is_valid(snippet: &ItemSnippetV1) -> (r: bool)
    ensures
        r == snippet_is_valid(*snippet),
{
    bounded_text_is_valid(snippet.id.as_str(), 512) && !snippet.text.as_str().is_empty() && text_len(
        snippet.text.as_str(),
    ) <= 16_384 && !str_has_disallowed_control(snippet.text.as_str())
}

/// At most 256 valid snippets with pairwise distinct identifiers.
pub open spec fn snippets_are_valid(snippets: Seq<ItemSnippetV1>) -> bool {
    &&& snippets.len() <= MAX_ITEM_SNIPPETS
    &&& forall|i: int| 0 <= i < snippets.len() ==> snippet_is_valid(#[trigger] snippets[i])
    &&& forall|i: int, j: int| 0 <= i < j < snippets.len() ==> (#[trigger] snippets[i]).id@ != (#[trigger] snippets[j]).id@
}

pub fn valid_item_snippets(snippets: &Vec<ItemSnippetV1>) -> (r: bool)
    ensures
        r == snippets_are_valid(snippets@),
{
    if snippets.len() > MAX_ITEM_SNIPPETS {
        return false;
    }
    let mut i: usize = 0;
    while i < snippets.len()
        invariant
            i <= snippets@.len(),
            forall|k: int| 0 <= k < i ==> snippet_is_valid(#[trigger] snippets@[k]),
            forall|a: int, b: int| 0 <= a < b < i ==> (#[trigger] snippets@[a]).id@ != (#[trigger] snippets@[b]).id@,
        decreases snippets.len() - i,
    {
        if !item_snippet_is_valid(&snippets[i]) {
            return false;
        }
        let mut j: usize = 0;
        while j < i
            invariant
                j <= i < snippets@.len(),
                forall|a: int| 0 <= a < j ==> (#[trigger] snippets@[a]).id@ != snippets@[i as int].id@,
            decreases i - j,
        {
            if str_eq(snippets[j].id.as_str(), snippets[i].id.as_str()) {
                assert(snippets@[j as int].id@ == snippets@[i as int].id@);
                return false;
            }
            j = j + 1;
        }
        i = i + 1;
    }
    true
}

/// Bounds of one typed item variable.
pub open spec fn variable_entry_is_valid(key: Seq<char>, value: ItemVariableValueV1) -> bool {
    &&& valid_bounded_text(key, 128)
    &&& match value {
        ItemVariableValueV1::Integer(_) => true,
        ItemVariableValueV1::String(text) => utf8_len(text@) <= 16_384 && !has_disallowed_control(text@),
    }
}

pub open spec fn variables_are_valid(variables: TextMap<ItemVariableValueV1>) -> bool {
    &&& variables.view_entries().len() <= MAX_ITEM_VARIABLES
    &&& forall|i: int| 0 <= i < variables.view_entries().len() ==> variable_entry_is_valid(
        (#[trigger] variables.view_entries()[i]).0,
        variables.view_entries()[i].1,
    )
}

pub fn valid_item_variables(variables: &TextMap<ItemVariableValueV1>) -> (r: bool)
    ensures
        r == variables_are_valid(*variables),
{
    if variables.len() > MAX_ITEM_VARIABLES {
        return false;
    }
    let mut i: usize = 0;
    while i < variables.len()
        invariant
            i <= variables.view_entries().len(),
            forall|k: int| 0 <= k < i ==> variable_entry_is_valid(
                (#[trigger] variables.view_entries()[k]).0,
                variables.view_entries()[k].1,
            ),
        decreases variables.view_entries().len() - i,
    {
        let (key, value) = variables.entry_at(i);
        let value_ok = match value {
            ItemVariableValueV1::Integer(_) => true,
            ItemVariableValueV1::String(text) => text_len(text.as_str()) <= 16_384
                && !str_has_disallowed_control(text.as_str()),
        };
        if !bounded_text_is_valid(key, 128) || !value_ok {
            return false;
        }
        i = i + 1;
    }
    true
}

} // verus!
