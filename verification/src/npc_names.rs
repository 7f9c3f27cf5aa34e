//! Generated NPC names: `<category>` references inside weighted name texts,
//! and the bounded, acyclic expansion of the name-category graph.

use vstd::prelude::*;
use vstd::utf8::encode_utf8;

use crate::text::{has_control, str_has_control, str_less, text_len, text_lt, utf8_len};
use crate::worldgen::{
    WorldgenNpcNameCategoryV1, WorldgenNpcNameChoiceV1, MAX_WORLDGEN_NPC_NAME_CATEGORIES,
    MAX_WORLDGEN_NPC_NAME_CHOICES, MAX_WORLDGEN_NPC_NAME_EXPANSION_DEPTH,
    MAX_WORLDGEN_NPC_NAME_TEXT_BYTES,
};

verus! {

pub open spec fn is_name_byte(b: u8) -> bool {
    (0x30 <= b <= 0x39) || (0x41 <= b <= 0x5a) || (0x61 <= b <= 0x7a) || b == 0x5f
}

/// `<` then at least one ASCII letter, digit, or underscore, then `>`;
/// 3 to 128 bytes in all.
pub open spec fn category_id_bytes_ok(b: Seq<u8>) -> bool {
    &&& 3 <= b.len() <= 128
    &&& b[0] == 0x3cu8
    &&& b[b.len() - 1] == 0x3eu8
    &&& forall|i: int| 1 <= i < b.len() - 1 ==> is_name_byte(#[trigger] b[i])
}

fn category_id_bytes_valid(b: &[u8]) -> (r: bool)
    ensures
        r == category_id_bytes_ok(b@),
{
    if b.len() < 3 || b.len() > 128 || b[0] != 0x3c || b[b.len() - 1] != 0x3e {
        return false;
    }
    let mut i: usize = 1;
    while i < b.len() - 1
        invariant
            1 <= i <= b@.len() - 1,
            forall|j: int| 1 <= j < i ==> is_name_byte(#[trigger] b@[j]),
        decreases b.len() - 1 - i,
    {
        let c = b[i];
        if !((0x30 <= c && c <= 0x39) || (0x41 <= c && c <= 0x5a) || (0x61 <= c && c <= 0x7a) || c == 0x5f) {
            return false;
        }
        i = i + 1;
    }
    true
}

/// Whether `id` is a valid name category ID.
pub fn valid_worldgen_npc_name_category_id(id: &str) -> (r: bool)
    ensures
        r == category_id_bytes_ok(encode_utf8(id@)),
{
    category_id_bytes_valid(id.as_bytes())
}

/// The first position at or after `k` holding `<` or `>`.
pub open spec fn first_bracket(b: Seq<u8>, k: int) -> Option<int>
    decreases b.len() - k,
{
    if k < 0 || k >= b.len() {
        None
    } else if b[k] == 0x3cu8 || b[k] == 0x3eu8 {
        Some(k)
    } else {
        first_bracket(b, k + 1)
    }
}

/// The first position at or after `k` holding `>`.
pub open spec fn first_close(b: Seq<u8>, k: int) -> Option<int>
    decreases b.len() - k,
{
    if k < 0 || k >= b.len() {
        None
    } else if b[k] == 0x3eu8 {
        Some(k)
    } else {
        first_close(b, k + 1)
    }
}

proof fn lemma_first_bracket(b: Seq<u8>, k: int)
    requires
        0 <= k,
    ensures
        first_bracket(b, k) matches Some(p) ==> k <= p < b.len() && (b[p] == 0x3cu8 || b[p] == 0x3eu8),
    decreases b.len() - k,
{
    if k < b.len() && !(b[k] == 0x3cu8 || b[k] == 0x3eu8) {
        lemma_first_bracket(b, k + 1);
    }
}

proof fn lemma_first_close(b: Seq<u8>, k: int)
    requires
        0 <= k,
    ensures
        first_close(b, k) matches Some(p) ==> k <= p < b.len() && b[p] == 0x3eu8,
    decreases b.len() - k,
{
    if k < b.len() && b[k] != 0x3eu8 {
        lemma_first_close(b, k + 1);
    }
}

/// The category references of a name text, in order: each `<` starts a
/// reference that ends at the next `>` and must be a valid category ID; a
/// stray `>` or an unterminated `<` makes the text invalid.
pub open spec fn references(b: Seq<u8>) -> Option<Seq<Seq<u8>>>
    decreases b.len(),
{
    match first_bracket(b, 0) {
        None => Some(Seq::empty()),
        Some(p) => if !(0 <= p < b.len()) || b[p] == 0x3eu8 {
            None
        } else {
            match first_close(b, p) {
                None => None,
                Some(q) => if !(p <= q < b.len()) || !category_id_bytes_ok(b.subrange(p, q + 1)) {
                    None
                } else {
                    match references(b.subrange(q + 1, b.len() as int)) {
                        None => None,
                        Some(rest) => Some(seq![b.subrange(p, q + 1)] + rest),
                    }
                },
            }
        },
    }
}

/// A name text: non-empty, at most 256 bytes, no control characters, and
/// well-formed references.
pub open spec fn name_references(text: Seq<char>) -> Option<Seq<Seq<u8>>> {
    if text.len() == 0 || utf8_len(text) > MAX_WORLDGEN_NPC_NAME_TEXT_BYTES || has_control(text) {
        None
    } else {
        references(encode_utf8(text))
    }
}

fn find_from(b: &[u8], k: usize, close_only: bool) -> (r: Option<usize>)
    requires
        k <= b@.len(),
    ensures
        close_only ==> r == match first_close(b@, k as int) { Some(p) => Some(p as usize), None => None::<usize> },
        !close_only ==> r == match first_bracket(b@, k as int) { Some(p) => Some(p as usize), None => None::<usize> },
{
    let mut i = k;
    while i < b.len()
        invariant
            k <= i <= b@.len(),
            first_close(b@, k as int) == first_close(b@, i as int) || !close_only,
            first_bracket(b@, k as int) == first_bracket(b@, i as int) || close_only,
        decreases b.len() - i,
    {
        if b[i] == 0x3e || (!close_only && b[i] == 0x3c) {
            return Some(i);
        }
        i = i + 1;
    }
    None
}

fn copy_range(b: &[u8], from: usize, to: usize) -> (r: Vec<u8>)
    requires
        from <= to <= b@.len(),
    ensures
        r@ == b@.subrange(from as int, to as int),
{
    let mut out: Vec<u8> = Vec::new();
    let mut i = from;
    while i < to
        invariant
            from <= i <= to,
            out@ == b@.subrange(from as int, i as int),
        decreases to - i,
    {
        out.push(b[i]);
        assert(out@ =~= b@.subrange(from as int, i + 1));
        i = i + 1;
    }
    out
}

proof fn lemma_first_bracket_shift(b: Seq<u8>, k: int, i: int)
    requires
        0 <= k <= b.len(),
        0 <= i,
    ensures
        first_bracket(b.subrange(k, b.len() as int), i) == match first_bracket(b, k + i) { Some(p) => Some(p - k), None => None::<int> },
    decreases b.len() - k - i,
{
    let s = b.subrange(k, b.len() as int);
    if k + i < b.len() {
        assert(s[i] == b[k + i]);
        lemma_first_bracket_shift(b, k, i + 1);
    }
}

proof fn lemma_first_close_shift(b: Seq<u8>, k: int, i: int)
    requires
        0 <= k <= b.len(),
        0 <= i,
    ensures
        first_close(b.subrange(k, b.len() as int), i) == match first_close(b, k + i) { Some(p) => Some(p - k), None => None::<int> },
    decreases b.len() - k - i,
{
    let s = b.subrange(k, b.len() as int);
    if k + i < b.len() {
        assert(s[i] == b[k + i]);
        lemma_first_close_shift(b, k, i + 1);
    }
}

/// The references of `b[k..]`, read in place.
fn references_from(b: &[u8], k: usize) -> (r: Option<Vec<Vec<u8>>>)
    requires
        k <= b@.len(),
    ensures
        match references(b@.subrange(k as int, b@.len() as int)) {
            None => r is None,
            Some(refs) => r matches Some(v) && v@.len() == refs.len() && forall|i: int| 0 <= i < refs.len() ==> (#[trigger] v@[i])@ == refs[i],
        },
    decreases b@.len() - k,
{
    let ghost s = b@.subrange(k as int, b@.len() as int);
    proof {
        lemma_first_bracket_shift(b@, k as int, 0);
        lemma_first_bracket(b@, k as int);
    }
    let p = match find_from(b, k, false) {
        None => {
            let out: Vec<Vec<u8>> = Vec::new();
            return Some(out);
        },
        Some(p) => p,
    };
    if b[p] == 0x3e {
        return None;
    }
    proof {
        lemma_first_close_shift(b@, k as int, (p - k) as int);
        lemma_first_close(b@, p as int);
        assert(first_close(s, p - k) == match first_close(b@, p as int) { Some(q) => Some(q - k), None => None::<int> });
    }
    let q = match find_from(b, p, true) {
        None => return None,
        Some(q) => q,
    };
    let token = copy_range(b, p, q + 1);
    proof {
        assert(s.subrange((p - k) as int, (q - k) + 1) =~= b@.subrange(p as int, q + 1));
        assert(s.subrange((q - k) + 1, s.len() as int) =~= b@.subrange(q + 1, b@.len() as int));
    }
    if !category_id_bytes_valid(token.as_slice()) {
        return None;
    }
    match references_from(b, q + 1) {
        None => None,
        Some(rest) => {
            let mut all = rest;
            let ghost before = all@;
            all.insert(0, token);
            assert(all@ == before.insert(0, token));
            Some(all)
        },
    }
}

/// The category references of a name text, or `None` for an invalid text.
pub fn worldgen_npc_name_references(text: &str) -> (r: Option<Vec<Vec<u8>>>)
    ensures
        match name_references(text@) {
            None => r is None,
            Some(refs) => r matches Some(v) && v@.len() == refs.len() && forall|i: int| 0 <= i < refs.len() ==> (#[trigger] v@[i])@ == refs[i],
        },
{
    if text.is_empty() || text_len(text) > MAX_WORLDGEN_NPC_NAME_TEXT_BYTES || str_has_control(text) {
        return None;
    }
    let b = text.as_bytes();
    assert(b@.subrange(0, b@.len() as int) =~= b@);
    references_from(b, 0)
}

/// The first category whose ID is the reference `token`.
pub open spec fn category_index(categories: Seq<WorldgenNpcNameCategoryV1>, token: Seq<u8>, k: int) -> Option<int>
    decreases categories.len() - k,
{
    if k < 0 || k >= categories.len() {
        None
    } else if encode_utf8(categories[k].category_id@) == token {
        Some(k)
    } else {
        category_index(categories, token, k + 1)
    }
}

/// Every reference of every valid choice text, in order.
pub open spec fn choice_references(choices: Seq<WorldgenNpcNameChoiceV1>) -> Seq<Seq<u8>>
    decreases choices.len(),
{
    if choices.len() == 0 {
        Seq::empty()
    } else {
        choice_references(choices.drop_last()) + match name_references(choices.last().text@) {
            Some(refs) => refs,
            None => Seq::empty(),
        }
    }
}

pub open spec fn depth_measure(depth: int) -> int {
    if depth <= 17 { 17 - depth } else { 0 }
}

/// Depth-first expansion of category `c` at `depth`: a category already
/// expanded is accepted; one on the current path is a cycle; expansion
/// deeper than 16 levels fails. Returns the outcome and the expanded set.
pub open spec fn visit(categories: Seq<WorldgenNpcNameCategoryV1>, c: int, depth: int, visiting: Set<int>, visited: Set<int>) -> (bool, Set<int>)
    decreases depth_measure(depth), 0int,
{
    if depth > MAX_WORLDGEN_NPC_NAME_EXPANSION_DEPTH || depth < 0 || !(0 <= c < categories.len()) {
        (false, visited)
    } else if visited.contains(c) {
        (true, visited)
    } else if visiting.contains(c) {
        (false, visited)
    } else {
        let (ok, after) = visit_references(categories, choice_references(categories[c].choices@), depth + 1, visiting.insert(c), visited);
        if ok { (true, after.insert(c)) } else { (false, after) }
    }
}

pub open spec fn visit_references(categories: Seq<WorldgenNpcNameCategoryV1>, refs: Seq<Seq<u8>>, depth: int, visiting: Set<int>, visited: Set<int>) -> (bool, Set<int>)
    decreases depth_measure(depth), refs.len() + 1,
{
    if refs.len() == 0 {
        (true, visited)
    } else {
        match category_index(categories, refs[0], 0) {
            None => (false, visited),
            Some(c) => {
                let (ok, after) = visit(categories, c, depth, visiting, visited);
                if !ok {
                    (false, after)
                } else {
                    visit_references(categories, refs.drop_first(), depth, visiting, after)
                }
            },
        }
    }
}

/// Expands every category from `k` on, in order, sharing the expanded set.
pub open spec fn visit_all(categories: Seq<WorldgenNpcNameCategoryV1>, k: int, visited: Set<int>) -> bool
    decreases categories.len() - k,
{
    if k < 0 || k >= categories.len() {
        true
    } else {
        let (ok, after) = visit(categories, k, 0, Set::empty(), visited);
        ok && visit_all(categories, k + 1, after)
    }
}

pub open spec fn flag_set(flags: Seq<bool>) -> Set<int> {
    Set::new(|i: int| 0 <= i < flags.len() && flags[i])
}

pub open spec fn byte_views(items: Seq<Vec<u8>>) -> Seq<Seq<u8>> {
    items.map_values(|item: Vec<u8>| item@)
}

proof fn lemma_category_index_range(categories: Seq<WorldgenNpcNameCategoryV1>, token: Seq<u8>, k: int)
    requires
        0 <= k,
    ensures
        category_index(categories, token, k) matches Some(c) ==> k <= c < categories.len(),
    decreases categories.len() - k,
{
    if k < categories.len() && encode_utf8(categories[k].category_id@) != token {
        lemma_category_index_range(categories, token, k + 1);
    }
}

fn find_category(categories: &Vec<WorldgenNpcNameCategoryV1>, token: &Vec<u8>) -> (r: Option<usize>)
    ensures
        r is None <==> category_index(categories@, token@, 0) is None,
        r matches Some(c) ==> category_index(categories@, token@, 0) == Some(c as int) && c < categories@.len(),
{
    proof {
        lemma_category_index_range(categories@, token@, 0);
    }
    let mut k: usize = 0;
    while k < categories.len()
        invariant
            k <= categories@.len(),
            category_index(categories@, token@, 0) == category_index(categories@, token@, k as int),
        decreases categories.len() - k,
    {
        if crate::text::bytes_equal(categories[k].category_id.as_str().as_bytes(), token.as_slice()) {
            return Some(k);
        }
        k = k + 1;
    }
    None
}

fn collect_references(choices: &Vec<WorldgenNpcNameChoiceV1>) -> (r: Vec<Vec<u8>>)
    ensures
        byte_views(r@) == choice_references(choices@),
{
    let mut all: Vec<Vec<u8>> = Vec::new();
    let mut k: usize = 0;
    while k < choices.len()
        invariant
            k <= choices@.len(),
            byte_views(all@) == choice_references(choices@.subrange(0, k as int)),
        decreases choices.len() - k,
    {
        assert(choices@.subrange(0, k + 1).drop_last() =~= choices@.subrange(0, k as int));
        match worldgen_npc_name_references(choices[k].text.as_str()) {
            Some(refs) => {
                let ghost before = all@;
                let mut refs = refs;
                let ghost refs_view = refs@;
                all.append(&mut refs);
                assert(byte_views(all@) =~= byte_views(before) + byte_views(refs_view));
                assert(byte_views(refs_view) =~= name_references(choices@[k as int].text@).unwrap());
            },
            None => {},
        }
        assert(byte_views(all@) =~= choice_references(choices@.subrange(0, k + 1)));
        k = k + 1;
    }
    assert(choices@.subrange(0, k as int) =~= choices@);
    all
}

fn visit_category(
    categories: &Vec<WorldgenNpcNameCategoryV1>,
    c: usize,
    depth: usize,
    visiting: &mut Vec<bool>,
    visited: &mut Vec<bool>,
) -> (r: bool)
    requires
        c < categories@.len(),
        depth <= 17,
        old(visiting)@.len() == categories@.len(),
        old(visited)@.len() == categories@.len(),
    ensures
        final(visiting)@.len() == categories@.len(),
        final(visited)@.len() == categories@.len(),
        r == visit(categories@, c as int, depth as int, flag_set(old(visiting)@), flag_set(old(visited)@)).0,
        flag_set(final(visited)@) == visit(categories@, c as int, depth as int, flag_set(old(visiting)@), flag_set(old(visited)@)).1,
        r ==> final(visiting)@ == old(visiting)@,
    decreases depth_measure(depth as int), 0int,
{
    if depth > MAX_WORLDGEN_NPC_NAME_EXPANSION_DEPTH {
        return false;
    }
    if visited[c] {
        return true;
    }
    if visiting[c] {
        return false;
    }
    let ghost start_visiting = visiting@;
    let ghost start_visited = visited@;
    visiting.set(c, true);
    assert(flag_set(visiting@) =~= flag_set(start_visiting).insert(c as int));
    let refs = collect_references(&categories[c].choices);
    let ghost refs_view = byte_views(refs@);
    let ghost inner = flag_set(visiting@);
    let mut k: usize = 0;
    assert(refs_view.skip(0) =~= refs_view);
    while k < refs.len()
        invariant
            k <= refs@.len(),
            refs_view == byte_views(refs@),
            refs_view.len() == refs@.len(),
            depth <= 16,
            c < categories@.len(),
            visiting@.len() == categories@.len(),
            visited@.len() == categories@.len(),
            flag_set(visiting@) == inner,
            visiting@ == start_visiting.update(c as int, true),
            visit_references(categories@, refs_view, depth + 1, inner, flag_set(start_visited))
                == visit_references(categories@, refs_view.skip(k as int), depth + 1, inner, flag_set(visited@)),
        decreases refs.len() - k,
    {
        let ghost tail = refs_view.skip(k as int);
        assert(tail[0] == refs@[k as int]@);
        assert(tail.drop_first() =~= refs_view.skip(k + 1));
        let token = &refs[k];
        let found = find_category(categories, token);
        assert(token@ == refs@[k as int]@);
        if found.is_none() {
            return false;
        }
        let child = found.unwrap();
        assert(category_index(categories@, refs@[k as int]@, 0) == Some(child as int));
        let ghost visited_before = flag_set(visited@);
        if !visit_category(categories, child, depth + 1, visiting, visited) {
            proof {
                assert(tail.len() > 0);
                assert(category_index(categories@, tail[0], 0) == Some(child as int));
                let res = visit(categories@, child as int, depth + 1, inner, visited_before);
                assert(!res.0);
                assert(res.1 == flag_set(visited@));
                assert(visit_references(categories@, tail, depth + 1, inner, visited_before) == (false, flag_set(visited@)));
                assert(!flag_set(start_visited).contains(c as int));
                assert(!flag_set(start_visiting).contains(c as int));
            }
            return false;
        }
        k = k + 1;
    }
    assert(refs_view.skip(k as int) =~= Seq::<Seq<u8>>::empty());
    visiting.set(c, false);
    assert(visiting@ =~= start_visiting);
    let ghost before_set = visited@;
    visited.set(c, true);
    assert(flag_set(visited@) =~= flag_set(before_set).insert(c as int));
    true
}

pub open spec fn name_weight_total(choices: Seq<WorldgenNpcNameChoiceV1>) -> int
    decreases choices.len(),
{
    if choices.len() == 0 { 0 } else { name_weight_total(choices.drop_last()) + choices.last().weight }
}

pub open spec fn name_choice_total(categories: Seq<WorldgenNpcNameCategoryV1>) -> int
    decreases categories.len(),
{
    if categories.len() == 0 { 0 } else { name_choice_total(categories.drop_last()) + categories.last().choices@.len() }
}

/// Whether every reference of a valid text names some category.
pub open spec fn text_references_known(categories: Seq<WorldgenNpcNameCategoryV1>, text: Seq<char>) -> bool {
    name_references(text) matches Some(refs) && forall|i: int| 0 <= i < refs.len() ==> #[trigger] category_index(categories, refs[i], 0) is Some
}

pub open spec fn name_category_ok(categories: Seq<WorldgenNpcNameCategoryV1>, category: WorldgenNpcNameCategoryV1) -> bool {
    let choices = category.choices@;
    &&& category_id_bytes_ok(encode_utf8(category.category_id@))
    &&& choices.len() > 0
    &&& forall|k: int| 0 <= k < choices.len() ==> (#[trigger] choices[k]).weight > 0
    &&& name_weight_total(choices) <= u64::MAX
    &&& forall|k: int| 0 <= k < choices.len() ==> text_references_known(categories, (#[trigger] choices[k]).text@)
}

/// An empty name catalog, or at most 64 sorted categories with valid IDs
/// including the male and female full-name roots; at most 32768 positively
/// weighted choices in all; every reference known; and a bounded acyclic
/// expansion from every category.
pub open spec fn name_catalog_ok(categories: Seq<WorldgenNpcNameCategoryV1>) -> bool {
    ||| categories.len() == 0
    ||| {
        &&& categories.len() <= MAX_WORLDGEN_NPC_NAME_CATEGORIES
        &&& forall|i: int| 0 <= i < categories.len() - 1 ==> text_lt(#[trigger] categories[i].category_id@, categories[i + 1].category_id@)
        &&& crate::worldgen_parts::has_name_category(categories, "<male_full_name>"@)
        &&& crate::worldgen_parts::has_name_category(categories, "<female_full_name>"@)
        &&& forall|c: int| 0 <= c < categories.len() ==> name_category_ok(categories, #[trigger] categories[c])
        &&& name_choice_total(categories) <= MAX_WORLDGEN_NPC_NAME_CHOICES
        &&& visit_all(categories, 0, Set::empty())
    }
}

proof fn lemma_name_weight_prefix(choices: Seq<WorldgenNpcNameChoiceV1>, k: int)
    requires
        0 <= k <= choices.len(),
    ensures
        name_weight_total(choices.subrange(0, k)) <= name_weight_total(choices),
    decreases choices.len() - k,
{
    if k < choices.len() {
        assert(choices.subrange(0, k + 1).drop_last() =~= choices.subrange(0, k));
        lemma_name_weight_prefix(choices, k + 1);
    } else {
        assert(choices.subrange(0, k) =~= choices);
    }
}

proof fn lemma_name_choice_prefix(categories: Seq<WorldgenNpcNameCategoryV1>, k: int)
    requires
        0 <= k <= categories.len(),
    ensures
        name_choice_total(categories.subrange(0, k)) <= name_choice_total(categories),
    decreases categories.len() - k,
{
    if k < categories.len() {
        assert(categories.subrange(0, k + 1).drop_last() =~= categories.subrange(0, k));
        lemma_name_choice_prefix(categories, k + 1);
    } else {
        assert(categories.subrange(0, k) =~= categories);
    }
}

fn text_references_are_known(categories: &Vec<WorldgenNpcNameCategoryV1>, text: &str) -> (r: bool)
    ensures
        r == text_references_known(categories@, text@),
{
    let refs = match worldgen_npc_name_references(text) {
        None => return false,
        Some(refs) => refs,
    };
    let ghost expected = name_references(text@).unwrap();
    let mut i: usize = 0;
    while i < refs.len()
        invariant
            i <= refs@.len(),
            refs@.len() == expected.len(),
            forall|j: int| 0 <= j < expected.len() ==> (#[trigger] refs@[j])@ == expected[j],
            forall|j: int| 0 <= j < i ==> #[trigger] category_index(categories@, expected[j], 0) is Some,
        decreases refs.len() - i,
    {
        assert(refs@[i as int]@ == expected[i as int]);
        if find_category(categories, &refs[i]).is_none() {
            return false;
        }
        i = i + 1;
    }
    true
}

fn name_category_is_ok(categories: &Vec<WorldgenNpcNameCategoryV1>, category: &WorldgenNpcNameCategoryV1) -> (r: bool)
    ensures
        r == name_category_ok(categories@, *category),
{
    let choices = &category.choices;
    if !valid_worldgen_npc_name_category_id(category.category_id.as_str()) || choices.len() == 0 {
        return false;
    }
    let mut total: u64 = 0;
    let mut k: usize = 0;
    while k < choices.len()
        invariant
            k <= choices@.len(),
            total == name_weight_total(choices@.subrange(0, k as int)),
            forall|j: int| 0 <= j < k ==> (#[trigger] choices@[j]).weight > 0,
        decreases choices.len() - k,
    {
        assert(choices@.subrange(0, k + 1).drop_last() =~= choices@.subrange(0, k as int));
        if choices[k].weight == 0 {
            return false;
        }
        match total.checked_add(choices[k].weight) {
            None => {
                proof {
                    lemma_name_weight_prefix(choices@, k + 1);
                }
                return false;
            },
            Some(next) => {
                total = next;
            },
        }
        k = k + 1;
    }
    assert(choices@.subrange(0, k as int) =~= choices@);
    let mut k: usize = 0;
    while k < choices.len()
        invariant
            k <= choices@.len(),
            forall|j: int| 0 <= j < k ==> text_references_known(categories@, (#[trigger] choices@[j]).text@),
        decreases choices.len() - k,
    {
        if !text_references_are_known(categories, choices[k].text.as_str()) {
            return false;
        }
        k = k + 1;
    }
    true
}

pub fn valid_worldgen_npc_name_catalog(categories: &Vec<WorldgenNpcNameCategoryV1>) -> (r: bool)
    ensures
        r == name_catalog_ok(categories@),
{
    if categories.len() == 0 {
        return true;
    }
    if categories.len() > MAX_WORLDGEN_NPC_NAME_CATEGORIES {
        return false;
    }
    let mut i: usize = 1;
    while i < categories.len()
        invariant
            1 <= i,
            forall|j: int| 0 <= j < i - 1 && j < categories@.len() - 1 ==> text_lt(#[trigger] categories@[j].category_id@, categories@[j + 1].category_id@),
        decreases categories.len() - i,
    {
        if !str_less(categories[i - 1].category_id.as_str(), categories[i].category_id.as_str()) {
            assert(categories@[(i - 1) as int + 1] == categories@[i as int]);
            return false;
        }
        i = i + 1;
    }
    if !crate::worldgen_parts::name_category_exists(categories, "<male_full_name>")
        || !crate::worldgen_parts::name_category_exists(categories, "<female_full_name>") {
        return false;
    }
    let mut count: usize = 0;
    let mut c: usize = 0;
    while c < categories.len()
        invariant
            c <= categories@.len(),
            count == name_choice_total(categories@.subrange(0, c as int)),
            count <= MAX_WORLDGEN_NPC_NAME_CHOICES,
            forall|j: int| 0 <= j < c ==> name_category_ok(categories@, #[trigger] categories@[j]),
        decreases categories.len() - c,
    {
        assert(categories@.subrange(0, c + 1).drop_last() =~= categories@.subrange(0, c as int));
        if !name_category_is_ok(categories, &categories[c]) {
            return false;
        }
        if categories[c].choices.len() > MAX_WORLDGEN_NPC_NAME_CHOICES - count {
            proof {
                lemma_name_choice_prefix(categories@, c + 1);
            }
            return false;
        }
        count = count + categories[c].choices.len();
        c = c + 1;
    }
    assert(categories@.subrange(0, c as int) =~= categories@);
    let n = categories.len();
    let mut visiting: Vec<bool> = Vec::new();
    let mut visited: Vec<bool> = Vec::new();
    while visiting.len() < n
        invariant
            visiting@.len() <= n,
            visited@.len() == visiting@.len(),
            forall|j: int| 0 <= j < visiting@.len() ==> !visiting@[j] && !visited@[j],
        decreases n - visiting.len(),
    {
        visiting.push(false);
        visited.push(false);
    }
    assert(flag_set(visited@) =~= Set::<int>::empty());
    let mut k: usize = 0;
    while k < n
        invariant
            k <= n,
            n == categories@.len(),
            visiting@.len() == n,
            visited@.len() == n,
            forall|j: int| 0 <= j < n ==> !visiting@[j],
            visit_all(categories@, 0, Set::empty()) == visit_all(categories@, k as int, flag_set(visited@)),
        decreases n - k,
    {
        assert(flag_set(visiting@) =~= Set::<int>::empty());
        if !visit_category(categories, k, 0, &mut visiting, &mut visited) {
            return false;
        }
        k = k + 1;
    }
    true
}

} // verus!
