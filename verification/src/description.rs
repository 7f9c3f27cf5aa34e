//! Bounded recursive expansion of `<category>` tags in item descriptions.

use vstd::prelude::*;
use vstd::string::StrSliceExecFns;
use vstd::utf8::encode_utf8;

use crate::item_groups::{
    ItemDescriptionExpansionV1, ItemDescriptionSnippetCategoryV1, MAX_DESCRIPTION_SNIPPET_CATEGORIES,
    MAX_DESCRIPTION_SNIPPET_CHOICES, MAX_DESCRIPTION_SNIPPET_DEPTH, MAX_EXPANDED_DESCRIPTION_BYTES,
};
use crate::text::{
    has_control, has_disallowed_control, str_has_control, str_has_disallowed_control,
    str_less, text_len, text_lt, utf8_len,
};

verus! {

pub open spec fn max_depth() -> nat {
    MAX_DESCRIPTION_SNIPPET_DEPTH as nat
}

pub open spec fn max_bytes() -> int {
    MAX_EXPANDED_DESCRIPTION_BYTES as int
}

pub open spec fn cat_name(cats: Seq<ItemDescriptionSnippetCategoryV1>, c: int) -> Seq<u8> {
    encode_utf8(cats[c].category@)
}

pub open spec fn choice_bytes(cats: Seq<ItemDescriptionSnippetCategoryV1>, c: int, k: int) -> Seq<u8> {
    encode_utf8(cats[c].choices@[k].text@)
}

/// First index at or after `from` holding `byte`.
pub open spec fn find_byte(text: Seq<u8>, from: int, byte: u8) -> Option<int>
    decreases text.len() - from,
{
    if from < 0 || from >= text.len() {
        None
    } else if text[from] == byte {
        Some(from)
    } else {
        find_byte(text, from + 1, byte)
    }
}

/// First category whose name is `tag`, searching from index `from`.
pub open spec fn lookup_from(cats: Seq<ItemDescriptionSnippetCategoryV1>, tag: Seq<u8>, from: int) -> Option<int>
    decreases cats.len() - from,
{
    if from < 0 || from >= cats.len() {
        None
    } else if cat_name(cats, from) == tag {
        Some(from)
    } else {
        lookup_from(cats, tag, from + 1)
    }
}

pub open spec fn lookup(cats: Seq<ItemDescriptionSnippetCategoryV1>, tag: Seq<u8>) -> Option<int> {
    lookup_from(cats, tag, 0)
}

/// The next tag at or after `pos`: a `<` and the first `>` after it.
pub open spec fn next_tag(text: Seq<u8>, pos: int) -> Option<(int, int)> {
    match find_byte(text, pos, 0x3c) {
        None => None,
        Some(begin) => match find_byte(text, begin + 1, 0x3e) {
            None => None,
            Some(close) => Some((begin, close)),
        },
    }
}

/// Longest expansion of `text` at nesting `depth`: literal bytes count as
/// themselves, a known tag as the longest expansion of its positive-weight
/// choices (or the tag itself when none has weight), and the expansion fails
/// beyond the pinned depth or when a running total passes the byte bound.
pub open spec fn expand_len(cats: Seq<ItemDescriptionSnippetCategoryV1>, text: Seq<u8>, depth: nat) -> Option<int>
    decreases (33 - depth) as nat, text.len(), 2nat,
{
    if depth > max_depth() {
        None
    } else {
        scan_len(cats, text, 0, 0, depth)
    }
}

pub open spec fn scan_len(
    cats: Seq<ItemDescriptionSnippetCategoryV1>,
    text: Seq<u8>,
    pos: int,
    total: int,
    depth: nat,
) -> Option<int>
    decreases (33 - depth) as nat, text.len() - pos, 1nat,
{
    if depth > max_depth() || pos < 0 || pos > text.len() {
        None
    } else {
        match next_tag(text, pos) {
            None => Some(total + text.len() - pos),
            Some((begin, close)) => {
                if begin < pos || close <= begin || close >= text.len() {
                    None
                } else {
                    let tag = text.subrange(begin, close + 1);
                    let before = total + (begin - pos);
                    match lookup(cats, tag) {
                        None => scan_len(cats, text, close + 1, before + tag.len(), depth),
                        Some(c) => match best_choice(cats, c, 0, depth) {
                            None => None,
                            Some(best) => {
                                let replacement = match best {
                                    None => tag.len() as int,
                                    Some(b) => b,
                                };
                                if before + replacement > max_bytes() {
                                    None
                                } else {
                                    scan_len(cats, text, close + 1, before + replacement, depth)
                                }
                            },
                        },
                    }
                }
            },
        }
    }
}

/// Longest expansion among the positive-weight choices of category `c` from
/// choice `k` on; `Some(None)` when none of them has positive weight.
pub open spec fn best_choice(cats: Seq<ItemDescriptionSnippetCategoryV1>, c: int, k: int, depth: nat) -> Option<Option<int>>
    decreases (33 - depth) as nat, 0int, cats[c].choices@.len() - k,
{
    if depth > max_depth() || c < 0 || c >= cats.len() || k < 0 || k >= cats[c].choices@.len() {
        if depth > max_depth() { None } else { Some(None) }
    } else {
        let rest = best_choice(cats, c, k + 1, depth);
        if cats[c].choices@[k].weight == 0 {
            rest
        } else {
            match expand_len(cats, choice_bytes(cats, c, k), depth + 1) {
                None => None,
                Some(here) => match rest {
                    None => None,
                    Some(None) => Some(Some(here)),
                    Some(Some(other)) => Some(Some(if here >= other { here } else { other })),
                },
            }
        }
    }
}

/// Categories whose tags are met while expanding `text` at `depth`.
pub open spec fn reach_text(cats: Seq<ItemDescriptionSnippetCategoryV1>, text: Seq<u8>, depth: nat) -> Set<int>
    decreases (33 - depth) as nat, text.len(), 2nat,
{
    if depth > max_depth() {
        Set::empty()
    } else {
        reach_scan(cats, text, 0, depth)
    }
}

pub open spec fn reach_scan(cats: Seq<ItemDescriptionSnippetCategoryV1>, text: Seq<u8>, pos: int, depth: nat) -> Set<int>
    decreases (33 - depth) as nat, text.len() - pos, 1nat,
{
    if depth > max_depth() || pos < 0 || pos > text.len() {
        Set::empty()
    } else {
        match next_tag(text, pos) {
            None => Set::empty(),
            Some((begin, close)) => {
                if begin < pos || close <= begin || close >= text.len() {
                    Set::empty()
                } else {
                    let tag = text.subrange(begin, close + 1);
                    match lookup(cats, tag) {
                        None => reach_scan(cats, text, close + 1, depth),
                        Some(c) => set![c] + reach_choices(cats, c, 0, depth) + reach_scan(cats, text, close + 1, depth),
                    }
                }
            },
        }
    }
}

pub open spec fn reach_choices(cats: Seq<ItemDescriptionSnippetCategoryV1>, c: int, k: int, depth: nat) -> Set<int>
    decreases (33 - depth) as nat, 0int, cats[c].choices@.len() - k,
{
    if depth > max_depth() || c < 0 || c >= cats.len() || k < 0 || k >= cats[c].choices@.len() {
        Set::empty()
    } else if cats[c].choices@[k].weight == 0 {
        reach_choices(cats, c, k + 1, depth)
    } else {
        reach_text(cats, choice_bytes(cats, c, k), depth + 1) + reach_choices(cats, c, k + 1, depth)
    }
}


/// The value substituted for category `c` at `depth`, if its expansion succeeds.
pub open spec fn replacement_len(cats: Seq<ItemDescriptionSnippetCategoryV1>, c: int, depth: nat) -> Option<int> {
    match best_choice(cats, c, 0, depth) {
        None => None,
        Some(None) => Some(cat_name(cats, c).len() as int),
        Some(Some(b)) => Some(b),
    }
}

pub open spec fn slot(c: int, d: int) -> int {
    c * 33 + d
}

pub open spec fn reached_set(reached: Seq<bool>) -> Set<int> {
    Set::new(|x: int| 0 <= x < reached.len() && reached[x])
}

/// Every memoized replacement is the specified one, and every category it
/// reaches is already marked.
pub open spec fn memo_ok(cats: Seq<ItemDescriptionSnippetCategoryV1>, memo: Seq<Option<usize>>, reached: Seq<bool>) -> bool {
    &&& memo.len() == cats.len() * 33
    &&& reached.len() == cats.len()
    &&& forall|c: int, d: int| 0 <= c < cats.len() && 0 <= d <= 32 && (#[trigger] memo[slot(c, d)]) is Some ==> {
        &&& replacement_len(cats, c, d as nat) == Some(memo[slot(c, d)]->0 as int)
        &&& memo[slot(c, d)]->0 <= 2 * max_bytes()
        &&& reach_choices(cats, c, 0, d as nat).subset_of(reached_set(reached))
    }
}

/// The inputs stay within the byte bounds that keep every running total small.
pub open spec fn texts_bounded(cats: Seq<ItemDescriptionSnippetCategoryV1>) -> bool {
    &&& cats.len() <= MAX_DESCRIPTION_SNIPPET_CATEGORIES
    &&& forall|c: int, k: int| 0 <= c < cats.len() && 0 <= k < cats[c].choices@.len() ==> (#[trigger] choice_bytes(cats, c, k)).len() <= max_bytes()
}

proof fn lemma_slot(c: int, d: int, n: int)
    requires
        0 <= c < n,
        0 <= d <= 32,
    ensures
        0 <= slot(c, d) < n * 33,
        forall|c2: int, d2: int| 0 <= c2 < n && 0 <= d2 <= 32 && slot(c2, d2) == slot(c, d) ==> c2 == c && d2 == d,
{
    assert(0 <= slot(c, d) < n * 33) by (nonlinear_arith)
        requires 0 <= c < n, 0 <= d <= 32, slot(c, d) == c * 33 + d;
    assert forall|c2: int, d2: int| 0 <= c2 < n && 0 <= d2 <= 32 && slot(c2, d2) == slot(c, d) implies c2 == c && d2 == d by {
        assert(c2 == c && d2 == d) by (nonlinear_arith)
            requires 0 <= d2 <= 32, 0 <= d <= 32, c2 * 33 + d2 == c * 33 + d;
    }
}

proof fn lemma_lookup_range(cats: Seq<ItemDescriptionSnippetCategoryV1>, tag: Seq<u8>, from: int)
    ensures
        lookup_from(cats, tag, from) matches Some(c) ==> from <= c < cats.len() && cat_name(cats, c) == tag,
    decreases cats.len() - from,
{
    if 0 <= from < cats.len() && cat_name(cats, from) != tag {
        lemma_lookup_range(cats, tag, from + 1);
    }
}

proof fn lemma_find_byte_range(text: Seq<u8>, from: int, byte: u8)
    ensures
        find_byte(text, from, byte) matches Some(i) ==> from <= i < text.len() && text[i] == byte,
    decreases text.len() - from,
{
    if 0 <= from < text.len() && text[from] != byte {
        lemma_find_byte_range(text, from + 1, byte);
    }
}

fn find_byte_exec(text: &[u8], from: usize, byte: u8) -> (r: Option<usize>)
    requires
        from <= text@.len(),
    ensures
        match r {
            None => find_byte(text@, from as int, byte) is None,
            Some(i) => find_byte(text@, from as int, byte) == Some(i as int),
        },
{
    let mut i = from;
    while i < text.len()
        invariant
            from <= i <= text@.len(),
            find_byte(text@, from as int, byte) == find_byte(text@, i as int, byte),
        decreases text.len() - i,
    {
        if text[i] == byte {
            return Some(i);
        }
        i = i + 1;
    }
    None
}

fn range_equals(name: &[u8], text: &[u8], start: usize, end: usize) -> (r: bool)
    requires
        start <= end <= text@.len(),
    ensures
        r == (name@ == text@.subrange(start as int, end as int)),
{
    if name.len() != end - start {
        return false;
    }
    let mut i: usize = 0;
    while i < name.len()
        invariant
            name@.len() == end - start,
            start <= end <= text@.len(),
            i <= name@.len(),
            forall|j: int| 0 <= j < i ==> name@[j] == text@[start + j],
        decreases name.len() - i,
    {
        if name[i] != text[start + i] {
            assert(name@[i as int] != text@.subrange(start as int, end as int)[i as int]);
            return false;
        }
        i = i + 1;
    }
    assert(name@ =~= text@.subrange(start as int, end as int));
    true
}

fn lookup_exec(cats: &Vec<ItemDescriptionSnippetCategoryV1>, text: &[u8], start: usize, end: usize) -> (r: Option<usize>)
    requires
        start <= end <= text@.len(),
    ensures
        match r {
            None => lookup(cats@, text@.subrange(start as int, end as int)) is None,
            Some(c) => lookup(cats@, text@.subrange(start as int, end as int)) == Some(c as int),
        },
{
    let mut c: usize = 0;
    while c < cats.len()
        invariant
            c <= cats@.len(),
            start <= end <= text@.len(),
            lookup(cats@, text@.subrange(start as int, end as int)) == lookup_from(cats@, text@.subrange(start as int, end as int), c as int),
        decreases cats.len() - c,
    {
        if range_equals(cats[c].category.as_str().as_bytes(), text, start, end) {
            return Some(c);
        }
        c = c + 1;
    }
    None
}

proof fn lemma_reach_text_range(cats: Seq<ItemDescriptionSnippetCategoryV1>, text: Seq<u8>, depth: nat)
    ensures
        forall|x: int| #[trigger] reach_text(cats, text, depth).contains(x) ==> 0 <= x < cats.len(),
    decreases (33 - depth) as nat, text.len(), 2nat,
{
    if depth <= max_depth() {
        lemma_reach_scan_range(cats, text, 0, depth);
        assert(reach_text(cats, text, depth) == reach_scan(cats, text, 0, depth));
    }
}

proof fn lemma_reach_scan_range(cats: Seq<ItemDescriptionSnippetCategoryV1>, text: Seq<u8>, pos: int, depth: nat)
    ensures
        forall|x: int| #[trigger] reach_scan(cats, text, pos, depth).contains(x) ==> 0 <= x < cats.len(),
    decreases (33 - depth) as nat, text.len() - pos, 1nat,
{
    if depth > max_depth() || pos < 0 || pos > text.len() {
        assert(reach_scan(cats, text, pos, depth) == Set::<int>::empty());
    } else {
        match next_tag(text, pos) {
            None => {
                assert(reach_scan(cats, text, pos, depth) == Set::<int>::empty());
            },
            Some((begin, close)) => {
                if begin < pos || close <= begin || close >= text.len() {
                    assert(reach_scan(cats, text, pos, depth) == Set::<int>::empty());
                } else {
                    let tag = text.subrange(begin, close + 1);
                    lemma_lookup_range(cats, tag, 0);
                    lemma_reach_scan_range(cats, text, close + 1, depth);
                    match lookup(cats, tag) {
                        None => {
                            assert(reach_scan(cats, text, pos, depth) == reach_scan(cats, text, close + 1, depth));
                        },
                        Some(c) => {
                            lemma_reach_choices_range(cats, c, 0, depth);
                            assert(reach_scan(cats, text, pos, depth) == set![c] + reach_choices(cats, c, 0, depth) + reach_scan(cats, text, close + 1, depth));
                        },
                    }
                }
            },
        }
    }
}

proof fn lemma_reach_choices_range(cats: Seq<ItemDescriptionSnippetCategoryV1>, c: int, k: int, depth: nat)
    ensures
        forall|x: int| #[trigger] reach_choices(cats, c, k, depth).contains(x) ==> 0 <= x < cats.len(),
    decreases (33 - depth) as nat, 0int, cats[c].choices@.len() - k,
{
    if depth > max_depth() || c < 0 || c >= cats.len() || k < 0 || k >= cats[c].choices@.len() {
        assert(reach_choices(cats, c, k, depth) == Set::<int>::empty());
    } else {
        lemma_reach_choices_range(cats, c, k + 1, depth);
        if cats[c].choices@[k].weight != 0 {
            lemma_reach_text_range(cats, choice_bytes(cats, c, k), depth + 1);
            assert(reach_choices(cats, c, k, depth) == reach_text(cats, choice_bytes(cats, c, k), depth + 1) + reach_choices(cats, c, k + 1, depth));
        } else {
            assert(reach_choices(cats, c, k, depth) == reach_choices(cats, c, k + 1, depth));
        }
    }
}


pub open spec fn combine(acc: Option<int>, rest: Option<Option<int>>) -> Option<Option<int>> {
    match rest {
        None => None,
        Some(None) => Some(acc),
        Some(Some(other)) => match acc {
            None => Some(Some(other)),
            Some(a) => Some(Some(if a >= other { a } else { other })),
        },
    }
}

proof fn lemma_memo_grow(cats: Seq<ItemDescriptionSnippetCategoryV1>, memo: Seq<Option<usize>>, small: Seq<bool>, large: Seq<bool>)
    requires
        memo_ok(cats, memo, small),
        large.len() == small.len(),
        reached_set(small).subset_of(reached_set(large)),
    ensures
        memo_ok(cats, memo, large),
{
}

fn expand(
    cats: &Vec<ItemDescriptionSnippetCategoryV1>,
    text: &[u8],
    depth: usize,
    memo: &mut Vec<Option<usize>>,
    reached: &mut Vec<bool>,
) -> (r: Option<usize>)
    requires
        depth <= 33,
        memo_ok(cats@, old(memo)@, old(reached)@),
        texts_bounded(cats@),
        text@.len() <= max_bytes(),
    ensures
        memo_ok(cats@, final(memo)@, final(reached)@),
        reached_set(old(reached)@).subset_of(reached_set(final(reached)@)),
        match r {
            None => expand_len(cats@, text@, depth as nat) is None,
            Some(v) => {
                &&& expand_len(cats@, text@, depth as nat) == Some(v as int)
                &&& v <= 2 * max_bytes()
                &&& reached_set(final(reached)@) == reached_set(old(reached)@) + reach_text(cats@, text@, depth as nat)
            },
        },
    decreases 33 - depth, 1int,
{
    if depth > 32 {
        return None;
    }
    let mut total: usize = 0;
    let mut pos: usize = 0;
    let ghost mut prefix: Set<int> = Set::empty();
    let ghost start_reached = reached_set(reached@);
    assert(reach_text(cats@, text@, depth as nat) == reach_scan(cats@, text@, 0, depth as nat));
    assert(expand_len(cats@, text@, depth as nat) == scan_len(cats@, text@, 0, 0, depth as nat));
    assert(reached_set(reached@) == start_reached + prefix);
    loop
        invariant
            depth <= 32,
            pos <= text@.len(),
            total <= max_bytes() + pos,
            memo_ok(cats@, memo@, reached@),
            texts_bounded(cats@),
            text@.len() <= max_bytes(),
            expand_len(cats@, text@, depth as nat) == scan_len(cats@, text@, pos as int, total as int, depth as nat),
            reach_text(cats@, text@, depth as nat) == prefix + reach_scan(cats@, text@, pos as int, depth as nat),
            reached_set(reached@) == start_reached + prefix,
            start_reached == reached_set(old(reached)@),
        decreases text@.len() - pos,
    {
        proof {
            lemma_find_byte_range(text@, pos as int, 0x3c);
        }
        let begin = match find_byte_exec(text, pos, 0x3c) {
            None => {
                assert(reach_scan(cats@, text@, pos as int, depth as nat) == Set::<int>::empty());
                assert(reached_set(reached@) == reached_set(old(reached)@) + reach_text(cats@, text@, depth as nat));
                return Some(total + (text.len() - pos));
            },
            Some(b) => b,
        };
        proof {
            lemma_find_byte_range(text@, begin + 1, 0x3e);
        }
        let close = match find_byte_exec(text, begin + 1, 0x3e) {
            None => {
                assert(reach_scan(cats@, text@, pos as int, depth as nat) == Set::<int>::empty());
                assert(reached_set(reached@) == reached_set(old(reached)@) + reach_text(cats@, text@, depth as nat));
                return Some(total + (text.len() - pos));
            },
            Some(e) => e,
        };
        let ghost tag = text@.subrange(begin as int, close + 1);
        let before = total + (begin - pos);
        match lookup_exec(cats, text, begin, close + 1) {
            None => {
                total = before + (close + 1 - begin);
                pos = close + 1;
            },
            Some(c) => {
                proof {
                    lemma_lookup_range(cats@, tag, 0);
                    lemma_slot(c as int, depth as int, cats@.len() as int);
                }
                let ghost reached_before = reached@;
                reached[c] = true;
                proof {
                    assert(reached_set(reached@) == reached_set(reached_before).insert(c as int));
                    lemma_memo_grow(cats@, memo@, reached_before, reached@);
                }
                let index = c * 33 + depth;
                let replacement = match memo[index] {
                    Some(v) => {
                        proof {
                            assert(memo@[slot(c as int, depth as int)] is Some);
                        }
                        v
                    },
                    None => {
                        let ghost reached_mid = reached@;
                        match best_exec(cats, c, depth, memo, reached) {
                            None => {
                                return None;
                            },
                            Some(b) => {
                                let v = match b {
                                    None => close + 1 - begin,
                                    Some(x) => x,
                                };
                                proof {
                                    assert(cat_name(cats@, c as int) == tag);
                                }
                                let ghost memo_before = memo@;
                                memo[index] = Some(v);
                                proof {
                                    assert forall|c2: int, d2: int| 0 <= c2 < cats@.len() && 0 <= d2 <= 32 && (#[trigger] memo@[slot(c2, d2)]) is Some implies {
                                        &&& replacement_len(cats@, c2, d2 as nat) == Some(memo@[slot(c2, d2)]->0 as int)
                                        &&& memo@[slot(c2, d2)]->0 <= 2 * max_bytes()
                                        &&& reach_choices(cats@, c2, 0, d2 as nat).subset_of(reached_set(reached@))
                                    } by {
                                        lemma_slot(c2, d2, cats@.len() as int);
                                        lemma_slot(c as int, depth as int, cats@.len() as int);
                                        if slot(c2, d2) != slot(c as int, depth as int) {
                                            assert(memo_before[slot(c2, d2)] is Some);
                                        }
                                    }
                                }
                                v
                            },
                        }
                    },
                };
                if before + replacement > MAX_EXPANDED_DESCRIPTION_BYTES {
                    return None;
                }
                proof {
                    prefix = prefix + set![c as int] + reach_choices(cats@, c as int, 0, depth as nat);
                }
                total = before + replacement;
                pos = close + 1;
            },
        }
    }
}

fn best_exec(
    cats: &Vec<ItemDescriptionSnippetCategoryV1>,
    c: usize,
    depth: usize,
    memo: &mut Vec<Option<usize>>,
    reached: &mut Vec<bool>,
) -> (r: Option<Option<usize>>)
    requires
        c < cats@.len(),
        depth <= 32,
        memo_ok(cats@, old(memo)@, old(reached)@),
        texts_bounded(cats@),
    ensures
        memo_ok(cats@, final(memo)@, final(reached)@),
        reached_set(old(reached)@).subset_of(reached_set(final(reached)@)),
        match r {
            None => best_choice(cats@, c as int, 0, depth as nat) is None,
            Some(b) => {
                &&& best_choice(cats@, c as int, 0, depth as nat) == Some(match b {
                    None => None::<int>,
                    Some(x) => Some(x as int),
                })
                &&& (b matches Some(x) ==> x <= 2 * max_bytes())
                &&& reached_set(final(reached)@) == reached_set(old(reached)@) + reach_choices(cats@, c as int, 0, depth as nat)
            },
        },
    decreases 33 - depth, 0int,
{
    let mut acc: Option<usize> = None;
    let mut k: usize = 0;
    let ghost mut prefix: Set<int> = Set::empty();
    let ghost start_reached = reached_set(reached@);
    let n = cats[c].choices.len();
    while k < n
        invariant
            c < cats@.len(),
            depth <= 32,
            n == cats@[c as int].choices@.len(),
            k <= n,
            memo_ok(cats@, memo@, reached@),
            texts_bounded(cats@),
            best_choice(cats@, c as int, 0, depth as nat) == combine(
                match acc { None => None::<int>, Some(x) => Some(x as int) },
                best_choice(cats@, c as int, k as int, depth as nat),
            ),
            acc matches Some(x) ==> x <= 2 * max_bytes(),
            reach_choices(cats@, c as int, 0, depth as nat) == prefix + reach_choices(cats@, c as int, k as int, depth as nat),
            reached_set(reached@) == start_reached + prefix,
            start_reached == reached_set(old(reached)@),
        decreases n - k,
    {
        if cats[c].choices[k].weight > 0 {
            proof {
                assert(choice_bytes(cats@, c as int, k as int).len() <= max_bytes());
            }
            let ghost reached_mid = reached@;
            match expand(cats, cats[c].choices[k].text.as_str().as_bytes(), depth + 1, memo, reached) {
                None => {
                    return None;
                },
                Some(len) => {
                    acc = Some(match acc {
                        None => len,
                        Some(a) => if a >= len { a } else { len },
                    });
                    proof {
                        prefix = prefix + reach_text(cats@, choice_bytes(cats@, c as int, k as int), (depth + 1) as nat);
                    }
                },
            }
        }
        k = k + 1;
    }
    assert(best_choice(cats@, c as int, k as int, depth as nat) == Some(None::<int>));
    assert(reach_choices(cats@, c as int, k as int, depth as nat) == Set::<int>::empty());
    Some(acc)
}


pub open spec fn description_text_ok(s: Seq<char>) -> bool {
    utf8_len(s) <= max_bytes() && !has_disallowed_control(s)
}

pub open spec fn weight_sum(choices: Seq<crate::item_groups::ItemDescriptionSnippetChoiceV1>) -> int
    decreases choices.len(),
{
    if choices.len() == 0 {
        0
    } else {
        weight_sum(choices.drop_last()) + choices.last().weight
    }
}

/// A category tag such as `<name>`: at most 512 bytes, no control characters.
pub open spec fn category_header_ok(name: Seq<char>) -> bool {
    &&& name.len() > 0
    &&& utf8_len(name) <= 512
    &&& name[0] == '<'
    &&& name[name.len() - 1] == '>'
    &&& !has_control(name)
}

pub open spec fn category_ok(category: ItemDescriptionSnippetCategoryV1) -> bool {
    &&& category_header_ok(category.category@)
    &&& forall|k: int| 0 <= k < category.choices@.len() ==> description_text_ok(#[trigger] category.choices@[k].text@)
    &&& weight_sum(category.choices@) <= u64::MAX
}

pub open spec fn choice_count(cats: Seq<ItemDescriptionSnippetCategoryV1>) -> int
    decreases cats.len(),
{
    if cats.len() == 0 {
        0
    } else {
        choice_count(cats.drop_last()) + cats.last().choices@.len()
    }
}

pub open spec fn all_categories(n: int) -> Set<int> {
    Set::new(|x: int| 0 <= x < n)
}

/// A self-contained description plan: bounded, well-formed texts; strictly
/// sorted category tags; an acyclic expansion within the pinned depth whose
/// longest result fits the byte bound; and every category reachable from the
/// template through positive-weight choices.
pub open spec fn expansion_is_valid(expansion: ItemDescriptionExpansionV1) -> bool {
    let cats = expansion.categories@;
    &&& description_text_ok(expansion.template@)
    &&& cats.len() <= MAX_DESCRIPTION_SNIPPET_CATEGORIES
    &&& forall|c: int| 0 <= c < cats.len() ==> category_ok(#[trigger] cats[c])
    &&& choice_count(cats) <= MAX_DESCRIPTION_SNIPPET_CHOICES
    &&& forall|c: int| 0 <= c < cats.len() - 1 ==> text_lt(#[trigger] cats[c].category@, cats[c + 1].category@)
    &&& expand_len(cats, encode_utf8(expansion.template@), 0) matches Some(m) && m <= max_bytes()
    &&& reach_text(cats, encode_utf8(expansion.template@), 0) == all_categories(cats.len() as int)
}

fn description_text_is_ok(s: &str) -> (r: bool)
    ensures
        r == description_text_ok(s@),
{
    text_len(s) <= MAX_EXPANDED_DESCRIPTION_BYTES && !str_has_disallowed_control(s)
}

fn category_is_ok(category: &ItemDescriptionSnippetCategoryV1) -> (r: bool)
    ensures
        r == category_ok(*category),
{
    let name = category.category.as_str();
    if name.is_empty() || text_len(name) > 512 || str_has_control(name) {
        return false;
    }
    let count = name.unicode_len();
    if name.get_char(0) != '<' || name.get_char(count - 1) != '>' {
        return false;
    }
    let mut sum: u64 = 0;
    let mut k: usize = 0;
    while k < category.choices.len()
        invariant
            k <= category.choices@.len(),
            sum == weight_sum(category.choices@.subrange(0, k as int)),
            forall|j: int| 0 <= j < k ==> description_text_ok(#[trigger] category.choices@[j].text@),
        decreases category.choices.len() - k,
    {
        assert(category.choices@.subrange(0, k + 1).drop_last() =~= category.choices@.subrange(0, k as int));
        if !description_text_is_ok(category.choices[k].text.as_str()) {
            return false;
        }
        match sum.checked_add(category.choices[k].weight) {
            Some(next) => {
                sum = next;
            },
            None => {
                proof {
                    lemma_weight_sum_prefix(category.choices@, k as int + 1);
                }
                return false;
            },
        }
        k = k + 1;
    }
    assert(category.choices@.subrange(0, k as int) =~= category.choices@);
    true
}

proof fn lemma_weight_sum_prefix(choices: Seq<crate::item_groups::ItemDescriptionSnippetChoiceV1>, k: int)
    requires
        0 <= k <= choices.len(),
    ensures
        weight_sum(choices.subrange(0, k)) <= weight_sum(choices),
    decreases choices.len() - k,
{
    if k < choices.len() {
        assert(choices.subrange(0, k + 1).drop_last() =~= choices.subrange(0, k));
        lemma_weight_sum_prefix(choices, k + 1);
    } else {
        assert(choices.subrange(0, k) =~= choices);
    }
}

proof fn lemma_choice_count_prefix(cats: Seq<ItemDescriptionSnippetCategoryV1>, k: int)
    requires
        0 <= k <= cats.len(),
    ensures
        choice_count(cats.subrange(0, k)) <= choice_count(cats),
    decreases cats.len() - k,
{
    if k < cats.len() {
        assert(cats.subrange(0, k + 1).drop_last() =~= cats.subrange(0, k));
        lemma_choice_count_prefix(cats, k + 1);
    } else {
        assert(cats.subrange(0, k) =~= cats);
    }
}

/// Whether an item description expansion plan is valid.
#[verifier::loop_isolation(false)]
pub fn item_description_expansion_is_valid(expansion: &ItemDescriptionExpansionV1) -> (r: bool)
    ensures
        r == expansion_is_valid(*expansion),
{
    let cats = &expansion.categories;
    if !description_text_is_ok(expansion.template.as_str()) || cats.len() > MAX_DESCRIPTION_SNIPPET_CATEGORIES {
        return false;
    }
    let mut count: usize = 0;
    let mut c: usize = 0;
    while c < cats.len()
        invariant
            c <= cats@.len(),
            cats@.len() <= MAX_DESCRIPTION_SNIPPET_CATEGORIES,
            count == choice_count(cats@.subrange(0, c as int)),
            count <= MAX_DESCRIPTION_SNIPPET_CHOICES,
            forall|j: int| 0 <= j < c ==> category_ok(#[trigger] cats@[j]),
        decreases cats.len() - c,
    {
        assert(cats@.subrange(0, c + 1).drop_last() =~= cats@.subrange(0, c as int));
        if !category_is_ok(&cats[c]) {
            assert(!category_ok(expansion.categories@[c as int]));
            return false;
        }
        if cats[c].choices.len() > MAX_DESCRIPTION_SNIPPET_CHOICES - count {
            proof {
                lemma_choice_count_prefix(cats@, c as int + 1);
            }
            return false;
        }
        count = count + cats[c].choices.len();
        c = c + 1;
    }
    assert(cats@.subrange(0, c as int) =~= cats@);
    let mut sorted_index: usize = 1;
    while sorted_index < cats.len()
        invariant
            1 <= sorted_index,
            forall|j: int| 0 <= j < sorted_index - 1 && j < cats@.len() - 1 ==> text_lt(#[trigger] cats@[j].category@, cats@[j + 1].category@),
        decreases cats.len() - sorted_index,
    {
        if !str_less(cats[sorted_index - 1].category.as_str(), cats[sorted_index].category.as_str()) {
            assert(cats@[(sorted_index - 1) as int + 1] == cats@[sorted_index as int]);
            return false;
        }
        sorted_index = sorted_index + 1;
    }
    let mut memo: Vec<Option<usize>> = Vec::new();
    let slots = cats.len() * 33;
    while memo.len() < slots
        invariant
            memo@.len() <= slots,
            slots == cats@.len() * 33,
            forall|i: int| 0 <= i < memo@.len() ==> memo@[i] is None,
        decreases slots - memo.len(),
    {
        memo.push(None);
    }
    let mut reached: Vec<bool> = Vec::new();
    while reached.len() < cats.len()
        invariant
            reached@.len() <= cats@.len(),
            forall|i: int| 0 <= i < reached@.len() ==> !reached@[i],
        decreases cats.len() - reached.len(),
    {
        reached.push(false);
    }
    assert(reached_set(reached@) =~= Set::<int>::empty());
    proof {
        assert forall|cc: int, kk: int| 0 <= cc < cats@.len() && 0 <= kk < cats@[cc].choices@.len() implies (#[trigger] choice_bytes(cats@, cc, kk)).len() <= max_bytes() by {
            assert(category_ok(cats@[cc]));
            assert(description_text_ok(cats@[cc].choices@[kk].text@));
        }
    }
    let template_bytes = expansion.template.as_str().as_bytes();
    assert(template_bytes@ == encode_utf8(expansion.template@));
    let maximum = match expand(cats, template_bytes, 0, &mut memo, &mut reached) {
        None => return false,
        Some(m) => m,
    };
    assert(reached_set(reached@) =~= reach_text(cats@, encode_utf8(expansion.template@), 0));
    let mut all = true;
    let mut i: usize = 0;
    while i < reached.len()
        invariant
            i <= reached@.len(),
            all == forall|j: int| 0 <= j < i ==> reached@[j],
        decreases reached.len() - i,
    {
        if !reached[i] {
            all = false;
        }
        i = i + 1;
    }
    proof {
        lemma_reach_text_range(cats@, encode_utf8(expansion.template@), 0);
        if all {
            assert(reached_set(reached@) =~= all_categories(cats@.len() as int));
        } else {
            let j = choose|j: int| 0 <= j < reached@.len() && !reached@[j];
            assert(!reached_set(reached@).contains(j));
            assert(all_categories(cats@.len() as int).contains(j));
        }
    }
    maximum <= MAX_EXPANDED_DESCRIPTION_BYTES && all
}

} // verus!
