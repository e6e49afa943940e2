use vstd::prelude::*;

verus! {

/// The lowercase form of a text, as `str::to_lowercase` computes it.
pub uninterp spec fn lower_of(s: Seq<char>) -> Seq<char>;

/// Relies on `str::to_lowercase`: the result depends on the characters alone,
/// and the empty text stays empty.
#[verifier::external_body]
fn lowercase(s: &str) -> (r: String)
    ensures
        r@ == lower_of(s@),
        s@.len() == 0 ==> r@.len() == 0,
{
    s.to_lowercase()
}

/// `p` is a prefix of `s`.
pub open spec fn is_prefix(p: Seq<char>, s: Seq<char>) -> bool {
    p.len() <= s.len() && forall|i: int| 0 <= i < p.len() ==> s[i] == p[i]
}

/// Whether `lowered` starts with `lowered_input`; both are taken as already lowercased.
pub fn starts_with_lowered(lowered_input: &str, lowered: &str) -> (r: bool)
    ensures
        r == is_prefix(lowered_input@, lowered@),
{
    let n = lowered_input.unicode_len();
    let m = lowered.unicode_len();
    if n > m {
        return false;
    }
    let mut i: usize = 0;
    while i < n
        invariant
            n == lowered_input@.len(),
            m == lowered@.len(),
            n <= m,
            i <= n,
            forall|k: int| 0 <= k < i ==> lowered@[k] == lowered_input@[k],
        decreases n - i,
    {
        if lowered_input.get_char(i) != lowered.get_char(i) {
            return false;
        }
        i = i + 1;
    }
    true
}


/// The texts that a list of strings holds.
pub open spec fn texts(v: Seq<String>) -> Seq<Seq<char>> {
    v.map_values(|s: String| s@)
}

/// Whether a candidate is kept for the given input: every candidate is kept for an
/// empty input, otherwise those whose lowercase form starts with the input's.
pub open spec fn accepts(input: Seq<char>, cand: Seq<char>) -> bool {
    input.len() == 0 || is_prefix(lower_of(input), lower_of(cand))
}

/// The candidates kept for the input, in their order.
pub open spec fn filtered(input: Seq<char>, cands: Seq<Seq<char>>) -> Seq<Seq<char>>
    decreases cands.len(),
{
    if cands.len() == 0 {
        Seq::empty()
    } else {
        let rest = filtered(input, cands.drop_last());
        if accepts(input, cands.last()) {
            rest.push(cands.last())
        } else {
            rest
        }
    }
}

/// The first `n` entries of `s`, or all of them where there are fewer.
pub open spec fn capped(s: Seq<Seq<char>>, n: nat) -> Seq<Seq<char>> {
    if s.len() <= n {
        s
    } else {
        s.take(n as int)
    }
}

/// The rows that the popup lists: the kept candidates, at most `max_items` of them.
pub open spec fn shown(input: Seq<char>, cands: Seq<Seq<char>>, max_items: nat) -> Seq<Seq<char>> {
    capped(filtered(input, cands), max_items)
}

/// Filtering a leading part of the candidates gives a leading part of the result.
pub proof fn lemma_filtered_prefix(input: Seq<char>, cands: Seq<Seq<char>>, i: int)
    requires
        0 <= i <= cands.len(),
    ensures
        filtered(input, cands.take(i)).len() <= filtered(input, cands).len(),
        filtered(input, cands).take(filtered(input, cands.take(i)).len() as int)
            == filtered(input, cands.take(i)),
    decreases cands.len(),
{
    if i == cands.len() {
        assert(cands.take(i) =~= cands);
        assert(filtered(input, cands).take(filtered(input, cands).len() as int)
            =~= filtered(input, cands));
    } else {
        let front = cands.drop_last();
        assert(front.take(i) =~= cands.take(i));
        lemma_filtered_prefix(input, front, i);
        let a = filtered(input, cands.take(i));
        let b = filtered(input, front);
        if accepts(input, cands.last()) {
            assert(b.push(cands.last()).take(a.len() as int) =~= b.take(a.len() as int));
        }
    }
}

/// Whether `cand` is kept for an input whose lowercase form is `lowered_input`,
/// given the candidate's own lowercase form `lowered_cand`.
pub fn accepts_lowered(input_is_empty: bool, lowered_input: &str, lowered_cand: &str) -> (r: bool)
    ensures
        r == (input_is_empty || is_prefix(lowered_input@, lowered_cand@)),
{
    input_is_empty || starts_with_lowered(lowered_input, lowered_cand)
}

/// Whether `cand` is kept for `input`.
pub fn accepts_input(input: &str, cand: &str) -> (r: bool)
    ensures
        r == accepts(input@, cand@),
{
    let lowered_input = lowercase(input);
    let lowered_cand = lowercase(cand);
    accepts_lowered(input.is_empty(), lowered_input.as_str(), lowered_cand.as_str())
}

/// The candidates kept for `input`, in their order, at most `max_items` of them.
pub fn filter_items(input: &str, items: &Vec<String>, max_items: usize) -> (r: Vec<String>)
    ensures
        texts(r@) == shown(input@, texts(items@), max_items as nat),
        r@.len() <= max_items,
{
    let ghost all = texts(items@);
    let lowered_input = lowercase(input);
    let input_is_empty = input.is_empty();
    let mut out: Vec<String> = Vec::new();
    let mut i: usize = 0;
    while i < items.len() && out.len() < max_items
        invariant
            i <= items@.len(),
            all == texts(items@),
            lowered_input@ == lower_of(input@),
            input_is_empty == (input@.len() == 0),
            out@.len() <= max_items,
            texts(out@) == filtered(input@, all.take(i as int)),
        decreases items@.len() - i,
    {
        let cand = &items[i];
        let lowered_cand = lowercase(cand.as_str());
        let keep = accepts_lowered(input_is_empty, lowered_input.as_str(), lowered_cand.as_str());
        proof {
            let next = all.take(i as int + 1);
            assert(next.drop_last() =~= all.take(i as int));
            assert(next.last() == cand@);
        }
        if keep {
            out.push(cand.clone());
            assert(texts(out@) =~= filtered(input@, all.take(i as int + 1)));
        }
        i = i + 1;
    }
    proof {
        if i == items@.len() {
            assert(all.take(i as int) =~= all);
        } else {
            lemma_filtered_prefix(input@, all, i as int);
        }
    }
    out
}


/// With an empty input nothing is filtered out: the popup lists the candidates
/// themselves, in their order, cut to at most `max_items`.
pub proof fn lemma_empty_input_keeps_all(cands: Seq<Seq<char>>, max_items: nat)
    ensures
        shown(Seq::empty(), cands, max_items) == capped(cands, max_items),
{
    lemma_empty_input_keeps_order(cands);
}

/// With an empty input the kept candidates are all of them, in their order.
proof fn lemma_empty_input_keeps_order(cands: Seq<Seq<char>>)
    ensures
        filtered(Seq::empty(), cands) == cands,
    decreases cands.len(),
{
    if cands.len() > 0 {
        lemma_empty_input_keeps_order(cands.drop_last());
        assert(cands.drop_last().push(cands.last()) =~= cands);
    }
}

/// For a non-empty input the filter is exact: each kept candidate, and so each row
/// listed, starts in lowercase with the lowercase input, each kept candidate is one
/// of the candidates, and no candidate that starts so is left out.
pub proof fn lemma_filter_exact(input: Seq<char>, cands: Seq<Seq<char>>, max_items: nat)
    requires
        input.len() > 0,
    ensures
        forall|k: int|
            0 <= k < filtered(input, cands).len() ==> is_prefix(
                lower_of(input),
                lower_of(#[trigger] filtered(input, cands)[k]),
            ) && cands.contains(filtered(input, cands)[k]),
        forall|k: int|
            0 <= k < shown(input, cands, max_items).len() ==> is_prefix(
                lower_of(input),
                lower_of(#[trigger] shown(input, cands, max_items)[k]),
            ),
        forall|j: int|
            0 <= j < cands.len() && is_prefix(lower_of(input), lower_of(#[trigger] cands[j]))
                ==> filtered(input, cands).contains(cands[j]),
    decreases cands.len(),
{
    let f = filtered(input, cands);
    if cands.len() > 0 {
        let front = cands.drop_last();
        lemma_filter_exact(input, front, max_items);
        let g = filtered(input, front);
        assert forall|k: int| 0 <= k < f.len() implies is_prefix(lower_of(input), lower_of(#[trigger] f[k]))
            && cands.contains(f[k]) by {
            if k < g.len() {
                assert(f[k] == g[k]);
                let j = choose|j: int| 0 <= j < front.len() && front[j] == g[k];
                assert(cands[j] == g[k]);
            } else {
                assert(cands[cands.len() - 1] == f[k]);
            }
        }
        assert forall|j: int|
            0 <= j < cands.len() && is_prefix(lower_of(input), lower_of(#[trigger] cands[j]))
            implies f.contains(cands[j]) by {
            if j < front.len() {
                assert(front[j] == cands[j]);
                let k = choose|k: int| 0 <= k < g.len() && g[k] == front[j];
                assert(f[k] == g[k]);
            } else {
                assert(f[f.len() - 1] == cands[j]);
            }
        }
    }
    let s = shown(input, cands, max_items);
    assert forall|k: int| 0 <= k < s.len() implies is_prefix(lower_of(input), lower_of(#[trigger] s[k])) by {
        assert(s[k] == f[k]);
    }
}

/// The popup never lists more than `max_items` rows.
pub proof fn lemma_shown_within_cap(input: Seq<char>, cands: Seq<Seq<char>>, max_items: nat)
    ensures
        shown(input, cands, max_items).len() <= max_items,
{
}

} // verus!
