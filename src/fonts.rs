//! The list of installed font families offered in the settings: sorted, each
//! family once.
use vstd::prelude::*;
use vstd::seq_lib::lemma_seq_contains_after_push;

verus! {

/// `a` orders before or equal to `b`, comparing characters by code point and a
/// prefix before a longer text: the order of `String`'s `Ord`.
pub open spec fn text_le(a: Seq<char>, b: Seq<char>) -> bool
    decreases a.len(),
{
    if a.len() == 0 {
        true
    } else if b.len() == 0 {
        false
    } else if a[0] != b[0] {
        (a[0] as u32) < (b[0] as u32)
    } else {
        text_le(a.drop_first(), b.drop_first())
    }
}

pub open spec fn texts_of(v: Seq<String>) -> Seq<Seq<char>> {
    v.map_values(|s: String| s@)
}

/// Relies on `slice::sort` over `String`: it reorders the texts into ascending
/// order, and `String` orders by bytes, which for UTF-8 is code point order.
#[verifier::external_body]
fn sort_texts(v: &mut Vec<String>)
    ensures
        texts_of(final(v)@).to_multiset() == texts_of(old(v)@).to_multiset(),
        final(v)@.len() == old(v)@.len(),
        sorted_texts(texts_of(final(v)@)),
{
    v.sort();
}

/// Texts sorted by `text_le`, each before or equal to every later one.
pub open spec fn sorted_texts(t: Seq<Seq<char>>) -> bool {
    forall|i: int, j: int| 0 <= i < j < t.len() ==> text_le(#[trigger] t[i], #[trigger] t[j])
}

/// No text equals the one after it.
pub open spec fn no_repeats(t: Seq<Seq<char>>) -> bool {
    forall|i: int| 0 <= i < t.len() - 1 ==> t[i] != #[trigger] t[i + 1]
}

/// Drops every text equal to the one before it.
fn dedup_sorted(v: &Vec<String>) -> (r: Vec<String>)
    requires
        sorted_texts(texts_of(v@)),
    ensures
        sorted_texts(texts_of(r@)),
        no_repeats(texts_of(r@)),
        texts_of(r@).to_set() == texts_of(v@).to_set(),
{
    let ghost tv = texts_of(v@);
    let mut out: Vec<String> = Vec::new();
    let mut i: usize = 0;
    while i < v.len()
        invariant
            i <= v@.len(),
            tv == texts_of(v@),
            sorted_texts(tv),
            i > 0 ==> out@.len() > 0 && texts_of(out@).last() == tv[i - 1],
            i == 0 ==> out@.len() == 0,
            forall|k: int, j: int|
                0 <= k < out@.len() && i <= j < tv.len() ==> text_le(
                    #[trigger] texts_of(out@)[k],
                    #[trigger] tv[j],
                ),
            sorted_texts(texts_of(out@)),
            no_repeats(texts_of(out@)),
            forall|t: Seq<char>| #[trigger] texts_of(out@).contains(t) <==> tv.take(i as int).contains(t),
        decreases v@.len() - i,
    {
        let ghost before = texts_of(out@);
        assert(tv.take(i + 1) =~= tv.take(i as int).push(tv[i as int]));
        let keep = out.len() == 0 || out[out.len() - 1] != v[i];
        if keep {
            out.push(v[i].clone());
            assert(texts_of(out@) =~= before.push(tv[i as int]));
            assert forall|t: Seq<char>| #[trigger] texts_of(out@).contains(t) <==> tv.take(i + 1).contains(t) by {
                lemma_seq_contains_after_push(before, tv[i as int], t);
                lemma_seq_contains_after_push(tv.take(i as int), tv[i as int], t);
            }
        } else {
            assert(before[before.len() - 1] == tv[i as int]);
            assert(before.contains(tv[i as int]));
            assert forall|t: Seq<char>| #[trigger] texts_of(out@).contains(t) <==> tv.take(i + 1).contains(t) by {
                lemma_seq_contains_after_push(tv.take(i as int), tv[i as int], t);
            }
        }
        i = i + 1;
    }
    assert(tv.take(tv.len() as int) =~= tv);
    assert(texts_of(out@).to_set() =~= tv.to_set());
    out
}

/// The font families to offer: `families` sorted, each family once.
pub fn font_family_list(families: Vec<String>) -> (r: Vec<String>)
    ensures
        sorted_texts(texts_of(r@)),
        no_repeats(texts_of(r@)),
        texts_of(r@).to_set() == texts_of(families@).to_set(),
{
    broadcast use vstd::seq_lib::group_to_multiset_ensures;

    let ghost given = texts_of(families@);
    let mut sorted = families;
    sort_texts(&mut sorted);
    let r = dedup_sorted(&sorted);
    assert(texts_of(sorted@).to_set() =~= given.to_set()) by {
        assert forall|t: Seq<char>| #[trigger] texts_of(sorted@).contains(t) <==> given.contains(t) by {
            assert(texts_of(sorted@).contains(t) <==> texts_of(sorted@).to_multiset().count(t) > 0);
            assert(given.contains(t) <==> given.to_multiset().count(t) > 0);
        }
    }
    r
}

} // verus!
