use vstd::prelude::*;

use vstd::std_specs::bits::axiom_u64_trailing_zeros;
use vstd::std_specs::bits::u64_trailing_zeros;

use crate::capture::channel_value;
use crate::model::WindowModel;
use crate::model::find_outcome;
use crate::model::find_outcome_all;
use crate::model::handles_all;
use crate::model::handles_of;
use crate::model::list_outcome;
use crate::model::listed_titles;
use crate::model::listed_titles_all;
use crate::model::preorder;
use crate::model::preorder_all;
use crate::model::resolved_title;
use crate::model::window_count;

verus! {

/// The titles of the titled windows of a window sequence, in order.
pub open spec fn titles_of_titled(s: Seq<WindowModel>) -> Seq<Seq<char>> {
    s.filter(|m: WindowModel| resolved_title(m) is Some).map_values(
        |m: WindowModel| resolved_title(m)->0,
    )
}

/// The windows of a window sequence whose resolved title equals the query
/// exactly, in order. A window with no title is never among them, whatever
/// the query.
pub open spec fn matching_windows(s: Seq<WindowModel>, q: Seq<char>) -> Seq<WindowModel> {
    s.filter(|m: WindowModel| resolved_title(m) == Some(q))
}

proof fn lemma_map_values_add<A, B>(a: Seq<A>, b: Seq<A>, f: spec_fn(A) -> B)
    ensures
        (a + b).map_values(f) == a.map_values(f) + b.map_values(f),
{
    assert((a + b).map_values(f) =~= a.map_values(f) + b.map_values(f));
}

proof fn lemma_filter_singleton<A>(x: A, pred: spec_fn(A) -> bool)
    ensures
        pred(x) ==> seq![x].filter(pred) == seq![x],
        !pred(x) ==> seq![x].filter(pred) == Seq::<A>::empty(),
{
    reveal_with_fuel(Seq::filter, 2);
    assert(seq![x].drop_last() =~= Seq::<A>::empty());
    assert(Seq::<A>::empty().filter(pred) =~= Seq::<A>::empty());
    if pred(x) {
        assert(seq![x].filter(pred) =~= seq![x]);
    } else {
        assert(seq![x].filter(pred) =~= Seq::<A>::empty());
    }
}

proof fn lemma_preorder_len(n: WindowModel)
    ensures
        preorder(n).len() == handles_of(n).len(),
    decreases n,
{
    lemma_preorder_len_all(n.children);
}

proof fn lemma_preorder_len_all(s: Seq<WindowModel>)
    ensures
        preorder_all(s).len() == handles_all(s).len(),
    decreases s,
{
    if s.len() > 0 {
        lemma_preorder_len(s[0]);
        lemma_preorder_len_all(s.subrange(1, s.len() as int));
    }
}

/// What the enumeration yields is exactly the titled subset of the pre-order
/// window sequence, each window standing for its title, in pre-order; its
/// length never exceeds the number of reachable windows.
pub proof fn lemma_list_titled_preorder(n: WindowModel)
    ensures
        listed_titles(n) == titles_of_titled(preorder(n)),
        listed_titles(n).len() <= window_count(n),
{
    lemma_list_titled_preorder_node(n);
    lemma_preorder_len(n);
    preorder(n).lemma_filter_len(|m: WindowModel| resolved_title(m) is Some);
}

proof fn lemma_list_titled_preorder_node(n: WindowModel)
    ensures
        listed_titles(n) == titles_of_titled(preorder(n)),
    decreases n,
{
    let pred = |m: WindowModel| resolved_title(m) is Some;
    let f = |m: WindowModel| resolved_title(m)->0;
    lemma_list_titled_preorder_all(n.children);
    Seq::<WindowModel>::filter_distributes_over_add(seq![n], preorder_all(n.children), pred);
    lemma_filter_singleton(n, pred);
    lemma_map_values_add(seq![n].filter(pred), preorder_all(n.children).filter(pred), f);
    match resolved_title(n) {
        Some(t) => {
            assert(seq![n].map_values(f) =~= seq![t]);
            assert(listed_titles(n) =~= titles_of_titled(preorder(n)));
        },
        None => {
            assert(Seq::<WindowModel>::empty().map_values(f) =~= Seq::<Seq<char>>::empty());
            assert(listed_titles(n) =~= titles_of_titled(preorder(n)));
        },
    }
}

proof fn lemma_list_titled_preorder_all(s: Seq<WindowModel>)
    ensures
        listed_titles_all(s) == titles_of_titled(preorder_all(s)),
    decreases s,
{
    let pred = |m: WindowModel| resolved_title(m) is Some;
    let f = |m: WindowModel| resolved_title(m)->0;
    if s.len() == 0 {
        assert(Seq::<WindowModel>::empty().filter(pred) =~= Seq::<WindowModel>::empty()) by {
            reveal(Seq::filter);
        }
        assert(listed_titles_all(s) =~= titles_of_titled(preorder_all(s)));
    } else {
        let rest = s.subrange(1, s.len() as int);
        lemma_list_titled_preorder_node(s[0]);
        lemma_list_titled_preorder_all(rest);
        Seq::<WindowModel>::filter_distributes_over_add(preorder(s[0]), preorder_all(rest), pred);
        lemma_map_values_add(preorder(s[0]).filter(pred), preorder_all(rest).filter(pred), f);
        assert(listed_titles_all(s) =~= titles_of_titled(preorder_all(s)));
    }
}

/// A successful search returns the handle of the first pre-order window
/// whose resolved title equals the query exactly; it returns absence only
/// where no titled window matches. An untitled window never matches, even
/// when the query is the empty string.
pub proof fn lemma_find_first_match(n: WindowModel, q: Seq<char>)
    ensures
        find_outcome(n, q) matches Ok(Some(w)) ==> matching_windows(preorder(n), q).len() > 0
            && matching_windows(preorder(n), q)[0].handle == w,
        find_outcome(n, q) matches Ok(None) ==> matching_windows(preorder(n), q).len() == 0,
    decreases n,
{
    let pred = |m: WindowModel| resolved_title(m) == Some(q);
    Seq::<WindowModel>::filter_distributes_over_add(seq![n], preorder_all(n.children), pred);
    lemma_filter_singleton(n, pred);
    if resolved_title(n) == Some(q) {
        assert(matching_windows(preorder(n), q)[0] == n);
    } else {
        assert(seq![n].filter(pred) + preorder_all(n.children).filter(pred) =~= preorder_all(
            n.children,
        ).filter(pred));
        if n.query_ok {
            lemma_find_first_match_all(n.children, q);
        }
    }
}

proof fn lemma_find_first_match_all(s: Seq<WindowModel>, q: Seq<char>)
    ensures
        find_outcome_all(s, q) matches Ok(Some(w)) ==> matching_windows(preorder_all(s), q).len()
            > 0 && matching_windows(preorder_all(s), q)[0].handle == w,
        find_outcome_all(s, q) matches Ok(None) ==> matching_windows(preorder_all(s), q).len()
            == 0,
    decreases s,
{
    let pred = |m: WindowModel| resolved_title(m) == Some(q);
    if s.len() == 0 {
        assert(Seq::<WindowModel>::empty().filter(pred) =~= Seq::<WindowModel>::empty()) by {
            reveal(Seq::filter);
        }
    } else {
        let rest = s.subrange(1, s.len() as int);
        let head = matching_windows(preorder(s[0]), q);
        let tail = matching_windows(preorder_all(rest), q);
        Seq::<WindowModel>::filter_distributes_over_add(preorder(s[0]), preorder_all(rest), pred);
        assert(matching_windows(preorder_all(s), q) == head + tail);
        lemma_find_first_match(s[0], q);
        match find_outcome(s[0], q) {
            Ok(Some(w)) => {
                assert((head + tail)[0] == head[0]);
            },
            Ok(None) => {
                assert(head + tail =~= tail);
                lemma_find_first_match_all(rest, q);
            },
            Err(_) => {},
        }
    }
}

/// Two enumerations against an unchanged hierarchy yield identical
/// sequences: the enumeration's outcome is a function of the hierarchy
/// alone.
pub proof fn lemma_list_idempotent(n: WindowModel, r1: Seq<Seq<char>>, r2: Seq<Seq<char>>)
    requires
        list_outcome(n) == Ok::<Seq<Seq<char>>, u64>(r1),
        list_outcome(n) == Ok::<Seq<Seq<char>>, u64>(r2),
    ensures
        r1 == r2,
{
}

proof fn lemma_shift_value(m: u64, s: u64)
    requires
        s < 64,
        (m >> s) & 1 == 1,
        forall|j: u64| j < s ==> #[trigger] ((m >> j) & 1) == 0,
    ensures
        u64_trailing_zeros(m) == s,
{
    axiom_u64_trailing_zeros(m);
    assert((m >> s) & 1 == 1 ==> m != 0) by (bit_vector);
    let tz = u64_trailing_zeros(m) as u64;
    if tz < s {
        assert((m >> tz) & 1 == 0);
    } else if tz > s {
        assert((m >> s) & 1 == 0);
    }
}

/// Decoding a native pixel that packs red, green and blue as 0xRRGGBB, with
/// masks red = 0xFF0000, green = 0x00FF00, blue = 0x0000FF, yields exactly
/// (0xRR, 0xGG, 0xBB).
pub proof fn lemma_pixel_decode_rgb(r: u64, g: u64, b: u64)
    requires
        r < 256,
        g < 256,
        b < 256,
    ensures
        channel_value((r << 16) | (g << 8) | b, 0xFF0000) == r,
        channel_value((r << 16) | (g << 8) | b, 0x00FF00) == g,
        channel_value((r << 16) | (g << 8) | b, 0x0000FF) == b,
{
    let pixel = (r << 16) | (g << 8) | b;
    assert((0xFF0000u64 >> 16) & 1 == 1) by (bit_vector);
    assert(forall|j: u64| j < 16 ==> #[trigger] ((0xFF0000u64 >> j) & 1) == 0) by (bit_vector);
    lemma_shift_value(0xFF0000, 16);
    assert((0x00FF00u64 >> 8) & 1 == 1) by (bit_vector);
    assert(forall|j: u64| j < 8 ==> #[trigger] ((0x00FF00u64 >> j) & 1) == 0) by (bit_vector);
    lemma_shift_value(0x00FF00, 8);
    assert((0x0000FFu64 >> 0) & 1 == 1) by (bit_vector);
    lemma_shift_value(0x0000FF, 0);
    assert(((pixel & 0xFF0000) >> 16) & 0xFF == r) by (bit_vector)
        requires
            r < 256,
            g < 256,
            b < 256,
            pixel == (r << 16) | (g << 8) | b,
    ;
    assert(((pixel & 0x00FF00) >> 8) & 0xFF == g) by (bit_vector)
        requires
            r < 256,
            g < 256,
            b < 256,
            pixel == (r << 16) | (g << 8) | b,
    ;
    assert(((pixel & 0x0000FF) >> 0) & 0xFF == b) by (bit_vector)
        requires
            r < 256,
            g < 256,
            b < 256,
            pixel == (r << 16) | (g << 8) | b,
    ;
}

} // verus!
