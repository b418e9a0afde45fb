use vstd::prelude::*;
use vstd::seq_lib::to_multiset_insert;
use vstd::utf8::char_u32_cast;
use crate::access_point::{AccessPoint, AccessPointView};

verus! {

/// Whether text `a` stands before text `b`, or is the same: texts are
/// compared character by character by code point, and a text stands before
/// every longer text that starts with it.
pub open spec fn text_le(a: Seq<char>, b: Seq<char>) -> bool
    decreases a.len(),
{
    if a.len() == 0 {
        true
    } else if b.len() == 0 {
        false
    } else if a[0] != b[0] {
        (a[0] as u32) < (b[0] as u32)
    } else {
        text_le(a.skip(1), b.skip(1))
    }
}

/// Every text stands before or at itself.
pub proof fn lemma_text_le_reflexive(a: Seq<char>)
    ensures
        text_le(a, a),
    decreases a.len(),
{
    if a.len() > 0 {
        lemma_text_le_reflexive(a.skip(1));
    }
}

/// Of two texts, one stands before or at the other.
pub proof fn lemma_text_le_total(a: Seq<char>, b: Seq<char>)
    ensures
        text_le(a, b) || text_le(b, a),
    decreases a.len(),
{
    if a.len() > 0 && b.len() > 0 {
        if a[0] == b[0] {
            lemma_text_le_total(a.skip(1), b.skip(1));
        } else {
            char_u32_cast(a[0], a[0] as u32);
            char_u32_cast(b[0], b[0] as u32);
        }
    }
}

/// Two texts that stand before or at each other are the same text.
pub proof fn lemma_text_le_antisymmetric(a: Seq<char>, b: Seq<char>)
    requires
        text_le(a, b),
        text_le(b, a),
    ensures
        a == b,
    decreases a.len(),
{
    if a.len() > 0 {
        lemma_text_le_antisymmetric(a.skip(1), b.skip(1));
        assert(a =~= seq![a[0]] + a.skip(1));
        assert(b =~= seq![b[0]] + b.skip(1));
    } else {
        assert(a =~= b);
    }
}

/// What stands before or at a text that stands before or at a third,
/// stands before or at the third.
pub proof fn lemma_text_le_transitive(a: Seq<char>, b: Seq<char>, c: Seq<char>)
    requires
        text_le(a, b),
        text_le(b, c),
    ensures
        text_le(a, c),
    decreases a.len(),
{
    if a.len() > 0 {
        if a[0] == b[0] && b[0] == c[0] {
            lemma_text_le_transitive(a.skip(1), b.skip(1), c.skip(1));
        }
    }
}

/// Whether access point `a` ranks before `b`, or the same: the stronger
/// signal ranks first, and of two equal signals the name that stands first.
pub open spec fn rank_le(a: AccessPointView, b: AccessPointView) -> bool {
    a.signal > b.signal || (a.signal == b.signal && text_le(a.ssid, b.ssid))
}

/// Ranking is reflexive.
pub proof fn lemma_rank_le_reflexive(a: AccessPointView)
    ensures
        rank_le(a, a),
{
    lemma_text_le_reflexive(a.ssid);
}

/// Ranking is total: of two access points, one ranks before or with the other.
pub proof fn lemma_rank_le_total(a: AccessPointView, b: AccessPointView)
    ensures
        rank_le(a, b) || rank_le(b, a),
{
    lemma_text_le_total(a.ssid, b.ssid);
}

/// Ranking is transitive.
pub proof fn lemma_rank_le_transitive(a: AccessPointView, b: AccessPointView, c: AccessPointView)
    requires
        rank_le(a, b),
        rank_le(b, c),
    ensures
        rank_le(a, c),
{
    if a.signal == b.signal && b.signal == c.signal {
        lemma_text_le_transitive(a.ssid, b.ssid, c.ssid);
    }
}

/// Two access points that rank before or with each other have the same
/// signal and the same name.
pub proof fn lemma_rank_le_antisymmetric(a: AccessPointView, b: AccessPointView)
    requires
        rank_le(a, b),
        rank_le(b, a),
    ensures
        a.signal == b.signal,
        a.ssid == b.ssid,
{
    lemma_text_le_antisymmetric(a.ssid, b.ssid);
}

/// The views of a run of access points, in order.
pub open spec fn access_point_views(access_points: Seq<AccessPoint>) -> Seq<AccessPointView> {
    access_points.map_values(|a: AccessPoint| a@)
}

/// A ranked run with one more access point put in: before the first one
/// that it ranks before or with, or at the end.
pub open spec fn insert_ranked(x: AccessPointView, ranked: Seq<AccessPointView>) -> Seq<
    AccessPointView,
>
    decreases ranked.len(),
{
    if ranked.len() == 0 {
        seq![x]
    } else if rank_le(x, ranked[0]) {
        seq![x] + ranked
    } else {
        seq![ranked[0]] + insert_ranked(x, ranked.skip(1))
    }
}

/// A run of access points in ranking order; those of one rank keep the
/// order in which they came.
pub open spec fn ranked(s: Seq<AccessPointView>) -> Seq<AccessPointView>
    decreases s.len(),
{
    if s.len() == 0 {
        s
    } else {
        insert_ranked(s[0], ranked(s.skip(1)))
    }
}

/// Whether each access point of a run ranks before or with all that follow it.
pub open spec fn in_rank_order(s: Seq<AccessPointView>) -> bool {
    forall|i: int, j: int| 0 <= i < j < s.len() ==> rank_le(#[trigger] s[i], #[trigger] s[j])
}

/// The test for one rank: a signal level and a name.
pub open spec fn of_rank(signal: i32, name: Seq<char>) -> spec_fn(AccessPointView) -> bool {
    |a: AccessPointView| a.signal == signal && a.ssid == name
}

/// Where `insert_ranked` puts an access point: behind all that rank
/// strictly before it, and before the first that does not.
pub proof fn lemma_insert_position(x: AccessPointView, t: Seq<AccessPointView>) -> (p: int)
    ensures
        0 <= p <= t.len(),
        forall|i: int| 0 <= i < p ==> !rank_le(x, #[trigger] t[i]),
        p < t.len() ==> rank_le(x, t[p]),
        insert_ranked(x, t) == t.insert(p, x),
    decreases t.len(),
{
    if t.len() == 0 {
        assert(seq![x] =~= t.insert(0, x));
        0
    } else if rank_le(x, t[0]) {
        assert(seq![x] + t =~= t.insert(0, x));
        0
    } else {
        let q = lemma_insert_position(x, t.skip(1));
        assert(seq![t[0]] + t.skip(1).insert(q, x) =~= t.insert(q + 1, x));
        assert forall|i: int| 0 <= i < q + 1 implies !rank_le(x, #[trigger] t[i]) by {
            if i > 0 {
                assert(t[i] == t.skip(1)[i - 1]);
            }
        }
        if q + 1 < t.len() {
            assert(t[q + 1] == t.skip(1)[q]);
        }
        q + 1
    }
}

/// The place found by walking a ranked run from the front is the place
/// where `insert_ranked` puts the access point.
pub proof fn lemma_insert_at(x: AccessPointView, t: Seq<AccessPointView>, p: int)
    requires
        0 <= p <= t.len(),
        forall|i: int| 0 <= i < p ==> !rank_le(x, #[trigger] t[i]),
        p < t.len() ==> rank_le(x, t[p]),
    ensures
        insert_ranked(x, t) == t.insert(p, x),
{
    let q = lemma_insert_position(x, t);
    if q < p {
        assert(!rank_le(x, t[q]));
    } else if p < q {
        assert(!rank_le(x, t[p]));
    }
}

/// Putting an access point into a run in ranking order leaves it in
/// ranking order.
pub proof fn lemma_insert_keeps_order(x: AccessPointView, t: Seq<AccessPointView>)
    requires
        in_rank_order(t),
    ensures
        in_rank_order(insert_ranked(x, t)),
{
    let p = lemma_insert_position(x, t);
    let r = t.insert(p, x);
    t.insert_ensures(p, x);
    assert forall|i: int, j: int| 0 <= i < j < r.len() implies rank_le(
        #[trigger] r[i],
        #[trigger] r[j],
    ) by {
        if j < p {
            assert(r[i] == t[i] && r[j] == t[j]);
        } else if j == p {
            assert(r[i] == t[i]);
            lemma_rank_le_total(x, t[i]);
        } else if i < p {
            assert(r[i] == t[i]);
            assert(r[j] == t[j - 1]);
            if j - 1 == i {
            }
        } else if i == p {
            assert(r[j] == t[j - 1]);
            if j - 1 > p {
                lemma_rank_le_transitive(x, t[p], t[j - 1]);
            }
        } else {
            assert(r[i] == t[i - 1]);
            assert(r[j] == t[j - 1]);
        }
    }
}

/// The ranked run is in ranking order: by falling signal, and by rising
/// name among equal signals.
pub proof fn lemma_ranked_in_order(s: Seq<AccessPointView>)
    ensures
        in_rank_order(ranked(s)),
    decreases s.len(),
{
    if s.len() > 0 {
        lemma_ranked_in_order(s.skip(1));
        lemma_insert_keeps_order(s[0], ranked(s.skip(1)));
    }
}

/// The ranked run holds the same access points as the run it was made of,
/// each as often.
pub proof fn lemma_ranked_permutes(s: Seq<AccessPointView>)
    ensures
        ranked(s).to_multiset() == s.to_multiset(),
        ranked(s).len() == s.len(),
    decreases s.len(),
{
    if s.len() > 0 {
        let rest = s.skip(1);
        lemma_ranked_permutes(rest);
        let p = lemma_insert_position(s[0], ranked(rest));
        to_multiset_insert(ranked(rest), p, s[0]);
        to_multiset_insert(rest, 0, s[0]);
        assert(rest.insert(0, s[0]) =~= s);
    }
}

/// Putting an access point into a ranked run keeps, within each rank,
/// the order of putting it in front.
pub proof fn lemma_insert_keeps_rank(
    x: AccessPointView,
    t: Seq<AccessPointView>,
    signal: i32,
    name: Seq<char>,
)
    ensures
        insert_ranked(x, t).filter(of_rank(signal, name)) == (seq![x] + t).filter(
            of_rank(signal, name),
        ),
    decreases t.len(),
{
    let class = of_rank(signal, name);
    if t.len() > 0 && !rank_le(x, t[0]) {
        let rest = t.skip(1);
        lemma_insert_keeps_rank(x, rest, signal, name);
        insert_ranked(x, rest).lemma_filter_prepend(t[0], class);
        rest.lemma_filter_prepend(x, class);
        rest.lemma_filter_prepend(t[0], class);
        t.lemma_filter_prepend(x, class);
        assert(seq![t[0]] + rest =~= t);
        if class(x) && class(t[0]) {
            lemma_rank_le_reflexive(x);
            assert(false);
        }
        let one = if class(x) {
            seq![x]
        } else {
            Seq::empty()
        };
        let other = if class(t[0]) {
            seq![t[0]]
        } else {
            Seq::empty()
        };
        assert(other + (one + rest.filter(class)) =~= one + (other + rest.filter(class)));
    }
}

/// Ranking is stable: the access points of one rank stand in the ranked
/// run in the order in which they came.
pub proof fn lemma_ranked_is_stable(s: Seq<AccessPointView>, signal: i32, name: Seq<char>)
    ensures
        ranked(s).filter(of_rank(signal, name)) == s.filter(of_rank(signal, name)),
    decreases s.len(),
{
    let class = of_rank(signal, name);
    if s.len() > 0 {
        let rest = s.skip(1);
        lemma_ranked_is_stable(rest, signal, name);
        lemma_insert_keeps_rank(s[0], ranked(rest), signal, name);
        ranked(rest).lemma_filter_prepend(s[0], class);
        rest.lemma_filter_prepend(s[0], class);
        assert(seq![s[0]] + rest =~= s);
    }
}

/// Calls `<=` of `str`. Trusted: texts are ordered character by character
/// by code point, a text before every longer text that starts with it.
#[verifier::external_body]
fn name_le(a: &str, b: &str) -> (r: bool)
    ensures
        r == text_le(a@, b@),
{
    a <= b
}

/// Whether `a` ranks before `b`, or the same.
pub fn ranks_first(a: &AccessPoint, b: &AccessPoint) -> (r: bool)
    ensures
        r == rank_le(a@, b@),
{
    a.signal > b.signal || (a.signal == b.signal && name_le(a.ssid.as_str(), b.ssid.as_str()))
}

/// Puts the access points in ranking order: strongest signal first, equal
/// signals by name, and those of one rank in the order in which they came.
pub fn sort_access_points(access_points: &mut Vec<AccessPoint>)
    ensures
        access_point_views(final(access_points)@) == ranked(
            access_point_views(old(access_points)@),
        ),
{
    let ghost all = access_point_views(access_points@);
    let mut sorted: Vec<AccessPoint> = Vec::new();
    assert(all.skip(all.len() as int) =~= Seq::empty());
    assert(access_point_views(sorted@) =~= Seq::empty());
    loop
        invariant
            access_points@.len() <= all.len(),
            access_point_views(access_points@) == all.take(access_points@.len() as int),
            access_point_views(sorted@) == ranked(all.skip(access_points@.len() as int)),
        ensures
            access_point_views(sorted@) == ranked(all),
        decreases access_points@.len(),
    {
        let ghost left = access_points@.len() as int;
        match access_points.pop() {
            None => {
                assert(all.skip(0) =~= all);
                break ;
            },
            Some(x) => {
                let ghost before = access_point_views(sorted@);
                proof {
                    assert(all.take(left)[left - 1] == x@);
                    assert(access_point_views(access_points@) =~= all.take(left - 1));
                    assert(all.skip(left - 1).skip(1) =~= all.skip(left));
                    assert(all.skip(left - 1)[0] == x@);
                }
                let mut p: usize = 0;
                loop
                    invariant
                        p <= sorted@.len(),
                        before == access_point_views(sorted@),
                        forall|i: int| 0 <= i < p ==> !rank_le(x@, #[trigger] before[i]),
                    ensures
                        p <= sorted@.len(),
                        forall|i: int| 0 <= i < p ==> !rank_le(x@, #[trigger] before[i]),
                        p < sorted@.len() ==> rank_le(x@, before[p as int]),
                    decreases sorted@.len() - p,
                {
                    if p >= sorted.len() {
                        break ;
                    }
                    if ranks_first(&x, &sorted[p]) {
                        break ;
                    }
                    p = p + 1;
                }
                proof {
                    lemma_insert_at(x@, before, p as int);
                    assert(access_point_views(sorted@.insert(p as int, x)) =~= before.insert(
                        p as int,
                        x@,
                    ));
                }
                sorted.insert(p, x);
            },
        }
    }
    *access_points = sorted;
}

} // verus!
