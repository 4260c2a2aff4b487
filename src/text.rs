use vstd::prelude::*;

verus! {

/// The characters of each string of `v`, in order.
pub open spec fn views(v: Seq<String>) -> Seq<Seq<char>> {
    v.map_values(|s: String| s@)
}

/// The words of `ws` joined with one space between neighbours.
pub open spec fn joined(ws: Seq<Seq<char>>) -> Seq<char>
    decreases ws.len(),
{
    if ws.len() == 0 {
        seq![]
    } else if ws.len() == 1 {
        ws[0]
    } else {
        joined(ws.drop_last()) + seq![' '] + ws.last()
    }
}

/// Whether `t` is one of the strings of `v`.
pub fn contains_text(v: &Vec<String>, t: &String) -> (r: bool)
    ensures
        r == views(v@).contains(t@),
{
    let mut i: usize = 0;
    while i < v.len()
        invariant
            i <= v.len(),
            forall|j: int| 0 <= j < i ==> v@[j]@ != t@,
        decreases v.len() - i,
    {
        if v[i] == *t {
            assert(views(v@)[i as int] == t@);
            return true;
        }
        i = i + 1;
    }
    assert forall|j: int| 0 <= j < views(v@).len() implies views(v@)[j] != t@ by {
        assert(v@[j]@ != t@);
    }
    false
}

/// Whether a string differs from `t`.
pub open spec fn differs(t: Seq<char>) -> spec_fn(Seq<char>) -> bool {
    |s: Seq<char>| s != t
}

/// A copy of `v` without any string equal to `t`; the others keep their order.
pub open spec fn without(v: Seq<Seq<char>>, t: Seq<char>) -> Seq<Seq<char>> {
    v.filter(differs(t))
}

/// A string is left by `without` exactly when it was there and differs from `t`.
pub proof fn lemma_without_contains(v: Seq<Seq<char>>, t: Seq<char>, x: Seq<char>)
    ensures
        without(v, t).contains(x) <==> (v.contains(x) && x != t),
{
    let pred = differs(t);
    if without(v, t).contains(x) {
        v.lemma_filter_contains_rev(pred, x);
        let k = choose|k: int| 0 <= k < v.filter(pred).len() && v.filter(pred)[k] == x;
        v.lemma_filter_pred(pred, k);
    }
    if v.contains(x) && x != t {
        let i = choose|i: int| 0 <= i < v.len() && v[i] == x;
        v.lemma_filter_contains(pred, i);
    }
}

/// The strings of `v` that differ from `t`, in their order.
pub fn remove_text(v: &Vec<String>, t: &String) -> (r: Vec<String>)
    ensures
        views(r@) == without(views(v@), t@),
{
    let mut r: Vec<String> = Vec::new();
    let mut i: usize = 0;
    while i < v.len()
        invariant
            i <= v.len(),
            views(r@) == without(views(v@).subrange(0, i as int), t@),
        decreases v.len() - i,
    {
        let ghost before = views(v@).subrange(0, i as int);
        let ghost r0 = r@;
        assert(views(v@).subrange(0, i + 1) =~= before.push(v@[i as int]@));
        proof {
            before.lemma_filter_push(v@[i as int]@, differs(t@));
        }
        if v[i] != *t {
            r.push(v[i].clone());
            assert(views(r@) =~= views(r0).push(v@[i as int]@));
        }
        i = i + 1;
    }
    assert(views(v@).subrange(0, v.len() as int) == views(v@));
    r
}

/// The words of `ws` joined with one space between neighbours.
pub fn join_words(ws: &Vec<String>) -> (r: String)
    ensures
        r@ == joined(views(ws@)),
{
    let mut r = String::new();
    let mut i: usize = 0;
    while i < ws.len()
        invariant
            i <= ws.len(),
            r@ == joined(views(ws@).subrange(0, i as int)),
        decreases ws.len() - i,
    {
        let ghost prefix = views(ws@).subrange(0, i as int);
        let ghost next = views(ws@).subrange(0, i + 1);
        assert(next.drop_last() =~= prefix);
        assert(next.last() == ws@[i as int]@);
        proof {
            reveal_strlit(" ");
        }
        if i > 0 {
            r.append(" ");
        }
        r.append(ws[i].as_str());
        assert(r@ =~= joined(next));
        i = i + 1;
    }
    assert(views(ws@).subrange(0, ws.len() as int) == views(ws@));
    r
}

} // verus!
