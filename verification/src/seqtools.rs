use vstd::prelude::*;

verus! {

/// The results of `f` on each element in order, dropping the elements on
/// which `f` yields nothing.
pub open spec fn spec_filter_map<T, R>(s: Seq<T>, f: spec_fn(T) -> Option<R>) -> Seq<R>
    decreases s.len(),
{
    if s.len() == 0 {
        seq![]
    } else {
        match f(s[0]) {
            Some(r) => seq![r] + spec_filter_map(s.skip(1), f),
            None => spec_filter_map(s.skip(1), f),
        }
    }
}

pub proof fn lemma_filter_map_append<T, R>(p: Seq<T>, q: Seq<T>, f: spec_fn(T) -> Option<R>)
    ensures
        spec_filter_map(p + q, f) == spec_filter_map(p, f) + spec_filter_map(q, f),
    decreases p.len(),
{
    if p.len() == 0 {
        assert(p + q =~= q);
        assert(spec_filter_map(p, f) + spec_filter_map(q, f) =~= spec_filter_map(q, f));
    } else {
        lemma_filter_map_append(p.skip(1), q, f);
        assert((p + q).skip(1) =~= p.skip(1) + q);
        assert((p + q)[0] == p[0]);
        match f(p[0]) {
            Some(r) => {
                assert(seq![r] + (spec_filter_map(p.skip(1), f) + spec_filter_map(q, f)) =~= (
                seq![r] + spec_filter_map(p.skip(1), f)) + spec_filter_map(q, f));
            },
            None => {},
        }
    }
}

/// One step on the right: what appending one element adds.
pub proof fn lemma_filter_map_push<T, R>(s: Seq<T>, x: T, f: spec_fn(T) -> Option<R>)
    ensures
        spec_filter_map(s.push(x), f) == spec_filter_map(s, f) + (match f(x) {
            Some(r) => seq![r],
            None => seq![],
        }),
{
    lemma_filter_map_append(s, seq![x], f);
    assert(s.push(x) =~= s + seq![x]);
    assert(seq![x].skip(1) =~= Seq::<T>::empty());
    assert(spec_filter_map(Seq::<T>::empty(), f) == Seq::<R>::empty());
    assert(seq![x][0] == x);
    match f(x) {
        Some(r) => {
            assert(spec_filter_map(seq![x], f) =~= seq![r] + spec_filter_map(
                seq![x].skip(1),
                f,
            ));
            assert(spec_filter_map(seq![x], f) =~= seq![r]);
        },
        None => {
            assert(spec_filter_map(seq![x], f) =~= Seq::<R>::empty());
        },
    }
}

/// The concatenation of `f` over the elements of `s`, in order.
pub open spec fn spec_concat_map<T>(s: Seq<T>, f: spec_fn(T) -> Seq<char>) -> Seq<char>
    decreases s.len(),
{
    if s.len() == 0 {
        seq![]
    } else {
        f(s[0]) + spec_concat_map(s.skip(1), f)
    }
}

pub proof fn lemma_concat_map_append<T>(p: Seq<T>, q: Seq<T>, f: spec_fn(T) -> Seq<char>)
    ensures
        spec_concat_map(p + q, f) == spec_concat_map(p, f) + spec_concat_map(q, f),
    decreases p.len(),
{
    if p.len() == 0 {
        assert(p + q =~= q);
        assert(spec_concat_map(p, f) + spec_concat_map(q, f) =~= spec_concat_map(q, f));
    } else {
        lemma_concat_map_append(p.skip(1), q, f);
        assert((p + q).skip(1) =~= p.skip(1) + q);
        assert((p + q)[0] == p[0]);
        assert(f(p[0]) + (spec_concat_map(p.skip(1), f) + spec_concat_map(q, f)) =~= (f(p[0])
            + spec_concat_map(p.skip(1), f)) + spec_concat_map(q, f));
    }
}

/// One step on the right: what appending one element adds.
pub proof fn lemma_concat_map_push<T>(s: Seq<T>, x: T, f: spec_fn(T) -> Seq<char>)
    ensures
        spec_concat_map(s.push(x), f) == spec_concat_map(s, f) + f(x),
{
    lemma_concat_map_append(s, seq![x], f);
    assert(s.push(x) =~= s + seq![x]);
    assert(seq![x].skip(1) =~= Seq::<T>::empty());
    assert(spec_concat_map(Seq::<T>::empty(), f) == Seq::<char>::empty());
    assert(seq![x][0] == x);
    assert(spec_concat_map(seq![x], f) =~= f(x) + spec_concat_map(seq![x].skip(1), f));
    assert(spec_concat_map(seq![x], f) =~= f(x));
}

} // verus!
