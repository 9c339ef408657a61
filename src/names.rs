use vstd::prelude::*;

verus! {

/// A value read from storage where a stage name is expected: a string, or a
/// value of any other kind.
#[derive(Clone, Debug, PartialEq)]
pub enum StoredValue {
    Text(String),
    Other,
}

/// The strings among `vs`, in order; values of other kinds are dropped.
pub open spec fn text_values(vs: Seq<StoredValue>) -> Seq<Seq<char>>
    decreases vs.len(),
{
    if vs.len() == 0 {
        seq![]
    } else {
        let rest = text_values(vs.drop_last());
        match vs.last() {
            StoredValue::Text(s) => rest.push(s@),
            StoredValue::Other => rest,
        }
    }
}

/// Each value of `s` once, in the order of its first occurrence.
pub open spec fn distinct_of(s: Seq<Seq<char>>) -> Seq<Seq<char>>
    decreases s.len(),
{
    if s.len() == 0 {
        seq![]
    } else {
        let d = distinct_of(s.drop_last());
        if d.contains(s.last()) {
            d
        } else {
            d.push(s.last())
        }
    }
}

/// Deduplication keeps every value and repeats none.
pub proof fn lemma_distinct_of(s: Seq<Seq<char>>)
    ensures
        distinct_of(s).no_duplicates(),
        distinct_of(s).to_set() == s.to_set(),
    decreases s.len(),
{
    broadcast use vstd::seq::Seq::lemma_push_to_set_commute;

    if s.len() == 0 {
        assert(s.to_set() =~= Set::<Seq<char>>::empty());
        assert(distinct_of(s).to_set() =~= Set::<Seq<char>>::empty());
    } else {
        let d = distinct_of(s.drop_last());
        lemma_distinct_of(s.drop_last());
        assert(s =~= s.drop_last().push(s.last()));
        if d.contains(s.last()) {
            assert(d.to_set().contains(s.last()));
            assert(s.to_set() =~= d.to_set());
        } else {
            let e = d.push(s.last());
            assert forall|i: int, j: int| 0 <= i < e.len() && 0 <= j < e.len() && i != j implies e[i] != e[j] by {
                if i == d.len() {
                    assert(d[j] == e[j]);
                } else if j == d.len() {
                    assert(d[i] == e[i]);
                }
            }
        }
    }
}

/// The strings among `values`, in order; values of other kinds are dropped.
pub fn keep_text_values(values: Vec<StoredValue>) -> (r: Vec<String>)
    ensures
        r.deep_view() == text_values(values@),
{
    let mut r: Vec<String> = Vec::new();
    let mut i: usize = 0;
    while i < values.len()
        invariant
            i <= values@.len(),
            r.deep_view() == text_values(values@.take(i as int)),
        decreases values@.len() - i,
    {
        assert(values@.take(i + 1).drop_last() =~= values@.take(i as int));
        match &values[i] {
            StoredValue::Text(s) => {
                let ghost before = r.deep_view();
                r.push(s.clone());
                assert(r.deep_view() =~= before.push(s@));
            },
            StoredValue::Other => {},
        }
        i += 1;
    }
    assert(values@.take(i as int) =~= values@);
    r
}

/// Whether `t` occurs in `v`.
pub fn contains_text(v: &Vec<String>, t: &String) -> (r: bool)
    ensures
        r == v.deep_view().contains(t@),
{
    let mut i: usize = 0;
    while i < v.len()
        invariant
            i <= v@.len(),
            forall|k: int| 0 <= k < i ==> v@[k]@ != t@,
        decreases v@.len() - i,
    {
        if v[i] == *t {
            assert(v.deep_view()[i as int] == t@);
            return true;
        }
        i += 1;
    }
    assert forall|k: int| 0 <= k < v.deep_view().len() implies v.deep_view()[k] != t@ by {
        assert(v.deep_view()[k] == v@[k]@);
    }
    false
}

/// Each string of `v` once, in the order of its first occurrence.
pub fn distinct_texts(v: &Vec<String>) -> (r: Vec<String>)
    ensures
        r.deep_view() == distinct_of(v.deep_view()),
        r.deep_view().no_duplicates(),
        r.deep_view().to_set() == v.deep_view().to_set(),
{
    let ghost s = v.deep_view();
    let mut r: Vec<String> = Vec::new();
    let mut i: usize = 0;
    while i < v.len()
        invariant
            i <= v@.len(),
            s == v.deep_view(),
            r.deep_view() == distinct_of(s.take(i as int)),
        decreases v@.len() - i,
    {
        assert(s.take(i + 1).drop_last() =~= s.take(i as int));
        assert(s.take(i + 1).last() == v@[i as int]@);
        if !contains_text(&r, &v[i]) {
            let ghost before = r.deep_view();
            r.push(v[i].clone());
            assert(r.deep_view() =~= before.push(v@[i as int]@));
        }
        i += 1;
    }
    assert(s.take(i as int) =~= s);
    proof {
        lemma_distinct_of(s);
    }
    r
}

} // verus!
