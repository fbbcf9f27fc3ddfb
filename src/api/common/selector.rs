use vstd::prelude::*;

verus! {

/// The `-`-separated parts of `s`, as `str::split('-')` yields them: an empty
/// text is one empty part, and each `-` starts a new part.
pub open spec fn split_dash(s: Seq<char>) -> Seq<Seq<char>>
    decreases s.len(),
{
    if s.len() == 0 {
        seq![Seq::empty()]
    } else {
        let rest = split_dash(s.drop_last());
        if s.last() == '-' {
            rest.push(Seq::empty())
        } else {
            rest.update(rest.len() - 1, rest.last().push(s.last()))
        }
    }
}

/// The parts joined with `-` between each two.
pub open spec fn join_dash(parts: Seq<Seq<char>>) -> Seq<char>
    decreases parts.len(),
{
    if parts.len() == 0 {
        Seq::empty()
    } else if parts.len() == 1 {
        parts[0]
    } else {
        join_dash(parts.drop_last()).push('-') + parts.last()
    }
}

pub proof fn lemma_split_nonempty(s: Seq<char>)
    ensures
        split_dash(s).len() >= 1,
    decreases s.len(),
{
    if s.len() > 0 {
        lemma_split_nonempty(s.drop_last());
    }
}

/// `s` holds no `-`.
pub open spec fn dash_free(s: Seq<char>) -> bool {
    forall|i: int| 0 <= i < s.len() ==> s[i] != '-'
}

/// Every part is free of `-`.
pub open spec fn parts_dash_free(parts: Seq<Seq<char>>) -> bool {
    forall|k: int| 0 <= k < parts.len() ==> dash_free(#[trigger] parts[k])
}

/// Appending `-`-free text to `s` only lengthens the last part of its split.
pub proof fn lemma_split_append(s: Seq<char>, t: Seq<char>)
    requires
        dash_free(t),
    ensures
        split_dash(s + t) == split_dash(s).update(split_dash(s).len() - 1, split_dash(s).last() + t),
    decreases t.len(),
{
    lemma_split_nonempty(s);
    let sp = split_dash(s);
    if t.len() == 0 {
        assert(s + t =~= s);
        assert(sp.last() + t =~= sp.last());
        assert(sp.update(sp.len() - 1, sp.last()) =~= sp);
    } else {
        let t0 = t.drop_last();
        assert(dash_free(t0)) by {
            assert forall|i: int| 0 <= i < t0.len() implies t0[i] != '-' by {
                assert(t0[i] == t[i]);
            }
        }
        lemma_split_append(s, t0);
        assert((s + t).drop_last() =~= s + t0);
        assert((s + t).last() == t.last());
        assert(t.last() == t[t.len() - 1]);
        lemma_split_nonempty(s + t0);
        let mid = split_dash(s + t0);
        assert(mid.len() == sp.len());
        assert(mid.last() == sp.last() + t0);
        assert((sp.last() + t0).push(t.last()) =~= sp.last() + t);
        assert(mid.update(mid.len() - 1, mid.last().push(t.last())) =~= sp.update(sp.len() - 1, sp.last() + t));
    }
}

/// Joining `-`-free parts with `-` and splitting again gives the parts back:
/// the field-selector remap is a one-for-one rename of each part.
pub proof fn lemma_split_join(parts: Seq<Seq<char>>)
    requires
        parts.len() >= 1,
        parts_dash_free(parts),
    ensures
        split_dash(join_dash(parts)) == parts,
    decreases parts.len(),
{
    let last = parts.last();
    assert(dash_free(last)) by {
        assert(dash_free(parts[parts.len() - 1]));
    }
    if parts.len() == 1 {
        lemma_split_append(Seq::empty(), parts[0]);
        assert(Seq::<char>::empty() + parts[0] =~= parts[0]);
        assert(split_dash(Seq::<char>::empty()) =~= seq![Seq::<char>::empty()]);
        assert(Seq::<char>::empty() + parts[0] =~= parts[0]);
        assert(seq![Seq::<char>::empty()].update(0, Seq::<char>::empty() + parts[0]) =~= parts);
    } else {
        let front = parts.drop_last();
        assert(parts_dash_free(front)) by {
            assert forall|k: int| 0 <= k < front.len() implies dash_free(#[trigger] front[k]) by {
                assert(front[k] == parts[k]);
            }
        }
        lemma_split_join(front);
        let j = join_dash(front);
        let jd = j.push('-');
        assert(jd.drop_last() =~= j);
        assert(jd.last() == '-');
        assert(split_dash(jd) == split_dash(j).push(Seq::empty()));
        lemma_split_append(jd, last);
        assert(Seq::<char>::empty() + last =~= last);
        assert(front.push(Seq::empty()).update(front.len() as int, last) =~= parts);
    }
}

/// The parts of a split hold no `-`.
pub proof fn lemma_split_dash_free(s: Seq<char>)
    ensures
        parts_dash_free(split_dash(s)),
    decreases s.len(),
{
    if s.len() > 0 {
        lemma_split_dash_free(s.drop_last());
        lemma_split_nonempty(s.drop_last());
        let rest = split_dash(s.drop_last());
        if s.last() != '-' {
            let grown = rest.last().push(s.last());
            assert(dash_free(rest.last())) by {
                assert(dash_free(rest[rest.len() - 1]));
            }
            assert(dash_free(grown)) by {
                assert forall|i: int| 0 <= i < grown.len() implies grown[i] != '-' by {
                    if i < grown.len() - 1 {
                        assert(grown[i] == rest.last()[i]);
                    }
                }
            }
            let u = rest.update(rest.len() - 1, grown);
            assert forall|k: int| 0 <= k < u.len() implies dash_free(#[trigger] u[k]) by {
                if k != rest.len() - 1 {
                    assert(u[k] == rest[k]);
                }
            }
        } else {
            let u = rest.push(Seq::empty());
            assert forall|k: int| 0 <= k < u.len() implies dash_free(#[trigger] u[k]) by {
                if k < rest.len() {
                    assert(u[k] == rest[k]);
                }
            }
        }
    }
}

/// The texts of a list of string slices.
pub open spec fn texts(v: Seq<&str>) -> Seq<Seq<char>> {
    v.map_values(|p: &str| p@)
}

/// Relies on str::split with a char pattern, collected: the parts between
/// the `-` characters, in order, empty ones included.
#[verifier::external_body]
pub(crate) fn split_dashes(s: &str) -> (r: Vec<&str>)
    ensures
        texts(r@) == split_dash(s@),
{
    s.split('-').collect()
}

/// Relies on slice join (`[&str]::join`) with the separator "-".
#[verifier::external_body]
pub(crate) fn join_dashes(parts: &Vec<&str>) -> (r: String)
    ensures
        r@ == join_dash(texts(parts@)),
{
    parts.join("-")
}

} // verus!
