use vstd::prelude::*;
use crate::sample::{Sample, SampleView};

verus! {

pub open spec fn sample_views(v: Seq<Sample>) -> Seq<SampleView> {
    v.map_values(|s: Sample| s@)
}

pub open spec fn parsed_views(p: Seq<Option<Sample>>) -> Seq<Option<SampleView>> {
    p.map_values(
        |o: Option<Sample>|
            match o {
                Some(s) => Some(s@),
                None => None,
            },
    )
}

/// The samples of the lines that parsed, in file order.
pub open spec fn valid_of(p: Seq<Option<SampleView>>) -> Seq<SampleView>
    decreases p.len(),
{
    if p.len() == 0 {
        Seq::empty()
    } else {
        let rest = valid_of(p.drop_last());
        match p.last() {
            Some(s) => rest.push(s),
            None => rest,
        }
    }
}

/// The positions of the lines that did not parse, in file order.
pub open spec fn skipped_of(p: Seq<Option<SampleView>>) -> Seq<int>
    decreases p.len(),
{
    if p.len() == 0 {
        Seq::empty()
    } else {
        let rest = skipped_of(p.drop_last());
        match p.last() {
            Some(_) => rest,
            None => rest.push(p.len() - 1),
        }
    }
}

/// The last `n` samples of `s`, most recent first.
pub open spec fn recent(s: Seq<SampleView>, n: nat) -> Seq<SampleView> {
    let k = if n < s.len() {
        n as int
    } else {
        s.len() as int
    };
    Seq::new(k as nat, |i: int| s[s.len() - 1 - i])
}

/// What reading the log gave: the samples of the lines that parsed, in file
/// order, and the positions of the lines that did not, each one a warning.
pub struct LogRead {
    pub samples: Vec<Sample>,
    pub skipped: Vec<usize>,
}

/// Sorts the outcome of parsing each line of the log: a line that did not
/// parse is left out and its position recorded; the others keep their order.
pub fn collect_records(parsed: Vec<Option<Sample>>) -> (r: LogRead)
    ensures
        sample_views(r.samples@) == valid_of(parsed_views(parsed@)),
        r.skipped@.map_values(|i: usize| i as int) == skipped_of(parsed_views(parsed@)),
{
    let ghost orig = parsed_views(parsed@);
    let n = parsed.len();
    let mut rest = parsed;
    let mut rev: Vec<Option<Sample>> = Vec::new();
    while rest.len() > 0
        invariant
            rest.len() + rev.len() == n,
            n == orig.len(),
            parsed_views(rest@) == orig.subrange(0, rest.len() as int),
            forall|k: int|
                0 <= k < rev.len() ==> parsed_views(rev@)[k] == orig[n - 1 - k],
        decreases rest.len(),
    {
        let ghost before = rest@;
        let x = rest.pop().unwrap();
        let ghost rb = rev@;
        rev.push(x);
        proof {
            assert(rest@ =~= before.drop_last());
            assert(parsed_views(before)[before.len() - 1] == orig[rest.len() as int]);
            assert(parsed_views(rest@) =~= orig.subrange(0, rest.len() as int)) by {
                assert forall|k: int| 0 <= k < rest.len() implies parsed_views(rest@)[k]
                    == orig[k] by {
                    assert(parsed_views(before)[k] == orig.subrange(0, before.len() as int)[k]);
                }
            }
            assert forall|k: int| 0 <= k < rev.len() implies parsed_views(rev@)[k] == orig[n - 1
                - k] by {
                if k < rb.len() {
                    assert(rev@[k] == rb[k]);
                    assert(parsed_views(rb)[k] == orig[n - 1 - k]);
                }
            }
        }
    }
    let mut samples: Vec<Sample> = Vec::new();
    let mut skipped: Vec<usize> = Vec::new();
    let mut j: usize = 0;
    while rev.len() > 0
        invariant
            j + rev.len() == n,
            n == orig.len(),
            forall|k: int|
                0 <= k < rev.len() ==> parsed_views(rev@)[k] == orig[n - 1 - k],
            sample_views(samples@) == valid_of(orig.subrange(0, j as int)),
            skipped@.map_values(|i: usize| i as int) == skipped_of(orig.subrange(0, j as int)),
        decreases rev.len(),
    {
        let ghost rb = rev@;
        let x = rev.pop().unwrap();
        proof {
            assert(parsed_views(rb)[rb.len() - 1] == orig[j as int]);
            let pre = orig.subrange(0, j + 1);
            assert(pre.drop_last() =~= orig.subrange(0, j as int));
            assert(pre.last() == orig[j as int]);
            assert forall|k: int| 0 <= k < rev.len() implies parsed_views(rev@)[k] == orig[n - 1
                - k] by {
                assert(rev@[k] == rb[k]);
                assert(parsed_views(rb)[k] == orig[n - 1 - k]);
            }
        }
        match x {
            Some(s) => {
                let ghost sb = samples@;
                samples.push(s);
                proof {
                    assert(sample_views(samples@) =~= sample_views(sb).push(s@));
                }
            },
            None => {
                let ghost kb = skipped@;
                skipped.push(j);
                proof {
                    assert(skipped@.map_values(|i: usize| i as int) =~= kb.map_values(
                        |i: usize| i as int,
                    ).push(j as int));
                }
            },
        }
        j = j + 1;
    }
    proof {
        assert(orig.subrange(0, n as int) =~= orig);
    }
    LogRead { samples, skipped }
}

/// The last `n` samples, most recent first.
pub fn list_recent(samples: Vec<Sample>, n: usize) -> (r: Vec<Sample>)
    ensures
        sample_views(r@) == recent(sample_views(samples@), n as nat),
{
    let ghost all = sample_views(samples@);
    let mut rest = samples;
    let mut out: Vec<Sample> = Vec::new();
    while out.len() < n && rest.len() > 0
        invariant
            rest.len() + out.len() == all.len(),
            out.len() <= n,
            sample_views(rest@) == all.subrange(0, rest.len() as int),
            forall|k: int| 0 <= k < out.len() ==> sample_views(out@)[k] == all[all.len() - 1 - k],
        decreases rest.len(),
    {
        let ghost before = rest@;
        let ghost ob = out@;
        let s = rest.pop().unwrap();
        out.push(s);
        proof {
            assert(rest@ =~= before.drop_last());
            assert(sample_views(before)[before.len() - 1] == all[rest.len() as int]);
            assert(sample_views(rest@) =~= all.subrange(0, rest.len() as int)) by {
                assert forall|k: int| 0 <= k < rest.len() implies sample_views(rest@)[k]
                    == all[k] by {
                    assert(sample_views(before)[k] == all.subrange(0, before.len() as int)[k]);
                }
            }
            assert forall|k: int| 0 <= k < out.len() implies sample_views(out@)[k] == all[all.len()
                - 1 - k] by {
                if k < ob.len() {
                    assert(out@[k] == ob[k]);
                    assert(sample_views(ob)[k] == all[all.len() - 1 - k]);
                }
            }
        }
    }
    proof {
        assert(sample_views(out@) =~= recent(all, n as nat));
    }
    out
}

/// A malformed line between two good ones costs that line alone: reading
/// gives both samples, in order, and records one skipped line, the middle one.
pub proof fn lemma_corrupt_line_skipped(a: SampleView, b: SampleView)
    ensures
        valid_of(seq![Some(a), None, Some(b)]) == seq![a, b],
        skipped_of(seq![Some(a), None, Some(b)]) == seq![1int],
{
    let none_yet = Seq::<Option<SampleView>>::empty();
    let first = seq![Some(a)];
    let first_two = seq![Some(a), None];
    let p = seq![Some(a), None, Some(b)];
    assert(first.drop_last() =~= none_yet);
    assert(first_two.drop_last() =~= first);
    assert(p.drop_last() =~= first_two);
    assert(valid_of(none_yet) == Seq::<SampleView>::empty());
    assert(skipped_of(none_yet) == Seq::<int>::empty());
    assert(valid_of(first) =~= seq![a]);
    assert(skipped_of(first) =~= Seq::<int>::empty());
    assert(valid_of(first_two) =~= seq![a]);
    assert(skipped_of(first_two) =~= seq![1int]);
    assert(valid_of(p) =~= seq![a, b]);
    assert(skipped_of(p) =~= seq![1int]);
}

/// The recent view reverses: of five samples in recording order, the three
/// most recent come newest first.
pub proof fn lemma_recent_three_of_five(
    a: SampleView,
    b: SampleView,
    c: SampleView,
    d: SampleView,
    e: SampleView,
)
    ensures
        recent(seq![a, b, c, d, e], 3) == seq![e, d, c],
{
    assert(recent(seq![a, b, c, d, e], 3) =~= seq![e, d, c]);
}

} // verus!
