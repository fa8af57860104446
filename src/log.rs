use vstd::prelude::*;

verus! {

/// The byte that ends each record of the log.
pub const NEWLINE: u8 = 10;

/// The pieces of `c` between newlines, in order: one more than `c` has newlines.
pub open spec fn split_newlines(c: Seq<u8>) -> Seq<Seq<u8>>
    decreases c.len(),
{
    if c.len() == 0 {
        seq![Seq::<u8>::empty()]
    } else {
        let p = split_newlines(c.drop_last());
        if c.last() == NEWLINE {
            p.push(Seq::<u8>::empty())
        } else {
            p.update(p.len() - 1, p.last().push(c.last()))
        }
    }
}

/// The lines of a log's content: the pieces between newlines, without the
/// empty piece after a final newline.
pub open spec fn lines_of(c: Seq<u8>) -> Seq<Seq<u8>> {
    if c.len() == 0 {
        Seq::empty()
    } else if c.last() == NEWLINE {
        split_newlines(c).drop_last()
    } else {
        split_newlines(c)
    }
}

/// The bytes that appending the records `rs` in order adds to a log.
pub open spec fn framed(rs: Seq<Seq<u8>>) -> Seq<u8>
    decreases rs.len(),
{
    if rs.len() == 0 {
        Seq::empty()
    } else {
        framed(rs.drop_last()) + rs.last().push(NEWLINE)
    }
}

pub open spec fn views(v: Seq<Vec<u8>>) -> Seq<Seq<u8>> {
    v.map_values(|l: Vec<u8>| l@)
}

proof fn lemma_split_one(c: Seq<u8>)
    requires
        c.len() > 0,
    ensures
        split_newlines(c) == (if c.last() == NEWLINE {
            split_newlines(c.drop_last()).push(Seq::<u8>::empty())
        } else {
            let p = split_newlines(c.drop_last());
            p.update(p.len() - 1, p.last().push(c.last()))
        }),
{
}

proof fn lemma_split_len(c: Seq<u8>)
    ensures
        split_newlines(c).len() >= 1,
    decreases c.len(),
{
    if c.len() > 0 {
        lemma_split_len(c.drop_last());
    }
}

/// Bytes without a newline extend the last piece and add none.
proof fn lemma_split_extend(c: Seq<u8>, r: Seq<u8>)
    requires
        !r.contains(NEWLINE),
    ensures
        split_newlines(c + r) == split_newlines(c).update(
            split_newlines(c).len() - 1,
            split_newlines(c).last() + r,
        ),
    decreases r.len(),
{
    lemma_split_len(c);
    if r.len() == 0 {
        assert(c + r =~= c);
        assert(split_newlines(c).last() + r =~= split_newlines(c).last());
        assert(split_newlines(c).update(split_newlines(c).len() - 1, split_newlines(c).last())
            =~= split_newlines(c));
    } else {
        let r0 = r.drop_last();
        assert(!r0.contains(NEWLINE)) by {
            if r0.contains(NEWLINE) {
                let k = choose|k: int| 0 <= k < r0.len() && r0[k] == NEWLINE;
                assert(r[k] == NEWLINE);
            }
        }
        assert(r.last() != NEWLINE) by {
            assert(r[r.len() - 1] == r.last());
        }
        lemma_split_extend(c, r0);
        assert((c + r).drop_last() =~= c + r0);
        assert((c + r).last() == r.last());
        lemma_split_one(c + r);
        lemma_split_len(c + r0);
        let p = split_newlines(c);
        assert((p.last() + r0).push(r.last()) =~= p.last() + r);
        assert(split_newlines(c + r) =~= p.update(p.len() - 1, p.last() + r));
    }
}

/// Framing records in order and splitting the result into lines gives back
/// the pieces in that order, followed by the empty rest after the last newline.
proof fn lemma_split_framed(rs: Seq<Seq<u8>>)
    requires
        forall|i: int| 0 <= i < rs.len() ==> !(#[trigger] rs[i]).contains(NEWLINE),
    ensures
        split_newlines(framed(rs)) == rs.push(Seq::<u8>::empty()),
    decreases rs.len(),
{
    if rs.len() == 0 {
        assert(split_newlines(Seq::<u8>::empty()) =~= seq![Seq::<u8>::empty()]);
        assert(rs.push(Seq::<u8>::empty()) =~= seq![Seq::<u8>::empty()]);
    } else {
        let front = rs.drop_last();
        let r = rs.last();
        assert(r == rs[rs.len() - 1]);
        assert forall|i: int| 0 <= i < front.len() implies !(#[trigger] front[i]).contains(
            NEWLINE,
        ) by {
            assert(front[i] == rs[i]);
        }
        lemma_split_framed(front);
        let c = framed(front);
        assert(framed(rs) == c + r.push(NEWLINE));
        assert(c + r.push(NEWLINE) =~= (c + r).push(NEWLINE));
        lemma_split_extend(c, r);
        let q = (c + r).push(NEWLINE);
        assert(q.drop_last() =~= c + r);
        lemma_split_one(q);
        let p = front.push(Seq::<u8>::empty());
        assert(p.update(p.len() - 1, p.last() + r) =~= rs);
        assert(split_newlines(q) =~= rs.push(Seq::<u8>::empty()));
    }
}

/// Order preservation of the log: appending records that hold no newline,
/// one after another, and reading the lines back gives exactly those
/// records, in the order they were appended.
pub proof fn lemma_append_then_read(rs: Seq<Seq<u8>>)
    requires
        forall|i: int| 0 <= i < rs.len() ==> !(#[trigger] rs[i]).contains(NEWLINE),
    ensures
        lines_of(framed(rs)) == rs,
{
    lemma_split_framed(rs);
    if rs.len() > 0 {
        assert(framed(rs).last() == NEWLINE);
        assert(rs.push(Seq::<u8>::empty()).drop_last() =~= rs);
    }
}

/// The bytes to append to the log for one record: the record and a newline.
/// `None` when the record holds a newline itself, which would split it.
pub fn frame_record(record: Vec<u8>) -> (r: Option<Vec<u8>>)
    ensures
        (r is None) == record@.contains(NEWLINE),
        match r {
            Some(b) => b@ == framed(seq![record@]),
            None => true,
        },
{
    let mut i: usize = 0;
    while i < record.len()
        invariant
            i <= record.len(),
            forall|k: int| 0 <= k < i ==> record@[k] != NEWLINE,
        decreases record.len() - i,
    {
        if record[i] == NEWLINE {
            proof {
                assert(record@[i as int] == NEWLINE);
            }
            return None;
        }
        i = i + 1;
    }
    let ghost orig = record@;
    let mut out: Vec<u8> = record;
    out.push(NEWLINE);
    proof {
        assert(seq![orig].drop_last() =~= Seq::<Seq<u8>>::empty());
        assert(framed(Seq::<Seq<u8>>::empty()) + orig.push(NEWLINE) =~= orig.push(NEWLINE));
    }
    Some(out)
}

/// Splits a log's content into its records, one per line, in file order.
pub fn split_lines(content: &Vec<u8>) -> (r: Vec<Vec<u8>>)
    ensures
        views(r@) == lines_of(content@),
{
    let mut lines: Vec<Vec<u8>> = Vec::new();
    let mut cur: Vec<u8> = Vec::new();
    let mut i: usize = 0;
    while i < content.len()
        invariant
            i <= content.len(),
            views(lines@).push(cur@) == split_newlines(content@.subrange(0, i as int)),
            i == 0 ==> cur@.len() == 0,
            i > 0 ==> (content@[i - 1] == NEWLINE <==> cur@.len() == 0),
        decreases content.len() - i,
    {
        let b = content[i];
        proof {
            let c = content@.subrange(0, i + 1);
            assert(c.drop_last() =~= content@.subrange(0, i as int));
            assert(c.last() == b);
            lemma_split_one(c);
        }
        if b == NEWLINE {
            let ghost before = lines@;
            let done = cur;
            lines.push(done);
            cur = Vec::new();
            proof {
                assert(views(lines@) =~= views(before).push(done@));
            }
        } else {
            let ghost before = cur@;
            cur.push(b);
            proof {
                let p = views(lines@).push(before);
                assert(views(lines@).push(cur@) =~= p.update(p.len() - 1, p.last().push(b)));
            }
        }
        i = i + 1;
    }
    proof {
        assert(content@.subrange(0, content.len() as int) =~= content@);
    }
    if cur.len() > 0 {
        let ghost before = lines@;
        lines.push(cur);
        proof {
            assert(views(lines@) =~= views(before).push(cur@));
            assert(content@.len() > 0);
        }
    } else {
        proof {
            assert(views(lines@).push(cur@).drop_last() =~= views(lines@));
            if content@.len() > 0 {
                assert(content@.last() == content@[content@.len() - 1]);
            } else {
                assert(views(lines@).push(cur@).len() == 1);
            }
        }
    }
    lines
}

} // verus!
