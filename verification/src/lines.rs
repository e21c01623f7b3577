//! Splitting code into lines with their terminators kept attached.
//!
//! Each segment is a maximal run of characters ending with `'\n'`; only the
//! final segment may lack the terminator.  An input that ends with a line
//! terminator therefore yields one segment per physical line, and the empty
//! input yields no segments at all.

use vstd::prelude::*;

verus! {

/// The line segments of `s`, terminators kept.
pub open spec fn line_segments(s: Seq<char>) -> Seq<Seq<char>>
    decreases s.len(),
{
    if s.len() == 0 {
        Seq::empty()
    } else {
        let prev = line_segments(s.drop_last());
        if prev.len() > 0 && prev.last().last() != '\n' {
            prev.update(prev.len() - 1, prev.last().push(s.last()))
        } else {
            prev.push(seq![s.last()])
        }
    }
}

/// Every segment is nonempty, every segment but the last ends with `'\n'`,
/// and there are never more segments than characters.
pub proof fn lemma_line_segments_wf(s: Seq<char>)
    ensures
        forall|i: int| 0 <= i < line_segments(s).len() ==> (#[trigger] line_segments(s)[i]).len()
            > 0,
        forall|i: int|
            0 <= i < line_segments(s).len() - 1 ==> (#[trigger] line_segments(s)[i]).last() == '\n',
        line_segments(s).len() <= s.len(),
        s.len() > 0 ==> line_segments(s).len() > 0,
    decreases s.len(),
{
    if s.len() > 0 {
        lemma_line_segments_wf(s.drop_last());
    }
}

/// Splits `code` into its line segments.
pub fn split_lines<'a>(code: &'a str) -> (v: Vec<&'a str>)
    ensures
        v@.len() == line_segments(code@).len(),
        forall|i: int| 0 <= i < v@.len() ==> (#[trigger] v@[i])@ == line_segments(code@)[i],
{
    let n = code.unicode_len();
    let mut v: Vec<&'a str> = Vec::new();
    let mut start: usize = 0;
    let mut i: usize = 0;
    while i < n
        invariant
            start <= i <= n,
            n == code@.len(),
            forall|k: int| 0 <= k < v@.len() ==> (#[trigger] v@[k])@.len() > 0,
            forall|k: int| 0 <= k < v@.len() ==> (#[trigger] v@[k])@.last() == '\n',
            start == i ==> line_segments(code@.subrange(0, i as int)) =~= Seq::new(
                v@.len(),
                |k: int| v@[k]@,
            ),
            start < i ==> line_segments(code@.subrange(0, i as int)) =~= Seq::new(
                v@.len(),
                |k: int| v@[k]@,
            ).push(code@.subrange(start as int, i as int)),
            forall|k: int| start <= k < i ==> code@[k] != '\n',
        decreases n - i,
    {
        let ghost p = code@.subrange(0, i as int);
        let ghost p1 = code@.subrange(0, i as int + 1);
        let ghost vs_old = Seq::new(v@.len(), |k: int| v@[k]@);
        let ghost start_old = start as int;
        proof {
            assert(p1.drop_last() =~= p);
            assert(p1.last() == code@[i as int]);
        }
        let c = code.get_char(i);
        if c == '\n' {
            let seg = code.substring_char(start, i + 1);
            v.push(seg);
            start = i + 1;
            proof {
                assert(seg@ =~= code@.subrange(start_old, i as int + 1));
                if start_old < i as int {
                    assert(line_segments(p) =~= vs_old.push(
                        code@.subrange(start_old, i as int),
                    ));
                    assert(line_segments(p).last() == code@.subrange(start_old, i as int));
                    assert(line_segments(p).last().last() == code@[i as int - 1]);
                    assert(line_segments(p1) == line_segments(p).update(
                        line_segments(p).len() - 1,
                        line_segments(p).last().push(p1.last()),
                    ));
                    assert(line_segments(p).last().push(p1.last()) =~= seg@);
                    assert(line_segments(p1) =~= vs_old.push(seg@));
                } else {
                    assert(line_segments(p) =~= vs_old);
                    if vs_old.len() > 0 {
                        assert(vs_old.last() == vs_old[vs_old.len() - 1]);
                        assert(vs_old.last().last() == '\n');
                    }
                    assert(line_segments(p1) == line_segments(p).push(seq![p1.last()]));
                    assert(seg@ =~= seq![code@[i as int]]);
                    assert(line_segments(p1) =~= vs_old.push(seg@));
                }
                assert(seg@.last() == '\n');
                assert(Seq::new(v@.len(), |k: int| v@[k]@) =~= vs_old.push(seg@));
                assert(line_segments(p1) =~= Seq::new(v@.len(), |k: int| v@[k]@));
            }
        } else {
            proof {
                let partial1 = code@.subrange(start_old, i as int + 1);
                if start_old < i as int {
                    assert(line_segments(p) =~= vs_old.push(
                        code@.subrange(start_old, i as int),
                    ));
                    assert(line_segments(p).last() == code@.subrange(start_old, i as int));
                    assert(line_segments(p).last().last() == code@[i as int - 1]);
                    assert(line_segments(p1) == line_segments(p).update(
                        line_segments(p).len() - 1,
                        line_segments(p).last().push(p1.last()),
                    ));
                    assert(line_segments(p).last().push(p1.last()) =~= partial1);
                    assert(line_segments(p1) =~= vs_old.push(partial1));
                } else {
                    assert(line_segments(p) =~= vs_old);
                    if vs_old.len() > 0 {
                        assert(vs_old.last() == vs_old[vs_old.len() - 1]);
                        assert(vs_old.last().last() == '\n');
                    }
                    assert(line_segments(p1) == line_segments(p).push(seq![p1.last()]));
                    assert(seq![p1.last()] =~= partial1);
                    assert(line_segments(p1) =~= vs_old.push(partial1));
                }
            }
        }
        i = i + 1;
    }
    proof {
        assert(code@.subrange(0, n as int) =~= code@);
    }
    if start < n {
        let seg = code.substring_char(start, n);
        let ghost vs_old = Seq::new(v@.len(), |k: int| v@[k]@);
        v.push(seg);
        proof {
            assert(Seq::new(v@.len(), |k: int| v@[k]@) =~= vs_old.push(seg@));
            assert(line_segments(code@) =~= Seq::new(v@.len(), |k: int| v@[k]@));
        }
    }
    proof {
        assert(Seq::new(v@.len(), |k: int| v@[k]@) =~= line_segments(code@));
    }
    v
}

} // verus!
