//! Turns an unbounded stream of arbitrary-sized byte chunks into the
//! sequence of complete, terminator-stripped protocol lines, keeping the
//! bytes after the last terminator buffered for the next chunk.

use vstd::prelude::*;

use crate::crlf;

verus! {

/// A line terminator "\r\n" begins at position `i` of `s`.
pub open spec fn crlf_at(s: Seq<u8>, i: int) -> bool {
    &&& 0 <= i
    &&& i + 1 < s.len()
    &&& s[i] == 13u8
    &&& s[i + 1] == 10u8
}

/// Position of the first line terminator in `s`, or -1 when `s` holds none.
pub open spec fn find_crlf(s: Seq<u8>) -> int
    decreases s.len(),
{
    if s.len() < 2 {
        -1
    } else if s[0] == 13u8 && s[1] == 10u8 {
        0
    } else {
        let r = find_crlf(s.skip(1));
        if r < 0 {
            -1
        } else {
            r + 1
        }
    }
}

/// `find_crlf` returns the least position where a terminator begins, or -1
/// when no terminator occurs at all.
pub proof fn lemma_find_crlf(s: Seq<u8>)
    ensures
        find_crlf(s) < 0 ==> forall|j: int| !crlf_at(s, j),
        find_crlf(s) >= 0 ==> {
            &&& crlf_at(s, find_crlf(s))
            &&& forall|j: int| 0 <= j < find_crlf(s) ==> !crlf_at(s, j)
        },
    decreases s.len(),
{
    if s.len() < 2 {
    } else if s[0] == 13u8 && s[1] == 10u8 {
    } else {
        lemma_find_crlf(s.skip(1));
        assert(forall|j: int| 1 <= j < s.len() ==> s[j] == s.skip(1)[j - 1]);
        assert forall|j: int| 0 <= j + 1 && !crlf_at(s.skip(1), j) implies !crlf_at(s, j + 1) by {
            if crlf_at(s, j + 1) {
                assert(s.skip(1)[j] == s[j + 1]);
                assert(s.skip(1)[j + 1] == s[j + 2]);
            }
        }
        if find_crlf(s.skip(1)) < 0 {
            assert forall|j: int| !crlf_at(s, j) by {
                if 1 <= j {
                    assert(!crlf_at(s.skip(1), j - 1));
                }
            }
        } else {
            let r = find_crlf(s.skip(1));
            assert(crlf_at(s.skip(1), r));
            assert(s[r + 1] == s.skip(1)[r]);
            assert(s[r + 2] == s.skip(1)[r + 1]);
            assert forall|j: int| 0 <= j < r + 1 implies !crlf_at(s, j) by {
                if 1 <= j {
                    assert(!crlf_at(s.skip(1), j - 1));
                }
            }
        }
    }
}

/// A position where a terminator begins, with none before it, is the one
/// `find_crlf` returns.
pub proof fn lemma_find_crlf_unique(s: Seq<u8>, k: int)
    requires
        crlf_at(s, k),
        forall|j: int| 0 <= j < k ==> !crlf_at(s, j),
    ensures
        find_crlf(s) == k,
{
    lemma_find_crlf(s);
}

/// When `s` holds a terminator, it still begins at the same place after
/// more bytes are appended.
pub proof fn lemma_find_crlf_append(s: Seq<u8>, c: Seq<u8>)
    requires
        find_crlf(s) >= 0,
    ensures
        find_crlf(s + c) == find_crlf(s),
{
    let k = find_crlf(s);
    lemma_find_crlf(s);
    assert(crlf_at(s + c, k));
    assert forall|j: int| 0 <= j < k implies !crlf_at(s + c, j) by {
        assert(!crlf_at(s, j));
        assert((s + c)[j] == s[j]);
        assert((s + c)[j + 1] == s[j + 1]);
    }
    lemma_find_crlf_unique(s + c, k);
}

#[via_fn]
proof fn lines_of_decreases(s: Seq<u8>) {
    lemma_find_crlf(s);
}

/// The complete lines carried by `s`, in order, terminators stripped.
pub open spec fn lines_of(s: Seq<u8>) -> Seq<Seq<u8>>
    decreases s.len(),
        via lines_of_decreases
{
    let k = find_crlf(s);
    if k < 0 {
        Seq::empty()
    } else {
        seq![s.take(k)] + lines_of(s.skip(k + 2))
    }
}

#[via_fn]
proof fn rest_of_decreases(s: Seq<u8>) {
    lemma_find_crlf(s);
}

/// The bytes of `s` after its last terminator: the partial line still
/// waiting for its end.
pub open spec fn rest_of(s: Seq<u8>) -> Seq<u8>
    decreases s.len(),
        via rest_of_decreases
{
    let k = find_crlf(s);
    if k < 0 {
        s
    } else {
        rest_of(s.skip(k + 2))
    }
}

/// What remains after the last terminator holds no terminator.
pub proof fn lemma_rest_no_crlf(s: Seq<u8>)
    ensures
        find_crlf(rest_of(s)) < 0,
    decreases s.len(),
{
    let k = find_crlf(s);
    if k >= 0 {
        lemma_find_crlf(s);
        lemma_rest_no_crlf(s.skip(k + 2));
    }
}

/// Framing commutes with appending: the lines of `s + c` are the lines of
/// `s` followed by the lines that the leftover of `s` forms with `c`, and
/// the leftovers agree. This is what lets the framer work chunk by chunk.
pub proof fn lemma_lines_append(s: Seq<u8>, c: Seq<u8>)
    ensures
        lines_of(s + c) == lines_of(s) + lines_of(rest_of(s) + c),
        rest_of(s + c) == rest_of(rest_of(s) + c),
    decreases s.len(),
{
    let k = find_crlf(s);
    if k < 0 {
        assert(rest_of(s) == s);
        assert(lines_of(s) + lines_of(s + c) =~= lines_of(s + c));
    } else {
        lemma_find_crlf(s);
        lemma_find_crlf_append(s, c);
        assert((s + c).take(k) =~= s.take(k));
        assert((s + c).skip(k + 2) =~= s.skip(k + 2) + c);
        lemma_lines_append(s.skip(k + 2), c);
        assert(lines_of(s + c) == seq![s.take(k)] + lines_of(s.skip(k + 2) + c));
        assert(rest_of(s) == rest_of(s.skip(k + 2)));
        assert(seq![s.take(k)] + (lines_of(s.skip(k + 2)) + lines_of(rest_of(s) + c)) =~= (
        seq![s.take(k)] + lines_of(s.skip(k + 2))) + lines_of(rest_of(s) + c));
    }
}

/// The byte stream that carries each element of `ls` as a terminated line,
/// followed by the unterminated bytes `p`.
pub open spec fn render(ls: Seq<Seq<u8>>, p: Seq<u8>) -> Seq<u8>
    decreases ls.len(),
{
    if ls.len() == 0 {
        p
    } else {
        ls[0] + crlf() + render(ls.drop_first(), p)
    }
}

/// Framing inverts rendering: a stream equal to `L1\r\n...Ln\r\n` plus a
/// trailing partial line frames to exactly `L1, ..., Ln` in order, with the
/// partial line left over — provided no line and no partial holds a
/// terminator of its own.
pub proof fn lemma_lines_of_render(ls: Seq<Seq<u8>>, p: Seq<u8>)
    requires
        forall|i: int| 0 <= i < ls.len() ==> find_crlf(#[trigger] ls[i]) < 0,
        find_crlf(p) < 0,
    ensures
        lines_of(render(ls, p)) == ls,
        rest_of(render(ls, p)) == p,
    decreases ls.len(),
{
    if ls.len() == 0 {
        assert(lines_of(p) =~= ls);
    } else {
        let l0 = ls[0];
        let n = l0.len() as int;
        let s = render(ls, p);
        let tail = render(ls.drop_first(), p);
        assert(s == l0 + crlf() + tail);
        assert(crlf_at(s, n)) by {
            assert(s[n] == (l0 + crlf())[n]);
            assert(s[n + 1] == (l0 + crlf())[n + 1]);
        }
        assert forall|j: int| 0 <= j < n implies !crlf_at(s, j) by {
            lemma_find_crlf(l0);
            assert(!crlf_at(l0, j));
            assert(s[j] == l0[j]);
            if j + 1 < n {
                assert(s[j + 1] == l0[j + 1]);
            } else {
                assert(s[j + 1] == (l0 + crlf())[j + 1]);
                assert(s[j + 1] == 13u8);
            }
        }
        lemma_find_crlf_unique(s, n);
        assert(s.take(n) =~= l0);
        assert(s.skip(n + 2) =~= tail);
        lemma_lines_of_render(ls.drop_first(), p);
        assert(seq![l0] + ls.drop_first() =~= ls);
    }
}

/// The concatenation of a sequence of chunks.
pub open spec fn concat_of(cs: Seq<Seq<u8>>) -> Seq<u8>
    decreases cs.len(),
{
    if cs.len() == 0 {
        Seq::empty()
    } else {
        cs[0] + concat_of(cs.drop_first())
    }
}

/// All the lines a framer yields when, holding `buf`, it is fed the
/// chunks `cs` one at a time.
pub open spec fn lines_fed(buf: Seq<u8>, cs: Seq<Seq<u8>>) -> Seq<Seq<u8>>
    decreases cs.len(),
{
    if cs.len() == 0 {
        Seq::empty()
    } else {
        lines_of(buf + cs[0]) + lines_fed(rest_of(buf + cs[0]), cs.drop_first())
    }
}

/// What a framer holding `buf` still buffers after being fed the chunks
/// `cs` one at a time.
pub open spec fn rest_fed(buf: Seq<u8>, cs: Seq<Seq<u8>>) -> Seq<u8>
    decreases cs.len(),
{
    if cs.len() == 0 {
        buf
    } else {
        rest_fed(rest_of(buf + cs[0]), cs.drop_first())
    }
}

/// Law: however a byte stream is cut into chunks, feeding them one at a
/// time yields exactly the lines of the whole stream, in order, and
/// buffers exactly the bytes after its last terminator.
pub proof fn lemma_feed_chunks(buf: Seq<u8>, cs: Seq<Seq<u8>>)
    requires
        find_crlf(buf) < 0,
    ensures
        lines_fed(buf, cs) == lines_of(buf + concat_of(cs)),
        rest_fed(buf, cs) == rest_of(buf + concat_of(cs)),
    decreases cs.len(),
{
    if cs.len() == 0 {
        assert(buf + concat_of(cs) =~= buf);
    } else {
        let c0 = cs[0];
        let tail = cs.drop_first();
        assert(buf + concat_of(cs) =~= (buf + c0) + concat_of(tail));
        lemma_lines_append(buf + c0, concat_of(tail));
        lemma_rest_no_crlf(buf + c0);
        lemma_feed_chunks(rest_of(buf + c0), tail);
    }
}

/// Law: a stream equal to lines `ls`, each followed by the terminator,
/// then a trailing partial line `p`, fed to a fresh framer in chunks cut
/// anywhere, yields exactly `ls` in order and leaves `p` buffered —
/// provided no line and no partial holds a terminator of its own.
pub proof fn lemma_feed_chunks_render(cs: Seq<Seq<u8>>, ls: Seq<Seq<u8>>, p: Seq<u8>)
    requires
        concat_of(cs) == render(ls, p),
        forall|i: int| 0 <= i < ls.len() ==> find_crlf(#[trigger] ls[i]) < 0,
        find_crlf(p) < 0,
    ensures
        lines_fed(Seq::empty(), cs) == ls,
        rest_fed(Seq::empty(), cs) == p,
{
    lemma_feed_chunks(Seq::empty(), cs);
    assert(Seq::<u8>::empty() + concat_of(cs) =~= concat_of(cs));
    lemma_lines_of_render(ls, p);
}

/// Law: a terminator split across two chunks — the first ending in its
/// first byte, the second beginning with its last — still yields the line
/// exactly once, followed correctly by what the remainder forms.
pub proof fn lemma_terminator_split(l1: Seq<u8>, c: Seq<u8>)
    requires
        find_crlf(l1) < 0,
    ensures
        lines_fed(Seq::empty(), seq![l1 + seq![13u8], seq![10u8] + c]) == seq![l1] + lines_of(c),
        rest_fed(Seq::empty(), seq![l1 + seq![13u8], seq![10u8] + c]) == rest_of(c),
{
    let cs = seq![l1 + seq![13u8], seq![10u8] + c];
    lemma_feed_chunks(Seq::empty(), cs);
    let tail = cs.drop_first();
    assert(tail.drop_first().len() == 0);
    assert(concat_of(tail.drop_first()) == Seq::<u8>::empty());
    assert(concat_of(tail) == tail[0] + concat_of(tail.drop_first()));
    assert(concat_of(tail) =~= seq![10u8] + c);
    assert(Seq::<u8>::empty() + concat_of(cs) =~= (l1 + crlf()) + c);
    lemma_lines_of_render(seq![l1], Seq::empty());
    let ls1 = seq![l1];
    assert(ls1.drop_first().len() == 0);
    assert(render(ls1.drop_first(), Seq::empty()) == Seq::<u8>::empty());
    assert(render(ls1, Seq::empty()) == ls1[0] + crlf() + render(
        ls1.drop_first(),
        Seq::empty(),
    ));
    assert(render(ls1, Seq::empty()) =~= l1 + crlf());
    lemma_lines_append(l1 + crlf(), c);
    assert(Seq::<u8>::empty() + c =~= c);
    assert(seq![l1] + lines_of(c) =~= lines_of((l1 + crlf()) + c));
}

/// Accumulates raw bytes and hands out the complete lines they form.
pub struct Framer {
    buf: Vec<u8>,
}

impl Framer {
    /// The buffered partial line.
    pub closed spec fn view(&self) -> Seq<u8> {
        self.buf@
    }

    /// The buffer never holds a complete line.
    pub open spec fn wf(&self) -> bool {
        find_crlf(self@) < 0
    }

    /// A framer with nothing buffered.
    pub fn new() -> (r: Framer)
        ensures
            r.wf(),
            r@ == Seq::<u8>::empty(),
    {
        Framer { buf: Vec::new() }
    }

    /// Takes the next chunk read from the stream and returns every line
    /// completed by it, in order; the bytes after the last terminator stay
    /// buffered.
    pub fn feed(&mut self, chunk: &[u8]) -> (lines: Vec<Vec<u8>>)
        requires
            old(self).wf(),
        ensures
            final(self).wf(),
            lines@.map_values(|l: Vec<u8>| l@) == lines_of(old(self)@ + chunk@),
            final(self)@ == rest_of(old(self)@ + chunk@),
    {
        let ghost data: Seq<u8> = old(self)@ + chunk@;
        crate::scan::push_all(&mut self.buf, chunk);
        let mut lines: Vec<Vec<u8>> = Vec::new();
        loop
            invariant
                lines@.map_values(|l: Vec<u8>| l@) + lines_of(self.buf@) == lines_of(data),
                rest_of(self.buf@) == rest_of(data),
            ensures
                find_crlf(self.buf@) < 0,
                lines@.map_values(|l: Vec<u8>| l@) + lines_of(self.buf@) == lines_of(data),
                rest_of(self.buf@) == rest_of(data),
            decreases self.buf@.len(),
        {
            let found = find_crlf_in(self.buf.as_slice());
            match found {
                Some(k) => {
                    let line = crate::scan::copy_range(self.buf.as_slice(), 0, k);
                    let upper = self.buf.len();
                    let rest = crate::scan::copy_range(self.buf.as_slice(), k + 2, upper);
                    proof {
                        let b = self.buf@;
                        assert(line@ =~= b.take(k as int));
                        assert(rest@ =~= b.skip(k + 2));
                        assert(lines_of(b) == seq![b.take(k as int)] + lines_of(b.skip(k + 2)));
                        assert(rest_of(b) == rest_of(b.skip(k + 2)));
                        assert(lines@.map_values(|l: Vec<u8>| l@).push(line@) =~= lines@.map_values(
                            |l: Vec<u8>| l@,
                        ) + seq![line@]);
                        assert((lines@.map_values(|l: Vec<u8>| l@) + seq![b.take(k as int)])
                            + lines_of(b.skip(k + 2)) =~= lines@.map_values(|l: Vec<u8>| l@) + (
                        seq![b.take(k as int)] + lines_of(b.skip(k + 2))));
                        assert(lines@.push(line).map_values(|l: Vec<u8>| l@) =~= lines@.map_values(
                            |l: Vec<u8>| l@,
                        ).push(line@));
                    }
                    lines.push(line);
                    self.buf = rest;
                }
                None => {
                    break ;
                }
            }
        }
        lines
    }
}

/// Position of the first line terminator in `s`, when there is one.
fn find_crlf_in(s: &[u8]) -> (r: Option<usize>)
    ensures
        match r {
            Some(k) => find_crlf(s@) == k && k + 2 <= s@.len(),
            None => find_crlf(s@) < 0,
        },
{
    let n = s.len();
    if n < 2 {
        proof {
            lemma_find_crlf(s@);
            if find_crlf(s@) >= 0 {
                assert(crlf_at(s@, find_crlf(s@)));
            }
        }
        return None;
    }
    let mut i: usize = 0;
    while i + 1 < n
        invariant
            n == s@.len(),
            0 <= i < n,
            forall|j: int| 0 <= j < i ==> !crlf_at(s@, j),
        decreases n - i,
    {
        if s[i] == 13u8 && s[i + 1] == 10u8 {
            proof {
                lemma_find_crlf_unique(s@, i as int);
            }
            return Some(i);
        }
        proof {
            assert(!crlf_at(s@, i as int));
        }
        i += 1;
    }
    proof {
        lemma_find_crlf(s@);
        if find_crlf(s@) >= 0 {
            assert(crlf_at(s@, find_crlf(s@)));
        }
    }
    None
}

} // verus!
