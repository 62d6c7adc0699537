//! The lines of source code around a finding.

use vstd::prelude::*;
use crate::text::push_char;

verus! {

/// Scanning a text from its start: the pieces that a newline has closed so
/// far, newline removed, and the piece still open.
pub open spec fn split_state(s: Seq<char>) -> (Seq<Seq<char>>, Seq<char>)
    decreases s.len(),
{
    if s.len() == 0 {
        (Seq::empty(), Seq::empty())
    } else {
        let (closed, open) = split_state(s.drop_last());
        if s.last() == '\n' {
            (closed.push(open), Seq::empty())
        } else {
            (closed, open.push(s.last()))
        }
    }
}

/// A piece closed by a newline loses one carriage return before it, so that
/// both `\n` and `\r\n` end a line.
pub open spec fn strip_cr(l: Seq<char>) -> Seq<char> {
    if l.len() > 0 && l.last() == '\r' {
        l.drop_last()
    } else {
        l
    }
}

/// The lines of a text: the pieces between line endings (`\n` or `\r\n`),
/// where the last line needs no ending and an empty piece after the last
/// ending is no line.
pub open spec fn lines_of(s: Seq<char>) -> Seq<Seq<char>> {
    let (closed, open) = split_state(s);
    closed.map_values(|l: Seq<char>| strip_cr(l)) + if open.len() > 0 {
        seq![open]
    } else {
        Seq::empty()
    }
}

/// The index of the first line shown around a finding that starts on line
/// `s_line`.
pub open spec fn window_start(s_line: nat) -> nat {
    if s_line >= 5 {
        (s_line - 4) as nat
    } else {
        0
    }
}

/// The index after the last line shown around a finding on lines `s_line` to
/// `e_line`.
pub open spec fn window_end(s_line: nat, e_line: nat) -> nat {
    if s_line >= 5 || e_line <= s_line {
        e_line + 5
    } else {
        s_line + 5
    }
}

/// The lines of `ls` whose index lies in `[lo, hi)`, each followed by a
/// newline, in order.
pub open spec fn joined_window(ls: Seq<Seq<char>>, lo: nat, hi: nat) -> Seq<char>
    decreases ls.len(),
{
    if ls.len() == 0 {
        Seq::empty()
    } else {
        joined_window(ls.drop_last(), lo, hi) + if lo <= ls.len() - 1 < hi {
            ls.last().push('\n')
        } else {
            Seq::empty()
        }
    }
}

/// Adding a line at the end adds it to the window text when its index lies
/// in the window.
proof fn joined_window_push(ls: Seq<Seq<char>>, l: Seq<char>, lo: nat, hi: nat)
    ensures
        joined_window(ls.push(l), lo, hi) == joined_window(ls, lo, hi) + if lo <= ls.len() < hi {
            l.push('\n')
        } else {
            Seq::empty()
        },
{
    assert(ls.push(l).drop_last() =~= ls);
}

/// Lines at or after the end of the window do not change its text.
proof fn joined_window_take(ls: Seq<Seq<char>>, n: nat, lo: nat, hi: nat)
    requires
        hi <= n <= ls.len(),
    ensures
        joined_window(ls, lo, hi) == joined_window(ls.take(n as int), lo, hi),
    decreases ls.len(),
{
    if ls.len() > n {
        joined_window_take(ls.drop_last(), n, lo, hi);
        assert(ls.drop_last().take(n as int) =~= ls.take(n as int));
    } else {
        assert(ls.take(n as int) =~= ls);
    }
}

/// The pieces closed in a prefix of a text are the first pieces closed in
/// the whole text.
proof fn split_state_prefix(s: Seq<char>, k: nat)
    requires
        k <= s.len(),
    ensures
        split_state(s.take(k as int)).0.len() <= split_state(s).0.len(),
        split_state(s).0.take(split_state(s.take(k as int)).0.len() as int) == split_state(
            s.take(k as int),
        ).0,
    decreases s.len() - k,
{
    if k == s.len() {
        assert(s.take(k as int) =~= s);
        assert(split_state(s).0.take(split_state(s).0.len() as int) =~= split_state(s).0);
    } else {
        let t = s.drop_last();
        assert(t.take(k as int) =~= s.take(k as int));
        split_state_prefix(t, k);
        let n = split_state(s.take(k as int)).0.len() as int;
        let (closed, open) = split_state(t);
        if s.last() == '\n' {
            assert(closed.push(open).take(n) =~= closed.take(n));
        }
    }
}

/// The lines of `code` from `s_line - 4` (or the first line, when `s_line`
/// is below 5) up to `e_line + 4`, and, when `s_line` is below 5, also before
/// `s_line + 5`: each line is followed by a newline.
pub fn get_code(code: &str, s_line: usize, e_line: usize) -> (r: String)
    requires
        code@.len() > 0 ==> e_line + 5 <= usize::MAX,
    ensures
        r@ == joined_window(
            lines_of(code@),
            window_start(s_line as nat),
            window_end(s_line as nat, e_line as nat),
        ),
{
    let ghost lo = window_start(s_line as nat);
    let ghost hi = window_end(s_line as nat, e_line as nat);
    let mut result = String::new();
    let mut i: usize = 0;
    let mut shown: bool = (s_line >= 5 && i > s_line - 5) || (s_line < 5 && i < s_line + 5);
    let mut open_line: bool = false;
    let mut pending_cr: bool = false;
    let mut stopped: bool = false;
    let ghost mut seen: int = 0;
    for c in it: code.chars()
        invariant_except_break
            !stopped,
            seen == it.index(),
            i == split_state(code@.take(seen)).0.len(),
            i < e_line + 5,
            shown == (lo <= i && i < hi),
            open_line == (split_state(code@.take(seen)).1.len() > 0),
            pending_cr == (open_line && split_state(code@.take(seen)).1.last()
                == '\r'),
            result@ == joined_window(
                split_state(code@.take(seen)).0.map_values(
                    |l: Seq<char>| strip_cr(l),
                ),
                lo,
                hi,
            ) + if shown {
                strip_cr(split_state(code@.take(seen)).1)
            } else {
                Seq::empty()
            },
        invariant
            it.seq() == code@,
            code@.len() > 0 ==> e_line + 5 <= usize::MAX,
            lo == window_start(s_line as nat),
            hi == window_end(s_line as nat, e_line as nat),
        ensures
            stopped ==> result@ == joined_window(lines_of(code@), lo, hi),
            !stopped ==> seen == code@.len(),
            !stopped ==> {
                &&& shown == (lo <= split_state(code@.take(seen)).0.len()
                    && split_state(code@.take(seen)).0.len() < hi)
                &&& open_line == (split_state(code@.take(seen)).1.len() > 0)
                &&& pending_cr == (open_line && split_state(code@.take(seen)).1.last()
                    == '\r')
                &&& result@ == joined_window(
                    split_state(code@.take(seen)).0.map_values(
                        |l: Seq<char>| strip_cr(l),
                    ),
                    lo,
                    hi,
                ) + if shown {
                    strip_cr(split_state(code@.take(seen)).1)
                } else {
                    Seq::empty()
                }
            },
    {
        let ghost p = code@.take(seen);
        let ghost q = code@.take(it.index() + 1);
        assert(q.drop_last() =~= p);
        let ghost closed = split_state(p).0;
        let ghost open = split_state(p).1;
        if c == '\n' {
            if shown {
                push_char(&mut result, '\n');
            }
            proof {
                joined_window_push(closed.map_values(|l: Seq<char>| strip_cr(l)), strip_cr(open), lo, hi);
                assert(closed.push(open).map_values(|l: Seq<char>| strip_cr(l)) =~= closed.map_values(
                    |l: Seq<char>| strip_cr(l),
                ).push(strip_cr(open)));
            }
            i = i + 1;
            open_line = false;
            pending_cr = false;
            if i >= e_line + 5 {
                stopped = true;
                proof {
                    let ls = lines_of(code@);
                    split_state_prefix(code@, (it.index() + 1) as nat);
                    assert(ls.take(i as int) =~= split_state(q).0.map_values(|l: Seq<char>| strip_cr(l)));
                    joined_window_take(ls, i as nat, lo, hi);
                }
                break;
            }
            shown = (s_line >= 5 && i > s_line - 5) || (s_line < 5 && i < s_line + 5);
        } else if c == '\r' {
            if pending_cr && shown {
                push_char(&mut result, '\r');
            }
            open_line = true;
            pending_cr = true;
            proof {
                if shown {
                    assert(strip_cr(open.push(c)) =~= open);
                    if open.len() > 0 && open.last() == '\r' {
                        assert(open =~= strip_cr(open).push('\r'));
                    } else {
                        assert(open =~= strip_cr(open));
                    }
                }
            }
        } else {
            if pending_cr && shown {
                push_char(&mut result, '\r');
            }
            if shown {
                push_char(&mut result, c);
            }
            open_line = true;
            pending_cr = false;
            proof {
                if shown {
                    assert(strip_cr(open.push(c)) =~= open.push(c));
                    if open.len() > 0 && open.last() == '\r' {
                        assert(open =~= strip_cr(open).push('\r'));
                    } else {
                        assert(open =~= strip_cr(open));
                    }
                }
            }
        }
        proof {
            seen = seen + 1;
        }
    }
    if !stopped && open_line && shown {
        if pending_cr {
            push_char(&mut result, '\r');
        }
        push_char(&mut result, '\n');
    }
    proof {
        if !stopped {
            assert(code@.take(seen) =~= code@);
            let closed = split_state(code@).0;
            let open = split_state(code@).1;
            let mapped = closed.map_values(|l: Seq<char>| strip_cr(l));
            if open.len() > 0 {
                joined_window_push(mapped, open, lo, hi);
                assert(lines_of(code@) =~= mapped.push(open));
                if pending_cr {
                    assert(open =~= strip_cr(open).push('\r'));
                } else {
                    assert(open =~= strip_cr(open));
                }
            } else {
                assert(lines_of(code@) =~= mapped);
            }
        }
    }
    result
}

/// Each line followed by a newline, in order.
pub open spec fn newline_joined(ws: Seq<Seq<char>>) -> Seq<char>
    decreases ws.len(),
{
    if ws.len() == 0 {
        Seq::empty()
    } else {
        newline_joined(ws.drop_last()) + ws.last().push('\n')
    }
}

/// The lines of `ls` whose index lies in `[lo, hi)`, in order.
pub open spec fn window_lines(ls: Seq<Seq<char>>, lo: nat, hi: nat) -> Seq<Seq<char>> {
    let a = if lo <= ls.len() { lo as int } else { ls.len() as int };
    let m = if hi <= ls.len() { hi as int } else { ls.len() as int };
    let b = if a <= m { m } else { a };
    ls.subrange(a, b)
}

/// The text shown for a window is the lines in the window, each followed
/// by a newline.
pub proof fn joined_window_is_newline_joined(ls: Seq<Seq<char>>, lo: nat, hi: nat)
    ensures
        joined_window(ls, lo, hi) == newline_joined(window_lines(ls, lo, hi)),
    decreases ls.len(),
{
    if ls.len() > 0 {
        let t = ls.drop_last();
        joined_window_is_newline_joined(t, lo, hi);
        let n = t.len();
        if lo <= n && n < hi {
            assert(window_lines(ls, lo, hi) =~= window_lines(t, lo, hi).push(ls.last()));
            assert(window_lines(ls, lo, hi).drop_last() =~= window_lines(t, lo, hi));
        } else {
            assert(window_lines(ls, lo, hi) =~= window_lines(t, lo, hi));
        }
    }
}

/// Scanning a text that ends right after a newline, then another text,
/// closes the pieces of both in order.
proof fn split_state_append(a: Seq<char>, b: Seq<char>)
    requires
        split_state(a).1.len() == 0,
    ensures
        split_state(a + b) == (split_state(a).0 + split_state(b).0, split_state(b).1),
    decreases b.len(),
{
    if b.len() == 0 {
        assert(a + b =~= a);
        assert(split_state(a).0 + Seq::<Seq<char>>::empty() =~= split_state(a).0);
    } else {
        split_state_append(a, b.drop_last());
        assert((a + b).drop_last() =~= a + b.drop_last());
        let (c, o) = split_state(b.drop_last());
        if b.last() == '\n' {
            assert(split_state(a).0 + c.push(o) =~= (split_state(a).0 + c).push(o));
        }
    }
}

/// Scanning a text without newlines leaves it all in the open piece.
proof fn split_state_no_newline(w: Seq<char>)
    requires
        !w.contains('\n'),
    ensures
        split_state(w) == (Seq::<Seq<char>>::empty(), w),
    decreases w.len(),
{
    if w.len() > 0 {
        assert(!w.drop_last().contains('\n')) by {
            if w.drop_last().contains('\n') {
                let k = choose|k: int| 0 <= k < w.drop_last().len() && w.drop_last()[k] == '\n';
                assert(w[k] == '\n');
            }
        }
        split_state_no_newline(w.drop_last());
        assert(w[w.len() - 1] == w.last());
        assert(w.drop_last().push(w.last()) =~= w);
    }
}

/// The pieces that scanning closes, and the one it leaves open, hold no
/// newline.
proof fn split_state_pieces_have_no_newline(s: Seq<char>)
    ensures
        forall|j: int| 0 <= j < split_state(s).0.len() ==> !(#[trigger] split_state(s).0[j]).contains('\n'),
        !split_state(s).1.contains('\n'),
    decreases s.len(),
{
    if s.len() > 0 {
        split_state_pieces_have_no_newline(s.drop_last());
        let (c, o) = split_state(s.drop_last());
        if s.last() != '\n' {
            assert(!o.push(s.last()).contains('\n')) by {
                if o.push(s.last()).contains('\n') {
                    let k = choose|k: int| 0 <= k < o.push(s.last()).len() && o.push(s.last())[k] == '\n';
                    if k < o.len() {
                        assert(o[k] == '\n');
                    }
                }
            }
        } else {
            assert(forall|j: int| 0 <= j < c.len() ==> c.push(o)[j] == c[j]);
        }
    }
}

/// A line with no newline keeps having none once a carriage return is
/// dropped from its end.
proof fn strip_cr_no_newline(l: Seq<char>)
    requires
        !l.contains('\n'),
    ensures
        !strip_cr(l).contains('\n'),
{
    if strip_cr(l).contains('\n') {
        let k = choose|k: int| 0 <= k < strip_cr(l).len() && strip_cr(l)[k] == '\n';
        assert(l[k] == '\n');
    }
}

/// No line of a text holds a newline.
pub proof fn lines_have_no_newline(s: Seq<char>)
    ensures
        forall|j: int| 0 <= j < lines_of(s).len() ==> !(#[trigger] lines_of(s)[j]).contains('\n'),
{
    split_state_pieces_have_no_newline(s);
    let (c, o) = split_state(s);
    assert forall|j: int| 0 <= j < lines_of(s).len() implies !(#[trigger] lines_of(s)[j]).contains(
        '\n',
    ) by {
        if j < c.len() {
            strip_cr_no_newline(c[j]);
        }
    }
}

/// Lines with no newline and no carriage return at their end are read back
/// unchanged from the text that joins them with newlines.
proof fn newline_joined_reads_back(ws: Seq<Seq<char>>)
    requires
        forall|j: int| 0 <= j < ws.len() ==> !(#[trigger] ws[j]).contains('\n'),
        forall|j: int| 0 <= j < ws.len() ==> !((#[trigger] ws[j]).len() > 0 && ws[j].last() == '\r'),
    ensures
        split_state(newline_joined(ws)) == (ws, Seq::<char>::empty()),
        lines_of(newline_joined(ws)) == ws,
    decreases ws.len(),
{
    if ws.len() > 0 {
        let t = ws.drop_last();
        let w = ws.last();
        assert(w == ws[ws.len() - 1]);
        newline_joined_reads_back(t);
        split_state_no_newline(w);
        let wn = w.push('\n');
        assert(wn.drop_last() =~= w);
        assert(split_state(wn) == (seq![w], Seq::<char>::empty())) by {
            assert(Seq::<Seq<char>>::empty().push(w) =~= seq![w]);
        }
        split_state_append(newline_joined(t), wn);
        assert(t + seq![w] =~= ws);
        assert(ws.map_values(|l: Seq<char>| strip_cr(l)) =~= ws);
        assert(lines_of(newline_joined(ws)) =~= ws.map_values(|l: Seq<char>| strip_cr(l)));
    } else {
        assert(lines_of(newline_joined(ws)) =~= ws);
    }
}

/// Reading the lines of the text shown around a finding gives back exactly
/// the lines of the code in the window, in order, provided none of them
/// ends with a carriage return (that one would join the newline after it
/// into a line ending).
pub proof fn shown_lines_read_back(code: Seq<char>, s_line: nat, e_line: nat)
    requires
        forall|j: int|
            0 <= j < window_lines(lines_of(code), window_start(s_line), window_end(s_line, e_line)).len()
                ==> !((#[trigger] window_lines(
                lines_of(code),
                window_start(s_line),
                window_end(s_line, e_line),
            )[j]).len() > 0 && window_lines(
                lines_of(code),
                window_start(s_line),
                window_end(s_line, e_line),
            )[j].last() == '\r'),
    ensures
        lines_of(joined_window(lines_of(code), window_start(s_line), window_end(s_line, e_line)))
            == window_lines(lines_of(code), window_start(s_line), window_end(s_line, e_line)),
{
    let ls = lines_of(code);
    let lo = window_start(s_line);
    let hi = window_end(s_line, e_line);
    let w = window_lines(ls, lo, hi);
    joined_window_is_newline_joined(ls, lo, hi);
    lines_have_no_newline(code);
    assert forall|j: int| 0 <= j < w.len() implies !(#[trigger] w[j]).contains('\n') by {
        let a = if lo <= ls.len() { lo as int } else { ls.len() as int };
        assert(w[j] == ls[a + j]);
    }
    newline_joined_reads_back(w);
}


/// For a finding that starts on line 5 or later, the text shown is every
/// line from four lines before its first line up to four lines after its
/// last line (as far as the code goes), each followed by a newline; in
/// particular every line of the finding itself is shown, whatever its
/// length or position in the code.
pub proof fn shown_text_for_late_finding(code: Seq<char>, s_line: nat, e_line: nat)
    requires
        s_line >= 5,
    ensures
        joined_window(lines_of(code), window_start(s_line), window_end(s_line, e_line))
            == newline_joined(window_lines(lines_of(code), (s_line - 4) as nat, e_line + 5)),
        forall|j: int|
            s_line - 4 <= j < lines_of(code).len() && j < e_line + 5 ==> window_lines(
                lines_of(code),
                (s_line - 4) as nat,
                e_line + 5,
            )[j - (s_line - 4)] == #[trigger] lines_of(code)[j],
        s_line <= e_line + 4 && e_line + 5 <= lines_of(code).len() ==> window_lines(
            lines_of(code),
            (s_line - 4) as nat,
            e_line + 5,
        ).len() == e_line + 9 - s_line,
{
    joined_window_is_newline_joined(lines_of(code), window_start(s_line), window_end(s_line, e_line));
}

/// For a finding that starts before line 5, the text shown is the code from
/// its first line up to four lines after the earlier of the finding's first
/// and last lines (as far as the code goes), each followed by a newline;
/// when the finding ends no earlier than it starts, its first line and the
/// four lines after it are all shown.
pub proof fn shown_text_for_early_finding(code: Seq<char>, s_line: nat, e_line: nat)
    requires
        s_line < 5,
    ensures
        joined_window(lines_of(code), window_start(s_line), window_end(s_line, e_line))
            == newline_joined(window_lines(
            lines_of(code),
            0,
            if s_line <= e_line { s_line + 5 } else { e_line + 5 },
        )),
        s_line <= e_line ==> forall|j: int|
            0 <= j < lines_of(code).len() && j < s_line + 5 ==> window_lines(
                lines_of(code),
                0,
                s_line + 5,
            )[j] == #[trigger] lines_of(code)[j],
        s_line <= e_line && s_line + 5 <= lines_of(code).len() ==> window_lines(
            lines_of(code),
            0,
            s_line + 5,
        ).len() == s_line + 5,
{
    joined_window_is_newline_joined(lines_of(code), window_start(s_line), window_end(s_line, e_line));
}

} // verus!
