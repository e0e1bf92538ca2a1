//! Character-level helpers on strings.
use vstd::prelude::*;

verus! {

/// Gives `String::push` of std the effect its documentation states: the
/// character is appended at the end of the string.
pub assume_specification[ String::push ](s: &mut String, ch: char)
    ensures
        final(s)@ == old(s)@.push(ch),
;

/// The prefix of `s` that ends before the first occurrence of `c`
/// (all of `s` when `c` does not occur).
pub open spec fn prefix_before(s: Seq<char>, c: char) -> Seq<char>
    decreases s.len(),
{
    if s.len() == 0 {
        s
    } else if s[0] == c {
        Seq::empty()
    } else {
        seq![s[0]] + prefix_before(s.drop_first(), c)
    }
}

/// The characters of `s` that come before the first `c`, as a new string.
pub fn prefix_before_char(s: &str, c: char) -> (r: String)
    ensures
        r@ == prefix_before(s@, c),
{
    let mut r = String::new();
    let mut done = false;
    proof {
        assert(s@.skip(0) =~= s@);
        assert(r@ + prefix_before(s@, c) =~= prefix_before(s@, c));
    }
    for x in it: s.chars()
        invariant
            it.seq() == s@,
            !done ==> r@ + prefix_before(s@.skip(it.index() as int), c) == prefix_before(s@, c),
            done ==> r@ == prefix_before(s@, c),
    {
        if !done {
            proof {
                let rest = s@.skip(it.index() as int);
                assert(rest[0] == x);
                assert(rest.drop_first() =~= s@.skip(it.index() + 1));
            }
            if x == c {
                done = true;
            } else {
                proof {
                    let rest = s@.skip(it.index() as int);
                    assert(r@.push(x) + prefix_before(rest.drop_first(), c) =~= r@ + prefix_before(rest, c));
                }
                r.push(x);
            }
        }
    }
    proof {
        if !done {
            assert(s@.skip(s@.len() as int) =~= Seq::<char>::empty());
            assert(r@ + Seq::<char>::empty() =~= r@);
        }
    }
    r
}

/// The length of `prefix_before(s, c)` is at most that of `s`; when it is shorter,
/// `c` stands right after it.
pub proof fn lemma_prefix_before(s: Seq<char>, c: char)
    ensures
        prefix_before(s, c).len() <= s.len(),
        prefix_before(s, c) =~= s.take(prefix_before(s, c).len() as int),
        !prefix_before(s, c).contains(c),
        prefix_before(s, c).len() < s.len() ==> s[prefix_before(s, c).len() as int] == c,
        prefix_before(s, c).len() == s.len() ==> !s.contains(c),
    decreases s.len(),
{
    if s.len() > 0 && s[0] != c {
        lemma_prefix_before(s.drop_first(), c);
        let p = prefix_before(s.drop_first(), c);
        assert(prefix_before(s, c) =~= seq![s[0]] + p);
        if prefix_before(s, c).len() == s.len() {
            assert forall|i: int| 0 <= i < s.len() implies s[i] != c by {
                if i > 0 {
                    assert(s[i] == s.drop_first()[i - 1]);
                }
            }
        }
        assert forall|i: int| 0 <= i < prefix_before(s, c).len() implies prefix_before(s, c)[i] != c by {
            if i > 0 {
                assert(prefix_before(s, c)[i] == p[i - 1]);
            }
        }
    }
}

/// A line without its final carriage return, if it has one.
pub open spec fn strip_cr(line: Seq<char>) -> Seq<char> {
    if line.len() > 0 && line.last() == '\r' {
        line.drop_last()
    } else {
        line
    }
}

/// The lines of a text: it is split at each line feed, a carriage return right
/// before a line feed is dropped with it, and a final line feed ends the last
/// line rather than starting an empty one.
pub open spec fn lines_of(s: Seq<char>) -> Seq<Seq<char>>
    decreases s.len(),
{
    if s.len() == 0 {
        Seq::empty()
    } else {
        let head = prefix_before(s, '\n');
        proof {
            lemma_prefix_before(s, '\n');
        }
        if head.len() >= s.len() {
            seq![s]
        } else {
            seq![strip_cr(head)] + lines_of(s.skip(head.len() + 1 as int))
        }
    }
}

/// The views of a vector of strings.
pub open spec fn string_views(v: Seq<String>) -> Seq<Seq<char>> {
    v.map_values(|x: String| x@)
}

proof fn lemma_prefix_before_concat(seg: Seq<char>, rest: Seq<char>, c: char)
    requires
        !seg.contains(c),
    ensures
        prefix_before(seg + seq![c] + rest, c) == seg,
    decreases seg.len(),
{
    if seg.len() == 0 {
        assert((seg + seq![c] + rest)[0] == c);
        assert(prefix_before(seg + seq![c] + rest, c) =~= seg);
    } else {
        let t = seg + seq![c] + rest;
        assert(!seg.drop_first().contains(c)) by {
            if seg.drop_first().contains(c) {
                let i = choose|i: int| 0 <= i < seg.drop_first().len() && seg.drop_first()[i] == c;
                assert(seg[i + 1] == c);
            }
        }
        lemma_prefix_before_concat(seg.drop_first(), rest, c);
        assert(t.drop_first() =~= seg.drop_first() + seq![c] + rest);
        assert(t[0] == seg[0]);
        assert(seq![seg[0]] + seg.drop_first() =~= seg);
    }
}

proof fn lemma_lines_of_line_feed(seg: Seq<char>, rest: Seq<char>)
    requires
        !seg.contains('\n'),
    ensures
        lines_of(seg + seq!['\n'] + rest) == seq![strip_cr(seg)] + lines_of(rest),
{
    let t = seg + seq!['\n'] + rest;
    lemma_prefix_before_concat(seg, rest, '\n');
    assert(t.skip(seg.len() + 1 as int) =~= rest);
}

proof fn lemma_lines_of_last(seg: Seq<char>)
    requires
        !seg.contains('\n'),
    ensures
        lines_of(seg) == (if seg.len() == 0 { Seq::<Seq<char>>::empty() } else { seq![seg] }),
{
    if seg.len() > 0 {
        lemma_prefix_before(seg, '\n');
        if prefix_before(seg, '\n').len() < seg.len() {
            assert(seg[prefix_before(seg, '\n').len() as int] == '\n');
            assert(seg.contains('\n'));
        }
    }
}

/// Splits `text` into lines as `str::lines` does.
pub fn split_lines(text: &str) -> (lines: Vec<String>)
    ensures
        string_views(lines@) == lines_of(text@),
{
    let mut lines: Vec<String> = Vec::new();
    let mut cur = String::new();
    let mut pending_cr = false;
    let ghost mut seg: Seq<char> = Seq::empty();
    proof {
        assert(text@.skip(0) =~= text@);
        assert(seg + text@ =~= text@);
        assert(string_views(lines@) + lines_of(text@) =~= lines_of(text@));
    }
    for x in it: text.chars()
        invariant
            it.seq() == text@,
            string_views(lines@) + lines_of(seg + text@.skip(it.index() as int)) == lines_of(text@),
            !seg.contains('\n'),
            seg == (if pending_cr { cur@.push('\r') } else { cur@ }),
            !pending_cr ==> (cur@.len() == 0 || cur@.last() != '\r'),
    {
        let ghost i = it.index() as int;
        let ghost before = string_views(lines@);
        proof {
            assert(text@.skip(i)[0] == x);
            assert(text@.skip(i) =~= seq![x] + text@.skip(i + 1));
        }
        if x == '\n' {
            proof {
                assert(seg + text@.skip(i) =~= seg + seq!['\n'] + text@.skip(i + 1));
                lemma_lines_of_line_feed(seg, text@.skip(i + 1));
                if pending_cr {
                    assert(strip_cr(seg) =~= cur@);
                } else {
                    assert(strip_cr(seg) == cur@);
                }
            }
            let line = cur;
            lines.push(line);
            cur = String::new();
            pending_cr = false;
            proof {
                assert(string_views(lines@) =~= before.push(strip_cr(seg)));
                assert(before.push(strip_cr(seg)) + lines_of(text@.skip(i + 1))
                    =~= before + (seq![strip_cr(seg)] + lines_of(text@.skip(i + 1))));
                seg = Seq::empty();
                assert(seg + text@.skip(i + 1) =~= text@.skip(i + 1));
            }
        } else {
            let ghost old_seg = seg;
            if pending_cr {
                cur.push('\r');
            }
            if x == '\r' {
                pending_cr = true;
            } else {
                cur.push(x);
                pending_cr = false;
            }
            proof {
                seg = old_seg.push(x);
                assert(seg =~= (if pending_cr { cur@.push('\r') } else { cur@ }));
                assert(old_seg + text@.skip(i) =~= seg + text@.skip(i + 1));
                assert(!seg.contains('\n')) by {
                    if seg.contains('\n') {
                        let k = choose|k: int| 0 <= k < seg.len() && seg[k] == '\n';
                        if k < old_seg.len() {
                            assert(old_seg[k] == '\n');
                        }
                    }
                }
            }
        }
    }
    proof {
        assert(text@.skip(text@.len() as int) =~= Seq::<char>::empty());
        assert(seg + Seq::<char>::empty() =~= seg);
        lemma_lines_of_last(seg);
    }
    if pending_cr || !cur.as_str().is_empty() {
        if pending_cr {
            cur.push('\r');
        }
        let ghost before = string_views(lines@);
        lines.push(cur);
        proof {
            assert(string_views(lines@) =~= before + seq![seg]);
        }
    } else {
        proof {
            assert(seg.len() == 0);
            assert(string_views(lines@) + Seq::<Seq<char>>::empty() =~= string_views(lines@));
        }
    }
    lines
}

/// Law: no line of a text holds a line feed.
pub proof fn law_lines_hold_no_line_feed(s: Seq<char>)
    ensures
        forall|i: int| 0 <= i < lines_of(s).len() ==> !(#[trigger] lines_of(s)[i]).contains('\n'),
    decreases s.len(),
{
    if s.len() > 0 {
        let head = prefix_before(s, '\n');
        lemma_prefix_before(s, '\n');
        if head.len() < s.len() {
            let rest = s.skip(head.len() + 1 as int);
            law_lines_hold_no_line_feed(rest);
            assert(!strip_cr(head).contains('\n')) by {
                if strip_cr(head).contains('\n') {
                    let k = choose|k: int| 0 <= k < strip_cr(head).len() && strip_cr(head)[k] == '\n';
                    assert(head[k] == '\n');
                }
            }
            assert forall|i: int| 0 <= i < lines_of(s).len() implies !(#[trigger] lines_of(s)[i]).contains('\n') by {
                if i > 0 {
                    assert(lines_of(s)[i] == lines_of(rest)[i - 1]);
                }
            }
        }
    }
}

/// The text with every carriage return that stands right before a line feed
/// taken out.
pub open spec fn crlf_to_lf(s: Seq<char>) -> Seq<char>
    decreases s.len(),
{
    if s.len() == 0 {
        s
    } else if s.len() >= 2 && s[0] == '\r' && s[1] == '\n' {
        crlf_to_lf(s.drop_first())
    } else {
        seq![s[0]] + crlf_to_lf(s.drop_first())
    }
}

/// The lines, each followed by a line feed, one after the other.
pub open spec fn join_lines(lines: Seq<Seq<char>>) -> Seq<char>
    decreases lines.len(),
{
    if lines.len() == 0 {
        Seq::empty()
    } else {
        lines[0] + seq!['\n'] + join_lines(lines.drop_first())
    }
}

proof fn lemma_crlf_to_lf_no_line_feed(seg: Seq<char>)
    requires
        !seg.contains('\n'),
    ensures
        crlf_to_lf(seg) == seg,
    decreases seg.len(),
{
    if seg.len() > 0 {
        assert(!seg.drop_first().contains('\n')) by {
            if seg.drop_first().contains('\n') {
                let k = choose|k: int| 0 <= k < seg.drop_first().len() && seg.drop_first()[k] == '\n';
                assert(seg[k + 1] == '\n');
            }
        }
        lemma_crlf_to_lf_no_line_feed(seg.drop_first());
        if seg.len() >= 2 {
            assert(seg[1] != '\n');
        }
        assert(seq![seg[0]] + seg.drop_first() =~= seg);
    }
}

proof fn lemma_crlf_to_lf_line(seg: Seq<char>, rest: Seq<char>)
    requires
        !seg.contains('\n'),
    ensures
        crlf_to_lf(seg + seq!['\n'] + rest) == strip_cr(seg) + seq!['\n'] + crlf_to_lf(rest),
    decreases seg.len(),
{
    let t = seg + seq!['\n'] + rest;
    if seg.len() == 0 {
        assert(t[0] == '\n');
        assert(t.drop_first() =~= rest);
        assert(strip_cr(seg) + seq!['\n'] + crlf_to_lf(rest) =~= seq![t[0]] + crlf_to_lf(rest));
    } else {
        let tail = seg.drop_first();
        assert(!tail.contains('\n')) by {
            if tail.contains('\n') {
                let k = choose|k: int| 0 <= k < tail.len() && tail[k] == '\n';
                assert(seg[k + 1] == '\n');
            }
        }
        lemma_crlf_to_lf_line(tail, rest);
        assert(t.drop_first() =~= tail + seq!['\n'] + rest);
        assert(t[0] == seg[0]);
        if seg.len() == 1 {
            assert(t[1] == '\n');
            if seg[0] == '\r' {
                assert(strip_cr(seg) =~= Seq::<char>::empty());
                assert(strip_cr(tail) =~= tail);
                assert(tail =~= Seq::<char>::empty());
                assert(strip_cr(tail) + seq!['\n'] + crlf_to_lf(rest) =~= strip_cr(seg) + seq!['\n']
                    + crlf_to_lf(rest));
            } else {
                assert(strip_cr(seg) == seg);
                assert(tail =~= Seq::<char>::empty());
                assert(seq![t[0]] + (strip_cr(tail) + seq!['\n'] + crlf_to_lf(rest)) =~= strip_cr(seg)
                    + seq!['\n'] + crlf_to_lf(rest));
            }
        } else {
            assert(t[1] == seg[1]);
            assert(seg[1] != '\n');
            assert(tail.last() == seg.last());
            if seg.last() == '\r' {
                assert(strip_cr(seg) =~= seq![seg[0]] + strip_cr(tail));
            } else {
                assert(strip_cr(seg) =~= seq![seg[0]] + strip_cr(tail));
            }
            assert(seq![t[0]] + (strip_cr(tail) + seq!['\n'] + crlf_to_lf(rest)) =~= strip_cr(seg)
                + seq!['\n'] + crlf_to_lf(rest));
        }
    }
}

/// Law: the lines hold the whole text. Each followed by a line feed and put
/// one after the other, they give the text with every CRLF turned into LF,
/// ended by a line feed when the text is not empty and does not end in one.
/// As no line holds a line feed, this fixes the lines of every text.
pub proof fn law_lines_rejoin_to_text(s: Seq<char>)
    ensures
        join_lines(lines_of(s)) == (if s.len() == 0 || s.last() == '\n' {
            crlf_to_lf(s)
        } else {
            crlf_to_lf(s).push('\n')
        }),
    decreases s.len(),
{
    if s.len() > 0 {
        let head = prefix_before(s, '\n');
        lemma_prefix_before(s, '\n');
        if head.len() >= s.len() {
            assert(head.len() == s.len());
            lemma_crlf_to_lf_no_line_feed(s);
            assert(s.contains(s[s.len() - 1]));
            assert(lines_of(s) == seq![s]);
            assert(seq![s].drop_first() =~= Seq::<Seq<char>>::empty());
            assert(join_lines(Seq::<Seq<char>>::empty()) == Seq::<char>::empty());
            assert(seq![s][0] == s);
            assert(join_lines(seq![s]) =~= s + seq!['\n']);
        } else {
            let rest = s.skip(head.len() + 1 as int);
            law_lines_rejoin_to_text(rest);
            assert(s =~= head + seq!['\n'] + rest);
            lemma_crlf_to_lf_line(head, rest);
            let ls = lines_of(s);
            assert(ls == seq![strip_cr(head)] + lines_of(rest));
            assert(ls.drop_first() =~= lines_of(rest));
            assert(ls[0] == strip_cr(head));
            if rest.len() == 0 {
                assert(s.last() == '\n');
            } else {
                assert(s.last() == rest.last());
            }
            if rest.len() == 0 || rest.last() == '\n' {
                assert(join_lines(ls) =~= strip_cr(head) + seq!['\n'] + crlf_to_lf(rest));
            } else {
                assert(join_lines(ls) =~= (strip_cr(head) + seq!['\n'] + crlf_to_lf(rest)).push('\n'));
            }
        }
    }
}

} // verus!
