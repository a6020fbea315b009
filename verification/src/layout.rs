//! The layout of a message: its body is cut at line breaks, the first line
//! is led by prefix and timestamp, every further line by a continuation mark.

use vstd::prelude::*;

verus! {

/// `String::push`: the character is added at the end of the string, and
/// nothing else of the string changes.
pub assume_specification[ String::push ](s: &mut String, c: char)
    ensures
        final(s)@ == old(s)@.push(c),
;

/// The number of characters before the first line break of `s`, or the
/// length of `s` where it has none.
pub open spec fn first_break(s: Seq<char>) -> int
    decreases s.len(),
{
    if s.len() == 0 || s[0] == '\n' {
        0
    } else {
        1 + first_break(s.drop_first())
    }
}

/// The lines of `s`: the text before its first line break, then the lines
/// of what follows that break. A text without a break is one line, so an
/// empty text is one empty line, and a text that ends in a break ends in
/// an empty line.
pub open spec fn split_lines(s: Seq<char>) -> Seq<Seq<char>>
    decreases s.len(),
{
    let k = first_break(s);
    if 0 <= k < s.len() {
        seq![s.take(k)] + split_lines(s.skip(k + 1))
    } else {
        seq![s]
    }
}

/// The lines put together again, with one line break between neighbours.
pub open spec fn join_lines(lines: Seq<Seq<char>>) -> Seq<char>
    decreases lines.len(),
{
    if lines.len() == 0 {
        Seq::empty()
    } else if lines.len() == 1 {
        lines[0]
    } else {
        lines[0] + seq!['\n'] + join_lines(lines.drop_first())
    }
}

/// What leads the first line of a record: prefix, a space, the timestamp,
/// a colon and a space.
pub open spec fn lead(prefix: Seq<char>, stamp: Seq<char>) -> Seq<char> {
    prefix + seq![' '] + stamp + seq![':', ' ']
}

/// What leads every further line of a record.
pub open spec fn continuation_mark() -> Seq<char> {
    seq!['[', '/', ']', '\t']
}

/// Line `i` of a record whose body has the lines `parts`.
pub open spec fn record_line(prefix: Seq<char>, stamp: Seq<char>, parts: Seq<Seq<char>>, i: int) -> Seq<char> {
    if i == 0 {
        lead(prefix, stamp) + parts[0]
    } else {
        continuation_mark() + parts[i]
    }
}

/// The lines of a record, in the order they are written.
pub open spec fn record_lines(prefix: Seq<char>, stamp: Seq<char>, body: Seq<char>) -> Seq<Seq<char>> {
    let parts = split_lines(body);
    Seq::new(parts.len(), |i: int| record_line(prefix, stamp, parts, i))
}

/// The body a record was made from: its lines without what leads them,
/// joined by line breaks.
pub open spec fn body_of(lines: Seq<Seq<char>>, lead_len: int) -> Seq<char> {
    join_lines(
        Seq::new(
            lines.len(),
            |i: int|
                if i == 0 {
                    lines[0].skip(lead_len)
                } else {
                    lines[i].skip(continuation_mark().len() as int)
                },
        ),
    )
}

/// `first_break` finds the first line break.
pub proof fn lemma_first_break(s: Seq<char>)
    ensures
        0 <= first_break(s) <= s.len(),
        forall|j: int| 0 <= j < first_break(s) ==> s[j] != '\n',
        first_break(s) < s.len() ==> s[first_break(s)] == '\n',
    decreases s.len(),
{
    if s.len() == 0 || s[0] == '\n' {
    } else {
        let rest = s.drop_first();
        lemma_first_break(rest);
        assert forall|j: int| 0 <= j < first_break(s) implies s[j] != '\n' by {
            if j > 0 {
                assert(s[j] == rest[j - 1]);
            }
        }
        if first_break(s) < s.len() {
            assert(s[first_break(s)] == rest[first_break(rest)]);
        }
    }
}

/// A position that no line break precedes, and that is the end of the text
/// or holds a line break, is the first break.
pub proof fn lemma_first_break_is(s: Seq<char>, k: int)
    requires
        0 <= k <= s.len(),
        forall|j: int| 0 <= j < k ==> s[j] != '\n',
        k < s.len() ==> s[k] == '\n',
    ensures
        first_break(s) == k,
    decreases s.len(),
{
    if s.len() == 0 || s[0] == '\n' {
    } else {
        let rest = s.drop_first();
        assert forall|j: int| 0 <= j < k - 1 implies rest[j] != '\n' by {
            assert(rest[j] == s[j + 1]);
        }
        lemma_first_break_is(rest, k - 1);
    }
}

/// A text has at least one line, and no line holds a line break.
pub proof fn lemma_split_shape(s: Seq<char>)
    ensures
        split_lines(s).len() >= 1,
        forall|i: int, j: int|
            0 <= i < split_lines(s).len() && 0 <= j < split_lines(s)[i].len()
                ==> #[trigger] split_lines(s)[i][j] != '\n',
    decreases s.len(),
{
    lemma_first_break(s);
    let k = first_break(s);
    if k < s.len() {
        let rest = s.skip(k + 1);
        lemma_split_shape(rest);
        let lines = split_lines(s);
        assert forall|i: int, j: int|
            0 <= i < lines.len() && 0 <= j < lines[i].len() implies #[trigger] lines[i][j]
            != '\n' by {
            if i == 0 {
                assert(lines[0] == s.take(k));
            } else {
                assert(lines[i] == split_lines(rest)[i - 1]);
            }
        }
    }
}

/// Cutting a text into lines loses nothing: joined again, the lines are
/// the text.
pub proof fn lemma_split_join(s: Seq<char>)
    ensures
        join_lines(split_lines(s)) == s,
    decreases s.len(),
{
    lemma_first_break(s);
    let k = first_break(s);
    if k < s.len() {
        let rest = s.skip(k + 1);
        lemma_split_join(rest);
        lemma_split_shape(rest);
        let lines = split_lines(s);
        assert(lines.drop_first() == split_lines(rest));
        assert(lines[0] == s.take(k));
        assert(s == s.take(k) + seq!['\n'] + rest);
    } else {
        assert(split_lines(s) == seq![s]);
    }
}

/// How the lines of a text change when one character is added at its end:
/// a line break opens a new, empty line; any other character joins the
/// last line.
pub proof fn lemma_split_push(s: Seq<char>, c: char)
    ensures
        split_lines(s).len() >= 1,
        c == '\n' ==> split_lines(s.push(c)) == split_lines(s).push(Seq::empty()),
        c != '\n' ==> split_lines(s.push(c)) == split_lines(s).update(
            split_lines(s).len() - 1,
            split_lines(s).last().push(c),
        ),
    decreases s.len(),
{
    lemma_first_break(s);
    lemma_split_shape(s);
    let k = first_break(s);
    let t = s.push(c);
    if k < s.len() {
        let rest = s.skip(k + 1);
        lemma_first_break_is(t, k);
        lemma_split_push(rest, c);
        assert(t.take(k) == s.take(k));
        assert(t.skip(k + 1) == rest.push(c));
        let old_tail = split_lines(rest);
        let new_tail = split_lines(rest.push(c));
        assert(split_lines(t) == seq![s.take(k)] + new_tail);
        assert(split_lines(s) == seq![s.take(k)] + old_tail);
        if c == '\n' {
            assert(seq![s.take(k)] + old_tail.push(Seq::empty()) == (seq![s.take(k)]
                + old_tail).push(Seq::empty()));
        } else {
            assert(seq![s.take(k)] + old_tail.update(
                old_tail.len() - 1,
                old_tail.last().push(c),
            ) == (seq![s.take(k)] + old_tail).update(
                old_tail.len() as int,
                old_tail.last().push(c),
            ));
        }
    } else {
        assert(split_lines(s) == seq![s]);
        if c == '\n' {
            lemma_first_break_is(t, k);
            assert(t.take(k) == s);
            assert(t.skip(k + 1) == Seq::<char>::empty());
            assert(split_lines(Seq::<char>::empty()) == seq![Seq::<char>::empty()]);
            assert(split_lines(t) == seq![s] + seq![Seq::<char>::empty()]);
            assert(seq![s] + seq![Seq::<char>::empty()] == seq![s].push(Seq::empty()));
        } else {
            lemma_first_break_is(t, k + 1);
            assert(split_lines(t) == seq![t]);
            assert(seq![t] == seq![s].update(0, s.push(c)));
        }
    }
}

/// A record holds its prefix at the start of its first line, and its body
/// word for word: taken out of the lines again, the body is what went in.
pub proof fn lemma_record_holds_message(prefix: Seq<char>, stamp: Seq<char>, body: Seq<char>)
    ensures
        record_lines(prefix, stamp, body).len() == split_lines(body).len(),
        record_lines(prefix, stamp, body).len() >= 1,
        record_lines(prefix, stamp, body)[0].take(prefix.len() as int) == prefix,
        body_of(record_lines(prefix, stamp, body), lead(prefix, stamp).len() as int) == body,
{
    lemma_split_shape(body);
    lemma_split_join(body);
    let parts = split_lines(body);
    let lines = record_lines(prefix, stamp, body);
    let head = lead(prefix, stamp);
    let mark = continuation_mark();
    assert(lines[0] == head + parts[0]);
    assert(lines[0].take(prefix.len() as int) == prefix);
    let stripped = Seq::new(
        lines.len(),
        |i: int|
            if i == 0 {
                lines[0].skip(head.len() as int)
            } else {
                lines[i].skip(mark.len() as int)
            },
    );
    assert forall|i: int| 0 <= i < parts.len() implies stripped[i] == parts[i] by {
        if i == 0 {
            assert((head + parts[0]).skip(head.len() as int) == parts[0]);
        } else {
            assert(lines[i] == mark + parts[i]);
            assert((mark + parts[i]).skip(mark.len() as int) == parts[i]);
        }
    }
    assert(stripped == parts);
}

/// What leads the first line, as a string.
fn lead_text(prefix: &str, stamp: &str) -> (out: String)
    ensures
        out@ == lead(prefix@, stamp@),
{
    let mut out = String::from_str(prefix);
    out.push(' ');
    out.append(stamp);
    out.push(':');
    out.push(' ');
    out
}

/// What leads a continuation line, as a string.
fn continuation_text() -> (out: String)
    ensures
        out@ == continuation_mark(),
{
    let mut out = String::new();
    out.push('[');
    out.push('/');
    out.push(']');
    out.push('\t');
    out
}

/// Lays out one record: the first line of `body` behind `prefix` and
/// `stamp`, every further line behind the continuation mark.
pub fn format_record(prefix: &str, stamp: &str, body: &str) -> (lines: Vec<String>)
    ensures
        lines@.len() == record_lines(prefix@, stamp@, body@).len(),
        forall|i: int|
            0 <= i < lines@.len() ==> #[trigger] lines@[i]@ == record_lines(
                prefix@,
                stamp@,
                body@,
            )[i],
{
    let mut lines: Vec<String> = Vec::new();
    let mut current = lead_text(prefix, stamp);
    proof {
        assert(body@.take(0) == Seq::<char>::empty());
        assert(split_lines(Seq::<char>::empty()) == seq![Seq::<char>::empty()]);
        assert(current@ == lead(prefix@, stamp@) + Seq::<char>::empty());
    }
    for c in it: body.chars()
        invariant
            it.seq() == body@,
            split_lines(body@.take(it.index() as int)).len() == lines@.len() + 1,
            forall|i: int|
                0 <= i < lines@.len() ==> #[trigger] lines@[i]@ == record_line(
                    prefix@,
                    stamp@,
                    split_lines(body@.take(it.index() as int)),
                    i,
                ),
            current@ == record_line(
                prefix@,
                stamp@,
                split_lines(body@.take(it.index() as int)),
                lines@.len() as int,
            ),
    {
        let ghost seen = body@.take(it.index() as int);
        let ghost parts = split_lines(seen);
        let ghost count = lines@.len() as int;
        proof {
            lemma_split_push(seen, c);
            assert(body@.take(it.index() + 1) == seen.push(c));
        }
        if c == '\n' {
            lines.push(current);
            current = continuation_text();
            proof {
                let grown = parts.push(Seq::empty());
                assert(current@ == continuation_mark() + Seq::<char>::empty());
                assert forall|i: int| 0 <= i < lines@.len() implies #[trigger] lines@[i]@
                    == record_line(prefix@, stamp@, grown, i) by {
                    assert(grown[i] == parts[i]);
                }
            }
        } else {
            current.push(c);
            proof {
                let grown = parts.update(count, parts[count].push(c));
                assert(lead(prefix@, stamp@) + parts[count].push(c) == (lead(prefix@, stamp@)
                    + parts[count]).push(c));
                assert(continuation_mark() + parts[count].push(c) == (continuation_mark()
                    + parts[count]).push(c));
                assert forall|i: int| 0 <= i < lines@.len() implies #[trigger] lines@[i]@
                    == record_line(prefix@, stamp@, grown, i) by {
                    assert(grown[i] == parts[i]);
                }
            }
        }
    }
    proof {
        assert(body@.take(body@.len() as int) == body@);
    }
    lines.push(current);
    lines
}

} // verus!
