//! The companion settings file: a template with its colour line replaced.

use crate::text::chars_of;
use vstd::prelude::*;
use vstd::string::StringExecFns;

verus! {

/// The number of characters in front of the first line feed of the text;
/// the length of the text where it holds none.
pub open spec fn first_newline(text: Seq<char>) -> int
    decreases text.len(),
{
    if text.len() == 0 || text[0] == '\n' {
        0
    } else {
        1 + first_newline(text.drop_first())
    }
}

/// A line without the carriage return that it may end with.
pub open spec fn without_carriage_return(line: Seq<char>) -> Seq<char> {
    if line.len() > 0 && line.last() == '\r' {
        line.drop_last()
    } else {
        line
    }
}

/// The lines of a text. A line ends with a line feed, or with a carriage
/// return and a line feed, neither of which belongs to the line; the last
/// line may end with the text instead, and then keeps a carriage return at
/// its end. A text that ends with a line ending has no empty line after it.
pub open spec fn lines_of(text: Seq<char>) -> Seq<Seq<char>>
    decreases text.len(),
    via lines_of_terminates
{
    if text.len() == 0 {
        Seq::empty()
    } else {
        let n = first_newline(text);
        if n == text.len() {
            seq![text]
        } else {
            seq![without_carriage_return(text.take(n))] + lines_of(text.skip(n + 1))
        }
    }
}

#[via_fn]
proof fn lines_of_terminates(text: Seq<char>) {
    lemma_first_newline_bounds(text);
}

proof fn lemma_first_newline_bounds(text: Seq<char>)
    ensures
        0 <= first_newline(text) <= text.len(),
    decreases text.len(),
{
    if text.len() > 0 && text[0] != '\n' {
        lemma_first_newline_bounds(text.drop_first());
    }
}

/// The place of the first line feed is the one place that holds a line
/// feed, or ends the text, with no line feed in front of it.
proof fn lemma_first_newline_is(text: Seq<char>, n: int)
    requires
        0 <= n <= text.len(),
        forall|k: int| 0 <= k < n ==> text[k] != '\n',
        n == text.len() || text[n] == '\n',
    ensures
        first_newline(text) == n,
    decreases text.len(),
{
    if text.len() == 0 || text[0] == '\n' {
    } else {
        assert forall|k: int| 0 <= k < n - 1 implies text.drop_first()[k] != '\n' by {
            assert(text.drop_first()[k] == text[k + 1]);
        }
        lemma_first_newline_is(text.drop_first(), n - 1);
    }
}

/// Lines put together again, with a line feed between each two.
pub open spec fn join_lines(lines: Seq<Seq<char>>) -> Seq<char>
    decreases lines.len(),
{
    if lines.len() == 0 {
        Seq::empty()
    } else if lines.len() == 1 {
        lines[0]
    } else {
        join_lines(lines.drop_last()) + seq!['\n'] + lines.last()
    }
}

/// The line begins with the prefix.
pub open spec fn starts_with(line: Seq<char>, prefix: Seq<char>) -> bool {
    prefix.len() <= line.len() && line.take(prefix.len() as int) == prefix
}

/// The settings key whose line is replaced.
pub open spec fn color_key() -> Seq<char> {
    "VTColor"@
}

/// The colour line: white text on the given background.
pub open spec fn color_line(bg_color: Seq<char>) -> Seq<char> {
    "VTColor=255,255,255,"@ + bg_color
}

/// A line of the settings file: the colour line in place of a template line
/// that begins with the colour key, any other template line as it is.
pub open spec fn settings_line(line: Seq<char>, bg_color: Seq<char>) -> Seq<char> {
    if starts_with(line, color_key()) {
        color_line(bg_color)
    } else {
        line
    }
}

/// The text of the settings file made from a template.
pub open spec fn settings_text(template: Seq<char>, bg_color: Seq<char>) -> Seq<char> {
    join_lines(lines_of(template).map_values(|line: Seq<char>| settings_line(line, bg_color)))
}

/// The place of the first line feed at or after `start`.
fn find_newline(chars: &Vec<char>, start: usize) -> (end: usize)
    requires
        start <= chars.len(),
    ensures
        start <= end <= chars.len(),
        end - start == first_newline(chars@.skip(start as int)),
{
    let mut end = start;
    while end < chars.len() && chars[end] != '\n'
        invariant
            start <= end <= chars.len(),
            forall|k: int| start <= k < end ==> chars@[k] != '\n',
        decreases chars.len() - end,
    {
        end += 1;
    }
    proof {
        lemma_first_newline_is(chars@.skip(start as int), end - start);
    }
    end
}

/// Whether the line `chars[start..end]` begins with the colour key.
fn begins_with_color_key(chars: &Vec<char>, start: usize, end: usize) -> (found: bool)
    requires
        start <= end <= chars.len(),
    ensures
        found == starts_with(chars@.subrange(start as int, end as int), color_key()),
{
    proof {
        reveal_strlit("VTColor");
    }
    let ghost line = chars@.subrange(start as int, end as int);
    if end - start < 7 {
        return false;
    }
    let found = chars[start] == 'V' && chars[start + 1] == 'T' && chars[start + 2] == 'C'
        && chars[start + 3] == 'o' && chars[start + 4] == 'l' && chars[start + 5] == 'o'
        && chars[start + 6] == 'r';
    proof {
        let key = color_key();
        assert(key.len() == 7);
        if found {
            assert(line.take(7) =~= key);
        } else {
            if line.take(7) == key {
                assert(line.take(7)[0] == key[0]);
                assert(line.take(7)[1] == key[1]);
                assert(line.take(7)[2] == key[2]);
                assert(line.take(7)[3] == key[3]);
                assert(line.take(7)[4] == key[4]);
                assert(line.take(7)[5] == key[5]);
                assert(line.take(7)[6] == key[6]);
            }
        }
    }
    found
}

/// Makes the text of the settings file from the template: every template
/// line that begins with `VTColor` becomes `VTColor=255,255,255,` followed by
/// the background colour; the lines are joined with single line feeds.
pub fn render_settings(template: &str, bg_color: &str) -> (settings: String)
    ensures
        settings@ == settings_text(template@, bg_color@),
{
    let chars = chars_of(template);
    let len = chars.len();
    let mut out = String::new();
    let mut start: usize = 0;
    let mut first = true;
    let ghost render = |line: Seq<char>| settings_line(line, bg_color@);
    let ghost mut done: Seq<Seq<char>> = Seq::empty();
    proof {
        assert(chars@.skip(0) =~= chars@);
        assert(done + lines_of(chars@.skip(0)).map_values(render) =~= lines_of(
            chars@,
        ).map_values(render));
    }
    while start < len
        invariant
            len == chars.len(),
            start <= len,
            render == |line: Seq<char>| settings_line(line, bg_color@),
            out@ == join_lines(done),
            first == (done.len() == 0),
            lines_of(chars@).map_values(render) == done + lines_of(
                chars@.skip(start as int),
            ).map_values(render),
        decreases len - start,
    {
        let end = find_newline(&chars, start);
        let ghost rest = chars@.skip(start as int);
        let mut line_end = end;
        if end < len && line_end > start && chars[line_end - 1] == '\r' {
            line_end -= 1;
        }
        let next = if end < len {
            end + 1
        } else {
            end
        };
        let ghost line = chars@.subrange(start as int, line_end as int);
        proof {
            assert(rest.len() > 0);
            assert(rest.take(end - start) =~= chars@.subrange(start as int, end as int));
            if end < len {
                assert(rest.skip(end - start + 1) =~= chars@.skip(next as int));
                assert(without_carriage_return(rest.take(end - start)) =~= line);
                assert(lines_of(rest) == seq![line] + lines_of(chars@.skip(next as int)));
            } else {
                assert(line =~= rest);
                assert(lines_of(rest) == seq![line]);
                assert(lines_of(chars@.skip(next as int)) =~= Seq::<Seq<char>>::empty());
            }
            assert(lines_of(rest).map_values(render) =~= seq![render(line)] + lines_of(
                chars@.skip(next as int),
            ).map_values(render));
        }
        if !first {
            out.push('\n');
        }
        if begins_with_color_key(&chars, start, line_end) {
            out.append("VTColor=255,255,255,");
            out.append(bg_color);
        } else {
            let ghost base = out@;
            let mut k = start;
            while k < line_end
                invariant
                    start <= k <= line_end <= chars.len(),
                    out@ == base + chars@.subrange(start as int, k as int),
                decreases line_end - k,
            {
                out.push(chars[k]);
                k += 1;
                assert(chars@.subrange(start as int, k as int) =~= chars@.subrange(
                    start as int,
                    k - 1,
                ).push(chars@[k - 1]));
            }
        }
        proof {
            let piece = render(line);
            let grown = done.push(piece);
            assert(grown.drop_last() =~= done);
            assert(grown.last() == piece);
            if first {
                assert(out@ =~= piece);
            } else {
                assert(out@ =~= join_lines(done) + seq!['\n'] + piece);
            }
            assert(out@ == join_lines(grown));
            assert(grown + lines_of(chars@.skip(next as int)).map_values(render) =~= done
                + lines_of(rest).map_values(render));
            done = grown;
        }
        first = false;
        start = next;
    }
    proof {
        assert(lines_of(chars@.skip(start as int)) =~= Seq::<Seq<char>>::empty());
        assert(lines_of(chars@).map_values(render) =~= done);
    }
    out
}

/// The text holds no line feed.
pub open spec fn newline_free(text: Seq<char>) -> bool {
    forall|i: int| 0 <= i < text.len() ==> text[i] != '\n'
}

/// A text that is one line as it stands: it holds no line feed and does not
/// end with a carriage return.
pub open spec fn is_plain_line(line: Seq<char>) -> bool {
    newline_free(line) && !(line.len() > 0 && line.last() == '\r')
}

/// Two texts without a line feed make one without a line feed.
pub proof fn lemma_newline_free_concat(a: Seq<char>, b: Seq<char>)
    requires
        newline_free(a),
        newline_free(b),
    ensures
        newline_free(a + b),
{
    assert forall|i: int| 0 <= i < (a + b).len() implies (a + b)[i] != '\n' by {
        if i < a.len() {
            assert((a + b)[i] == a[i]);
        } else {
            assert((a + b)[i] == b[i - a.len()]);
        }
    }
}

/// The first line of a text is what stands in front of its first line
/// feed, where that is a plain line; the other lines are those of the rest.
pub proof fn lemma_lines_of_first(line: Seq<char>, rest: Seq<char>)
    requires
        is_plain_line(line),
    ensures
        lines_of(line + seq!['\n'] + rest) == seq![line] + lines_of(rest),
{
    let text = line + seq!['\n'] + rest;
    lemma_first_newline_is(text, line.len() as int);
    assert(text.take(line.len() as int) =~= line);
    assert(text.skip(line.len() as int + 1) =~= rest);
}

/// Lines joined: the first line, and after a line feed the others joined.
pub proof fn lemma_join_lines_front(lines: Seq<Seq<char>>)
    requires
        lines.len() >= 2,
    ensures
        join_lines(lines) == lines[0] + seq!['\n'] + join_lines(lines.drop_first()),
    decreases lines.len(),
{
    if lines.len() == 2 {
        assert(lines.drop_last().len() == 1);
        assert(lines.drop_first().len() == 1);
        assert(join_lines(lines.drop_last()) == lines[0]);
        assert(join_lines(lines.drop_first()) == lines[1]);
    } else {
        lemma_join_lines_front(lines.drop_last());
        assert(lines.drop_last().drop_first() =~= lines.drop_first().drop_last());
        assert(lines.drop_last()[0] == lines[0]);
        assert(lines.drop_first().last() == lines.last());
        assert(join_lines(lines) =~= lines[0] + seq!['\n'] + join_lines(lines.drop_first()));
    }
}

/// Splitting undoes joining: the lines of plain lines that were joined and
/// closed with a line feed are those lines.
pub proof fn lemma_lines_of_joined(lines: Seq<Seq<char>>)
    requires
        lines.len() >= 1,
        forall|k: int| 0 <= k < lines.len() ==> is_plain_line(#[trigger] lines[k]),
    ensures
        lines_of(join_lines(lines) + seq!['\n']) == lines,
    decreases lines.len(),
{
    let text = join_lines(lines) + seq!['\n'];
    let first = lines[0];
    assert(is_plain_line(first));
    if lines.len() == 1 {
        assert(text =~= first + seq!['\n']);
        lemma_first_newline_is(text, first.len() as int);
        assert(text.take(first.len() as int) =~= first);
        assert(text.skip(first.len() as int + 1) =~= Seq::<char>::empty());
        assert(lines_of(text.skip(first.len() as int + 1)) =~= Seq::<Seq<char>>::empty());
        assert(lines_of(text) =~= lines);
    } else {
        let rest = lines.drop_first();
        lemma_join_lines_front(lines);
        let tail = join_lines(rest) + seq!['\n'];
        assert(text =~= first + seq!['\n'] + tail);
        lemma_first_newline_is(text, first.len() as int);
        assert(text.take(first.len() as int) =~= first);
        assert(text.skip(first.len() as int + 1) =~= tail);
        assert forall|k: int| 0 <= k < rest.len() implies is_plain_line(#[trigger] rest[k]) by {
            assert(rest[k] == lines[k + 1]);
        }
        lemma_lines_of_joined(rest);
        assert(lines_of(text) =~= lines);
    }
}

} // verus!
