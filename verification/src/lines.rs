//! Lines in a text that is only ever appended to.

use vstd::prelude::*;

verus! {

/// Whether a text holds no line break.
pub open spec fn is_single_line(text: Seq<char>) -> bool {
    forall|i: int| 0 <= i < text.len() ==> #[trigger] text[i] != '\n'
}

/// A line followed by the line break that ends it.
pub open spec fn terminated(line: Seq<char>) -> Seq<char> {
    line + seq!['\n']
}

/// What a sink holds after the pieces were appended to it in order.
pub open spec fn appended(pieces: Seq<Seq<char>>) -> Seq<char>
    decreases pieces.len(),
{
    if pieces.len() == 0 {
        Seq::empty()
    } else {
        pieces[0] + appended(pieces.drop_first())
    }
}

/// What a sink holds after the lines were written to it in order, each
/// followed by a line break.
pub open spec fn written(lines: Seq<Seq<char>>) -> Seq<char> {
    appended(lines.map_values(|line: Seq<char>| terminated(line)))
}

/// The position of the first line break in a text, or the length of the text
/// if it holds none.
pub open spec fn first_break(text: Seq<char>) -> nat
    decreases text.len(),
{
    if text.len() == 0 || text[0] == '\n' {
        0
    } else {
        1 + first_break(text.drop_first())
    }
}

/// The lines of a text: the pieces that end in a line break, without it.
/// What follows the last line break is not a line.
pub open spec fn lines_of(text: Seq<char>) -> Seq<Seq<char>>
    decreases text.len(),
{
    let at = first_break(text) as int;
    if at >= text.len() {
        Seq::empty()
    } else {
        seq![text.subrange(0, at)] + lines_of(text.subrange(at + 1, text.len() as int))
    }
}

/// Two texts joined hold no line break exactly if neither holds one.
pub proof fn joined_is_single_line(front: Seq<char>, back: Seq<char>)
    ensures
        is_single_line(front + back) <==> is_single_line(front) && is_single_line(back),
{
    let whole = front + back;
    if is_single_line(front) && is_single_line(back) {
        assert forall|i: int| 0 <= i < whole.len() implies #[trigger] whole[i] != '\n' by {
            if i < front.len() {
                assert(whole[i] == front[i]);
            } else {
                assert(whole[i] == back[i - front.len()]);
            }
        }
    }
    if is_single_line(whole) {
        assert forall|i: int| 0 <= i < front.len() implies #[trigger] front[i] != '\n' by {
            assert(whole[i] == front[i]);
        }
        assert forall|i: int| 0 <= i < back.len() implies #[trigger] back[i] != '\n' by {
            assert(whole[i + front.len()] == back[i]);
        }
    }
}

/// A line that holds no line break, terminated and followed by anything,
/// breaks first at its own end.
proof fn first_break_of_terminated(line: Seq<char>, rest: Seq<char>)
    requires
        is_single_line(line),
    ensures
        first_break(terminated(line) + rest) == line.len(),
    decreases line.len(),
{
    let text = terminated(line) + rest;
    if line.len() == 0 {
        assert(text[0] == '\n');
    } else {
        assert(text[0] == line[0]);
        let tail = line.drop_first();
        assert(is_single_line(tail)) by {
            assert forall|i: int| 0 <= i < tail.len() implies #[trigger] tail[i] != '\n' by {
                assert(tail[i] == line[i + 1]);
            }
        }
        first_break_of_terminated(tail, rest);
        assert(text.drop_first() =~= terminated(tail) + rest);
    }
}

/// Writing one more line appends that line and its line break to what the
/// sink held.
pub proof fn written_grows_by_line(lines: Seq<Seq<char>>, line: Seq<char>)
    ensures
        written(lines.push(line)) == written(lines) + terminated(line),
    decreases lines.len(),
{
    let end = |l: Seq<char>| terminated(l);
    let pieces = lines.map_values(end);
    let more = lines.push(line).map_values(end);
    if lines.len() == 0 {
        assert(more.drop_first() =~= Seq::<Seq<char>>::empty());
        assert(appended(more.drop_first()) =~= Seq::<char>::empty());
        assert(more[0] == terminated(line));
        assert(appended(more) =~= terminated(line));
        assert(appended(pieces) =~= Seq::<char>::empty());
        assert(written(lines.push(line)) =~= written(lines) + terminated(line));
    } else {
        let rest = lines.drop_first();
        written_grows_by_line(rest, line);
        assert(more.drop_first() =~= rest.push(line).map_values(end));
        assert(pieces.drop_first() =~= rest.map_values(end));
        assert(more[0] == pieces[0]);
        assert(appended(more) == more[0] + appended(more.drop_first()));
        assert(appended(pieces) == pieces[0] + appended(pieces.drop_first()));
        assert(written(lines.push(line)) =~= written(lines) + terminated(line));
    }
}

/// Lines that hold no line break come back from the sink as they were
/// written: as many, in the same order, each whole.
pub proof fn written_lines_come_back(lines: Seq<Seq<char>>)
    requires
        forall|i: int| 0 <= i < lines.len() ==> is_single_line(#[trigger] lines[i]),
    ensures
        lines_of(written(lines)) == lines,
        lines_of(written(lines)).len() == lines.len(),
        lines.len() > 0 ==> written(lines).len() > 0 && written(lines).last() == '\n',
    decreases lines.len(),
{
    let end = |l: Seq<char>| terminated(l);
    let pieces = lines.map_values(end);
    if lines.len() == 0 {
        assert(written(lines) =~= Seq::<char>::empty());
        assert(lines_of(written(lines)) =~= lines);
    } else {
        let rest = lines.drop_first();
        assert forall|i: int| 0 <= i < rest.len() implies is_single_line(#[trigger] rest[i]) by {
            assert(rest[i] == lines[i + 1]);
        }
        written_lines_come_back(rest);
        assert(pieces.drop_first() =~= rest.map_values(end));
        let text = written(lines);
        let after = written(rest);
        assert(text == terminated(lines[0]) + after);
        first_break_of_terminated(lines[0], after);
        let at = lines[0].len() as int;
        assert(text.subrange(0, at) =~= lines[0]);
        assert(text.subrange(at + 1, text.len() as int) =~= after);
        assert(lines_of(text) =~= seq![lines[0]] + lines_of(after));
        assert(lines_of(text) =~= lines);
        if rest.len() == 0 {
            assert(after =~= Seq::<char>::empty());
            assert(text.last() == '\n');
        } else {
            assert(text.last() == after.last());
        }
    }
}

} // verus!
