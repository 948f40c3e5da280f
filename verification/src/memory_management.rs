//! A growable buffer of integers and the line that shows what it holds.

use vstd::prelude::*;
use crate::decimal::{decimal, decimal_string};

verus! {

/// The items in decimal, in order, each but the first preceded by ", ".
pub open spec fn entries(items: Seq<i32>) -> Seq<char>
    decreases items.len(),
{
    if items.len() == 0 {
        Seq::empty()
    } else {
        let separator = if items.len() == 1 {
            Seq::empty()
        } else {
            ", "@
        };
        entries(items.drop_last()) + separator + decimal(items.last() as int)
    }
}

/// The line that shows a buffer: "Buffer: ", then the entries in square
/// brackets.
pub open spec fn buffer_line(items: Seq<i32>) -> Seq<char> {
    "Buffer: "@ + "["@ + entries(items) + "]"@
}

/// A buffer with room reserved for ten items, holding the single item 1. The
/// reservation bounds nothing: the buffer grows when more is pushed.
pub fn filled_buffer() -> (buffer: Vec<i32>)
    ensures
        buffer@ == seq![1i32],
{
    let mut buffer = Vec::with_capacity(10);
    buffer.push(1);
    buffer
}

/// Renders a buffer as the line that shows its items, first to last.
pub fn render(buffer: &Vec<i32>) -> (line: String)
    ensures
        line@ == buffer_line(buffer@),
{
    let mut line = "Buffer: ".to_string();
    line.append("[");
    let mut index: usize = 0;
    while index < buffer.len()
        invariant
            index <= buffer.len(),
            line@ == "Buffer: "@ + "["@ + entries(buffer@.take(index as int)),
        decreases buffer.len() - index,
    {
        if index > 0 {
            line.append(", ");
        }
        line.append(decimal_string(buffer[index] as i64).as_str());
        proof {
            let shown = buffer@.take(index + 1);
            assert(shown.drop_last() == buffer@.take(index as int));
            assert(shown.last() == buffer[index as int]);
        }
        index += 1;
    }
    assert(buffer@.take(index as int) == buffer@);
    line.append("]");
    line
}

/// The one line this demonstration writes: "Buffer: [1]". The buffer lives
/// only for the duration of the call.
pub fn output() -> (line: String)
    ensures
        line@ == "Buffer: [1]"@,
{
    let buffer = filled_buffer();
    proof {
        reveal_strlit("Buffer: ");
        reveal_strlit("[");
        reveal_strlit("]");
        reveal_strlit("Buffer: [1]");
        assert(buffer@.drop_last() == Seq::<i32>::empty());
        assert(entries(buffer@) == seq!['1']) by {
            reveal_with_fuel(entries, 2);
        }
        assert(buffer_line(buffer@) == "Buffer: [1]"@);
    }
    render(&buffer)
}

} // verus!
