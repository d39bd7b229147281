//! The table of class names, one per class index.

use vstd::prelude::*;

use crate::error::PipelineError;
use crate::scan::{first_position, lemma_first_position_is};

verus! {

/// `String::push` appends one character to the end of the text.
pub assume_specification[ String::push ](text: &mut String, c: char)
    ensures
        final(text)@ == old(text)@.push(c),
;

/// Position of the first line feed in `text`, or the length of `text` where it
/// holds none.
pub open spec fn first_line_feed(text: Seq<char>) -> int {
    first_position(text, |c: char| c == '\n')
}

/// `line` without the carriage return at its end, if it has one.
pub open spec fn without_carriage_return(line: Seq<char>) -> Seq<char> {
    if line.len() > 0 && line.last() == '\r' {
        line.drop_last()
    } else {
        line
    }
}

/// The lines of `text`. A line ends at a line feed, or at a carriage return
/// directly followed by one; neither belongs to the line. Text after the last
/// line feed is a line of its own unless it is empty, so a final line feed adds
/// no empty line, while empty lines elsewhere are kept.
pub open spec fn lines_of(text: Seq<char>) -> Seq<Seq<char>>
    decreases text.len(),
{
    let end = first_line_feed(text);
    if text.len() == 0 {
        Seq::empty()
    } else if 0 <= end < text.len() {
        seq![without_carriage_return(text.take(end))] + lines_of(text.skip(end + 1))
    } else {
        seq![text]
    }
}

/// An ordered list of class names: the name at position `i` belongs to class `i`.
#[derive(Debug)]
pub struct LabelTable {
    names: Vec<String>,
}

impl View for LabelTable {
    type V = Seq<Seq<char>>;

    closed spec fn view(&self) -> Seq<Seq<char>> {
        Seq::new(self.names.len() as nat, |i: int| self.names[i]@)
    }
}

impl LabelTable {
    /// The table that holds `names` in the given order.
    pub fn from_names(names: Vec<String>) -> (out: LabelTable)
        ensures
            out@.len() == names.len(),
            forall|i: int| 0 <= i < names.len() ==> out@[i] == names[i]@,
    {
        LabelTable { names }
    }

    /// Reads a table from text that holds one name per line.
    pub fn parse(text: &str) -> (out: LabelTable)
        ensures
            out@ == lines_of(text@),
    {
        let mut names: Vec<String> = Vec::new();
        let mut line: String = String::new();
        // A carriage return is held back until the next character shows
        // whether it ends the line.
        let mut held: bool = false;
        let ghost all = text@;
        let ghost mut start: int = 0;
        let ghost mut done: Seq<Seq<char>> = Seq::empty();
        proof {
            assert(all.skip(0) =~= all);
            assert(all.subrange(0, 0) =~= line@);
        }
        for c in it: text.chars()
            invariant
                it.seq() == all,
                all == text@,
                0 <= start <= it.index() <= all.len(),
                done.len() == names.len(),
                forall|j: int| 0 <= j < done.len() ==> done[j] == names[j]@,
                lines_of(all) == done + lines_of(all.skip(start)),
                forall|j: int| start <= j < it.index() ==> all[j] != '\n',
                all.subrange(start, it.index() as int) == (if held {
                    line@.push('\r')
                } else {
                    line@
                }),
                !held ==> line@.len() == 0 || line@.last() != '\r',
        {
            let ghost i = it.index() as int;
            let ghost seen = all.subrange(start, i);
            assert(all.subrange(start, i + 1) =~= seen.push(c));
            if c == '\n' {
                proof {
                    let rest = all.skip(start);
                    assert(rest.len() == all.len() - start);
                    assert forall|j: int| 0 <= j < i - start implies rest[j] != '\n' by {
                        assert(rest[j] == all[start + j]);
                    }
                    assert(rest[i - start] == all[i]);
                    lemma_first_position_is(rest, |c: char| c == '\n', i - start);
                    assert(rest.take(i - start) =~= seen);
                    assert(rest.skip(i - start + 1) =~= all.skip(i + 1));
                    if held {
                        assert(seen.drop_last() =~= line@);
                    }
                    assert(without_carriage_return(seen) == line@);
                    assert(lines_of(rest) == seq![line@] + lines_of(all.skip(i + 1)));
                    assert(done + (seq![line@] + lines_of(all.skip(i + 1))) =~= done.push(line@)
                        + lines_of(all.skip(i + 1)));
                    done = done.push(line@);
                    start = i + 1;
                    assert(all.subrange(start, i + 1) =~= Seq::<char>::empty());
                }
                names.push(line);
                line = String::new();
                held = false;
            } else {
                if held {
                    line.push('\r');
                }
                if c == '\r' {
                    held = true;
                } else {
                    line.push(c);
                    held = false;
                }
            }
        }
        proof {
            let rest = all.skip(start);
            assert(rest =~= all.subrange(start, all.len() as int));
            if rest.len() > 0 {
                assert forall|j: int| 0 <= j < rest.len() implies rest[j] != '\n' by {
                    assert(rest[j] == all[start + j]);
                }
                lemma_first_position_is(rest, |c: char| c == '\n', rest.len() as int);
                assert(lines_of(rest) == seq![rest]);
            } else {
                assert(lines_of(rest) =~= Seq::<Seq<char>>::empty());
            }
        }
        if held {
            line.push('\r');
        }
        if !line.as_str().is_empty() {
            proof {
                assert(done + seq![line@] =~= done.push(line@));
            }
            names.push(line);
        } else {
            proof {
                assert(done + Seq::<Seq<char>>::empty() =~= done);
            }
        }
        let out = LabelTable { names };
        assert(out@ =~= lines_of(all));
        out
    }

    /// The number of classes that have a name.
    pub fn count(&self) -> (out: usize)
        ensures
            out == self@.len(),
    {
        self.names.len()
    }

    /// The name of class `index`. Fails with `Lookup` exactly when the table
    /// has no entry for that class.
    pub fn get(&self, index: usize) -> (out: Result<&str, PipelineError>)
        ensures
            match out {
                Ok(name) => index < self@.len() && name@ == self@[index as int],
                Err(e) => index >= self@.len() && e == (PipelineError::Lookup { index }),
            },
    {
        if index < self.names.len() {
            Ok(self.names[index].as_str())
        } else {
            Err(PipelineError::Lookup { index })
        }
    }
}

} // verus!
