use crate::perf_data_parser::byte_order::{find_byte, first_byte, lemma_first_byte};
use vstd::prelude::*;
use vstd::string::StringSliceAdditionalSpecFns;

verus! {

/// A run of bytes of a text: from the byte at `start` to the one before `end`.
#[derive(Clone, Copy, Debug, PartialEq, Eq)]
pub struct Span {
    pub start: usize,
    pub end: usize,
}

/// A variable of the environment, and the value that it is set to.
#[derive(Clone, Copy, Debug, PartialEq, Eq)]
pub struct Assignment {
    pub name: Span,
    pub value: Span,
}

/// A command as it is handed to the system: the variables of its
/// environment, then the program and its arguments. Each is a span of the
/// text that the command was written as.
#[derive(Clone, Debug, PartialEq, Eq)]
pub struct CommandLine {
    pub environment: Vec<Assignment>,
    pub arguments: Vec<Span>,
}

/// The byte that parts the words of a command.
pub const SPACE: u8 = 0x20;

/// The byte that parts a variable from its value.
pub const EQUALS: u8 = 0x3d;

/// The words of `bytes` from `from` on: the runs between one space and the
/// next. Two spaces in a row have an empty word between them, and so has a
/// space at either end of the text.
pub open spec fn words_from(bytes: Seq<u8>, from: int) -> Seq<Span>
    decreases bytes.len() - from,
{
    if from < 0 || from > bytes.len() {
        Seq::empty()
    } else {
        let end = first_byte(bytes, SPACE, from, bytes.len() as int);
        if end >= bytes.len() {
            seq![Span { start: from as usize, end: bytes.len() as usize }]
        } else {
            proof {
                lemma_first_byte(bytes, SPACE, from, bytes.len() as int);
            }
            seq![Span { start: from as usize, end: end as usize }] + words_from(bytes, end + 1)
        }
    }
}

/// Whether `word` sets a variable: it holds an equals sign.
pub open spec fn is_assignment(bytes: Seq<u8>, word: Span) -> bool {
    first_byte(bytes, EQUALS, word.start as int, word.end as int) < word.end
}

/// The variable that `word` sets, and its value: what stands before the
/// word's first equals sign, and what stands behind it.
pub open spec fn assignment_of(bytes: Seq<u8>, word: Span) -> Assignment {
    let equals = first_byte(bytes, EQUALS, word.start as int, word.end as int);
    Assignment {
        name: Span { start: word.start, end: equals as usize },
        value: Span { start: (equals + 1) as usize, end: word.end },
    }
}

/// Whether the command starts with its `count`-th word: the words before it
/// all set variables, and it does not.
pub open spec fn command_starts(bytes: Seq<u8>, words: Seq<Span>, count: int) -> bool {
    &&& 0 <= count <= words.len()
    &&& forall|i: int| 0 <= i < count ==> is_assignment(bytes, #[trigger] words[i])
    &&& count < words.len() ==> !is_assignment(bytes, words[count])
}

/// Splits the text of a command into the variables that it sets and the
/// command itself.
///
/// The words of the text are parted by single spaces. The words at its
/// start that hold an equals sign set variables of the environment. The
/// first word without one is the program, and every word behind it is an
/// argument, whatever it holds.
pub fn split_command(command_text: &str) -> (r: CommandLine)
    ensures
        command_starts(
            command_text.spec_bytes(),
            words_from(command_text.spec_bytes(), 0),
            r.environment.len() as int,
        ),
        r.environment.len() + r.arguments.len() == words_from(command_text.spec_bytes(), 0).len(),
        forall|i: int|
            0 <= i < r.environment.len() ==> #[trigger] r.environment[i] == assignment_of(
                command_text.spec_bytes(),
                words_from(command_text.spec_bytes(), 0)[i],
            ),
        forall|i: int|
            0 <= i < r.arguments.len() ==> #[trigger] r.arguments[i] == words_from(
                command_text.spec_bytes(),
                0,
            )[r.environment.len() + i],
{
    let data = command_text.as_bytes();
    let length = data.len();
    let ghost bytes = data@;
    let ghost words = words_from(bytes, 0);
    let mut environment: Vec<Assignment> = Vec::new();
    let mut arguments: Vec<Span> = Vec::new();
    let mut parsing_flags = true;
    let mut start: usize = 0;
    let mut finished = false;
    let ghost mut done: Seq<Span> = Seq::empty();
    while !finished
        invariant
            bytes == data@,
            length == data.len(),
            words == words_from(bytes, 0),
            start <= length,
            finished ==> words == done,
            !finished ==> words == done + words_from(bytes, start as int),
            done.len() == environment.len() + arguments.len(),
            parsing_flags ==> arguments.len() == 0,
            !parsing_flags ==> arguments.len() > 0 && !is_assignment(
                bytes,
                done[environment.len() as int],
            ),
            forall|i: int|
                0 <= i < environment.len() ==> is_assignment(bytes, #[trigger] done[i])
                    && environment[i] == assignment_of(bytes, done[i]),
            forall|i: int|
                0 <= i < arguments.len() ==> #[trigger] arguments[i] == done[environment.len() + i],
        decreases length - start + if finished { 0int } else { 1int },
    {
        let end = find_byte(data, SPACE, start, length);
        let word = Span { start, end };
        let equals = find_byte(data, EQUALS, start, end);
        if parsing_flags && equals < end {
            environment.push(
                Assignment {
                    name: Span { start, end: equals },
                    value: Span { start: equals + 1, end },
                },
            );
        } else {
            arguments.push(word);
            parsing_flags = false;
        }
        proof {
            done = done.push(word);
            if end < length {
                assert(done + words_from(bytes, end + 1) =~= done.drop_last() + (seq![word]
                    + words_from(bytes, end + 1)));
            } else {
                assert(done =~= done.drop_last() + seq![word]);
            }
        }
        if end >= length {
            finished = true;
        } else {
            start = end + 1;
        }
    }
    CommandLine { environment, arguments }
}

} // verus!
