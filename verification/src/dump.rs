//! The text that `env` prints: one `NAME=value` line for each variable.

use crate::exe::EnvModifications;
use crate::ordered_map::bound_in_order;
use crate::text::{from_utf8, utf8_failure};
use vstd::prelude::*;
use vstd::string::StringExecFns;
use vstd::utf8::{decode_utf8, valid_utf8};

verus! {

/// The byte that ends a line.
pub const NEWLINE: u8 = 0x0a;

/// The byte that may stand before the end of a line, and is then no part of
/// the line.
pub const CARRIAGE_RETURN: u8 = 0x0d;

/// The byte that parts a name from its value.
pub const EQUALS: u8 = 0x3d;

/// The place of the first `byte` in `bytes`, or the length of `bytes` where
/// there is none.
pub open spec fn first_index(bytes: Seq<u8>, byte: u8) -> int
    decreases bytes.len(),
{
    if bytes.len() == 0 || bytes[0] == byte {
        0
    } else {
        1 + first_index(bytes.drop_first(), byte)
    }
}

/// The first line of `bytes`: what stands before the first newline, or all
/// of it where there is none. A carriage return just before the newline is
/// left out.
pub open spec fn first_line(bytes: Seq<u8>) -> Seq<u8> {
    let end = first_index(bytes, NEWLINE);
    if 0 < end < bytes.len() && bytes[end - 1] == CARRIAGE_RETURN {
        bytes.subrange(0, end - 1)
    } else {
        bytes.subrange(0, end)
    }
}

/// What follows the first line of `bytes` and its newline.
pub open spec fn after_first_line(bytes: Seq<u8>) -> Seq<u8> {
    let end = first_index(bytes, NEWLINE);
    if end < bytes.len() {
        bytes.subrange(end + 1, bytes.len() as int)
    } else {
        Seq::empty()
    }
}

/// The lines of `bytes`. Each newline ends a line, and what follows the last
/// newline is a line if it is not empty.
pub open spec fn lines_of(bytes: Seq<u8>) -> Seq<Seq<u8>>
    decreases bytes.len(),
{
    if bytes.len() == 0 {
        Seq::empty()
    } else {
        proof {
            lemma_first_index_is_first(bytes, NEWLINE);
        }
        seq![first_line(bytes)] + lines_of(after_first_line(bytes))
    }
}

/// The first line that is not UTF-8, if there is one.
pub open spec fn first_undecodable(lines: Seq<Seq<u8>>) -> Option<Seq<u8>>
    decreases lines.len(),
{
    if lines.len() == 0 {
        None
    } else if !valid_utf8(lines[0]) {
        Some(lines[0])
    } else {
        first_undecodable(lines.drop_first())
    }
}

/// The variable that a line sets: the name is what stands before the first
/// `=` and the value what follows it. A line without `=` sets none.
pub open spec fn binding_in(line: Seq<u8>) -> Option<(Seq<char>, Seq<char>)> {
    let at = first_index(line, EQUALS);
    if at < line.len() {
        Some(
            (
                decode_utf8(line.subrange(0, at)),
                decode_utf8(line.subrange(at + 1, line.len() as int)),
            ),
        )
    } else {
        None
    }
}

/// The variables that the lines set, in the order of the lines.
pub open spec fn bindings_in(lines: Seq<Seq<u8>>) -> Seq<(Seq<char>, Seq<char>)>
    decreases lines.len(),
{
    if lines.len() == 0 {
        Seq::empty()
    } else {
        match binding_in(lines.last()) {
            Some(binding) => bindings_in(lines.drop_last()).push(binding),
            None => bindings_in(lines.drop_last()),
        }
    }
}

/// What makes a place the first place of a byte.
pub proof fn lemma_first_index(bytes: Seq<u8>, byte: u8, at: int)
    requires
        0 <= at <= bytes.len(),
        forall|before: int| 0 <= before < at ==> bytes[before] != byte,
        at < bytes.len() ==> bytes[at] == byte,
    ensures
        first_index(bytes, byte) == at,
    decreases at,
{
    if at > 0 {
        lemma_first_index(bytes.drop_first(), byte, at - 1);
    }
}

/// The first place of a byte lies within the bytes or at their end, holds
/// the byte where it lies within, and nothing before it holds the byte.
pub proof fn lemma_first_index_is_first(bytes: Seq<u8>, byte: u8)
    ensures
        0 <= first_index(bytes, byte) <= bytes.len(),
        first_index(bytes, byte) < bytes.len() ==> bytes[first_index(bytes, byte)] == byte,
        forall|before: int| 0 <= before < first_index(bytes, byte) ==> bytes[before] != byte,
    decreases bytes.len(),
{
    if bytes.len() == 0 || bytes[0] == byte {
    } else {
        let rest = bytes.drop_first();
        lemma_first_index_is_first(rest, byte);
        assert forall|before: int| 0 <= before < first_index(bytes, byte) implies bytes[before]
            != byte by {
            if before > 0 {
                assert(rest[before - 1] == bytes[before]);
            }
        }
    }
}

/// Finds the first `byte` at or after `from`.
fn find(bytes: &[u8], from: usize, byte: u8) -> (at: usize)
    requires
        from <= bytes@.len(),
    ensures
        from <= at <= bytes@.len(),
        at < bytes@.len() ==> bytes@[at as int] == byte,
        at - from == first_index(bytes@.subrange(from as int, bytes@.len() as int), byte),
{
    let mut at = from;
    while at < bytes.len() && bytes[at] != byte
        invariant
            from <= at <= bytes@.len(),
            forall|before: int| from <= before < at ==> bytes@[before] != byte,
        decreases bytes@.len() - at,
    {
        at += 1;
    }
    proof {
        lemma_first_index(bytes@.subrange(from as int, bytes@.len() as int), byte, at - from);
    }
    at
}

/// Cuts the text of a line in two at its first `=`, if it has one.
fn split_binding<'a>(line: &'a [u8], text: &'a str) -> (binding: Option<(&'a str, &'a str)>)
    requires
        valid_utf8(line@),
        text@ == decode_utf8(line@),
    ensures
        binding is Some <==> binding_in(line@) is Some,
        binding matches Some((name, value)) ==> binding_in(line@) == Some((name@, value@)),
{
    let at = find(line, 0, EQUALS);
    proof {
        assert(line@.subrange(0, line@.len() as int) =~= line@);
    }
    if at < line.len() {
        proof {
            vstd::utf8::decode_utf8_encode_utf8(line@);
            vstd::utf8::is_char_boundary_iff_not_is_continuation_byte(line@, at as int);
            vstd::utf8::valid_utf8_split(line@, at as int);
        }
        let (name, rest) = text.split_at(at);
        proof {
            let tail = line@.subrange(at as int, line@.len() as int);
            assert(vstd::utf8::is_char_boundary(tail, 1)) by {
                reveal_with_fuel(vstd::utf8::is_char_boundary, 2);
                reveal_with_fuel(vstd::utf8::valid_utf8, 2);
            }
        }
        let (_, value) = rest.split_at(1);
        proof {
            let tail = line@.subrange(at as int, line@.len() as int);
            assert(tail.subrange(1, tail.len() as int) =~= line@.subrange(
                at as int + 1,
                line@.len() as int,
            ));
            vstd::utf8::encode_utf8_decode_utf8(name@);
            vstd::utf8::encode_utf8_decode_utf8(value@);
        }
        Some((name, value))
    } else {
        None
    }
}

/// Reads the variables that the lines of `stdout` set. A name that is set
/// more than once keeps its first place and its last value. Fails at the
/// first line that is not UTF-8, with the decoding error of that line.
pub fn parse(stdout: &[u8]) -> (parsed: Result<EnvModifications, core::str::Utf8Error>)
    ensures
        first_undecodable(lines_of(stdout@)) is None ==> (parsed matches Ok(env) && env.wf()
            && env@ == bound_in_order(bindings_in(lines_of(stdout@)))),
        first_undecodable(lines_of(stdout@)) matches Some(line) ==> parsed == Err::<
            EnvModifications,
            core::str::Utf8Error,
        >(utf8_failure(line)),
{
    let mut env = EnvModifications::default();
    let mut start: usize = 0;
    let ghost mut done: Seq<Seq<u8>> = Seq::empty();
    proof {
        assert(stdout@.subrange(0, stdout@.len() as int) =~= stdout@);
    }
    while start < stdout.len()
        invariant
            start <= stdout@.len(),
            lines_of(stdout@) == done + lines_of(
                stdout@.subrange(start as int, stdout@.len() as int),
            ),
            first_undecodable(lines_of(stdout@)) == first_undecodable(
                lines_of(stdout@.subrange(start as int, stdout@.len() as int)),
            ),
            env@ == bound_in_order(bindings_in(done)),
            env.wf(),
        decreases stdout@.len() - start,
    {
        let ghost rest = stdout@.subrange(start as int, stdout@.len() as int);
        let end = find(stdout, start, NEWLINE);
        let stop = if end < stdout.len() && start < end && stdout[end - 1] == CARRIAGE_RETURN {
            end - 1
        } else {
            end
        };
        let next = if end < stdout.len() {
            end + 1
        } else {
            end
        };
        let line = &stdout[start..stop];
        proof {
            assert(line@ =~= first_line(rest));
            assert(stdout@.subrange(next as int, stdout@.len() as int) =~= after_first_line(rest));
            let later = lines_of(after_first_line(rest));
            assert((seq![line@] + later).drop_first() =~= later);
            assert(done.push(line@).drop_last() =~= done);
        }
        match from_utf8(line) {
            Ok(text) => {
                match split_binding(line, text) {
                    Some((name, value)) => {
                        env.set(String::from_str(name), String::from_str(value));
                    },
                    None => {},
                }
            },
            Err(error) => {
                return Err(error);
            },
        }
        proof {
            if let Some(binding) = binding_in(line@) {
                assert(bindings_in(done).push(binding).drop_last() =~= bindings_in(done));
            }
            done = done.push(line@);
        }
        start = next;
    }
    Ok(env)
}

} // verus!
