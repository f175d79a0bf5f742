//! Lines of text as bytes: writing a line, counting lines.

use vstd::prelude::*;
use vstd::utf8::encode_utf8;

verus! {

/// The byte that ends a line.
pub const NEWLINE: u8 = 0x0a;

/// Appends a message and the end of the line to the bytes written so far.
/// The message is written in UTF-8.
pub fn log(writer: &mut Vec<u8>, msg: &str)
    ensures
        final(writer)@ == old(writer)@ + encode_utf8(msg@) + seq![NEWLINE],
{
    let bytes = msg.as_bytes();
    let mut i: usize = 0;
    while i < bytes.len()
        invariant
            bytes@ == encode_utf8(msg@),
            i <= bytes@.len(),
            writer@ == old(writer)@ + bytes@.take(i as int),
        decreases bytes@.len() - i,
    {
        writer.push(bytes[i]);
        assert(bytes@.take(i + 1) =~= bytes@.take(i as int).push(bytes@[i as int]));
        i += 1;
    }
    assert(bytes@.take(i as int) =~= bytes@);
    writer.push(NEWLINE);
}

/// The number of line ends among the bytes.
pub open spec fn newlines(data: Seq<u8>) -> nat
    decreases data.len(),
{
    if data.len() == 0 {
        0
    } else {
        newlines(data.drop_last()) + if data.last() == NEWLINE {
            1nat
        } else {
            0nat
        }
    }
}

/// The number of lines that the bytes hold: one for each line end, and one
/// more for what follows the last line end, if anything does.
pub open spec fn line_count(data: Seq<u8>) -> nat {
    newlines(data) + if data.len() > 0 && data.last() != NEWLINE {
        1nat
    } else {
        0nat
    }
}

/// There are no more line ends than bytes.
pub proof fn lemma_newlines_bounded(data: Seq<u8>)
    ensures
        newlines(data) <= data.len(),
    decreases data.len(),
{
    if data.len() > 0 {
        lemma_newlines_bounded(data.drop_last());
    }
}

/// Counts the lines that the bytes hold.
pub fn count_lines(data: &[u8]) -> (count: usize)
    ensures
        count == line_count(data@),
{
    let mut count: usize = 0;
    let mut i: usize = 0;
    while i < data.len()
        invariant
            i <= data@.len(),
            count == newlines(data@.take(i as int)),
        decreases data@.len() - i,
    {
        proof {
            lemma_newlines_bounded(data@.take(i as int));
            assert(data@.take(i + 1).drop_last() =~= data@.take(i as int));
        }
        if data[i] == NEWLINE {
            count += 1;
        }
        i += 1;
    }
    proof {
        assert(data@.take(i as int) =~= data@);
        lemma_newlines_bounded(data@);
    }
    if data.len() > 0 && data[data.len() - 1] != NEWLINE {
        proof {
            lemma_newlines_bounded(data@.drop_last());
        }
        count += 1;
    }
    count
}

} // verus!
