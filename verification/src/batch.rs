use vstd::prelude::*;
use vstd::string::*;

use crate::text::push_char;

verus! {

/// One message pulled from the channel-history feed: the author's name and
/// the raw content.
#[derive(Debug, Clone, PartialEq, Hash)]
pub struct BatchItem {
    pub author_name: String,
    pub raw_text: String,
}

/// The most characters an output chunk may accumulate before it is flushed.
pub open spec fn chunk_limit() -> nat {
    1950
}

/// Whether a character falls in one of the stripped pictographic and
/// symbol code-point blocks.
pub open spec fn emoji_char(c: char) -> bool {
    let u = c as u32;
    (0x2600 <= u && u <= 0x26FF)  // Miscellaneous Symbols
     || (0x2700 <= u && u <= 0x27BF)  // Dingbats
     || (0x1F600 <= u && u <= 0x1F64F)  // Emoticons
     || (0x1F680 <= u && u <= 0x1F6FF)  // Transport and Map Symbols
     || (0x1F300 <= u && u <= 0x1F5FF)  // Miscellaneous Symbols and Pictographs
     || (0x1F900 <= u && u <= 0x1F9FF)  // Supplemental Symbols and Pictographs
     || (0x1FA70 <= u && u <= 0x1FAFF)  // Symbols and Pictographs Extended-A
     || (0x1F7E0 <= u && u <= 0x1F7FF)  // Geometric Shapes Extended
}

/// A character sequence with every stripped code point removed and nothing
/// else changed.
pub open spec fn sanitize_spec(s: Seq<char>) -> Seq<char>
    decreases s.len(),
{
    if s.len() == 0 {
        Seq::empty()
    } else {
        sanitize_spec(s.drop_last()) + (if emoji_char(s.last()) {
            Seq::<char>::empty()
        } else {
            seq![s.last()]
        })
    }
}

fn is_emoji_char(c: char) -> (r: bool)
    ensures
        r == emoji_char(c),
{
    let u = c as u32;
    (0x2600 <= u && u <= 0x26FF) || (0x2700 <= u && u <= 0x27BF) || (0x1F600 <= u && u <= 0x1F64F)
        || (0x1F680 <= u && u <= 0x1F6FF) || (0x1F300 <= u && u <= 0x1F5FF) || (0x1F900 <= u && u
        <= 0x1F9FF) || (0x1FA70 <= u && u <= 0x1FAFF) || (0x1F7E0 <= u && u <= 0x1F7FF)
}

/// Strip the recognized pictographic and symbol code points out of a
/// string before it is sent for translation.
pub fn remove_emojis(s: &str) -> (r: String)
    ensures
        r@ == sanitize_spec(s@),
{
    let n = s.unicode_len();
    let mut out = String::new();
    let mut i: usize = 0;
    while i < n
        invariant
            n == s@.len(),
            i <= n,
            out@ == sanitize_spec(s@.subrange(0, i as int)),
        decreases n - i,
    {
        let c = s.get_char(i);
        if !is_emoji_char(c) {
            push_char(&mut out, c);
        }
        proof {
            assert(s@.subrange(0, i + 1 as int).drop_last() =~= s@.subrange(0, i as int));
            assert(s@.subrange(0, i + 1 as int).last() == s@[i as int]);
            assert(out@ =~= sanitize_spec(s@.subrange(0, i + 1 as int)));
        }
        i = i + 1;
    }
    proof {
        assert(s@.subrange(0, n as int) =~= s@);
    }
    out
}

/// What the batch does with one message: empty content is skipped, any
/// other content is sanitized and handed on for translation.
pub fn plan_message(item: &BatchItem) -> (r: Option<String>)
    ensures
        item.raw_text@.len() == 0 ==> r is None,
        item.raw_text@.len() > 0 ==> (r matches Some(s) && s@ == sanitize_spec(item.raw_text@)),
{
    if item.raw_text.as_str().is_empty() {
        None
    } else {
        Some(remove_emojis(item.raw_text.as_str()))
    }
}

/// The line a translated message contributes to the output.
pub open spec fn line_spec(author: Seq<char>, translated: Seq<char>) -> Seq<char> {
    author + ": "@ + translated + "\n"@
}

/// Format one translated message as its output line; the author's name is
/// taken as it is.
pub fn format_line(author: &str, translated: &str) -> (r: String)
    ensures
        r@ == line_spec(author@, translated@),
{
    String::from_str(author).concat(": ").concat(translated).concat("\n")
}

/// The buffer a batch accumulates output lines in, flushed in bounded
/// chunks.
pub struct OutputChunker {
    buffer: String,
}

impl OutputChunker {
    /// The characters accumulated and not yet flushed.
    pub closed spec fn pending(&self) -> Seq<char> {
        self.buffer@
    }

    /// A chunker holding nothing.
    pub fn new() -> (r: Self)
        ensures
            r.pending() == Seq::<char>::empty(),
    {
        OutputChunker { buffer: String::new() }
    }

    /// Take a line in. When the line still fits under the chunk bound the
    /// buffer grows and nothing is flushed; otherwise the whole buffer is
    /// handed out as the next chunk and the line starts the new one. A
    /// line is never split.
    pub fn push_line(&mut self, line: &str) -> (flushed: Option<String>)
        ensures
            old(self).pending().len() + line@.len() <= chunk_limit() ==> (flushed is None
                && final(self).pending() == old(self).pending() + line@),
            old(self).pending().len() + line@.len() > chunk_limit() ==> (flushed matches Some(f)
                && f@ == old(self).pending() && final(self).pending() == line@),
    {
        let cur = self.buffer.as_str().unicode_len();
        let add = line.unicode_len();
        if add > 1950 || cur > 1950 - add {
            let f = self.buffer.clone();
            self.buffer = String::from_str(line);
            Some(f)
        } else {
            self.buffer.append(line);
            None
        }
    }

    /// Take the trailing chunk out, if any line is still buffered; the
    /// chunker is empty afterwards.
    pub fn take_remainder(&mut self) -> (r: Option<String>)
        ensures
            final(self).pending() == Seq::<char>::empty(),
            old(self).pending().len() == 0 ==> r is None,
            old(self).pending().len() > 0 ==> (r matches Some(f) && f@ == old(self).pending()),
    {
        if self.buffer.as_str().is_empty() {
            None
        } else {
            let f = self.buffer.clone();
            self.buffer = String::new();
            Some(f)
        }
    }
}

/// The chunks a batch emits, given the output lines in chronological order
/// and what the buffer already holds: a line that no longer fits flushes
/// the buffer first, and whatever is left at the end is flushed last.
pub open spec fn chunks_spec(lines: Seq<Seq<char>>, pending: Seq<char>) -> Seq<Seq<char>>
    decreases lines.len(),
{
    if lines.len() == 0 {
        if pending.len() == 0 {
            Seq::empty()
        } else {
            seq![pending]
        }
    } else {
        if pending.len() + lines.first().len() <= chunk_limit() {
            chunks_spec(lines.drop_first(), pending + lines.first())
        } else {
            seq![pending] + chunks_spec(lines.drop_first(), lines.first())
        }
    }
}

/// Assemble already-formatted output lines into bounded chunks, in order.
pub fn assemble_chunks(lines: &Vec<String>) -> (r: Vec<String>)
    ensures
        r.deep_view() == chunks_spec(lines.deep_view(), Seq::<char>::empty()),
{
    let ghost all = lines.deep_view();
    let mut chunker = OutputChunker::new();
    let mut out: Vec<String> = Vec::new();
    let mut i: usize = 0;
    proof {
        assert(all.skip(0) =~= all);
        assert(out.deep_view() + chunks_spec(all, Seq::<char>::empty()) =~= chunks_spec(
            all,
            Seq::<char>::empty(),
        ));
    }
    while i < lines.len()
        invariant
            i <= lines@.len(),
            all == lines.deep_view(),
            lines@.len() == all.len(),
            chunks_spec(all, Seq::<char>::empty()) == out.deep_view() + chunks_spec(
                all.skip(i as int),
                chunker.pending(),
            ),
        decreases lines@.len() - i,
    {
        let ghost rest = all.skip(i as int);
        let ghost prev_out = out.deep_view();
        let ghost prev_pending = chunker.pending();
        proof {
            assert(lines.deep_view()[i as int] == lines@[i as int]@);
            assert(rest.first() == all[i as int]);
            assert(rest.drop_first() =~= all.skip(i + 1 as int));
        }
        let flushed = chunker.push_line(lines[i].as_str());
        match flushed {
            Some(f) => {
                out.push(f);
                proof {
                    assert(out.deep_view() =~= prev_out + seq![prev_pending]);
                    assert(chunks_spec(rest, prev_pending) == seq![prev_pending] + chunks_spec(
                        all.skip(i + 1 as int),
                        chunker.pending(),
                    ));
                    assert(out.deep_view() + chunks_spec(all.skip(i + 1 as int), chunker.pending())
                        =~= prev_out + chunks_spec(rest, prev_pending));
                }
            },
            None => {
                proof {
                    assert(chunks_spec(rest, prev_pending) == chunks_spec(
                        all.skip(i + 1 as int),
                        chunker.pending(),
                    ));
                }
            },
        }
        i = i + 1;
    }
    proof {
        assert(all.skip(all.len() as int) =~= Seq::<Seq<char>>::empty());
    }
    let ghost prev_out = out.deep_view();
    let ghost prev_pending = chunker.pending();
    let last = chunker.take_remainder();
    match last {
        Some(f) => {
            out.push(f);
            proof {
                assert(out.deep_view() =~= prev_out + seq![prev_pending]);
            }
        },
        None => {
            proof {
                assert(out.deep_view() + chunks_spec(
                    Seq::<Seq<char>>::empty(),
                    Seq::<char>::empty(),
                ) =~= out.deep_view());
            }
        },
    }
    out
}

/// Reorder a feed that arrives newest-first into chronological order.
pub fn into_chronological<T>(v: Vec<T>) -> (r: Vec<T>)
    ensures
        r@ == v@.reverse(),
{
    let ghost orig = v@;
    let mut src = v;
    let mut out: Vec<T> = Vec::new();
    proof {
        assert(src@ =~= orig.take(src@.len() as int));
        assert(out@ =~= orig.skip(src@.len() as int).reverse());
    }
    while src.len() > 0
        invariant
            src@.len() <= orig.len(),
            src@ == orig.take(src@.len() as int),
            out@ == orig.skip(src@.len() as int).reverse(),
        decreases src@.len(),
    {
        let ghost k = src@.len() as int;
        let x = src.pop().unwrap();
        out.push(x);
        proof {
            assert(src@ =~= orig.take(k - 1));
            assert(out@ =~= orig.skip(k - 1).reverse());
        }
    }
    proof {
        assert(out@ =~= orig.reverse());
    }
    out
}

/// All the text the given chunks carry, in order.
pub open spec fn concat_all(s: Seq<Seq<char>>) -> Seq<char>
    decreases s.len(),
{
    if s.len() == 0 {
        Seq::empty()
    } else {
        s.first() + concat_all(s.drop_first())
    }
}

/// Chunking loses, reorders and splits nothing: the chunks concatenate
/// back to the buffered text followed by the lines in their given order.
pub proof fn lemma_chunks_preserve_text(lines: Seq<Seq<char>>, pending: Seq<char>)
    ensures
        concat_all(chunks_spec(lines, pending)) == pending + concat_all(lines),
    decreases lines.len(),
{
    if lines.len() == 0 {
        if pending.len() == 0 {
            assert(concat_all(chunks_spec(lines, pending)) =~= pending + concat_all(lines));
        } else {
            assert(seq![pending].drop_first() =~= Seq::<Seq<char>>::empty());
            assert(concat_all(Seq::<Seq<char>>::empty()) == Seq::<char>::empty());
            assert(concat_all(chunks_spec(lines, pending)) =~= pending + concat_all(lines));
        }
    } else {
        let first = lines.first();
        let rest = lines.drop_first();
        if pending.len() + first.len() <= chunk_limit() {
            lemma_chunks_preserve_text(rest, pending + first);
            assert(chunks_spec(lines, pending) == chunks_spec(rest, pending + first));
            assert(concat_all(lines) == first + concat_all(rest));
            assert(concat_all(chunks_spec(lines, pending)) =~= pending + concat_all(lines));
        } else {
            lemma_chunks_preserve_text(rest, first);
            let tail = chunks_spec(rest, first);
            assert((seq![pending] + tail).first() == pending);
            assert((seq![pending] + tail).drop_first() =~= tail);
            assert(concat_all(chunks_spec(lines, pending)) =~= pending + concat_all(lines));
        }
    }
}

/// When every line fits under the chunk bound, so does every chunk.
pub proof fn lemma_chunks_bounded(lines: Seq<Seq<char>>, pending: Seq<char>)
    requires
        pending.len() <= chunk_limit(),
        forall|i: int| 0 <= i < lines.len() ==> #[trigger] lines[i].len() <= chunk_limit(),
    ensures
        forall|j: int|
            0 <= j < chunks_spec(lines, pending).len() ==> #[trigger] chunks_spec(
                lines,
                pending,
            )[j].len() <= chunk_limit(),
    decreases lines.len(),
{
    if lines.len() == 0 {
        if pending.len() > 0 {
            assert(chunks_spec(lines, pending) == seq![pending]);
            assert(chunks_spec(lines, pending)[0] == pending);
        }
    } else {
        let first = lines.first();
        let rest = lines.drop_first();
        assert(first == lines[0]);
        assert(forall|i: int| 0 <= i < rest.len() ==> #[trigger] rest[i].len() <= chunk_limit())
            by {
            assert(forall|i: int| 0 <= i < rest.len() ==> rest[i] == lines[i + 1]);
        }
        if pending.len() + first.len() <= chunk_limit() {
            lemma_chunks_bounded(rest, pending + first);
            assert(chunks_spec(lines, pending) == chunks_spec(rest, pending + first));
        } else {
            lemma_chunks_bounded(rest, first);
            let tail = chunks_spec(rest, first);
            assert forall|j: int| 0 <= j < chunks_spec(lines, pending).len() implies #[trigger]
                chunks_spec(lines, pending)[j].len() <= chunk_limit() by {
                if j == 0 {
                    assert(chunks_spec(lines, pending)[0] == pending);
                } else {
                    assert(chunks_spec(lines, pending)[j] == tail[j - 1]);
                }
            }
        }
    }
}

} // verus!
