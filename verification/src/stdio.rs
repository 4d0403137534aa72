//! The stdio transport: messages as lines of JSON on a pair of byte
//! streams. What is here frames a message for writing and decides what
//! each line that was read means; reading and writing are the caller's.

use vstd::prelude::*;
use vstd::string::{StrSliceExecFns, StringExecFns};
use crate::error::{ClientError, ClientErrorModel};
use crate::json_text::json_text;
use crate::message::{decodes_to, Message};

verus! {

/// Whether a character is white space: whether it has the Unicode property
/// `White_Space`. These
/// are the tab, the line feed, the two other line controls and the carriage
/// return, the space, the next-line control, the no-break space, the ogham
/// space mark, the spaces from en quad to hair space, the line and the
/// paragraph separator, the narrow no-break space, the medium mathematical
/// space and the ideographic space.
pub open spec fn is_space(c: char) -> bool {
    let code = c as u32;
    ||| 0x09 <= code <= 0x0d
    ||| code == 0x20
    ||| code == 0x85
    ||| code == 0xa0
    ||| code == 0x1680
    ||| 0x2000 <= code <= 0x200a
    ||| code == 0x2028
    ||| code == 0x2029
    ||| code == 0x202f
    ||| code == 0x205f
    ||| code == 0x3000
}

/// A text without the white space at its end.
pub open spec fn trimmed(text: Seq<char>) -> Seq<char>
    decreases text.len(),
{
    if text.len() > 0 && is_space(text.last()) {
        trimmed(text.drop_last())
    } else {
        text
    }
}

/// Whether a character is white space.
pub fn is_white_space(c: char) -> (white: bool)
    ensures
        white == is_space(c),
{
    let code = c as u32;
    (0x09 <= code && code <= 0x0d) || code == 0x20 || code == 0x85 || code == 0xa0 || code
        == 0x1680 || (0x2000 <= code && code <= 0x200a) || code == 0x2028 || code == 0x2029
        || code == 0x202f || code == 0x205f || code == 0x3000
}

/// Taking the white space off the end of a text takes it off every longer
/// text that goes on with white space only.
proof fn lemma_trimmed_of_prefix(text: Seq<char>, end: int)
    requires
        0 <= end <= text.len(),
        forall|i: int| end <= i < text.len() ==> is_space(#[trigger] text[i]),
    ensures
        trimmed(text) == trimmed(text.take(end)),
    decreases text.len() - end,
{
    if end < text.len() {
        assert(is_space(text[text.len() - 1]));
        let shorter = text.drop_last();
        assert forall|i: int| end <= i < shorter.len() implies is_space(#[trigger] shorter[i]) by {
            assert(shorter[i] == text[i]);
        }
        lemma_trimmed_of_prefix(shorter, end);
        assert(shorter.take(end) =~= text.take(end));
    } else {
        assert(text.take(end) =~= text);
    }
}

/// The text without the white space at its end.
pub fn trim_end(text: &str) -> (r: &str)
    ensures
        r@ == trimmed(text@),
{
    let mut end: usize = text.unicode_len();
    while end > 0 && is_white_space(text.get_char(end - 1))
        invariant
            end <= text@.len(),
            forall|i: int| end <= i < text@.len() ==> is_space(#[trigger] text@[i]),
        decreases end,
    {
        end -= 1;
    }
    proof {
        lemma_trimmed_of_prefix(text@, end as int);
        let rest = text@.take(end as int);
        if end > 0 {
            assert(rest.last() == text@[end - 1]);
        }
        assert(text@.subrange(0, end as int) =~= rest);
    }
    text.substring_char(0, end)
}

/// Frames a message for the wire: its JSON text on one line, and the line
/// feed that ends the line.
pub fn frame(message: &Message) -> (r: Result<String, ClientError>)
    ensures
        r matches Ok(line) && line@ == json_text(message@.to_json()) + "\n"@ && one_line(line@)
            && !line@.contains('\r'),
{
    let mut line = message.encode()?;
    proof {
        lemma_frame_is_one_line(line@, line@ + "\n"@);
        lemma_line_feed_adds_no_carriage_return(line@);
    }
    line.append("\n");
    Ok(line)
}

/// Whether a text is exactly one line: it ends in a line feed and holds no
/// other.
pub open spec fn one_line(line: Seq<char>) -> bool {
    &&& line.len() > 0
    &&& line.last() == '\n'
    &&& forall|i: int| 0 <= i < line.len() - 1 ==> line[i] != '\n'
}

/// Framing: a text without a line feed, followed by one, is exactly one
/// line.
pub proof fn lemma_frame_is_one_line(body: Seq<char>, line: Seq<char>)
    requires
        !body.contains('\n'),
        line == body + "\n"@,
    ensures
        line.len() == body.len() + 1,
        one_line(line),
{
    reveal_strlit("\n");
    assert("\n"@.len() == 1);
    assert forall|i: int| 0 <= i < line.len() - 1 implies line[i] != '\n' by {
        assert(line[i] == body[i]);
        assert(body.contains(body[i]));
    }
}

/// A text without a carriage return, followed by a line feed, is without a
/// carriage return still.
pub proof fn lemma_line_feed_adds_no_carriage_return(body: Seq<char>)
    requires
        !body.contains('\r'),
    ensures
        !(body + "\n"@).contains('\r'),
{
    reveal_strlit("\n");
    let line = body + "\n"@;
    assert("\n"@.len() == 1);
    if line.contains('\r') {
        let i = choose|i: int| 0 <= i < line.len() && line[i] == '\r';
        if i < body.len() {
            assert(body[i] == '\r');
            assert(body.contains(body[i]));
        }
    }
}

/// What one attempt to read a line came to.
#[derive(Debug, PartialEq, Eq)]
pub enum LineRead {
    /// A line was read; it may still carry its line end.
    Line(String),
    /// The stream has ended.
    End,
    /// Reading failed, for this reason.
    Failed(String),
}

/// A `LineRead` as a mathematical value.
pub enum LineReadModel {
    Line(Seq<char>),
    End,
    Failed(Seq<char>),
}

impl View for LineRead {
    type V = LineReadModel;

    open spec fn view(&self) -> LineReadModel {
        match *self {
            LineRead::Line(l) => LineReadModel::Line(l@),
            LineRead::End => LineReadModel::End,
            LineRead::Failed(reason) => LineReadModel::Failed(reason@),
        }
    }
}

/// What the reader does with what it read.
#[derive(Debug, PartialEq, Eq)]
pub enum ReaderStep {
    /// The line was empty: read on, and publish nothing.
    Skip,
    /// Publish this item to every subscriber, and read on.
    Publish(Result<Message, ClientError>),
    /// Publish this error to every subscriber, and stop reading.
    Stop(ClientError),
}

/// The error that tells subscribers that the stream has ended.
pub open spec fn stream_ended() -> ClientErrorModel {
    ClientErrorModel::Other("connection closed"@)
}

/// Whether `step` is what the reader does with a line that has lost the
/// white space at its end. An empty line is skipped. Any other line is
/// published as what it decodes to, a message or a serialization error.
pub open spec fn line_reads_as(text: Seq<char>, step: ReaderStep) -> bool {
    if text.len() == 0 {
        step is Skip
    } else {
        step matches ReaderStep::Publish(item) && decodes_to(text, item)
    }
}

/// Whether `step` is what the reader does with `read`.
///
/// A line is taken without the white space at its end: empty, it is
/// skipped, and else it is published as what it decodes to; the reader goes
/// on after either. The end of the stream and a failure to read are
/// published as errors, and end the reader.
pub open spec fn reads_as(read: LineReadModel, step: ReaderStep) -> bool {
    match read {
        LineReadModel::Line(line) => line_reads_as(trimmed(line), step),
        LineReadModel::End => step matches ReaderStep::Stop(e) && e@ == stream_ended(),
        LineReadModel::Failed(reason) => step matches ReaderStep::Stop(e) && e@
            == ClientErrorModel::Io(reason),
    }
}

/// Decides what the reader does with a line that has lost the white space
/// at its end.
pub fn line_step(text: &str) -> (step: ReaderStep)
    ensures
        line_reads_as(text@, step),
{
    if text.is_empty() {
        ReaderStep::Skip
    } else {
        ReaderStep::Publish(Message::decode(text))
    }
}

/// Decides what the reader does with what it read.
pub fn reader_step(read: LineRead) -> (step: ReaderStep)
    ensures
        reads_as(read@, step),
{
    match read {
        LineRead::Line(line) => line_step(trim_end(line.as_str())),
        LineRead::End => ReaderStep::Stop(ClientError::Other("connection closed".to_owned())),
        LineRead::Failed(reason) => ReaderStep::Stop(ClientError::Io(reason)),
    }
}

/// A text of white space only has nothing left once the white space at its
/// end is gone.
pub proof fn lemma_white_space_trims_away(text: Seq<char>)
    requires
        forall|i: int| 0 <= i < text.len() ==> is_space(#[trigger] text[i]),
    ensures
        trimmed(text).len() == 0,
    decreases text.len(),
{
    if text.len() > 0 {
        let rest = text.drop_last();
        assert forall|i: int| 0 <= i < rest.len() implies is_space(#[trigger] rest[i]) by {
            assert(rest[i] == text[i]);
        }
        lemma_white_space_trims_away(rest);
    }
}

/// A line that holds nothing but white space, such as a line feed alone or
/// a carriage return and a line feed, is skipped.
pub proof fn lemma_blank_lines_are_skipped(line: Seq<char>, step: ReaderStep)
    requires
        forall|i: int| 0 <= i < line.len() ==> is_space(#[trigger] line[i]),
    ensures
        reads_as(LineReadModel::Line(line), step) <==> step is Skip,
{
    lemma_white_space_trims_away(line);
}

} // verus!
