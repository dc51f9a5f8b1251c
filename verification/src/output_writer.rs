//! Lays generated text out with newlines and indentation.

use vstd::prelude::*;
use crate::template::{Output, OutputModel};
use crate::text::push_char;

verus! {

/// The state of an [`OutputWriter`]: the text so far, the indentation depth,
/// and whether a line break is due before the next text.
pub struct WriterModel {
    pub text: Seq<char>,
    pub indent: usize,
    pub pending_newline: bool,
}

/// `n` spaces.
pub open spec fn spaces(n: nat) -> Seq<char> {
    Seq::new(n, |i: int| ' ')
}

/// The effect of writing one output on the writer.
///
/// Text is preceded by a line break and four spaces per indentation level
/// when a newline is pending; a newline only marks one as pending, so runs of
/// newlines collapse and no trailing one is written; indentation changes
/// apply to the next line, and dedenting at depth zero stays at zero.
pub open spec fn write_step(w: WriterModel, o: OutputModel) -> WriterModel {
    match o {
        OutputModel::Text(s) => WriterModel {
            text: if w.pending_newline {
                w.text + seq!['\n'] + spaces(4 * w.indent as nat) + s
            } else {
                w.text + s
            },
            indent: w.indent,
            pending_newline: false,
        },
        OutputModel::NewLine => WriterModel { pending_newline: true, ..w },
        OutputModel::Indent => WriterModel {
            indent: if w.indent < usize::MAX { (w.indent + 1) as usize } else { w.indent },
            ..w
        },
        OutputModel::Dedent => WriterModel {
            indent: if w.indent > 0 { (w.indent - 1) as usize } else { 0 },
            ..w
        },
    }
}

/// The effect of writing a list of outputs, in order.
pub open spec fn write_all(w: WriterModel, os: Seq<OutputModel>) -> WriterModel
    decreases os.len(),
{
    if os.len() == 0 {
        w
    } else {
        write_step(write_all(w, os.drop_last()), os.last())
    }
}

/// Newlines collapse: a second newline in a row changes nothing.
pub proof fn lemma_newlines_collapse(w: WriterModel)
    ensures
        write_step(write_step(w, OutputModel::NewLine), OutputModel::NewLine) == write_step(w, OutputModel::NewLine),
{
}

/// Indenting and then dedenting leaves the writer as it was, below the
/// greatest depth.
pub proof fn lemma_indent_dedent(w: WriterModel)
    requires
        w.indent < usize::MAX,
    ensures
        write_step(write_step(w, OutputModel::Indent), OutputModel::Dedent) == w,
{
}

/// Writing only ever adds text at the end: what was written stays.
pub proof fn lemma_write_appends(w: WriterModel, os: Seq<OutputModel>)
    ensures
        w.text.is_prefix_of(write_all(w, os).text),
    decreases os.len(),
{
    if os.len() > 0 {
        lemma_write_appends(w, os.drop_last());
        let w1 = write_all(w, os.drop_last());
        let w2 = write_step(w1, os.last());
        assert(w1.text.is_prefix_of(w2.text)) by {
            assert(w2.text.subrange(0, w1.text.len() as int) =~= w1.text);
        }
        assert(w.text.is_prefix_of(w2.text)) by {
            assert(w2.text.subrange(0, w.text.len() as int) =~= w1.text.subrange(0, w.text.len() as int));
        }
    }
}

/// Whether `w2` holds everything `w` had written, and maybe more after it.
pub open spec fn extends(w: WriterModel, w2: WriterModel) -> bool {
    w.text.is_prefix_of(w2.text)
}

/// Extending is transitive.
pub proof fn lemma_extends_trans(a: WriterModel, b: WriterModel, c: WriterModel)
    requires
        extends(a, b),
        extends(b, c),
    ensures
        extends(a, c),
{
    assert(c.text.subrange(0, a.text.len() as int) =~= b.text.subrange(0, a.text.len() as int));
}

/// Writing one output only adds text at the end.
pub proof fn lemma_write_step_appends(w: WriterModel, o: OutputModel)
    ensures
        extends(w, write_step(w, o)),
{
    let w2 = write_step(w, o);
    assert(w2.text.subrange(0, w.text.len() as int) =~= w.text);
}

/// The indentation depth after `os`, from depth `d`: each indent adds one
/// (up to `usize::MAX`), each dedent takes one away (none at depth zero),
/// and text and newlines leave it as it is.
pub open spec fn depth_after(d: usize, os: Seq<OutputModel>) -> usize
    decreases os.len(),
{
    if os.len() == 0 {
        d
    } else {
        let d1 = depth_after(d, os.drop_last());
        match os.last() {
            OutputModel::Indent => if d1 < usize::MAX { (d1 + 1) as usize } else { d1 },
            OutputModel::Dedent => if d1 > 0 { (d1 - 1) as usize } else { 0 },
            _ => d1,
        }
    }
}

/// Whether a line break is due after `os`, having been due (`p`) before:
/// a newline makes one due, text writes it, and indentation changes leave
/// it as it is.
pub open spec fn newline_due_after(p: bool, os: Seq<OutputModel>) -> bool
    decreases os.len(),
{
    if os.len() == 0 {
        p
    } else {
        match os.last() {
            OutputModel::Text(_) => false,
            OutputModel::NewLine => true,
            _ => newline_due_after(p, os.drop_last()),
        }
    }
}

/// What one output emits when a line break is due (`p`) at depth `d`: text
/// emits a line break and four spaces per level first when one is due, and
/// then itself; newlines and indentation changes emit nothing.
pub open spec fn emitted_by(o: OutputModel, p: bool, d: usize) -> Seq<char> {
    match o {
        OutputModel::Text(s) => if p {
            seq!['\n'] + spaces(4 * d as nat) + s
        } else {
            s
        },
        _ => Seq::empty(),
    }
}

/// What `os` emits, written from depth `d` with a line break due or not
/// (`p`).
pub open spec fn emitted(p: bool, d: usize, os: Seq<OutputModel>) -> Seq<char>
    decreases os.len(),
{
    if os.len() == 0 {
        Seq::empty()
    } else {
        let init = os.drop_last();
        emitted(p, d, init) + emitted_by(os.last(), newline_due_after(p, init), depth_after(d, init))
    }
}

/// Writing any sequence of outputs: the text grows by exactly what the
/// outputs emit, where only text emits anything, a line break with four
/// spaces per level going before text when a newline came since the last
/// text; the depth counts indents less dedents, a dedent at depth zero
/// doing nothing; and a line break is left due exactly when a newline came
/// after the last text.
pub proof fn lemma_write_all_emits(w: WriterModel, os: Seq<OutputModel>)
    ensures
        write_all(w, os).text == w.text + emitted(w.pending_newline, w.indent, os),
        write_all(w, os).indent == depth_after(w.indent, os),
        write_all(w, os).pending_newline == newline_due_after(w.pending_newline, os),
    decreases os.len(),
{
    if os.len() == 0 {
        assert(w.text + Seq::<char>::empty() =~= w.text);
    } else {
        let init = os.drop_last();
        lemma_write_all_emits(w, init);
        let w1 = write_all(w, init);
        let e1 = emitted(w.pending_newline, w.indent, init);
        match os.last() {
            OutputModel::Text(t) => {
                if w1.pending_newline {
                    assert(write_all(w, os).text =~= w.text + e1 + (seq!['\n'] + spaces(4 * w1.indent as nat) + t));
                } else {
                    assert(write_all(w, os).text =~= w.text + e1 + t);
                }
            },
            _ => {
                assert(write_all(w, os).text =~= w.text + e1 + Seq::<char>::empty());
            },
        }
        assert(w.text + e1 + emitted_by(os.last(), newline_due_after(w.pending_newline, init), depth_after(w.indent, init))
            =~= w.text + emitted(w.pending_newline, w.indent, os));
    }
}

/// Writes outputs into a string, keeping track of indentation.
pub struct OutputWriter {
    writer: String,
    indent: usize,
    last_token_was_newline: bool,
}

impl View for OutputWriter {
    type V = WriterModel;

    closed spec fn view(&self) -> WriterModel {
        WriterModel {
            text: self.writer@,
            indent: self.indent,
            pending_newline: self.last_token_was_newline,
        }
    }
}

impl OutputWriter {
    /// A writer that appends to `writer`, at depth zero, with no newline due.
    pub fn new(writer: String) -> (r: OutputWriter)
        ensures
            r@ == (WriterModel { text: writer@, indent: 0, pending_newline: false }),
    {
        OutputWriter { writer, indent: 0, last_token_was_newline: false }
    }

    /// Writes one output.
    pub fn write(&mut self, token: Output)
        ensures
            final(self)@ == write_step(old(self)@, token@),
    {
        match token {
            Output::String(s) => {
                if self.last_token_was_newline {
                    push_char(&mut self.writer, '\n');
                    let ghost base = self.writer@;
                    let mut i: usize = 0;
                    while i < self.indent
                        invariant
                            i <= self.indent,
                            self.indent == old(self).indent,
                            self.last_token_was_newline == old(self).last_token_was_newline,
                            base == old(self).writer@ + seq!['\n'],
                            self.writer@ == base + spaces(4 * i as nat),
                        decreases self.indent - i,
                    {
                        let ghost before = self.writer@;
                        push_char(&mut self.writer, ' ');
                        push_char(&mut self.writer, ' ');
                        push_char(&mut self.writer, ' ');
                        push_char(&mut self.writer, ' ');
                        assert(self.writer@ == base + spaces(4 * (i + 1) as nat));
                        i = i + 1;
                    }
                    self.last_token_was_newline = false;
                }
                let ghost before = self.writer@;
                self.writer.append(s.as_str());
                assert(self.writer@ == before + s@);
            },
            Output::NewLine => {
                self.last_token_was_newline = true;
            },
            Output::Indent => {
                if self.indent < usize::MAX {
                    self.indent = self.indent + 1;
                }
            },
            Output::Dedent => {
                if self.indent > 0 {
                    self.indent = self.indent - 1;
                }
            },
        }
    }

    /// The text written so far.
    pub fn text(&self) -> (r: &String)
        ensures
            r@ == self@.text,
    {
        &self.writer
    }

    /// The text written, giving up the writer.
    pub fn into_text(self) -> (r: String)
        ensures
            r@ == self@.text,
    {
        self.writer
    }
}

} // verus!
