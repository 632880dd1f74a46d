//! The counts of one input and the line that reports them.

use vstd::prelude::*;
use crate::command::WCCmd;
use crate::decimal::{decimal, push_decimal};

verus! {

/// The counts of one input, with the name under which it is reported.
pub struct WCOutput {
    pub byte_ct: u64,
    pub line_ct: u64,
    pub word_ct: u64,
    pub char_ct: u64,
    pub filename: Option<String>,
}

/// One column of a report line: a tab, then `n` in decimal notation.
pub open spec fn column(n: u64) -> Seq<char> {
    seq!['\t'] + decimal(n as nat)
}

/// Appends the column for `n` to `out`.
fn push_column(out: &mut String, n: u64)
    ensures
        final(out)@ == old(out)@ + column(n),
{
    proof {
        reveal_strlit("\t");
    }
    out.append("\t");
    push_decimal(out, n);
    assert(out@ =~= old(out)@ + column(n));
}

impl WCOutput {
    /// The name under which the counts are reported, if there is one.
    pub open spec fn name(self) -> Option<Seq<char>> {
        match self.filename {
            Some(f) => Some(f@),
            None => None,
        }
    }

    /// The columns of the report line that `wc` asks for: the line count, the
    /// word count, then the character count or else the byte count.
    pub open spec fn columns(self, wc: WCCmd) -> Seq<char> {
        (if wc.counts_lines() {
            column(self.line_ct)
        } else {
            Seq::empty()
        }) + (if wc.counts_words() {
            column(self.word_ct)
        } else {
            Seq::empty()
        }) + (if wc.chars {
            column(self.char_ct)
        } else if wc.counts_bytes() {
            column(self.byte_ct)
        } else {
            Seq::empty()
        })
    }

    /// What follows the columns: a space and the name, where there is a name.
    pub open spec fn suffix(self) -> Seq<char> {
        match self.name() {
            Some(name) => seq![' '] + name,
            None => Seq::empty(),
        }
    }

    /// The report line of these counts under the request `wc`.
    pub open spec fn line(self, wc: WCCmd) -> Seq<char> {
        self.columns(wc) + self.suffix()
    }

    /// Renders the report line of these counts under the request `wc`.
    pub fn as_string(&self, wc: &WCCmd) -> (out: String)
        ensures
            out@ == self.line(*wc),
    {
        let mut out = String::new();
        let default = wc.use_default_flags();

        if wc.lines || default {
            push_column(&mut out, self.line_ct);
        }
        if wc.words || default {
            push_column(&mut out, self.word_ct);
        }
        if wc.chars {
            push_column(&mut out, self.char_ct);
        } else if wc.bytes || default {
            push_column(&mut out, self.byte_ct);
        }
        assert(out@ =~= self.columns(*wc));
        match &self.filename {
            Some(f) => {
                proof {
                    reveal_strlit(" ");
                }
                out.append(" ");
                out.append(f.as_str());
            },
            None => {},
        }
        assert(out@ =~= self.line(*wc));
        out
    }
}

/// Rendering is repeatable: two renderings of the same counts under the same
/// request are the same text.
pub proof fn lemma_as_string_repeatable(out: WCOutput, wc: WCCmd, first: String, second: String)
    requires
        first@ == out.line(wc),
        second@ == out.line(wc),
    ensures
        first@ == second@,
{
}

/// Whatever counts are asked for, the line of counts that have a name ends
/// with a space and that name.
pub proof fn lemma_name_ends_line(out: WCOutput, wc: WCCmd)
    requires
        out.filename is Some,
    ensures
        out.line(wc) == out.columns(wc) + seq![' '] + out.filename->0@,
{
    assert(out.line(wc) =~= out.columns(wc) + seq![' '] + out.filename->0@);
}

/// Where no count is asked for by name, the columns are the line count, the
/// word count and the byte count, and no other.
pub proof fn lemma_default_columns(out: WCOutput, wc: WCCmd)
    requires
        wc.default_mode(),
    ensures
        out.columns(wc) == column(out.line_ct) + column(out.word_ct) + column(out.byte_ct),
{
}

/// Where characters are asked for, the byte count is not shown: counts that
/// differ in nothing else have the same columns.
pub proof fn lemma_chars_hide_bytes(a: WCOutput, b: WCOutput, wc: WCCmd)
    requires
        wc.chars,
        a.line_ct == b.line_ct,
        a.word_ct == b.word_ct,
        a.char_ct == b.char_ct,
    ensures
        a.columns(wc) == b.columns(wc),
{
}

impl Default for WCOutput {
    /// All counts zero and no name.
    fn default() -> (r: Self)
        ensures
            r.byte_ct == 0,
            r.line_ct == 0,
            r.word_ct == 0,
            r.char_ct == 0,
            r.filename is None,
    {
        WCOutput { byte_ct: 0, line_ct: 0, word_ct: 0, char_ct: 0, filename: None }
    }
}

} // verus!
