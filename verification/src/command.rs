//! A count request, the inputs it names and the counts made for them.

use getopts::Options;
use vstd::prelude::*;
use vstd::utf8::{encode_utf8, is_ascii_chars_encode_utf8};
use crate::counting::{
    char_count, is_ascii_space, is_space, lemma_empty_counts, line_count, line_feeds_in,
    word_count, words_closed_in, LINE_FEED,
};
use crate::input::WCInput;
use crate::options::{add_flag, free_args, parse, ArgsError};
use crate::options::{all_named, declared, names_of, parse_outcome};
use crate::output::WCOutput;
use crate::utf8_text::count_chars;

verus! {

/// Which counts are asked for, of which inputs, and the counts made so far.
pub struct WCCmd {
    /// Count bytes.
    pub bytes: bool,
    /// Count lines.
    pub lines: bool,
    /// Count words.
    pub words: bool,
    /// Count characters.
    pub chars: bool,
    /// The inputs to count, in the order given.
    pub inputs: Vec<WCInput>,
    /// The counts made, one for each input counted, in the same order.
    pub outputs: Vec<WCOutput>,
}

/// The flags of the command line, each as its short and its long name:
/// `-c`/`--bytes`, `-l`/`--lines`, `-w`/`--words` and `-m`/`--chars`.
pub open spec fn flag_table() -> Seq<(Seq<char>, Seq<char>)> {
    seq![("c"@, "bytes"@), ("l"@, "lines"@), ("w"@, "words"@), ("m"@, "chars"@)]
}

/// The names of the inputs that the free arguments `free` ask for: one file
/// for each, in their order, or the standard input alone where there is none.
pub open spec fn input_names_for(free: Seq<Seq<char>>) -> Seq<Option<Seq<char>>> {
    if free.len() == 0 {
        seq![None]
    } else {
        Seq::new(free.len(), |i: int| Some(free[i]))
    }
}

impl WCCmd {
    /// The names of the inputs, in their order: the path of each file, none
    /// for the standard input.
    pub open spec fn input_names(self) -> Seq<Option<Seq<char>>> {
        Seq::new(self.inputs.len() as nat, |i: int| self.inputs[i].name())
    }

    /// No count is asked for by name: lines, words and bytes are then
    /// counted, characters are not.
    pub open spec fn default_mode(self) -> bool {
        !self.chars && !self.lines && !self.words && !self.bytes
    }

    /// Bytes are counted.
    pub open spec fn counts_bytes(self) -> bool {
        self.bytes || self.default_mode()
    }

    /// Lines are counted.
    pub open spec fn counts_lines(self) -> bool {
        self.lines || self.default_mode()
    }

    /// Words are counted.
    pub open spec fn counts_words(self) -> bool {
        self.words || self.default_mode()
    }

    /// `other` asks for the same counts.
    pub open spec fn same_request(self, other: WCCmd) -> bool {
        &&& self.bytes == other.bytes
        &&& self.lines == other.lines
        &&& self.words == other.words
        &&& self.chars == other.chars
    }

    /// `out` holds the counts that this request asks for of `content`, the
    /// bytes of `input`: each count that is asked for, zero for each that is
    /// not, under the name of `input`.
    pub open spec fn is_count_of(self, out: WCOutput, input: WCInput, content: Seq<u8>) -> bool {
        &&& out.byte_ct == if self.counts_bytes() {
            content.len()
        } else {
            0
        }
        &&& out.line_ct == if self.counts_lines() {
            line_count(content)
        } else {
            0
        }
        &&& out.word_ct == if self.counts_words() {
            word_count(content)
        } else {
            0
        }
        &&& out.char_ct == if self.chars {
            char_count(content)
        } else {
            0
        }
        &&& out.name() == input.name()
    }

    /// Tells whether no count is asked for by name.
    pub fn use_default_flags(&self) -> (r: bool)
        ensures
            r == self.default_mode(),
    {
        !self.chars && !self.lines && !self.words && !self.bytes
    }

    /// Counts `buffer`, the bytes read from `input`, in one pass.
    pub fn count(&self, input: &WCInput, buffer: &Vec<u8>) -> (out: WCOutput)
        ensures
            self.is_count_of(out, *input, buffer@),
    {
        let default = self.use_default_flags();
        let mut byte_ct: u64 = 0;
        let mut line_ct: u64 = 0;
        let mut word_ct: u64 = 0;
        let mut char_ct: u64 = 0;

        let mut parsing_word = true;
        let mut i: usize = 0;
        while i < buffer.len()
            invariant
                i <= buffer.len(),
                default == self.default_mode(),
                byte_ct == if self.counts_bytes() {
                    i as nat
                } else {
                    0
                },
                line_ct == if self.counts_lines() {
                    line_feeds_in(buffer@, i as int)
                } else {
                    0
                },
                word_ct == if self.counts_words() {
                    words_closed_in(buffer@, i as int)
                } else {
                    0
                },
                line_feeds_in(buffer@, i as int) <= i,
                words_closed_in(buffer@, i as int) <= i,
                self.counts_words() ==> parsing_word == (i == 0 || !is_space(buffer@[i - 1])),
            decreases buffer.len() - i,
        {
            let b = buffer[i];
            if self.bytes || default {
                byte_ct += 1;
            }
            if (self.lines || default) && b == LINE_FEED {
                line_ct += 1;
            }
            if self.words || default {
                if parsing_word {
                    if is_ascii_space(b) {
                        word_ct += 1;
                        parsing_word = false;
                    }
                } else if !is_ascii_space(b) {
                    parsing_word = true;
                }
            }
            i += 1;
        }

        if self.chars {
            char_ct = count_chars(buffer);
        }
        WCOutput { byte_ct, line_ct, word_ct, char_ct, filename: input.path() }
    }

    /// Counts every input, `contents[i]` being the bytes read from
    /// `inputs[i]`, and appends the counts to `outputs` in the order of the
    /// inputs.
    pub fn process(&mut self, contents: &Vec<Vec<u8>>)
        requires
            contents.len() == old(self).inputs.len(),
        ensures
            final(self).same_request(*old(self)),
            final(self).inputs == old(self).inputs,
            final(self).outputs.len() == old(self).outputs.len() + old(self).inputs.len(),
            forall|k: int|
                0 <= k < old(self).outputs.len() ==> final(self).outputs[k] == old(self).outputs[k],
            forall|k: int|
                old(self).outputs.len() <= k < final(self).outputs.len() ==> old(self).is_count_of(
                    #[trigger] final(self).outputs[k],
                    old(self).inputs[k - old(self).outputs.len()],
                    contents[k - old(self).outputs.len()]@,
                ),
    {
        let n = self.inputs.len();
        let ghost before = self.outputs@;
        let mut i: usize = 0;
        while i < n
            invariant
                i <= n,
                n == self.inputs.len(),
                n == contents.len(),
                self.same_request(*old(self)),
                self.inputs == old(self).inputs,
                before == old(self).outputs@,
                self.outputs.len() == before.len() + i,
                forall|k: int| 0 <= k < before.len() ==> self.outputs[k] == before[k],
                forall|k: int|
                    before.len() <= k < self.outputs.len() ==> old(self).is_count_of(
                        #[trigger] self.outputs[k],
                        self.inputs[k - before.len()],
                        contents[k - before.len()]@,
                    ),
            decreases n - i,
        {
            let output = self.count(&self.inputs[i], &contents[i]);
            self.outputs.push(output);
            i += 1;
        }
    }

    /// The report lines of the counts made, one for each, in their order.
    pub fn render(&self) -> (lines: Vec<String>)
        ensures
            lines.len() == self.outputs.len(),
            forall|k: int|
                0 <= k < self.outputs.len() ==> (#[trigger] lines[k])@ == self.outputs[k].line(
                    *self,
                ),
    {
        let mut lines: Vec<String> = Vec::new();
        let mut i: usize = 0;
        while i < self.outputs.len()
            invariant
                i <= self.outputs.len(),
                lines.len() == i,
                forall|k: int|
                    0 <= k < i ==> (#[trigger] lines[k])@ == self.outputs[k].line(*self),
            decreases self.outputs.len() - i,
        {
            lines.push(self.outputs[i].as_string(self));
            i += 1;
        }
        lines
    }

    /// The request with the given flags for the inputs that the free
    /// arguments `free` name, and no counts made yet.
    pub fn from_parsed(
        bytes: bool,
        lines: bool,
        words: bool,
        chars: bool,
        free: Vec<String>,
    ) -> (cmd: WCCmd)
        ensures
            cmd.bytes == bytes,
            cmd.lines == lines,
            cmd.words == words,
            cmd.chars == chars,
            cmd.input_names() == input_names_for(free.deep_view()),
            cmd.outputs.len() == 0,
    {
        let mut parsed_inputs: Vec<WCInput> = Vec::new();
        if free.len() > 0 {
            let mut i: usize = 0;
            while i < free.len()
                invariant
                    i <= free.len(),
                    parsed_inputs.len() == i,
                    forall|k: int|
                        0 <= k < i ==> (#[trigger] parsed_inputs[k]).name() == Some(free[k]@),
                decreases free.len() - i,
            {
                parsed_inputs.push(WCInput::File(free[i].clone()));
                i += 1;
            }
        } else {
            parsed_inputs.push(WCInput::StdIn());
        }
        let cmd = WCCmd { bytes, lines, words, chars, inputs: parsed_inputs, outputs: Vec::new() };
        assert(cmd.input_names() =~= input_names_for(free.deep_view()));
        cmd
    }

    /// Parses a command line, `args[0]` being the name of the program: the
    /// flags that it gives, and its free arguments as the files to count, or
    /// the standard input where it names no file.
    pub fn from_args(args: Vec<String>) -> (res: Result<WCCmd, ArgsError>)
        requires
            args.len() >= 1,
        ensures
            match parse_outcome(flag_table(), args.deep_view().skip(1)) {
                Ok((given, free)) => {
                    &&& res matches Ok(cmd)
                    &&& cmd.bytes == given["c"@]
                    &&& cmd.lines == given["l"@]
                    &&& cmd.words == given["w"@]
                    &&& cmd.chars == given["m"@]
                    &&& cmd.input_names() == input_names_for(free)
                    &&& cmd.outputs.len() == 0
                },
                Err(e) => res matches Err(err) && err@ == e,
            },
    {
        let mut opts = Options::new();
        proof {
            lemma_flag_names();
        }
        add_flag(&mut opts, "c", "bytes", "count the number of bytes");
        add_flag(&mut opts, "l", "lines", "count the number of lines");
        add_flag(&mut opts, "w", "words", "count the number of words");
        add_flag(&mut opts, "m", "chars", "count the number of chars");
        assert(declared(opts) =~= flag_table());

        let rest = vstd::slice::slice_subrange(args.as_slice(), 1, args.len());
        assert(rest.deep_view() =~= args.deep_view().skip(1));
        match parse(&opts, rest) {
            Ok(matches) => {
                proof {
                    let names = names_of(flag_table());
                    assert(flag_table()[0].0 == "c"@ && names.contains("c"@));
                    assert(flag_table()[1].0 == "l"@ && names.contains("l"@));
                    assert(flag_table()[2].0 == "w"@ && names.contains("w"@));
                    assert(flag_table()[3].0 == "m"@ && names.contains("m"@));
                }
                let free = free_args(&matches);
                Ok(
                    WCCmd::from_parsed(
                        matches.opt_present("c"),
                        matches.opt_present("l"),
                        matches.opt_present("w"),
                        matches.opt_present("m"),
                        free,
                    ),
                )
            },
            Err(e) => Err(e),
        }
    }
}

/// Of an empty input every count is zero, whatever is asked for.
pub proof fn lemma_empty_input_counts_zero(cmd: WCCmd, out: WCOutput, input: WCInput)
    requires
        cmd.is_count_of(out, input, Seq::<u8>::empty()),
    ensures
        out.byte_ct == 0,
        out.line_ct == 0,
        out.word_ct == 0,
        out.char_ct == 0,
{
    lemma_empty_counts();
}

/// The names of the flags are ASCII: a short name is one byte long, a long
/// name longer.
proof fn lemma_flag_names()
    ensures
        "c"@.len() == 1 && encode_utf8("c"@).len() == 1,
        "l"@.len() == 1 && encode_utf8("l"@).len() == 1,
        "w"@.len() == 1 && encode_utf8("w"@).len() == 1,
        "m"@.len() == 1 && encode_utf8("m"@).len() == 1,
        encode_utf8("bytes"@).len() == 5,
        encode_utf8("lines"@).len() == 5,
        encode_utf8("words"@).len() == 5,
        encode_utf8("chars"@).len() == 5,
        all_named(flag_table()),
{
    reveal_strlit("c");
    reveal_strlit("l");
    reveal_strlit("w");
    reveal_strlit("m");
    reveal_strlit("bytes");
    reveal_strlit("lines");
    reveal_strlit("words");
    reveal_strlit("chars");
    is_ascii_chars_encode_utf8("c"@);
    is_ascii_chars_encode_utf8("l"@);
    is_ascii_chars_encode_utf8("w"@);
    is_ascii_chars_encode_utf8("m"@);
    is_ascii_chars_encode_utf8("bytes"@);
    is_ascii_chars_encode_utf8("lines"@);
    is_ascii_chars_encode_utf8("words"@);
    is_ascii_chars_encode_utf8("chars"@);
}

impl Default for WCCmd {
    /// No count asked for by name, no input and no output.
    fn default() -> (r: Self)
        ensures
            !r.bytes,
            !r.lines,
            !r.words,
            !r.chars,
            r.inputs@.len() == 0,
            r.outputs@.len() == 0,
    {
        WCCmd {
            bytes: false,
            lines: false,
            words: false,
            chars: false,
            inputs: Vec::new(),
            outputs: Vec::new(),
        }
    }
}

} // verus!
