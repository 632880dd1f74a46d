//! Command-line flags, declared to and parsed by the `getopts` crate.

use getopts::{Fail, Matches, Options};
use vstd::prelude::*;
use vstd::utf8::encode_utf8;

verus! {

/// The ways in which a command line can fail to parse.
#[derive(Clone, Copy, Debug, PartialEq, Eq, Structural)]
pub enum ArgsErrorKind {
    /// An option that takes an argument was given none.
    ArgumentMissing,
    /// An option was given that is not declared.
    UnrecognizedOption,
    /// A required option was not given.
    OptionMissing,
    /// An option that may occur once was given more than once.
    OptionDuplicated,
    /// An option that takes no argument was given one.
    UnexpectedArgument,
}

/// Why a command line did not parse, and the option at fault.
#[derive(Debug)]
pub struct ArgsError {
    pub kind: ArgsErrorKind,
    pub option: String,
}

impl View for ArgsError {
    type V = (ArgsErrorKind, Seq<char>);

    open spec fn view(&self) -> (ArgsErrorKind, Seq<char>) {
        (self.kind, self.option@)
    }
}

/// `getopts::Options`, the options that a command line may give. Nothing
/// inside it is visible to the verifier.
#[verifier::external_type_specification]
#[verifier::external_body]
pub struct ExOptions(getopts::Options);

/// `getopts::Matches`, what a command line was parsed into. Nothing inside it
/// is visible to the verifier.
#[verifier::external_type_specification]
#[verifier::external_body]
pub struct ExMatches(getopts::Matches);

/// The options that `opts` declares, in the order of their declaration, each
/// as its short and its long name.
pub uninterp spec fn declared(opts: Options) -> Seq<(Seq<char>, Seq<char>)>;

/// Every option that `opts` declares is a flag, which takes no argument and
/// may occur at most once, and `opts` parses in the style it was created with.
pub uninterp spec fn flags_only(opts: Options) -> bool;

/// For each name that `m` defines, whether the option of that name was given.
pub uninterp spec fn presence(m: Matches) -> Map<Seq<char>, bool>;

/// The free arguments of `m`, those that are no options, in their order.
pub uninterp spec fn free_of(m: Matches) -> Seq<Seq<char>>;

/// What `getopts` makes of the arguments `args` when the flags `flags` are
/// declared: for each defined name whether its flag was given, and the free
/// arguments; or the kind of failure and the option at fault.
pub uninterp spec fn parse_outcome(flags: Seq<(Seq<char>, Seq<char>)>, args: Seq<Seq<char>>) -> Result<
    (Map<Seq<char>, bool>, Seq<Seq<char>>),
    (ArgsErrorKind, Seq<char>),
>;

/// What a parse returned, as plain values: for each defined name whether its
/// option was given, and the free arguments; or the kind of failure and the
/// option at fault.
pub open spec fn parsed(res: Result<Matches, ArgsError>) -> Result<
    (Map<Seq<char>, bool>, Seq<Seq<char>>),
    (ArgsErrorKind, Seq<char>),
> {
    match res {
        Ok(m) => Ok((presence(m), free_of(m))),
        Err(e) => Err(e@),
    }
}

/// The names that the flags `flags` define: every short and every long name
/// that is not empty.
pub open spec fn names_of(flags: Seq<(Seq<char>, Seq<char>)>) -> Set<Seq<char>> {
    Set::new(
        |name: Seq<char>|
            name.len() > 0 && exists|i: int|
                0 <= i < flags.len() && (#[trigger] flags[i].0 == name || flags[i].1 == name),
    )
}

/// Every flag of `flags` has a short or a long name.
pub open spec fn all_named(flags: Seq<(Seq<char>, Seq<char>)>) -> bool {
    forall|i: int| 0 <= i < flags.len() ==> (#[trigger] flags[i]).0.len() + flags[i].1.len() > 0
}

/// Assumed of `getopts::Options::new`: the options it returns declare
/// nothing.
pub assume_specification[ Options::new ]() -> (opts: Options)
    ensures
        flags_only(opts),
        declared(opts) == Seq::<(Seq<char>, Seq<char>)>::empty(),
;

/// Calls `getopts::Options::optflag`. Assumed of it: it declares one more
/// flag, after those declared before, and changes nothing else. It panics
/// unless the short name is empty or one byte long and the long name is empty
/// or longer than one byte.
#[verifier::external_body]
pub(crate) fn add_flag(opts: &mut Options, short_name: &str, long_name: &str, desc: &str)
    requires
        encode_utf8(short_name@).len() <= 1,
        encode_utf8(long_name@).len() != 1,
    ensures
        flags_only(*final(opts)) == flags_only(*old(opts)),
        declared(*final(opts)) == declared(*old(opts)).push((short_name@, long_name@)),
{
    opts.optflag(short_name, long_name, desc);
}

/// Calls `getopts::Options::parse`. Assumed of it: where only flags are
/// declared, what it returns depends on their names and on the arguments
/// alone, and the matches it returns define the names of the declared flags
/// and no other. It panics on a declared option without any name. A failure
/// is handed on as its kind and the option that it names.
#[verifier::external_body]
pub(crate) fn parse(opts: &Options, args: &[String]) -> (res: Result<Matches, ArgsError>)
    requires
        flags_only(*opts),
        all_named(declared(*opts)),
    ensures
        parsed(res) == parse_outcome(declared(*opts), args.deep_view()),
        res matches Ok(m) ==> presence(m).dom() == names_of(declared(*opts)),
{
    match opts.parse(args) {
        Ok(m) => Ok(m),
        Err(Fail::ArgumentMissing(option)) =>
            Err(ArgsError { kind: ArgsErrorKind::ArgumentMissing, option }),
        Err(Fail::UnrecognizedOption(option)) =>
            Err(ArgsError { kind: ArgsErrorKind::UnrecognizedOption, option }),
        Err(Fail::OptionMissing(option)) =>
            Err(ArgsError { kind: ArgsErrorKind::OptionMissing, option }),
        Err(Fail::OptionDuplicated(option)) =>
            Err(ArgsError { kind: ArgsErrorKind::OptionDuplicated, option }),
        Err(Fail::UnexpectedArgument(option)) =>
            Err(ArgsError { kind: ArgsErrorKind::UnexpectedArgument, option }),
    }
}

/// Assumed of `getopts::Matches::opt_present`: it tells whether the option of
/// a defined name was given. It panics on a name that is not defined.
pub assume_specification[ Matches::opt_present ](m: &Matches, name: &str) -> (given: bool)
    requires
        presence(*m).dom().contains(name@),
    ensures
        given == presence(*m)[name@],
;

/// Copies the field `free` of `getopts::Matches`. Assumed of it: it holds the
/// free arguments.
#[verifier::external_body]
pub(crate) fn free_args(m: &Matches) -> (args: Vec<String>)
    ensures
        args.deep_view() == free_of(*m),
{
    m.free.clone()
}

} // verus!
