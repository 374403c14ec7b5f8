//! The stage model: one pipeline segment, its classification, and the
//! parsing of a stage out of its text. A stage's kind is determined solely
//! by its first token; every other token is partitioned into flags (tokens
//! beginning with `-`) and positional arguments, order preserved. Unknown
//! names always classify as external programs; resolution failures surface
//! only at execution time.
use vstd::prelude::*;

verus! {

use crate::commands::cat;
use crate::commands::cat::{cat_effect, piped_view, read_views, FileRead, FileReadV};
use crate::commands::ls;
use crate::commands::ls::{listing_views, ls_effect, Listing, ListingV};
use crate::commands::pwd;
use crate::commands::pwd::pwd_effect;
use crate::outputhandler::OutputHandler;
use crate::text::{chars_to_string, spec_tokens, str_chars, string_views, tokens_of, views_of};

/// Where a channel of a stage is directed: the terminal, or a named file.
/// Redirection is parsed and retained, but the pipeline executor sends all
/// output to the terminal; acting on `File` is left open.
pub enum Output {
    Standard,
    File(String),
}

/// Ghost image of `Output`.
pub enum OutputV {
    Standard,
    File(Seq<char>),
}

impl View for Output {
    type V = OutputV;

    open spec fn view(&self) -> OutputV {
        match self {
            Output::Standard => OutputV::Standard,
            Output::File(f) => OutputV::File(f@),
        }
    }
}

/// A built-in stage that takes only flags.
pub struct BasicCommand {
    pub flags: Vec<String>,
    pub output: (Output, Output),
}

/// Ghost image of `BasicCommand`.
pub struct BasicCommandV {
    pub flags: Seq<Seq<char>>,
    pub output: (OutputV, OutputV),
}

impl View for BasicCommand {
    type V = BasicCommandV;

    open spec fn view(&self) -> BasicCommandV {
        BasicCommandV { flags: string_views(self.flags@), output: (self.output.0@, self.output.1@) }
    }
}

/// A built-in stage that takes flags and file arguments.
pub struct FileCommand {
    pub flags: Vec<String>,
    pub files: Vec<String>,
    pub output: (Output, Output),
}

/// Ghost image of `FileCommand`.
pub struct FileCommandV {
    pub flags: Seq<Seq<char>>,
    pub files: Seq<Seq<char>>,
    pub output: (OutputV, OutputV),
}

impl View for FileCommand {
    type V = FileCommandV;

    open spec fn view(&self) -> FileCommandV {
        FileCommandV {
            flags: string_views(self.flags@),
            files: string_views(self.files@),
            output: (self.output.0@, self.output.1@),
        }
    }
}

/// A stage that names an external program, to be resolved on the search
/// path when the stage runs.
pub struct ProgramCommand {
    pub cmd: String,
    pub flags: Vec<String>,
    pub args: Vec<String>,
    pub output: (Output, Output),
}

/// Ghost image of `ProgramCommand`.
pub struct ProgramCommandV {
    pub cmd: Seq<char>,
    pub flags: Seq<Seq<char>>,
    pub args: Seq<Seq<char>>,
    pub output: (OutputV, OutputV),
}

impl View for ProgramCommand {
    type V = ProgramCommandV;

    open spec fn view(&self) -> ProgramCommandV {
        ProgramCommandV {
            cmd: self.cmd@,
            flags: string_views(self.flags@),
            args: string_views(self.args@),
            output: (self.output.0@, self.output.1@),
        }
    }
}

/// One pipeline stage: a built-in, the exit signal, an external program,
/// a whole pipeline of stages, or nothing.
pub enum Command {
    Ls(FileCommand),
    Pwd(BasicCommand),
    Cat(FileCommand),
    Exit,
    Program(ProgramCommand),
    Piped(Vec<Command>),
    Empty,
}

/// Ghost image of `Command`.
pub enum CommandV {
    Ls(FileCommandV),
    Pwd(BasicCommandV),
    Cat(FileCommandV),
    Exit,
    Program(ProgramCommandV),
    Piped(Seq<CommandV>),
    Empty,
}

/// The ghost image of a single stage. A pipeline is not itself a stage:
/// the parser never nests one inside another, so a nested pipeline is
/// pictured as the no-op stage, and the executor treats it the same way.
pub open spec fn stage_view(c: Command) -> CommandV {
    match c {
        Command::Ls(fc) => CommandV::Ls(fc@),
        Command::Pwd(bc) => CommandV::Pwd(bc@),
        Command::Cat(fc) => CommandV::Cat(fc@),
        Command::Exit => CommandV::Exit,
        Command::Program(pc) => CommandV::Program(pc@),
        Command::Piped(_) => CommandV::Empty,
        Command::Empty => CommandV::Empty,
    }
}

/// The ghost images of a sequence of stages.
pub open spec fn stage_views(v: Seq<Command>) -> Seq<CommandV> {
    Seq::new(v.len(), |i: int| stage_view(v[i]))
}

/// The ghost image of a command, the stages of a pipeline included.
pub open spec fn cmd_view(c: Command) -> CommandV {
    match c {
        Command::Piped(v) => CommandV::Piped(stage_views(v@)),
        _ => stage_view(c),
    }
}

impl View for Command {
    type V = CommandV;

    open spec fn view(&self) -> CommandV {
        cmd_view(*self)
    }
}

/// The classification of a stage by its command name.
#[derive(Clone, Copy, Debug, PartialEq, Eq, Structural)]
pub enum Kind {
    BuiltinLs,
    BuiltinPwd,
    BuiltinCat,
    Exit,
    External,
    Empty,
}

/// The fixed, case-sensitive mapping from a command name to its kind. Any
/// name other than the four recognized ones is external, the empty name and
/// names that look like flags included.
pub open spec fn spec_classify(name: Seq<char>) -> Kind {
    if name == "ls"@ {
        Kind::BuiltinLs
    } else if name == "pwd"@ {
        Kind::BuiltinPwd
    } else if name == "cat"@ {
        Kind::BuiltinCat
    } else if name == "exit"@ {
        Kind::Exit
    } else {
        Kind::External
    }
}

/// Classifies a command name. Never yields `Kind::Empty`: an empty stage is
/// recognized by having no tokens at all, not by its name.
pub fn classify(name: &Vec<char>) -> (k: Kind)
    ensures
        k == spec_classify(name@),
{
    proof {
        reveal_strlit("ls");
        reveal_strlit("pwd");
        reveal_strlit("cat");
        reveal_strlit("exit");
    }
    if name.len() == 2 && name[0] == 'l' && name[1] == 's' {
        proof {
            assert(name@ =~= "ls"@);
        }
        Kind::BuiltinLs
    } else if name.len() == 3 && name[0] == 'p' && name[1] == 'w' && name[2] == 'd' {
        proof {
            assert(name@ =~= "pwd"@);
        }
        Kind::BuiltinPwd
    } else if name.len() == 3 && name[0] == 'c' && name[1] == 'a' && name[2] == 't' {
        proof {
            assert(name@ =~= "cat"@);
        }
        Kind::BuiltinCat
    } else if name.len() == 4 && name[0] == 'e' && name[1] == 'x' && name[2] == 'i' && name[3]
        == 't' {
        proof {
            assert(name@ =~= "exit"@);
        }
        Kind::Exit
    } else {
        Kind::External
    }
}

/// Whether a token is a flag: it begins with `-`.
pub open spec fn is_flag_token(t: Seq<char>) -> bool {
    t.len() > 0 && t[0] == '-'
}

/// The flag tokens of `ts`, in encounter order, duplicates kept.
pub open spec fn spec_flag_tokens(ts: Seq<Seq<char>>) -> Seq<Seq<char>>
    decreases ts.len(),
{
    if ts.len() == 0 {
        Seq::empty()
    } else {
        let rest = spec_flag_tokens(ts.drop_last());
        if is_flag_token(ts.last()) {
            rest.push(ts.last())
        } else {
            rest
        }
    }
}

/// The non-flag tokens of `ts`, in encounter order.
pub open spec fn spec_plain_tokens(ts: Seq<Seq<char>>) -> Seq<Seq<char>>
    decreases ts.len(),
{
    if ts.len() == 0 {
        Seq::empty()
    } else {
        let rest = spec_plain_tokens(ts.drop_last());
        if is_flag_token(ts.last()) {
            rest
        } else {
            rest.push(ts.last())
        }
    }
}

/// The file named by the first redirection, if any: the token after the
/// first token that is exactly `>`. A trailing bare `>` names no file.
pub open spec fn spec_redirect(ts: Seq<Seq<char>>) -> Option<Seq<char>>
    decreases ts.len(),
{
    if ts.len() == 0 {
        None
    } else if ts[0] == seq!['>'] {
        if ts.len() >= 2 {
            Some(ts[1])
        } else {
            None
        }
    } else {
        spec_redirect(ts.drop_first())
    }
}

/// The output channels a token list asks for: standard output to the
/// redirection target when one is named, otherwise to the terminal.
pub open spec fn spec_output_of(ts: Seq<Seq<char>>) -> (OutputV, OutputV) {
    match spec_redirect(ts) {
        Some(f) => (OutputV::File(f), OutputV::Standard),
        None => (OutputV::Standard, OutputV::Standard),
    }
}

/// The stage a single pipeline section of text denotes.
pub open spec fn spec_stage(s: Seq<char>) -> CommandV {
    let ts = spec_tokens(s);
    if ts.len() == 0 {
        CommandV::Empty
    } else {
        let name = ts[0];
        let flags = spec_flag_tokens(ts.drop_first());
        let args = spec_plain_tokens(ts.drop_first());
        let out = spec_output_of(ts);
        match spec_classify(name) {
            Kind::BuiltinLs => CommandV::Ls(FileCommandV { flags, files: args, output: out }),
            Kind::BuiltinPwd => CommandV::Pwd(BasicCommandV { flags, output: out }),
            Kind::BuiltinCat => CommandV::Cat(FileCommandV { flags, files: args, output: out }),
            Kind::Exit => CommandV::Exit,
            _ => CommandV::Program(
                ProgramCommandV { cmd: name, flags, args, output: out },
            ),
        }
    }
}

/// Scans the tokens of `input` for a redirection request.
pub fn get_output_type(input: &str) -> (r: (Output, Output))
    ensures
        (r.0@, r.1@) == spec_output_of(spec_tokens(input@)),
{
    let chars = str_chars(input);
    let toks = tokens_of(&chars);
    let ghost ts = views_of(toks@);
    proof {
        assert(ts.skip(0) =~= ts);
    }
    let mut i: usize = 0;
    while i < toks.len()
        invariant
            i <= toks@.len(),
            ts == views_of(toks@),
            ts == spec_tokens(input@),
            spec_redirect(ts) == spec_redirect(ts.skip(i as int)),
        decreases toks@.len() - i,
    {
        proof {
            assert(ts.skip(i as int)[0] == ts[i as int]);
            assert(ts.skip(i as int).drop_first() =~= ts.skip(i as int + 1));
        }
        let t = &toks[i];
        if t.len() == 1 && t[0] == '>' {
            proof {
                assert(t@ == ts[i as int]);
                assert(ts[i as int] =~= seq!['>']);
            }
            if i + 1 < toks.len() {
                proof {
                    assert(ts.skip(i as int)[1] == ts[i as int + 1]);
                    assert(spec_redirect(ts.skip(i as int)) == Some(ts[i as int + 1]));
                }
                let f = chars_to_string(&toks[i + 1]);
                proof {
                    assert(f@ == ts[i as int + 1]);
                }
                return (Output::File(f), Output::Standard);
            } else {
                proof {
                    assert(ts.skip(i as int).len() < 2);
                    assert(spec_redirect(ts.skip(i as int)) is None);
                }
                return (Output::Standard, Output::Standard);
            }
        }
        proof {
            assert(ts[i as int] != seq!['>']) by {
                if ts[i as int] == seq!['>'] {
                    assert(t@ =~= ts[i as int]);
                }
            }
        }
        i += 1;
    }
    proof {
        assert(ts.skip(toks@.len() as int).len() == 0);
        assert(spec_redirect(ts.skip(toks@.len() as int)) is None);
    }
    (Output::Standard, Output::Standard)
}

impl Command {
    /// Parses one pipeline section: tokenizes it, classifies the first
    /// token, and partitions the rest into flags and arguments.
    pub fn new(input: &str) -> (r: Command)
        ensures
            r@ == spec_stage(input@),
    {
        let output = get_output_type(input);
        let chars = str_chars(input);
        let toks = tokens_of(&chars);
        let ghost ts = views_of(toks@);
        if toks.len() == 0 {
            return Command::Empty;
        }
        let mut flags: Vec<String> = Vec::new();
        let mut args: Vec<String> = Vec::new();
        let mut i: usize = 1;
        while i < toks.len()
            invariant
                1 <= i <= toks@.len(),
                ts == views_of(toks@),
                string_views(flags@) == spec_flag_tokens(ts.subrange(1, i as int)),
                string_views(args@) == spec_plain_tokens(ts.subrange(1, i as int)),
            decreases toks@.len() - i,
        {
            proof {
                assert(ts.subrange(1, i as int + 1).drop_last() =~= ts.subrange(1, i as int));
                assert(ts.subrange(1, i as int + 1).last() == ts[i as int]);
            }
            let t = &toks[i];
            let owned = chars_to_string(t);
            if t.len() > 0 && t[0] == '-' {
                let ghost prev = string_views(flags@);
                flags.push(owned);
                proof {
                    assert(string_views(flags@) =~= prev.push(ts[i as int]));
                }
            } else {
                let ghost prev = string_views(args@);
                args.push(owned);
                proof {
                    assert(string_views(args@) =~= prev.push(ts[i as int]));
                }
            }
            i += 1;
        }
        proof {
            assert(ts.subrange(1, ts.len() as int) =~= ts.drop_first());
        }
        let name = chars_to_string(&toks[0]);
        match classify(&toks[0]) {
            Kind::BuiltinLs => Command::Ls(FileCommand { flags, files: args, output }),
            Kind::BuiltinPwd => Command::Pwd(BasicCommand { flags, output }),
            Kind::BuiltinCat => Command::Cat(FileCommand { flags, files: args, output }),
            Kind::Exit => Command::Exit,
            _ => Command::Program(ProgramCommand { cmd: name, flags, args, output }),
        }
    }

    /// The classification of this stage. A nested pipeline is not itself
    /// a stage and counts as a no-op.
    pub fn kind(&self) -> (k: Kind)
        ensures
            k == spec_kind(stage_view(*self)),
    {
        match self {
            Command::Ls(_) => Kind::BuiltinLs,
            Command::Pwd(_) => Kind::BuiltinPwd,
            Command::Cat(_) => Kind::BuiltinCat,
            Command::Exit => Kind::Exit,
            Command::Program(_) => Kind::External,
            Command::Piped(_) => Kind::Empty,
            Command::Empty => Kind::Empty,
        }
    }
}

/// The outside data a built-in stage consumes: what the filesystem reported
/// for `ls`, what was read for `cat`, nothing for `pwd` or any other stage.
pub enum BuiltinData {
    Nothing,
    Ls(Vec<Listing>),
    Cat(Vec<FileRead>),
}

/// Ghost image of `BuiltinData`.
pub enum BuiltinDataV {
    Nothing,
    Ls(Seq<ListingV>),
    Cat(Seq<FileReadV>),
}

impl View for BuiltinData {
    type V = BuiltinDataV;

    open spec fn view(&self) -> BuiltinDataV {
        match self {
            BuiltinData::Nothing => BuiltinDataV::Nothing,
            BuiltinData::Ls(v) => BuiltinDataV::Ls(listing_views(v@)),
            BuiltinData::Cat(v) => BuiltinDataV::Cat(read_views(v@)),
        }
    }
}

/// Whether the data answers what the stage asks for.
pub open spec fn builtin_fits(c: CommandV, d: BuiltinDataV) -> bool {
    &&& (c is Ls ==> d is Ls)
    &&& (c is Cat ==> d is Cat)
}

/// The effect of a built-in stage on the output channels: `ls` renders the
/// listings, `cat` emits the reads and the piped input, `pwd` reports the
/// working directory, and every other stage leaves the channels alone.
pub open spec fn builtin_effect(
    acc: (Seq<char>, Seq<char>),
    c: CommandV,
    cwd: Seq<char>,
    piped: Option<Seq<u8>>,
    d: BuiltinDataV,
) -> (Seq<char>, Seq<char>) {
    match c {
        CommandV::Ls(_) => match d {
            BuiltinDataV::Ls(listings) => ls_effect(acc, listings),
            _ => acc,
        },
        CommandV::Cat(_) => match d {
            BuiltinDataV::Cat(reads) => cat_effect(acc, reads, piped),
            _ => acc,
        },
        CommandV::Pwd(_) => pwd_effect(acc, cwd),
        _ => acc,
    }
}

impl Command {
    /// Executes a built-in stage against the handler: dispatches to the
    /// `ls`, `cat` or `pwd` executor; any other stage is a no-op here.
    /// The filesystem data and the working directory are handed in by the
    /// caller; `piped` is the previous stage's output, if the stage has one.
    pub fn execute_builtin(
        &self,
        oh: &mut OutputHandler,
        cwd: &str,
        piped: Option<&Vec<u8>>,
        data: &BuiltinData,
    )
        requires
            builtin_fits(stage_view(*self), data@),
        ensures
            (final(oh)@.stdout, final(oh)@.stderr) == builtin_effect(
                (old(oh)@.stdout, old(oh)@.stderr),
                stage_view(*self),
                cwd@,
                piped_view(piped),
                data@,
            ),
    {
        match self {
            Command::Ls(_) => {
                if let BuiltinData::Ls(listings) = data {
                    ls::execute(oh, listings);
                }
            },
            Command::Cat(_) => {
                if let BuiltinData::Cat(reads) = data {
                    cat::execute(oh, reads, piped);
                }
            },
            Command::Pwd(_) => {
                pwd::execute(oh, cwd);
            },
            _ => {},
        }
    }
}

/// The kind of a stage view. A whole pipeline is not itself a stage; its
/// image is the no-op kind, as `stage_view` pictures it.
pub open spec fn spec_kind(c: CommandV) -> Kind {
    match c {
        CommandV::Ls(_) => Kind::BuiltinLs,
        CommandV::Pwd(_) => Kind::BuiltinPwd,
        CommandV::Cat(_) => Kind::BuiltinCat,
        CommandV::Exit => Kind::Exit,
        CommandV::Program(_) => Kind::External,
        CommandV::Piped(_) => Kind::Empty,
        CommandV::Empty => Kind::Empty,
    }
}

} // verus!
