//! The pipeline executor. A pipeline runs its stages strictly left to
//! right, carrying one byte buffer — the previous stage's standard output —
//! into the next stage. A built-in stage is executed in-process from the
//! data the driver fetched for it; an external stage is run by the driver,
//! which reports what the child produced. A stage's standard error is
//! emitted as soon as the stage completes and is never carried forward; a
//! failed stage contributes an empty carry and the pipeline goes on. The
//! exit signal anywhere in a pipeline ends the whole run at once,
//! abandoning the remaining stages. A single command runs as the degenerate
//! one-stage pipeline, through this same code path.
//!
//! This crate performs no process or filesystem work itself: the session
//! tells the driver what is needed (`Request`), the driver answers
//! (`StageData`), and everything between those answers is verified.
use vstd::prelude::*;

verus! {

use crate::commands::command::{
    builtin_effect, stage_view, stage_views, BuiltinData, BuiltinDataV, Command, CommandV, Kind,
};
use crate::commands::utils::{construct_paths, spec_construct_paths};
use crate::outputhandler::OutputHandler;
use crate::text::{chars_to_string, spec_split_on, split_on, str_chars, string_views};
use vstd::string::{StrSliceExecFns, StringExecFns};
use vstd::utf8::encode_utf8;

/// What one stage, or a whole pipeline, produced: the bytes bound for
/// standard output and standard error, and the exit status of the most
/// recent external stage that ran, if any.
pub struct ExecutionResult {
    pub stdout: Vec<u8>,
    pub stderr: Vec<u8>,
    pub status: Option<i32>,
}

/// Ghost image of `ExecutionResult`.
pub struct ExecutionResultV {
    pub stdout: Seq<u8>,
    pub stderr: Seq<u8>,
    pub status: Option<i32>,
}

impl View for ExecutionResult {
    type V = ExecutionResultV;

    open spec fn view(&self) -> ExecutionResultV {
        ExecutionResultV { stdout: self.stdout@, stderr: self.stderr@, status: self.status }
    }
}

/// What the driver observed of an external stage that was spawned.
pub struct RunOutput {
    pub stdout: Vec<u8>,
    pub stderr: Vec<u8>,
    pub status: i32,
}

/// Ghost image of `RunOutput`.
pub struct RunOutputV {
    pub stdout: Seq<u8>,
    pub stderr: Seq<u8>,
    pub status: i32,
}

impl View for RunOutput {
    type V = RunOutputV;

    open spec fn view(&self) -> RunOutputV {
        RunOutputV { stdout: self.stdout@, stderr: self.stderr@, status: self.status }
    }
}

/// The driver's answer for one stage: nothing for the stages that need no
/// outside work, the fetched data for a built-in, and for an external stage
/// the resolution failure, the spawn failure, or what the child produced.
pub enum StageData {
    Nothing,
    Builtin(BuiltinData),
    NotFound,
    SpawnFailed(String),
    Ran(RunOutput),
}

/// Ghost image of `StageData`.
pub enum StageDataV {
    Nothing,
    Builtin(BuiltinDataV),
    NotFound,
    SpawnFailed(Seq<char>),
    Ran(RunOutputV),
}

impl View for StageData {
    type V = StageDataV;

    open spec fn view(&self) -> StageDataV {
        match self {
            StageData::Nothing => StageDataV::Nothing,
            StageData::Builtin(b) => StageDataV::Builtin(b@),
            StageData::NotFound => StageDataV::NotFound,
            StageData::SpawnFailed(m) => StageDataV::SpawnFailed(m@),
            StageData::Ran(o) => StageDataV::Ran(o@),
        }
    }
}

/// The outside work the next stage needs from the driver.
pub enum Request {
    /// Every stage has run; `finish` may be called.
    Finished,
    /// The stage needs no outside work: answer with `StageData::Nothing`.
    Internal,
    /// An `ls` stage: report a `Listing` for each of these paths, in order.
    ListDirs(Vec<String>),
    /// A `cat` stage: report a `FileRead` for each of these paths, in order.
    ReadFiles(Vec<String>),
    /// An external stage: run it as described.
    Run(RunSpec),
}

/// How an external stage is to be run: the program name to resolve on the
/// search path, its argument vector (positional arguments first, then the
/// flags, as they were encountered), and the bytes to feed to its input
/// stream, which is to be closed once they are written.
pub struct RunSpec {
    pub program: String,
    pub argv: Vec<String>,
    pub input: Vec<u8>,
}

/// Whether the driver's answer is of the shape the stage asks for.
pub open spec fn data_fits(c: CommandV, d: StageDataV) -> bool {
    match c {
        CommandV::Ls(_) => d matches StageDataV::Builtin(b) && b is Ls,
        CommandV::Cat(_) => d matches StageDataV::Builtin(b) && b is Cat,
        CommandV::Pwd(_) => d is Nothing,
        CommandV::Exit => d is Nothing,
        CommandV::Empty => d is Nothing,
        CommandV::Piped(_) => d is Nothing,
        CommandV::Program(_) => d is NotFound || d is SpawnFailed || d is Ran,
    }
}

/// The built-in payload of an answer, if it carries one.
pub open spec fn spec_builtin_data(d: StageDataV) -> BuiltinDataV {
    match d {
        StageDataV::Builtin(b) => b,
        _ => BuiltinDataV::Nothing,
    }
}

/// The paths a `cat` stage reads: its file arguments made absolute. With
/// no file arguments `cat` reads nothing beyond the pipe, unlike `ls`,
/// which lists the working directory when it is given no arguments.
pub open spec fn spec_cat_paths(
    files: Seq<Seq<char>>,
    cwd: Seq<char>,
    home: Seq<char>,
) -> Seq<Seq<char>> {
    if files.len() == 0 {
        Seq::empty()
    } else {
        spec_construct_paths(files, cwd, home)
    }
}

/// The piped input a stage at position `idx` sees: none for the first
/// stage, the carried buffer for every later one.
pub open spec fn spec_piped(idx: int, carry: Seq<u8>) -> Option<Seq<u8>> {
    if idx == 0 {
        None
    } else {
        Some(carry)
    }
}

/// What one non-exit stage does with the carried buffer: the new carry,
/// the standard-error bytes emitted for the stage, and the stage's exit
/// status when it was an external program that ran.
pub struct StageOut {
    pub carry: Seq<u8>,
    pub emit: Seq<u8>,
    pub status: Option<i32>,
}

/// The outcome of one non-exit stage. A built-in renders into an empty
/// handler and its standard output becomes the carry; an unresolved or
/// unspawnable external stage reports an error and contributes an empty
/// carry; an external stage that ran hands over exactly what the child
/// produced; a no-op stage passes the carry through untouched.
pub open spec fn spec_stage_out(
    c: CommandV,
    d: StageDataV,
    cwd: Seq<char>,
    piped: Option<Seq<u8>>,
    carry: Seq<u8>,
) -> StageOut {
    if c is Ls || c is Cat || c is Pwd {
        let eff = builtin_effect(
            (Seq::<char>::empty(), Seq::<char>::empty()),
            c,
            cwd,
            piped,
            spec_builtin_data(d),
        );
        StageOut { carry: encode_utf8(eff.0), emit: encode_utf8(eff.1), status: None }
    } else if c is Program {
        let pc = c->Program_0;
        match d {
            StageDataV::NotFound => StageOut {
                carry: Seq::empty(),
                emit: encode_utf8(pc.cmd + " is not defined in path"@),
                status: None,
            },
            StageDataV::SpawnFailed(m) => StageOut {
                carry: Seq::empty(),
                emit: encode_utf8(m),
                status: None,
            },
            StageDataV::Ran(o) => StageOut { carry: o.stdout, emit: o.stderr, status: Some(o.status) },
            _ => StageOut { carry, emit: Seq::empty(), status: None },
        }
    } else {
        StageOut { carry, emit: Seq::empty(), status: None }
    }
}

/// Ghost image of a pipeline session.
pub struct SessionV {
    pub stages: Seq<CommandV>,
    pub idx: int,
    pub carry: Seq<u8>,
    pub err: Seq<u8>,
    pub status: Option<i32>,
    pub exited: bool,
    pub cwd: Seq<char>,
    pub home: Seq<char>,
}

/// The session after one step on the driver's answer `d`. The exit signal
/// abandons the remaining stages at once; any other stage advances by one,
/// replaces the carry, and logs what it emitted.
pub open spec fn spec_step(v: SessionV, d: StageDataV) -> SessionV {
    let c = v.stages[v.idx];
    if c is Exit {
        SessionV {
            stages: v.stages,
            idx: v.stages.len() as int,
            carry: v.carry,
            err: v.err,
            status: v.status,
            exited: true,
            cwd: v.cwd,
            home: v.home,
        }
    } else {
        let out = spec_stage_out(c, d, v.cwd, spec_piped(v.idx, v.carry), v.carry);
        SessionV {
            stages: v.stages,
            idx: v.idx + 1,
            carry: out.carry,
            err: v.err + out.emit,
            status: if out.status is Some {
                out.status
            } else {
                v.status
            },
            exited: v.exited,
            cwd: v.cwd,
            home: v.home,
        }
    }
}

/// The standard-error bytes one step emits.
pub open spec fn spec_emit(v: SessionV, d: StageDataV) -> Seq<u8> {
    let c = v.stages[v.idx];
    if c is Exit {
        Seq::empty()
    } else {
        spec_stage_out(c, d, v.cwd, spec_piped(v.idx, v.carry), v.carry).emit
    }
}

/// The stages a parsed command stands for: a pipeline contributes its
/// stages, anything else is the one stage of a degenerate pipeline.
pub open spec fn spec_pipeline_stages(c: CommandV) -> Seq<CommandV> {
    match c {
        CommandV::Piped(v) => v,
        _ => seq![c],
    }
}

/// What one step of a pipeline run reported back to the driver.
pub enum Step {
    /// The stage completed; these standard-error bytes are to be shown now.
    Progressed(Vec<u8>),
    /// The stage was the exit signal: the run is over and the interactive
    /// loop is to terminate.
    ExitRequested,
}

/// A pipeline execution in progress: the classified stages, the position
/// of the next stage to run, the carried buffer, and the log of everything
/// emitted to standard error so far. The working and home directories are
/// fixed for the whole run; this interpreter has no way to change them.
pub struct PipeSession {
    stages: Vec<Command>,
    idx: usize,
    carry: Vec<u8>,
    err: Vec<u8>,
    status: Option<i32>,
    exited: bool,
    cwd: String,
    home: String,
}

impl View for PipeSession {
    type V = SessionV;

    closed spec fn view(&self) -> SessionV {
        SessionV {
            stages: stage_views(self.stages@),
            idx: self.idx as int,
            carry: self.carry@,
            err: self.err@,
            status: self.status,
            exited: self.exited,
            cwd: self.cwd@,
            home: self.home@,
        }
    }
}

/// The bytes of `v`, copied.
fn clone_bytes(v: &Vec<u8>) -> (r: Vec<u8>)
    ensures
        r@ == v@,
{
    let mut r: Vec<u8> = Vec::new();
    let mut i: usize = 0;
    while i < v.len()
        invariant
            i <= v@.len(),
            r@ == v@.take(i as int),
        decreases v@.len() - i,
    {
        r.push(v[i]);
        proof {
            assert(r@ =~= v@.take(i as int + 1));
        }
        i += 1;
    }
    proof {
        assert(v@.take(v@.len() as int) =~= v@);
    }
    r
}

impl PipeSession {
    /// The position never runs past the stage list.
    #[verifier::type_invariant]
    spec fn wf(self) -> bool {
        self.idx <= self.stages.len()
    }

    /// Starts a run of the given command as a pipeline, against the given
    /// working and home directories, with an empty carry: the first stage
    /// sees no piped input, and a first external stage is fed an empty,
    /// immediately-ending input stream.
    pub fn new(cmd: Command, cwd: String, home: String) -> (r: PipeSession)
        ensures
            r@.stages == spec_pipeline_stages(cmd@),
            r@.idx == 0,
            r@.carry == Seq::<u8>::empty(),
            r@.err == Seq::<u8>::empty(),
            r@.status is None,
            !r@.exited,
            r@.cwd == cwd@,
            r@.home == home@,
    {
        let stages: Vec<Command> = match cmd {
            Command::Piped(v) => v,
            other => {
                let ghost ov = stage_view(other);
                let mut s: Vec<Command> = Vec::new();
                s.push(other);
                proof {
                    assert(stage_views(s@) =~= seq![ov]);
                }
                s
            },
        };
        PipeSession {
            stages,
            idx: 0,
            carry: Vec::new(),
            err: Vec::new(),
            status: None,
            exited: false,
            cwd,
            home,
        }
    }

    /// Whether every stage has run (or the exit signal cut the run short).
    pub fn finished(&self) -> (b: bool)
        ensures
            b == (self@.idx == self@.stages.len()),
    {
        self.idx == self.stages.len()
    }

    /// Whether the run met the exit signal.
    pub fn exited(&self) -> (b: bool)
        ensures
            b == self@.exited,
    {
        self.exited
    }

    /// The carried buffer as it stands.
    pub fn carry(&self) -> (r: &Vec<u8>)
        ensures
            r@ == self@.carry,
    {
        &self.carry
    }

    /// The outside work the next stage needs. `ls` and `cat` name the
    /// constructed paths to inspect; an external stage names the program,
    /// its argument vector, and the input bytes to feed it.
    pub fn next_request(&self) -> (r: Request)
        ensures
            self@.idx == self@.stages.len() ==> r is Finished,
            self@.idx < self@.stages.len() ==> match self@.stages[self@.idx] {
                CommandV::Ls(fc) => r matches Request::ListDirs(p) && string_views(p@)
                    == spec_construct_paths(fc.files, self@.cwd, self@.home),
                CommandV::Cat(fc) => r matches Request::ReadFiles(p) && string_views(p@)
                    == spec_cat_paths(fc.files, self@.cwd, self@.home),
                CommandV::Program(pc) => r matches Request::Run(rs) && rs.program@ == pc.cmd
                    && string_views(rs.argv@) == pc.args + pc.flags && rs.input@ == self@.carry,
                _ => r is Internal,
            },
    {
        proof {
            use_type_invariant(self);
        }
        if self.idx == self.stages.len() {
            return Request::Finished;
        }
        match &self.stages[self.idx] {
            Command::Ls(fc) => Request::ListDirs(
                construct_paths(&fc.files, self.cwd.as_str(), self.home.as_str()),
            ),
            Command::Cat(fc) => {
                if fc.files.len() == 0 {
                    let none: Vec<String> = Vec::new();
                    proof {
                        assert(string_views(none@) =~= Seq::<Seq<char>>::empty());
                    }
                    Request::ReadFiles(none)
                } else {
                    Request::ReadFiles(
                        construct_paths(&fc.files, self.cwd.as_str(), self.home.as_str()),
                    )
                }
            },
            Command::Program(pc) => {
                let mut argv: Vec<String> = Vec::new();
                let ghost goal = string_views(pc.args@) + string_views(pc.flags@);
                let mut k: usize = 0;
                while k < pc.args.len()
                    invariant
                        k <= pc.args@.len(),
                        string_views(argv@) == string_views(pc.args@).take(k as int),
                    decreases pc.args@.len() - k,
                {
                    let ghost prev = string_views(argv@);
                    argv.push(pc.args[k].clone());
                    proof {
                        assert(string_views(argv@) =~= prev.push(pc.args@[k as int]@));
                        assert(string_views(pc.args@).take(k as int + 1) =~= string_views(
                            pc.args@,
                        ).take(k as int).push(pc.args@[k as int]@));
                    }
                    k += 1;
                }
                proof {
                    assert(string_views(pc.args@).take(pc.args@.len() as int) =~= string_views(
                        pc.args@,
                    ));
                }
                let mut k2: usize = 0;
                while k2 < pc.flags.len()
                    invariant
                        k2 <= pc.flags@.len(),
                        string_views(argv@) == string_views(pc.args@) + string_views(
                            pc.flags@,
                        ).take(k2 as int),
                    decreases pc.flags@.len() - k2,
                {
                    let ghost prev = string_views(argv@);
                    argv.push(pc.flags[k2].clone());
                    proof {
                        assert(string_views(argv@) =~= prev.push(pc.flags@[k2 as int]@));
                        assert(string_views(pc.flags@).take(k2 as int + 1) =~= string_views(
                            pc.flags@,
                        ).take(k2 as int).push(pc.flags@[k2 as int]@));
                        assert(string_views(pc.args@) + string_views(pc.flags@).take(
                            k2 as int,
                        ).push(pc.flags@[k2 as int]@) =~= string_views(pc.args@) + string_views(
                            pc.flags@,
                        ).take(k2 as int + 1));
                    }
                    k2 += 1;
                }
                proof {
                    assert(string_views(pc.flags@).take(pc.flags@.len() as int) =~= string_views(
                        pc.flags@,
                    ));
                }
                Request::Run(
                    RunSpec { program: pc.cmd.clone(), argv, input: clone_bytes(&self.carry) },
                )
            },
            _ => Request::Internal,
        }
    }

    /// Runs the next stage on the driver's answer. The exit signal ends
    /// the run at once; every other stage advances the session as
    /// `spec_step` describes and reports the standard-error bytes to show.
    pub fn step(&mut self, data: StageData) -> (r: Step)
        requires
            old(self)@.idx < old(self)@.stages.len(),
            data_fits(old(self)@.stages[old(self)@.idx], data@),
        ensures
            final(self)@ == spec_step(old(self)@, data@),
            r matches Step::Progressed(e) ==> e@ == spec_emit(old(self)@, data@),
            r is ExitRequested <==> old(self)@.stages[old(self)@.idx] is Exit,
    {
        let ghost ov = old(self)@;
        let i = self.idx;
        let n = self.stages.len();
        let kind = self.stages[i].kind();
        match kind {
            Kind::Exit => {
                self.idx = n;
                self.exited = true;
                Step::ExitRequested
            },
            Kind::Empty => {
                self.idx = i + 1;
                proof {
                    assert(self@ == spec_step(ov, data@));
                }
                Step::Progressed(Vec::new())
            },
            Kind::External => {
                let name = if let Command::Program(pc) = &self.stages[i] {
                    pc.cmd.clone()
                } else {
                    String::new()
                };
                match data {
                    StageData::NotFound => {
                        proof {
                            reveal_strlit(" is not defined in path");
                        }
                        let mut m = name;
                        m.append(" is not defined in path");
                        let emit = m.as_str().as_bytes_vec();
                        let mut log = clone_bytes(&self.err);
                        let mut logged = clone_bytes(&emit);
                        log.append(&mut logged);
                        self.err = log;
                        self.carry = Vec::new();
                        self.idx = i + 1;
                        proof {
                            assert(self@.err =~= ov.err + spec_emit(ov, data@));
                            assert(self@ == spec_step(ov, data@));
                        }
                        Step::Progressed(emit)
                    },
                    StageData::SpawnFailed(m) => {
                        let emit = m.as_str().as_bytes_vec();
                        let mut log = clone_bytes(&self.err);
                        let mut logged = clone_bytes(&emit);
                        log.append(&mut logged);
                        self.err = log;
                        self.carry = Vec::new();
                        self.idx = i + 1;
                        proof {
                            assert(self@.err =~= ov.err + spec_emit(ov, data@));
                            assert(self@ == spec_step(ov, data@));
                        }
                        Step::Progressed(emit)
                    },
                    StageData::Ran(out) => {
                        let mut log = clone_bytes(&self.err);
                        let mut logged = clone_bytes(&out.stderr);
                        log.append(&mut logged);
                        self.err = log;
                        self.carry = out.stdout;
                        self.status = Some(out.status);
                        self.idx = i + 1;
                        proof {
                            assert(self@.err =~= ov.err + spec_emit(ov, data@));
                            assert(self@ == spec_step(ov, data@));
                        }
                        Step::Progressed(out.stderr)
                    },
                    _ => {
                        // an external stage is only ever answered with
                        // NotFound, SpawnFailed or Ran
                        proof {
                            assert(false);
                        }
                        Step::Progressed(Vec::new())
                    },
                }
            },
            _ => {
                let bd = match data {
                    StageData::Builtin(b) => b,
                    _ => BuiltinData::Nothing,
                };
                let mut oh = OutputHandler::new();
                let piped_opt: Option<&Vec<u8>> = if i == 0 {
                    None
                } else {
                    Some(&self.carry)
                };
                self.stages[i].execute_builtin(&mut oh, self.cwd.as_str(), piped_opt, &bd);
                let out_text = oh.stdout();
                let err_text = oh.stderr();
                let out_bytes = out_text.as_str().as_bytes_vec();
                let emit = err_text.as_str().as_bytes_vec();
                let mut log = clone_bytes(&self.err);
                let mut logged = clone_bytes(&emit);
                log.append(&mut logged);
                self.err = log;
                self.carry = out_bytes;
                self.idx = i + 1;
                proof {
                    assert(self@.err =~= ov.err + spec_emit(ov, data@));
                    assert(self@ == spec_step(ov, data@));
                }
                Step::Progressed(emit)
            },
        }
    }

    /// The result of the whole run: the final carry is the pipeline's
    /// visible standard output, beside everything emitted to standard
    /// error along the way.
    pub fn finish(self) -> (r: ExecutionResult)
        requires
            self@.idx == self@.stages.len(),
        ensures
            r@.stdout == self@.carry,
            r@.stderr == self@.err,
            r@.status == self@.status,
    {
        ExecutionResult { stdout: self.carry, stderr: self.err, status: self.status }
    }
}

/// The directories of a search-path variable, split on `:`, empty entries
/// kept.
pub fn split_search_path(path_var: &str) -> (r: Vec<String>)
    ensures
        string_views(r@) == spec_split_on(path_var@, ':'),
{
    let chars = str_chars(path_var);
    let parts = split_on(&chars, ':');
    let mut r: Vec<String> = Vec::new();
    let ghost goal = spec_split_on(path_var@, ':');
    let mut i: usize = 0;
    while i < parts.len()
        invariant
            i <= parts@.len(),
            goal == crate::text::views_of(parts@),
            string_views(r@) == goal.take(i as int),
        decreases parts@.len() - i,
    {
        let ghost prev = string_views(r@);
        r.push(chars_to_string(&parts[i]));
        proof {
            assert(string_views(r@) =~= prev.push(parts@[i as int]@));
            assert(goal.take(i as int + 1) =~= goal.take(i as int).push(goal[i as int]));
        }
        i += 1;
    }
    proof {
        assert(goal.take(parts@.len() as int) =~= goal);
    }
    r
}

/// The full path of `name` inside `dir`: `name` alone when the directory
/// entry is empty, as an empty search-path entry stands for no prefix.
pub open spec fn spec_candidate(dir: Seq<char>, name: Seq<char>) -> Seq<char> {
    if dir.len() == 0 {
        name
    } else {
        dir + seq!['/'] + name
    }
}

/// The candidate full paths for `name` in the given directories, in order.
pub fn search_candidates(name: &str, dirs: &Vec<String>) -> (r: Vec<String>)
    ensures
        r@.len() == dirs@.len(),
        forall|i: int| 0 <= i < r@.len() ==> r@[i]@ == spec_candidate(dirs@[i]@, name@),
{
    let mut r: Vec<String> = Vec::new();
    let mut i: usize = 0;
    while i < dirs.len()
        invariant
            i <= dirs@.len(),
            r@.len() == i,
            forall|j: int| 0 <= j < i ==> r@[j]@ == spec_candidate(dirs@[j]@, name@),
        decreases dirs@.len() - i,
    {
        proof {
            reveal_strlit("/");
        }
        if dirs[i].as_str().unicode_len() == 0 {
            r.push(String::from_str(name));
        } else {
            let mut c = dirs[i].clone();
            c.append("/");
            c.append(name);
            proof {
                assert("/"@ =~= seq!['/']);
            }
            r.push(c);
        }
        i += 1;
    }
    r
}

/// The index of the first directory whose candidate exists, if any: the
/// search path is walked in listed order and the first match wins.
pub fn first_hit(exists: &Vec<bool>) -> (r: Option<usize>)
    ensures
        match r {
            Some(i) => i < exists@.len() && exists@[i as int] && forall|j: int|
                0 <= j < i ==> !exists@[j],
            None => forall|j: int| 0 <= j < exists@.len() ==> !exists@[j],
        },
{
    let mut i: usize = 0;
    while i < exists.len()
        invariant
            i <= exists@.len(),
            forall|j: int| 0 <= j < i ==> !exists@[j],
        decreases exists@.len() - i,
    {
        if exists[i] {
            return Some(i);
        }
        i += 1;
    }
    None
}

} // verus!
