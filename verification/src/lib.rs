//! A small interactive command interpreter, organized around a verified
//! pipeline engine: an input line is split into stages on the pipe
//! character, each stage is classified as a built-in, the exit signal, or
//! an external program, and the stages run in order with the previous
//! stage's standard output fed to the next stage as its input. All I/O —
//! reading lines, touching the filesystem, spawning children — belongs to
//! the driver around this library; everything between those edges is
//! specified and verified.
pub mod commands;
pub mod config;
pub mod laws;
pub mod pipeline;
pub mod outputhandler;
pub mod text;

use vstd::prelude::*;

verus! {

use crate::commands::command::{cmd_view, spec_stage, stage_view, stage_views, Command, CommandV};
use crate::config::Config;
use crate::text::{
    chars_to_string, contains_char, contains_char_exec, spec_split_on, split_on, str_chars,
    views_of,
};

/// The command an input line denotes: nothing for an empty line, a single
/// stage for a line without a pipe, and a pipeline of one stage per
/// section otherwise.
pub open spec fn spec_parse(line: Seq<char>) -> CommandV {
    if line.len() == 0 {
        CommandV::Empty
    } else if contains_char(line, '|') {
        CommandV::Piped(spec_split_on(line, '|').map_values(|s: Seq<char>| spec_stage(s)))
    } else {
        spec_stage(line)
    }
}

/// Parses an input line into the command it denotes.
pub fn parse_input(input: &str) -> (r: Command)
    ensures
        r@ == spec_parse(input@),
{
    let chars = str_chars(input);
    if chars.len() == 0 {
        return Command::Empty;
    }
    if contains_char_exec(&chars, '|') {
        let sections = split_on(&chars, '|');
        let ghost sv = views_of(sections@);
        let ghost goal = spec_split_on(input@, '|').map_values(|s: Seq<char>| spec_stage(s));
        let mut cmds: Vec<Command> = Vec::new();
        let mut i: usize = 0;
        while i < sections.len()
            invariant
                i <= sections@.len(),
                sv == views_of(sections@),
                goal == sv.map_values(|s: Seq<char>| spec_stage(s)),
                stage_views(cmds@) == goal.take(i as int),
            decreases sections@.len() - i,
        {
            let text = chars_to_string(&sections[i]);
            let ghost prev = stage_views(cmds@);
            let one = Command::new(text.as_str());
            proof {
                assert(cmd_view(one) == spec_stage(sv[i as int]));
                assert(stage_view(one) == cmd_view(one)) by {
                    if one is Piped {
                        assert(cmd_view(one) is Piped);
                    }
                }
            }
            cmds.push(one);
            proof {
                assert(stage_views(cmds@) =~= prev.push(stage_view(one)));
                assert(goal.take(i as int + 1) =~= goal.take(i as int).push(goal[i as int]));
            }
            i += 1;
        }
        proof {
            assert(goal.take(sections@.len() as int) =~= goal);
        }
        return Command::Piped(cmds);
    }
    Command::new(input)
}

/// A fresh default configuration for a new interpreter session. The
/// driver then records the real user, host and working directory on it,
/// and may replace it with what `parse_config_file` read.
pub fn initialize() -> (r: Config)
    ensures
        r@.prompt == Seq::<char>::empty(),
        r@.user && r@.host && r@.cwd,
        r@.separator1.enabled && r@.separator1.value == crate::config::SEPARATOR1,
        r@.separator2.enabled && r@.separator2.value == crate::config::SEPARATOR2,
        r@.end.enabled && r@.end.value == crate::config::END,
{
    Config::default()
}

} // verus!
