//! The laws of the engine, stated and proved once over the specification
//! functions that the executable functions' contracts are written in.
use vstd::prelude::*;

verus! {

use crate::commands::cat::{cat_effect, FileReadV};
use crate::commands::command::{
    is_flag_token, spec_classify, spec_flag_tokens, spec_plain_tokens, Kind,
};
use crate::commands::ls::{
    ls_effect, ls_entries_effect, ls_listing_effect, EntryNameV, ListingV,
};
use crate::pipeline::{spec_emit, spec_pipeline_stages, spec_step, SessionV, StageDataV};
use crate::spec_parse;
use crate::text::contains_char;
use vstd::utf8::{encode_utf8, valid_utf8};

/// A line without a pipe character always constructs a pipeline of exactly
/// one stage: the empty line's no-op stage, or the single stage the whole
/// line denotes.
pub proof fn lemma_no_pipe_single_stage(line: Seq<char>)
    requires
        !contains_char(line, '|'),
    ensures
        spec_pipeline_stages(spec_parse(line)).len() == 1,
        spec_pipeline_stages(spec_parse(line))[0] == spec_parse(line),
{
    assert(!(spec_parse(line) is Piped));
}

/// The flag/argument partition of a stage's tokens is stable: each side is
/// exactly the tokens passing (or failing) the flag test, in encounter
/// order, however flags and arguments are interleaved.
pub proof fn lemma_partition_stable(ts: Seq<Seq<char>>)
    ensures
        spec_flag_tokens(ts) == ts.filter(|t: Seq<char>| is_flag_token(t)),
        spec_plain_tokens(ts) == ts.filter(|t: Seq<char>| !is_flag_token(t)),
    decreases ts.len(),
{
    reveal(Seq::filter);
    if ts.len() == 0 {
        assert(ts =~= Seq::<Seq<char>>::empty());
    } else {
        lemma_partition_stable(ts.drop_last());
    }
}

/// Classification is a case-sensitive exact match on the four recognized
/// names; every other name — the empty one and flag-like ones included —
/// is external, and no name classifies as the empty stage.
pub proof fn lemma_classify_exact(name: Seq<char>)
    ensures
        (spec_classify(name) == Kind::BuiltinLs) <==> name == "ls"@,
        (spec_classify(name) == Kind::BuiltinPwd) <==> name == "pwd"@,
        (spec_classify(name) == Kind::BuiltinCat) <==> name == "cat"@,
        (spec_classify(name) == Kind::Exit) <==> name == "exit"@,
        (spec_classify(name) == Kind::External) <==> (name != "ls"@ && name != "pwd"@ && name
            != "cat"@ && name != "exit"@),
        spec_classify(name) != Kind::Empty,
{
    reveal_strlit("ls");
    reveal_strlit("pwd");
    reveal_strlit("cat");
    reveal_strlit("exit");
    assert("ls"@ =~= seq!['l', 's']);
    assert("pwd"@ =~= seq!['p', 'w', 'd']);
    assert("cat"@ =~= seq!['c', 'a', 't']);
    assert("exit"@ =~= seq!['e', 'x', 'i', 't']);
}

/// What a `pwd` stage hands to the next stage depends on the working
/// directory alone: two sessions whose directories agree produce the same
/// carry from their `pwd` stages, whatever their histories — so running
/// `pwd` twice with no directory change in between prints the same text
/// both times.
pub proof fn lemma_pwd_depends_only_on_cwd(
    v1: SessionV,
    v2: SessionV,
    d1: StageDataV,
    d2: StageDataV,
)
    requires
        0 <= v1.idx < v1.stages.len(),
        0 <= v2.idx < v2.stages.len(),
        v1.stages[v1.idx] is Pwd,
        v2.stages[v2.idx] is Pwd,
        v1.cwd == v2.cwd,
    ensures
        spec_step(v1, d1).carry == spec_step(v2, d2).carry,
        spec_step(v1, d1).carry == encode_utf8(seq!['\n'] + v1.cwd),
{
}

/// The names listed for one readable directory, each preceded by the
/// line separator, in the order the filesystem enumerated them.
pub open spec fn spec_joined_names(names: Seq<Seq<char>>) -> Seq<char>
    decreases names.len(),
{
    if names.len() == 0 {
        Seq::empty()
    } else {
        spec_joined_names(names.drop_last()) + seq!['\n'] + names.last()
    }
}

/// The entry list of a directory whose names are all representable.
pub open spec fn spec_text_entries(names: Seq<Seq<char>>) -> Seq<EntryNameV> {
    names.map_values(|n: Seq<char>| EntryNameV::Text(n))
}

proof fn lemma_entries_all_text(acc: (Seq<char>, Seq<char>), names: Seq<Seq<char>>)
    ensures
        ls_entries_effect(acc, spec_text_entries(names)) == (
            acc.0 + spec_joined_names(names),
            acc.1,
        ),
    decreases names.len(),
{
    let es = spec_text_entries(names);
    if names.len() == 0 {
        assert(acc.0 + spec_joined_names(names) =~= acc.0);
    } else {
        lemma_entries_all_text(acc, names.drop_last());
        assert(es.drop_last() =~= spec_text_entries(names.drop_last()));
        assert(es.last() == EntryNameV::Text(names.last()));
        assert(acc.0 + spec_joined_names(names.drop_last()) + seq!['\n'] + names.last() =~= acc.0
            + spec_joined_names(names));
    }
}

/// Listing one readable directory prints the directory label and then
/// every entry name, in the filesystem's enumeration order, and puts
/// nothing on standard error.
pub proof fn lemma_ls_directory_output(label: Seq<char>, names: Seq<Seq<char>>)
    ensures
        ls_effect(
            (Seq::<char>::empty(), Seq::<char>::empty()),
            seq![ListingV::Directory { label, entries: spec_text_entries(names) }],
        ).0 == seq!['\n'] + label + ": "@ + spec_joined_names(names) + seq!['\n'] + seq!['\n'],
        ls_effect(
            (Seq::<char>::empty(), Seq::<char>::empty()),
            seq![ListingV::Directory { label, entries: spec_text_entries(names) }],
        ).1 == Seq::<char>::empty(),
{
    let l = ListingV::Directory { label, entries: spec_text_entries(names) };
    let ls = seq![l];
    assert(ls.drop_last() =~= Seq::<ListingV>::empty());
    assert(ls.last() == l);
    let acc: (Seq<char>, Seq<char>) = (Seq::empty(), Seq::empty());
    assert(ls_effect(acc, Seq::<ListingV>::empty()) == acc);
    assert(ls_effect(acc, ls) == ls_listing_effect(acc, l));
    let header = (acc.0 + seq!['\n'] + label + ": "@, acc.1);
    lemma_entries_all_text(header, names);
    assert(header.0 + spec_joined_names(names) + seq!['\n'] + seq!['\n'] =~= seq!['\n'] + label
        + ": "@ + spec_joined_names(names) + seq!['\n'] + seq!['\n']);
}

/// Piping text into `cat` is the same as letting `cat` read one file that
/// holds exactly those bytes: the two runs print the same output.
pub proof fn lemma_pipe_into_cat_matches_file(
    acc: (Seq<char>, Seq<char>),
    label: Seq<char>,
    b: Seq<u8>,
)
    requires
        valid_utf8(b),
    ensures
        cat_effect(acc, Seq::empty(), Some(b)) == cat_effect(
            acc,
            seq![FileReadV::Data { label, bytes: b }],
            None,
        ),
{
    let fs = seq![FileReadV::Data { label, bytes: b }];
    assert(fs.drop_last() =~= Seq::<FileReadV>::empty());
    assert(fs.last() == FileReadV::Data { label, bytes: b });
    assert(crate::commands::cat::cat_reads_effect(acc, Seq::<FileReadV>::empty()) == acc);
}

proof fn lemma_ls_all_inaccessible(acc: (Seq<char>, Seq<char>), listings: Seq<ListingV>)
    requires
        forall|i: int| 0 <= i < listings.len() ==> listings[i] is Inaccessible,
    ensures
        ls_effect(acc, listings).0 == acc.0,
        ls_effect(acc, listings).1.len() >= acc.1.len() + listings.len(),
    decreases listings.len(),
{
    if listings.len() > 0 {
        lemma_ls_all_inaccessible(acc, listings.drop_last());
    }
}

/// A failing first stage is isolated: an `ls` stage whose every path is
/// inaccessible reports the failure to standard error, contributes an
/// empty carry, and the pipeline goes on — a following `pwd` stage still
/// runs and still reports the working directory.
pub proof fn lemma_failure_isolation(v: SessionV, listings: Seq<ListingV>)
    requires
        0 <= v.idx,
        v.idx + 1 < v.stages.len(),
        v.stages[v.idx] is Ls,
        v.stages[v.idx + 1] is Pwd,
        listings.len() > 0,
        forall|i: int| 0 <= i < listings.len() ==> listings[i] is Inaccessible,
    ensures
        ({
            let d = StageDataV::Builtin(crate::commands::command::BuiltinDataV::Ls(listings));
            let v1 = spec_step(v, d);
            &&& v1.idx == v.idx + 1
            &&& v1.carry == Seq::<u8>::empty()
            &&& spec_emit(v, d) == encode_utf8(
                ls_effect((Seq::<char>::empty(), Seq::<char>::empty()), listings).1,
            )
            &&& ls_effect((Seq::<char>::empty(), Seq::<char>::empty()), listings).1.len() > 0
            &&& spec_step(v1, StageDataV::Nothing).carry == encode_utf8(seq!['\n'] + v.cwd)
            &&& spec_step(v1, StageDataV::Nothing).idx == v.idx + 2
        }),
{
    let acc: (Seq<char>, Seq<char>) = (Seq::empty(), Seq::empty());
    lemma_ls_all_inaccessible(acc, listings);
    let d = StageDataV::Builtin(crate::commands::command::BuiltinDataV::Ls(listings));
    assert(ls_effect(acc, listings).0 =~= Seq::<char>::empty());
    assert(encode_utf8(Seq::<char>::empty()) =~= Seq::<u8>::empty());
}

/// A single-stage pipeline whose command name is not on the search path
/// yields an empty standard output and a message naming the command.
pub proof fn lemma_unknown_command(v: SessionV)
    requires
        0 <= v.idx < v.stages.len(),
        v.stages[v.idx] is Program,
    ensures
        spec_step(v, StageDataV::NotFound).carry == Seq::<u8>::empty(),
        spec_emit(v, StageDataV::NotFound) == encode_utf8(
            (v.stages[v.idx]->Program_0).cmd + " is not defined in path"@,
        ),
        spec_step(v, StageDataV::NotFound).idx == v.idx + 1,
{
}

} // verus!
