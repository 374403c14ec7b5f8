//! The `cat` built-in: concatenates file contents. The files themselves are
//! read by the caller, which hands in one `FileRead` per requested path.
//! When the stage is fed by a pipe, the piped bytes are treated as one
//! further, implicit file and are emitted after the named ones. Content
//! that is not valid text produces a standard-error line instead of output.
//! Flags are accepted but have no effect.
use vstd::prelude::*;

verus! {

use crate::outputhandler::OutputHandler;
use crate::text::utf8_to_string;
use vstd::string::StringExecFns;
use vstd::utf8::{decode_utf8, valid_utf8};

/// What the caller read for one requested path: the raw bytes, or the fact
/// that the path could not be read.
pub enum FileRead {
    Data { label: String, bytes: Vec<u8> },
    Unreadable { label: String },
}

/// Ghost image of `FileRead`.
pub enum FileReadV {
    Data { label: Seq<char>, bytes: Seq<u8> },
    Unreadable { label: Seq<char> },
}

impl View for FileRead {
    type V = FileReadV;

    open spec fn view(&self) -> FileReadV {
        match self {
            FileRead::Data { label, bytes } => FileReadV::Data { label: label@, bytes: bytes@ },
            FileRead::Unreadable { label } => FileReadV::Unreadable { label: label@ },
        }
    }
}

/// The ghost images of a sequence of file reads.
pub open spec fn read_views(v: Seq<FileRead>) -> Seq<FileReadV> {
    Seq::new(v.len(), |i: int| v[i]@)
}

/// The ghost image of an optional piped byte buffer.
pub open spec fn piped_view(p: Option<&Vec<u8>>) -> Option<Seq<u8>> {
    match p {
        Some(b) => Some(b@),
        None => None,
    }
}

/// The effect of emitting one file read on the output channels.
pub open spec fn cat_read_effect(
    acc: (Seq<char>, Seq<char>),
    f: FileReadV,
) -> (Seq<char>, Seq<char>) {
    match f {
        FileReadV::Data { label, bytes } => if valid_utf8(bytes) {
            (acc.0 + seq!['\n'] + decode_utf8(bytes), acc.1)
        } else {
            (acc.0, acc.1 + seq!['\n'] + label + " is not valid unicode"@)
        },
        FileReadV::Unreadable { label } => (
            acc.0,
            acc.1 + seq!['\n'] + "Cannot access "@ + label,
        ),
    }
}

/// The effect of emitting a run of file reads, left to right.
pub open spec fn cat_reads_effect(
    acc: (Seq<char>, Seq<char>),
    fs: Seq<FileReadV>,
) -> (Seq<char>, Seq<char>)
    decreases fs.len(),
{
    if fs.len() == 0 {
        acc
    } else {
        cat_read_effect(cat_reads_effect(acc, fs.drop_last()), fs.last())
    }
}

/// The effect of emitting the piped input, when there is any, as one
/// implicit further file.
pub open spec fn cat_piped_effect(
    acc: (Seq<char>, Seq<char>),
    piped: Option<Seq<u8>>,
) -> (Seq<char>, Seq<char>) {
    match piped {
        None => acc,
        Some(b) => if valid_utf8(b) {
            (acc.0 + seq!['\n'] + decode_utf8(b), acc.1)
        } else {
            (acc.0, acc.1 + seq!['\n'] + "Piped input is not valid unicode"@)
        },
    }
}

/// The whole effect of a `cat` stage: the named files in order, then the
/// piped input.
pub open spec fn cat_effect(
    acc: (Seq<char>, Seq<char>),
    fs: Seq<FileReadV>,
    piped: Option<Seq<u8>>,
) -> (Seq<char>, Seq<char>) {
    cat_piped_effect(cat_reads_effect(acc, fs), piped)
}

/// Emits the given file reads and piped input into the handler.
pub fn execute(oh: &mut OutputHandler, reads: &Vec<FileRead>, piped: Option<&Vec<u8>>)
    ensures
        (final(oh)@.stdout, final(oh)@.stderr) == cat_effect(
            (old(oh)@.stdout, old(oh)@.stderr),
            read_views(reads@),
            piped_view(piped),
        ),
{
    let ghost init = (old(oh)@.stdout, old(oh)@.stderr);
    let ghost rv = read_views(reads@);
    let mut i: usize = 0;
    while i < reads.len()
        invariant
            i <= reads@.len(),
            rv == read_views(reads@),
            (oh@.stdout, oh@.stderr) == cat_reads_effect(init, rv.take(i as int)),
        decreases reads@.len() - i,
    {
        proof {
            assert(rv.take(i as int + 1).drop_last() =~= rv.take(i as int));
            assert(rv.take(i as int + 1).last() == rv[i as int]);
            assert(rv[i as int] == reads@[i as int]@);
        }
        let ghost before = (oh@.stdout, oh@.stderr);
        match &reads[i] {
            FileRead::Data { label, bytes } => {
                match utf8_to_string(bytes) {
                    Some(s) => {
                        oh.add_stdout(s);
                    },
                    None => {
                        proof {
                            reveal_strlit(" is not valid unicode");
                        }
                        let mut m = label.clone();
                        m.append(" is not valid unicode");
                        oh.add_stderr(m);
                    },
                }
            },
            FileRead::Unreadable { label } => {
                proof {
                    reveal_strlit("Cannot access ");
                }
                let mut m = String::from_str("Cannot access ");
                m.append(label.as_str());
                oh.add_stderr(m);
            },
        }
        proof {
            assert((oh@.stdout, oh@.stderr) == cat_read_effect(before, rv[i as int]));
        }
        i += 1;
    }
    proof {
        assert(rv.take(reads@.len() as int) =~= rv);
    }
    let ghost fed = (oh@.stdout, oh@.stderr);
    match piped {
        Some(b) => {
            match utf8_to_string(b) {
                Some(s) => {
                    oh.add_stdout(s);
                },
                None => {
                    oh.add_stderr_str("Piped input is not valid unicode");
                },
            }
        },
        None => {},
    }
    proof {
        assert((oh@.stdout, oh@.stderr) == cat_piped_effect(fed, piped_view(piped)));
    }
}

} // verus!
