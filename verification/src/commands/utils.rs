//! Path-string construction for the file-taking built-ins: each argument is
//! made absolute against the working directory, with `./` stripped and `~`
//! expanded to the home directory. An argument that is already absolute
//! replaces the base, as pushing an absolute path onto another path does.
use vstd::prelude::*;

verus! {

use crate::text::{chars_to_string, str_chars, string_views};

/// `rel` joined onto `base`: `rel` alone when it is absolute, `base` alone
/// when `rel` is empty, otherwise the two with a separator between.
pub open spec fn spec_join(base: Seq<char>, rel: Seq<char>) -> Seq<char> {
    if rel.len() > 0 && rel[0] == '/' {
        rel
    } else if rel.len() == 0 {
        base
    } else {
        base + seq!['/'] + rel
    }
}

/// The path a single argument names, against the given working and home
/// directories.
pub open spec fn spec_construct_one(p: Seq<char>, cwd: Seq<char>, home: Seq<char>) -> Seq<char> {
    if p.len() >= 2 && p[0] == '.' && p[1] == '/' {
        spec_join(cwd, p.skip(2))
    } else if p.len() >= 2 && p[0] == '~' && p[1] == '/' {
        spec_join(home, p.skip(2))
    } else if p.len() >= 1 && p[0] == '~' {
        spec_join(home, p.skip(1))
    } else {
        spec_join(cwd, p)
    }
}

/// The paths a whole argument list names; an empty list names the working
/// directory itself.
pub open spec fn spec_construct_paths(
    paths: Seq<Seq<char>>,
    cwd: Seq<char>,
    home: Seq<char>,
) -> Seq<Seq<char>> {
    if paths.len() == 0 {
        seq![cwd]
    } else {
        Seq::new(paths.len(), |i: int| spec_construct_one(paths[i], cwd, home))
    }
}

/// The characters of `src` from `from` on.
fn tail_chars(src: &Vec<char>, from: usize) -> (r: Vec<char>)
    requires
        from <= src@.len(),
    ensures
        r@ == src@.skip(from as int),
{
    let mut r: Vec<char> = Vec::new();
    let mut i: usize = from;
    while i < src.len()
        invariant
            from <= i <= src@.len(),
            r@ == src@.subrange(from as int, i as int),
        decreases src@.len() - i,
    {
        r.push(src[i]);
        proof {
            assert(r@ =~= src@.subrange(from as int, i as int + 1));
        }
        i += 1;
    }
    proof {
        assert(src@.subrange(from as int, src@.len() as int) =~= src@.skip(from as int));
    }
    r
}

/// The join of `base` and the tail of `rel_src` starting at `from`.
fn join_path(base: &Vec<char>, rel_src: &Vec<char>, from: usize) -> (r: Vec<char>)
    requires
        from <= rel_src@.len(),
    ensures
        r@ == spec_join(base@, rel_src@.skip(from as int)),
{
    if from < rel_src.len() && rel_src[from] == '/' {
        return tail_chars(rel_src, from);
    }
    if from == rel_src.len() {
        return tail_chars(base, 0);
    }
    let mut r = tail_chars(base, 0);
    let ghost base_view = base@;
    r.push('/');
    proof {
        assert(r@ =~= base_view + seq!['/']);
    }
    let mut i: usize = from;
    while i < rel_src.len()
        invariant
            from <= i <= rel_src@.len(),
            r@ == base_view + seq!['/'] + rel_src@.subrange(from as int, i as int),
        decreases rel_src@.len() - i,
    {
        r.push(rel_src[i]);
        proof {
            assert(r@ =~= base_view + seq!['/'] + rel_src@.subrange(from as int, i as int + 1));
        }
        i += 1;
    }
    proof {
        assert(rel_src@.subrange(from as int, rel_src@.len() as int) =~= rel_src@.skip(
            from as int,
        ));
    }
    r
}

/// The path one argument names.
fn construct_one(p: &String, cwd: &Vec<char>, home: &Vec<char>) -> (r: Vec<char>)
    ensures
        r@ == spec_construct_one(p@, cwd@, home@),
{
    let pc = str_chars(p.as_str());
    if pc.len() >= 2 && pc[0] == '.' && pc[1] == '/' {
        join_path(cwd, &pc, 2)
    } else if pc.len() >= 2 && pc[0] == '~' && pc[1] == '/' {
        join_path(home, &pc, 2)
    } else if pc.len() >= 1 && pc[0] == '~' {
        join_path(home, &pc, 1)
    } else {
        join_path(cwd, &pc, 0)
    }
}

/// The paths the argument list of a file-taking built-in names, against the
/// given working and home directories.
pub fn construct_paths(paths: &Vec<String>, cwd: &str, home: &str) -> (r: Vec<String>)
    ensures
        string_views(r@) == spec_construct_paths(string_views(paths@), cwd@, home@),
{
    let cwd_chars = str_chars(cwd);
    let home_chars = str_chars(home);
    let mut r: Vec<String> = Vec::new();
    if paths.len() == 0 {
        r.push(chars_to_string(&cwd_chars));
        proof {
            assert(string_views(r@) =~= seq![cwd@]);
        }
        return r;
    }
    let ghost goal = spec_construct_paths(string_views(paths@), cwd@, home@);
    let mut i: usize = 0;
    while i < paths.len()
        invariant
            i <= paths@.len(),
            paths@.len() > 0,
            cwd_chars@ == cwd@,
            home_chars@ == home@,
            goal == spec_construct_paths(string_views(paths@), cwd@, home@),
            string_views(r@) == goal.take(i as int),
        decreases paths@.len() - i,
    {
        let one = construct_one(&paths[i], &cwd_chars, &home_chars);
        let ghost prev = string_views(r@);
        r.push(chars_to_string(&one));
        proof {
            assert(string_views(paths@)[i as int] == paths@[i as int]@);
            assert(string_views(r@) =~= prev.push(one@));
            assert(goal.take(i as int + 1) =~= goal.take(i as int).push(goal[i as int]));
        }
        i += 1;
    }
    proof {
        assert(goal.take(paths@.len() as int) =~= goal);
    }
    r
}

} // verus!
