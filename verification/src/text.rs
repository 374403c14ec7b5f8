//! Character-level text scanning: whitespace tokenization, splitting on a
//! delimiter, and substring search. These are the primitives the parser and
//! the configuration reader are built on. All of them are specified over
//! `Seq<char>` views.
use vstd::prelude::*;

verus! {

use vstd::string::StrSliceExecFns;

/// The token delimiters of the line protocol: space and tab.
pub open spec fn is_space_char(c: char) -> bool {
    c == ' ' || c == '\t'
}

/// The views of a sequence of character vectors.
pub open spec fn views_of(v: Seq<Vec<char>>) -> Seq<Seq<char>> {
    Seq::new(v.len(), |i: int| v[i]@)
}

/// The views of a sequence of strings.
pub open spec fn string_views(v: Seq<String>) -> Seq<Seq<char>> {
    Seq::new(v.len(), |i: int| v[i]@)
}

/// State of a left-to-right whitespace tokenizer after consuming `s`:
/// the tokens already completed, and the (possibly empty) token in progress.
pub open spec fn split_ws_state(s: Seq<char>) -> (Seq<Seq<char>>, Seq<char>)
    decreases s.len(),
{
    if s.len() == 0 {
        (Seq::empty(), Seq::empty())
    } else {
        let (done, cur) = split_ws_state(s.drop_last());
        let c = s.last();
        if is_space_char(c) {
            if cur.len() == 0 {
                (done, Seq::empty())
            } else {
                (done.push(cur), Seq::empty())
            }
        } else {
            (done, cur.push(c))
        }
    }
}

/// The maximal non-whitespace runs of `s`, in order. Leading, trailing and
/// repeated whitespace produce no tokens.
pub open spec fn spec_tokens(s: Seq<char>) -> Seq<Seq<char>> {
    let (done, cur) = split_ws_state(s);
    if cur.len() == 0 {
        done
    } else {
        done.push(cur)
    }
}

/// State of a splitter on delimiter `d` after consuming `s`: completed
/// sections and the section in progress. Empty sections are kept.
pub open spec fn split_on_state(s: Seq<char>, d: char) -> (Seq<Seq<char>>, Seq<char>)
    decreases s.len(),
{
    if s.len() == 0 {
        (Seq::empty(), Seq::empty())
    } else {
        let (done, cur) = split_on_state(s.drop_last(), d);
        let c = s.last();
        if c == d {
            (done.push(cur), Seq::empty())
        } else {
            (done, cur.push(c))
        }
    }
}

/// `s` split on the delimiter `d`, empty sections kept; a string with `k`
/// delimiters yields exactly `k + 1` sections.
pub open spec fn spec_split_on(s: Seq<char>, d: char) -> Seq<Seq<char>> {
    let (done, cur) = split_on_state(s, d);
    done.push(cur)
}

/// Whether the character `c` occurs in `s`.
pub open spec fn contains_char(s: Seq<char>, c: char) -> bool {
    exists|i: int| 0 <= i < s.len() && s[i] == c
}

/// Whether `needle` occurs in `hay` starting at index `i`.
pub open spec fn matches_at(hay: Seq<char>, needle: Seq<char>, i: int) -> bool {
    0 <= i && i + needle.len() <= hay.len() && hay.subrange(i, i + needle.len()) == needle
}

/// Whether `needle` occurs anywhere in `hay`.
pub open spec fn contains_seq(hay: Seq<char>, needle: Seq<char>) -> bool {
    exists|i: int| matches_at(hay, needle, i)
}

/// The characters of `s`, in order.
pub fn str_chars(s: &str) -> (r: Vec<char>)
    ensures
        r@ == s@,
{
    let n = s.unicode_len();
    let mut r: Vec<char> = Vec::new();
    let mut i: usize = 0;
    while i < n
        invariant
            i <= n,
            n == s@.len(),
            r@ == s@.take(i as int),
        decreases n - i,
    {
        let c = s.get_char(i);
        r.push(c);
        proof {
            assert(r@ =~= s@.take(i as int + 1));
        }
        i += 1;
    }
    proof {
        assert(s@.take(n as int) =~= s@);
    }
    r
}

/// Relies on `String`'s `FromIterator<char>`: collecting characters yields
/// the string made of exactly those characters, in order.
#[verifier::external_body]
pub fn chars_to_string(v: &Vec<char>) -> (s: String)
    ensures
        s@ == v@,
{
    v.iter().collect()
}

/// Relies on `String::from_utf8`: it succeeds exactly on valid UTF-8 input
/// and yields the characters that input encodes.
#[verifier::external_body]
pub fn utf8_to_string(b: &Vec<u8>) -> (r: Option<String>)
    ensures
        r is Some <==> vstd::utf8::valid_utf8(b@),
        r matches Some(s) ==> s@ == vstd::utf8::decode_utf8(b@),
{
    match String::from_utf8(b.clone()) {
        Ok(s) => Some(s),
        Err(_) => None,
    }
}

/// The whitespace-delimited tokens of `s`.
pub fn tokens_of(s: &Vec<char>) -> (r: Vec<Vec<char>>)
    ensures
        views_of(r@) == spec_tokens(s@),
{
    let mut done: Vec<Vec<char>> = Vec::new();
    let mut cur: Vec<char> = Vec::new();
    let mut i: usize = 0;
    while i < s.len()
        invariant
            i <= s@.len(),
            (views_of(done@), cur@) == split_ws_state(s@.take(i as int)),
        decreases s@.len() - i,
    {
        proof {
            assert(s@.take(i as int + 1).drop_last() =~= s@.take(i as int));
            assert(s@.take(i as int + 1).last() == s@[i as int]);
        }
        let c = s[i];
        if c == ' ' || c == '\t' {
            if cur.len() > 0 {
                let ghost prev = views_of(done@);
                done.push(cur);
                cur = Vec::new();
                proof {
                    assert(views_of(done@) =~= prev.push(done@.last()@));
                }
            }
        } else {
            cur.push(c);
        }
        i += 1;
    }
    proof {
        assert(s@.take(s@.len() as int) =~= s@);
    }
    if cur.len() > 0 {
        let ghost prev = views_of(done@);
        done.push(cur);
        proof {
            assert(views_of(done@) =~= prev.push(done@.last()@));
        }
    }
    done
}

/// The sections of `s` split on the delimiter `d`, empty sections kept.
pub fn split_on(s: &Vec<char>, d: char) -> (r: Vec<Vec<char>>)
    ensures
        views_of(r@) == spec_split_on(s@, d),
        r@.len() >= 1,
{
    let mut done: Vec<Vec<char>> = Vec::new();
    let mut cur: Vec<char> = Vec::new();
    let mut i: usize = 0;
    while i < s.len()
        invariant
            i <= s@.len(),
            (views_of(done@), cur@) == split_on_state(s@.take(i as int), d),
        decreases s@.len() - i,
    {
        proof {
            assert(s@.take(i as int + 1).drop_last() =~= s@.take(i as int));
            assert(s@.take(i as int + 1).last() == s@[i as int]);
        }
        let c = s[i];
        if c == d {
            let ghost prev = views_of(done@);
            done.push(cur);
            cur = Vec::new();
            proof {
                assert(views_of(done@) =~= prev.push(done@.last()@));
            }
        } else {
            cur.push(c);
        }
        i += 1;
    }
    proof {
        assert(s@.take(s@.len() as int) =~= s@);
    }
    let ghost prev = views_of(done@);
    done.push(cur);
    proof {
        assert(views_of(done@) =~= prev.push(done@.last()@));
    }
    done
}

/// Whether `c` occurs in `s`.
pub fn contains_char_exec(s: &Vec<char>, c: char) -> (r: bool)
    ensures
        r == contains_char(s@, c),
{
    let mut i: usize = 0;
    while i < s.len()
        invariant
            i <= s@.len(),
            forall|j: int| 0 <= j < i ==> s@[j] != c,
        decreases s@.len() - i,
    {
        if s[i] == c {
            return true;
        }
        i += 1;
    }
    false
}

/// The first index at which `needle` occurs in `hay`, if any.
pub fn find_seq(hay: &Vec<char>, needle: &Vec<char>) -> (r: Option<usize>)
    ensures
        match r {
            Some(i) => matches_at(hay@, needle@, i as int) && forall|j: int|
                0 <= j < i ==> !matches_at(hay@, needle@, j),
            None => !contains_seq(hay@, needle@),
        },
{
    if needle.len() > hay.len() {
        return None;
    }
    if needle.len() == 0 {
        proof {
            assert(hay@.subrange(0, 0) =~= needle@);
        }
        return Some(0);
    }
    let last_start: usize = hay.len() - needle.len();
    let mut i: usize = 0;
    while i <= last_start
        invariant
            1 <= needle@.len() <= hay@.len() <= usize::MAX,
            last_start == hay@.len() - needle@.len(),
            i <= last_start + 1,
            forall|j: int| 0 <= j < i ==> !matches_at(hay@, needle@, j),
        decreases last_start + 1 - i,
    {
        let mut k: usize = 0;
        let mut hit = true;
        while k < needle.len()
            invariant
                0 <= i,
                i + needle@.len() <= hay@.len() <= usize::MAX,
                k <= needle@.len(),
                hit ==> forall|m: int| 0 <= m < k ==> hay@[i + m] == needle@[m],
                !hit ==> !matches_at(hay@, needle@, i as int),
            decreases needle@.len() - k,
        {
            if hay[i + k] != needle[k] {
                proof {
                    if matches_at(hay@, needle@, i as int) {
                        assert(hay@.subrange(i as int, i as int + needle@.len())[k as int]
                            == hay@[i + k]);
                    }
                }
                hit = false;
                k = needle.len();
            } else {
                k += 1;
            }
        }
        if hit {
            proof {
                assert(hay@.subrange(i as int, i as int + needle@.len()) =~= needle@);
            }
            return Some(i);
        }
        i += 1;
    }
    proof {
        assert forall|j: int| !matches_at(hay@, needle@, j) by {
            if matches_at(hay@, needle@, j) {
                assert(0 <= j <= last_start as int);
            }
        }
    }
    None
}

/// Whether `needle` occurs anywhere in `hay`.
pub fn contains_seq_exec(hay: &Vec<char>, needle: &Vec<char>) -> (r: bool)
    ensures
        r == contains_seq(hay@, needle@),
{
    match find_seq(hay, needle) {
        Some(_) => true,
        None => false,
    }
}

} // verus!
