//! Collision-free destination naming: given the names already present in a
//! directory, find an unused variant of a proposed file name.
//!
//! The directory is handed in as the list of names it currently holds; this
//! module does no I/O of its own and never creates the file.

use vstd::prelude::*;
use crate::text::{
    chars_eq, chars_of, clone_chars, dec_rep, extension_of, last_index_of, lemma_last_index_of,
    push_chars, rfind_char, split_extension, stem_of, string_of, to_decimal,
};

verus! {

broadcast use crate::text::lemma_chars_deep_view;

/// Whether `x` is one of `names`.
pub open spec fn name_taken(names: Seq<Seq<char>>, x: Seq<char>) -> bool {
    exists|i: int| 0 <= i < names.len() && names[i] == x
}

/// The dotted extension that the probe names carry along: `"." + ext` when
/// the proposed name has a `.`, empty otherwise.
pub open spec fn dotted_extension_of(name: Seq<char>) -> Seq<char> {
    if last_index_of(name, '.') < 0 {
        Seq::empty()
    } else {
        seq!['.'] + extension_of(name)
    }
}

/// The `n`-th probe name: `stem(n)ext`.
pub open spec fn numbered_name(stem: Seq<char>, dotted_ext: Seq<char>, n: nat) -> Seq<char> {
    stem + seq!['('] + dec_rep(n) + seq![')'] + dotted_ext
}

/// The safety-valve name used when every probe collides: `stem_stamp ext`.
pub open spec fn stamped_name(stem: Seq<char>, dotted_ext: Seq<char>, stamp: Seq<char>) -> Seq<
    char,
> {
    stem + seq!['_'] + stamp + dotted_ext
}

/// The first free probe name at or after `n`, or the stamped name once
/// `n` has run past 10000.
pub open spec fn probe_from(
    names: Seq<Seq<char>>,
    stem: Seq<char>,
    dotted_ext: Seq<char>,
    stamp: Seq<char>,
    n: int,
) -> Seq<char>
    decreases 10001 - n,
{
    if n > 10000 {
        stamped_name(stem, dotted_ext, stamp)
    } else if !name_taken(names, numbered_name(stem, dotted_ext, n as nat)) {
        numbered_name(stem, dotted_ext, n as nat)
    } else {
        probe_from(names, stem, dotted_ext, stamp, n + 1)
    }
}

/// The name `resolve` settles on: the proposal itself when it is free, else
/// the first free `stem(n)ext` for `n = 1, 2, ...`, else the stamped name.
pub open spec fn resolved_name(names: Seq<Seq<char>>, proposed: Seq<char>, stamp: Seq<char>) -> Seq<
    char,
> {
    if !name_taken(names, proposed) {
        proposed
    } else {
        probe_from(names, stem_of(proposed), dotted_extension_of(proposed), stamp, 1)
    }
}

proof fn lemma_probe_from_free(
    names: Seq<Seq<char>>,
    stem: Seq<char>,
    dotted_ext: Seq<char>,
    stamp: Seq<char>,
    n: int,
)
    ensures
        name_taken(names, probe_from(names, stem, dotted_ext, stamp, n)) ==> probe_from(
            names,
            stem,
            dotted_ext,
            stamp,
            n,
        ) == stamped_name(stem, dotted_ext, stamp),
    decreases 10001 - n,
{
    if n <= 10000 && name_taken(names, numbered_name(stem, dotted_ext, n as nat)) {
        lemma_probe_from_free(names, stem, dotted_ext, stamp, n + 1);
    }
}

/// The resolver never settles on a name the directory already holds,
/// with the one documented exception: after 10000 collisions it falls
/// back to the stamped name without probing it again.
pub proof fn lemma_resolved_name_free(names: Seq<Seq<char>>, proposed: Seq<char>, stamp: Seq<char>)
    ensures
        name_taken(names, resolved_name(names, proposed, stamp)) ==> resolved_name(
            names,
            proposed,
            stamp,
        ) == stamped_name(stem_of(proposed), dotted_extension_of(proposed), stamp),
{
    if name_taken(names, proposed) {
        lemma_probe_from_free(names, stem_of(proposed), dotted_extension_of(proposed), stamp, 1);
    }
}

fn taken(names: &Vec<Vec<char>>, x: &Vec<char>) -> (r: bool)
    ensures
        r == name_taken(names.deep_view(), x@),
{
    let mut i: usize = 0;
    while i < names.len()
        invariant
            i <= names@.len(),
            forall|j: int| 0 <= j < i ==> names.deep_view()[j] != x@,
        decreases names.len() - i,
    {
        if chars_eq(&names[i], x) {
            assert(names.deep_view()[i as int] == x@);
            return true;
        }
        i = i + 1;
    }
    false
}

/// Converts a list of `String` names into character lists.
pub fn names_of(existing: &Vec<String>) -> (out: Vec<Vec<char>>)
    ensures
        out.deep_view() == existing.deep_view(),
{
    let mut out: Vec<Vec<char>> = Vec::new();
    let mut i: usize = 0;
    while i < existing.len()
        invariant
            i <= existing@.len(),
            out@.len() == i,
            forall|j: int| 0 <= j < i ==> out.deep_view()[j] == existing.deep_view()[j],
        decreases existing.len() - i,
    {
        out.push(chars_of(existing[i].as_str()));
        i = i + 1;
    }
    assert(out.deep_view() =~= existing.deep_view());
    out
}

/// Builds `stem(n)ext`.
fn numbered(stem: &Vec<char>, dotted_ext: &Vec<char>, n: u64) -> (out: Vec<char>)
    ensures
        out@ == numbered_name(stem@, dotted_ext@, n as nat),
{
    let mut out = clone_chars(stem);
    out.push('(');
    let digits = to_decimal(n);
    push_chars(&mut out, &digits);
    out.push(')');
    push_chars(&mut out, dotted_ext);
    assert(out@ =~= numbered_name(stem@, dotted_ext@, n as nat));
    out
}

/// Picks a free name among `existing` for the proposal, probing
/// `stem(1)ext`, `stem(2)ext`, ... on collision and falling back to
/// `stem_stamp ext` after 10000 collisions.
pub fn resolve_name(existing: &Vec<Vec<char>>, proposed: &Vec<char>, stamp: &Vec<char>) -> (name:
    Vec<char>)
    ensures
        name@ == resolved_name(existing.deep_view(), proposed@, stamp@),
{
    if !taken(existing, proposed) {
        return clone_chars(proposed);
    }
    let (stem, _ext) = split_extension(proposed);
    let dotted_ext = dotted_ext(proposed);
    let mut n: u64 = 1;
    while n <= 10000
        invariant
            1 <= n <= 10001,
            name_taken(existing.deep_view(), proposed@),
            stem@ == stem_of(proposed@),
            dotted_ext@ == dotted_extension_of(proposed@),
            probe_from(existing.deep_view(), stem@, dotted_ext@, stamp@, 1) == probe_from(
                existing.deep_view(),
                stem@,
                dotted_ext@,
                stamp@,
                n as int,
            ),
        decreases 10001 - n,
    {
        let cand = numbered(&stem, &dotted_ext, n);
        if !taken(existing, &cand) {
            return cand;
        }
        n = n + 1;
    }
    let mut out = clone_chars(&stem);
    out.push('_');
    push_chars(&mut out, stamp);
    push_chars(&mut out, &dotted_ext);
    assert(out@ =~= stamped_name(stem@, dotted_ext@, stamp@));
    out
}

/// Builds the dotted extension of a proposed name.
fn dotted_ext(proposed: &Vec<char>) -> (out: Vec<char>)
    ensures
        out@ == dotted_extension_of(proposed@),
{
    proof {
        lemma_last_index_of(proposed@, '.');
    }
    match rfind_char(proposed, '.') {
        None => Vec::new(),
        Some(_) => {
            let (_stem, ext) = split_extension(proposed);
            let mut out: Vec<char> = Vec::new();
            out.push('.');
            push_chars(&mut out, &ext);
            assert(out@ =~= dotted_extension_of(proposed@));
            out
        },
    }
}

/// Relies on chrono's `Utc::now().format("%Y%m%d_%H%M%S")`: the current
/// UTC time as at least four year digits, then month, day, hour, minute
/// and second as two digits each around an underscore — never shorter
/// than fifteen characters. The value depends on the clock, so nothing
/// more is promised; the resolver takes it as an argument.
#[verifier::external_body]
pub fn fallback_timestamp() -> (stamp: String)
    ensures
        stamp@.len() >= 15,
{
    chrono::Utc::now().format("%Y%m%d_%H%M%S").to_string()
}

/// Joins a directory and a file name with `/`.
pub open spec fn joined_path(dir: Seq<char>, name: Seq<char>) -> Seq<char> {
    dir + seq!['/'] + name
}

/// The full resolver: the final path for `proposed` inside `dir`, given the
/// names `dir` already holds and the timestamp to use as a last resort.
pub fn resolve(dir: &String, proposed: &String, existing: &Vec<String>, stamp: &String) -> (path:
    String)
    ensures
        path@ == joined_path(
            dir@,
            resolved_name(existing.deep_view(), proposed@, stamp@),
        ),
{
    let names = names_of(existing);
    let proposed_chars = chars_of(proposed.as_str());
    let stamp_chars = chars_of(stamp.as_str());
    let resolved = resolve_name(&names, &proposed_chars, &stamp_chars);
    let mut out = chars_of(dir.as_str());
    out.push('/');
    push_chars(&mut out, &resolved);
    assert(out@ =~= joined_path(dir@, resolved_name(existing.deep_view(), proposed@, stamp@)));
    string_of(&out)
}

/// The resolver with the clock supplying the safety-valve stamp, as the
/// receive path uses it: draws the stamp of the present moment and
/// resolves against it. Returns the stamp drawn and the final path.
pub fn resolve_now(dir: &String, proposed: &String, existing: &Vec<String>) -> (r: (String, String))
    ensures
        r.0@.len() >= 15,
        r.1@ == joined_path(dir@, resolved_name(existing.deep_view(), proposed@, r.0@)),
{
    let stamp = fallback_timestamp();
    let path = resolve(dir, proposed, existing, &stamp);
    (stamp, path)
}

} // verus!
