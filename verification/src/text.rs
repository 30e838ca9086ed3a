//! Character-level string utilities. All logic here works on `Vec<char>`
//! with `Seq<char>` models; `string_of` and `chars_of` bridge to `String`
//! at the crate's edges.

use vstd::prelude::*;
use vstd::string::StrSliceExecFns;

verus! {

/// The characters the engine treats as whitespace when it trims user
/// input: the Unicode `White_Space` set.
pub open spec fn is_space_char(c: char) -> bool {
    ||| c == ' '
    ||| c == '\t'
    ||| c == '\n'
    ||| c == '\u{b}'
    ||| c == '\u{c}'
    ||| c == '\r'
    ||| c == '\u{85}'
    ||| c == '\u{a0}'
    ||| c == '\u{1680}'
    ||| c == '\u{2000}'
    ||| c == '\u{2001}'
    ||| c == '\u{2002}'
    ||| c == '\u{2003}'
    ||| c == '\u{2004}'
    ||| c == '\u{2005}'
    ||| c == '\u{2006}'
    ||| c == '\u{2007}'
    ||| c == '\u{2008}'
    ||| c == '\u{2009}'
    ||| c == '\u{200a}'
    ||| c == '\u{2028}'
    ||| c == '\u{2029}'
    ||| c == '\u{202f}'
    ||| c == '\u{205f}'
    ||| c == '\u{3000}'
}

pub fn is_space(c: char) -> (space: bool)
    ensures
        space == is_space_char(c),
{
    c == ' ' || c == '\t' || c == '\n' || c == '\u{b}' || c == '\u{c}' || c == '\r'
        || c == '\u{85}' || c == '\u{a0}' || c == '\u{1680}' || c == '\u{2000}' || c == '\u{2001}'
        || c == '\u{2002}' || c == '\u{2003}' || c == '\u{2004}' || c == '\u{2005}'
        || c == '\u{2006}' || c == '\u{2007}' || c == '\u{2008}' || c == '\u{2009}'
        || c == '\u{200a}' || c == '\u{2028}' || c == '\u{2029}' || c == '\u{202f}'
        || c == '\u{205f}' || c == '\u{3000}'
}

/// The characters of `s`, in order.
pub fn chars_of(s: &str) -> (out: Vec<char>)
    ensures
        out@ == s@,
{
    let n = s.unicode_len();
    let mut out: Vec<char> = Vec::new();
    let mut i: usize = 0;
    while i < n
        invariant
            i <= n,
            n == s@.len(),
            out@ == s@.subrange(0, i as int),
        decreases n - i,
    {
        let c = s.get_char(i);
        out.push(c);
        assert(out@ =~= s@.subrange(0, i + 1 as int));
        i = i + 1;
    }
    assert(out@ =~= s@);
    out
}

/// Relies on `String`'s `FromIterator<&char>`: collecting yields the string
/// of exactly these characters in order.
#[verifier::external_body]
pub fn string_of(chars: &Vec<char>) -> (s: String)
    ensures
        s@ == chars@,
{
    chars.iter().collect()
}

/// The characters of the decimal representation of `n`, most significant
/// digit first, with no sign and no leading zero (except for `n == 0`).
pub open spec fn dec_rep(n: nat) -> Seq<char>
    decreases n,
{
    if n < 10 {
        seq![dec_digit(n)]
    } else {
        dec_rep(n / 10).push(dec_digit(n % 10))
    }
}

pub open spec fn dec_digit(d: nat) -> char {
    if d == 0 {
        '0'
    } else if d == 1 {
        '1'
    } else if d == 2 {
        '2'
    } else if d == 3 {
        '3'
    } else if d == 4 {
        '4'
    } else if d == 5 {
        '5'
    } else if d == 6 {
        '6'
    } else if d == 7 {
        '7'
    } else if d == 8 {
        '8'
    } else {
        '9'
    }
}

fn dec_digit_char(d: u64) -> (c: char)
    requires
        d < 10,
    ensures
        c == dec_digit(d as nat),
{
    if d == 0 {
        '0'
    } else if d == 1 {
        '1'
    } else if d == 2 {
        '2'
    } else if d == 3 {
        '3'
    } else if d == 4 {
        '4'
    } else if d == 5 {
        '5'
    } else if d == 6 {
        '6'
    } else if d == 7 {
        '7'
    } else if d == 8 {
        '8'
    } else {
        '9'
    }
}

/// The decimal digits of `n`.
pub fn to_decimal(n: u64) -> (digits: Vec<char>)
    ensures
        digits@ == dec_rep(n as nat),
    decreases n,
{
    if n < 10 {
        let mut digits: Vec<char> = Vec::new();
        digits.push(dec_digit_char(n));
        assert(digits@ =~= dec_rep(n as nat));
        digits
    } else {
        let mut digits = to_decimal(n / 10);
        digits.push(dec_digit_char(n % 10));
        digits
    }
}

/// The largest index at which `c` occurs in `s`, or `-1` if it does not
/// occur at all.
pub open spec fn last_index_of(s: Seq<char>, c: char) -> int
    decreases s.len(),
{
    if s.len() == 0 {
        -1
    } else if s.last() == c {
        s.len() - 1
    } else {
        last_index_of(s.drop_last(), c)
    }
}

pub proof fn lemma_last_index_of(s: Seq<char>, c: char)
    ensures
        -1 <= last_index_of(s, c) < s.len(),
        last_index_of(s, c) >= 0 ==> s[last_index_of(s, c)] == c,
        forall|j: int| last_index_of(s, c) < j < s.len() ==> s[j] != c,
    decreases s.len(),
{
    if s.len() > 0 && s.last() != c {
        lemma_last_index_of(s.drop_last(), c);
        assert(forall|j: int| 0 <= j < s.len() - 1 ==> s[j] == s.drop_last()[j]);
    }
}

/// Finds the last occurrence of `c` in `s`.
pub fn rfind_char(s: &Vec<char>, c: char) -> (found: Option<usize>)
    ensures
        match found {
            Some(i) => i == last_index_of(s@, c),
            None => last_index_of(s@, c) == -1,
        },
{
    let mut i: usize = s.len();
    assert(s@.subrange(0, s@.len() as int) =~= s@);
    while i > 0
        invariant
            i <= s.len(),
            last_index_of(s@, c) == last_index_of(s@.subrange(0, i as int), c),
        decreases i,
    {
        i = i - 1;
        let ghost pre = s@.subrange(0, i + 1 as int);
        assert(pre.last() == s@[i as int]);
        if s[i] == c {
            proof {
                lemma_last_index_of(s@, c);
            }
            return Some(i);
        }
        assert(pre.drop_last() =~= s@.subrange(0, i as int));
    }
    assert(s@.subrange(0, 0) =~= Seq::<char>::empty());
    None
}

/// The part of a file name before its final `.`; the whole name when there
/// is no `.` at all.
pub open spec fn stem_of(name: Seq<char>) -> Seq<char> {
    let i = last_index_of(name, '.');
    if i < 0 {
        name
    } else {
        name.subrange(0, i)
    }
}

/// The part of a file name after its final `.`, without the dot; empty when
/// there is no `.` at all.
pub open spec fn extension_of(name: Seq<char>) -> Seq<char> {
    let i = last_index_of(name, '.');
    if i < 0 {
        Seq::empty()
    } else {
        name.subrange(i + 1, name.len() as int)
    }
}

/// Splits a file name on its final `.` into stem and extension.
pub fn split_extension(name: &Vec<char>) -> (parts: (Vec<char>, Vec<char>))
    ensures
        parts.0@ == stem_of(name@),
        parts.1@ == extension_of(name@),
{
    proof {
        lemma_last_index_of(name@, '.');
    }
    match rfind_char(name, '.') {
        None => (clone_chars(name), Vec::new()),
        Some(i) => {
            let n = name.len();
            let stem = copy_range(name, 0, i);
            let ext = copy_range(name, i + 1, n);
            (stem, ext)
        },
    }
}

/// A copy of `v`.
pub fn clone_chars(v: &Vec<char>) -> (out: Vec<char>)
    ensures
        out@ == v@,
{
    copy_range(v, 0, v.len())
}

/// The characters of `v` from `from` (inclusive) to `to` (exclusive).
pub fn copy_range(v: &Vec<char>, from: usize, to: usize) -> (out: Vec<char>)
    requires
        from <= to <= v@.len(),
    ensures
        out@ == v@.subrange(from as int, to as int),
{
    let mut out: Vec<char> = Vec::new();
    let mut i: usize = from;
    while i < to
        invariant
            from <= i <= to <= v@.len(),
            out@ == v@.subrange(from as int, i as int),
        decreases to - i,
    {
        out.push(v[i]);
        assert(out@ =~= v@.subrange(from as int, i + 1 as int));
        i = i + 1;
    }
    out
}

/// Whether `s` ends with `suffix`.
pub open spec fn ends_with_spec(s: Seq<char>, suffix: Seq<char>) -> bool {
    suffix.len() <= s.len() && s.subrange(s.len() - suffix.len(), s.len() as int) == suffix
}

pub fn ends_with(s: &Vec<char>, suffix: &Vec<char>) -> (r: bool)
    ensures
        r == ends_with_spec(s@, suffix@),
{
    if suffix.len() > s.len() {
        return false;
    }
    let offset = s.len() - suffix.len();
    let slen = s.len();
    let mut i: usize = 0;
    while i < suffix.len()
        invariant
            s@.len() - suffix@.len() == offset,
            slen == s@.len(),
            i <= suffix@.len() <= s@.len(),
            forall|j: int| 0 <= j < i ==> s@[offset + j] == suffix@[j],
        decreases suffix.len() - i,
    {
        assert(offset + i < slen);
        if s[offset + i] != suffix[i] {
            assert(s@.subrange(s@.len() - suffix@.len(), s@.len() as int)[i as int]
                != suffix@[i as int]);
            return false;
        }
        i = i + 1;
    }
    assert(s@.subrange(s@.len() - suffix@.len(), s@.len() as int) =~= suffix@);
    true
}

/// Whether `s` starts with `prefix`.
pub open spec fn starts_with_spec(s: Seq<char>, prefix: Seq<char>) -> bool {
    prefix.len() <= s.len() && s.subrange(0, prefix.len() as int) == prefix
}

pub fn starts_with(s: &Vec<char>, prefix: &Vec<char>) -> (r: bool)
    ensures
        r == starts_with_spec(s@, prefix@),
{
    if prefix.len() > s.len() {
        return false;
    }
    let mut i: usize = 0;
    while i < prefix.len()
        invariant
            i <= prefix@.len() <= s@.len(),
            forall|j: int| 0 <= j < i ==> s@[j] == prefix@[j],
        decreases prefix.len() - i,
    {
        if s[i] != prefix[i] {
            assert(s@.subrange(0, prefix@.len() as int)[i as int] != prefix@[i as int]);
            return false;
        }
        i = i + 1;
    }
    assert(s@.subrange(0, prefix@.len() as int) =~= prefix@);
    true
}

/// `s` with every leading whitespace character removed.
pub open spec fn trim_start_spec(s: Seq<char>) -> Seq<char>
    decreases s.len(),
{
    if s.len() == 0 {
        s
    } else if is_space_char(s[0]) {
        trim_start_spec(s.drop_first())
    } else {
        s
    }
}

/// `s` with every trailing whitespace character removed.
pub open spec fn trim_end_spec(s: Seq<char>) -> Seq<char>
    decreases s.len(),
{
    if s.len() == 0 {
        s
    } else if is_space_char(s.last()) {
        trim_end_spec(s.drop_last())
    } else {
        s
    }
}

/// `s` with leading and trailing whitespace removed.
pub open spec fn trim_spec(s: Seq<char>) -> Seq<char> {
    trim_end_spec(trim_start_spec(s))
}

pub fn trim_start(v: Vec<char>) -> (out: Vec<char>)
    ensures
        out@ == trim_start_spec(v@),
{
    let mut v = v;
    let ghost orig = v@;
    while v.len() > 0 && is_space(v[0])
        invariant
            trim_start_spec(v@) == trim_start_spec(orig),
        decreases v.len(),
    {
        let ghost pre = v@;
        v.remove(0);
        assert(v@ =~= pre.drop_first());
    }
    v
}

pub fn trim_end(v: Vec<char>) -> (out: Vec<char>)
    ensures
        out@ == trim_end_spec(v@),
{
    let mut v = v;
    let ghost orig = v@;
    while v.len() > 0 && is_space(v[v.len() - 1])
        invariant
            trim_end_spec(v@) == trim_end_spec(orig),
        decreases v.len(),
    {
        let ghost pre = v@;
        v.pop();
        assert(v@ =~= pre.drop_last());
    }
    v
}

pub fn trim(v: Vec<char>) -> (out: Vec<char>)
    ensures
        out@ == trim_spec(v@),
{
    trim_end(trim_start(v))
}

/// `template` with every `#` replaced by `filler`.
pub open spec fn replace_hash_spec(template: Seq<char>, filler: Seq<char>) -> Seq<char>
    decreases template.len(),
{
    if template.len() == 0 {
        Seq::empty()
    } else if template[0] == '#' {
        filler + replace_hash_spec(template.drop_first(), filler)
    } else {
        seq![template[0]] + replace_hash_spec(template.drop_first(), filler)
    }
}

proof fn lemma_replace_hash_step(template: Seq<char>, filler: Seq<char>, i: int)
    requires
        0 <= i < template.len(),
    ensures
        replace_hash_spec(template.subrange(i, template.len() as int), filler) == (if template[i]
            == '#' {
            filler
        } else {
            seq![template[i]]
        }) + replace_hash_spec(template.subrange(i + 1, template.len() as int), filler),
{
    let tail = template.subrange(i, template.len() as int);
    assert(tail[0] == template[i]);
    assert(tail.drop_first() =~= template.subrange(i + 1, template.len() as int));
}

pub fn replace_hash(template: &Vec<char>, filler: &Vec<char>) -> (out: Vec<char>)
    ensures
        out@ == replace_hash_spec(template@, filler@),
{
    let mut out: Vec<char> = Vec::new();
    let mut i: usize = 0;
    assert(template@.subrange(0, template@.len() as int) =~= template@);
    assert(Seq::<char>::empty() + replace_hash_spec(template@, filler@)
        =~= replace_hash_spec(template@, filler@));
    while i < template.len()
        invariant
            i <= template@.len(),
            replace_hash_spec(template@, filler@) == out@ + replace_hash_spec(
                template@.subrange(i as int, template@.len() as int),
                filler@,
            ),
        decreases template.len() - i,
    {
        let ghost pre = out@;
        if template[i] == '#' {
            out.extend_from_slice(filler.as_slice());
            assert(out@ =~= pre + filler@);
        } else {
            out.push(template[i]);
            assert(out@ =~= pre + seq![template@[i as int]]);
        }
        proof {
            lemma_replace_hash_step(template@, filler@, i as int);
            assert(pre + ((if template@[i as int] == '#' {
                filler@
            } else {
                seq![template@[i as int]]
            }) + replace_hash_spec(template@.subrange(i + 1, template@.len() as int), filler@))
                =~= out@ + replace_hash_spec(
                template@.subrange(i + 1, template@.len() as int),
                filler@,
            ));
        }
        i = i + 1;
    }
    assert(template@.subrange(template@.len() as int, template@.len() as int)
        =~= Seq::<char>::empty());
    assert(out@ =~= out@ + Seq::<char>::empty());
    out
}

/// A character list's deep view is its view.
pub broadcast proof fn lemma_chars_deep_view(v: Vec<char>)
    ensures
        #[trigger] v.deep_view() == v@,
{
    assert(v.deep_view() =~= v@);
}

/// Whether two character lists hold the same characters.
pub fn chars_eq(a: &Vec<char>, b: &Vec<char>) -> (r: bool)
    ensures
        r == (a@ == b@),
{
    if a.len() != b.len() {
        return false;
    }
    let mut i: usize = 0;
    while i < a.len()
        invariant
            i <= a@.len(),
            a@.len() == b@.len(),
            forall|j: int| 0 <= j < i ==> a@[j] == b@[j],
        decreases a.len() - i,
    {
        if a[i] != b[i] {
            return false;
        }
        i = i + 1;
    }
    assert(a@ =~= b@);
    true
}

/// A copy of a list of strings.
pub fn clone_strings(v: &Vec<String>) -> (out: Vec<String>)
    ensures
        out@ == v@,
{
    let mut out: Vec<String> = Vec::new();
    let mut i: usize = 0;
    while i < v.len()
        invariant
            i <= v@.len(),
            out@ == v@.subrange(0, i as int),
        decreases v.len() - i,
    {
        out.push(v[i].clone());
        assert(out@ =~= v@.subrange(0, i + 1 as int));
        i = i + 1;
    }
    assert(out@ =~= v@);
    out
}

/// Appends the characters of `src` to `dst`.
pub fn push_chars(dst: &mut Vec<char>, src: &Vec<char>)
    ensures
        final(dst)@ == old(dst)@ + src@,
{
    dst.extend_from_slice(src.as_slice());
}

/// Appends the characters of a string literal to `dst`.
pub fn push_str_chars(dst: &mut Vec<char>, src: &str)
    ensures
        final(dst)@ == old(dst)@ + src@,
{
    let cs = chars_of(src);
    dst.extend_from_slice(cs.as_slice());
}

} // verus!
