//! Text normalization for player input: surrounding whitespace is removed
//! and ASCII letters are folded to lowercase before any matching happens.

use vstd::prelude::*;
use vstd::string::StrSliceExecFns;

verus! {

/// Whitespace accepted around player input: space, tab, newline, carriage return.
pub open spec fn is_space(c: char) -> bool {
    c == ' ' || c == '\t' || c == '\n' || c == '\r'
}

/// ASCII uppercase letters fold to their lowercase form; every other
/// character is left unchanged.
pub open spec fn to_lower(c: char) -> char {
    if 65 <= c as u32 && c as u32 <= 90 {
        (((c as u32) + 32) as u8) as char
    } else {
        c
    }
}

pub open spec fn trim_front(s: Seq<char>) -> Seq<char>
    decreases s.len(),
{
    if s.len() > 0 && is_space(s.first()) {
        trim_front(s.drop_first())
    } else {
        s
    }
}

pub open spec fn trim_back(s: Seq<char>) -> Seq<char>
    decreases s.len(),
{
    if s.len() > 0 && is_space(s.last()) {
        trim_back(s.drop_last())
    } else {
        s
    }
}

/// The input with surrounding whitespace removed.
pub open spec fn trimmed(s: Seq<char>) -> Seq<char> {
    trim_back(trim_front(s))
}

/// Every character folded to lowercase.
pub open spec fn lower_all(s: Seq<char>) -> Seq<char> {
    s.map_values(|c: char| to_lower(c))
}

/// Trimmed, then case-folded: the canonical form in which input is matched.
pub open spec fn normalize(s: Seq<char>) -> Seq<char> {
    lower_all(trimmed(s))
}

proof fn lemma_trim_front_at(s: Seq<char>, k: int)
    requires
        0 <= k <= s.len(),
        forall|i: int| 0 <= i < k ==> is_space(s[i]),
        k == s.len() || !is_space(s[k]),
    ensures
        trim_front(s) == s.subrange(k, s.len() as int),
    decreases k,
{
    if k == 0 {
        assert(s.subrange(0, s.len() as int) =~= s);
    } else {
        let t = s.drop_first();
        lemma_trim_front_at(t, k - 1);
        assert(t.subrange(k - 1, t.len() as int) =~= s.subrange(k, s.len() as int));
    }
}

proof fn lemma_trim_back_at(s: Seq<char>, e: int)
    requires
        0 <= e <= s.len(),
        forall|i: int| e <= i < s.len() ==> is_space(s[i]),
        e == 0 || !is_space(s[e - 1]),
    ensures
        trim_back(s) == s.subrange(0, e),
    decreases s.len() - e,
{
    if e == s.len() {
        assert(s.subrange(0, s.len() as int) =~= s);
    } else {
        let t = s.drop_last();
        lemma_trim_back_at(t, e);
        assert(t.subrange(0, e) =~= s.subrange(0, e));
    }
}

fn is_space_at(s: &str, i: usize) -> (r: bool)
    requires
        i < s@.len(),
    ensures
        r == is_space(s@[i as int]),
{
    let c = s.get_char(i);
    c == ' ' || c == '\t' || c == '\n' || c == '\r'
}

fn lower_char(c: char) -> (r: char)
    ensures
        r == to_lower(c),
{
    let u = c as u32;
    if 65 <= u && u <= 90 {
        ((u + 32) as u8) as char
    } else {
        c
    }
}

/// The characters of `input` with surrounding whitespace removed.
pub fn trimmed_text(input: &str) -> (out: Vec<char>)
    ensures
        out@ == trimmed(input@),
{
    let ghost s = input@;
    let n = input.unicode_len();
    let mut start: usize = 0;
    while start < n && is_space_at(input, start)
        invariant
            s == input@,
            n == s.len(),
            start <= n,
            forall|i: int| 0 <= i < start ==> is_space(s[i]),
        decreases n - start,
    {
        start = start + 1;
    }
    let mut end: usize = n;
    while end > start && is_space_at(input, end - 1)
        invariant
            s == input@,
            n == s.len(),
            start <= end <= n,
            forall|i: int| end <= i < n ==> is_space(s[i]),
        decreases end,
    {
        end = end - 1;
    }
    proof {
        lemma_trim_front_at(s, start as int);
        let t = s.subrange(start as int, s.len() as int);
        lemma_trim_back_at(t, end - start);
        assert(t.subrange(0, end - start) =~= s.subrange(start as int, end as int));
    }
    let mut out: Vec<char> = Vec::new();
    let mut j: usize = start;
    while j < end
        invariant
            s == input@,
            n == s.len(),
            start <= j <= end <= n,
            out@.len() == j - start,
            forall|k: int| 0 <= k < out@.len() ==> out@[k] == s[start + k],
        decreases end - j,
    {
        let c = input.get_char(j);
        out.push(c);
        j = j + 1;
    }
    proof {
        assert(out@ =~= s.subrange(start as int, end as int));
    }
    out
}

/// The characters of `v`, each folded to lowercase.
pub fn lower_text(v: &Vec<char>) -> (out: Vec<char>)
    ensures
        out@ == lower_all(v@),
{
    let mut out: Vec<char> = Vec::new();
    let mut j: usize = 0;
    while j < v.len()
        invariant
            j <= v@.len(),
            out@.len() == j,
            forall|k: int| 0 <= k < out@.len() ==> out@[k] == to_lower(v@[k]),
        decreases v@.len() - j,
    {
        out.push(lower_char(v[j]));
        j = j + 1;
    }
    proof {
        assert(out@ =~= lower_all(v@));
    }
    out
}

/// The canonical form of `input`: trimmed, then case-folded.
pub fn normalize_text(input: &str) -> (out: Vec<char>)
    ensures
        out@ == normalize(input@),
{
    let t = trimmed_text(input);
    lower_text(&t)
}

} // verus!
