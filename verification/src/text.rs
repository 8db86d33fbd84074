//! Verified text helpers: whitespace trimming and list joining.

use vstd::prelude::*;
use vstd::string::StrSliceExecFns;
use vstd::string::StringExecFns;

verus! {

/// The whitespace characters stripped from translated titles: the Unicode
/// characters with the White_Space property, the same set the standard
/// library's `char::is_whitespace` recognizes.
pub open spec fn is_space_char(c: char) -> bool {
    let n = c as u32;
    ||| n == 0x20
    ||| 0x09 <= n <= 0x0D
    ||| n == 0x85
    ||| n == 0xA0
    ||| n == 0x1680
    ||| 0x2000 <= n <= 0x200A
    ||| n == 0x2028
    ||| n == 0x2029
    ||| n == 0x202F
    ||| n == 0x205F
    ||| n == 0x3000
}

/// `s` with its leading whitespace removed.
pub open spec fn trim_front(s: Seq<char>) -> Seq<char>
    decreases s.len(),
{
    if s.len() > 0 && is_space_char(s[0]) {
        trim_front(s.drop_first())
    } else {
        s
    }
}

/// `s` with its trailing whitespace removed.
pub open spec fn trim_back(s: Seq<char>) -> Seq<char>
    decreases s.len(),
{
    if s.len() > 0 && is_space_char(s[s.len() - 1]) {
        trim_back(s.drop_last())
    } else {
        s
    }
}

/// `s` with surrounding whitespace removed.
pub open spec fn trimmed(s: Seq<char>) -> Seq<char> {
    trim_back(trim_front(s))
}

fn is_space(c: char) -> (r: bool)
    ensures
        r == is_space_char(c),
{
    let n = c as u32;
    n == 0x20 || (0x09 <= n && n <= 0x0D) || n == 0x85 || n == 0xA0 || n == 0x1680
        || (0x2000 <= n && n <= 0x200A) || n == 0x2028 || n == 0x2029 || n == 0x202F
        || n == 0x205F || n == 0x3000
}

proof fn lemma_trim_front_skip_step(s: Seq<char>, i: int)
    requires
        0 <= i < s.len(),
        is_space_char(s[i]),
    ensures
        trim_front(s.skip(i)) == trim_front(s.skip(i + 1)),
{
    assert(s.skip(i).drop_first() =~= s.skip(i + 1));
}

proof fn lemma_trim_back_take_step(s: Seq<char>, j: int)
    requires
        0 < j <= s.len(),
        is_space_char(s[j - 1]),
    ensures
        trim_back(s.take(j)) == trim_back(s.take(j - 1)),
{
    assert(s.take(j).drop_last() =~= s.take(j - 1));
}

/// Copy of `s` with surrounding whitespace removed.
pub fn trim_spaces(s: &str) -> (r: String)
    ensures
        r@ == trimmed(s@),
{
    let len = s.unicode_len();
    let mut from: usize = 0;
    assert(s@.skip(0) =~= s@);
    while from < len && is_space(s.get_char(from))
        invariant
            0 <= from <= len,
            len == s@.len(),
            trim_front(s@) == trim_front(s@.skip(from as int)),
        decreases len - from,
    {
        proof {
            lemma_trim_front_skip_step(s@, from as int);
        }
        from = from + 1;
    }
    assert(trim_front(s@) == s@.skip(from as int)) by {
        if from < len {
            assert(s@.skip(from as int)[0] == s@[from as int]);
        }
    }
    let ghost u = s@.skip(from as int);
    let mut to: usize = len;
    assert(u.take(to - from) =~= u);
    while to > from && is_space(s.get_char(to - 1))
        invariant
            from <= to <= len,
            len == s@.len(),
            u == s@.skip(from as int),
            trim_back(u) == trim_back(u.take(to - from)),
        decreases to,
    {
        proof {
            assert(u.take(to - from)[to - from - 1] == s@[to as int - 1]);
            lemma_trim_back_take_step(u, to - from);
        }
        to = to - 1;
    }
    assert(trim_back(u.take(to - from)) == u.take(to - from)) by {
        if to > from {
            assert(u.take(to - from)[to - from - 1] == s@[to as int - 1]);
        }
    }
    let out = s.substring_char(from, to);
    assert(out@ =~= u.take(to - from));
    out.to_owned()
}

} // verus!
