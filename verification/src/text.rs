//! Verified text helpers: path-name extraction, quote trimming and decimal
//! formatting, used where the pipeline derives window titles, output paths
//! and displayable stream information.
use vstd::prelude::*;

verus! {

use vstd::string::StrSliceExecFns;
use vstd::string::StringExecFns;

/// The sequence left after removing every leading double quote.
pub open spec fn spec_trim_leading_quotes(s: Seq<char>) -> Seq<char>
    decreases s.len(),
{
    if s.len() > 0 && s.first() == '"' {
        spec_trim_leading_quotes(s.drop_first())
    } else {
        s
    }
}

/// The sequence left after removing every trailing double quote.
pub open spec fn spec_trim_trailing_quotes(s: Seq<char>) -> Seq<char>
    decreases s.len(),
{
    if s.len() > 0 && s.last() == '"' {
        spec_trim_trailing_quotes(s.drop_last())
    } else {
        s
    }
}

/// Every leading and trailing double quote removed, as `trim_matches('"')`
/// leaves a string.
pub open spec fn spec_trim_quotes(s: Seq<char>) -> Seq<char> {
    spec_trim_trailing_quotes(spec_trim_leading_quotes(s))
}

fn trim_leading_quotes(s: &str) -> (r: &str)
    ensures
        r@ == spec_trim_leading_quotes(s@),
    decreases s@.len(),
{
    let len = s.unicode_len();
    if len > 0 && s.get_char(0) == '"' {
        let rest = s.substring_char(1, len);
        proof {
            assert(rest@ == s@.drop_first());
        }
        trim_leading_quotes(rest)
    } else {
        s
    }
}

fn trim_trailing_quotes(s: &str) -> (r: &str)
    ensures
        r@ == spec_trim_trailing_quotes(s@),
    decreases s@.len(),
{
    let len = s.unicode_len();
    if len > 0 && s.get_char(len - 1) == '"' {
        let rest = s.substring_char(0, len - 1);
        proof {
            assert(rest@ == s@.drop_last());
        }
        trim_trailing_quotes(rest)
    } else {
        s
    }
}

/// Removes every leading and trailing double quote.
pub fn trim_quotes(s: &str) -> (r: &str)
    ensures
        r@ == spec_trim_quotes(s@),
{
    trim_trailing_quotes(trim_leading_quotes(s))
}

/// The largest index at which `c` occurs in `s`, if it occurs at all.
pub open spec fn spec_last_index_of(s: Seq<char>, c: char) -> Option<int> {
    if exists|i: int| 0 <= i < s.len() && s[i] == c {
        Option::Some(choose|i: int| 0 <= i < s.len() && s[i] == c
            && (forall|j: int| i < j < s.len() ==> s[j] != c))
    } else {
        Option::None
    }
}

/// The largest index at which `c` occurs, with nothing but other
/// characters after it; nothing when `c` does not occur.
pub fn last_index_of(s: &str, c: char) -> (r: Option<usize>)
    ensures
        match r {
            Option::Some(i) => {
                &&& 0 <= i < s@.len()
                &&& s@[i as int] == c
                &&& forall|j: int| i < j < s@.len() ==> s@[j] != c
            },
            Option::None => forall|j: int| 0 <= j < s@.len() ==> s@[j] != c,
        },
{
    let len = s.unicode_len();
    let mut found: Option<usize> = Option::None;
    let mut i: usize = 0;
    while i < len
        invariant
            len == s@.len(),
            i <= len,
            match found {
                Option::Some(k) => {
                    &&& 0 <= k < i
                    &&& s@[k as int] == c
                    &&& forall|j: int| k < j < i ==> s@[j] != c
                },
                Option::None => forall|j: int| 0 <= j < i ==> s@[j] != c,
            },
        decreases len - i,
    {
        if s.get_char(i) == c {
            found = Option::Some(i);
        }
        i = i + 1;
    }
    found
}

/// What follows the last `/` of a path, the whole path when it holds no
/// `/` at all.
pub open spec fn spec_file_name_of(path: Seq<char>) -> Seq<char> {
    if exists|i: int| 0 <= i < path.len() && path[i] == '/' {
        let i = choose|i: int| 0 <= i < path.len() && path[i] == '/'
            && (forall|j: int| i < j < path.len() ==> path[j] != '/');
        path.subrange(i + 1, path.len() as int)
    } else {
        path
    }
}

/// The final component of a path: everything after its last `/`.
pub fn file_name_of(path: &str) -> (r: String)
    ensures
        r@ == spec_file_name_of(path@),
{
    let len = path.unicode_len();
    match last_index_of(path, '/') {
        Option::Some(i) => {
            let name = path.substring_char(i + 1, len);
            proof {
                let wi = choose|k: int| 0 <= k < path@.len() && path@[k] == '/'
                    && (forall|j: int| k < j < path@.len() ==> path@[j] != '/');
                assert(wi == i as int) by {
                    if wi < i as int {
                        assert(path@[i as int] == '/');
                    } else if wi > i as int {
                        assert(path@[wi] == '/');
                    }
                }
            }
            String::from_str(name)
        },
        Option::None => {
            String::from_str(path)
        },
    }
}

/// The decimal digits of `n`, most significant first.
pub open spec fn spec_decimal(n: nat) -> Seq<char>
    decreases n,
{
    if n < 10 {
        seq![spec_digit_char(n)]
    } else {
        spec_decimal(n / 10) + seq![spec_digit_char(n % 10)]
    }
}

/// The character for one decimal digit.
pub open spec fn spec_digit_char(d: nat) -> char {
    "0123456789"@[d as int]
}

/// One decimal digit as a one-character string.
fn digit_str(d: u64) -> (r: &'static str)
    requires
        d < 10,
    ensures
        r@ == seq![spec_digit_char(d as nat)],
        r@.len() == 1,
{
    let digits = "0123456789";
    proof {
        reveal_strlit("0123456789");
    }
    let d_small = d as usize;
    digits.substring_ascii(d_small, d_small + 1)
}

/// `n` written in decimal.
pub fn u64_to_string(n: u64) -> (r: String)
    ensures
        r@ == spec_decimal(n as nat),
    decreases n,
{
    if n < 10 {
        String::from_str(digit_str(n))
    } else {
        let prefix = u64_to_string(n / 10);
        prefix.concat(digit_str(n % 10))
    }
}

} // verus!
