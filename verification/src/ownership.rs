//! Borrowing and ownership helpers over strings.

use vstd::prelude::*;

verus! {

use vstd::string::StrSliceExecFns;
use vstd::string::StringExecFns;

/// The length of a string, counted in characters.
pub fn calculate_length(s: &String) -> (len: usize)
    ensures
        len == s@.len(),
{
    s.as_str().unicode_len()
}

/// Appends the fixed greeting suffix to a borrowed string.
pub fn change_string(s: &mut String)
    ensures
        final(s)@ == old(s)@ + ", world"@,
{
    s.append(", world");
}

/// Hands a fresh owned string to the caller.
pub fn give_ownership() -> (s: String)
    ensures
        s@ == "hello from give_ownership"@,
{
    "hello from give_ownership".to_owned()
}

/// The longest space-free prefix of a string: everything up to, and not
/// including, the first space.
pub fn first_word(s: &str) -> (r: &str)
    ensures
        r@.len() <= s@.len(),
        r@ == s@.subrange(0, r@.len() as int),
        forall|j: int| 0 <= j < r@.len() ==> s@[j] != ' ',
        r@.len() < s@.len() ==> s@[r@.len() as int] == ' ',
{
    let n = s.unicode_len();
    let mut i: usize = 0;
    while i < n
        invariant
            n == s@.len(),
            0 <= i <= n,
            forall|j: int| 0 <= j < i ==> s@[j] != ' ',
        decreases n - i,
    {
        if s.get_char(i) == ' ' {
            let r = s.substring_char(0, i);
            return r;
        }
        i = i + 1;
    }
    proof {
        assert(s@ =~= s@.subrange(0, s@.len() as int));
    }
    s
}

/// Of two strings, the one with more characters; ties go to the second.
pub fn longest<'a>(x: &'a str, y: &'a str) -> (r: &'a str)
    ensures
        r@ == (if x@.len() > y@.len() {
            x@
        } else {
            y@
        }),
{
    if x.unicode_len() > y.unicode_len() {
        x
    } else {
        y
    }
}

} // verus!
