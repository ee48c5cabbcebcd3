//! Ownership: values that move into a function and come back, values that
//! are changed through a mutable borrow, and slices that borrow from a string.

use vstd::prelude::*;
use vstd::string::StringExecFns;
use vstd::string::StringSliceAdditionalSpecFns;
use vstd::utf8::decode_utf8;
use vstd::utf8::decode_utf8_split;
use vstd::utf8::encode_utf8;
use vstd::utf8::encode_utf8_decode_utf8;
use vstd::utf8::encode_utf8_valid_utf8;
use vstd::utf8::is_char_boundary;

verus! {

/// Takes a string, measures it, and hands it back together with its length
/// in bytes.
pub fn calculate_length(s: String) -> (r: (String, usize))
    ensures
        r.0@ == s@,
        r.1 == encode_utf8(s@).len(),
{
    let length = s.as_str().as_bytes().len();
    (s, length)
}

/// Appends `", world"` to a string that the caller keeps.
pub fn change1(some_string: &mut String)
    ensures
        final(some_string)@ == old(some_string)@ + ", world"@,
{
    some_string.append(", world");
}

/// Appends `", world"` to a string that the caller has given away: the
/// change is made to the function's own value and ends with it.
fn change(mut some_string: String) {
    let ghost before = some_string@;
    some_string.append(", world");
    assert(some_string@ == before + ", world"@);
}

/// Changes one string through a mutable borrow and another after taking it
/// over. The first comes out as `"hello, world"`; the second is gone.
pub fn borrowing_with_mutation() {
    let mut s1 = String::from_str("hello");
    change1(&mut s1);
    assert(s1@ == "hello"@ + ", world"@);

    let s2 = String::from_str("hello");
    change(s2);
}

/// Borrows the first `end` bytes of a string as a slice of their own.
pub fn prefix(s: &str, end: usize) -> (word: &str)
    requires
        is_char_boundary(s.spec_bytes(), end as int),
    ensures
        word.spec_bytes() == s.spec_bytes().subrange(0, end as int),
        word@.is_prefix_of(s@),
{
    let (word, _) = s.split_at(end);
    proof {
        let bytes = s.spec_bytes();
        encode_utf8_valid_utf8(s@);
        decode_utf8_split(bytes, end as int);
        encode_utf8_decode_utf8(s@);
        encode_utf8_decode_utf8(word@);
        assert(s@ == word@ + decode_utf8(bytes.subrange(end as int, bytes.len() as int)));
    }
    word
}

} // verus!
