use vstd::prelude::*;

verus! {

/// What `char::is_alphanumeric` answers for a character: Unicode's alphabetic
/// or numeric property.
pub uninterp spec fn alphanumeric(c: char) -> bool;

/// Relies on `char::is_alphanumeric`, which decides by Unicode's tables whether
/// a character is alphabetic or numeric.
#[verifier::external_body]
fn is_alphanumeric(c: char) -> (r: bool)
    ensures
        r == alphanumeric(c),
{
    c.is_alphanumeric()
}

/// A room name: at least one character, and every character alphanumeric.
pub open spec fn valid_room_name(s: Seq<char>) -> bool {
    s.len() > 0 && forall|i: int| 0 <= i < s.len() ==> alphanumeric(#[trigger] s[i])
}

/// Whether `name` may name a room.
pub fn is_valid_room_name(name: &str) -> (r: bool)
    ensures
        r == valid_room_name(name@),
{
    let n = name.unicode_len();
    if n == 0 {
        return false;
    }
    let mut i: usize = 0;
    while i < n
        invariant
            n == name@.len(),
            i <= n,
            forall|j: int| 0 <= j < i ==> alphanumeric(#[trigger] name@[j]),
        decreases n - i,
    {
        let c = name.get_char(i);
        if !is_alphanumeric(c) {
            return false;
        }
        i = i + 1;
    }
    true
}

} // verus!
