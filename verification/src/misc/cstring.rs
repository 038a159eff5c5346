//! Cleanup of fixed-width character buffers decoded from register data.

use vstd::prelude::*;

verus! {

/// The buffer with every position from the first NUL onward replaced by a
/// space: position `i` is blanked exactly when a NUL occurs at or before it.
pub open spec fn blank_from_first_nul(s: Seq<char>) -> Seq<char> {
    Seq::new(
        s.len(),
        |i: int|
            if exists|j: int| 0 <= j <= i && s[j] == '\0' {
                ' '
            } else {
                s[i]
            },
    )
}

/// Replace the first NUL of a fixed-width string buffer, and everything after
/// it, with spaces, so the buffer prints as a blank-padded string.
pub fn fix_zeroterminated_string(data: &mut Vec<char>)
    ensures
        final(data)@ == blank_from_first_nul(old(data)@),
{
    let mut first_zero: Option<usize> = None;
    let n = data.len();
    let mut i: usize = 0;
    while i < n
        invariant
            i <= n,
            n == data@.len(),
            data@.len() == old(data)@.len(),
            forall|k: int| i <= k < n ==> data@[k] == old(data)@[k],
            forall|k: int| 0 <= k < i ==> data@[k] == blank_from_first_nul(old(data)@)[k],
            first_zero is Some <==> exists|j: int| 0 <= j < i && old(data)@[j] == '\0',
        decreases n - i,
    {
        if data[i] == '\0' {
            first_zero = Some(i);
        }
        if first_zero.is_some() {
            data.set(i, ' ');
        }
        i += 1;
    }
    proof {
        assert(data@ =~= blank_from_first_nul(old(data)@));
    }
}

} // verus!
