//! Capped history buffers: body trails and the rewind history.

use vstd::prelude::*;

use std::collections::VecDeque;

verus! {

/// The buffer after recording `item` under a cap of `max_len` entries: the
/// newest `max_len` of the old entries followed by `item` (nothing is
/// recorded under a cap of 0).
pub open spec fn spec_push_capped<T>(s: Seq<T>, item: T, max_len: nat) -> Seq<T> {
    if max_len == 0 {
        s
    } else {
        let t = s.push(item);
        if t.len() > max_len {
            t.skip(t.len() - max_len)
        } else {
            t
        }
    }
}

/// Appends `item` at the back and drops entries from the front until at
/// most `max_len` remain; a cap of 0 records nothing.
pub fn push_capped<T>(buf: &mut VecDeque<T>, item: T, max_len: usize)
    ensures
        final(buf)@ == spec_push_capped(old(buf)@, item, max_len as nat),
{
    if max_len == 0 {
        return;
    }
    let ghost t = old(buf)@.push(item);
    buf.push_back(item);
    while buf.len() > max_len
        invariant
            max_len > 0,
            buf@.len() <= t.len(),
            t.len() > max_len ==> buf@.len() >= max_len,
            t.len() <= max_len ==> buf@.len() == t.len(),
            buf@ == t.skip(t.len() - buf@.len()),
        decreases buf@.len(),
    {
        let ghost before = buf@;
        let _ = buf.pop_front();
        assert(buf@ =~= t.skip(t.len() - buf@.len())) by {
            assert(buf@ == before.subrange(1, before.len() as int));
        }
    }
    assert(t.len() <= max_len ==> t.skip(0) =~= t);
}

/// A capped buffer never holds more than its cap, and what was recorded
/// last sits at the back.
pub proof fn lemma_push_capped_bounded<T>(s: Seq<T>, item: T, max_len: nat)
    requires
        max_len > 0,
    ensures
        spec_push_capped(s, item, max_len).len() <= max_len,
        spec_push_capped(s, item, max_len).len() > 0,
        spec_push_capped(s, item, max_len).last() == item,
        s.len() < max_len ==> spec_push_capped(s, item, max_len) == s.push(item),
{
}

} // verus!
