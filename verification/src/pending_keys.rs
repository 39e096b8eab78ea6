//! Keys typed before the engine is there, kept for later.
use vstd::prelude::*;

verus! {


/// Kept keys, the oldest first. `K` is the engine's kind of a character.
pub struct PendingKeys<K> {
    pub keys: Vec<(char, K, bool)>,
}

impl<K> PendingKeys<K> {
    pub fn new() -> (r: Self)
        ensures
            r.keys@ == Seq::<(char, K, bool)>::empty(),
    {
        PendingKeys { keys: Vec::new() }
    }
}

pub fn push_pending_key<K>(pending: &mut PendingKeys<K>, c: char, kind: K, raw: bool)
    ensures
        final(pending).keys@ == old(pending).keys@.push((c, kind, raw)),
{
    pending.keys.push((c, kind, raw));
}

/// Hands out all kept keys in the order in which they were typed, and keeps none.
pub fn drain_pending_keys<K>(pending: &mut PendingKeys<K>) -> (r: Vec<(char, K, bool)>)
    ensures
        r@ == old(pending).keys@,
        final(pending).keys@ == Seq::<(char, K, bool)>::empty(),
{
    let mut out: Vec<(char, K, bool)> = Vec::new();
    std::mem::swap(&mut out, &mut pending.keys);
    out
}

}
