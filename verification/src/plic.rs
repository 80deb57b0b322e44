//! Model of the platform interrupt controller's two-phase claim/complete
//! protocol.
//!
//! The physical controller is an external collaborator reached over
//! memory-mapped registers; this module models its contract: a claim hands
//! out the next pending source and withholds it from delivery until the
//! matching completion re-arms it. Source id 0 is hard-wired by the
//! controller to mean "no interrupt" and never names a real source.

use vstd::prelude::*;

verus! {

/// Controller state: the sources pending delivery, in priority order, and
/// the sources claimed but not yet completed.
pub struct Plic {
    /// Sources awaiting delivery, highest priority first; never contains
    /// the reserved id 0 and never a duplicate.
    pub pending: Vec<u32>,
    /// Sources handed out by a claim and not yet completed; the controller
    /// withholds these from delivery.
    pub claimed: Vec<u32>,
}

/// The controller's invariant: no duplicates on either side, the reserved
/// id 0 nowhere, and no source both pending and claimed — a claimed source
/// is withheld until completed.
pub open spec fn plic_wf(p: Plic) -> bool {
    &&& p.pending@.no_duplicates()
    &&& p.claimed@.no_duplicates()
    &&& !p.pending@.contains(0u32)
    &&& !p.claimed@.contains(0u32)
    &&& forall|i: int| 0 <= i < p.pending@.len() ==> !p.claimed@.contains(#[trigger] p.pending@[i])
}

/// The claim transition: with nothing pending the claim reports absence and
/// changes nothing; otherwise the highest-priority pending source is handed
/// out, leaves the pending side and joins the claimed side.
pub open spec fn spec_claim(pending: Seq<u32>, claimed: Seq<u32>) -> (Option<u32>, Seq<u32>, Seq<u32>) {
    if pending.len() == 0 {
        (None, pending, claimed)
    } else {
        (Some(pending[0]), pending.drop_first(), claimed.push(pending[0]))
    }
}

impl Plic {
    /// A controller with nothing pending and nothing claimed.
    pub fn new() -> (r: Plic)
        ensures
            plic_wf(r),
            r.pending@ == Seq::<u32>::empty(),
            r.claimed@ == Seq::<u32>::empty(),
    {
        Plic { pending: Vec::new(), claimed: Vec::new() }
    }

    /// A device asserts its interrupt line. The source becomes pending
    /// unless it already is, or is currently claimed — a claimed source is
    /// withheld until its completion.
    pub fn raise(&mut self, source: u32)
        requires
            plic_wf(*old(self)),
            source != 0,
        ensures
            plic_wf(*final(self)),
            final(self).claimed@ == old(self).claimed@,
            old(self).pending@.contains(source) || old(self).claimed@.contains(source)
                ==> final(self).pending@ == old(self).pending@,
            !old(self).pending@.contains(source) && !old(self).claimed@.contains(source)
                ==> final(self).pending@ == old(self).pending@.push(source),
    {
        if !vec_contains(&self.pending, source) && !vec_contains(&self.claimed, source) {
            self.pending.push(source);
        }
    }

    /// Claim the next pending, highest-priority interrupt source, or learn
    /// that none is pending. A returned source is never the reserved id 0,
    /// and is withheld from further delivery until completed.
    pub fn claim_next(&mut self) -> (r: Option<u32>)
        requires
            plic_wf(*old(self)),
        ensures
            plic_wf(*final(self)),
            r == spec_claim(old(self).pending@, old(self).claimed@).0,
            final(self).pending@ == spec_claim(old(self).pending@, old(self).claimed@).1,
            final(self).claimed@ == spec_claim(old(self).pending@, old(self).claimed@).2,
            r is Some ==> r->Some_0 != 0,
    {
        if self.pending.len() == 0 {
            None
        } else {
            let source = self.pending.remove(0);
            assert(self.pending@ =~= old(self).pending@.drop_first());
            self.claimed.push(source);
            Some(source)
        }
    }

    /// Acknowledge that a claimed source has been serviced, re-arming the
    /// controller to deliver it again. Completing an unclaimed id is
    /// undefined at the hardware, so it is excluded here.
    pub fn complete(&mut self, source: u32)
        requires
            plic_wf(*old(self)),
            old(self).claimed@.contains(source),
        ensures
            plic_wf(*final(self)),
            final(self).pending@ == old(self).pending@,
            final(self).claimed@ == old(self).claimed@.remove_value(source),
    {
        let mut i: usize = 0;
        while i < self.claimed.len()
            invariant
                *self == *old(self),
                plic_wf(*old(self)),
                i <= self.claimed@.len(),
                forall|j: int| 0 <= j < i ==> self.claimed@[j] != source,
                self.claimed@.contains(source),
            decreases self.claimed@.len() - i,
        {
            if self.claimed[i] == source {
                proof {
                    let c = old(self).claimed@;
                    c.index_of_first_ensures(source);
                    let idx = c.index_of_first(source)->Some_0;
                    assert(idx == i);
                    c.remove_ensures(i as int);
                    assert forall|a: int, b: int|
                        0 <= a < c.remove(i as int).len() && 0 <= b < c.remove(i as int).len()
                            && a != b implies c.remove(i as int)[a] != c.remove(i as int)[b] by {
                        let a0: int = if a < i { a } else { a + 1 };
                        let b0: int = if b < i { b } else { b + 1 };
                        assert(c.no_duplicates());
                        assert(c.remove(i as int)[a] == c[a0]);
                        assert(c.remove(i as int)[b] == c[b0]);
                        assert(c[a0] != c[b0]);
                    }
                }
                self.claimed.remove(i);
                proof {
                    assert forall|v: u32| final(self).claimed@.contains(v)
                        implies old(self).claimed@.contains(v) by {
                        let k = choose|k: int|
                            0 <= k < final(self).claimed@.len() && final(self).claimed@[k] == v;
                        old(self).claimed@.remove_ensures(i as int);
                        if k < i {
                            assert(old(self).claimed@[k] == v);
                        } else {
                            assert(old(self).claimed@[k + 1] == v);
                        }
                    }
                }
                return;
            }
            i += 1;
        }
        proof {
            let k = choose|k: int|
                0 <= k < self.claimed@.len() && self.claimed@[k] == source;
            assert(self.claimed@[k] == source);
        }
    }
}

/// Linear scan for a value in a vector of source ids.
fn vec_contains(v: &Vec<u32>, x: u32) -> (r: bool)
    ensures
        r == v@.contains(x),
{
    let mut i: usize = 0;
    while i < v.len()
        invariant
            i <= v@.len(),
            forall|j: int| 0 <= j < i ==> v@[j] != x,
        decreases v@.len() - i,
    {
        if v[i] == x {
            return true;
        }
        i += 1;
    }
    false
}

/// The protocol property of the claim register: a claim followed at once by
/// a second claim, with no completion between, never hands out the same
/// source id — the first claim moved the source out of the pending set, and
/// the second draws only from what is left.
pub proof fn lemma_claim_twice_never_repeats(pending: Seq<u32>, claimed: Seq<u32>)
    requires
        pending.no_duplicates(),
        spec_claim(pending, claimed).0 is Some,
    ensures
        spec_claim(spec_claim(pending, claimed).1, spec_claim(pending, claimed).2).0
            != spec_claim(pending, claimed).0,
{
    let p1 = pending.drop_first();
    if p1.len() > 0 {
        assert(p1[0] == pending[1]);
        assert(pending[0] != pending[1]);
    }
}

} // verus!
