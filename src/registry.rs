//! The registry of flags that wait for the next signal.
use vstd::prelude::*;

use crate::flag::Flag;

verus! {

/// The identities of a sequence of flags.
pub open spec fn ids(flags: Seq<Flag>) -> Seq<nat> {
    flags.map_values(|f: Flag| f.id())
}

/// The flags that wait for the next signal, in the order they were made.
pub struct Flags {
    flags: Vec<Flag>,
    minted: Ghost<nat>,
}

impl View for Flags {
    type V = Seq<nat>;

    /// The identities of the waiting flags, oldest first.
    closed spec fn view(&self) -> Seq<nat> {
        ids(self.flags@)
    }
}

/// `after` is `before` once `take` has handed out `batch`.
pub open spec fn taken(before: Flags, after: Flags, batch: Seq<Flag>) -> bool {
    &&& ids(batch) == before@
    &&& after@ == Seq::<nat>::empty()
    &&& after.minted() == before.minted()
}

/// `after` is `before` once `insert` has made `flag`.
pub open spec fn inserted(before: Flags, after: Flags, flag: Flag) -> bool {
    &&& flag.id() == before.minted()
    &&& after@ == before@.push(flag.id())
    &&& after.minted() == before.minted() + 1
}

impl Flags {
    /// How many flags this registry has made; the next one gets this identity.
    pub closed spec fn minted(self) -> nat {
        self.minted@
    }

    /// Every waiting flag was made here, and none waits twice.
    pub closed spec fn wf(self) -> bool {
        &&& forall|i: int| 0 <= i < self.flags@.len() ==> #[trigger] self.flags@[i].id() < self.minted@
        &&& forall|i: int, j: int|
            0 <= i < j < self.flags@.len() ==> #[trigger] self.flags@[i].id() != #[trigger] self.flags@[j].id()
    }

    /// In a well-formed registry every waiting identity is one it made, and
    /// none appears twice.
    pub proof fn lemma_wf_view(self)
        requires
            self.wf(),
        ensures
            forall|x: nat| self@.contains(x) ==> x < self.minted(),
            self@.no_duplicates(),
    {
        assert forall|x: nat| self@.contains(x) implies x < self.minted() by {
            let i = choose|i: int| 0 <= i < self@.len() && self@[i] == x;
            assert(self.flags@[i].id() == x);
        }
        assert forall|i: int, j: int| 0 <= i < self@.len() && 0 <= j < self@.len() && i != j implies self@[i]
            != self@[j] by {
            if i < j {
                assert(self.flags@[i].id() != self.flags@[j].id());
            } else {
                assert(self.flags@[j].id() != self.flags@[i].id());
            }
        }
    }

    /// Hands out every waiting flag, oldest first, and leaves none waiting.
    /// The caller signals them.
    pub fn take(&mut self) -> (r: Vec<Flag>)
        requires
            old(self).wf(),
        ensures
            final(self).wf(),
            taken(*old(self), *final(self), r@),
    {
        let mut out: Vec<Flag> = Vec::new();
        std::mem::swap(&mut out, &mut self.flags);
        proof {
            assert(ids(self.flags@) =~= Seq::<nat>::empty());
        }
        out
    }

    /// Makes a new flag, keeps a handle to it among the waiting flags, and
    /// returns the other handle for the caller to wait on.
    pub fn insert(&mut self) -> (r: Flag)
        requires
            old(self).wf(),
        ensures
            final(self).wf(),
            inserted(*old(self), *final(self), r),
    {
        let flag = Flag::with_id(Ghost(self.minted@));
        let kept = flag.clone();
        self.flags.push(kept);
        self.minted = Ghost(self.minted@ + 1);
        proof {
            assert(ids(self.flags@) =~= ids(old(self).flags@).push(flag.id()));
        }
        flag
    }
}

impl Default for Flags {
    /// A registry with no flags.
    fn default() -> (r: Flags)
        ensures
            r.wf(),
            r@ == Seq::<nat>::empty(),
    {
        let r = Flags { flags: Vec::new(), minted: Ghost(0) };
        proof {
            assert(ids(r.flags@) =~= Seq::<nat>::empty());
        }
        r
    }
}

/// Hands out every waiting flag and signals each, so that every task that
/// waits on one of them completes. Leaves no flag waiting.
pub fn signal(flags: &mut Flags)
    requires
        old(flags).wf(),
    ensures
        final(flags).wf(),
        final(flags)@ == Seq::<nat>::empty(),
        final(flags).minted() == old(flags).minted(),
{
    let batch = flags.take();
    let mut i: usize = 0;
    while i < batch.len()
        invariant
            i <= batch@.len(),
        decreases batch@.len() - i,
    {
        batch[i].signal();
        i = i + 1;
    }
}

/// Two takes with no insert between them: the second hands out nothing.
pub proof fn lemma_drain_once(r0: Flags, r1: Flags, r2: Flags, b1: Seq<Flag>, b2: Seq<Flag>)
    requires
        taken(r0, r1, b1),
        taken(r1, r2, b2),
    ensures
        b2.len() == 0,
{
    assert(ids(b2).len() == b2.len());
}

/// A take hands out exactly the flags that waited, each once; a flag made
/// after it is not among them and waits, alone, for the next take.
pub proof fn lemma_registry_isolation(
    r0: Flags,
    r1: Flags,
    r2: Flags,
    batch: Seq<Flag>,
    flag: Flag,
)
    requires
        r0.wf(),
        taken(r0, r1, batch),
        inserted(r1, r2, flag),
    ensures
        ids(batch) == r0@,
        ids(batch).no_duplicates(),
        !ids(batch).contains(flag.id()),
        r2@ == seq![flag.id()],
{
    r0.lemma_wf_view();
    assert(r2@ =~= seq![flag.id()]);
}

} // verus!
