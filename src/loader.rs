use vstd::prelude::*;

verus! {

/// An asset whose data was not yet available when it was requested: its
/// path and the handle to poll.
pub struct PendingAsset<H> {
    pub path: String,
    pub handle: H,
}

/// The items of `items` whose flag equals `keep`, in their order.
pub open spec fn select<T>(items: Seq<T>, flags: Seq<bool>, keep: bool) -> Seq<T>
    decreases items.len(),
{
    if items.len() == 0 {
        Seq::empty()
    } else {
        let last = items.len() - 1;
        let rest = select(items.subrange(0, last), flags.subrange(0, last), keep);
        if flags[last] == keep {
            rest.push(items[last])
        } else {
            rest
        }
    }
}

/// Number of flags equal to `value`.
pub open spec fn count_flags(flags: Seq<bool>, value: bool) -> nat
    decreases flags.len(),
{
    if flags.len() == 0 {
        0
    } else {
        let last = flags.len() - 1;
        count_flags(flags.subrange(0, last), value) + if flags[last] == value {
            1nat
        } else {
            0nat
        }
    }
}

/// The set of assets whose loading is in flight, with no order required.
pub struct AssetLoader<H> {
    pub pending: Vec<PendingAsset<H>>,
}

impl<H> AssetLoader<H> {
    /// A loader with nothing pending.
    pub fn new() -> (l: AssetLoader<H>)
        ensures
            l.pending@.len() == 0,
    {
        AssetLoader { pending: Vec::new() }
    }

    /// Number of pending assets.
    pub fn pending_count(&self) -> (n: usize)
        ensures
            n == self.pending@.len(),
    {
        self.pending.len()
    }

    /// Records an asset whose data is not ready yet.
    pub fn add_pending(&mut self, path: String, handle: H)
        ensures
            final(self).pending@ == old(self).pending@.push(PendingAsset { path, handle }),
    {
        self.pending.push(PendingAsset { path, handle });
    }

    /// One poll of the pending set: `ready[i]` tells whether the handle of the
    /// `i`-th pending asset has its data. The ready ones leave the set and are
    /// handed back, in order, to be read and decoded; the others stay, untouched
    /// and in order.
    pub fn take_ready(&mut self, ready: &Vec<bool>) -> (resolved: Vec<PendingAsset<H>>)
        requires
            ready@.len() == old(self).pending@.len(),
        ensures
            resolved@ == select(old(self).pending@, ready@, true),
            final(self).pending@ == select(old(self).pending@, ready@, false),
    {
        let mut rest: Vec<PendingAsset<H>> = Vec::new();
        std::mem::swap(&mut rest, &mut self.pending);
        let ghost all = rest@;
        let n = rest.len();
        let mut resolved: Vec<PendingAsset<H>> = Vec::new();
        let mut i: usize = 0;
        while i < n
            invariant
                n == all.len(),
                ready@.len() == n,
                i <= n,
                rest@ == all.subrange(i as int, n as int),
                resolved@ == select(all.subrange(0, i as int), ready@.subrange(0, i as int), true),
                self.pending@ == select(
                    all.subrange(0, i as int),
                    ready@.subrange(0, i as int),
                    false,
                ),
            decreases n - i,
        {
            let item = rest.remove(0);
            proof {
                let p = all.subrange(0, i + 1);
                let f = ready@.subrange(0, i + 1);
                assert(p.subrange(0, i as int) =~= all.subrange(0, i as int));
                assert(f.subrange(0, i as int) =~= ready@.subrange(0, i as int));
                assert(p[i as int] == all[i as int]);
            }
            if ready[i] {
                resolved.push(item);
            } else {
                self.pending.push(item);
            }
            i = i + 1;
            proof {
                assert(rest@ =~= all.subrange(i as int, n as int));
            }
        }
        proof {
            assert(all.subrange(0, n as int) =~= all);
            assert(ready@.subrange(0, n as int) =~= ready@);
        }
        resolved
    }
}

/// Polling leaves a pending set in which nothing is ready as it was, and
/// resolves nothing; so any number of such polls changes nothing.
pub proof fn lemma_not_ready_untouched<T>(items: Seq<T>, flags: Seq<bool>)
    requires
        flags.len() == items.len(),
        forall|i: int| 0 <= i < flags.len() ==> !flags[i],
    ensures
        select(items, flags, false) == items,
        select(items, flags, true).len() == 0,
    decreases items.len(),
{
    if items.len() > 0 {
        let last = items.len() - 1;
        lemma_not_ready_untouched(items.subrange(0, last), flags.subrange(0, last));
        assert(items.subrange(0, last).push(items[last]) =~= items);
    }
}

/// Each pending asset goes to exactly one side of a poll: the ready ones,
/// whatever their bytes turn out to hold, are all resolved and leave the set,
/// and the others all stay.
pub proof fn lemma_poll_partitions<T>(items: Seq<T>, flags: Seq<bool>)
    requires
        flags.len() == items.len(),
    ensures
        select(items, flags, true).len() == count_flags(flags, true),
        select(items, flags, false).len() == count_flags(flags, false),
        select(items, flags, true).len() + select(items, flags, false).len() == items.len(),
    decreases items.len(),
{
    if items.len() > 0 {
        let last = items.len() - 1;
        lemma_poll_partitions(items.subrange(0, last), flags.subrange(0, last));
    }
}

/// Every asset that a poll keeps was flagged not ready, and every asset it
/// resolves was flagged ready: an asset resolved once is no longer pending,
/// so later polls cannot resolve it again.
pub proof fn lemma_poll_sides<T>(items: Seq<T>, flags: Seq<bool>, keep: bool)
    requires
        flags.len() == items.len(),
    ensures
        forall|j: int|
            #![trigger select(items, flags, keep)[j]]
            0 <= j < select(items, flags, keep).len() ==> exists|i: int|
                #![trigger items[i]]
                0 <= i < items.len() && flags[i] == keep && items[i] == select(
                    items,
                    flags,
                    keep,
                )[j],
    decreases items.len(),
{
    if items.len() > 0 {
        let last = items.len() - 1;
        let pre = items.subrange(0, last);
        let fpre = flags.subrange(0, last);
        lemma_poll_sides(pre, fpre, keep);
        let out = select(items, flags, keep);
        let rest = select(pre, fpre, keep);
        assert(out == if flags[last] == keep {
            rest.push(items[last])
        } else {
            rest
        });
        assert forall|j: int| 0 <= j < out.len() implies exists|i: int|
            #![trigger items[i]]
            0 <= i < items.len() && flags[i] == keep && items[i] == #[trigger] out[j] by {
            if j < rest.len() {
                let i = choose|i: int|
                    #![trigger pre[i]]
                    0 <= i < pre.len() && fpre[i] == keep && pre[i] == rest[j];
                assert(out[j] == rest[j]);
                assert(items[i] == pre[i] && flags[i] == fpre[i]);
            } else {
                assert(flags[last] == keep);
                assert(out[j] == items[last]);
            }
        }
    }
}

} // verus!
