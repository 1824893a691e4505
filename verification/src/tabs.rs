//! Tab reconciliation: after an action that may have spawned extra browser
//! windows, close every window but the one that was active before the
//! action, and switch back to it — restoring the single-window invariant
//! whatever order the remote enumerates the handles in.

use vstd::prelude::*;

verus! {

broadcast use {
    vstd::seq_lib::group_filter_ensures,
    vstd::prelude::Seq::lemma_filter_push,
    vstd::prelude::Seq::lemma_filter_contains_rev,
};

/// The handles that must be closed: every enumerated handle other than the
/// one to keep. The enumeration order from the remote is not guaranteed
/// stable, so nothing here depends on where the kept handle stands.
pub open spec fn closable(handles: Seq<u64>, keep: u64) -> Seq<u64> {
    handles.filter(|h: u64| h != keep)
}

/// The windows that survive a sweep closing every handle listed in
/// `to_close`.
pub open spec fn surviving(open: Seq<u64>, to_close: Seq<u64>) -> Seq<u64> {
    open.filter(|x: u64| !to_close.contains(x))
}

/// A handle stands among the closable ones exactly when it was enumerated
/// and is not the one to keep.
pub proof fn lemma_closable_membership(handles: Seq<u64>, keep: u64)
    ensures
        forall|x: u64| #[trigger] closable(handles, keep).contains(x) <==> (handles.contains(x)
            && x != keep),
{
    assert forall|x: u64| handles.contains(x) && x != keep implies #[trigger] closable(
        handles,
        keep,
    ).contains(x) by {
        let i = choose|i: int| 0 <= i < handles.len() && handles[i] == x;
        assert(closable(handles, keep).contains(handles[i]));
    }
    assert forall|x: u64| #[trigger] closable(handles, keep).contains(x) implies (handles.contains(
        x,
    ) && x != keep) by {
        let i = choose|i: int|
            0 <= i < closable(handles, keep).len() && closable(handles, keep)[i] == x;
        assert(closable(handles, keep)[i] != keep);
    }
}

/// Whether the enumerated handles hold the given one.
pub fn contains_handle(handles: &Vec<u64>, x: u64) -> (r: bool)
    ensures
        r == handles@.contains(x),
{
    let mut i: usize = 0;
    while i < handles.len()
        invariant
            i <= handles@.len(),
            forall|j: int| 0 <= j < i ==> handles@[j] != x,
        decreases handles@.len() - i,
    {
        if handles[i] == x {
            return true;
        }
        i = i + 1;
    }
    false
}

/// Compute which handles to close so that only `keep` stays open.
pub fn plan_to_close(handles: &Vec<u64>, keep: u64) -> (plan: Vec<u64>)
    ensures
        plan@ == closable(handles@, keep),
{
    let mut plan: Vec<u64> = Vec::new();
    let mut i: usize = 0;
    while i < handles.len()
        invariant
            i <= handles@.len(),
            plan@ == closable(handles@.take(i as int), keep),
        decreases handles@.len() - i,
    {
        let h = handles[i];
        proof {
            assert(handles@.take(i as int + 1) =~= handles@.take(i as int).push(handles@[
                i as int]));
        }
        if h != keep {
            plan.push(h);
        }
        i = i + 1;
    }
    proof {
        assert(handles@.take(handles@.len() as int) =~= handles@);
    }
    plan
}

/// A model of the remote session's window state, as far as the reconciler
/// reads and changes it: the enumerable open handles and the active one.
#[derive(Debug, Clone, PartialEq, Eq)]
pub struct BrowserWindows {
    pub open_windows: Vec<u64>,
    pub active: u64,
}

impl BrowserWindows {
    /// The active handle is always one of the open windows.
    pub open spec fn wf(self) -> bool {
        self.open_windows@.contains(self.active)
    }

    /// Enumerate the open window handles, in whatever order they stand.
    pub fn list_windows(&self) -> (hs: Vec<u64>)
        ensures
            hs@ == self.open_windows@,
    {
        let mut hs: Vec<u64> = Vec::new();
        let mut i: usize = 0;
        while i < self.open_windows.len()
            invariant
                i <= self.open_windows@.len(),
                hs@ == self.open_windows@.take(i as int),
            decreases self.open_windows@.len() - i,
        {
            hs.push(self.open_windows[i]);
            proof {
                assert(self.open_windows@.take(i as int + 1) =~= self.open_windows@.take(
                    i as int,
                ).push(self.open_windows@[i as int]));
            }
            i = i + 1;
        }
        proof {
            assert(self.open_windows@.take(self.open_windows@.len() as int)
                =~= self.open_windows@);
        }
        hs
    }

    /// Make the given open window the active one.
    pub fn switch_to_window(&mut self, h: u64)
        requires
            old(self).open_windows@.contains(h),
        ensures
            final(self).open_windows == old(self).open_windows,
            final(self).active == h,
            final(self).wf(),
    {
        self.active = h;
    }

    /// The switch-and-close sweep: every open window whose handle stands in
    /// `to_close` is switched to and closed, one after the other. Which
    /// windows stay open does not depend on the order of either list.
    pub fn close_listed_windows(&mut self, to_close: &Vec<u64>)
        ensures
            final(self).open_windows@ == surviving(old(self).open_windows@, to_close@),
            final(self).active == old(self).active,
    {
        let mut kept: Vec<u64> = Vec::new();
        let mut i: usize = 0;
        while i < self.open_windows.len()
            invariant
                i <= self.open_windows@.len(),
                kept@ == surviving(self.open_windows@.take(i as int), to_close@),
            decreases self.open_windows@.len() - i,
        {
            let h = self.open_windows[i];
            proof {
                assert(self.open_windows@.take(i as int + 1) =~= self.open_windows@.take(
                    i as int,
                ).push(self.open_windows@[i as int]));
            }
            if !contains_handle(to_close, h) {
                kept.push(h);
            }
            i = i + 1;
        }
        proof {
            assert(self.open_windows@.take(self.open_windows@.len() as int)
                =~= self.open_windows@);
        }
        self.open_windows = kept;
    }

    /// Restore the single-window invariant: remember the handle active
    /// before the triggering action, close every other enumerated handle,
    /// and switch back to the remembered one. Afterwards the remembered
    /// window is the only open one and is active again, whatever order the
    /// handles were enumerated in; when no extra window exists the set of
    /// open windows is left as it was.
    pub fn reconcile_to_single_window(&mut self)
        requires
            old(self).wf(),
        ensures
            final(self).active == old(self).active,
            final(self).open_windows@.contains(old(self).active),
            forall|x: u64| final(self).open_windows@.contains(x) ==> x == old(self).active,
            final(self).open_windows@.to_set() =~= set![old(self).active],
            final(self).wf(),
    {
        let remembered = self.active;
        let handles = self.list_windows();
        let plan = plan_to_close(&handles, remembered);
        proof {
            lemma_closable_membership(handles@, remembered);
        }
        self.close_listed_windows(&plan);
        proof {
            let before = old(self).open_windows@;
            let kept = self.open_windows@;
            assert forall|x: u64| kept.contains(x) implies x == remembered by {
                let i = choose|i: int| 0 <= i < kept.len() && kept[i] == x;
                assert(!plan@.contains(kept[i]));
                assert(before.contains(x));
            }
            assert(kept.contains(remembered)) by {
                let i = choose|i: int| 0 <= i < before.len() && before[i] == remembered;
                assert(!plan@.contains(before[i]));
                assert(kept.contains(before[i]));
            }
        }
        self.switch_to_window(remembered);
        proof {
            assert(self.open_windows@.to_set() =~= set![remembered]);
        }
    }
}

} // verus!
