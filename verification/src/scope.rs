//! Cancellation scopes: a tree of one-shot signals, in which cancelling a
//! scope cancels everything derived from it and nothing else.
//!
//! A scope is known by its lineage, the identities on the way from its root
//! down to itself. The registry hands out the identities and remembers which
//! scopes were cancelled; a scope counts as cancelled as soon as one identity
//! of its lineage was. Beside its lineage a scope holds a token, which the
//! registry cancels along with the scope: the token is what wakes the tasks
//! that sleep until the scope is cancelled.
//!
//! Scopes belong to the registry that made them. A registry turns away a
//! scope whose identity it has not handed out; it cannot tell its own scopes
//! from those of another registry that uses the same identities.

use tokio_util::sync::{CancellationToken, WaitForCancellationFutureOwned};
use vstd::prelude::*;

verus! {

/// `tokio_util::sync::CancellationToken`, of which nothing is seen from here:
/// a token is carried along with its scope.
#[verifier::external_type_specification]
#[verifier::external_body]
pub struct ExCancellationToken(CancellationToken);

/// `tokio_util::sync::WaitForCancellationFutureOwned`, the future that a task
/// awaits. Nothing is seen of it from here.
#[verifier::external_type_specification]
#[verifier::external_body]
pub struct ExWaitForCancellationFutureOwned(WaitForCancellationFutureOwned);

/// `CancellationToken::new` makes a token of its own. Nothing is claimed of
/// the token: whether one is cancelled is shared state, which no contract here
/// speaks of.
pub assume_specification[ CancellationToken::new ]() -> (token: CancellationToken)
;

/// `CancellationToken::child_token` makes a token that is cancelled as soon as
/// `parent` is, and can be cancelled by itself. Nothing is claimed of it.
pub assume_specification[ CancellationToken::child_token ](parent: &CancellationToken) -> (token:
    CancellationToken)
;

/// `CancellationToken::cancel` cancels the token and those derived from it,
/// and wakes the tasks that wait on them. Nothing is claimed of it.
pub assume_specification[ CancellationToken::cancel ](token: &CancellationToken)
;

/// `CancellationToken::cancelled_owned` makes the future that is over once
/// the token is cancelled. Nothing is claimed of it.
pub assume_specification[ CancellationToken::cancelled_owned ](token: CancellationToken) -> (wait:
    WaitForCancellationFutureOwned)
;

/// `CancellationToken::clone` makes a second handle to the same token. Nothing
/// is claimed of it.
pub assume_specification[ <CancellationToken as Clone>::clone ](token: &CancellationToken) -> (copy:
    CancellationToken)
;

/// Each identity is greater than the ones before it, and there is at least one.
pub open spec fn is_lineage(ids: Seq<u64>) -> bool {
    &&& ids.len() > 0
    &&& forall|i: int, j: int| 0 <= i < j < ids.len() ==> ids[i] < ids[j]
}

/// The lineage of the scope that the scope with lineage `ids` was derived
/// from; empty for a root.
pub open spec fn parent_of(ids: Seq<u64>) -> Seq<u64> {
    ids.drop_last()
}

/// Whether `ids` is the lineage of `ancestor` itself or of a scope derived
/// from it, in one step or in several.
pub open spec fn is_within(ids: Seq<u64>, ancestor: Seq<u64>) -> bool {
    ancestor.is_prefix_of(ids)
}

/// What a registry holds.
pub struct RegistryView {
    /// How many identities were handed out: they are the numbers below it.
    pub issued: nat,
    /// The identities of the scopes that were cancelled themselves.
    pub cancelled: Set<u64>,
}

impl RegistryView {
    /// No identity that was not handed out counts as cancelled.
    pub open spec fn wf(self) -> bool {
        forall|id: u64| self.cancelled.contains(id) ==> id < self.issued
    }

    /// Whether the lineage is one that this registry can have handed out: a
    /// lineage that ends in an identity below those still to come.
    pub open spec fn knows(self, ids: Seq<u64>) -> bool {
        is_lineage(ids) && ids.last() < self.issued
    }

    /// Whether the scope with this lineage is cancelled: it was itself, or a
    /// scope that it descends from was.
    pub open spec fn cancels(self, ids: Seq<u64>) -> bool {
        exists|i: int| 0 <= i < ids.len() && self.cancelled.contains(#[trigger] ids[i])
    }

    /// Whether this registry can have come from `earlier`: no identity was
    /// taken back, and no cancellation.
    pub open spec fn extends(self, earlier: RegistryView) -> bool {
        earlier.issued <= self.issued && earlier.cancelled.subset_of(self.cancelled)
    }

    /// The registry after the scope with lineage `ids` was cancelled.
    pub open spec fn after_cancel(self, ids: Seq<u64>) -> RegistryView {
        if self.knows(ids) && !self.cancels(ids) {
            RegistryView { issued: self.issued, cancelled: self.cancelled.insert(ids.last()) }
        } else {
            self
        }
    }

    /// The registry after one more identity was handed out.
    pub open spec fn after_issue(self) -> RegistryView {
        RegistryView { issued: self.issued + 1, cancelled: self.cancelled }
    }

    /// Whether one more identity can be handed out.
    pub open spec fn has_room(self) -> bool {
        self.issued < u64::MAX
    }
}

/// Hands out scopes and remembers which of them were cancelled.
#[derive(Debug)]
pub struct ScopeRegistry {
    issued: u64,
    cancelled: Vec<u64>,
}

/// A cancellable stretch of work.
#[derive(Debug, PartialEq, Eq)]
pub struct CancellationScope {
    lineage: Vec<u64>,
    token: CancellationToken,
}

impl View for ScopeRegistry {
    type V = RegistryView;

    closed spec fn view(&self) -> RegistryView {
        RegistryView { issued: self.issued as nat, cancelled: self.cancelled@.to_set() }
    }
}

impl View for CancellationScope {
    type V = Seq<u64>;

    closed spec fn view(&self) -> Seq<u64> {
        self.lineage@
    }
}

/// Whether `id` is among `ids`.
fn holds(ids: &Vec<u64>, id: u64) -> (found: bool)
    ensures
        found == ids@.contains(id),
{
    let mut i: usize = 0;
    while i < ids.len()
        invariant
            i <= ids.len(),
            forall|k: int| 0 <= k < i ==> ids@[k] != id,
        decreases ids.len() - i,
    {
        if ids[i] == id {
            return true;
        }
        i += 1;
    }
    false
}

impl CancellationScope {
    #[verifier::type_invariant]
    spec fn inv(self) -> bool {
        is_lineage(self.lineage@)
    }

    /// The identity of the scope itself, the last of a lineage that grows from
    /// the root down.
    pub fn id(&self) -> (id: u64)
        ensures
            id == self@.last(),
            is_lineage(self@),
    {
        proof {
            use_type_invariant(self);
        }
        self.lineage[self.lineage.len() - 1]
    }

    /// What a task awaits to sleep until the scope is cancelled. The wait is
    /// over at once where the scope is cancelled already, and it suspends
    /// nobody but the task that awaits it.
    pub fn wait_cancelled(&self) -> WaitForCancellationFutureOwned {
        self.token.clone().cancelled_owned()
    }
}

impl Clone for CancellationScope {
    /// A second handle to the same scope.
    fn clone(&self) -> (copy: CancellationScope)
        ensures
            copy@ == self@,
    {
        proof {
            use_type_invariant(self);
        }
        CancellationScope { lineage: self.lineage.clone(), token: self.token.clone() }
    }
}

impl ScopeRegistry {
    #[verifier::type_invariant]
    spec fn inv(self) -> bool {
        forall|i: int| 0 <= i < self.cancelled@.len() ==> self.cancelled@[i] < self.issued
    }

    /// How many identities were handed out. None above them counts as
    /// cancelled.
    pub fn issued(&self) -> (issued: u64)
        ensures
            issued == self@.issued,
            self@.wf(),
    {
        proof {
            use_type_invariant(self);
            assert forall|id: u64| self@.cancelled.contains(id) implies id < self@.issued by {
                let k = choose|k: int| 0 <= k < self.cancelled@.len() && self.cancelled@[k] == id;
            }
        }
        self.issued
    }

    /// A registry that has handed out nothing yet.
    pub fn new() -> (registry: ScopeRegistry)
        ensures
            registry@.issued == 0,
            registry@.cancelled == Set::<u64>::empty(),
    {
        let registry = ScopeRegistry { issued: 0, cancelled: Vec::new() };
        assert(registry.cancelled@.to_set() =~= Set::<u64>::empty());
        registry
    }

    /// Whether the scope is one that this registry can have handed out.
    pub fn knows(&self, scope: &CancellationScope) -> (known: bool)
        ensures
            known == self@.knows(scope@),
    {
        proof {
            use_type_invariant(scope);
        }
        scope.id() < self.issued
    }

    /// A scope that descends from no other. There is none to be had once
    /// every identity is handed out.
    pub fn create_root(&mut self) -> (root: Option<CancellationScope>)
        ensures
            root is Some <==> old(self)@.has_room(),
            root is None ==> final(self)@ == old(self)@,
            root matches Some(scope) ==> {
                &&& scope@ == seq![old(self)@.issued as u64]
                &&& final(self)@ == old(self)@.after_issue()
                &&& final(self)@.knows(scope@)
                &&& !final(self)@.cancels(scope@)
            },
            final(self)@.extends(old(self)@),
    {
        proof {
            use_type_invariant(&*self);
        }
        if self.issued == u64::MAX {
            return None;
        }
        let id = self.issued;
        let mut lineage: Vec<u64> = Vec::new();
        lineage.push(id);
        self.issued = id + 1;
        assert(lineage@ =~= seq![id]);
        Some(CancellationScope { lineage, token: CancellationToken::new() })
    }

    /// A scope derived from `parent`: cancelled when `parent` is, or becomes
    /// so, and cancellable by itself. There is none to be had from a scope
    /// that the registry does not know, nor once every identity is handed out.
    pub fn child(&mut self, parent: &CancellationScope) -> (child: Option<CancellationScope>)
        ensures
            child is Some <==> old(self)@.knows(parent@) && old(self)@.has_room(),
            child is None ==> final(self)@ == old(self)@,
            child matches Some(scope) ==> {
                &&& scope@ == parent@.push(old(self)@.issued as u64)
                &&& final(self)@ == old(self)@.after_issue()
                &&& final(self)@.knows(scope@)
                &&& final(self)@.cancels(scope@) == old(self)@.cancels(parent@)
            },
            final(self)@.extends(old(self)@),
    {
        proof {
            use_type_invariant(&*self);
            use_type_invariant(parent);
        }
        if self.issued == u64::MAX || parent.id() >= self.issued {
            return None;
        }
        let id = self.issued;
        let mut lineage = parent.lineage.clone();
        lineage.push(id);
        self.issued = id + 1;
        proof {
            assert(lineage@ == parent@.push(id));
            assert(!self@.cancelled.contains(id));
            if old(self)@.cancels(parent@) {
                let i = choose|i: int|
                    0 <= i < parent@.len() && old(self)@.cancelled.contains(#[trigger] parent@[i]);
                assert(lineage@[i] == parent@[i]);
            }
            if self@.cancels(lineage@) {
                let i = choose|i: int|
                    0 <= i < lineage@.len() && self@.cancelled.contains(#[trigger] lineage@[i]);
                assert(i < parent@.len());
                assert(parent@[i] == lineage@[i]);
            }
        }
        Some(CancellationScope { lineage, token: parent.token.child_token() })
    }

    /// Whether the scope is cancelled: it was itself, or a scope that it
    /// descends from was.
    pub fn is_cancelled(&self, scope: &CancellationScope) -> (cancelled: bool)
        ensures
            cancelled == self@.cancels(scope@),
    {
        let mut i: usize = 0;
        while i < scope.lineage.len()
            invariant
                i <= scope.lineage.len(),
                forall|k: int| 0 <= k < i ==> !self.cancelled@.contains(#[trigger] scope.lineage@[k]),
            decreases scope.lineage.len() - i,
        {
            if holds(&self.cancelled, scope.lineage[i]) {
                return true;
            }
            i += 1;
        }
        false
    }

    /// Cancels the scope and with it every scope derived from it, and wakes
    /// the tasks that wait on their tokens. Returns whether this call is the
    /// one that cancelled the scope: a scope that is cancelled already, or
    /// that the registry does not know, is left as it is.
    pub fn cancel(&mut self, scope: &CancellationScope) -> (fresh: bool)
        ensures
            fresh == (old(self)@.knows(scope@) && !old(self)@.cancels(scope@)),
            final(self)@ == old(self)@.after_cancel(scope@),
            final(self)@.extends(old(self)@),
            old(self)@.knows(scope@) ==> final(self)@.cancels(scope@),
    {
        proof {
            use_type_invariant(&*self);
            use_type_invariant(scope);
        }
        if !self.knows(scope) || self.is_cancelled(scope) {
            return false;
        }
        let id = scope.id();
        // The registry is taken apart and put together again around the
        // push: its rule has to hold whenever the registry is whole.
        let mut taken = ScopeRegistry { issued: 0, cancelled: Vec::new() };
        core::mem::swap(self, &mut taken);
        let ScopeRegistry { issued, mut cancelled } = taken;
        cancelled.push(id);
        *self = ScopeRegistry { issued, cancelled };
        scope.token.cancel();
        proof {
            assert(self.cancelled@ == old(self).cancelled@.push(id));
            assert(self@.cancelled =~= old(self)@.cancelled.insert(id)) by {
                assert forall|x: u64| self.cancelled@.contains(x) <==> old(self).cancelled@.contains(
                    x,
                ) || x == id by {
                    if self.cancelled@.contains(x) {
                        let k = choose|k: int|
                            0 <= k < self.cancelled@.len() && self.cancelled@[k] == x;
                        if k < old(self).cancelled@.len() {
                            assert(old(self).cancelled@[k] == x);
                        }
                    }
                    if old(self).cancelled@.contains(x) {
                        let k = choose|k: int|
                            0 <= k < old(self).cancelled@.len() && old(self).cancelled@[k] == x;
                        assert(self.cancelled@[k] == x);
                    }
                    assert(self.cancelled@[self.cancelled@.len() - 1] == id);
                }
            }
            assert(self@.cancelled.contains(scope@[scope@.len() - 1]));
        }
        true
    }
}

/// A registry comes from itself.
pub proof fn extends_is_reflexive(r: RegistryView)
    ensures
        r.extends(r),
{
}

/// What comes from a registry that came from another comes from that one too.
pub proof fn extends_is_transitive(first: RegistryView, second: RegistryView, third: RegistryView)
    requires
        second.extends(first),
        third.extends(second),
    ensures
        third.extends(first),
{
}

/// Cancellation never reverts: a scope that is cancelled stays so in every
/// registry that comes from this one, whatever was created or cancelled since.
pub proof fn cancellation_is_permanent(earlier: RegistryView, later: RegistryView, ids: Seq<u64>)
    requires
        later.extends(earlier),
        earlier.cancels(ids),
    ensures
        later.cancels(ids),
{
    let i = choose|i: int| 0 <= i < ids.len() && earlier.cancelled.contains(#[trigger] ids[i]);
    assert(later.cancelled.contains(ids[i]));
}

/// After a scope of the registry was cancelled it is cancelled, and stays so.
pub proof fn cancel_takes_effect_for_good(r: RegistryView, later: RegistryView, ids: Seq<u64>)
    requires
        r.knows(ids),
        later.extends(r.after_cancel(ids)),
    ensures
        r.after_cancel(ids).cancels(ids),
        later.cancels(ids),
{
    let after = r.after_cancel(ids);
    if !r.cancels(ids) {
        assert(after.cancelled.contains(ids[ids.len() - 1]));
    }
    cancellation_is_permanent(after, later, ids);
}

/// Cancellation reaches down: with a scope, every scope derived from it is
/// cancelled, those derived before the cancellation and those derived after.
pub proof fn cancellation_reaches_descendants(r: RegistryView, ids: Seq<u64>, descendant: Seq<u64>)
    requires
        r.cancels(ids),
        is_within(descendant, ids),
    ensures
        r.cancels(descendant),
{
    let i = choose|i: int| 0 <= i < ids.len() && r.cancelled.contains(#[trigger] ids[i]);
    assert(descendant[i] == ids[i]);
}

/// Cancelling a scope changes nothing for a scope whose lineage does not hold
/// the identity of the cancelled one.
pub proof fn cancel_spares_unrelated(r: RegistryView, ids: Seq<u64>, other: Seq<u64>)
    requires
        is_lineage(ids),
        !other.contains(ids.last()),
    ensures
        r.after_cancel(ids).cancels(other) == r.cancels(other),
{
    let after = r.after_cancel(ids);
    if after.cancels(other) {
        let i = choose|i: int| 0 <= i < other.len() && after.cancelled.contains(#[trigger] other[i]);
        assert(other.contains(other[i]));
        assert(r.cancelled.contains(other[i]));
    }
    if r.cancels(other) {
        let i = choose|i: int| 0 <= i < other.len() && r.cancelled.contains(#[trigger] other[i]);
        assert(after.cancelled.contains(other[i]));
    }
}

/// Cancellation does not reach up: cancelling a scope leaves the scope that it
/// was derived from as it was.
pub proof fn cancel_spares_parent(r: RegistryView, ids: Seq<u64>)
    requires
        is_lineage(ids),
    ensures
        r.after_cancel(ids).cancels(parent_of(ids)) == r.cancels(parent_of(ids)),
{
    let parent = parent_of(ids);
    assert forall|i: int| 0 <= i < parent.len() implies parent[i] != ids.last() by {
        assert(parent[i] == ids[i]);
    }
    cancel_spares_unrelated(r, ids, parent);
}

/// Cancellation does not reach sideways: cancelling a scope leaves every other
/// scope derived from the same parent as it was.
pub proof fn cancel_spares_siblings(r: RegistryView, ids: Seq<u64>, sibling: Seq<u64>)
    requires
        is_lineage(ids),
        is_lineage(sibling),
        parent_of(sibling) == parent_of(ids),
        sibling != ids,
    ensures
        r.after_cancel(ids).cancels(sibling) == r.cancels(sibling),
{
    assert(sibling.len() == ids.len()) by {
        assert(parent_of(sibling).len() == sibling.len() - 1);
        assert(parent_of(ids).len() == ids.len() - 1);
    }
    assert forall|i: int| 0 <= i < sibling.len() implies sibling[i] != ids.last() by {
        if i < sibling.len() - 1 {
            assert(sibling[i] == parent_of(sibling)[i]);
            assert(ids[i] == parent_of(ids)[i]);
        } else {
            if sibling[i] == ids.last() {
                assert(sibling =~= parent_of(sibling).push(sibling.last()));
                assert(ids =~= parent_of(ids).push(ids.last()));
            }
        }
    }
    cancel_spares_unrelated(r, ids, sibling);
}

/// What can happen to a registry.
pub enum RegistryEvent {
    /// A scope was created, a root or a child: an identity was handed out.
    Issue,
    /// The scope with this lineage was cancelled.
    Cancel(Seq<u64>),
}

/// The registry after it went through `events`, in this order.
pub open spec fn after_events(r: RegistryView, events: Seq<RegistryEvent>) -> RegistryView
    decreases events.len(),
{
    if events.len() == 0 {
        r
    } else {
        let before = after_events(r, events.drop_last());
        match events.last() {
            RegistryEvent::Issue => before.after_issue(),
            RegistryEvent::Cancel(ids) => before.after_cancel(ids),
        }
    }
}

/// Whatever happens to a registry, it comes from what it was, and it keeps to
/// its rule if it did.
pub proof fn a_registry_only_grows(r: RegistryView, events: Seq<RegistryEvent>)
    ensures
        after_events(r, events).extends(r),
        r.wf() ==> after_events(r, events).wf(),
    decreases events.len(),
{
    if events.len() > 0 {
        a_registry_only_grows(r, events.drop_last());
    }
}

/// A cancelled scope is cancelled forever: whatever scopes are created and
/// cancelled afterwards, and however many, it stays cancelled, and so does
/// every scope derived from it, before or after.
pub proof fn cancelled_is_forever(
    r: RegistryView,
    events: Seq<RegistryEvent>,
    ids: Seq<u64>,
    descendant: Seq<u64>,
)
    requires
        r.cancels(ids),
        is_within(descendant, ids),
    ensures
        after_events(r, events).cancels(ids),
        after_events(r, events).cancels(descendant),
{
    a_registry_only_grows(r, events);
    cancellation_is_permanent(r, after_events(r, events), ids);
    cancellation_reaches_descendants(after_events(r, events), ids, descendant);
}

} // verus!
