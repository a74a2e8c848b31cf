//! The privacy policy: which hazards block a request, for every device or
//! for one device.

use std::collections::HashMap;
use vstd::prelude::*;

use crate::hazards::{Hazard, Hazards};

verus! {

/// The hazards of `declared` that `rule` blocks, in the order of `declared`.
pub open spec fn blocked(rule: Seq<Hazard>, declared: Seq<Hazard>) -> Seq<Hazard>
    decreases declared.len(),
{
    if declared.len() == 0 {
        Seq::empty()
    } else {
        let rest = blocked(rule, declared.drop_last());
        if rule.contains(declared.last()) {
            rest.push(declared.last())
        } else {
            rest
        }
    }
}

/// What a [`Policy`] says: the hazards blocked for every device, and the
/// hazards blocked for single devices, by device identifier.
pub struct PolicyView {
    /// Hazards blocked for every device.
    pub global: Seq<Hazard>,
    /// Hazards blocked for one device each.
    pub local: Map<usize, Seq<Hazard>>,
}

impl PolicyView {
    /// The hazards blocked for the device `id` alone: none where the policy
    /// has no entry for it.
    pub open spec fn local_rule(self, id: usize) -> Seq<Hazard> {
        if self.local.contains_key(id) {
            self.local[id]
        } else {
            Seq::empty()
        }
    }

    /// The declared hazards that are blocked for every device.
    pub open spec fn global_blocked(self, declared: Seq<Hazard>) -> Seq<Hazard> {
        blocked(self.global, declared)
    }

    /// The declared hazards that are blocked for the device `id`.
    pub open spec fn local_blocked(self, id: usize, declared: Seq<Hazard>) -> Seq<Hazard> {
        blocked(self.local_rule(id), declared)
    }

    /// Whether a request of the device `id` that declares `declared` is
    /// suppressed: either rule blocks at least one of its hazards.
    pub open spec fn skips(self, id: usize, declared: Seq<Hazard>) -> bool {
        self.global_blocked(declared).len() > 0 || self.local_blocked(id, declared).len() > 0
    }
}

/// The blocked hazards are, as a set, the intersection of the declared
/// hazards with the rule.
pub proof fn lemma_blocked_is_intersection(rule: Seq<Hazard>, declared: Seq<Hazard>)
    ensures
        blocked(rule, declared).to_set() == declared.to_set().intersect(rule.to_set()),
    decreases declared.len(),
{
    let left = blocked(rule, declared).to_set();
    let right = declared.to_set().intersect(rule.to_set());
    if declared.len() > 0 {
        let rest = declared.drop_last();
        lemma_blocked_is_intersection(rule, rest);
        assert forall|hazard: Hazard| left.contains(hazard) <==> right.contains(hazard) by {
            let inner = blocked(rule, rest);
            if left.contains(hazard) {
                let i = choose|i: int|
                    0 <= i < blocked(rule, declared).len() && blocked(rule, declared)[i] == hazard;
                if i < inner.len() {
                    assert(inner.to_set().contains(hazard));
                    let k = choose|k: int| 0 <= k < rest.len() && rest[k] == hazard;
                    assert(declared[k] == hazard);
                } else {
                    assert(declared[declared.len() - 1] == hazard);
                }
            }
            if right.contains(hazard) {
                let k = choose|k: int| 0 <= k < declared.len() && declared[k] == hazard;
                if k < rest.len() {
                    assert(rest[k] == hazard);
                    assert(inner.to_set().contains(hazard));
                    let i = choose|i: int| 0 <= i < inner.len() && inner[i] == hazard;
                    assert(blocked(rule, declared)[i] == hazard);
                } else {
                    assert(blocked(rule, declared)[blocked(rule, declared).len() - 1] == hazard);
                }
            }
        }
    }
}

/// A request that declares no hazard is never suppressed, whatever the
/// policy says.
pub proof fn lemma_no_hazards_never_skipped(policy: PolicyView, id: usize)
    ensures
        !policy.skips(id, Seq::empty()),
        policy.global_blocked(Seq::empty()) == Seq::<Hazard>::empty(),
        policy.local_blocked(id, Seq::empty()) == Seq::<Hazard>::empty(),
{
}

/// A request is suppressed exactly when the hazards blocked for every
/// device, together with those blocked for its own device, are not the empty
/// set; and each of the two is the intersection of the declared hazards with
/// the rule.
pub proof fn lemma_skips_iff_some_hazard_blocked(
    policy: PolicyView,
    id: usize,
    declared: Seq<Hazard>,
)
    ensures
        policy.skips(id, declared) <==> policy.global_blocked(declared).to_set().union(
            policy.local_blocked(id, declared).to_set(),
        ) != Set::<Hazard>::empty(),
        policy.global_blocked(declared).to_set() == declared.to_set().intersect(
            policy.global.to_set(),
        ),
        policy.local_blocked(id, declared).to_set() == declared.to_set().intersect(
            policy.local_rule(id).to_set(),
        ),
{
    let global = policy.global_blocked(declared);
    let local = policy.local_blocked(id, declared);
    let both = global.to_set().union(local.to_set());
    lemma_blocked_is_intersection(policy.global, declared);
    lemma_blocked_is_intersection(policy.local_rule(id), declared);
    if global.len() > 0 {
        assert(both.contains(global[0]));
    }
    if local.len() > 0 {
        assert(both.contains(local[0]));
    }
    if global.len() == 0 && local.len() == 0 {
        assert(both =~= Set::<Hazard>::empty());
    }
}

/// A privacy policy manager.
///
/// It allows or blocks the requests to devices, or to a specific device,
/// according to a set of privacy rules.
#[derive(Debug, PartialEq)]
pub struct Policy {
    block_on_hazards: Hazards,
    block_device_on_hazards: HashMap<usize, Hazards>,
}

impl View for Policy {
    type V = PolicyView;

    closed spec fn view(&self) -> PolicyView {
        PolicyView {
            global: self.block_on_hazards@,
            local: self.block_device_on_hazards@.map_values(|hazards: Hazards| hazards@),
        }
    }
}

/// The hazards of `declared` that `rule` blocks.
fn blocked_by(rule: &Hazards, declared: &Hazards) -> (found: Hazards)
    requires
        rule.wf(),
        declared.wf(),
    ensures
        found@ == blocked(rule@, declared@),
        found.wf(),
{
    let mut found = Hazards::new();
    let len = declared.len();
    let mut i: usize = 0;
    proof {
        declared.lemma_distinct();
    }
    while i < len
        invariant
            i <= len,
            len == declared@.len(),
            rule.wf(),
            declared.wf(),
            declared@.no_duplicates(),
            found.wf(),
            found@ == blocked(rule@, declared@.take(i as int)),
            forall|hazard: Hazard|
                found@.contains(hazard) ==> declared@.take(i as int).contains(hazard),
        decreases len - i,
    {
        let ghost before = found@;
        proof {
            assert(declared@.take(i + 1).drop_last() =~= declared@.take(i as int));
        }
        match declared.get(i) {
            Some(hazard) => {
                if rule.contains(&hazard) {
                    found.add(hazard);
                }
            },
            None => {},
        }
        proof {
            assert forall|hazard: Hazard| found@.contains(hazard) implies declared@.take(
                i + 1,
            ).contains(hazard) by {
                if before.contains(hazard) {
                    let k = choose|k: int|
                        0 <= k < declared@.take(i as int).len() && declared@.take(i as int)[k]
                            == hazard;
                    assert(declared@.take(i + 1)[k] == hazard);
                } else {
                    assert(declared@.take(i + 1)[i as int] == hazard);
                }
            }
        }
        i += 1;
    }
    assert(declared@.take(len as int) =~= declared@);
    found
}

impl Policy {
    /// The hazards of the policy are well formed.
    pub closed spec fn wf(&self) -> bool {
        &&& self.block_on_hazards.wf()
        &&& forall|id: usize| #[trigger]
            self.block_device_on_hazards@.contains_key(id)
                ==> self.block_device_on_hazards@[id].wf()
    }

    /// Creates a [`Policy`] to block **all** requests that have the given
    /// [`Hazards`] in their routes.
    #[must_use]
    pub fn new(block_on_hazards: Hazards) -> (policy: Self)
        requires
            block_on_hazards.wf(),
        ensures
            policy@ == (PolicyView { global: block_on_hazards@, local: Map::empty() }),
            policy.wf(),
    {
        let policy = Policy { block_on_hazards, block_device_on_hazards: HashMap::new() };
        assert(policy@.local =~= Map::empty());
        policy
    }

    /// Creates a [`Policy`] that blocks the requests of the device `id`
    /// that have the given [`Hazards`] in their routes, and nothing else.
    #[must_use]
    pub fn only_local_policy(id: usize, hazards: Hazards) -> (policy: Self)
        requires
            hazards.wf(),
        ensures
            policy@ == (PolicyView {
                global: Seq::empty(),
                local: Map::empty().insert(id, hazards@),
            }),
            policy.wf(),
    {
        let policy = Policy::init();
        policy.block_device_on_hazards(id, hazards)
    }

    /// Blocks the requests of the device `id` that have the given
    /// [`Hazards`] in their routes. An earlier rule for the same device is
    /// replaced; the rest of the policy stays.
    #[must_use]
    pub fn block_device_on_hazards(self, id: usize, hazards: Hazards) -> (policy: Self)
        requires
            self.wf(),
            hazards.wf(),
        ensures
            policy@ == (PolicyView { global: self@.global, local: self@.local.insert(id, hazards@) }),
            policy.wf(),
    {
        let mut policy = self;
        let ghost rule = hazards@;
        policy.block_device_on_hazards.insert(id, hazards);
        assert(policy@.local =~= self@.local.insert(id, rule));
        policy
    }

    /// Creates the policy that blocks nothing.
    #[must_use]
    pub fn init() -> (policy: Self)
        ensures
            policy@ == (PolicyView { global: Seq::empty(), local: Map::empty() }),
            policy.wf(),
    {
        Policy::new(Hazards::new())
    }

    /// Returns the hazards that are blocked for every device.
    #[must_use]
    pub fn global_hazards(&self) -> (hazards: &Hazards)
        ensures
            hazards@ == self@.global,
            self.wf() ==> hazards.wf(),
    {
        &self.block_on_hazards
    }

    /// Returns the hazards that are blocked for the device `id` alone, if
    /// the policy has a rule for that device.
    #[must_use]
    pub fn local_hazards(&self, id: usize) -> (hazards: Option<&Hazards>)
        ensures
            match hazards {
                Some(hazards) => self@.local.contains_key(id) && hazards@ == self@.local[id],
                None => !self@.local.contains_key(id),
            },
            self.wf() && hazards is Some ==> hazards->Some_0.wf(),
    {
        self.block_device_on_hazards.get(&id)
    }

    /// Returns the number of devices that the policy has a rule of their own
    /// for.
    #[must_use]
    pub fn local_rules(&self) -> (rules: usize)
        ensures
            rules == self@.local.len(),
    {
        proof {
            assert(self@.local.dom() =~= self.block_device_on_hazards@.dom());
        }
        self.block_device_on_hazards.len()
    }

    /// Returns the given hazards that are blocked for every device, in the
    /// order in which `hazards` holds them.
    #[must_use]
    pub fn global_blocked_hazards(&self, hazards: &Hazards) -> (found: Hazards)
        requires
            self.wf(),
            hazards.wf(),
        ensures
            found@ == self@.global_blocked(hazards@),
            found.wf(),
    {
        blocked_by(&self.block_on_hazards, hazards)
    }

    /// Returns the given hazards that are blocked for the device `id`, in
    /// the order in which `hazards` holds them: none where the policy has no
    /// rule for that device.
    #[must_use]
    pub fn local_blocked_hazards(&self, id: usize, hazards: &Hazards) -> (found: Hazards)
        requires
            self.wf(),
            hazards.wf(),
        ensures
            found@ == self@.local_blocked(id, hazards@),
            found.wf(),
    {
        if let Some(local_hazards) = self.block_device_on_hazards.get(&id) {
            blocked_by(local_hazards, hazards)
        } else {
            proof {
                lemma_blocked_by_nothing(hazards@);
            }
            Hazards::new()
        }
    }
}

/// An empty rule blocks nothing.
pub proof fn lemma_blocked_by_nothing(declared: Seq<Hazard>)
    ensures
        blocked(Seq::empty(), declared) == Seq::<Hazard>::empty(),
    decreases declared.len(),
{
    if declared.len() > 0 {
        lemma_blocked_by_nothing(declared.drop_last());
    }
}

} // verus!
