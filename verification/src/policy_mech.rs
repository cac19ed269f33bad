//! The policy slot (the active selection policy of one site, with capped transition and
//! selection logs), and capture and replay of recorded decisions.
//!
//! The slot is generic over the policy type `P` and the explanation type `E` that the
//! selection engine produces; it never inspects either. What it reads of a policy, its content
//! address and its name, the caller hands over with it, and the selection engine itself is
//! handed in as a closure.
use vstd::prelude::*;
use crate::capped_log::{keep_last, lemma_keep_last_index, lemma_keep_last_push, CappedLog};
use crate::content_hash::{hex_of, ContentHash};
use crate::text::{decimal, decimal_of, option_index, option_index_of};

verus! {

/// The retention cap of a slot's transition log.
pub const DECLARED_POLICY_TRANSITION_CAP: usize = 64;

/// The retention cap of a slot's selection trace.
pub const DECLARED_POLICY_TRACE_CAP: usize = 1024;

/// The policy sites. A slot is keyed by site, so every set and select is attributed to the
/// site it governs.
#[derive(Debug, Clone, Copy, PartialEq, Eq, Structural)]
pub enum PolicySite {
    /// The swap-target site.
    SwapTarget,
    /// The packing site.
    Packing,
    /// The placement site.
    Placement,
}

/// The display name of a site.
pub open spec fn site_label(site: PolicySite) -> Seq<char> {
    match site {
        PolicySite::SwapTarget => "swap-target"@,
        PolicySite::Packing => "packing"@,
        PolicySite::Placement => "placement"@,
    }
}

impl PolicySite {
    /// The site's display name.
    pub fn label(&self) -> (s: &'static str)
        ensures
            s@ == site_label(*self),
    {
        match self {
            PolicySite::SwapTarget => "swap-target",
            PolicySite::Packing => "packing",
            PolicySite::Placement => "placement",
        }
    }
}

/// The record of one policy-set transition.
#[derive(Debug, Clone, PartialEq, Eq)]
pub struct PolicySetRecord {
    /// The site whose active policy changed.
    pub site: PolicySite,
    /// Per-slot sequence number: 0 for the first set, one more for each later one. Never
    /// reused, also once the record it named has been evicted.
    pub seq: u64,
    /// The previous active policy's content address, `None` on the first set.
    pub previous: Option<ContentHash>,
    /// The new active policy's content address.
    pub new_policy: ContentHash,
    /// The new policy's display name.
    pub new_policy_name: String,
}

/// Why a slot selection failed. `R` is the selection engine's refusal.
#[derive(Debug, Clone, PartialEq)]
pub enum SlotError<R> {
    /// Selection was requested but no policy has been set for this site.
    NoActivePolicy {
        /// The site that has no active policy.
        site: PolicySite,
    },
    /// The selection engine refused.
    Select(R),
}

impl<R> SlotError<R> {
    /// The error's text; `refusal` is the text of the engine's refusal, used by `Select`.
    pub fn message(&self, refusal: &str) -> (s: String)
        ensures
            s@ == match self {
                SlotError::NoActivePolicy { site } => "no active policy is set for the "@
                    + site_label(*site)
                    + " site \u{2014} set one explicitly (PolicySlot::set); there is no silent default (G2/ADR-006)"@,
                SlotError::Select(_) => "selection refused: "@ + refusal@,
            },
    {
        match self {
            SlotError::NoActivePolicy { site } => {
                let mut s = String::from_str("no active policy is set for the ");
                s.append(site.label());
                s.append(
                    " site \u{2014} set one explicitly (PolicySlot::set); there is no silent default (G2/ADR-006)",
                );
                s
            },
            SlotError::Select(_) => {
                let mut s = String::from_str("selection refused: ");
                s.append(refusal);
                s
            },
        }
    }
}

/// An engine refusal becomes the slot's `Select` error.
impl<R> From<R> for SlotError<R> {
    fn from(e: R) -> (r: Self) {
        SlotError::Select(e)
    }
}

impl<R> vstd::std_specs::convert::FromSpecImpl<R> for SlotError<R> {
    open spec fn obeys_from_spec() -> bool {
        true
    }

    open spec fn from_spec(e: R) -> Self {
        SlotError::Select(e)
    }
}

/// The active selection policy of one site, with a capped, append-only transition log and a
/// capped selection trace. Exceeding a cap evicts the oldest entry and counts it as dropped.
pub struct PolicySlot<P, E> {
    site: PolicySite,
    active: Option<P>,
    active_ref: Option<ContentHash>,
    transitions: CappedLog<PolicySetRecord>,
    trace: CappedLog<E>,
}

impl<P, E> PolicySlot<P, E> {
    /// The site this slot governs.
    pub closed spec fn governed_site(&self) -> PolicySite {
        self.site
    }

    /// The active policy.
    pub closed spec fn active_policy(&self) -> Option<P> {
        self.active
    }

    /// The content address of the active policy.
    pub closed spec fn active_ref(&self) -> Option<ContentHash> {
        self.active_ref
    }

    /// The retained transition records, oldest first.
    pub closed spec fn transitions_view(&self) -> Seq<PolicySetRecord> {
        self.transitions.entries_view()
    }

    /// Every transition record ever made on this slot, oldest first, evicted ones included.
    pub closed spec fn transitions_history(&self) -> Seq<PolicySetRecord> {
        self.transitions.history()
    }

    /// How many sets were ever made on this slot.
    pub closed spec fn transitions_count(&self) -> nat {
        self.transitions.total_count()
    }

    /// How many transition records were evicted.
    pub closed spec fn transitions_dropped_count(&self) -> nat {
        self.transitions.dropped_count()
    }

    /// The retained explanations, oldest first.
    pub closed spec fn trace_view(&self) -> Seq<E> {
        self.trace.entries_view()
    }

    /// Every explanation ever recorded on this slot, oldest first, evicted ones included.
    pub closed spec fn trace_history(&self) -> Seq<E> {
        self.trace.history()
    }

    /// How many selections were ever recorded on this slot.
    pub closed spec fn trace_count(&self) -> nat {
        self.trace.total_count()
    }

    /// How many explanations were evicted.
    pub closed spec fn trace_dropped_count(&self) -> nat {
        self.trace.dropped_count()
    }

    /// The two logs are well formed and have their declared caps.
    pub closed spec fn logs_wf(&self) -> bool {
        &&& self.transitions.wf()
        &&& self.trace.wf()
        &&& self.transitions.capacity() == DECLARED_POLICY_TRANSITION_CAP
        &&& self.trace.capacity() == DECLARED_POLICY_TRACE_CAP
    }

    /// Well-formedness of a slot: what every operation keeps.
    pub open spec fn wf(&self) -> bool {
        let h = self.transitions_history();
        &&& self.logs_wf()
        // each log holds exactly the most recent entries of its whole history, up to its cap,
        // and every entry ever made is retained or counted as dropped
        &&& self.transitions_view() == keep_last(h, DECLARED_POLICY_TRANSITION_CAP as nat)
        &&& h.len() == self.transitions_count()
        &&& self.transitions_dropped_count() + self.transitions_view().len()
            == self.transitions_count()
        &&& self.trace_view() == keep_last(self.trace_history(), DECLARED_POLICY_TRACE_CAP as nat)
        &&& self.trace_history().len() == self.trace_count()
        &&& self.trace_dropped_count() + self.trace_view().len() == self.trace_count()
        // a policy is active exactly when one was set, and its address is known
        &&& (self.active_policy() is Some <==> self.transitions_count() > 0)
        &&& (self.active_policy() is Some <==> self.active_ref() is Some)
        // every record ever made carries its position as sequence number and this slot's site
        &&& forall|i: int| 0 <= i < h.len() ==> #[trigger] h[i].seq == i
        &&& forall|i: int| 0 <= i < h.len() ==> #[trigger] h[i].site == self.governed_site()
        // the first set has no previous policy; every later one names the policy set before it
        &&& h.len() > 0 ==> h[0].previous is None
        &&& forall|i: int| 0 < i < h.len() ==> #[trigger] h[i].previous == Some(h[i - 1].new_policy)
        // the newest record names the active policy
        &&& h.len() > 0 ==> self.active_ref() == Some(h.last().new_policy)
    }

    /// The transition log retains exactly the most recent `min(total, cap)` records of the
    /// slot's history, in order, numbered consecutively up to `total - 1`; every evicted
    /// record is counted; the retained records name this site and chain their previous
    /// policies; only seq 0 has none; and the newest retained record names the active policy.
    pub proof fn lemma_transitions_window(&self)
        requires
            self.wf(),
        ensures
            self.transitions_view().len() == if self.transitions_count()
                <= DECLARED_POLICY_TRANSITION_CAP {
                self.transitions_count()
            } else {
                DECLARED_POLICY_TRANSITION_CAP as nat
            },
            self.transitions_dropped_count() == self.transitions_count()
                - self.transitions_view().len(),
            self.transitions_dropped_count() > 0 ==> self.transitions_view().len()
                == DECLARED_POLICY_TRANSITION_CAP,
            forall|i: int|
                0 <= i < self.transitions_view().len() ==> #[trigger] self.transitions_view()[i]
                    == self.transitions_history()[self.transitions_dropped_count() + i],
            forall|i: int|
                0 <= i < self.transitions_view().len() ==> #[trigger] self.transitions_view()[i].seq
                    == self.transitions_dropped_count() + i,
            forall|i: int|
                0 <= i < self.transitions_view().len() ==> #[trigger] self.transitions_view()[i].site
                    == self.governed_site(),
            forall|i: int|
                0 < i < self.transitions_view().len() ==> #[trigger] self.transitions_view()[i].previous
                    == Some(self.transitions_view()[i - 1].new_policy),
            forall|i: int|
                0 <= i < self.transitions_view().len() ==> (
                #[trigger] self.transitions_view()[i].previous is None
                    <==> self.transitions_view()[i].seq == 0),
            self.transitions_view().len() > 0 ==> {
                &&& self.transitions_view().last().seq == self.transitions_count() - 1
                &&& self.active_ref() == Some(self.transitions_view().last().new_policy)
            },
    {
        let h = self.transitions_history();
        lemma_keep_last_index(h, DECLARED_POLICY_TRANSITION_CAP as nat);
        let t = self.transitions_view();
        let d = self.transitions_dropped_count();
        assert forall|i: int| 0 < i < t.len() implies #[trigger] t[i].previous == Some(
            t[i - 1].new_policy,
        ) by {
            assert(t[i] == h[d + i]);
            assert(t[i - 1] == h[d + i - 1]);
        }
        assert forall|i: int| 0 <= i < t.len() implies (#[trigger] t[i].previous is None <==> t[i].seq
            == 0) by {
            assert(t[i] == h[d + i]);
            if d + i > 0 {
                assert(h[d + i].previous == Some(h[d + i - 1].new_policy));
            }
        }
        if t.len() > 0 {
            assert(t.last() == h[d + t.len() - 1]);
        }
    }

    /// The selection trace retains exactly the most recent `min(total, cap)` explanations of
    /// the slot's history, in order; every evicted one is counted.
    pub proof fn lemma_trace_window(&self)
        requires
            self.wf(),
        ensures
            self.trace_view().len() == if self.trace_count() <= DECLARED_POLICY_TRACE_CAP {
                self.trace_count()
            } else {
                DECLARED_POLICY_TRACE_CAP as nat
            },
            self.trace_dropped_count() == self.trace_count() - self.trace_view().len(),
            forall|i: int|
                0 <= i < self.trace_view().len() ==> #[trigger] self.trace_view()[i]
                    == self.trace_history()[self.trace_dropped_count() + i],
    {
        lemma_keep_last_index(self.trace_history(), DECLARED_POLICY_TRACE_CAP as nat);
    }

    /// An empty slot for `site`: no active policy, no transitions, no trace.
    pub fn new(site: PolicySite) -> (slot: Self)
        ensures
            slot.wf(),
            slot.governed_site() == site,
            slot.active_policy() is None,
            slot.transitions_history() == Seq::<PolicySetRecord>::empty(),
            slot.transitions_view() == Seq::<PolicySetRecord>::empty(),
            slot.transitions_count() == 0,
            slot.transitions_dropped_count() == 0,
            slot.trace_history() == Seq::<E>::empty(),
            slot.trace_view() == Seq::<E>::empty(),
            slot.trace_count() == 0,
            slot.trace_dropped_count() == 0,
    {
        PolicySlot {
            site,
            active: None,
            active_ref: None,
            transitions: CappedLog::new(DECLARED_POLICY_TRANSITION_CAP),
            trace: CappedLog::new(DECLARED_POLICY_TRACE_CAP),
        }
    }

    /// The site this slot governs.
    pub fn site(&self) -> (s: PolicySite)
        ensures
            s == self.governed_site(),
    {
        self.site
    }

    /// Set the active policy, whose content address is `policy_ref` and display name
    /// `policy_name`, and append the transition's record, which is returned.
    ///
    /// The record's `seq` is the number of sets made before, and `previous` the outgoing
    /// policy's address. A full log evicts its oldest record first; the new record is always
    /// retained.
    pub fn set(&mut self, policy: P, policy_ref: ContentHash, policy_name: String) -> (r:
        &PolicySetRecord)
        requires
            old(self).wf(),
            old(self).transitions_count() < u64::MAX,
        ensures
            final(self).wf(),
            *r == (PolicySetRecord {
                site: old(self).governed_site(),
                seq: old(self).transitions_count() as u64,
                previous: old(self).active_ref(),
                new_policy: policy_ref,
                new_policy_name: policy_name,
            }),
            final(self).transitions_history() == old(self).transitions_history().push(*r),
            final(self).transitions_view() == keep_last(
                old(self).transitions_view().push(*r),
                DECLARED_POLICY_TRANSITION_CAP as nat,
            ),
            final(self).transitions_view().last() == *r,
            final(self).transitions_count() == old(self).transitions_count() + 1,
            final(self).transitions_dropped_count() >= old(self).transitions_dropped_count(),
            final(self).active_policy() == Some(policy),
            final(self).active_ref() == Some(policy_ref),
            final(self).governed_site() == old(self).governed_site(),
            final(self).trace_history() == old(self).trace_history(),
            final(self).trace_view() == old(self).trace_view(),
            final(self).trace_count() == old(self).trace_count(),
            final(self).trace_dropped_count() == old(self).trace_dropped_count(),
    {
        let record = PolicySetRecord {
            site: self.site,
            seq: self.transitions.total(),
            previous: self.active_ref,
            new_policy: policy_ref,
            new_policy_name: policy_name,
        };
        proof {
            lemma_keep_last_push(
                self.transitions_history(),
                DECLARED_POLICY_TRANSITION_CAP as nat,
                record,
            );
        }
        self.active = Some(policy);
        self.active_ref = Some(policy_ref);
        self.transitions.push(record);
        self.transitions.last()
    }

    /// The active policy, if one has been set.
    pub fn active(&self) -> (r: Option<&P>)
        ensures
            match r {
                Some(p) => self.active_policy() == Some(*p),
                None => self.active_policy() is None,
            },
    {
        self.active.as_ref()
    }

    /// The retained transition records, oldest first.
    pub fn transitions(&self) -> (s: &[PolicySetRecord])
        ensures
            s@ == self.transitions_view(),
    {
        self.transitions.entries()
    }

    /// How many sets were ever made on this slot, evicted records included: the next `seq`.
    pub fn transitions_total(&self) -> (n: u64)
        ensures
            n == self.transitions_count(),
    {
        self.transitions.total()
    }

    /// How many transition records were evicted.
    pub fn transitions_dropped(&self) -> (n: u64)
        ensures
            n == self.transitions_dropped_count(),
    {
        self.transitions.dropped()
    }

    /// The retained explanations of the selections made through this slot, oldest first.
    pub fn trace(&self) -> (s: &[E])
        ensures
            s@ == self.trace_view(),
    {
        self.trace.entries()
    }

    /// How many selections were ever recorded on this slot, evicted ones included.
    pub fn trace_total(&self) -> (n: u64)
        ensures
            n == self.trace_count(),
    {
        self.trace.total()
    }

    /// How many explanations were evicted.
    pub fn trace_dropped(&self) -> (n: u64)
        ensures
            n == self.trace_dropped_count(),
    {
        self.trace.dropped()
    }

    /// Decide through the active policy with the selection engine `decide`, recording the
    /// explanation it returns into the trace (a full trace evicts its oldest entry first).
    ///
    /// An unset slot refuses with `NoActivePolicy` without calling `decide`; a refusal of the
    /// engine passes through as `Select`, and neither changes the slot. The explanation
    /// returned is the one just decided; the trace keeps a clone of it.
    pub fn select<C, R, F>(&mut self, decide: F) -> (res: Result<(C, E), SlotError<R>>) where
        E: Clone,
        F: FnOnce(&P) -> Result<(C, E), R>,

        requires
            old(self).wf(),
            old(self).trace_count() < u64::MAX,
            old(self).active_policy() matches Some(p) ==> call_requires(decide, (&p,)),
        ensures
            final(self).wf(),
            select_result(old(self).active_policy(), old(self).governed_site(), decide, res),
            // an unset slot refuses, naming its own site
            old(self).active_policy() is None ==> res == Err::<(C, E), SlotError<R>>(
                SlotError::NoActivePolicy { site: old(self).governed_site() },
            ),
            // a set slot answers with what the engine returned for its active policy
            old(self).active_policy() matches Some(p) ==> match res {
                Ok((c, e)) => call_ensures(decide, (&p,), Ok::<(C, E), R>((c, e))),
                Err(SlotError::Select(r)) => call_ensures(decide, (&p,), Err::<(C, E), R>(r)),
                Err(SlotError::NoActivePolicy { .. }) => false,
            },
            final(self).governed_site() == old(self).governed_site(),
            final(self).active_policy() == old(self).active_policy(),
            final(self).active_ref() == old(self).active_ref(),
            final(self).transitions_history() == old(self).transitions_history(),
            final(self).transitions_view() == old(self).transitions_view(),
            final(self).transitions_count() == old(self).transitions_count(),
            final(self).transitions_dropped_count() == old(self).transitions_dropped_count(),
            final(self).trace_dropped_count() >= old(self).trace_dropped_count(),
            match res {
                Ok((c, e)) => {
                    &&& final(self).trace_view().len() > 0
                    &&& cloned::<E>(e, final(self).trace_view().last())
                    &&& final(self).trace_history() == old(self).trace_history().push(
                        final(self).trace_view().last(),
                    )
                    &&& final(self).trace_view() == keep_last(
                        old(self).trace_view().push(final(self).trace_view().last()),
                        DECLARED_POLICY_TRACE_CAP as nat,
                    )
                    &&& final(self).trace_count() == old(self).trace_count() + 1
                },
                Err(_) => {
                    &&& final(self).trace_history() == old(self).trace_history()
                    &&& final(self).trace_view() == old(self).trace_view()
                    &&& final(self).trace_count() == old(self).trace_count()
                },
            },
    {
        let site = self.site;
        let outcome = match &self.active {
            None => {
                return Err(SlotError::NoActivePolicy { site });
            },
            Some(policy) => decide(policy),
        };
        match outcome {
            Err(r) => Err(SlotError::from(r)),
            Ok((candidate, explanation)) => {
                let kept = explanation.clone();
                proof {
                    lemma_keep_last_push(self.trace_history(), DECLARED_POLICY_TRACE_CAP as nat, kept);
                }
                self.trace.push(kept);
                Ok((candidate, explanation))
            },
        }
    }
}

/// What a slot's `select` returns, given the slot's active policy and site and the selection
/// engine `decide`: `NoActivePolicy` for the site exactly when no policy is active; otherwise
/// what the engine returned for the active policy, its refusal passed through as `Select`.
pub open spec fn select_result<P, C, E, R, F: FnOnce(&P) -> Result<(C, E), R>>(
    active: Option<P>,
    site: PolicySite,
    decide: F,
    res: Result<(C, E), SlotError<R>>,
) -> bool {
    match res {
        Ok((c, e)) => active matches Some(p) && call_ensures(decide, (&p,), Ok((c, e))),
        Err(SlotError::Select(r)) => active matches Some(p) && call_ensures(decide, (&p,), Err(r)),
        Err(SlotError::NoActivePolicy { site: s }) => active is None && s == site,
    }
}

/// A selection depends only on the active policy: two slots with the same active policy,
/// whatever their sites, logs, counters or room in their traces, select the same through a
/// deterministic engine; and two slots with no active policy refuse alike when they govern
/// the same site.
pub proof fn law_select_depends_only_on_active_policy<P, C, E, R, F: FnOnce(&P) -> Result<(C, E), R>>(
    active: Option<P>,
    site1: PolicySite,
    site2: PolicySite,
    decide: F,
    res1: Result<(C, E), SlotError<R>>,
    res2: Result<(C, E), SlotError<R>>,
)
    requires
        select_result(active, site1, decide, res1),
        select_result(active, site2, decide, res2),
        active is None ==> site1 == site2,
        active matches Some(p) ==> forall|o1: Result<(C, E), R>, o2: Result<(C, E), R>|
            #![trigger call_ensures(decide, (&p,), o1), call_ensures(decide, (&p,), o2)]
            call_ensures(decide, (&p,), o1) && call_ensures(decide, (&p,), o2) ==> o1 == o2,
    ensures
        res1 == res2,
{
    if let Some(p) = active {
        match res1 {
            Ok(x) => {
                match res2 {
                    Ok(y) => assert(call_ensures(decide, (&p,), Ok::<(C, E), R>(x)) && call_ensures(decide, (&p,), Ok::<(C, E), R>(y))),
                    Err(SlotError::Select(r)) => assert(call_ensures(decide, (&p,), Ok::<(C, E), R>(x)) && call_ensures(decide, (&p,), Err::<(C, E), R>(r))),
                    Err(_) => {},
                }
            },
            Err(SlotError::Select(q)) => {
                match res2 {
                    Ok(y) => assert(call_ensures(decide, (&p,), Err::<(C, E), R>(q)) && call_ensures(decide, (&p,), Ok::<(C, E), R>(y))),
                    Err(SlotError::Select(r)) => assert(call_ensures(decide, (&p,), Err::<(C, E), R>(q)) && call_ensures(decide, (&p,), Err::<(C, E), R>(r))),
                    Err(_) => {},
                }
            },
            Err(_) => {},
        }
    }
}

/// A captured policy: the policy value that decided a recorded explanation, with its content
/// address.
#[derive(Debug, Clone, PartialEq)]
pub struct CapturedPolicy<P> {
    /// The policy's content address.
    pub policy_ref: ContentHash,
    /// The policy value itself.
    pub policy: P,
}

/// Why a capture failed.
#[derive(Debug, Clone, Copy, PartialEq, Eq)]
pub enum CaptureError {
    /// The recorded content address resolves to nothing in the registry.
    UnknownPolicyRef {
        /// The unresolvable content address.
        policy_ref: ContentHash,
    },
    /// The registry returned a policy whose own content address differs from the requested one.
    RefMismatch {
        /// The content address the capture asked for.
        requested: ContentHash,
        /// The content address the resolved policy actually has.
        resolved: ContentHash,
    },
}

impl CaptureError {
    /// The error's text.
    pub fn message(&self) -> (s: String)
        ensures
            s@ == match self {
                CaptureError::UnknownPolicyRef { policy_ref } => "policy_ref "@ + hex_of(
                    policy_ref.digest@,
                ) + " is not in the registry \u{2014} capture refuses rather than reconstructing a policy (G2/ADR-006)"@,
                CaptureError::RefMismatch { requested, resolved } => "registry corruption: requested "@
                    + hex_of(requested.digest@) + " but the stored policy hashes to "@ + hex_of(
                    resolved.digest@,
                ),
            },
    {
        match self {
            CaptureError::UnknownPolicyRef { policy_ref } => {
                let mut s = String::from_str("policy_ref ");
                s.append(policy_ref.to_hex().as_str());
                s.append(
                    " is not in the registry \u{2014} capture refuses rather than reconstructing a policy (G2/ADR-006)",
                );
                s
            },
            CaptureError::RefMismatch { requested, resolved } => {
                let mut s = String::from_str("registry corruption: requested ");
                s.append(requested.to_hex().as_str());
                s.append(" but the stored policy hashes to ");
                s.append(resolved.to_hex().as_str());
                s
            },
        }
    }
}

/// Materialize the policy with content address `requested` (the one a recorded explanation
/// names) through the registry lookup `lookup`, which yields the stored policy and that
/// policy's own content address.
///
/// An unknown address is `UnknownPolicyRef`, and a stored policy whose own address differs
/// is `RefMismatch`; a returned capture always carries the requested address, which is the
/// stored policy's own.
pub fn capture<P, F>(requested: &ContentHash, lookup: F) -> (res: Result<
    CapturedPolicy<P>,
    CaptureError,
>) where F: FnOnce(&ContentHash) -> Option<(P, ContentHash)>
    requires
        call_requires(lookup, (requested,)),
    ensures
        match res {
            Ok(c) => {
                &&& c.policy_ref == *requested
                &&& call_ensures(lookup, (requested,), Some((c.policy, *requested)))
            },
            Err(CaptureError::UnknownPolicyRef { policy_ref }) => {
                &&& policy_ref == *requested
                &&& call_ensures(lookup, (requested,), None)
            },
            Err(CaptureError::RefMismatch { requested: asked, resolved }) => {
                &&& asked == *requested
                &&& resolved != *requested
                &&& exists|p: P| call_ensures(lookup, (requested,), Some((p, resolved)))
            },
        },
{
    match lookup(requested) {
        None => Err(CaptureError::UnknownPolicyRef { policy_ref: *requested }),
        Some((policy, resolved)) => {
            if resolved != *requested {
                Err(CaptureError::RefMismatch { requested: *requested, resolved })
            } else {
                Ok(CapturedPolicy { policy_ref: *requested, policy })
            }
        },
    }
}

/// Why a replay failed. `R` is the selection engine's refusal, `E` its explanation.
#[derive(Debug, Clone, PartialEq)]
pub enum ReplayError<R, E> {
    /// The captured policy is not the one the record names.
    PolicyMismatch {
        /// The record's policy content address.
        recorded: ContentHash,
        /// The captured policy's content address.
        captured: ContentHash,
    },
    /// Re-running the recorded inputs was refused.
    Select(R),
    /// The replayed decision differs from the recorded one.
    Diverged {
        /// The original record.
        recorded: Box<E>,
        /// The replayed record that differs from it.
        replayed: Box<E>,
    },
}

/// An engine refusal during replay becomes the replay's `Select` error.
impl<R, E> From<R> for ReplayError<R, E> {
    fn from(e: R) -> (r: Self) {
        ReplayError::Select(e)
    }
}

impl<R, E> vstd::std_specs::convert::FromSpecImpl<R> for ReplayError<R, E> {
    open spec fn obeys_from_spec() -> bool {
        true
    }

    open spec fn from_spec(e: R) -> Self {
        ReplayError::Select(e)
    }
}

impl<R, E> ReplayError<R, E> {
    /// The error's text. `refusal` is the text of the engine's refusal, used by `Select`;
    /// for `Diverged`, `recorded_index` and `recorded_rule` are the index the recorded
    /// explanation chose and the rule it matched, `replayed_index` and `replayed_rule` those
    /// of the replayed one.
    pub fn message(
        &self,
        refusal: &str,
        recorded_index: usize,
        recorded_rule: Option<usize>,
        replayed_index: usize,
        replayed_rule: Option<usize>,
    ) -> (s: String)
        ensures
            s@ == match self {
                ReplayError::PolicyMismatch { recorded, captured } =>
                    "replay refused: the record was decided by "@ + hex_of(recorded.digest@)
                    + " but the captured policy is "@ + hex_of(captured.digest@),
                ReplayError::Select(_) => "replay selection refused: "@ + refusal@,
                ReplayError::Diverged { .. } => "replay diverged: recorded chose index "@
                    + decimal_of(recorded_index as nat) + " (rule "@ + option_index_of(
                    recorded_rule,
                ) + "), replay chose index "@ + decimal_of(replayed_index as nat) + " (rule "@
                    + option_index_of(replayed_rule) + ")"@,
            },
    {
        match self {
            ReplayError::PolicyMismatch { recorded, captured } => {
                let mut s = String::from_str("replay refused: the record was decided by ");
                s.append(recorded.to_hex().as_str());
                s.append(" but the captured policy is ");
                s.append(captured.to_hex().as_str());
                s
            },
            ReplayError::Select(_) => {
                let mut s = String::from_str("replay selection refused: ");
                s.append(refusal);
                s
            },
            ReplayError::Diverged { .. } => {
                let mut s = String::from_str("replay diverged: recorded chose index ");
                s.append(decimal(recorded_index).as_str());
                s.append(" (rule ");
                s.append(option_index(recorded_rule).as_str());
                s.append("), replay chose index ");
                s.append(decimal(replayed_index).as_str());
                s.append(" (rule ");
                s.append(option_index(replayed_rule).as_str());
                s.append(")");
                s
            },
        }
    }
}

/// The override a replay re-applies: the recorded choice when the record was overridden.
pub open spec fn replay_override(overridden: bool, chosen_index: usize) -> Option<usize> {
    if overridden {
        Some(chosen_index)
    } else {
        None
    }
}

/// What `replay` may return: a refusal up front when the captured policy is not the recorded
/// one; otherwise the outcome of the engine `run` on the captured policy with the recorded
/// override, passed through when refused, returned when equal to the recorded explanation,
/// and `Diverged` (carrying a clone of the record and the replayed explanation) when not.
pub open spec fn replay_outcome<P, E: Clone + PartialEq, R, F: FnOnce(&P, Option<usize>) -> Result<E, R>>(
    captured: &CapturedPolicy<P>,
    recorded: &E,
    recorded_policy: &ContentHash,
    overridden: bool,
    chosen_index: usize,
    run: F,
    res: Result<E, ReplayError<R, E>>,
) -> bool {
    match res {
        Err(ReplayError::PolicyMismatch { recorded: r, captured: c }) => {
            &&& captured.policy_ref != *recorded_policy
            &&& r == *recorded_policy
            &&& c == captured.policy_ref
        },
        Err(ReplayError::Select(e)) => {
            &&& captured.policy_ref == *recorded_policy
            &&& call_ensures(
                run,
                (&captured.policy, replay_override(overridden, chosen_index)),
                Err(e),
            )
        },
        Err(ReplayError::Diverged { recorded: r, replayed: x }) => {
            &&& captured.policy_ref == *recorded_policy
            &&& call_ensures(
                run,
                (&captured.policy, replay_override(overridden, chosen_index)),
                Ok(*x),
            )
            &&& call_ensures(E::eq, (&*x, recorded), false)
            &&& cloned::<E>(*recorded, *r)
        },
        Ok(x) => {
            &&& captured.policy_ref == *recorded_policy
            &&& call_ensures(
                run,
                (&captured.policy, replay_override(overridden, chosen_index)),
                Ok(x),
            )
            &&& call_ensures(E::eq, (&x, recorded), true)
        },
    }
}

/// The override a replay re-applies is the recorded choice when the record was overridden,
/// and no override at all when it was not, whatever index it chose.
pub proof fn law_replay_override(overridden: bool, chosen_index: usize)
    ensures
        !overridden ==> replay_override(overridden, chosen_index) == None::<usize>,
        overridden ==> replay_override(overridden, chosen_index) == Some(chosen_index),
{
}

/// A selection through a slot with no active policy is refused with an error naming the
/// slot's own site, and a slot with an active policy never gives that refusal.
pub proof fn law_unset_slot_refusal_names_its_site<P, C, E, R, F: FnOnce(&P) -> Result<(C, E), R>>(
    active: Option<P>,
    site: PolicySite,
    decide: F,
    res: Result<(C, E), SlotError<R>>,
)
    requires
        select_result(active, site, decide, res),
    ensures
        active is None ==> res == Err::<(C, E), SlotError<R>>(SlotError::NoActivePolicy { site }),
        active is Some ==> !(res matches Err(SlotError::NoActivePolicy { .. })),
{
}

/// Replay reaches the recorded decision: replaying a record against a capture of the policy
/// it names returns the record itself, whenever the engine, run on the captured policy with
/// the recorded override, can only give back the recorded explanation, and the explanation
/// equals itself.
pub proof fn law_replay_reaches_recorded<P, E: Clone + PartialEq, R, F: FnOnce(&P, Option<usize>) -> Result<E, R>>(
    captured: &CapturedPolicy<P>,
    recorded: &E,
    recorded_policy: &ContentHash,
    overridden: bool,
    chosen_index: usize,
    run: F,
    res: Result<E, ReplayError<R, E>>,
)
    requires
        replay_outcome(captured, recorded, recorded_policy, overridden, chosen_index, run, res),
        captured.policy_ref == *recorded_policy,
        forall|o: Result<E, R>|
            #[trigger] call_ensures(
                run,
                (&captured.policy, replay_override(overridden, chosen_index)),
                o,
            ) ==> o == Ok::<E, R>(*recorded),
        forall|b: bool| #[trigger] call_ensures(E::eq, (recorded, recorded), b) ==> b,
    ensures
        res == Ok::<E, ReplayError<R, E>>(*recorded),
{
}

/// Replay a recorded decision against its captured policy: re-run the selection engine `run`
/// on the captured policy, re-applying the recorded override, and require the identical
/// explanation.
///
/// `recorded` is the recorded explanation; `recorded_policy`, `overridden` and `chosen_index`
/// are its policy address, whether it was overridden, and the index it chose. A captured
/// policy other than the recorded one is refused up front with `PolicyMismatch`; a refusal of
/// the engine passes through as `Select`; a replayed explanation unequal to the recorded one
/// is `Diverged`, carrying both.
pub fn replay<P, E, R, F>(
    captured: &CapturedPolicy<P>,
    recorded: &E,
    recorded_policy: &ContentHash,
    overridden: bool,
    chosen_index: usize,
    run: F,
) -> (res: Result<E, ReplayError<R, E>>) where
    E: Clone + PartialEq,
    F: FnOnce(&P, Option<usize>) -> Result<E, R>,

    requires
        captured.policy_ref == *recorded_policy ==> call_requires(
            run,
            (&captured.policy, replay_override(overridden, chosen_index)),
        ),
    ensures
        replay_outcome(captured, recorded, recorded_policy, overridden, chosen_index, run, res),
        // the engine sees no override for a record that was not overridden ...
        captured.policy_ref == *recorded_policy && !overridden ==> match res {
            Ok(x) => call_ensures(run, (&captured.policy, None::<usize>), Ok::<E, R>(x)),
            Err(ReplayError::Select(e)) => call_ensures(
                run,
                (&captured.policy, None::<usize>),
                Err::<E, R>(e),
            ),
            Err(ReplayError::Diverged { replayed: x, .. }) => call_ensures(
                run,
                (&captured.policy, None::<usize>),
                Ok::<E, R>(*x),
            ),
            Err(ReplayError::PolicyMismatch { .. }) => false,
        },
        // ... and the recorded choice for one that was
        captured.policy_ref == *recorded_policy && overridden ==> match res {
            Ok(x) => call_ensures(run, (&captured.policy, Some(chosen_index)), Ok::<E, R>(x)),
            Err(ReplayError::Select(e)) => call_ensures(
                run,
                (&captured.policy, Some(chosen_index)),
                Err::<E, R>(e),
            ),
            Err(ReplayError::Diverged { replayed: x, .. }) => call_ensures(
                run,
                (&captured.policy, Some(chosen_index)),
                Ok::<E, R>(*x),
            ),
            Err(ReplayError::PolicyMismatch { .. }) => false,
        },
        // a mismatch of policies is refused exactly when the addresses differ, naming both
        (res matches Err(ReplayError::PolicyMismatch { .. })) <==> captured.policy_ref
            != *recorded_policy,
        res matches Err(ReplayError::PolicyMismatch { recorded: a, captured: b }) ==> a
            == *recorded_policy && b == captured.policy_ref,
        // a replay succeeds only with an explanation equal to the record, and a divergence
        // carries the record and an unequal replayed explanation
        res matches Ok(x) ==> call_ensures(E::eq, (&x, recorded), true),
        res matches Err(ReplayError::Diverged { recorded: r, replayed: x }) ==> call_ensures(
            E::eq,
            (&*x, recorded),
            false,
        ) && cloned::<E>(*recorded, *r),
{
    if captured.policy_ref != *recorded_policy {
        return Err(
            ReplayError::PolicyMismatch { recorded: *recorded_policy, captured: captured.policy_ref },
        );
    }
    let forced = if overridden {
        Some(chosen_index)
    } else {
        None
    };
    match run(&captured.policy, forced) {
        Err(e) => Err(ReplayError::from(e)),
        Ok(replayed) => {
            if replayed.eq(recorded) {
                Ok(replayed)
            } else {
                Err(
                    ReplayError::Diverged {
                        recorded: Box::new(recorded.clone()),
                        replayed: Box::new(replayed),
                    },
                )
            }
        },
    }
}

} // verus!
