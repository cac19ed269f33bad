use mycelium_std_runtime::capped_log::CappedLog;
use mycelium_std_runtime::content_hash::ContentHash;
use mycelium_std_runtime::text::{decimal, option_index};
use mycelium_std_runtime::policy_mech::{
    capture, replay, CaptureError, CapturedPolicy, PolicySite, PolicySlot, ReplayError,
    SlotError, DECLARED_POLICY_TRACE_CAP, DECLARED_POLICY_TRANSITION_CAP,
};

fn hash(n: u8) -> ContentHash {
    ContentHash { digest: [n; 32] }
}

fn counting_hash() -> ContentHash {
    let mut digest = [0u8; 32];
    for (i, b) in digest.iter_mut().enumerate() {
        *b = i as u8;
    }
    ContentHash { digest }
}

// Policies are `u32` values whose content address is `hash(value as u8)`; the engine chooses
// `policy + input` and refuses an input of zero.
type Slot = PolicySlot<u32, u64>;

fn set(slot: &mut Slot, p: u32) -> ContentHash {
    let r = hash(p as u8);
    slot.set(p, r, format!("policy-{p}"));
    r
}

fn engine(p: &u32, input: u64) -> Result<(u8, u64), &'static str> {
    if input == 0 {
        Err("zero input")
    } else {
        Ok((1, u64::from(*p) + input))
    }
}

#[test]
fn capped_log_evicts_oldest_and_counts_drops() {
    let mut log = CappedLog::new(2);
    log.push(1u32);
    log.push(2u32);
    assert_eq!(log.entries(), &[1, 2]);
    assert_eq!(log.dropped(), 0);
    log.push(3u32);
    assert_eq!(log.entries(), &[2, 3]);
    assert_eq!(*log.last(), 3);
    assert_eq!(log.dropped(), 1);
    assert_eq!(log.total(), 3);
}

#[test]
fn content_hash_renders_lower_case_hex() {
    assert_eq!(
        counting_hash().to_hex(),
        "000102030405060708090a0b0c0d0e0f101112131415161718191a1b1c1d1e1f"
    );
    assert_eq!(hash(0xab).to_hex(), "ab".repeat(32));
    assert_eq!(hash(7), hash(7));
    assert_ne!(hash(7), hash(8));
}

#[test]
fn site_labels() {
    assert_eq!(PolicySite::SwapTarget.label(), "swap-target");
    assert_eq!(PolicySite::Packing.label(), "packing");
    assert_eq!(PolicySite::Placement.label(), "placement");
}

#[test]
fn slot_error_messages() {
    let e: SlotError<&str> = SlotError::NoActivePolicy { site: PolicySite::SwapTarget };
    assert_eq!(
        e.message("ignored"),
        "no active policy is set for the swap-target site \u{2014} set one explicitly \
         (PolicySlot::set); there is no silent default (G2/ADR-006)"
    );
    let e: SlotError<&str> = SlotError::Select("out of range");
    assert_eq!(e.message("out of range"), "selection refused: out of range");
}

#[test]
fn capture_error_messages() {
    let unknown = CaptureError::UnknownPolicyRef { policy_ref: hash(1) };
    assert_eq!(
        unknown.message(),
        format!(
            "policy_ref {} is not in the registry \u{2014} capture refuses rather than \
             reconstructing a policy (G2/ADR-006)",
            "01".repeat(32)
        )
    );
    let mismatch = CaptureError::RefMismatch { requested: hash(1), resolved: hash(2) };
    assert_eq!(
        mismatch.message(),
        format!(
            "registry corruption: requested {} but the stored policy hashes to {}",
            "01".repeat(32),
            "02".repeat(32)
        )
    );
}

#[test]
fn replay_error_messages() {
    let e: ReplayError<&str, u64> =
        ReplayError::PolicyMismatch { recorded: hash(3), captured: hash(4) };
    assert_eq!(
        e.message("", 0, None, 0, None),
        format!(
            "replay refused: the record was decided by {} but the captured policy is {}",
            "03".repeat(32),
            "04".repeat(32)
        )
    );
    let e: ReplayError<&str, u64> = ReplayError::Select("boom");
    assert_eq!(e.message("boom", 0, None, 0, None), "replay selection refused: boom");
    let e: ReplayError<&str, u64> =
        ReplayError::Diverged { recorded: Box::new(1), replayed: Box::new(2) };
    assert_eq!(
        e.message("", 1, None, 0, Some(12)),
        "replay diverged: recorded chose index 1 (rule None), replay chose index 0 (rule Some(12))"
    );
}

#[test]
fn fresh_slot_is_empty() {
    let slot = Slot::new(PolicySite::Packing);
    assert_eq!(slot.site(), PolicySite::Packing);
    assert!(slot.active().is_none());
    assert!(slot.transitions().is_empty());
    assert!(slot.trace().is_empty());
    assert_eq!(slot.transitions_total(), 0);
    assert_eq!(slot.transitions_dropped(), 0);
    assert_eq!(slot.trace_total(), 0);
    assert_eq!(slot.trace_dropped(), 0);
}

#[test]
fn set_returns_the_retained_record() {
    let mut slot = Slot::new(PolicySite::Packing);
    let r = slot.set(5, hash(5), "five".to_string()).clone();
    assert_eq!(r.new_policy_name, "five");
    assert_eq!(r.site, PolicySite::Packing);
    assert_eq!(slot.transitions().last(), Some(&r));
    assert_eq!(slot.active(), Some(&5));
}

#[test]
fn previous_chain_and_window_survive_eviction() {
    let mut slot = Slot::new(PolicySite::SwapTarget);
    let n = DECLARED_POLICY_TRANSITION_CAP as u32 * 3 + 7;
    let mut last = hash(0);
    for p in 0..n {
        last = set(&mut slot, p);
    }
    let t = slot.transitions();
    assert_eq!(t.len(), DECLARED_POLICY_TRANSITION_CAP);
    assert_eq!(t[0].seq, u64::from(n) - DECLARED_POLICY_TRANSITION_CAP as u64);
    for w in t.windows(2) {
        assert_eq!(w[1].previous, Some(w[0].new_policy));
    }
    assert_eq!(t.last().unwrap().new_policy, last);
    assert!(t.iter().all(|r| r.previous.is_some()), "only seq 0 has no previous policy");
    assert_eq!(slot.active(), Some(&(n - 1)));
}

#[test]
fn unset_slot_refusal_leaves_the_trace_untouched() {
    let mut slot = Slot::new(PolicySite::Placement);
    let res = slot.select(|p: &u32| engine(p, 1));
    assert_eq!(res, Err(SlotError::NoActivePolicy { site: PolicySite::Placement }));
    assert_eq!(slot.trace_total(), 0);
    assert!(slot.trace().is_empty());
}

#[test]
fn engine_refusal_passes_through_and_records_nothing() {
    let mut slot = Slot::new(PolicySite::Packing);
    set(&mut slot, 10);
    let res = slot.select(|p: &u32| engine(p, 0));
    assert_eq!(res, Err(SlotError::Select("zero input")));
    assert_eq!(slot.trace_total(), 0);
    assert!(slot.trace().is_empty());
    let ok = slot.select(|p: &u32| engine(p, 5));
    assert_eq!(ok, Ok((1, 15)));
    assert_eq!(slot.trace(), &[15]);
}

#[test]
fn trace_window_keeps_the_most_recent() {
    let mut slot = Slot::new(PolicySite::Packing);
    set(&mut slot, 0);
    let n = DECLARED_POLICY_TRACE_CAP as u64 + 10;
    for i in 1..=n {
        slot.select(|p: &u32| engine(p, i)).expect("selection succeeds");
    }
    assert_eq!(slot.trace().len(), DECLARED_POLICY_TRACE_CAP);
    assert_eq!(slot.trace_dropped(), 10);
    assert_eq!(slot.trace()[0], 11);
    assert_eq!(*slot.trace().last().unwrap(), n);
}

#[test]
fn capture_reports_a_corrupted_registry() {
    let err = capture(&hash(1), |_: &ContentHash| Some((1u32, hash(2))));
    assert_eq!(err, Err(CaptureError::RefMismatch { requested: hash(1), resolved: hash(2) }));
    let ok = capture(&hash(1), |r: &ContentHash| Some((1u32, *r)));
    assert_eq!(ok, Ok(CapturedPolicy { policy_ref: hash(1), policy: 1u32 }));
    let none = capture(&hash(1), |_: &ContentHash| None::<(u32, ContentHash)>);
    assert_eq!(none, Err(CaptureError::UnknownPolicyRef { policy_ref: hash(1) }));
}

#[test]
fn replay_passes_engine_refusal_and_override_through() {
    let captured = CapturedPolicy { policy_ref: hash(9), policy: 9u32 };
    let run = |p: &u32, forced: Option<usize>| -> Result<u64, &'static str> {
        match forced {
            Some(i) if i > 3 => Err("override out of range"),
            Some(i) => Ok(u64::from(*p) * 100 + i as u64),
            None => Ok(u64::from(*p)),
        }
    };
    assert_eq!(replay(&captured, &902, &hash(9), true, 2, run), Ok(902));
    assert_eq!(replay(&captured, &9, &hash(9), false, 2, run), Ok(9));
    assert_eq!(
        replay(&captured, &9, &hash(9), true, 7, run),
        Err(ReplayError::Select("override out of range"))
    );
    assert_eq!(
        replay(&captured, &9, &hash(9), true, 2, run),
        Err(ReplayError::Diverged { recorded: Box::new(9), replayed: Box::new(902) })
    );
    assert_eq!(
        replay(&captured, &9, &hash(8), false, 0, run),
        Err(ReplayError::PolicyMismatch { recorded: hash(8), captured: hash(9) })
    );
}

#[test]
fn engine_refusals_convert_into_select_errors() {
    let e: SlotError<&str> = SlotError::from("no room");
    assert_eq!(e, SlotError::Select("no room"));
    let e: ReplayError<&str, u64> = ReplayError::from("no room");
    assert_eq!(e, ReplayError::Select("no room"));
}

#[test]
fn decimal_and_optional_index_text() {
    assert_eq!(decimal(0), "0");
    assert_eq!(decimal(1907), "1907");
    assert_eq!(decimal(usize::MAX), usize::MAX.to_string());
    assert_eq!(option_index(None), "None");
    assert_eq!(option_index(Some(40)), "Some(40)");
}
