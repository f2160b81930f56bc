//! The fan-out dispatch engine: per-target outcomes for one notification.
//!
//! A dispatch is call-scoped and stateless: each target runs as one
//! independent unit of work whose only suspension is the transport call,
//! which the surrounding runtime performs. The engine itself decides what
//! every unit's result means — one tagged outcome per target, a complete
//! batch regardless of how many targets failed, and no failure ever
//! propagating from one target to another.

use vstd::prelude::*;

verus! {

/// Why the delivery to one target failed. Failures are isolated per
/// target: none of them ever aborts a sibling delivery.
#[derive(Clone, Debug, PartialEq, Eq)]
pub enum DeliveryError {
    /// The request signature could not be produced for this target.
    Signing(String),
    /// The payload could not be encrypted or framed for this target.
    Encryption(String),
    /// The push service refused the message or could not be reached.
    Transport(String),
    /// The per-send deadline expired before the transport resolved.
    TimedOut,
    /// The caller cancelled the dispatch while this send was pending.
    Cancelled,
}

impl DeliveryError {
    /// An exact copy of this failure.
    pub fn duplicate(&self) -> (r: DeliveryError)
        ensures
            r == *self,
    {
        match self {
            DeliveryError::Signing(s) => DeliveryError::Signing(s.clone()),
            DeliveryError::Encryption(s) => DeliveryError::Encryption(s.clone()),
            DeliveryError::Transport(s) => DeliveryError::Transport(s.clone()),
            DeliveryError::TimedOut => DeliveryError::TimedOut,
            DeliveryError::Cancelled => DeliveryError::Cancelled,
        }
    }
}

/// Terminal state of one unit of work: `Pending -> Delivered | Failed`,
/// decided on the first transition, never retried within a dispatch.
#[derive(Clone, Debug, PartialEq, Eq)]
pub enum DeliveryStatus {
    /// The push service accepted the message for this target.
    Delivered,
    /// The delivery failed for this target alone.
    Failed(DeliveryError),
}

/// The per-target result of a dispatch, keyed by subscription id.
#[derive(Clone, Debug, PartialEq, Eq)]
pub struct DispatchOutcome {
    /// Which subscription the unit of work delivered to.
    pub subscription_id: i64,
    /// How the unit ended.
    pub status: DeliveryStatus,
}

/// The outcome a delivery result maps to: success becomes `Delivered`, any
/// failure is wrapped, tagged, for this target alone.
pub open spec fn outcome_model(
    subscription_id: i64,
    delivery: Result<(), DeliveryError>,
) -> DispatchOutcome {
    DispatchOutcome {
        subscription_id,
        status: match delivery {
            Ok(_) => DeliveryStatus::Delivered,
            Err(e) => DeliveryStatus::Failed(e),
        },
    }
}

/// Seals the outcome of a single-target send: the transport's verdict for
/// that one subscription, wrapped into a tagged outcome. Never panics and
/// never turns a target's failure into an error of the call itself.
pub fn send_to_one(subscription_id: i64, delivery: &Result<(), DeliveryError>) -> (r:
    DispatchOutcome)
    ensures
        r == outcome_model(subscription_id, *delivery),
{
    match delivery {
        Ok(_) => DispatchOutcome { subscription_id, status: DeliveryStatus::Delivered },
        Err(e) => DispatchOutcome {
            subscription_id,
            status: DeliveryStatus::Failed(e.duplicate()),
        },
    }
}

/// Aggregates a broadcast: one outcome per target, in target order.
///
/// Completeness: the batch holds exactly as many outcomes as there were
/// targets, however many failed. Isolation: the outcome at each position
/// depends on that target's id and delivery result alone, so no target's
/// failure can cancel, delay or corrupt another's outcome.
pub fn broadcast(subscription_ids: &Vec<i64>, deliveries: &Vec<Result<(), DeliveryError>>) -> (r:
    Vec<DispatchOutcome>)
    requires
        subscription_ids@.len() == deliveries@.len(),
    ensures
        r@.len() == subscription_ids@.len(),
        forall|i: int|
            0 <= i < r@.len() ==> (#[trigger] r@[i]) == outcome_model(
                subscription_ids@[i],
                deliveries@[i],
            ),
{
    let mut outcomes: Vec<DispatchOutcome> = Vec::new();
    let mut i: usize = 0;
    while i < subscription_ids.len()
        invariant
            i <= subscription_ids@.len(),
            subscription_ids@.len() == deliveries@.len(),
            outcomes@.len() == i,
            forall|j: int|
                0 <= j < i ==> (#[trigger] outcomes@[j]) == outcome_model(
                    subscription_ids@[j],
                    deliveries@[j],
                ),
        decreases subscription_ids@.len() - i,
    {
        let outcome = send_to_one(subscription_ids[i], &deliveries[i]);
        outcomes.push(outcome);
        i += 1;
    }
    outcomes
}

/// Splits `total` units of work into consecutive batches of at most
/// `max_in_flight`, so that a broadcast never has more than that many
/// sends in flight at once. Every batch but the last is full, the batches
/// tile `0..total` in order, and zero units yield zero batches.
pub fn batch_plan(total: usize, max_in_flight: usize) -> (r: Vec<(usize, usize)>)
    requires
        max_in_flight >= 1,
    ensures
        total == 0 ==> r@.len() == 0,
        total > 0 ==> r@.len() >= 1 && r@[0].0 == 0 && r@[r@.len() - 1].1 == total,
        forall|i: int| 0 <= i < r@.len() ==> (#[trigger] r@[i]).0 < r@[i].1 <= total,
        forall|i: int|
            0 <= i < r@.len() ==> (#[trigger] r@[i]).1 - r@[i].0 <= max_in_flight,
        forall|i: int| 0 <= i < r@.len() - 1 ==> (#[trigger] r@[i]).1 == r@[i + 1].0,
        forall|i: int|
            0 <= i < r@.len() ==> ((#[trigger] r@[i]).1 < total ==> r@[i].1 - r@[i].0
                == max_in_flight),
    {
    let mut batches: Vec<(usize, usize)> = Vec::new();
    let mut start: usize = 0;
    while start < total
        invariant
            start <= total,
            max_in_flight >= 1,
            start == 0 ==> batches@.len() == 0,
            start > 0 ==> batches@.len() >= 1 && batches@[0].0 == 0 && batches@[batches@.len()
                - 1].1 == start,
            forall|i: int| 0 <= i < batches@.len() ==> (#[trigger] batches@[i]).0 < batches@[i].1
                <= start,
            forall|i: int|
                0 <= i < batches@.len() ==> (#[trigger] batches@[i]).1 - batches@[i].0
                    <= max_in_flight,
            forall|i: int|
                0 <= i < batches@.len() - 1 ==> (#[trigger] batches@[i]).1 == batches@[i + 1].0,
            forall|i: int|
                0 <= i < batches@.len() ==> ((#[trigger] batches@[i]).1 < total ==> batches@[i].1
                    - batches@[i].0 == max_in_flight),
        decreases total - start,
    {
        let end = if total - start > max_in_flight {
            start + max_in_flight
        } else {
            total
        };
        batches.push((start, end));
        start = end;
    }
    batches
}

} // verus!
