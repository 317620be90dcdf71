//! The lifetime law of a reference-counted handle wrapper.
//!
//! A wrapper begins life adopting one reference; every duplication retains
//! one more, every destruction releases one. This module states the law those
//! contracts add up to: along any sequence of duplications and destructions,
//! each made while a wrapper is still live, the underlying record is freed at
//! most once, and exactly once just when the last wrapper is destroyed.

use vstd::prelude::*;

use crate::server::Record;
use crate::server::spec_released;

verus! {

/// One step in the life of a family of wrappers aliasing one record.
pub enum WrapperEvent {
    /// An existing wrapper is duplicated: one more reference is retained.
    Duplicate,
    /// A wrapper is destroyed: one reference is released.
    Destroy,
}

/// How many wrappers are live after `events`, starting from the single
/// adopted one. Duplication retains exactly one reference and destruction
/// releases exactly one, so this is also the record's reference count.
pub open spec fn live_wrappers(events: Seq<WrapperEvent>) -> int
    decreases events.len(),
{
    if events.len() == 0 {
        1
    } else {
        live_wrappers(events.drop_last()) + match events.last() {
            WrapperEvent::Duplicate => 1int,
            WrapperEvent::Destroy => -1int,
        }
    }
}

/// Every event is performed on a live wrapper: before each step at least one
/// wrapper exists.
pub open spec fn events_wf(events: Seq<WrapperEvent>) -> bool {
    forall|i: int|
        0 <= i < events.len() ==> live_wrappers(#[trigger] events.subrange(0, i)) >= 1
}

/// How many times the record has been freed after `events`: a destruction
/// frees exactly when it takes the last reference away.
pub open spec fn frees(events: Seq<WrapperEvent>) -> int
    decreases events.len(),
{
    if events.len() == 0 {
        0
    } else {
        frees(events.drop_last()) + match events.last() {
            WrapperEvent::Duplicate => 0int,
            WrapperEvent::Destroy => if live_wrappers(events) == 0 {
                1int
            } else {
                0int
            },
        }
    }
}

/// A well-formed event sequence stays well-formed when its last event is
/// dropped, and its last event found at least one live wrapper.
proof fn lemma_events_wf_drop_last(events: Seq<WrapperEvent>)
    requires
        events_wf(events),
        events.len() > 0,
    ensures
        events_wf(events.drop_last()),
        live_wrappers(events.drop_last()) >= 1,
{
    let prefix = events.drop_last();
    assert forall|i: int|
        0 <= i < prefix.len() implies live_wrappers(#[trigger] prefix.subrange(0, i)) >= 1 by {
        assert(prefix.subrange(0, i) =~= events.subrange(0, i));
        assert(live_wrappers(events.subrange(0, i)) >= 1);
    }
    assert(events.subrange(0, events.len() - 1) =~= prefix);
    assert(live_wrappers(events.subrange(0, events.len() - 1)) >= 1);
}

/// At most one wrapper comes to life per event.
proof fn lemma_live_wrappers_bounded(events: Seq<WrapperEvent>)
    ensures
        live_wrappers(events) <= 1 + events.len(),
    decreases events.len(),
{
    if events.len() > 0 {
        lemma_live_wrappers_bounded(events.drop_last());
    }
}

/// For every sequence of duplications and destructions of a wrapper, each
/// made while a wrapper is still live, the underlying record is released into
/// freedom exactly once: never twice, and not before the last wrapper
/// referencing it is destroyed.
pub proof fn lemma_released_exactly_once(events: Seq<WrapperEvent>)
    requires
        events_wf(events),
    ensures
        live_wrappers(events) >= 0,
        0 <= frees(events) <= 1,
        frees(events) == 1 <==> live_wrappers(events) == 0,
    decreases events.len(),
{
    if events.len() > 0 {
        lemma_events_wf_drop_last(events);
        lemma_released_exactly_once(events.drop_last());
    }
}

/// The record left by replaying `events` against the verified calls: a
/// duplication retains — what [`crate::display::CGDisplayMode::duplicate`]
/// does to the record — and a destruction releases, as
/// [`crate::display::CGDisplayMode::destroy`] does.
pub open spec fn record_after(r: Record, events: Seq<WrapperEvent>) -> Record
    decreases events.len(),
{
    if events.len() == 0 {
        r
    } else {
        let prev = record_after(r, events.drop_last());
        match events.last() {
            WrapperEvent::Duplicate => Record { ref_count: (prev.ref_count + 1) as u64, ..prev },
            WrapperEvent::Destroy => spec_released(prev),
        }
    }
}

/// The window server's record tracks the wrappers exactly: replaying any
/// well-formed event sequence against a freshly adopted record (one
/// reference, never freed) leaves the reference count equal to the number of
/// live wrappers, and the record freed exactly as often as the abstract law
/// says.
pub proof fn lemma_record_tracks_wrappers(r: Record, events: Seq<WrapperEvent>)
    requires
        events_wf(events),
        r.ref_count == 1,
        r.frees == 0,
        events.len() < u64::MAX,
    ensures
        record_after(r, events).ref_count == live_wrappers(events),
        record_after(r, events).frees == frees(events),
        record_after(r, events).kind == r.kind,
    decreases events.len(),
{
    if events.len() > 0 {
        let prefix = events.drop_last();
        lemma_events_wf_drop_last(events);
        lemma_record_tracks_wrappers(r, prefix);
        lemma_released_exactly_once(prefix);
        lemma_live_wrappers_bounded(prefix);
    }
}

} // verus!
