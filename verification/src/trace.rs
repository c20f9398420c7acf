//! Runs of the render pipeline, and what holds of every run.

use vstd::prelude::*;
use crate::cipher::decoded_all;
use crate::composite::composite_of;
use crate::font::font_usable;
use crate::model::{RenderError, Request, Settings};
use crate::pipeline::{base_session, next, started, Machine, Observed, Order, Phase};
use crate::raster::raster_of;
use crate::user::{resolved_tier, Session};

verus! {

/// The pipeline after a sequence of events, taken in order.
pub open spec fn run(machine: Machine, events: Seq<Observed>) -> Machine
    decreases events.len(),
{
    if events.len() == 0 {
        machine
    } else {
        next(run(machine, events.drop_last()), events.last()).0
    }
}

/// The order that answers the last of a sequence of events.
pub open spec fn answer(machine: Machine, events: Seq<Observed>) -> Option<Order>
    recommends
        events.len() > 0,
{
    next(run(machine, events.drop_last()), events.last()).1
}

/// How far a stage is along the pipeline.
pub open spec fn progress(phase: Phase) -> nat {
    match phase {
        Phase::AwaitingFont { .. } => 0,
        Phase::Rasterizing { .. } => 1,
        Phase::Resolving { .. } => 2,
        Phase::Compositing { .. } => 3,
        Phase::Fulfilled => 4,
        Phase::Rejected { .. } => 4,
    }
}

/// Whether an event reports an entitlement lookup that found a positive tier.
pub open spec fn grants(event: Observed) -> bool {
    event matches Observed::EntitlementResolved(lookup) && resolved_tier(lookup) > 0
}

/// Whether a pipeline is one that can come about for `request`: what it
/// holds is the request itself, or the session of that request, and a session
/// in the composite stage is that session with a positive tier.
pub open spec fn serves(machine: Machine, request: Option<Request>) -> bool {
    match machine.phase {
        Phase::AwaitingFont { request: held } => held == request,
        Phase::Rasterizing { session } => request matches Some(r) && session == base_session(
            machine.settings,
            r,
        ),
        Phase::Resolving { session } => request matches Some(r) && session == base_session(
            machine.settings,
            r,
        ),
        Phase::Compositing { session } => request matches Some(r) && session.tier > 0
            && (Session { tier: 0, ..session }) == base_session(machine.settings, r),
        Phase::Fulfilled => true,
        Phase::Rejected { .. } => true,
    }
}

/// A step never takes the pipeline back to an earlier stage, it never
/// changes the settings, and an event that is answered with nothing leaves
/// the pipeline as it is. A settled pipeline answers nothing any more.
pub proof fn lemma_step_goes_forward(machine: Machine, event: Observed)
    ensures
        progress(next(machine, event).0.phase) >= progress(machine.phase),
        next(machine, event).0.settings == machine.settings,
        next(machine, event).1 is None ==> next(machine, event).0 == machine,
        next(machine, event).1 is Some ==> progress(next(machine, event).0.phase) > progress(
            machine.phase,
        ),
        progress(machine.phase) == 4 ==> next(machine, event).1 is None,
{
}

/// Each order belongs to one change of stage: the raster rendering is
/// ordered on leaving the wait for the font, the lookup once the raster was
/// published, the composite rendering on leaving the lookup, and a request is
/// settled in the way that the order says. Since no step goes back, each of
/// them is ordered at most once in a run, and in this order. A request is
/// rejected for want of a font, or as unreadable, only before anything was
/// rendered, and for a failure of the surface only while it was rendered to.
pub proof fn lemma_orders_follow_stages(machine: Machine, event: Observed)
    ensures
        match next(machine, event).1 {
            Some(Order::FetchFont(_)) => false,
            Some(Order::Rasterize(_)) => machine.phase is AwaitingFont && next(
                machine,
                event,
            ).0.phase is Rasterizing,
            Some(Order::ResolveEntitlement(_)) => machine.phase is Rasterizing && event
                == Observed::RasterPublished(true) && next(machine, event).0.phase is Resolving,
            Some(Order::Composite(_)) => machine.phase is Resolving && next(
                machine,
                event,
            ).0.phase is Compositing,
            Some(Order::Fulfil) => next(machine, event).0.phase is Fulfilled,
            Some(Order::Reject(error)) => next(machine, event).0.phase == (Phase::Rejected {
                error,
            }) && match error {
                RenderError::FontUnavailable => machine.phase is AwaitingFont,
                RenderError::MalformedRequest => machine.phase is AwaitingFont,
                RenderError::SurfaceFailure => machine.phase is Rasterizing
                    || machine.phase is Compositing,
            },
            None => true,
        },
{
}

/// No run takes the pipeline back to an earlier stage or changes the
/// settings.
pub proof fn lemma_run_goes_forward(machine: Machine, events: Seq<Observed>)
    ensures
        progress(run(machine, events).phase) >= progress(machine.phase),
        run(machine, events).settings == machine.settings,
    decreases events.len(),
{
    if events.len() > 0 {
        lemma_run_goes_forward(machine, events.drop_last());
        lemma_step_goes_forward(run(machine, events.drop_last()), events.last());
    }
}

/// The composite rendering is ordered in answer to one event only: a lookup
/// that found a positive tier, reported while the entitlement was being
/// looked up. No other step enters the composite stage.
pub proof fn lemma_composite_needs_grant(machine: Machine, event: Observed)
    ensures
        next(machine, event).1 matches Some(Order::Composite(_)) ==> machine.phase is Resolving
            && grants(event),
        next(machine, event).0.phase is Compositing ==> machine.phase is Compositing || (
        machine.phase is Resolving && grants(event)),
        machine.phase is Resolving && event is EntitlementResolved && !grants(event) ==> next(
            machine,
            event,
        ) == (Machine { phase: Phase::Fulfilled, ..machine }, Some(Order::Fulfil)),
{
}

/// In a run in which no lookup finds a positive tier, the pipeline never
/// enters the composite stage and the composite rendering is never ordered.
pub proof fn lemma_no_grant_no_composite(machine: Machine, events: Seq<Observed>)
    requires
        !(machine.phase is Compositing),
        forall|i: int| 0 <= i < events.len() ==> !grants(#[trigger] events[i]),
    ensures
        !(run(machine, events).phase is Compositing),
        events.len() > 0 ==> !(answer(machine, events) matches Some(Order::Composite(_))),
    decreases events.len(),
{
    if events.len() > 0 {
        let earlier = events.drop_last();
        assert forall|i: int| 0 <= i < earlier.len() implies !grants(#[trigger] earlier[i]) by {
            assert(earlier[i] == events[i]);
        }
        lemma_no_grant_no_composite(machine, earlier);
        assert(!grants(events[events.len() - 1]));
        lemma_composite_needs_grant(run(machine, earlier), events.last());
    }
}

/// A pipeline that has just been made for a request serves that request.
pub proof fn lemma_started_serves(settings: Settings, request: Option<Request>)
    ensures
        serves(started(settings, request), request),
{
}

/// A step keeps the pipeline serving its request, and what it orders is
/// laid out from that request alone: the raster rendering shows the decoded
/// annotations of the request, the lookup is for its token, and the
/// composite rendering shows the same decoded annotations.
pub proof fn lemma_step_serves(machine: Machine, request: Option<Request>, event: Observed)
    requires
        serves(machine, request),
    ensures
        serves(next(machine, event).0, request),
        match next(machine, event).1 {
            Some(Order::Rasterize(raster)) => request matches Some(r) && raster == raster_of(
                base_session(machine.settings, r).annotations,
                machine.settings.surface,
            ),
            Some(Order::ResolveEntitlement(token)) => request matches Some(r) && token == r.token,
            Some(Order::Composite(composite)) => request matches Some(r) && composite
                == composite_of(
                base_session(machine.settings, r).annotations,
                machine.settings.surface,
            ),
            _ => true,
        },
{
}

/// Every run from a pipeline that serves a request ends in one that does.
pub proof fn lemma_run_serves(machine: Machine, request: Option<Request>, events: Seq<Observed>)
    requires
        serves(machine, request),
    ensures
        serves(run(machine, events), request),
    decreases events.len(),
{
    if events.len() > 0 {
        lemma_run_serves(machine, request, events.drop_last());
        lemma_step_serves(run(machine, events.drop_last()), request, events.last());
    }
}

/// Promotion keeps the content of the session: the session that enters the
/// composite stage has the token and the annotations of the session whose
/// entitlement was looked up, and the composite rendering shows those
/// annotations.
pub proof fn lemma_promotion_keeps_content(machine: Machine, lookup: Option<usize>)
    requires
        machine.phase is Resolving,
        resolved_tier(lookup) > 0,
    ensures
        ({
            let before = machine.phase->Resolving_session;
            let (after, order) = next(machine, Observed::EntitlementResolved(lookup));
            &&& after.phase matches Phase::Compositing { session }
            &&& session.token == before.token
            &&& session.annotations == before.annotations
            &&& session.tier == resolved_tier(lookup)
            &&& order == Some(
                Order::Composite(composite_of(before.annotations, machine.settings.surface)),
            )
        }),
{
}

/// The run of a readable request whose lookup finds no entitlement: with a
/// usable font and a surface that takes the raster, the decoded annotations
/// are rendered as a raster, the entitlement is looked up for the request's
/// token, and the request is fulfilled with the raster alone.
pub proof fn lemma_base_tier_run(
    settings: Settings,
    request: Request,
    fetched: Option<Seq<u8>>,
    lookup: Option<usize>,
)
    requires
        font_usable(fetched),
        resolved_tier(lookup) == 0,
    ensures
        ({
            let start = started(settings, Some(request));
            let plain = decoded_all(request.annotations, settings.key);
            let events = seq![
                Observed::FontFetched(fetched),
                Observed::RasterPublished(true),
                Observed::EntitlementResolved(lookup),
            ];
            &&& answer(start, events.take(1)) == Some(
                Order::Rasterize(raster_of(plain, settings.surface)),
            )
            &&& answer(start, events.take(2)) == Some(Order::ResolveEntitlement(request.token))
            &&& answer(start, events) == Some(Order::Fulfil)
            &&& run(start, events).phase is Fulfilled
        }),
{
    let start = started(settings, Some(request));
    let events = seq![
        Observed::FontFetched(fetched),
        Observed::RasterPublished(true),
        Observed::EntitlementResolved(lookup),
    ];
    lemma_run_unfolds(start, events, 0);
    lemma_run_unfolds(start, events, 1);
    lemma_run_unfolds(start, events, 2);
    assert(events.take(3) == events);
}

/// The run of a readable request whose lookup finds a positive tier: after
/// the raster and the lookup, the same decoded annotations are rendered as
/// text nodes, one per annotation, and the request is fulfilled once the
/// surface has taken them.
pub proof fn lemma_elevated_tier_run(
    settings: Settings,
    request: Request,
    fetched: Option<Seq<u8>>,
    lookup: Option<usize>,
)
    requires
        font_usable(fetched),
        resolved_tier(lookup) > 0,
    ensures
        ({
            let start = started(settings, Some(request));
            let plain = decoded_all(request.annotations, settings.key);
            let events = seq![
                Observed::FontFetched(fetched),
                Observed::RasterPublished(true),
                Observed::EntitlementResolved(lookup),
                Observed::CompositePublished(true),
            ];
            &&& answer(start, events.take(1)) == Some(
                Order::Rasterize(raster_of(plain, settings.surface)),
            )
            &&& answer(start, events.take(2)) == Some(Order::ResolveEntitlement(request.token))
            &&& answer(start, events.take(3)) == Some(
                Order::Composite(composite_of(plain, settings.surface)),
            )
            &&& answer(start, events) == Some(Order::Fulfil)
            &&& run(start, events).phase is Fulfilled
        }),
{
    let start = started(settings, Some(request));
    let events = seq![
        Observed::FontFetched(fetched),
        Observed::RasterPublished(true),
        Observed::EntitlementResolved(lookup),
        Observed::CompositePublished(true),
    ];
    lemma_run_unfolds(start, events, 0);
    lemma_run_unfolds(start, events, 1);
    lemma_run_unfolds(start, events, 2);
    lemma_run_unfolds(start, events, 3);
    assert(events.take(4) == events);
}

/// The run over the first `k + 1` events is the run over the first `k`,
/// taken one step on by the event at `k`.
proof fn lemma_run_unfolds(machine: Machine, events: Seq<Observed>, k: int)
    requires
        0 <= k < events.len(),
    ensures
        run(machine, events.take(k + 1)) == next(run(machine, events.take(k)), events[k]).0,
        answer(machine, events.take(k + 1)) == next(run(machine, events.take(k)), events[k]).1,
        run(machine, events.take(0)) == machine,
{
    assert(events.take(k + 1).drop_last() == events.take(k));
    assert(events.take(k + 1).last() == events[k]);
}

} // verus!
