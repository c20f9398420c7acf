//! The render pipeline of one request, as a state machine.
//!
//! The pipeline decides; the host acts. Each step takes the event that the
//! host observed and answers with the next thing for the host to do: fetch
//! the font, carry out the raster rendering, look the entitlement up, carry
//! out the composite rendering, or settle the request. The stages follow one
//! another in that order and never go back; an event that the current stage
//! does not wait for changes nothing.

use rusttype::Font;
use vstd::prelude::*;
use crate::cipher::{decoded_all, decrypt_info_with};
use crate::composite::{composite_of, Composite, CompositePlan};
use crate::font::{font_usable, load_font};
use crate::model::{Config, Params, RenderError, Request, Settings};
use crate::raster::{raster_of, Raster, RasterPlan};
use crate::user::{resolved_tier, FreePlan, Session, User, VipPlan};

verus! {

/// What the host observed.
#[derive(Debug)]
pub enum Event {
    /// The fetch of the font asset ended, with the asset's bytes or without.
    FontFetched(Option<Vec<u8>>),
    /// The raster rendering was carried out (`true`), or the surface refused
    /// an operation (`false`).
    RasterPublished(bool),
    /// The entitlement lookup ended, with the tier it found or without.
    EntitlementResolved(Option<usize>),
    /// The composite rendering was carried out (`true`), or the surface
    /// refused an operation (`false`).
    CompositePublished(bool),
}

/// The mathematical value of an [`Event`].
pub enum Observed {
    FontFetched(Option<Seq<u8>>),
    RasterPublished(bool),
    EntitlementResolved(Option<usize>),
    CompositePublished(bool),
}

impl View for Event {
    type V = Observed;

    open spec fn view(&self) -> Observed {
        match *self {
            Event::FontFetched(Some(bytes)) => Observed::FontFetched(Some(bytes@)),
            Event::FontFetched(None) => Observed::FontFetched(None),
            Event::RasterPublished(ok) => Observed::RasterPublished(ok),
            Event::EntitlementResolved(lookup) => Observed::EntitlementResolved(lookup),
            Event::CompositePublished(ok) => Observed::CompositePublished(ok),
        }
    }
}

/// What the host is to do next.
#[derive(Debug)]
pub enum Action {
    /// Fetch the font asset from this address and report `FontFetched`.
    FetchFont(String),
    /// Carry out the raster rendering with this font and report
    /// `RasterPublished`.
    Rasterize { plan: RasterPlan, font: Font<'static> },
    /// Look up the entitlement tier of this token and report
    /// `EntitlementResolved`.
    ResolveEntitlement(String),
    /// Carry out the composite rendering and report `CompositePublished`.
    Composite(CompositePlan),
    /// Settle the request as fulfilled.
    Fulfil,
    /// Settle the request as rejected, for this reason.
    Reject(RenderError),
}

/// The mathematical value of an [`Action`]. The font of a raster rendering
/// has no value that verified code can speak of, and is left out.
pub enum Order {
    FetchFont(Seq<char>),
    Rasterize(Raster),
    ResolveEntitlement(Seq<char>),
    Composite(Composite),
    Fulfil,
    Reject(RenderError),
}

impl View for Action {
    type V = Order;

    open spec fn view(&self) -> Order {
        match *self {
            Action::FetchFont(url) => Order::FetchFont(url@),
            Action::Rasterize { plan, font } => Order::Rasterize(plan@),
            Action::ResolveEntitlement(token) => Order::ResolveEntitlement(token@),
            Action::Composite(plan) => Order::Composite(plan@),
            Action::Fulfil => Order::Fulfil,
            Action::Reject(error) => Order::Reject(error),
        }
    }
}

/// The value of the answer to an event: an order, or nothing where the event
/// was dropped.
pub open spec fn order_of(action: Option<Action>) -> Option<Order> {
    match action {
        Some(action) => Some(action@),
        None => None,
    }
}

/// The value of a request that may have been unreadable.
pub open spec fn request_of(request: Option<Params>) -> Option<Request> {
    match request {
        Some(params) => Some(params@),
        None => None,
    }
}

enum Stage {
    AwaitingFont { request: Option<Params> },
    Rasterizing { session: User<FreePlan> },
    Resolving { session: User<FreePlan> },
    Compositing { elevated: User<VipPlan> },
    Fulfilled,
    Rejected { error: RenderError },
}

/// The stage that a pipeline is in.
pub enum Phase {
    /// The font asset is being fetched. The request is held as it came in;
    /// `None` stands for a request that could not be read.
    AwaitingFont { request: Option<Request> },
    /// The raster rendering of the base session is being carried out.
    Rasterizing { session: Session },
    /// The entitlement of the base session is being looked up.
    Resolving { session: Session },
    /// The composite rendering of the elevated session is being carried out.
    Compositing { session: Session },
    /// The request was fulfilled.
    Fulfilled,
    /// The request was rejected.
    Rejected { error: RenderError },
}

/// The mathematical value of a [`Pipeline`].
pub struct Machine {
    pub settings: Settings,
    pub phase: Phase,
}

/// The render pipeline of one request.
pub struct Pipeline {
    config: Config,
    stage: Stage,
}

impl View for Pipeline {
    type V = Machine;

    closed spec fn view(&self) -> Machine {
        Machine {
            settings: self.config@,
            phase: match self.stage {
                Stage::AwaitingFont { request } => Phase::AwaitingFont {
                    request: request_of(request),
                },
                Stage::Rasterizing { session } => Phase::Rasterizing { session: session@ },
                Stage::Resolving { session } => Phase::Resolving { session: session@ },
                Stage::Compositing { elevated } => Phase::Compositing { session: elevated@ },
                Stage::Fulfilled => Phase::Fulfilled,
                Stage::Rejected { error } => Phase::Rejected { error },
            },
        }
    }
}

/// A pipeline that has just been made for `request`.
pub open spec fn started(settings: Settings, request: Option<Request>) -> Machine {
    Machine { settings, phase: Phase::AwaitingFont { request } }
}

/// The pipeline given up for `error`, and the order that says so.
pub open spec fn rejected(machine: Machine, error: RenderError) -> (Machine, Option<Order>) {
    (Machine { phase: Phase::Rejected { error }, ..machine }, Some(Order::Reject(error)))
}

/// The base session of a request: its token, no entitlement yet, and its
/// annotations decoded under the key of the settings.
pub open spec fn base_session(settings: Settings, request: Request) -> Session {
    Session {
        token: request.token,
        tier: 0,
        annotations: decoded_all(request.annotations, settings.key),
    }
}

/// What follows the fetch of the font asset, given whether it ended with a
/// usable font. Without a font nothing is rendered, and neither is an
/// unreadable request; otherwise the request is decoded and its base session
/// is rendered as a raster.
pub open spec fn after_font(machine: Machine, request: Option<Request>, usable: bool) -> (
    Machine,
    Option<Order>,
) {
    if !usable {
        rejected(machine, RenderError::FontUnavailable)
    } else {
        match request {
            None => rejected(machine, RenderError::MalformedRequest),
            Some(request) => {
                let session = base_session(machine.settings, request);
                (
                    Machine { phase: Phase::Rasterizing { session }, ..machine },
                    Some(
                        Order::Rasterize(raster_of(session.annotations, machine.settings.surface)),
                    ),
                )
            },
        }
    }
}

/// What follows the entitlement lookup of `session`. A positive tier
/// promotes the session, and the elevated session is rendered as text nodes;
/// no tier, or a lookup that failed, ends the request with the raster alone.
pub open spec fn after_lookup(machine: Machine, session: Session, lookup: Option<usize>) -> (
    Machine,
    Option<Order>,
) {
    if resolved_tier(lookup) > 0 {
        (
            Machine {
                phase: Phase::Compositing {
                    session: Session { tier: resolved_tier(lookup), ..session },
                },
                ..machine
            },
            Some(Order::Composite(composite_of(session.annotations, machine.settings.surface))),
        )
    } else {
        (Machine { phase: Phase::Fulfilled, ..machine }, Some(Order::Fulfil))
    }
}

/// The pipeline after an event, and the order that answers it. An event that
/// the stage does not wait for leaves the pipeline as it is and is answered
/// with nothing.
pub open spec fn next(machine: Machine, event: Observed) -> (Machine, Option<Order>) {
    match (machine.phase, event) {
        (Phase::AwaitingFont { request }, Observed::FontFetched(fetched)) => after_font(
            machine,
            request,
            font_usable(fetched),
        ),
        (Phase::Rasterizing { session }, Observed::RasterPublished(ok)) => if ok {
            (
                Machine { phase: Phase::Resolving { session }, ..machine },
                Some(Order::ResolveEntitlement(session.token)),
            )
        } else {
            rejected(machine, RenderError::SurfaceFailure)
        },
        (Phase::Resolving { session }, Observed::EntitlementResolved(lookup)) => after_lookup(
            machine,
            session,
            lookup,
        ),
        (Phase::Compositing { session }, Observed::CompositePublished(ok)) => if ok {
            (Machine { phase: Phase::Fulfilled, ..machine }, Some(Order::Fulfil))
        } else {
            rejected(machine, RenderError::SurfaceFailure)
        },
        _ => (machine, None),
    }
}

impl Pipeline {
    /// Makes the pipeline of one request and says where to fetch the font
    /// from. `None` stands for a request that could not be read.
    pub fn new(config: Config, request: Option<Params>) -> (begun: (Pipeline, Action))
        ensures
            begun.0@ == started(config@, request_of(request)),
            begun.1@ == Order::FetchFont(config@.font_url),
    {
        let url = config.font_url.clone();
        (Pipeline { config, stage: Stage::AwaitingFont { request } }, Action::FetchFont(url))
    }

    /// Whether the request has been settled, as fulfilled or as rejected.
    pub fn is_settled(&self) -> (settled: bool)
        ensures
            settled <==> self@.phase is Fulfilled || self@.phase is Rejected,
    {
        match self.stage {
            Stage::Fulfilled => true,
            Stage::Rejected { .. } => true,
            _ => false,
        }
    }

    /// Takes the pipeline on from the fetch of the font asset, given the font
    /// that it ended with, if any. In any other stage the font is dropped.
    pub fn font_arrived(self, font: Option<Font<'static>>) -> (stepped: (Pipeline, Option<Action>))
        ensures
            (stepped.0@, order_of(stepped.1)) == (match self@.phase {
                Phase::AwaitingFont { request } => after_font(self@, request, font is Some),
                _ => (self@, None),
            }),
    {
        let Pipeline { config, stage } = self;
        match stage {
            Stage::AwaitingFont { request } => match font {
                None => (
                    Pipeline {
                        config,
                        stage: Stage::Rejected { error: RenderError::FontUnavailable },
                    },
                    Some(Action::Reject(RenderError::FontUnavailable)),
                ),
                Some(font) => match request {
                    None => (
                        Pipeline {
                            config,
                            stage: Stage::Rejected { error: RenderError::MalformedRequest },
                        },
                        Some(Action::Reject(RenderError::MalformedRequest)),
                    ),
                    Some(params) => {
                        let Params { mut render_info, user_token } = params;
                        decrypt_info_with(&mut render_info, config.key);
                        let session = User::<FreePlan>::new(user_token, 0, render_info);
                        let plan = session.render_as_img(config.surface);
                        (
                            Pipeline { config, stage: Stage::Rasterizing { session } },
                            Some(Action::Rasterize { plan, font }),
                        )
                    },
                },
            },
            stage => (Pipeline { config, stage }, None),
        }
    }

    /// Takes the pipeline one step on: from the event that the host observed
    /// to the next thing for the host to do.
    pub fn step(self, event: Event) -> (stepped: (Pipeline, Option<Action>))
        ensures
            (stepped.0@, order_of(stepped.1)) == next(self@, event@),
    {
        match event {
            Event::FontFetched(fetched) => {
                if self.awaits_font() {
                    self.font_arrived(load_font(fetched).ok())
                } else {
                    (self, None)
                }
            },
            Event::RasterPublished(ok) => {
                let Pipeline { config, stage } = self;
                match stage {
                    Stage::Rasterizing { session } => if ok {
                        let token = session.user_token().clone();
                        (
                            Pipeline { config, stage: Stage::Resolving { session } },
                            Some(Action::ResolveEntitlement(token)),
                        )
                    } else {
                        (
                            Pipeline {
                                config,
                                stage: Stage::Rejected { error: RenderError::SurfaceFailure },
                            },
                            Some(Action::Reject(RenderError::SurfaceFailure)),
                        )
                    },
                    stage => (Pipeline { config, stage }, None),
                }
            },
            Event::EntitlementResolved(lookup) => {
                let Pipeline { config, stage } = self;
                match stage {
                    Stage::Resolving { session } => {
                        let mut session = session;
                        session.fetch_vip_level(lookup);
                        match session.transition() {
                            Some(elevated) => {
                                let plan = elevated.render_as_div(config.surface);
                                (
                                    Pipeline {
                                        config,
                                        stage: Stage::Compositing { elevated },
                                    },
                                    Some(Action::Composite(plan)),
                                )
                            },
                            None => (
                                Pipeline { config, stage: Stage::Fulfilled },
                                Some(Action::Fulfil),
                            ),
                        }
                    },
                    stage => (Pipeline { config, stage }, None),
                }
            },
            Event::CompositePublished(ok) => {
                let Pipeline { config, stage } = self;
                match stage {
                    Stage::Compositing { .. } => if ok {
                        (Pipeline { config, stage: Stage::Fulfilled }, Some(Action::Fulfil))
                    } else {
                        (
                            Pipeline {
                                config,
                                stage: Stage::Rejected { error: RenderError::SurfaceFailure },
                            },
                            Some(Action::Reject(RenderError::SurfaceFailure)),
                        )
                    },
                    stage => (Pipeline { config, stage }, None),
                }
            },
        }
    }

    fn awaits_font(&self) -> (awaited: bool)
        ensures
            awaited <==> self@.phase is AwaitingFont,
    {
        match self.stage {
            Stage::AwaitingFont { .. } => true,
            _ => false,
        }
    }
}

} // verus!
