//! The session of one request, tagged with the rendering capability that it
//! holds.
//!
//! A [`User<FreePlan>`] can be laid out as a raster image and nothing else. A
//! [`User<VipPlan>`] can also be laid out as selectable text nodes. The one
//! way to a `User<VipPlan>` is [`User::transition`], which consumes a
//! `User<FreePlan>` and succeeds only for a positive entitlement tier; the
//! composite rendering is a method of `User<VipPlan>` alone, so no code can
//! reach it for a session that was not promoted.

use std::marker::PhantomData;
use vstd::prelude::*;
use crate::composite::{composite_of, CompositePlan, TextNode, COMPOSITE_LABEL};
use crate::css::px_length;
use crate::model::{annotations_of, Annotation, ImageAttributes, RenderString};
use crate::raster::{raster_of, Ink, RasterPlan, TextStroke, RASTER_LABEL};

verus! {

/// The tag of a session that holds the base capability.
#[derive(Debug)]
pub struct FreePlan;

/// The tag of a session that holds the elevated capability.
#[derive(Debug)]
pub struct VipPlan;

/// A session: the token it was opened with, its entitlement tier (0 for
/// none), and the decoded annotations of its request.
#[derive(Debug)]
pub struct User<T> {
    user_token: String,
    vip_level: usize,
    info: Vec<RenderString>,
    _type: PhantomData<T>,
}

/// The mathematical value of a session, whatever its capability.
pub struct Session {
    pub token: Seq<char>,
    pub tier: nat,
    pub annotations: Seq<Annotation>,
}

/// The tier that a lookup resolves to: the tier it found, and none where the
/// lookup failed.
pub open spec fn resolved_tier(lookup: Option<usize>) -> nat {
    match lookup {
        Some(tier) => tier as nat,
        None => 0,
    }
}

impl<T> View for User<T> {
    type V = Session;

    closed spec fn view(&self) -> Session {
        Session {
            token: self.user_token@,
            tier: self.vip_level as nat,
            annotations: annotations_of(self.info@),
        }
    }
}

impl User<FreePlan> {
    /// Opens a session with the base capability.
    pub fn new(user_token: String, vip_level: usize, info: Vec<RenderString>) -> (user: Self)
        ensures
            user@ == (Session {
                token: user_token@,
                tier: vip_level as nat,
                annotations: annotations_of(info@),
            }),
    {
        User { user_token, vip_level, info, _type: PhantomData }
    }

    /// Promotes the session to the elevated capability if its tier is
    /// positive. The base session is used up either way.
    pub fn transition(self) -> (elevated: Option<User<VipPlan>>)
        ensures
            elevated is Some <==> self@.tier > 0,
            elevated matches Some(user) ==> user@ == self@,
    {
        if self.vip_level > 0 {
            Some(
                User {
                    user_token: self.user_token,
                    vip_level: self.vip_level,
                    info: self.info,
                    _type: PhantomData,
                },
            )
        } else {
            None
        }
    }
}

impl<T> User<T> {
    /// The token that the session was opened with.
    pub fn user_token(&self) -> (token: &String)
        ensures
            token@ == self@.token,
    {
        &self.user_token
    }

    /// The decoded annotations of the session, in drawing order.
    pub fn info(&self) -> (info: &Vec<RenderString>)
        ensures
            annotations_of(info@) == self@.annotations,
    {
        &self.info
    }

    /// The entitlement tier of the session.
    pub fn get_vip_level(&self) -> (vip_level: usize)
        ensures
            vip_level as nat == self@.tier,
    {
        self.vip_level
    }

    /// Sets the entitlement tier of the session.
    pub fn set_vip_level(&mut self, vip_level: usize)
        ensures
            final(self)@ == (Session { tier: vip_level as nat, ..old(self)@ }),
    {
        self.vip_level = vip_level
    }

    /// Records what the entitlement lookup for this session's token came back
    /// with. A lookup that failed counts as no entitlement.
    pub fn fetch_vip_level(&mut self, lookup: Option<usize>)
        ensures
            final(self)@ == (Session { tier: resolved_tier(lookup), ..old(self)@ }),
    {
        let vip_level = match lookup {
            Some(tier) => tier,
            None => 0,
        };
        self.set_vip_level(vip_level);
    }

    /// Lays out the raster rendering of the session's annotations on a
    /// surface of the given dimensions.
    pub fn render_as_img(&self, surface: ImageAttributes) -> (plan: RasterPlan)
        ensures
            plan@ == raster_of(self@.annotations, surface),
    {
        let mut strokes: Vec<TextStroke> = Vec::new();
        let mut i: usize = 0;
        while i < self.info.len()
            invariant
                i <= self.info@.len(),
                strokes@.len() == i,
                forall|j: int|
                    0 <= j < i ==> (#[trigger] strokes@[j])@ == crate::raster::stroke_of(
                        self.info@[j]@,
                    ),
            decreases self.info@.len() - i,
        {
            let item = &self.info[i];
            strokes.push(
                TextStroke {
                    text: item.cipher.clone(),
                    anchor: item.position,
                    font_style: item.font_style,
                    ink: Ink { red: 0, green: 0, blue: 0, alpha: 255 },
                },
            );
            i += 1;
        }
        let plan = RasterPlan { surface, strokes, label: RASTER_LABEL.to_owned() };
        assert(plan@.strokes =~= raster_of(self@.annotations, surface).strokes);
        plan
    }
}

impl User<VipPlan> {
    /// Lays out the composite rendering of the session's annotations on a
    /// surface of the given dimensions.
    pub fn render_as_div(&self, surface: ImageAttributes) -> (plan: CompositePlan)
        ensures
            plan@ == composite_of(self@.annotations, surface),
    {
        let mut children: Vec<TextNode> = Vec::new();
        let mut i: usize = 0;
        while i < self.info.len()
            invariant
                i <= self.info@.len(),
                children@.len() == i,
                forall|j: int|
                    0 <= j < i ==> (#[trigger] children@[j])@ == crate::composite::node_of(
                        self.info@[j]@,
                    ),
            decreases self.info@.len() - i,
        {
            let item = &self.info[i];
            children.push(
                TextNode {
                    text: item.cipher.clone(),
                    left: px_length(item.position.x as i64),
                    top: px_length(item.position.y as i64),
                    font_style: item.font_style,
                },
            );
            i += 1;
        }
        let plan = CompositePlan {
            width: px_length(surface.width as i64),
            height: px_length(surface.height as i64),
            children,
            label: COMPOSITE_LABEL.to_owned(),
        };
        assert(plan@.children =~= composite_of(self@.annotations, surface).children);
        plan
    }
}

} // verus!
