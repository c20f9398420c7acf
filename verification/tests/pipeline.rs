use tiered_render::cipher::{encrypt, encrypt_with};
use tiered_render::model::{
    Config, FontStyle, ImageAttributes, Params, Position, RenderError, RenderString,
};
use tiered_render::pipeline::{Action, Event, Pipeline};

/// The smallest file that is a font: a TrueType header and the three tables
/// that every font must have, with one glyph and 1000 units per em.
fn smallest_font() -> Vec<u8> {
    let mut bytes = vec![0x00, 0x01, 0x00, 0x00, 0x00, 0x03, 0, 0, 0, 0, 0, 0];
    for (tag, offset, length) in [(b"head", 60u32, 54u32), (b"hhea", 114, 36), (b"maxp", 150, 6)] {
        bytes.extend_from_slice(tag);
        bytes.extend_from_slice(&[0, 0, 0, 0]);
        bytes.extend_from_slice(&offset.to_be_bytes());
        bytes.extend_from_slice(&length.to_be_bytes());
    }
    let mut head = [0u8; 54];
    head[18] = 0x03;
    head[19] = 0xe8;
    bytes.extend_from_slice(&head);
    bytes.extend_from_slice(&[0u8; 36]);
    bytes.extend_from_slice(&[0x00, 0x00, 0x50, 0x00, 0x00, 0x01]);
    bytes
}

fn request() -> Params {
    Params {
        render_info: vec![RenderString {
            cipher: encrypt(&String::from("hi")),
            position: Position { x: 5, y: 5 },
            font_style: FontStyle { size_bits: 12.0f32.to_bits() },
        }],
        user_token: String::from("t1"),
    }
}

/// A pipeline for `request()` that has got its font and ordered the raster.
fn rasterizing() -> Pipeline {
    let (pipeline, _) = Pipeline::new(Config::default(), Some(request()));
    let (pipeline, action) = pipeline.step(Event::FontFetched(Some(smallest_font())));
    assert!(matches!(action, Some(Action::Rasterize { .. })));
    pipeline
}

/// A pipeline for `request()` that has published its raster and ordered the lookup.
fn resolving() -> Pipeline {
    let (pipeline, action) = rasterizing().step(Event::RasterPublished(true));
    assert!(matches!(action, Some(Action::ResolveEntitlement(_))));
    pipeline
}

#[test]
fn the_standard_settings() {
    let config = Config::default();
    assert_eq!(config.key, 123);
    assert_eq!(config.surface, ImageAttributes { width: 100, height: 100 });
    assert_eq!(config.font_url, "font/arial.ttf");
}

#[test]
fn a_new_pipeline_asks_for_the_font() {
    let (pipeline, action) = Pipeline::new(Config::default(), Some(request()));
    assert!(!pipeline.is_settled());
    match action {
        Action::FetchFont(url) => assert_eq!(url, "font/arial.ttf"),
        other => panic!("{:?}", other),
    }
}

#[test]
fn the_font_is_fetched_from_where_the_settings_say() {
    let config = Config { font_url: String::from("fonts/other.ttf"), ..Config::default() };
    let (_, action) = Pipeline::new(config, None);
    match action {
        Action::FetchFont(url) => assert_eq!(url, "fonts/other.ttf"),
        other => panic!("{:?}", other),
    }
}

#[test]
fn end_to_end_base_tier() {
    let (pipeline, _) = Pipeline::new(Config::default(), Some(request()));

    let (pipeline, action) = pipeline.step(Event::FontFetched(Some(smallest_font())));
    match action {
        Some(Action::Rasterize { plan, .. }) => {
            assert_eq!(plan.surface, ImageAttributes { width: 100, height: 100 });
            assert_eq!(plan.strokes.len(), 1);
            assert_eq!(plan.strokes[0].text, "hi");
            assert_eq!(plan.strokes[0].anchor, Position { x: 5, y: 5 });
            assert_eq!(f32::from_bits(plan.strokes[0].font_style.size_bits), 12.0);
        }
        other => panic!("{:?}", other),
    }

    let (pipeline, action) = pipeline.step(Event::RasterPublished(true));
    match action {
        Some(Action::ResolveEntitlement(token)) => assert_eq!(token, "t1"),
        other => panic!("{:?}", other),
    }

    let (pipeline, action) = pipeline.step(Event::EntitlementResolved(Some(0)));
    assert!(matches!(action, Some(Action::Fulfil)));
    assert!(pipeline.is_settled());

    let (pipeline, action) = pipeline.step(Event::CompositePublished(true));
    assert!(action.is_none());
    assert!(pipeline.is_settled());
}

#[test]
fn end_to_end_elevated_tier() {
    let (pipeline, _) = Pipeline::new(Config::default(), Some(request()));

    let (pipeline, action) = pipeline.step(Event::FontFetched(Some(smallest_font())));
    match action {
        Some(Action::Rasterize { plan, .. }) => {
            assert_eq!(plan.strokes.len(), 1);
            assert_eq!(plan.strokes[0].text, "hi");
        }
        other => panic!("{:?}", other),
    }

    let (pipeline, action) = pipeline.step(Event::RasterPublished(true));
    assert!(matches!(action, Some(Action::ResolveEntitlement(_))));

    let (pipeline, action) = pipeline.step(Event::EntitlementResolved(Some(3)));
    assert!(!pipeline.is_settled());
    match action {
        Some(Action::Composite(plan)) => {
            assert_eq!(plan.width, "100px");
            assert_eq!(plan.height, "100px");
            assert_eq!(plan.children.len(), 1);
            assert_eq!(plan.children[0].text, "hi");
            assert_eq!(plan.children[0].left, "5px");
            assert_eq!(plan.children[0].top, "5px");
            let size = f32::from_bits(plan.children[0].font_style.size_bits);
            assert_eq!(format!("{}px", size), "12px");
        }
        other => panic!("{:?}", other),
    }

    let (pipeline, action) = pipeline.step(Event::CompositePublished(true));
    assert!(matches!(action, Some(Action::Fulfil)));
    assert!(pipeline.is_settled());
}

#[test]
fn a_failed_lookup_ends_the_request_with_the_raster_alone() {
    let (pipeline, action) = resolving().step(Event::EntitlementResolved(None));
    assert!(matches!(action, Some(Action::Fulfil)));
    assert!(pipeline.is_settled());
}

#[test]
fn the_lowest_positive_tier_is_promoted() {
    let (_, action) = resolving().step(Event::EntitlementResolved(Some(1)));
    assert!(matches!(action, Some(Action::Composite(_))));
}

#[test]
fn a_fetch_that_failed_rejects_the_request() {
    let (pipeline, _) = Pipeline::new(Config::default(), Some(request()));
    let (pipeline, action) = pipeline.step(Event::FontFetched(None));
    assert!(matches!(action, Some(Action::Reject(RenderError::FontUnavailable))));
    assert!(pipeline.is_settled());
}

#[test]
fn bytes_that_are_no_font_reject_the_request() {
    let (pipeline, _) = Pipeline::new(Config::default(), Some(request()));
    let (pipeline, action) = pipeline.step(Event::FontFetched(Some(b"not a font".to_vec())));
    assert!(matches!(action, Some(Action::Reject(RenderError::FontUnavailable))));
    assert!(pipeline.is_settled());
}

#[test]
fn an_unreadable_request_is_rejected_before_anything_is_rendered() {
    let (pipeline, action) = Pipeline::new(Config::default(), None);
    assert!(matches!(action, Action::FetchFont(_)));
    let (pipeline, action) = pipeline.step(Event::FontFetched(Some(smallest_font())));
    assert!(matches!(action, Some(Action::Reject(RenderError::MalformedRequest))));
    assert!(pipeline.is_settled());
}

#[test]
fn a_missing_font_is_reported_before_an_unreadable_request() {
    let (pipeline, _) = Pipeline::new(Config::default(), None);
    let (_, action) = pipeline.step(Event::FontFetched(None));
    assert!(matches!(action, Some(Action::Reject(RenderError::FontUnavailable))));
}

#[test]
fn a_surface_that_refuses_the_raster_rejects_the_request() {
    let (pipeline, action) = rasterizing().step(Event::RasterPublished(false));
    assert!(matches!(action, Some(Action::Reject(RenderError::SurfaceFailure))));
    assert!(pipeline.is_settled());
}

#[test]
fn a_surface_that_refuses_the_composite_rejects_the_request() {
    let (pipeline, _) = resolving().step(Event::EntitlementResolved(Some(3)));
    let (pipeline, action) = pipeline.step(Event::CompositePublished(false));
    assert!(matches!(action, Some(Action::Reject(RenderError::SurfaceFailure))));
    assert!(pipeline.is_settled());
}

#[test]
fn an_event_that_is_not_awaited_changes_nothing() {
    let (pipeline, _) = Pipeline::new(Config::default(), Some(request()));
    let (pipeline, action) = pipeline.step(Event::EntitlementResolved(Some(3)));
    assert!(action.is_none());
    let (pipeline, action) = pipeline.step(Event::RasterPublished(true));
    assert!(action.is_none());
    let (pipeline, action) = pipeline.step(Event::CompositePublished(true));
    assert!(action.is_none());
    assert!(!pipeline.is_settled());
    let (_, action) = pipeline.step(Event::FontFetched(Some(smallest_font())));
    assert!(matches!(action, Some(Action::Rasterize { .. })));
}

#[test]
fn no_lookup_is_taken_before_the_raster_is_published() {
    let (pipeline, action) = rasterizing().step(Event::EntitlementResolved(Some(3)));
    assert!(action.is_none());
    let (pipeline, action) = pipeline.step(Event::FontFetched(Some(smallest_font())));
    assert!(action.is_none());
    let (_, action) = pipeline.step(Event::RasterPublished(true));
    assert!(matches!(action, Some(Action::ResolveEntitlement(_))));
}

#[test]
fn a_settled_pipeline_answers_nothing() {
    let (pipeline, _) = rasterizing().step(Event::RasterPublished(false));
    let (pipeline, action) = pipeline.step(Event::RasterPublished(true));
    assert!(action.is_none());
    let (pipeline, action) = pipeline.step(Event::EntitlementResolved(Some(3)));
    assert!(action.is_none());
    assert!(pipeline.is_settled());
}

#[test]
fn the_request_is_decoded_under_the_key_of_the_settings() {
    let config = Config { key: 1, ..Config::default() };
    let mut params = request();
    params.render_info[0].cipher = encrypt_with(&String::from("hi"), 1);
    let (pipeline, _) = Pipeline::new(config, Some(params));
    let (_, action) = pipeline.step(Event::FontFetched(Some(smallest_font())));
    match action {
        Some(Action::Rasterize { plan, .. }) => assert_eq!(plan.strokes[0].text, "hi"),
        other => panic!("{:?}", other),
    }
}

#[test]
fn the_plans_are_laid_out_on_the_surface_of_the_settings() {
    let config =
        Config { surface: ImageAttributes { width: 320, height: 200 }, ..Config::default() };
    let (pipeline, _) = Pipeline::new(config, Some(request()));
    let (pipeline, action) = pipeline.step(Event::FontFetched(Some(smallest_font())));
    match action {
        Some(Action::Rasterize { plan, .. }) => {
            assert_eq!(plan.surface, ImageAttributes { width: 320, height: 200 })
        }
        other => panic!("{:?}", other),
    }
    let (pipeline, _) = pipeline.step(Event::RasterPublished(true));
    let (_, action) = pipeline.step(Event::EntitlementResolved(Some(2)));
    match action {
        Some(Action::Composite(plan)) => {
            assert_eq!(plan.width, "320px");
            assert_eq!(plan.height, "200px");
        }
        other => panic!("{:?}", other),
    }
}

#[test]
fn a_request_without_annotations_is_rendered_empty() {
    let params = Params { render_info: Vec::new(), user_token: String::from("t2") };
    let (pipeline, _) = Pipeline::new(Config::default(), Some(params));
    let (pipeline, action) = pipeline.step(Event::FontFetched(Some(smallest_font())));
    match action {
        Some(Action::Rasterize { plan, .. }) => assert!(plan.strokes.is_empty()),
        other => panic!("{:?}", other),
    }
    let (pipeline, action) = pipeline.step(Event::RasterPublished(true));
    match action {
        Some(Action::ResolveEntitlement(token)) => assert_eq!(token, "t2"),
        other => panic!("{:?}", other),
    }
    let (_, action) = pipeline.step(Event::EntitlementResolved(Some(1)));
    match action {
        Some(Action::Composite(plan)) => assert!(plan.children.is_empty()),
        other => panic!("{:?}", other),
    }
}

#[test]
fn each_error_goes_by_its_name() {
    assert_eq!(RenderError::FontUnavailable.name(), "FontUnavailable");
    assert_eq!(RenderError::SurfaceFailure.name(), "SurfaceFailure");
    assert_eq!(RenderError::MalformedRequest.name(), "MalformedRequest");
}
