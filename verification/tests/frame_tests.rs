use planet_view::frame::{plan_frame, FramePlan};
use planet_view::geodetic::GeodeticPosition;
use planet_view::viewport::{RenderPreconditionFailure, Viewport};

fn observer() -> GeodeticPosition {
    GeodeticPosition::normalized(12_000_000, 190_000_000, 100_000)
}

#[test]
fn frame_is_planned_for_valid_inputs() {
    let plan = plan_frame(observer(), 1920, 1080, Some(250_000));
    assert_eq!(
        plan,
        Ok(FramePlan {
            viewport: Viewport {
                width: 1920,
                height: 1080
            },
            position: GeodeticPosition {
                latitude: 12_000_000,
                longitude: -170_000_000,
                altitude: 100_000
            },
            eye_radius: 6_371_352_000,
        })
    );
}

#[test]
fn frame_with_zero_height_is_fatal() {
    assert_eq!(
        plan_frame(observer(), 1920, 0, Some(0)),
        Err(RenderPreconditionFailure::ZeroHeight)
    );
}

#[test]
fn frame_with_zero_width_is_fatal() {
    assert_eq!(
        plan_frame(observer(), 0, 1080, Some(0)),
        Err(RenderPreconditionFailure::ZeroWidth)
    );
}

#[test]
fn missing_terrain_height_is_fatal() {
    assert_eq!(
        plan_frame(observer(), 1920, 1080, None),
        Err(RenderPreconditionFailure::HeightUnavailable)
    );
}

#[test]
fn viewport_defect_is_named_before_missing_height() {
    assert_eq!(
        plan_frame(observer(), 1920, 0, None),
        Err(RenderPreconditionFailure::ZeroHeight)
    );
    assert_eq!(
        plan_frame(observer(), 0, 0, None),
        Err(RenderPreconditionFailure::ZeroHeight)
    );
    assert_eq!(
        plan_frame(observer(), 0, 2, None),
        Err(RenderPreconditionFailure::ZeroWidth)
    );
}

#[test]
fn plan_at_origin_has_radius_of_sphere_plus_skin() {
    let plan = plan_frame(GeodeticPosition::normalized(0, 0, 0), 16, 9, Some(0)).unwrap();
    assert_eq!(plan.eye_radius, 6_371_002_000);
    assert_eq!(plan.position.latitude, 0);
    assert_eq!(plan.position.longitude, 0);
}

#[test]
fn eye_at_origin_lies_on_the_first_axis() {
    let plan = plan_frame(GeodeticPosition::normalized(0, 0, 0), 16, 9, Some(0)).unwrap();
    let radius = plan.eye_radius as f64 / 1.0e3;
    let latitude = (plan.position.latitude as f64 / 1.0e6).to_radians();
    let longitude = (plan.position.longitude as f64 / 1.0e6).to_radians();
    let eye = (
        radius * latitude.cos() * longitude.cos(),
        radius * latitude.cos() * longitude.sin(),
        radius * latitude.sin(),
    );
    assert_eq!(eye, (6_371_000.0 + 2.0, 0.0, 0.0));
}
