use chrono::TimeZone;
use chrono::Utc;
use weoo::catalog::Database;
use weoo::catalog::NotFound;
use weoo::catalog::OldContainer;
use weoo::catalog::OldPoi;
use weoo::name_map::NameMap;
use weoo::position::poi_to_processed_point;
use weoo::position::save_to_poi;
use weoo::position::Geodetic;
use weoo::position::ProcessedPosition;
use weoo::position::SpaceTimePosition;
use weoo::position::REFERENCE_TIME;
use weoo::scalar::Scalar;
use weoo::vector::Vec3d;

fn s(v: f64) -> Scalar {
    Scalar::from_bits(v.to_bits())
}

fn f(v: Scalar) -> f64 {
    f64::from_bits(v.to_bits())
}

fn v3(x: f64, y: f64, z: f64) -> Vec3d {
    Vec3d::new(s(x), s(y), s(z))
}

fn t3(v: Vec3d) -> (f64, f64, f64) {
    (f(v.x), f(v.y), f(v.z))
}

fn daymar() -> OldContainer {
    let mut c = OldContainer::space();
    c.name = "Daymar".to_string();
    c.radius_om = s(100.0);
    c.radius_body = s(295.0);
    c.rotation_speed = s(3.0);
    c
}

fn catalog() -> Database {
    let mut database: Database = NameMap::new();
    database.insert("Daymar".to_string(), daymar());
    database
}

fn sample() -> SpaceTimePosition {
    SpaceTimePosition { coordinates: v3(0.0, 0.0, 300.0), timestamp: REFERENCE_TIME + 1_500_000_000 }
}

#[test]
fn the_reference_instant_is_the_start_of_2020() {
    let start = Utc.with_ymd_and_hms(2020, 1, 1, 0, 0, 0).unwrap();
    assert_eq!(start.timestamp_nanos_opt(), Some(REFERENCE_TIME));
}

#[test]
fn elapsed_time_counts_from_the_reference_instant() {
    assert_eq!(sample().elapsed_nanoseconds(), 1_500_000_000);
    let at = Utc.with_ymd_and_hms(2024, 5, 17, 12, 30, 15).unwrap();
    let start = Utc.with_ymd_and_hms(2020, 1, 1, 0, 0, 0).unwrap();
    let position = SpaceTimePosition { coordinates: Vec3d::origin(), timestamp: at.timestamp_nanos_opt().unwrap() };
    assert_eq!(position.elapsed_nanoseconds(), (at - start).num_nanoseconds().unwrap() as i128);
    let early = SpaceTimePosition { coordinates: Vec3d::origin(), timestamp: i64::MIN };
    assert_eq!(early.elapsed_nanoseconds(), i64::MIN as i128 - REFERENCE_TIME as i128);
}

#[test]
fn the_default_sample_is_the_origin_at_the_epoch() {
    let d = SpaceTimePosition::default();
    assert_eq!(d.timestamp, 0);
    assert_eq!(t3(d.coordinates), (0.0, 0.0, 0.0));
    assert_eq!(d.timestamp, chrono::DateTime::<Utc>::default().timestamp_nanos_opt().unwrap());
}

#[test]
fn a_sample_on_a_body_keeps_what_was_measured() {
    let measured = Geodetic { latitude: s(1.5), longitude: s(-0.5), altitude: s(5.0) };
    let p = ProcessedPosition::observe(sample(), &daymar(), v3(0.0, 0.0, 300.0), s(1.5), measured, "# AB12-4CD3".to_string());
    assert_eq!(p.container_name, "Daymar");
    assert_eq!(p.name, "# AB12-4CD3");
    assert_eq!(f(p.latitude), 1.5);
    assert_eq!(f(p.longitude), -0.5);
    assert_eq!(f(p.altitude), 5.0);
    assert_eq!(f(p.time_elapsed), 1.5);
    assert_eq!(t3(p.local_coordinates), (0.0, 0.0, 300.0));
    assert_eq!(p.space_time_position.timestamp, REFERENCE_TIME + 1_500_000_000);
    assert!(p.color.is_none());
}

#[test]
fn a_sample_in_space_has_no_place() {
    let measured = Geodetic { latitude: s(1.5), longitude: s(-0.5), altitude: s(5.0) };
    let p = ProcessedPosition::observe(sample(), &OldContainer::space(), v3(0.0, 0.0, 300.0), s(1.5), measured, "x".to_string());
    assert_eq!(p.container_name, "Space");
    assert!(f(p.latitude).is_nan());
    assert!(f(p.longitude).is_nan());
    assert!(f(p.altitude).is_nan());
    assert_eq!(t3(p.local_coordinates), (0.0, 0.0, 300.0));
    let nowhere = Geodetic::undefined();
    assert!(f(nowhere.latitude).is_nan() && f(nowhere.longitude).is_nan() && f(nowhere.altitude).is_nan());
}

#[test]
fn a_point_of_interest_becomes_a_position() {
    let poi = OldPoi {
        name: "Shubin".to_string(),
        container: "Daymar".to_string(),
        coordinates: v3(1.0, 2.0, 3.0),
        quaternions: None,
        marker: Some(true),
        latitude: None,
        longitude: None,
        altitude: None,
    };
    let place = Geodetic { latitude: s(0.1), longitude: s(0.2), altitude: s(0.3) };
    let p = poi_to_processed_point(&poi, &catalog(), place).unwrap();
    assert_eq!(p.name, "Shubin");
    assert_eq!(p.container_name, "Daymar");
    assert_eq!(t3(p.local_coordinates), (1.0, 2.0, 3.0));
    assert_eq!(p.time_elapsed.to_bits(), 0);
    assert_eq!(p.space_time_position.timestamp, 0);
    assert_eq!(t3(p.space_time_position.coordinates), (0.0, 0.0, 0.0));
    assert_eq!((f(p.latitude), f(p.longitude), f(p.altitude)), (0.1, 0.2, 0.3));
    assert!(p.color.is_none());
    let mut lost = poi.clone();
    lost.container = "Yela".to_string();
    match poi_to_processed_point(&lost, &catalog(), place) {
        Err(NotFound::Container(name)) => assert_eq!(name, "Yela"),
        other => panic!("unexpected {other:?}"),
    }
}

fn position(container: &str) -> ProcessedPosition {
    ProcessedPosition {
        space_time_position: SpaceTimePosition { coordinates: v3(10.0, 20.0, 30.0), timestamp: 5 },
        local_coordinates: v3(1.0, 2.0, 3.0),
        time_elapsed: s(9.0),
        container_name: container.to_string(),
        name: "Camp".to_string(),
        latitude: s(0.1),
        longitude: s(0.2),
        altitude: s(0.3),
        color: None,
    }
}

#[test]
fn a_position_on_a_body_is_saved_in_its_frame() {
    let poi = save_to_poi(&position("Daymar"));
    assert_eq!(poi.name, "Camp");
    assert_eq!(poi.container, "Daymar");
    assert_eq!(t3(poi.coordinates), (1.0, 2.0, 3.0));
    assert!(poi.quaternions.is_none());
    assert!(poi.marker.is_none());
    assert_eq!(f(poi.latitude.unwrap()), 0.1);
    assert_eq!(f(poi.longitude.unwrap()), 0.2);
    assert_eq!(f(poi.altitude.unwrap()), 0.3);
}

#[test]
fn a_position_in_space_or_nowhere_is_saved_at_its_absolute_place() {
    for container in ["Space", ""] {
        let poi = save_to_poi(&position(container));
        assert_eq!(poi.container, "Space");
        assert_eq!(t3(poi.coordinates), (10.0, 20.0, 30.0));
        assert_eq!(poi.name, "Camp");
    }
}

#[test]
fn a_clone_of_a_position_keeps_every_field() {
    let mut p = position("Daymar");
    p.color = Some(weoo::display::Color32::from_rgb(1, 2, 3));
    let c = p.clone();
    assert_eq!(c.name, "Camp");
    assert_eq!(c.container_name, "Daymar");
    assert_eq!(c.color, p.color);
    assert_eq!(t3(c.local_coordinates), (1.0, 2.0, 3.0));
    assert_eq!(c.space_time_position.timestamp, 5);
    assert_eq!(f(c.time_elapsed), 9.0);
}
