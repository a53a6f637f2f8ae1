use weoo::application::Eviction;
use weoo::application::MyEguiApp;
use weoo::application::MAP_ALTITUDE_BITS;
use weoo::application::MINUS_PI_BITS;
use weoo::catalog::Database;
use weoo::catalog::NotFound;
use weoo::catalog::OldContainer;
use weoo::catalog::OldPoi;
use weoo::name_map::NameMap;
use weoo::navigation::Fix;
use weoo::position::Geodetic;
use weoo::position::ProcessedPosition;
use weoo::position::SpaceTimePosition;
use weoo::scalar::Scalar;
use weoo::vector::Vec3d;
use weoo::widgets::WidgetMap;

fn s(v: f64) -> Scalar {
    Scalar::from_bits(v.to_bits())
}

fn f(v: Scalar) -> f64 {
    f64::from_bits(v.to_bits())
}

fn v3(x: f64, y: f64, z: f64) -> Vec3d {
    Vec3d::new(s(x), s(y), s(z))
}

fn t3(v: Vec3d) -> (f64, f64, f64) {
    (f(v.x), f(v.y), f(v.z))
}

fn daymar() -> OldContainer {
    let mut c = OldContainer::space();
    c.name = "Daymar".to_string();
    c.radius_om = s(100.0);
    c.radius_body = s(295.0);
    c.rotation_speed = s(3.0);
    for (name, owner) in [("Shubin", "Daymar"), ("Eager", "Daymar"), ("Stray", "Yela")] {
        c.poi.insert(
            name.to_string(),
            OldPoi {
                name: name.to_string(),
                container: owner.to_string(),
                coordinates: v3(0.0, 295.0, 0.0),
                quaternions: None,
                marker: None,
                latitude: None,
                longitude: None,
                altitude: None,
            },
        );
    }
    c
}

fn session() -> MyEguiApp {
    let mut database: Database = NameMap::new();
    database.insert("Daymar".to_string(), daymar());
    MyEguiApp::new(database)
}

fn point(name: &str, container: &str, timestamp: i64) -> ProcessedPosition {
    ProcessedPosition {
        space_time_position: SpaceTimePosition { coordinates: v3(10.0, 20.0, 30.0), timestamp },
        local_coordinates: v3(1.0, 2.0, 3.0),
        time_elapsed: s(9.0),
        container_name: container.to_string(),
        name: name.to_string(),
        latitude: s(0.1),
        longitude: s(0.2),
        altitude: s(0.3),
        color: None,
    }
}

fn place() -> Geodetic {
    Geodetic { latitude: s(0.1), longitude: s(0.2), altitude: s(0.3) }
}

fn names_of(app: &MyEguiApp, path: &str) -> Vec<String> {
    app.global_paths.get(path).unwrap().history.iter().map(|p| p.name.clone()).collect()
}

#[test]
fn the_map_widget_has_no_settings() {
    let w = WidgetMap::default();
    let _copy: WidgetMap = w;
}

#[test]
fn a_new_session_has_the_live_trail_and_nothing_else() {
    let app = session();
    assert_eq!(app.global_paths.len(), 1);
    assert_eq!(app.global_paths.name_at(0), "Self");
    assert_eq!(app.global_paths.value_at(0).name, "Self");
    assert!(app.global_paths.value_at(0).history.is_empty());
    assert_eq!(app.path_selector, "Self");
    assert!(app.path_add_point);
    assert!(app.global_history.is_empty());
    assert_eq!(app.global_history_index, 0);
    assert!(app.global_targets.is_empty());
    assert!(f(app.current_heading).is_nan());
    assert!(app.live_point().is_none());
    assert!(app.heading_pair().is_none());
    assert_eq!(app.database.len(), 1);
    assert_eq!(app.space_time_position.timestamp, 0);
    assert!(!app.global_history_widget);
    assert_eq!(app.path_name_io, "");
    assert_eq!(app.target_selector_poi, "");
    assert_eq!(app.target_selector_container, "");
}

#[test]
fn a_sample_is_taken_in_only_when_it_moved() {
    let mut app = session();
    let first = SpaceTimePosition { coordinates: v3(1.0, 2.0, 3.0), timestamp: 10 };
    assert!(app.accept_sample(first));
    assert_eq!(app.space_time_position.timestamp, 10);
    let same_place_later = SpaceTimePosition { coordinates: v3(1.0, 2.0, 3.0), timestamp: 20 };
    assert!(!app.accept_sample(same_place_later));
    assert_eq!(app.space_time_position.timestamp, 10);
    let moved = SpaceTimePosition { coordinates: v3(1.0, 2.0, 3.5), timestamp: 30 };
    assert!(app.accept_sample(moved));
    assert_eq!(app.space_time_position.timestamp, 30);
    let origin = SpaceTimePosition { coordinates: v3(-0.0, 0.0, 0.0), timestamp: 40 };
    assert!(app.accept_sample(origin));
    let origin_again = SpaceTimePosition { coordinates: v3(0.0, -0.0, 0.0), timestamp: 50 };
    assert!(!app.accept_sample(origin_again));
}

#[test]
fn a_new_position_joins_the_history_and_the_selected_path() {
    let mut app = session();
    app.accept_sample(SpaceTimePosition { coordinates: v3(0.0, 0.0, 300.0), timestamp: 77 });
    app.new_coordinates_input(&daymar(), v3(0.0, 0.0, 300.0), s(1.5), place(), "# AAAA-4BBB".to_string());
    assert_eq!(app.global_history.len(), 1);
    assert_eq!(app.global_history_index, 0);
    let live = app.live_point().unwrap();
    assert_eq!(live.name, "# AAAA-4BBB");
    assert_eq!(live.container_name, "Daymar");
    assert_eq!(live.space_time_position.timestamp, 77);
    assert_eq!(t3(live.space_time_position.coordinates), (0.0, 0.0, 300.0));
    assert_eq!(f(live.altitude), 0.3);
    let own = app.global_paths.get("Self").unwrap();
    assert_eq!(own.history.len(), 1);
    assert_eq!(own.current_index, 1);
    assert_eq!(own.history[0].name, "# AAAA-4BBB");
}

#[test]
fn a_position_in_space_is_recorded_without_a_place() {
    let mut app = session();
    app.accept_sample(SpaceTimePosition { coordinates: v3(9e9, 0.0, 0.0), timestamp: 77 });
    app.new_coordinates_input(&OldContainer::space(), v3(9e9, 0.0, 0.0), s(1.5), place(), "drift".to_string());
    let live = app.live_point().unwrap();
    assert_eq!(live.container_name, "Space");
    assert!(f(live.latitude).is_nan() && f(live.longitude).is_nan() && f(live.altitude).is_nan());
}

#[test]
fn positions_are_not_added_when_adding_is_off_or_the_path_is_gone() {
    let mut app = session();
    app.path_add_point = false;
    app.record(point("a", "Daymar", 1));
    assert_eq!(app.global_history.len(), 1);
    assert!(app.global_paths.get("Self").unwrap().history.is_empty());
    app.path_add_point = true;
    app.path_selector = "Gone".to_string();
    app.record(point("b", "Daymar", 2));
    assert_eq!(app.global_history.len(), 2);
    assert_eq!(app.global_history_index, 1);
    assert_eq!(app.live_point().unwrap().name, "b");
    assert!(app.global_paths.get("Self").unwrap().history.is_empty());
    assert_eq!(app.global_paths.len(), 1);
}

#[test]
fn positions_go_to_the_selected_path_only() {
    let mut app = session();
    app.import_path("Rally".to_string(), vec![point("r0", "Daymar", 0)]);
    app.path_selector = "Rally".to_string();
    app.record(point("r1", "Daymar", 1));
    assert_eq!(names_of(&app, "Rally"), vec!["r0", "r1"]);
    assert_eq!(app.global_paths.get("Rally").unwrap().current_index, 2);
    assert!(names_of(&app, "Self").is_empty());
}

#[test]
fn a_point_picked_on_the_map_lies_on_daymar() {
    let mut app = session();
    let lat = 4.0;
    let clamped = f(MyEguiApp::clamp_latitude(s(lat)));
    assert_eq!(clamped, std::f64::consts::PI);
    assert_eq!(f(MyEguiApp::clamp_latitude(s(-4.0))), -std::f64::consts::PI);
    assert_eq!(f(MyEguiApp::clamp_latitude(s(0.5))), 0.5);
    assert!(f(MyEguiApp::clamp_latitude(s(f64::NAN))).is_nan());
    assert_eq!(MINUS_PI_BITS, (-std::f64::consts::PI).to_bits());
    assert_eq!(MAP_ALTITUDE_BITS, 295.0f64.to_bits());
    app.new_coordinates_from_map(s(lat), s(0.25), v3(1.0, 2.0, 3.0), 99, s(7.0), "picked".to_string());
    let live = app.live_point().unwrap();
    assert_eq!(live.container_name, "Daymar");
    assert_eq!(f(live.latitude), std::f64::consts::PI);
    assert_eq!(f(live.longitude), 0.25);
    assert_eq!(f(live.altitude), 295.0);
    assert_eq!(t3(live.local_coordinates), (1.0, 2.0, 3.0));
    assert_eq!(t3(live.space_time_position.coordinates), (0.0, 0.0, 0.0));
    assert_eq!(live.space_time_position.timestamp, 99);
    assert_eq!(f(live.time_elapsed), 7.0);
    assert_eq!(live.name, "picked");
    assert_eq!(names_of(&app, "Self"), vec!["picked"]);
}

#[test]
fn the_heading_is_taken_between_the_last_two_positions() {
    let mut app = session();
    app.record(point("a", "Daymar", 1));
    assert!(app.heading_pair().is_none());
    let mut b = point("b", "Daymar", 2);
    b.local_coordinates = v3(4.0, 5.0, 6.0);
    app.record(b);
    let mut c = point("c", "Daymar", 3);
    c.local_coordinates = v3(7.0, 8.0, 9.0);
    app.record(c);
    let (from, to) = app.heading_pair().unwrap();
    assert_eq!(t3(from), (4.0, 5.0, 6.0));
    assert_eq!(t3(to), (7.0, 8.0, 9.0));
}

#[test]
fn the_index_after_adding_is_that_of_the_new_position() {
    let mut app = session();
    for (i, n) in ["a", "b", "c"].iter().enumerate() {
        app.add_to_global(&point(n, "Daymar", i as i64));
        assert_eq!(app.global_history.len(), i + 1);
        assert_eq!(app.global_history_index, i);
        assert_eq!(app.global_history[app.global_history_index].name, *n);
        assert_eq!(app.live_point().unwrap().name, *n);
    }
    assert_eq!(app.global_history[0].name, "a");
    assert_eq!(app.global_history[1].name, "b");
    assert!(names_of(&app, "Self").is_empty());
    assert!(app.global_targets.is_empty());
    assert_eq!(app.database.len(), 1);
    app.focus_history(0);
    app.add_to_global(&point("d", "Daymar", 9));
    assert_eq!(app.global_history_index, 3);
    assert_eq!(app.live_point().unwrap().name, "d");
}

#[test]
fn the_history_can_be_refocused_and_thinned() {
    let mut app = session();
    for (i, n) in ["a", "b", "c"].iter().enumerate() {
        app.add_to_global(&point(n, "Daymar", i as i64));
    }
    assert_eq!(app.global_history_index, 2);
    assert_eq!(app.live_point().unwrap().name, "c");
    app.focus_history(0);
    assert_eq!(app.global_history_index, 0);
    assert_eq!(app.live_point().unwrap().name, "a");
    app.focus_history(10);
    assert_eq!(app.global_history_index, 10);
    assert!(app.live_point().is_none());
    app.focus_history(1);
    assert_eq!(app.live_point().unwrap().name, "b");
    assert_eq!(app.evict_from_history(0).unwrap().name, "a");
    assert_eq!(app.global_history_index, 1);
    assert_eq!(app.live_point().unwrap().name, "c");
    assert_eq!(app.evict_from_history(1).unwrap().name, "c");
    assert_eq!(app.global_history_index, 1);
    assert!(app.live_point().is_none());
    assert!(app.evict_from_history(5).is_none());
    assert_eq!(app.evict_from_history(0).unwrap().name, "b");
    assert_eq!(app.global_history_index, 1);
    assert!(app.global_history.is_empty());
    assert!(app.live_point().is_none());
    assert!(names_of(&app, "Self").is_empty());
}

#[test]
fn path_operations_name_the_missing_path() {
    let mut app = session();
    let check = |r: Result<(), NotFound>| match r {
        Err(NotFound::Path(name)) => assert_eq!(name, "Gone"),
        other => panic!("unexpected {other:?}"),
    };
    check(app.add_point_to_path("Gone", point("a", "Daymar", 1)));
    check(app.set_highlighted_index("Gone", 1));
    check(app.step_highlight("Gone", true));
    check(app.move_point("Gone", 0, true));
    assert!(matches!(app.rename_point("Gone", 0, "x".to_string()), Err(NotFound::Path(_))));
    assert!(matches!(app.remove_point("Gone", 0), Err(NotFound::Path(_))));
    app.path_selector = "Gone".to_string();
    assert!(matches!(app.remove_highlighted_point(), Err(NotFound::Path(_))));
    assert!(matches!(app.save_point_as_custom_poi(), Err(NotFound::Path(_))));
    assert_eq!(app.global_paths.len(), 1);
}

#[test]
fn path_operations_reach_the_named_path() {
    let mut app = session();
    app.import_path("Rally".to_string(), Vec::new());
    for n in ["a", "b", "c"] {
        app.add_point_to_path("Rally", point(n, "Daymar", 1)).unwrap();
    }
    assert_eq!(app.global_paths.get("Rally").unwrap().current_index, 3);
    app.set_highlighted_index("Rally", 1).unwrap();
    app.step_highlight("Rally", true).unwrap();
    assert_eq!(app.global_paths.get("Rally").unwrap().current_index, 2);
    app.step_highlight("Rally", false).unwrap();
    app.step_highlight("Rally", false).unwrap();
    app.step_highlight("Rally", false).unwrap();
    assert_eq!(app.global_paths.get("Rally").unwrap().current_index, 0);
    app.set_highlighted_index("Rally", 9).unwrap();
    assert_eq!(app.global_paths.get("Rally").unwrap().current_index, 3);
    app.move_point("Rally", 2, true).unwrap();
    assert_eq!(names_of(&app, "Rally"), vec!["a", "c", "b"]);
    app.move_point("Rally", 0, false).unwrap();
    assert_eq!(names_of(&app, "Rally"), vec!["c", "a", "b"]);
    assert!(app.rename_point("Rally", 1, "camp".to_string()).unwrap());
    assert!(!app.rename_point("Rally", 9, "nowhere".to_string()).unwrap());
    assert_eq!(names_of(&app, "Rally"), vec!["c", "camp", "b"]);
    assert_eq!(app.remove_point("Rally", 0).unwrap().unwrap().name, "c");
    app.path_selector = "Rally".to_string();
    assert_eq!(app.remove_highlighted_point().unwrap().unwrap().name, "b");
    assert_eq!(app.global_paths.get("Rally").unwrap().current_index, 1);
    assert_eq!(app.remove_highlighted_point().unwrap().unwrap().name, "camp");
    assert_eq!(app.global_paths.get("Rally").unwrap().current_index, 0);
    assert!(app.remove_highlighted_point().unwrap().is_none());
    assert!(names_of(&app, "Self").is_empty());
}

#[test]
fn the_live_trail_is_only_ever_cleared() {
    let mut app = session();
    assert_eq!(app.remove_path("Self"), Eviction::Cleared);
    assert_eq!(app.global_paths.len(), 1);
    app.record(point("a", "Daymar", 1));
    assert_eq!(app.remove_path("Self"), Eviction::Cleared);
    assert!(names_of(&app, "Self").is_empty());
    assert_eq!(app.global_paths.get("Self").unwrap().current_index, 0);
    assert_eq!(app.remove_path("Self"), Eviction::Cleared);
    assert_eq!(app.global_paths.len(), 1);
}

#[test]
fn another_path_is_cleared_first_and_removed_once_empty() {
    let mut app = session();
    app.import_path("Rally".to_string(), vec![point("r0", "Daymar", 0)]);
    assert_eq!(app.global_paths.len(), 2);
    assert_eq!(app.remove_path("Rally"), Eviction::Cleared);
    assert!(names_of(&app, "Rally").is_empty());
    assert_eq!(app.remove_path("Rally"), Eviction::Removed);
    assert_eq!(app.global_paths.len(), 1);
    assert_eq!(app.remove_path("Rally"), Eviction::Missing);
    assert_eq!(app.global_paths.name_at(0), "Self");
}

#[test]
fn an_imported_path_replaces_one_of_its_name() {
    let mut app = session();
    app.import_path("Rally".to_string(), vec![point("r0", "Daymar", 0)]);
    app.import_path("Rally".to_string(), vec![point("n0", "Daymar", 0), point("n1", "Daymar", 1)]);
    assert_eq!(app.global_paths.len(), 2);
    assert_eq!(names_of(&app, "Rally"), vec!["n0", "n1"]);
    let rally = app.global_paths.get("Rally").unwrap();
    assert_eq!(rally.current_index, 0);
    assert_eq!(rally.name, "Rally");
    assert_eq!(rally.map_color.a, 255);
}

#[test]
fn targets_are_bound_against_the_catalogue() {
    let mut app = session();
    app.add_target("Daymar", "Shubin", place()).unwrap();
    app.add_target("Daymar", "Eager", place()).unwrap();
    assert_eq!(app.global_targets.len(), 2);
    assert_eq!(app.global_targets[1].current_point.name, "Eager");
    assert_eq!(f(app.global_targets[0].current_point.latitude), 0.1);
    match app.add_target("Yela", "Shubin", place()) {
        Err(NotFound::Container(name)) => assert_eq!(name, "Yela"),
        other => panic!("unexpected {other:?}"),
    }
    match app.add_target("Daymar", "Kudre", place()) {
        Err(NotFound::Poi(name)) => assert_eq!(name, "Kudre"),
        other => panic!("unexpected {other:?}"),
    }
    match app.add_target("Daymar", "Stray", place()) {
        Err(NotFound::Container(name)) => assert_eq!(name, "Yela"),
        other => panic!("unexpected {other:?}"),
    }
    assert_eq!(app.global_targets.len(), 2);
    assert_eq!(app.remove_target(0).unwrap().current_point.name, "Shubin");
    assert!(app.remove_target(5).is_none());
    assert_eq!(app.global_targets.len(), 1);
}

#[test]
fn a_tick_measures_every_path_and_target_from_the_live_position() {
    let mut app = session();
    app.add_target("Daymar", "Shubin", place()).unwrap();
    assert!(app.target_sighting(0).unwrap().is_none());
    assert!(app.path_sighting(0).unwrap().is_none());
    app.record(point("a", "Daymar", 1_000));
    app.record(point("b", "Daymar", 4_000));
    let to_target = app.target_sighting(0).unwrap().unwrap();
    assert!(to_target.same_frame);
    assert_eq!(f(to_target.time_elapsed), 9.0);
    assert_eq!(t3(to_target.target_local), (0.0, 295.0, 0.0));
    assert!(app.target_sighting(3).unwrap().is_none());
    assert!(app.update_target(0, Fix::new(s(5.0), s(1.0))));
    assert!(!app.update_target(3, Fix::new(s(5.0), s(1.0))));
    assert_eq!(f(app.global_targets[0].current_distance), 5.0);
    assert_eq!(f(app.global_targets[0].current_heading), 1.0);
    let to_path = app.path_sighting(0).unwrap().unwrap();
    assert_eq!(t3(to_path.target_local), (1.0, 2.0, 3.0));
    assert!(app.path_sighting(7).unwrap().is_none());
    assert!(app.update_path(0, s(0.0), Fix::new(s(6.0), s(2.0))));
    assert!(!app.update_path(7, s(0.0), None));
    let own = app.global_paths.get("Self").unwrap();
    assert_eq!(own.duration, 3_000);
    assert_eq!(f(own.current_distance), 6.0);
    assert_eq!(f(own.current_heading), 2.0);
    assert_eq!(own.current_index, 2);
}

#[test]
fn a_tick_reports_a_target_whose_body_is_gone() {
    let mut app = session();
    app.add_target("Daymar", "Shubin", place()).unwrap();
    app.record(point("a", "Daymar", 1));
    app.database.remove("Daymar");
    match app.target_sighting(0) {
        Err(NotFound::Container(name)) => assert_eq!(name, "Daymar"),
        other => panic!("unexpected {other:?}"),
    }
    match app.path_sighting(0) {
        Err(NotFound::Container(name)) => assert_eq!(name, "Daymar"),
        other => panic!("unexpected {other:?}"),
    }
}

#[test]
fn the_highlighted_point_is_saved_as_a_point_of_interest() {
    let mut app = session();
    assert!(app.save_point_as_custom_poi().unwrap().is_none());
    app.record(point("Camp", "Daymar", 1));
    let poi = app.save_point_as_custom_poi().unwrap().unwrap();
    assert_eq!(poi.name, "Camp");
    assert_eq!(poi.container, "Daymar");
    assert_eq!(t3(poi.coordinates), (1.0, 2.0, 3.0));
    let stored = app.database.get("Daymar").unwrap().poi.get("Camp").unwrap();
    assert_eq!(t3(stored.coordinates), (1.0, 2.0, 3.0));
    assert_eq!(app.database.get("Daymar").unwrap().poi.len(), 4);
    app.record(point("Drift", "Space", 2));
    match app.save_point_as_custom_poi() {
        Err(NotFound::Container(name)) => assert_eq!(name, "Space"),
        other => panic!("unexpected {other:?}"),
    }
    assert_eq!(app.database.get("Daymar").unwrap().poi.len(), 4);
}

#[test]
fn a_point_is_selected_by_name_in_every_path() {
    let mut app = session();
    app.import_path("Rally".to_string(), vec![point("start", "Daymar", 0), point("gate", "Daymar", 1)]);
    app.path_add_point = false;
    let mut gate = point("gate", "Daymar", 5);
    gate.local_coordinates = v3(7.0, 7.0, 7.0);
    app.add_point_to_path("Self", point("home", "Daymar", 2)).unwrap();
    app.add_point_to_path("Self", gate).unwrap();
    app.add_point_to_path("Self", point("far", "Daymar", 3)).unwrap();
    let seen = app.global_history.len();
    assert!(app.select_point_named("gate"));
    assert_eq!(app.global_paths.get("Rally").unwrap().current_index, 2);
    assert_eq!(app.global_paths.get("Self").unwrap().current_index, 2);
    assert_eq!(app.global_history.len(), seen + 1);
    assert_eq!(t3(app.live_point().unwrap().local_coordinates), (7.0, 7.0, 7.0));
    assert!(!app.select_point_named("nothing"));
    assert_eq!(app.global_history.len(), seen + 1);
    assert_eq!(app.global_paths.get("Self").unwrap().current_index, 2);
    assert!(app.select_point_named("start"));
    assert_eq!(app.global_paths.get("Rally").unwrap().current_index, 1);
    assert_eq!(app.global_paths.get("Self").unwrap().current_index, 2);
    assert_eq!(app.live_point().unwrap().name, "start");
}
