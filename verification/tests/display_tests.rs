use weoo::display::pretty_duration;
use weoo::display::random_color32;
use weoo::display::Color32;

/// The clock text as the format machinery of the standard library writes
/// it, from whole seconds.
fn expected(nanoseconds: i128) -> String {
    let whole = nanoseconds / 1_000_000_000;
    let seconds = whole % 60;
    let minutes = (whole / 60) % 60;
    let hours = (whole / 60) / 60;
    format!("{:0>2}:{:0>2}:{:0>2}", hours, minutes, seconds)
}

#[test]
fn duration_of_nothing() {
    assert_eq!(pretty_duration(0), "00:00:00");
}

#[test]
fn duration_fields_are_filled_to_two_digits() {
    assert_eq!(pretty_duration(5 * 1_000_000_000), "00:00:05");
    assert_eq!(pretty_duration(65 * 1_000_000_000), "00:01:05");
    assert_eq!(pretty_duration(3_725 * 1_000_000_000), "01:02:05");
    assert_eq!(pretty_duration(36_000 * 1_000_000_000), "10:00:00");
    assert_eq!(pretty_duration(86_399 * 1_000_000_000), "23:59:59");
}

#[test]
fn duration_hours_grow_past_two_digits() {
    assert_eq!(pretty_duration(360_000 * 1_000_000_000), "100:00:00");
    assert_eq!(pretty_duration(3_600_000 * 1_000_000_000 + 61_000_000_000), "1000:01:01");
}

#[test]
fn duration_drops_fractions_of_a_second() {
    assert_eq!(pretty_duration(999_999_999), "00:00:00");
    assert_eq!(pretty_duration(1_999_999_999), "00:00:01");
    assert_eq!(pretty_duration(-999_999_999), "00:00:00");
}

#[test]
fn negative_durations_carry_the_sign_in_each_field() {
    assert_eq!(pretty_duration(-5 * 1_000_000_000), "00:00:-5");
    assert_eq!(pretty_duration(-65 * 1_000_000_000), "00:-1:-5");
    assert_eq!(pretty_duration(-3_725 * 1_000_000_000), "-1:-2:-5");
    assert_eq!(pretty_duration(-36_000 * 1_000_000_000), "-10:00:00");
}

#[test]
fn duration_agrees_with_the_format_machinery() {
    let mut values: Vec<i128> = vec![0, 1, -1, i64::MAX as i128, i64::MIN as i128, i128::MAX, i128::MIN + 1, i128::MIN];
    let mut v: i128 = 1;
    for _ in 0..60 {
        values.push(v);
        values.push(-v);
        values.push(v * 1_000_000_000);
        values.push(-v * 1_000_000_000);
        v = v * 3 + 7;
    }
    for n in values {
        if n == i128::MIN {
            continue;
        }
        assert_eq!(pretty_duration(n), expected(n), "for {n}");
    }
}

#[test]
fn duration_of_the_lowest_value() {
    let text = pretty_duration(i128::MIN);
    assert_eq!(text, expected(i128::MIN + 1));
}

#[test]
fn colours_from_components_are_opaque() {
    let c = Color32::from_rgb(1, 2, 3);
    assert_eq!(c, Color32 { r: 1, g: 2, b: 3, a: 255 });
    assert_eq!(Color32::default_path_color(), Color32 { r: 96, g: 96, b: 96, a: 255 });
}

#[test]
fn highlight_is_the_complement() {
    let c = Color32::from_rgb(0, 96, 255).highlight();
    assert_eq!(c, Color32 { r: 255, g: 159, b: 0, a: 255 });
    let d = Color32 { r: 10, g: 20, b: 30, a: 7 }.highlight();
    assert_eq!(d, Color32 { r: 245, g: 235, b: 225, a: 255 });
}

#[test]
fn random_colours_are_opaque_and_vary() {
    let mut seen = std::collections::BTreeSet::new();
    for _ in 0..64 {
        let c = random_color32();
        assert_eq!(c.a, 255);
        seen.insert((c.r, c.g, c.b));
    }
    assert!(seen.len() > 1);
}
