use regex::Regex;
use weoo::showlocation::find_coordinates;
use weoo::showlocation::Captures;
use weoo::showlocation::Span;

fn texts() -> Vec<&'static str> {
    vec![
        "",
        "Coordinates: x:1.0 y:2.0 z:3.0",
        "Coordinates: x:-18930379393.98 y:-2610297380.75 z:210614.307494",
        "noise Coordinates: x:-18930479393.98 y:-2610297380.75 z:210614.307494 trailing",
        "Coordinates: x:1 y:2.0 z:3.0",
        "Coordinates: x:1. y:2.0 z:3.0",
        "Coordinates: x:.5 y:2.0 z:3.0",
        "Coordinates: x:1.0 y:2.0 z:3.",
        "Coordinates: x:1.0 y:2.0 z:3.5.7",
        "Coordinates: x:1.0 y:2.0 z:3.5abc",
        "Coordinates: x:--1.0 y:2.0 z:3.0",
        "Coordinates: x:-1.0 y:-2.0 z:-3.0",
        "Coordinates: x:+1.0 y:2.0 z:3.0",
        "Coordinates: x:1.0  y:2.0 z:3.0",
        "Coordinates: x:1.0 y:2.0z:3.0",
        "Coordinates: x:1.0 y:2.0 z:",
        "Coordinates: x:1.0 y:2.0",
        "Coordinates: x:",
        "Coordinates: x",
        "coordinates: x:1.0 y:2.0 z:3.0",
        "Coordinates: x:1.0 y:2.0 z:x Coordinates: x:4.0 y:5.0 z:6.0",
        "Coordinates: x:1.0 y:2.0 z:3.0 Coordinates: x:4.0 y:5.0 z:6.0",
        "Coordinates: Coordinates: x:7.25 y:8.5 z:9.75",
        "CCoordinates: x:7.25 y:8.5 z:9.75",
        "é Coordinates: x:7.25 y:8.5 z:9.75 日本",
        "Coordinates: x:١.٢ y:2.0 z:3.0",
        "Coordinates: x:00.00 y:000.000 z:0.0",
        "Coordinates: x:1.0 y:2.0 z:3.0\n",
        "Coordinates: x:1.0\ty:2.0 z:3.0",
        "x:1.0 y:2.0 z:3.0",
        "Coordinates: x:1.0 y:2.0 z:3.0Coordinates",
        "Coordinates: x:12345678901234567890.12345678901234567890 y:0.1 z:-0.2",
    ]
}

fn pattern() -> Regex {
    Regex::new(
        r"Coordinates: x:(?<x>-?[0-9]+\.[0-9]+) y:(?<y>-?[0-9]+\.[0-9]+) z:(?<z>-?[0-9]+\.[0-9]+)",
    )
    .unwrap()
}

fn by_regex(re: &Regex, text: &str) -> Option<Captures> {
    let caps = re.captures(text)?;
    let span = |name: &str| {
        let m = caps.name(name).unwrap();
        Span { start: m.start(), end: m.end() }
    };
    Some(Captures { x: span("x"), y: span("y"), z: span("z") })
}

#[test]
fn agrees_with_the_pattern_it_stands_for() {
    let re = pattern();
    for text in texts() {
        assert_eq!(find_coordinates(text.as_bytes()), by_regex(&re, text), "in {text:?}");
    }
}

#[test]
fn agrees_with_the_pattern_on_every_cut_of_a_line() {
    let re = pattern();
    let line = "ab Coordinates: x:-12.5 y:0.25 z:-7.0 Coordinates: x:1.5 y:2.5 z:3.5 cd";
    for start in 0..line.len() {
        for end in start..=line.len() {
            let cut = &line[start..end];
            assert_eq!(find_coordinates(cut.as_bytes()), by_regex(&re, cut), "in {cut:?}");
        }
    }
}

#[test]
fn finds_the_three_numbers() {
    let text = "Coordinates: x:-18930379393.98 y:-2610297380.75 z:210614.307494";
    let c = find_coordinates(text.as_bytes()).unwrap();
    assert_eq!(&text[c.x.start..c.x.end], "-18930379393.98");
    assert_eq!(&text[c.y.start..c.y.end], "-2610297380.75");
    assert_eq!(&text[c.z.start..c.z.end], "210614.307494");
    assert_eq!(text[c.x.start..c.x.end].parse::<f64>().unwrap(), -18930379393.98);
    assert_eq!(c, Captures { x: Span { start: 15, end: 30 }, y: Span { start: 33, end: 47 }, z: Span { start: 50, end: 63 } });
}

#[test]
fn takes_the_first_position_of_several() {
    let text = "Coordinates: x:1.0 y:2.0 z:x Coordinates: x:4.0 y:5.0 z:6.0 Coordinates: x:7.0 y:8.0 z:9.0";
    let c = find_coordinates(text.as_bytes()).unwrap();
    assert_eq!(&text[c.x.start..c.x.end], "4.0");
    assert_eq!(&text[c.z.start..c.z.end], "6.0");
}

#[test]
fn a_number_needs_digits_on_both_sides_of_the_point() {
    assert_eq!(find_coordinates(b"Coordinates: x:1 y:2.0 z:3.0"), None);
    assert_eq!(find_coordinates(b"Coordinates: x:1. y:2.0 z:3.0"), None);
    assert_eq!(find_coordinates(b"Coordinates: x:.1 y:2.0 z:3.0"), None);
    assert_eq!(find_coordinates(b""), None);
}

#[test]
fn the_last_number_takes_all_its_digits() {
    let text = "Coordinates: x:1.0 y:2.0 z:3.14159 rest";
    let c = find_coordinates(text.as_bytes()).unwrap();
    assert_eq!(&text[c.z.start..c.z.end], "3.14159");
}
