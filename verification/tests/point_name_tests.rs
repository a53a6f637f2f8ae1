use weoo::point_name::fresh_point_name;
use weoo::point_name::point_name;

#[test]
fn name_is_cut_from_the_identifier() {
    let name = point_name("67e55044-10b1-426f-9247-bb680e5fe0c8");
    assert_eq!(name, Some("# 10B1-426F".to_string()));
    assert_eq!(
        name,
        Some("# ".to_owned() + &"67e55044-10b1-426f-9247-bb680e5fe0c8"[9..18].to_uppercase())
    );
}

#[test]
fn name_raises_letters_only() {
    assert_eq!(point_name("000000000abcxyz-09AZ"), Some("# ABCXYZ-09".to_string()));
    assert_eq!(point_name("0123456789abcdefgh"), Some("# 9ABCDEFGH".to_string()));
}

#[test]
fn short_identifiers_give_no_name() {
    assert_eq!(point_name(""), None);
    assert_eq!(point_name("67e55044-10b1-426"), None);
}

#[test]
fn fresh_names_have_the_shape() {
    for _ in 0..32 {
        let name = fresh_point_name();
        let chars: Vec<char> = name.chars().collect();
        assert_eq!(chars.len(), 11);
        assert_eq!(chars[0], '#');
        assert_eq!(chars[1], ' ');
        assert_eq!(chars[6], '-');
        for (i, c) in chars.iter().enumerate() {
            if i >= 2 && i != 6 {
                assert!(c.is_ascii_digit() || ('A'..='F').contains(c), "{name:?}");
            }
        }
        assert_eq!(chars[7], '4');
    }
}

#[test]
fn fresh_names_differ() {
    let mut seen = std::collections::BTreeSet::new();
    for _ in 0..32 {
        seen.insert(fresh_point_name());
    }
    assert!(seen.len() > 1);
}
