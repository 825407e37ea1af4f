use tpb::{from_body, Category, DecodeError, FromJson, CATEGORIES};

fn category_with_code(code: u16) -> Category {
    from_body::<Category>(code.to_string().as_bytes()).unwrap()
}

#[test]
fn new_accepts_every_code_of_the_table() {
    for (code, name) in CATEGORIES {
        let category = Category::new(code).unwrap();
        assert_eq!(category.code(), code);
        assert_eq!(category.name(), name);
    }
}

#[test]
fn new_refuses_every_other_code() {
    for code in 0..=u16::MAX {
        let listed = CATEGORIES.iter().any(|(id, _)| *id == code);
        assert_eq!(Category::new(code).is_some(), listed, "code {}", code);
    }
}

#[test]
fn new_refuses_codes_not_in_the_table() {
    assert_eq!(Category::new(0), None);
    assert_eq!(Category::new(1), None);
    assert_eq!(Category::new(2), None);
    assert_eq!(Category::new(99), None);
    assert_eq!(Category::new(207), None);
    assert_eq!(Category::new(700), None);
    assert_eq!(Category::new(65535), None);
}

#[test]
fn movies_are_video_movies() {
    let movies = Category::new(201).unwrap();
    assert_eq!(movies.name(), "Video: Movies");
    assert_eq!(movies.code(), 201);
}

#[test]
fn groups_have_their_own_names() {
    assert_eq!(Category::new(100).unwrap().name(), "Audio");
    assert_eq!(Category::new(200).unwrap().name(), "Video");
    assert_eq!(Category::new(300).unwrap().name(), "Applications");
    assert_eq!(Category::new(400).unwrap().name(), "Games");
    assert_eq!(Category::new(600).unwrap().name(), "Other");
}

#[test]
fn name_falls_back_to_the_group() {
    let unlisted = category_with_code(207);
    let group = Category::new(200).unwrap();
    assert_eq!(Category::new(207), None);
    assert_eq!(unlisted.code(), 207);
    assert_eq!(unlisted.name(), group.name());
    assert_eq!(unlisted.name(), "Video");
    assert_eq!(category_with_code(150).name(), "Audio");
    assert_eq!(category_with_code(698).name(), "Other");
}

#[test]
fn name_is_unknown_without_a_group() {
    assert_eq!(category_with_code(0).name(), "Unknown");
    assert_eq!(category_with_code(7).name(), "Unknown");
    assert_eq!(category_with_code(99).name(), "Unknown");
    assert_eq!(category_with_code(700).name(), "Unknown");
    assert_eq!(category_with_code(999).name(), "Unknown");
    assert_eq!(category_with_code(65535).name(), "Unknown");
}

#[test]
fn name_follows_the_table_for_every_code() {
    for code in 0..=u16::MAX {
        let own = CATEGORIES.iter().find(|(id, _)| *id == code);
        let group = CATEGORIES.iter().find(|(id, _)| *id == code - code % 100);
        let expected = match (own, group) {
            (Some((_, name)), _) => *name,
            (None, Some((_, name))) => *name,
            (None, None) => "Unknown",
        };
        assert_eq!(category_with_code(code).name(), expected, "code {}", code);
    }
}

#[test]
fn all_yields_the_codes_of_the_table_in_order() {
    let all = Category::all();
    assert_eq!(all.len(), CATEGORIES.len());
    for (category, (code, name)) in all.iter().zip(CATEGORIES.iter()) {
        assert_eq!(category.code(), *code);
        assert_eq!(category.name(), *name);
    }
    assert_eq!(all.first().unwrap().code(), 100);
    assert_eq!(all.last().unwrap().code(), 699);
}

#[test]
fn all_can_be_walked_again_and_again() {
    let first = Category::all();
    let second = Category::all();
    assert_eq!(first, second);
    let mut one = first.iter();
    let mut other = first.iter();
    assert_eq!(one.next().unwrap().code(), 100);
    assert_eq!(one.next().unwrap().code(), 101);
    assert_eq!(other.next().unwrap().code(), 100);
    assert_eq!(first.iter().count(), second.into_iter().count());
}

#[test]
fn everything_that_all_yields_is_valid() {
    for category in Category::all() {
        assert_eq!(Category::new(category.code()), Some(category));
    }
}

#[test]
fn table_codes_rise() {
    for pair in CATEGORIES.windows(2) {
        assert!(pair[0].0 < pair[1].0);
    }
}

#[test]
fn category_is_read_from_number_or_text_without_validation() {
    let number = serde_json::from_str("201").unwrap();
    let text = serde_json::from_str("\"201\"").unwrap();
    let unlisted = serde_json::from_str("\"12345\"").unwrap();
    assert_eq!(Category::from_json(&number), Ok(Category::new(201).unwrap()));
    assert_eq!(Category::from_json(&text), Ok(Category::new(201).unwrap()));
    assert_eq!(Category::from_json(&unlisted).unwrap().code(), 12345);
}

#[test]
fn category_refuses_what_is_no_u16() {
    let too_large = serde_json::from_str("65536").unwrap();
    let negative = serde_json::from_str("-1").unwrap();
    let word = serde_json::from_str("\"video\"").unwrap();
    assert_eq!(Category::from_json(&too_large), Err(DecodeError::ExpectedU16));
    assert_eq!(Category::from_json(&negative), Err(DecodeError::ExpectedInteger));
    assert_eq!(Category::from_json(&word), Err(DecodeError::ExpectedInteger));
}
