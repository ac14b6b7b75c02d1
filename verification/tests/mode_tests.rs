use iocore::mode::split_mode_string;

fn assert_mode_split_into(mode_string: &str, expected_mode: &str, expected_typ: &str) {
    let (mode, typ) = split_mode_string(mode_string.to_string()).unwrap();
    assert_eq!(mode, expected_mode);
    assert_eq!(typ, expected_typ);
}

#[test]
fn test_split_mode_valid_cases() {
    assert_mode_split_into("r", "r", "t");
    assert_mode_split_into("rb", "r", "b");
    assert_mode_split_into("rt", "r", "t");
    assert_mode_split_into("r+t", "r+", "t");
    assert_mode_split_into("w+t", "w+", "t");
    assert_mode_split_into("r+b", "r+", "b");
    assert_mode_split_into("w+b", "w+", "b");
}

#[test]
fn test_invalid_mode() {
    assert_eq!(
        split_mode_string("rbsss".to_string()),
        Err("invalid mode: 'rbsss'".to_string())
    );
    assert_eq!(
        split_mode_string("rrb".to_string()),
        Err("invalid mode: 'rrb'".to_string())
    );
    assert_eq!(
        split_mode_string("rbb".to_string()),
        Err("invalid mode: 'rbb'".to_string())
    );
}

#[test]
fn test_mode_not_specified() {
    assert_eq!(
        split_mode_string("".to_string()),
        Err("Must have exactly one of create/read/write/append mode and at most one plus"
            .to_string())
    );
    assert_eq!(
        split_mode_string("b".to_string()),
        Err("Must have exactly one of create/read/write/append mode and at most one plus"
            .to_string())
    );
    assert_eq!(
        split_mode_string("t".to_string()),
        Err("Must have exactly one of create/read/write/append mode and at most one plus"
            .to_string())
    );
}

#[test]
fn test_text_and_binary_at_once() {
    assert_eq!(
        split_mode_string("rbt".to_string()),
        Err("can't have text and binary mode at once".to_string())
    );
}

#[test]
fn test_exactly_one_mode() {
    assert_eq!(
        split_mode_string("rwb".to_string()),
        Err("must have exactly one of create/read/write/append mode".to_string())
    );
}

#[test]
fn test_at_most_one_plus() {
    assert_eq!(
        split_mode_string("a++".to_string()),
        Err("invalid mode: 'a++'".to_string())
    );
}

#[test]
fn test_every_well_formed_mode() {
    for access in ["r", "w", "a"] {
        for plus in ["", "+"] {
            for kind in ["", "t", "b"] {
                let mode = format!("{}{}{}", access, plus, kind);
                let expected_mode = format!("{}{}", access, plus);
                let expected_kind = if kind.is_empty() { "t" } else { kind };
                assert_eq!(
                    split_mode_string(mode),
                    Ok((expected_mode, expected_kind.to_string()))
                );
            }
        }
    }
}

#[test]
fn test_plus_position_is_free() {
    assert_mode_split_into("+r", "r+", "t");
    assert_mode_split_into("br+", "r+", "b");
}

#[test]
fn test_duplicate_plus_and_type() {
    assert_eq!(
        split_mode_string("r++".to_string()),
        Err("invalid mode: 'r++'".to_string())
    );
    assert_eq!(
        split_mode_string("rtt".to_string()),
        Err("invalid mode: 'rtt'".to_string())
    );
    assert_eq!(
        split_mode_string("btr".to_string()),
        Err("can't have text and binary mode at once".to_string())
    );
    assert_eq!(
        split_mode_string("wa".to_string()),
        Err("must have exactly one of create/read/write/append mode".to_string())
    );
}
