use midi_connect::prompt::{menu_text, parse_choice};
use midi_connect::selector::{resolve, select, SelectionOutcome};

#[test]
fn select_no_ports_is_empty() {
    let ports: Vec<u32> = Vec::new();
    assert!(matches!(select(ports), SelectionOutcome::Empty));
}

#[test]
fn select_one_port_is_unique() {
    match select(vec![42u32]) {
        SelectionOutcome::Unique(p) => assert_eq!(p, 42),
        _ => panic!("expected a unique port"),
    }
}

#[test]
fn select_many_ports_keeps_order() {
    match select(vec![7u32, 3, 9]) {
        SelectionOutcome::Ambiguous(list) => assert_eq!(list, vec![7, 3, 9]),
        _ => panic!("expected an ambiguous listing"),
    }
}

#[test]
fn resolve_picks_listed_position() {
    assert_eq!(resolve(vec![7u32, 3, 9], 0), Some(7));
    assert_eq!(resolve(vec![7u32, 3, 9], 1), Some(3));
    assert_eq!(resolve(vec![7u32, 3, 9], 2), Some(9));
}

#[test]
fn resolve_out_of_bounds_is_none() {
    assert_eq!(resolve(vec![7u32, 3], 2), None);
    assert_eq!(resolve(Vec::<u32>::new(), 0), None);
}

#[test]
fn parse_choice_accepts_index_in_bounds() {
    assert_eq!(parse_choice(Some("1".to_string()), 2), Some(1));
    assert_eq!(parse_choice(Some("0".to_string()), 2), Some(0));
    assert_eq!(parse_choice(Some("+1".to_string()), 2), Some(1));
    assert_eq!(parse_choice(Some("12".to_string()), 13), Some(12));
}

#[test]
fn parse_choice_rejects_bad_answers() {
    assert_eq!(parse_choice(Some("abc".to_string()), 2), None);
    assert_eq!(parse_choice(Some("2".to_string()), 2), None);
    assert_eq!(parse_choice(Some("".to_string()), 2), None);
    assert_eq!(parse_choice(Some("+".to_string()), 2), None);
    assert_eq!(parse_choice(Some(" 1".to_string()), 2), None);
    assert_eq!(parse_choice(Some("-1".to_string()), 2), None);
    assert_eq!(parse_choice(Some("1.0".to_string()), 2), None);
    assert_eq!(parse_choice(Some("99999999999999999999999".to_string()), 2), None);
    assert_eq!(parse_choice(None, 2), None);
}

#[test]
fn menu_lists_ports_by_index() {
    let names = vec!["Keys".to_string(), "Pads".to_string()];
    assert_eq!(
        menu_text(&names),
        "Choose an available input port:\n0: Keys\n1: Pads\n".to_string()
    );
}

#[test]
fn menu_numbers_past_nine() {
    let names: Vec<String> = (0..12).map(|i| format!("dev{}", i)).collect();
    let text = menu_text(&names);
    assert!(text.ends_with("9: dev9\n10: dev10\n11: dev11\n"));
    assert!(text.starts_with("Choose an available input port:\n0: dev0\n"));
}

#[test]
fn menu_of_no_ports_is_header_only() {
    assert_eq!(menu_text(&Vec::new()), "Choose an available input port:\n".to_string());
}
