use lyra::env::Env;

#[test]
fn first_definition_wins_and_blank_is_unset() {
    let e = Env {
        vars: vec![
            ("A".to_string(), " x ".to_string()),
            ("A".to_string(), "y".to_string()),
            ("B".to_string(), "  ".to_string()),
        ],
    };
    assert_eq!(e.var("A"), Some(" x ".to_string()));
    assert_eq!(e.nonempty("A"), Some("x".to_string()));
    assert_eq!(e.var("B"), Some("  ".to_string()));
    assert_eq!(e.nonempty("B"), None);
    assert_eq!(e.var("C"), None);
}
