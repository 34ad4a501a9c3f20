use omega_tools::prompts::parse_choice_for_item_name;

#[test]
fn item_prompt_choice_by_name() {
    let note = "Throw which item? a) Longbow, B) bundle of Arrows, c) rock";
    assert_eq!(parse_choice_for_item_name(note, "longbow"), Some('a'));
    assert_eq!(parse_choice_for_item_name(note, "ARROWS"), Some('b'));
    assert_eq!(parse_choice_for_item_name(note, "sword"), None);
}

#[test]
fn item_prompt_entry_without_key_stops_the_scan() {
    assert_eq!(parse_choice_for_item_name("no parens, ) rock, a) rock", "rock"), None);
    assert_eq!(parse_choice_for_item_name("no parens here", "here"), None);
}
