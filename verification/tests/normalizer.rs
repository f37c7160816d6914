use kataru_bridge::get_normalized_command;

#[test]
fn plain_name_is_unchanged() {
    assert_eq!(get_normalized_command("greet"), "greet");
}

#[test]
fn member_access_gains_character_tag() {
    assert_eq!(get_normalized_command("npc.greet"), "$character.greet");
}

#[test]
fn namespaced_member_access_keeps_prefix() {
    assert_eq!(get_normalized_command("room:npc.greet"), "room:$character.greet");
}

#[test]
fn empty_name_is_unchanged() {
    assert_eq!(get_normalized_command(""), "");
}

#[test]
fn colon_without_dot_is_unchanged() {
    assert_eq!(get_normalized_command("room:greet"), "room:greet");
}

#[test]
fn dot_at_start_counts_as_absent() {
    assert_eq!(get_normalized_command(".greet"), ".greet");
}

#[test]
fn colon_at_start_counts_as_absent() {
    assert_eq!(get_normalized_command(":npc.greet"), "$character.greet");
}

#[test]
fn last_dot_and_last_colon_decide() {
    assert_eq!(get_normalized_command("a.b:c.d"), "a.b:$character.d");
}

#[test]
fn trailing_dot_gives_empty_member() {
    assert_eq!(get_normalized_command("npc."), "$character.");
}
