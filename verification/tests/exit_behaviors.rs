use worldwright::Direction;
use worldwright::Door;
use worldwright::ExitBehavior;
use worldwright::ExitType;
use worldwright::NamedExit;
use worldwright::RegularExit;

#[test]
fn regular_exit_is_always_open() {
    let exit = RegularExit;
    assert!(exit.can_go_through());
}

#[test]
fn regular_exit_description() {
    let exit = RegularExit;
    assert_eq!(exit.description(Direction::North), "an exit north");
    assert_eq!(exit.description(Direction::South), "an exit south");
}

#[test]
fn named_exit_is_always_open() {
    let exit = NamedExit::new("archway".to_string());
    assert!(exit.can_go_through());
}

#[test]
fn named_exit_description_with_consonant_name() {
    let exit = NamedExit::new("tunnel".to_string());
    assert_eq!(exit.description(Direction::West), "a tunnel west");
}

#[test]
fn named_exit_description_with_vowel_name() {
    let exit = NamedExit::new("archway".to_string());
    assert_eq!(exit.description(Direction::East), "an archway east");
    let exit = NamedExit::new("umbrella stand".to_string());
    assert_eq!(exit.description(Direction::North), "an umbrella stand north");
}

#[test]
fn named_exit_description_with_empty_name() {
    let exit = NamedExit::new(String::new());
    assert_eq!(exit.description(Direction::North), "a  north");
}

#[test]
fn locked_named_door_blocks_and_describes_locked() {
    let mut door = Door::new_with_name(true, "heavy wooden door".to_string());
    assert!(!door.can_go_through());
    assert_eq!(door.description(Direction::North), "a locked heavy wooden door north");
    door.unlock();
    assert!(door.can_go_through());
    assert_eq!(door.description(Direction::North), "a heavy wooden door north");
}

#[test]
fn unnamed_door_descriptions() {
    let mut door = Door::new(false);
    assert!(door.can_go_through());
    assert_eq!(door.description(Direction::South), "a door south");
    door.lock();
    assert!(!door.can_go_through());
    assert_eq!(door.description(Direction::South), "a locked door south");
}

#[test]
fn locked_door_with_vowel_name_keeps_plain_article() {
    let mut door = Door::new_with_name(false, "antique wooden door".to_string());
    assert_eq!(door.description(Direction::West), "an antique wooden door west");
    door.lock();
    assert_eq!(door.description(Direction::West), "a locked antique wooden door west");
}

#[test]
fn door_with_empty_name_still_describes() {
    let mut door = Door::new_with_name(false, String::new());
    assert_eq!(door.description(Direction::North), "a  north");
    door.lock();
    assert_eq!(door.description(Direction::North), "a locked  north");
}

#[test]
fn toggle_lock_flips_the_state() {
    let mut door = Door::new(false);
    door.toggle_lock();
    assert!(!door.can_go_through());
    door.toggle_lock();
    assert!(door.can_go_through());
}

#[test]
fn behavior_variants_dispatch() {
    let regular = ExitBehavior::Regular(RegularExit);
    assert!(regular.can_go_through());
    assert_eq!(regular.description(Direction::North), "an exit north");

    let named = ExitBehavior::Named(NamedExit::new("archway".to_string()));
    assert!(named.can_go_through());
    assert_eq!(named.description(Direction::East), "an archway east");

    let door = ExitBehavior::Door(Door::new(true));
    assert!(!door.can_go_through());
    assert_eq!(door.description(Direction::South), "a locked door south");
}
