use worldwright::Direction;

#[test]
fn opposite_is_involutive_for_all_directions() {
    let all = [Direction::North, Direction::East, Direction::South, Direction::West];
    for d in all {
        assert_eq!(d.opposite().opposite(), d);
    }
}

#[test]
fn opposite_maps_pairwise() {
    assert_eq!(Direction::North.opposite(), Direction::South);
    assert_eq!(Direction::South.opposite(), Direction::North);
    assert_eq!(Direction::East.opposite(), Direction::West);
    assert_eq!(Direction::West.opposite(), Direction::East);
}

#[test]
fn to_text_gives_fixed_lowercase_words() {
    assert_eq!(Direction::North.to_text(), "north");
    assert_eq!(Direction::East.to_text(), "east");
    assert_eq!(Direction::South.to_text(), "south");
    assert_eq!(Direction::West.to_text(), "west");
}
