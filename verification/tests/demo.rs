use maf_core::demo::LightsOut;

fn lit(board: &LightsOut) -> Vec<usize> {
    (0..64).filter(|&i| board.tiles[i]).collect()
}

#[test]
fn lights_out_starts_dark_and_empty() {
    let board = LightsOut::init();
    assert_eq!(board.tiles.len(), 64);
    assert!(lit(&board).is_empty());
    assert_eq!(board.people, 0);
    assert_eq!(LightsOut::name(), "LightsOut");
}

#[test]
fn toggling_a_middle_tile_flips_its_cross() {
    let mut board = LightsOut::init();
    board.toggle_tile(27);
    assert_eq!(lit(&board), vec![19, 26, 27, 28, 35]);
}

#[test]
fn toggling_corner_tiles_stays_on_the_board() {
    let mut board = LightsOut::init();
    board.toggle_tile(0);
    assert_eq!(lit(&board), vec![0, 1, 8]);

    let mut board = LightsOut::init();
    board.toggle_tile(63);
    assert_eq!(lit(&board), vec![55, 62, 63]);

    let mut board = LightsOut::init();
    board.toggle_tile(7);
    assert_eq!(lit(&board), vec![6, 7, 15]);

    let mut board = LightsOut::init();
    board.toggle_tile(56);
    assert_eq!(lit(&board), vec![48, 56, 57]);
}

#[test]
fn toggling_an_edge_tile_does_not_wrap_rows() {
    let mut board = LightsOut::init();
    board.toggle_tile(8);
    assert_eq!(lit(&board), vec![0, 8, 9, 16]);

    let mut board = LightsOut::init();
    board.toggle_tile(15);
    assert_eq!(lit(&board), vec![7, 14, 15, 23]);
}

#[test]
fn toggling_off_the_board_is_ignored() {
    let mut board = LightsOut::init();
    board.toggle_tile(64);
    board.toggle_tile(usize::MAX);
    assert!(lit(&board).is_empty());
}

#[test]
fn toggling_twice_restores_the_board() {
    let mut board = LightsOut::init();
    board.toggle_tile(3);
    board.toggle_tile(42);
    let before = board.tiles.clone();
    board.toggle_tile(42);
    board.toggle_tile(42);
    assert_eq!(board.tiles, before);
}

#[test]
fn toggles_commute() {
    let mut first = LightsOut::init();
    first.toggle_tile(9);
    first.toggle_tile(10);
    let mut second = LightsOut::init();
    second.toggle_tile(10);
    second.toggle_tile(9);
    assert_eq!(first.tiles, second.tiles);
    assert_eq!(lit(&first), vec![1, 2, 8, 11, 17, 18]);
}

#[test]
fn people_are_counted_in_and_out() {
    let mut board = LightsOut::init();
    board.on_connect();
    board.on_connect();
    assert_eq!(board.people, 2);
    board.on_disconnect();
    assert_eq!(board.people, 1);
    assert!(lit(&board).is_empty());
    assert_eq!(board.select().people, 1);
}
