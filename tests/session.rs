use golst::geometry::{denormalize, grid_lines, normalize, HEIGHT, NUMBER_OF_SQUARES, SQUARE_SIZE, WIDTH};
use golst::session::Session;

const N: usize = NUMBER_OF_SQUARES as usize;

#[test]
fn layout_constants_agree() {
    assert_eq!(WIDTH / NUMBER_OF_SQUARES, SQUARE_SIZE);
    assert_eq!(HEIGHT / NUMBER_OF_SQUARES, SQUARE_SIZE);
}

#[test]
fn normalize_scales_by_square_size() {
    assert_eq!(normalize(0), 0);
    assert_eq!(normalize(1), 20);
    assert_eq!(normalize(29), 580);
    assert_eq!(normalize(-3), -60);
}

#[test]
fn denormalize_rounds_down() {
    assert_eq!(denormalize(0), 0);
    assert_eq!(denormalize(19), 0);
    assert_eq!(denormalize(20), 1);
    assert_eq!(denormalize(599), 29);
    assert_eq!(denormalize(-1), -1);
    assert_eq!(denormalize(-20), -1);
    assert_eq!(denormalize(-21), -2);
    assert_eq!(denormalize(i32::MIN), -107374183);
    assert_eq!(denormalize(i32::MAX), 107374182);
}

#[test]
fn grid_lines_are_multiples_of_the_side() {
    let v = grid_lines(WIDTH, SQUARE_SIZE);
    assert_eq!(v.len(), 31);
    assert_eq!(v[0], 0);
    assert_eq!(v[1], 20);
    assert_eq!(v[30], 600);
    assert_eq!(grid_lines(50, 20), vec![0, 20, 40]);
    assert_eq!(grid_lines(0, 7), vec![0]);
}

#[test]
fn click_while_editing_sets_the_cell_under_it() {
    let mut s = Session::new(N, 100);
    assert!(s.click(45, 61));
    assert!(s.grid().read_cell(3, 2));
    assert!(!s.grid().read_cell(2, 3));
}

#[test]
fn click_off_the_board_is_ignored() {
    let mut s = Session::new(N, 100);
    assert!(!s.click(-1, 5));
    assert!(!s.click(5, 600));
    for r in 0..N {
        for c in 0..N {
            assert!(!s.grid().read_cell(r, c));
        }
    }
}

#[test]
fn click_after_start_is_ignored() {
    let mut s = Session::new(N, 100);
    s.press_start(1000);
    assert!(s.grid().running());
    assert!(!s.click(45, 61));
    assert!(!s.grid().read_cell(3, 2));
}

#[test]
fn advance_waits_for_the_interval() {
    let mut s = Session::new(N, 100);
    for &(x, y) in &[(200, 205), (220, 205), (240, 205)] {
        assert!(s.click(x, y));
    }
    assert!(!s.advance(5000));
    s.press_start(1000);
    assert!(!s.advance(1099));
    assert!(s.grid().read_cell(10, 10) && s.grid().read_cell(10, 11));
    assert!(s.advance(1100));
    assert!(s.grid().read_cell(9, 11));
    assert!(s.grid().read_cell(11, 11));
    assert!(!s.grid().read_cell(10, 10));
    assert!(!s.advance(1150));
    assert!(s.advance(1200));
    assert!(s.grid().read_cell(10, 10) && s.grid().read_cell(10, 12));
    assert!(!s.grid().read_cell(9, 11));
}

#[test]
fn second_start_keeps_the_first_time() {
    let mut s = Session::new(N, 100);
    s.press_start(1000);
    s.press_start(5000);
    assert!(s.advance(1100));
}
