use output_info::cache::{cached_width, UNRESOLVED};
use output_info::width::choose_width;
use output_info::DEFAULT_LINE_WIDTH;

#[test]
fn default_line_width_is_eighty() {
    assert_eq!(DEFAULT_LINE_WIDTH, 80);
}

#[test]
fn no_geometry_gives_the_default() {
    assert_eq!(choose_width(None), 80);
    assert_eq!(choose_width(None), DEFAULT_LINE_WIDTH);
}

#[test]
fn zero_columns_give_the_default() {
    assert_eq!(choose_width(Some((0, 24))), 80);
    assert_eq!(choose_width(Some((0, 0))), 80);
    assert_eq!(choose_width(Some((0, u16::MAX))), 80);
}

#[test]
fn positive_columns_are_kept() {
    assert_eq!(choose_width(Some((132, 50))), 132);
    assert_eq!(choose_width(Some((1, 1))), 1);
    assert_eq!(choose_width(Some((80, 24))), 80);
    assert_eq!(choose_width(Some((u16::MAX, 24))), u16::MAX);
}

#[test]
fn rows_play_no_part() {
    assert_eq!(choose_width(Some((100, 0))), 100);
    assert_eq!(choose_width(Some((100, 1))), 100);
    assert_eq!(choose_width(Some((100, u16::MAX))), 100);
}

#[test]
fn chosen_width_is_never_zero() {
    let mut columns: u16 = 0;
    loop {
        assert!(choose_width(Some((columns, 0))) >= 1);
        if columns == u16::MAX {
            break;
        }
        columns += 1;
    }
    assert!(choose_width(None) >= 1);
}

#[test]
fn unresolved_word_is_zero() {
    assert_eq!(UNRESOLVED, 0);
}

#[test]
fn unresolved_word_holds_no_width() {
    assert_eq!(cached_width(0), None);
    assert_eq!(cached_width(UNRESOLVED), None);
}

#[test]
fn any_other_word_is_its_own_width() {
    assert_eq!(cached_width(1), Some(1));
    assert_eq!(cached_width(80), Some(80));
    assert_eq!(cached_width(u16::MAX), Some(u16::MAX));
}

#[test]
fn chosen_width_reads_back_from_a_word() {
    assert_eq!(cached_width(choose_width(None)), Some(80));
    assert_eq!(cached_width(choose_width(Some((0, 7)))), Some(80));
    assert_eq!(cached_width(choose_width(Some((132, 7)))), Some(132));
}
