use petit_trad::app::insert_into;
use petit_trad::app::insert_str_into;
use petit_trad::app::line_col;
use petit_trad::app::line_end;
use petit_trad::app::line_start;
use petit_trad::app::line_starts;
use petit_trad::app::max_scroll;
use petit_trad::app::move_vertical;
use petit_trad::app::remove_at;
use petit_trad::app::scroll_value;
use petit_trad::ui::cursor_position;
use petit_trad::ui::cursor_to_screen;
use petit_trad::ui::spinner_symbol;

#[test]
fn line_starts_follow_newlines() {
    assert_eq!(line_starts(""), vec![0]);
    assert_eq!(line_starts("ab"), vec![0]);
    assert_eq!(line_starts("ab\ncd"), vec![0, 3]);
    assert_eq!(line_starts("ab\ncd\n"), vec![0, 3, 6]);
}

#[test]
fn line_col_locates_the_cursor() {
    assert_eq!(line_col("ab\ncd", 0), (0, 0));
    assert_eq!(line_col("ab\ncd", 2), (0, 2));
    assert_eq!(line_col("ab\ncd", 3), (1, 0));
    assert_eq!(line_col("ab\ncd", 5), (1, 2));
}

#[test]
fn line_bounds_are_exact() {
    assert_eq!(line_start("ab\ncd", 0), Some(0));
    assert_eq!(line_start("ab\ncd", 1), Some(3));
    assert_eq!(line_start("ab\ncd", 2), None);
    assert_eq!(line_end("ab\ncd", 0), Some(2));
    assert_eq!(line_end("ab\ncd", 1), Some(5));
    assert_eq!(line_end("ab\ncd", 2), None);
}

#[test]
fn vertical_moves_keep_the_column_where_possible() {
    assert_eq!(move_vertical("ab\ncdef", 5, -1), Some(2));
    assert_eq!(move_vertical("ab\ncdef", 1, 1), Some(4));
    assert_eq!(move_vertical("ab\ncdef", 1, -1), None);
    assert_eq!(move_vertical("ab\ncdef", 4, 1), None);
    assert_eq!(move_vertical("abcd\nef", 3, 1), Some(7));
}

#[test]
fn editing_helpers_work_at_character_granularity() {
    let mut s = "héllo".to_string();
    insert_into(&mut s, 1, 'x');
    assert_eq!(s, "hxéllo");
    insert_str_into(&mut s, 6, "!!");
    assert_eq!(s, "hxéllo!!");
    remove_at(&mut s, 1);
    assert_eq!(s, "héllo!!");
    remove_at(&mut s, 99);
    assert_eq!(s, "héllo!!");
}

#[test]
fn scroll_values_saturate_at_both_ends() {
    assert_eq!(scroll_value(0, -3, 10), 0);
    assert_eq!(scroll_value(5, 3, 10), 8);
    assert_eq!(scroll_value(9, 5, 10), 10);
    assert_eq!(scroll_value(7, -2, 10), 5);
    assert_eq!(max_scroll(""), 0);
    assert_eq!(max_scroll("a\nb\nc"), 2);
}

#[test]
fn cursor_position_counts_rows_and_columns() {
    assert_eq!(cursor_position("ab\ncd", 0), (0, 0));
    assert_eq!(cursor_position("ab\ncd", 2), (0, 2));
    assert_eq!(cursor_position("ab\ncd", 4), (1, 1));
    assert_eq!(cursor_position("ab\ncd", 99), (1, 2));
}

#[test]
fn cursor_to_screen_respects_area_and_scroll() {
    assert_eq!(cursor_to_screen(2, 3, 10, 4, 0, 5, 0), Some((7, 3)));
    assert_eq!(cursor_to_screen(2, 3, 10, 4, 2, 0, 1), Some((2, 4)));
    assert_eq!(cursor_to_screen(2, 3, 0, 4, 0, 0, 0), None);
    assert_eq!(cursor_to_screen(2, 3, 10, 4, 0, 0, 1), None);
    assert_eq!(cursor_to_screen(2, 3, 10, 4, 6, 0, 1), None);
    assert_eq!(cursor_to_screen(2, 3, 10, 4, 0, 42, 0), Some((11, 3)));
}

#[test]
fn spinner_rotates_every_150_milliseconds() {
    assert_eq!(spinner_symbol(0), '|');
    assert_eq!(spinner_symbol(149), '|');
    assert_eq!(spinner_symbol(150), '/');
    assert_eq!(spinner_symbol(300), '-');
    assert_eq!(spinner_symbol(450), '\\');
    assert_eq!(spinner_symbol(600), '|');
}
