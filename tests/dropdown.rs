use egui_dropdown::dropdown::{DropDownBox, PopupFrame};
use egui_dropdown::filter::{accepts_input, accepts_lowered, filter_items, starts_with_lowered};

fn items() -> Vec<String> {
    vec![
        "First".to_string(),
        "Second".to_string(),
        "Third".to_string(),
        "Other".to_string(),
        "Another".to_string(),
    ]
}

#[test]
fn empty_buffer_lists_all_candidates() {
    let r = filter_items("", &items(), 5);
    assert_eq!(r, items());
    let r = DropDownBox::from_iter(items(), 10).rows("");
    assert_eq!(r, items());
}

#[test]
fn empty_buffer_is_cut_to_max_items_in_order() {
    let r = filter_items("", &items(), 3);
    assert_eq!(r, vec!["First".to_string(), "Second".to_string(), "Third".to_string()]);
}

#[test]
fn lowercase_o_keeps_only_other() {
    let r = filter_items("o", &items(), 5);
    assert_eq!(r, vec!["Other".to_string()]);
}

#[test]
fn uppercase_input_matches_case_insensitively() {
    let r = filter_items("OTH", &items(), 5);
    assert_eq!(r, vec!["Other".to_string()]);
    let r = filter_items("aNo", &items(), 5);
    assert_eq!(r, vec!["Another".to_string()]);
}

#[test]
fn prefix_not_substring() {
    // "Second" holds an "e" but does not start with one.
    let r = filter_items("e", &items(), 5);
    assert!(r.is_empty());
    let r = filter_items("t", &items(), 5);
    assert_eq!(r, vec!["Third".to_string()]);
}

#[test]
fn several_matches_keep_source_order() {
    let cands = vec![
        "beta".to_string(),
        "Alpha".to_string(),
        "bravo".to_string(),
        "Bingo".to_string(),
    ];
    let r = filter_items("b", &cands, 10);
    assert_eq!(r, vec!["beta".to_string(), "bravo".to_string(), "Bingo".to_string()]);
}

#[test]
fn result_never_exceeds_max_items() {
    for max in 0..7usize {
        let r = filter_items("", &items(), max);
        assert!(r.len() <= max);
        assert_eq!(r.len(), max.min(5));
    }
    let cands = vec!["aa".to_string(), "ab".to_string(), "ac".to_string()];
    assert_eq!(filter_items("a", &cands, 2), vec!["aa".to_string(), "ab".to_string()]);
    assert!(filter_items("a", &cands, 0).is_empty());
}

#[test]
fn no_candidates_gives_no_rows() {
    assert!(filter_items("x", &Vec::new(), 5).is_empty());
    assert!(filter_items("", &Vec::new(), 5).is_empty());
}

#[test]
fn input_longer_than_candidate_is_not_kept() {
    let cands = vec!["ab".to_string()];
    assert!(filter_items("abc", &cands, 5).is_empty());
    assert_eq!(filter_items("ab", &cands, 5), cands);
}

#[test]
fn non_ascii_lowercase_matches() {
    let cands = vec!["Ärger".to_string(), "Ende".to_string()];
    assert_eq!(filter_items("ä", &cands, 5), vec!["Ärger".to_string()]);
}

#[test]
fn accepts_input_folds_case_on_both_sides() {
    assert!(accepts_input("OTH", "other"));
    assert!(accepts_input("oth", "OTHER"));
    assert!(!accepts_input("x", "other"));
    assert!(accepts_input("", "anything"));
}

#[test]
fn starts_with_lowered_is_exact_prefix() {
    assert!(starts_with_lowered("o", "other"));
    assert!(starts_with_lowered("", "other"));
    assert!(starts_with_lowered("other", "other"));
    assert!(!starts_with_lowered("other", "o"));
    assert!(!starts_with_lowered("x", "other"));
    // Taken as given: no case folding happens here.
    assert!(!starts_with_lowered("o", "Other"));
}

#[test]
fn accepts_lowered_keeps_everything_for_empty_input() {
    assert!(accepts_lowered(true, "zzz", "other"));
    assert!(!accepts_lowered(false, "zzz", "other"));
    assert!(accepts_lowered(false, "ot", "other"));
}

#[test]
fn enter_with_single_row_selects_it() {
    let dd = DropDownBox::from_iter(items(), 5);
    let rows = dd.rows("o");
    let mut frame = PopupFrame::new("o".to_string(), true);
    frame.press_enter(&rows);
    assert_eq!(frame.buf, "Other");
    assert!(frame.changed);
    assert!(!frame.popup_open);
}

#[test]
fn enter_with_several_rows_does_nothing() {
    let dd = DropDownBox::from_iter(items(), 5);
    let rows = dd.rows("");
    let mut frame = PopupFrame::new(String::new(), true);
    frame.press_enter(&rows);
    assert_eq!(frame.buf, "");
    assert!(!frame.changed);
    assert!(frame.popup_open);
}

#[test]
fn enter_with_no_rows_does_nothing() {
    let dd = DropDownBox::from_iter(items(), 5);
    let rows = dd.rows("zz");
    assert!(rows.is_empty());
    let mut frame = PopupFrame::new("zz".to_string(), true);
    frame.press_enter(&rows);
    assert_eq!(frame.buf, "zz");
    assert!(!frame.changed);
    assert!(frame.popup_open);
}

#[test]
fn enter_matches_click_on_sole_row() {
    let rows = vec!["Other".to_string()];
    let mut by_enter = PopupFrame::new("ot".to_string(), true);
    by_enter.press_enter(&rows);
    let mut by_click = PopupFrame::new("ot".to_string(), true);
    by_click.click_row("Other");
    assert_eq!(by_enter.buf, by_click.buf);
    assert_eq!(by_enter.changed, by_click.changed);
    assert_eq!(by_enter.popup_open, by_click.popup_open);
    assert_eq!(by_enter.selection, by_click.selection);
}

#[test]
fn click_sets_text_and_closes_popup() {
    let mut frame = PopupFrame::new("Th".to_string(), true);
    frame.click_row("Third");
    assert_eq!(frame.buf, "Third");
    assert!(frame.changed);
    assert!(!frame.popup_open);
}

#[test]
fn new_frame_starts_unchanged() {
    let frame = PopupFrame::new("abc".to_string(), false);
    assert_eq!(frame.buf, "abc");
    assert!(!frame.popup_open);
    assert!(!frame.changed);
    assert_eq!(frame.selection, None);
}

#[test]
fn focus_with_select_on_focus_selects_whole_text() {
    let dd = DropDownBox::from_iter(items(), 5).select_on_focus(true);
    let mut frame = PopupFrame::new("Second".to_string(), false);
    dd.gain_focus(&mut frame);
    assert_eq!(frame.selection, Some((0, 6)));
    assert!(frame.popup_open);
    assert_eq!(frame.buf, "Second");
}

#[test]
fn focus_selection_counts_characters() {
    let dd = DropDownBox::from_iter(items(), 5).select_on_focus(true);
    let mut frame = PopupFrame::new("héllo".to_string(), false);
    dd.gain_focus(&mut frame);
    assert_eq!(frame.selection, Some((0, 5)));
}

#[test]
fn focus_without_select_on_focus_only_opens_popup() {
    let dd = DropDownBox::from_iter(items(), 5);
    let mut frame = PopupFrame::new("Second".to_string(), false);
    dd.gain_focus(&mut frame);
    assert_eq!(frame.selection, None);
    assert!(frame.popup_open);
    assert!(!frame.changed);
}

#[test]
fn finish_frame_applies_clicks_then_enter() {
    let dd = DropDownBox::from_iter(items(), 5);
    let rows = dd.rows("");
    let mut frame = PopupFrame::new(String::new(), true);
    dd.finish_frame(&mut frame, &rows, &vec![false, false, true, false, false], true);
    assert_eq!(frame.buf, "Third");
    assert!(frame.changed);
    assert!(!frame.popup_open);

    let mut frame = PopupFrame::new(String::new(), true);
    dd.finish_frame(&mut frame, &rows, &vec![false; 5], true);
    assert_eq!(frame.buf, "");
    assert!(!frame.changed);
    assert!(frame.popup_open);
}

#[test]
fn finish_frame_enter_on_single_row() {
    let dd = DropDownBox::from_iter(items(), 5);
    let rows = dd.rows("o");
    let mut frame = PopupFrame::new("o".to_string(), true);
    dd.finish_frame(&mut frame, &rows, &vec![false], true);
    assert_eq!(frame.buf, "Other");
    assert!(frame.changed);
    assert!(!frame.popup_open);
}

#[test]
fn builder_defaults_and_setters() {
    let dd = DropDownBox::from_iter(items(), 7);
    assert_eq!(dd.items, items());
    assert_eq!(dd.hint_text, "");
    assert!(dd.filter_by_input);
    assert!(!dd.select_on_focus);
    assert_eq!(dd.max_items, 7);
    let dd = dd
        .hint_text("Search items".to_string())
        .filter_by_input(false)
        .select_on_focus(true);
    assert_eq!(dd.hint_text, "Search items");
    assert!(!dd.filter_by_input);
    assert!(dd.select_on_focus);
    assert_eq!(dd.max_items, 7);
    assert_eq!(dd.items, items());
}
