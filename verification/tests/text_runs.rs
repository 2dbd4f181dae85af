use uzumaki::input::{Key, NamedKey};
use uzumaki::selection::DomSelection;
use uzumaki::text_runs::{
    find_run, find_run_entry_for_node, is_text_selectable, next_word_boundary_in_run,
    prev_word_boundary_in_run, run_length, run_selected_text, view_selection_for_key,
    word_boundaries_in_run, TextSelectRun,
};
use uzumaki::text_runs::{forget_node_in_runs, selection_run_length};

fn run(root: usize, parts: &[(usize, &str)]) -> TextSelectRun {
    let mut r = TextSelectRun::new(root);
    for (node, text) in parts {
        r.push_text(*node, text);
    }
    r
}

#[test]
fn push_text_places_entries_end_to_end() {
    let r = run(1, &[(2, "hello "), (3, "wor"), (4, "ld")]);
    assert_eq!(r.flat_text, "hello world");
    assert_eq!(r.total_graphemes, 11);
    assert_eq!(r.entries.len(), 3);
    assert_eq!((r.entries[0].node_id, r.entries[0].flat_start, r.entries[0].grapheme_count), (2, 0, 6));
    assert_eq!((r.entries[1].node_id, r.entries[1].flat_start, r.entries[1].grapheme_count), (3, 6, 3));
    assert_eq!((r.entries[2].node_id, r.entries[2].flat_start, r.entries[2].grapheme_count), (4, 9, 2));
}

#[test]
fn push_text_counts_clusters_not_chars() {
    let r = run(1, &[(2, "e\u{301}x")]);
    assert_eq!(r.total_graphemes, 2);
    assert_eq!(r.flat_text.chars().count(), 3);
}

#[test]
fn graphemes_split_clusters() {
    let r = run(1, &[(2, "ae\u{301}\r\nb")]);
    assert_eq!(r.total_graphemes, 4);
    assert_eq!(r.entries[0].grapheme_count, 4);
}

#[test]
fn accented_letters_belong_to_words() {
    let runs = vec![run(1, &[(2, "caf\u{e9} na\u{ef}ve-x7")])];
    assert_eq!(word_boundaries_in_run(&runs, 1, 1), (0, 4));
    assert_eq!(word_boundaries_in_run(&runs, 1, 6), (5, 10));
    assert_eq!(word_boundaries_in_run(&runs, 1, 11), (11, 13));
}

#[test]
fn finding_runs_and_entries() {
    let runs = vec![run(1, &[(2, "ab")]), run(5, &[(6, "cd"), (7, "ef")]), run(5, &[(8, "x")])];
    assert_eq!(find_run(&runs, 5), Some(1));
    assert_eq!(find_run(&runs, 9), None);
    assert_eq!(find_run_entry_for_node(&runs, 7), Some((1, 1)));
    assert_eq!(find_run_entry_for_node(&runs, 9), None);
    assert!(is_text_selectable(&runs, 8));
    assert!(!is_text_selectable(&runs, 5));
    assert_eq!(run_length(&runs, 5), Some(4));
    assert_eq!(run_length(&runs, 3), None);
}

#[test]
fn word_boundaries_around_a_click() {
    let runs = vec![run(1, &[(2, "hello wor"), (3, "ld, foo_bar!")])];
    assert_eq!(word_boundaries_in_run(&runs, 1, 2), (0, 5));
    assert_eq!(word_boundaries_in_run(&runs, 1, 7), (6, 11));
    assert_eq!(word_boundaries_in_run(&runs, 1, 5), (5, 6));
    assert_eq!(word_boundaries_in_run(&runs, 1, 15), (13, 20));
    assert_eq!(word_boundaries_in_run(&runs, 1, 100), (0, 21));
    assert_eq!(word_boundaries_in_run(&runs, 4, 3), (3, 3));
}

#[test]
fn word_boundaries_with_combining_marks() {
    let runs = vec![run(1, &[(2, "caf\u{e9} ne\u{301}e")])];
    assert_eq!(word_boundaries_in_run(&runs, 1, 1), (0, 4));
    assert_eq!(word_boundaries_in_run(&runs, 1, 6), (5, 8));
}

#[test]
fn word_steps_in_a_run() {
    let runs = vec![run(1, &[(2, "one two  three")])];
    assert_eq!(prev_word_boundary_in_run(&runs, 1, 14), 9);
    assert_eq!(prev_word_boundary_in_run(&runs, 1, 9), 4);
    assert_eq!(prev_word_boundary_in_run(&runs, 1, 0), 0);
    assert_eq!(next_word_boundary_in_run(&runs, 1, 0), 4);
    assert_eq!(next_word_boundary_in_run(&runs, 1, 4), 9);
    assert_eq!(next_word_boundary_in_run(&runs, 1, 40), 14);
    assert_eq!(prev_word_boundary_in_run(&runs, 2, 7), 7);
    assert_eq!(next_word_boundary_in_run(&runs, 2, 7), 7);
}

#[test]
fn selected_text_of_a_view_selection() {
    let runs = vec![run(1, &[(2, "hello "), (3, "world")])];
    assert_eq!(run_selected_text(&runs, &DomSelection::new(1, 8, 3)), "lo wo");
    assert_eq!(run_selected_text(&runs, &DomSelection::new(1, 4, 4)), "");
    assert_eq!(run_selected_text(&runs, &DomSelection::new(2, 0, 4)), "");
    assert_eq!(run_selected_text(&runs, &DomSelection::new(1, 6, 50)), "world");
}

fn key(c: &str) -> Key {
    Key::Character(c.to_string())
}

#[test]
fn view_selection_keys() {
    let runs = vec![run(1, &[(2, "one two three")])];
    let sel = Some(DomSelection::new(1, 4, 6));
    let shift = 4;
    let ctrl = 1;
    let r = view_selection_for_key(&runs, sel, true, &Key::Named(NamedKey::ArrowLeft), shift);
    assert_eq!(r, Some(DomSelection::new(1, 4, 5)));
    let r = view_selection_for_key(&runs, sel, true, &Key::Named(NamedKey::ArrowRight), shift);
    assert_eq!(r, Some(DomSelection::new(1, 4, 7)));
    let r = view_selection_for_key(&runs, sel, true, &Key::Named(NamedKey::ArrowLeft), shift | ctrl);
    assert_eq!(r, Some(DomSelection::new(1, 4, 4)));
    let r = view_selection_for_key(&runs, sel, true, &Key::Named(NamedKey::ArrowRight), shift | ctrl);
    assert_eq!(r, Some(DomSelection::new(1, 4, 8)));
    let r = view_selection_for_key(&runs, sel, true, &Key::Named(NamedKey::Home), shift);
    assert_eq!(r, Some(DomSelection::new(1, 4, 0)));
    let r = view_selection_for_key(&runs, sel, true, &Key::Named(NamedKey::End), shift);
    assert_eq!(r, Some(DomSelection::new(1, 4, 13)));
    let r = view_selection_for_key(&runs, sel, true, &key("A"), ctrl);
    assert_eq!(r, Some(DomSelection::new(1, 0, 13)));
    assert_eq!(view_selection_for_key(&runs, sel, true, &key("a"), 0), None);
    assert_eq!(view_selection_for_key(&runs, sel, true, &Key::Named(NamedKey::ArrowLeft), 0), None);
    assert_eq!(view_selection_for_key(&runs, sel, false, &Key::Named(NamedKey::End), shift), None);
    assert_eq!(view_selection_for_key(&runs, None, true, &Key::Named(NamedKey::End), shift), None);
}

#[test]
fn view_selection_right_stops_at_run_end() {
    let runs = vec![run(1, &[(2, "ab")])];
    let sel = Some(DomSelection::new(1, 0, 2));
    let r = view_selection_for_key(&runs, sel, true, &Key::Named(NamedKey::ArrowRight), 4);
    assert_eq!(r, Some(DomSelection::new(1, 0, 2)));
    let empty = vec![run(1, &[])];
    assert_eq!(view_selection_for_key(&empty, sel, true, &Key::Named(NamedKey::End), 4), None);
}

#[test]
fn runs_of_removed_nodes_are_dropped() {
    let mut runs = vec![run(1, &[(2, "a")]), run(5, &[(6, "b")]), run(7, &[(8, "c"), (2, "d")])];
    forget_node_in_runs(&mut runs, 2);
    assert_eq!(runs.len(), 1);
    assert_eq!(runs[0].root_id, 5);
    forget_node_in_runs(&mut runs, 5);
    assert!(runs.is_empty());
}

#[test]
fn selection_run_length_prefers_the_focused_input() {
    let runs = vec![run(1, &[(2, "ab"), (3, "cde")])];
    let mut is = uzumaki::input::InputState::default();
    is.set_value("h\u{e9}llo".to_string());
    assert_eq!(selection_run_length(Some(&is), Some(1), &runs), Some(5));
    is.set_value("e\u{301}!".to_string());
    assert_eq!(selection_run_length(Some(&is), None, &runs), Some(2));
    assert_eq!(selection_run_length(None, Some(1), &runs), Some(5));
    assert_eq!(selection_run_length(None, Some(4), &runs), None);
    assert_eq!(selection_run_length(None, None, &runs), None);
}
