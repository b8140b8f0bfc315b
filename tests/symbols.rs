use hyprland_workspace_display::symbols::{get_workspace_symbols, symbol_chars, symbol_line};
use hyprland_workspace_display::workspace::Workspace;

fn ws(id: u8, windows: u32) -> Workspace {
    Workspace {
        id,
        name: id.to_string(),
        monitor: String::from("DP-1"),
        windows,
        has_fullscreen: false,
        last_window: String::from("0x0"),
        last_window_title: String::new(),
    }
}

#[test]
fn single_active_workspace_of_three() {
    let r = get_workspace_symbols(&vec![ws(1, 2)], 3, '*', 'o', Some('_'), &ws(1, 2));
    assert_eq!(symbol_chars(&r), vec!['*', '_', '_']);
    assert_eq!(r, vec![('*', 1), ('_', 2), ('_', 3)]);
}

#[test]
fn two_workspaces_of_four() {
    let r = get_workspace_symbols(&vec![ws(2, 1), ws(3, 1)], 4, '*', 'o', Some('_'), &ws(3, 1));
    assert_eq!(symbol_chars(&r), vec!['_', 'o', '*', '_']);
}

#[test]
fn length_equals_amount() {
    for n in 0..=10u8 {
        let r = get_workspace_symbols(&vec![ws(2, 1), ws(7, 0)], n, '*', 'o', Some('_'), &ws(2, 1));
        assert_eq!(r.len(), n as usize);
    }
    let r = get_workspace_symbols(&vec![], 255, '*', 'o', Some('_'), &ws(1, 0));
    assert_eq!(r.len(), 255);
    assert_eq!(r[254], ('_', 255));
}

#[test]
fn zero_slots_give_nothing() {
    let r = get_workspace_symbols(&vec![ws(1, 1)], 0, '*', 'o', Some('_'), &ws(1, 1));
    assert!(r.is_empty());
}

#[test]
fn empty_slots_left_out_without_empty_symbol() {
    let r = get_workspace_symbols(&vec![ws(2, 1), ws(4, 3)], 5, '*', 'o', None, &ws(4, 3));
    assert_eq!(r, vec![('o', 2), ('*', 4)]);
}

#[test]
fn active_takes_precedence_over_full() {
    let r = get_workspace_symbols(&vec![ws(1, 5), ws(2, 5)], 2, 'A', 'F', Some('E'), &ws(2, 5));
    assert_eq!(r, vec![('F', 1), ('A', 2)]);
}

#[test]
fn active_workspace_missing_from_list_shows_empty() {
    let r = get_workspace_symbols(&vec![ws(1, 1)], 3, '*', 'o', Some('_'), &ws(2, 0));
    assert_eq!(symbol_chars(&r), vec!['o', '_', '_']);
}

#[test]
fn identifiers_beyond_amount_are_ignored() {
    let r = get_workspace_symbols(&vec![ws(9, 1), ws(2, 1)], 3, '*', 'o', Some('_'), &ws(9, 1));
    assert_eq!(symbol_chars(&r), vec!['_', 'o', '_']);
}

#[test]
fn same_inputs_same_output() {
    let list = vec![ws(1, 1), ws(3, 0)];
    let first = get_workspace_symbols(&list, 6, '*', 'o', Some('_'), &ws(3, 0));
    let second = get_workspace_symbols(&list, 6, '*', 'o', Some('_'), &ws(3, 0));
    assert_eq!(first, second);
}

#[test]
fn symbol_line_puts_a_space_after_each() {
    assert_eq!(symbol_line(&vec!['*', '_', '_']), "* _ _ ");
    assert_eq!(symbol_line(&vec![]), "");
}

#[test]
fn symbol_chars_keeps_order() {
    assert_eq!(symbol_chars(&vec![('a', 3), ('b', 1)]), vec!['a', 'b']);
    assert!(symbol_chars(&vec![]).is_empty());
}
