use hyprland_workspace_display::widget::get_eww_widget;

fn s(x: &str) -> Option<String> {
    Some(String::from(x))
}

#[test]
fn onclick_numbers_each_button() {
    let w = get_eww_widget(
        &vec!['o', '*'],
        &None,
        &None,
        &None,
        &None,
        &None,
        &None,
        &s("hyprctl dispatch workspace {NR}"),
        &None,
        &None,
    );
    assert_eq!(
        w,
        "(box (button :onclick 'hyprctl dispatch workspace 1' 'o')\
         (button :onclick 'hyprctl dispatch workspace 2' '*'))"
    );
}

#[test]
fn bare_box_without_symbols() {
    let w = get_eww_widget(&vec![], &None, &None, &None, &None, &None, &None, &None, &None, &None);
    assert_eq!(w, "(box )");
}

#[test]
fn all_properties_in_order() {
    let w = get_eww_widget(
        &vec!['x'],
        &s("ws"),
        &s("center"),
        &s("start"),
        &Some(12),
        &s("h"),
        &s("b{NR}"),
        &s("c {NR}"),
        &s("m {NR}"),
        &s("r {NR}{NR}"),
    );
    assert_eq!(
        w,
        "(box :class 'ws' :valign 'center' :halign 'start' :spacing 12 :orientation 'h' \
         (button :class 'b1' :onclick 'c 1' :onmiddleclick 'm 1' :onrightclick 'r 11' 'x'))"
    );
}

#[test]
fn box_properties_keep_placeholder() {
    let w = get_eww_widget(&vec![], &s("{NR}"), &None, &None, &Some(0), &None, &None, &None, &None, &None);
    assert_eq!(w, "(box :class '{NR}' :spacing 0 )");
}

#[test]
fn numbers_beyond_nine() {
    let symbols = vec!['_'; 11];
    let w = get_eww_widget(&symbols, &None, &None, &None, &None, &None, &s("w{NR}"), &None, &None, &None);
    assert!(w.ends_with("(button :class 'w10' '_')(button :class 'w11' '_'))"));
    assert!(w.starts_with("(box (button :class 'w1' '_')(button :class 'w2' '_')"));
}
