use vstd::prelude::*;

use crate::text::{decimal, decimal_string, push_char, replace_all, replaced};

verus! {

/// The characters of an optional string.
pub open spec fn text_of(o: Option<String>) -> Option<Seq<char>> {
    match o {
        Some(s) => Some(s@),
        None => None,
    }
}

/// A template with each `{NR}` replaced by the decimal notation of `nr`.
pub open spec fn templated(template: Option<Seq<char>>, nr: nat) -> Option<Seq<char>> {
    match template {
        Some(t) => Some(replaced(t, "{NR}"@, decimal(nr))),
        None => None,
    }
}

/// `:name 'value' ` where a value is given, nothing otherwise.
pub open spec fn property_text(name: Seq<char>, value: Option<Seq<char>>) -> Seq<char> {
    match value {
        Some(v) => ":"@ + name + " '"@ + v + "' "@,
        None => Seq::empty(),
    }
}

/// `:spacing n ` where a spacing is given, nothing otherwise.
pub open spec fn spacing_text(spacing: Option<u32>) -> Seq<char> {
    match spacing {
        Some(n) => ":spacing "@ + decimal(n as nat) + " "@,
        None => Seq::empty(),
    }
}

/// The button of slot `nr` showing `symbol`.
pub open spec fn button_text(
    symbol: char,
    nr: nat,
    class_button: Option<Seq<char>>,
    onclick: Option<Seq<char>>,
    onmiddleclick: Option<Seq<char>>,
    onrightclick: Option<Seq<char>>,
) -> Seq<char> {
    "(button "@
        + property_text("class"@, templated(class_button, nr))
        + property_text("onclick"@, templated(onclick, nr))
        + property_text("onmiddleclick"@, templated(onmiddleclick, nr))
        + property_text("onrightclick"@, templated(onrightclick, nr))
        + "'"@
        + seq![symbol]
        + "')"@
}

/// The buttons of the first `n` symbols, numbered from 1.
pub open spec fn buttons_text(
    symbols: Seq<char>,
    class_button: Option<Seq<char>>,
    onclick: Option<Seq<char>>,
    onmiddleclick: Option<Seq<char>>,
    onrightclick: Option<Seq<char>>,
    n: nat,
) -> Seq<char>
    decreases n,
{
    if n == 0 {
        Seq::empty()
    } else {
        buttons_text(symbols, class_button, onclick, onmiddleclick, onrightclick, (n - 1) as nat)
            + button_text(
            symbols[n - 1],
            n,
            class_button,
            onclick,
            onmiddleclick,
            onrightclick,
        )
    }
}

/// The opening of the box, with its properties, before any button.
pub open spec fn box_head_text(
    class_box: Option<Seq<char>>,
    valign: Option<Seq<char>>,
    halign: Option<Seq<char>>,
    spacing: Option<u32>,
    orientation: Option<Seq<char>>,
) -> Seq<char> {
    "(box "@
        + property_text("class"@, class_box)
        + property_text("valign"@, valign)
        + property_text("halign"@, halign)
        + spacing_text(spacing)
        + property_text("orientation"@, orientation)
}

/// Appends `:property 'value' ` when a value is given, with `{NR}` in it
/// replaced by `nr` when a number is given.
fn push_string_property(
    eww_widget: &mut String,
    property: &str,
    value: &Option<String>,
    nr: Option<usize>,
)
    ensures
        final(eww_widget)@ == old(eww_widget)@ + property_text(
            property@,
            match nr {
                Some(k) => templated(text_of(*value), k as nat),
                None => text_of(*value),
            },
        ),
{
    if let Some(value) = value {
        eww_widget.append(":");
        eww_widget.append(property);
        eww_widget.append(" '");
        match nr {
            Some(k) => {
                let number = decimal_string(k as u64);
                proof {
                    reveal_strlit("{NR}");
                }
                let filled = replace_all(value.as_str(), "{NR}", number.as_str());
                eww_widget.append(filled.as_str());
            },
            None => {
                eww_widget.append(value.as_str());
            },
        }
        eww_widget.append("' ");
    }
}

/// Renders the symbols as a box of buttons, one per symbol, numbered from 1.
/// The box and button properties appear only where given; `{NR}` in a
/// button's class or click commands stands for the button's number.
pub fn get_eww_widget(
    workspace_symbols: &Vec<char>,
    eww_class_box: &Option<String>,
    eww_valign: &Option<String>,
    eww_halign: &Option<String>,
    eww_spacing: &Option<u32>,
    eww_orientation: &Option<String>,
    eww_class_button: &Option<String>,
    eww_onclick: &Option<String>,
    eww_onmiddleclick: &Option<String>,
    eww_onrightclick: &Option<String>,
) -> (r: String)
    ensures
        r@ == box_head_text(
            text_of(*eww_class_box),
            text_of(*eww_valign),
            text_of(*eww_halign),
            *eww_spacing,
            text_of(*eww_orientation),
        ) + buttons_text(
            workspace_symbols@,
            text_of(*eww_class_button),
            text_of(*eww_onclick),
            text_of(*eww_onmiddleclick),
            text_of(*eww_onrightclick),
            workspace_symbols@.len(),
        ) + ")"@,
{
    let mut eww_widget = String::new();
    eww_widget.append("(box ");
    push_string_property(&mut eww_widget, "class", eww_class_box, None);
    push_string_property(&mut eww_widget, "valign", eww_valign, None);
    push_string_property(&mut eww_widget, "halign", eww_halign, None);
    if let Some(spacing) = eww_spacing {
        eww_widget.append(":spacing ");
        let number = decimal_string(*spacing as u64);
        eww_widget.append(number.as_str());
        eww_widget.append(" ");
    }
    push_string_property(&mut eww_widget, "orientation", eww_orientation, None);
    let ghost head = eww_widget@;
    assert(head == box_head_text(
        text_of(*eww_class_box),
        text_of(*eww_valign),
        text_of(*eww_halign),
        *eww_spacing,
        text_of(*eww_orientation),
    ));

    let mut idx: usize = 0;
    while idx < workspace_symbols.len()
        invariant
            idx <= workspace_symbols@.len(),
            eww_widget@ == head + buttons_text(
                workspace_symbols@,
                text_of(*eww_class_button),
                text_of(*eww_onclick),
                text_of(*eww_onmiddleclick),
                text_of(*eww_onrightclick),
                idx as nat,
            ),
        decreases workspace_symbols@.len() - idx,
    {
        let symbol = workspace_symbols[idx];
        let ghost before = eww_widget@;
        idx += 1;
        let mut button = String::new();
        button.append("(button ");
        push_string_property(&mut button, "class", eww_class_button, Some(idx));
        push_string_property(&mut button, "onclick", eww_onclick, Some(idx));
        push_string_property(&mut button, "onmiddleclick", eww_onmiddleclick, Some(idx));
        push_string_property(&mut button, "onrightclick", eww_onrightclick, Some(idx));
        button.append("'");
        push_char(&mut button, symbol);
        button.append("')");
        assert(button@ =~= button_text(
            symbol,
            idx as nat,
            text_of(*eww_class_button),
            text_of(*eww_onclick),
            text_of(*eww_onmiddleclick),
            text_of(*eww_onrightclick),
        ));
        eww_widget.append(button.as_str());
        assert(eww_widget@ =~= head + buttons_text(
            workspace_symbols@,
            text_of(*eww_class_button),
            text_of(*eww_onclick),
            text_of(*eww_onmiddleclick),
            text_of(*eww_onrightclick),
            idx as nat,
        ));
    }
    eww_widget.append(")");
    eww_widget
}

} // verus!
