use vstd::prelude::*;

use crate::text::push_char;
use crate::workspace::{has_id, Workspace};

verus! {

/// The symbol that slot `slot` shows, or `None` where the slot is left out.
pub open spec fn slot_symbol(
    workspaces: Seq<Workspace>,
    active_id: u8,
    slot: int,
    active_symbol: char,
    full_symbol: char,
    empty_symbol: Option<char>,
) -> Option<char> {
    if has_id(workspaces, slot) {
        if slot == active_id as int {
            Some(active_symbol)
        } else {
            Some(full_symbol)
        }
    } else {
        empty_symbol
    }
}

/// The entries `(symbol, slot)` for the slots `1..=n`, in ascending slot order.
pub open spec fn slot_entries(
    workspaces: Seq<Workspace>,
    active_id: u8,
    active_symbol: char,
    full_symbol: char,
    empty_symbol: Option<char>,
    n: nat,
) -> Seq<(char, u8)>
    decreases n,
{
    if n == 0 {
        Seq::empty()
    } else {
        let before = slot_entries(
            workspaces,
            active_id,
            active_symbol,
            full_symbol,
            empty_symbol,
            (n - 1) as nat,
        );
        match slot_symbol(workspaces, active_id, n as int, active_symbol, full_symbol, empty_symbol) {
            Some(c) => before.push((c, n as u8)),
            None => before,
        }
    }
}

/// Position of the first workspace whose identifier is `id`.
fn get_workspace_by_id(id: u8, workspaces: &Vec<Workspace>) -> (r: Option<usize>)
    ensures
        match r {
            Some(j) => j < workspaces@.len() && workspaces@[j as int].id == id,
            None => !has_id(workspaces@, id as int),
        },
{
    let mut j: usize = 0;
    while j < workspaces.len()
        invariant
            j <= workspaces@.len(),
            forall|k: int| 0 <= k < j ==> workspaces@[k].id != id,
        decreases workspaces@.len() - j,
    {
        if workspaces[j].id == id {
            return Some(j);
        }
        j += 1;
    }
    None
}

/// Assigns a symbol to each slot `1..=workspace_amount`: `active_workspace_symbol`
/// where a workspace with the slot's identifier exists and is the active one,
/// `full_workspace_symbol` where one exists otherwise, and
/// `empty_workspace_symbol` where none exists (the slot is left out when that
/// symbol is `None`). Each entry carries its slot number.
pub fn get_workspace_symbols(
    workspaces: &Vec<Workspace>,
    workspace_amount: u8,
    active_workspace_symbol: char,
    full_workspace_symbol: char,
    empty_workspace_symbol: Option<char>,
    active_workspace: &Workspace,
) -> (r: Vec<(char, u8)>)
    ensures
        r@ == slot_entries(
            workspaces@,
            active_workspace.id,
            active_workspace_symbol,
            full_workspace_symbol,
            empty_workspace_symbol,
            workspace_amount as nat,
        ),
{
    let mut symbols: Vec<(char, u8)> = Vec::new();
    let mut idx: u8 = 0;
    while idx < workspace_amount
        invariant
            idx <= workspace_amount,
            symbols@ == slot_entries(
                workspaces@,
                active_workspace.id,
                active_workspace_symbol,
                full_workspace_symbol,
                empty_workspace_symbol,
                idx as nat,
            ),
        decreases workspace_amount - idx,
    {
        idx += 1;
        match get_workspace_by_id(idx, workspaces) {
            Some(_) => {
                if idx == active_workspace.id {
                    symbols.push((active_workspace_symbol, idx));
                } else {
                    symbols.push((full_workspace_symbol, idx));
                }
            },
            None => {
                if let Some(symbol) = empty_workspace_symbol {
                    symbols.push((symbol, idx));
                }
            },
        }
    }
    symbols
}

} // verus!

verus! {

/// The symbols of the entries, in order, without their slot numbers.
pub open spec fn symbols_of(entries: Seq<(char, u8)>) -> Seq<char> {
    entries.map_values(|e: (char, u8)| e.0)
}

/// The symbols followed each by one space.
pub open spec fn line_text(symbols: Seq<char>) -> Seq<char>
    decreases symbols.len(),
{
    if symbols.len() == 0 {
        Seq::empty()
    } else {
        line_text(symbols.drop_last()) + seq![symbols.last(), ' ']
    }
}

/// Drops the slot numbers from assigned entries, keeping the symbols in order.
pub fn symbol_chars(entries: &Vec<(char, u8)>) -> (r: Vec<char>)
    ensures
        r@ == symbols_of(entries@),
{
    let mut r: Vec<char> = Vec::new();
    let mut i: usize = 0;
    while i < entries.len()
        invariant
            i <= entries@.len(),
            r@ == symbols_of(entries@.subrange(0, i as int)),
        decreases entries@.len() - i,
    {
        r.push(entries[i].0);
        i += 1;
        assert(r@ =~= symbols_of(entries@.subrange(0, i as int)));
    }
    assert(entries@.subrange(0, i as int) =~= entries@);
    r
}

/// The plain text form of the symbols: each symbol followed by a space.
pub fn symbol_line(workspace_symbols: &Vec<char>) -> (r: String)
    ensures
        r@ == line_text(workspace_symbols@),
{
    let mut line = String::new();
    let mut i: usize = 0;
    while i < workspace_symbols.len()
        invariant
            i <= workspace_symbols@.len(),
            line@ == line_text(workspace_symbols@.subrange(0, i as int)),
        decreases workspace_symbols@.len() - i,
    {
        push_char(&mut line, workspace_symbols[i]);
        push_char(&mut line, ' ');
        i += 1;
        let ghost prefix = workspace_symbols@.subrange(0, i as int);
        assert(prefix.drop_last() =~= workspace_symbols@.subrange(0, i - 1));
        assert(line@ =~= line_text(prefix));
    }
    assert(workspace_symbols@.subrange(0, i as int) =~= workspace_symbols@);
    line
}

} // verus!

verus! {

/// Each entry names a slot in `1..=n` and carries that slot's symbol; each
/// slot that has a symbol has an entry; with an empty symbol set there is one
/// entry per slot, in slot order.
proof fn lemma_entries(
    workspaces: Seq<Workspace>,
    active_id: u8,
    active_symbol: char,
    full_symbol: char,
    empty_symbol: Option<char>,
    n: nat,
)
    requires
        n <= 255,
    ensures
        ({
            let r = slot_entries(workspaces, active_id, active_symbol, full_symbol, empty_symbol, n);
            &&& forall|k: int|
                0 <= k < r.len() ==> 1 <= (#[trigger] r[k]).1 <= n && slot_symbol(
                    workspaces,
                    active_id,
                    r[k].1 as int,
                    active_symbol,
                    full_symbol,
                    empty_symbol,
                ) == Some(r[k].0)
            &&& forall|i: int|
                1 <= i <= n && (#[trigger] slot_symbol(
                    workspaces,
                    active_id,
                    i,
                    active_symbol,
                    full_symbol,
                    empty_symbol,
                )).is_some() ==> exists|k: int| 0 <= k < r.len() && (#[trigger] r[k]).1 == i
            &&& empty_symbol.is_some() ==> r.len() == n && forall|k: int|
                0 <= k < n ==> (#[trigger] r[k]).1 == k + 1
        }),
    decreases n,
{
    if n > 0 {
        lemma_entries(
            workspaces,
            active_id,
            active_symbol,
            full_symbol,
            empty_symbol,
            (n - 1) as nat,
        );
        let before = slot_entries(
            workspaces,
            active_id,
            active_symbol,
            full_symbol,
            empty_symbol,
            (n - 1) as nat,
        );
        let r = slot_entries(workspaces, active_id, active_symbol, full_symbol, empty_symbol, n);
        assert forall|i: int|
            1 <= i <= n && (#[trigger] slot_symbol(
                workspaces,
                active_id,
                i,
                active_symbol,
                full_symbol,
                empty_symbol,
            )).is_some() implies exists|k: int| 0 <= k < r.len() && (#[trigger] r[k]).1 == i by {
            if i < n {
                let k = choose|k: int| 0 <= k < before.len() && (#[trigger] before[k]).1 == i;
                assert(r[k] == before[k]);
            } else {
                assert(r[r.len() - 1].1 == i);
            }
        }
    }
}

/// The sequence has one entry per slot whenever an empty symbol is set.
pub proof fn lemma_length(
    workspaces: Seq<Workspace>,
    active_id: u8,
    active_symbol: char,
    full_symbol: char,
    empty_symbol: char,
    workspace_amount: u8,
)
    ensures
        slot_entries(
            workspaces,
            active_id,
            active_symbol,
            full_symbol,
            Some(empty_symbol),
            workspace_amount as nat,
        ).len() == workspace_amount,
{
    lemma_entries(
        workspaces,
        active_id,
        active_symbol,
        full_symbol,
        Some(empty_symbol),
        workspace_amount as nat,
    );
}

/// A slot with no workspace of its identifier shows the empty symbol at its
/// position, or has no entry at all when no empty symbol is set.
pub proof fn lemma_empty_slot(
    workspaces: Seq<Workspace>,
    active_id: u8,
    active_symbol: char,
    full_symbol: char,
    empty_symbol: Option<char>,
    workspace_amount: u8,
    slot: u8,
)
    requires
        1 <= slot <= workspace_amount,
        !has_id(workspaces, slot as int),
    ensures
        ({
            let r = slot_entries(
                workspaces,
                active_id,
                active_symbol,
                full_symbol,
                empty_symbol,
                workspace_amount as nat,
            );
            match empty_symbol {
                Some(c) => r[slot - 1] == (c, slot),
                None => forall|k: int| 0 <= k < r.len() ==> (#[trigger] r[k]).1 != slot,
            }
        }),
{
    lemma_entries(
        workspaces,
        active_id,
        active_symbol,
        full_symbol,
        empty_symbol,
        workspace_amount as nat,
    );
    let r = slot_entries(
        workspaces,
        active_id,
        active_symbol,
        full_symbol,
        empty_symbol,
        workspace_amount as nat,
    );
    if empty_symbol.is_some() {
        assert(r[slot - 1].1 == slot);
    }
}

/// The slot of the active workspace shows the active symbol, also when that
/// workspace holds windows: it has an entry, every entry for it carries the
/// active symbol, and with an empty symbol set it is at the slot's position.
pub proof fn lemma_active_slot(
    workspaces: Seq<Workspace>,
    active_id: u8,
    active_symbol: char,
    full_symbol: char,
    empty_symbol: Option<char>,
    workspace_amount: u8,
)
    requires
        1 <= active_id <= workspace_amount,
        has_id(workspaces, active_id as int),
    ensures
        ({
            let r = slot_entries(
                workspaces,
                active_id,
                active_symbol,
                full_symbol,
                empty_symbol,
                workspace_amount as nat,
            );
            &&& exists|k: int| 0 <= k < r.len() && #[trigger] r[k] == (active_symbol, active_id)
            &&& forall|k: int|
                0 <= k < r.len() && (#[trigger] r[k]).1 == active_id ==> r[k].0 == active_symbol
            &&& empty_symbol.is_some() ==> r[active_id - 1] == (active_symbol, active_id)
        }),
{
    lemma_entries(
        workspaces,
        active_id,
        active_symbol,
        full_symbol,
        empty_symbol,
        workspace_amount as nat,
    );
    let r = slot_entries(
        workspaces,
        active_id,
        active_symbol,
        full_symbol,
        empty_symbol,
        workspace_amount as nat,
    );
    assert(slot_symbol(
        workspaces,
        active_id,
        active_id as int,
        active_symbol,
        full_symbol,
        empty_symbol,
    ).is_some());
    let k = choose|k: int| 0 <= k < r.len() && (#[trigger] r[k]).1 == active_id;
    assert(r[k] == (active_symbol, active_id));
    if empty_symbol.is_some() {
        assert(r[active_id - 1].1 == active_id);
    }
}

/// A slot of an existing workspace that is not the active one shows the full
/// symbol: it has an entry, every entry for it carries the full symbol, and
/// with an empty symbol set it is at the slot's position.
pub proof fn lemma_full_slot(
    workspaces: Seq<Workspace>,
    active_id: u8,
    active_symbol: char,
    full_symbol: char,
    empty_symbol: Option<char>,
    workspace_amount: u8,
    slot: u8,
)
    requires
        1 <= slot <= workspace_amount,
        has_id(workspaces, slot as int),
        slot != active_id,
    ensures
        ({
            let r = slot_entries(
                workspaces,
                active_id,
                active_symbol,
                full_symbol,
                empty_symbol,
                workspace_amount as nat,
            );
            &&& exists|k: int| 0 <= k < r.len() && #[trigger] r[k] == (full_symbol, slot)
            &&& forall|k: int| 0 <= k < r.len() && (#[trigger] r[k]).1 == slot ==> r[k].0 == full_symbol
            &&& empty_symbol.is_some() ==> r[slot - 1] == (full_symbol, slot)
        }),
{
    lemma_entries(
        workspaces,
        active_id,
        active_symbol,
        full_symbol,
        empty_symbol,
        workspace_amount as nat,
    );
    let r = slot_entries(
        workspaces,
        active_id,
        active_symbol,
        full_symbol,
        empty_symbol,
        workspace_amount as nat,
    );
    assert(slot_symbol(workspaces, active_id, slot as int, active_symbol, full_symbol, empty_symbol).is_some());
    let k = choose|k: int| 0 <= k < r.len() && (#[trigger] r[k]).1 == slot;
    assert(r[k] == (full_symbol, slot));
    if empty_symbol.is_some() {
        assert(r[slot - 1].1 == slot);
    }
}

/// The assignment is a function of its inputs: two results for the same
/// inputs are the same sequence.
pub proof fn lemma_assignment_is_pure(
    workspaces: Seq<Workspace>,
    active_id: u8,
    active_symbol: char,
    full_symbol: char,
    empty_symbol: Option<char>,
    workspace_amount: u8,
    first: Seq<(char, u8)>,
    second: Seq<(char, u8)>,
)
    requires
        first == slot_entries(
            workspaces,
            active_id,
            active_symbol,
            full_symbol,
            empty_symbol,
            workspace_amount as nat,
        ),
        second == slot_entries(
            workspaces,
            active_id,
            active_symbol,
            full_symbol,
            empty_symbol,
            workspace_amount as nat,
        ),
    ensures
        first == second,
{
}

} // verus!
