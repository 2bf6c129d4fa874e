//! The admin-command panel's decision core.
//!
//! The panel itself is host-UI glue: widgets, filtering, layout.  What
//! it decides is small and exact — which chat command each button
//! click issues, built from the selected catalog entry and quantity —
//! and that decision lives here, as a pure function from panel state
//! and clicks to the list of commands, in the panel's section order:
//! give-items, kits, spawn-entities.

use vstd::prelude::*;

use vstd::string::StringExecFns;

verus! {

/// The server chat commands the panel issues.
#[derive(Clone, Copy, PartialEq, Eq, Structural, Debug)]
pub enum ChatCommandKind {
    Kit,
    GiveItem,
    MakeNpc,
}

/// One chat command: a kind and its textual arguments.
pub struct ChatCommand {
    pub cmd: ChatCommandKind,
    pub args: Vec<String>,
}

/// The panel's persistent state: selections, quantities and filter
/// texts, owned by the host UI.
pub struct AdminCommandState {
    pub give_item_qty: u32,
    pub give_item_selected_idx: usize,
    pub give_item_search_text: String,
    pub kits_selected_idx: usize,
    pub spawn_entity_qty: u32,
    pub spawn_entity_selected_idx: usize,
    pub spawn_entity_search_text: String,
}

/// Which of the panel's buttons were clicked this frame.
#[derive(Clone, Copy, PartialEq, Eq, Structural, Debug)]
pub struct AdminClicks {
    pub give_item: bool,
    pub kit: bool,
    pub spawn_entity: bool,
}

/// The decimal digit characters of `n`, most significant first.
pub open spec fn dec_digits(n: nat) -> Seq<char>
    decreases n,
{
    if n < 10 {
        seq![digit_char(n)]
    } else {
        dec_digits(n / 10) + seq![digit_char(n % 10)]
    }
}

pub open spec fn digit_char(d: nat) -> char {
    if d == 0 {
        '0'
    } else if d == 1 {
        '1'
    } else if d == 2 {
        '2'
    } else if d == 3 {
        '3'
    } else if d == 4 {
        '4'
    } else if d == 5 {
        '5'
    } else if d == 6 {
        '6'
    } else if d == 7 {
        '7'
    } else if d == 8 {
        '8'
    } else {
        '9'
    }
}

fn digit_str(d: u32) -> (r: &'static str)
    requires
        d < 10,
    ensures
        r@ == seq![digit_char(d as nat)],
{
    proof {
        reveal_strlit("0");
        reveal_strlit("1");
        reveal_strlit("2");
        reveal_strlit("3");
        reveal_strlit("4");
        reveal_strlit("5");
        reveal_strlit("6");
        reveal_strlit("7");
        reveal_strlit("8");
        reveal_strlit("9");
        assert("0"@ =~= seq!['0']);
        assert("1"@ =~= seq!['1']);
        assert("2"@ =~= seq!['2']);
        assert("3"@ =~= seq!['3']);
        assert("4"@ =~= seq!['4']);
        assert("5"@ =~= seq!['5']);
        assert("6"@ =~= seq!['6']);
        assert("7"@ =~= seq!['7']);
        assert("8"@ =~= seq!['8']);
        assert("9"@ =~= seq!['9']);
    }
    match d {
        0 => "0",
        1 => "1",
        2 => "2",
        3 => "3",
        4 => "4",
        5 => "5",
        6 => "6",
        7 => "7",
        8 => "8",
        _ => "9",
    }
}

/// Renders a quantity in decimal, exactly as the panel prints it.
pub fn u32_decimal(n: u32) -> (s: String)
    ensures
        s@ == dec_digits(n as nat),
    decreases n,
{
    if n < 10 {
        String::from_str(digit_str(n))
    } else {
        proof {
            vstd::arithmetic::div_mod::lemma_div_decreases(n as int, 10);
        }
        let mut s: String = u32_decimal(n / 10);
        s.append(digit_str(n % 10));
        s
    }
}

/// What the give-items button issues: the prefixed item identifier
/// and the decimal quantity.
pub open spec fn is_give_action(c: ChatCommand, items: Seq<String>, idx: int, qty: u32) -> bool {
    &&& c.cmd == ChatCommandKind::GiveItem
    &&& c.args@.len() == 2
    &&& c.args@[0]@ == "common.items."@ + items[idx]@
    &&& c.args@[1]@ == dec_digits(qty as nat)
}

/// What the give-kit button issues: the selected kit name alone.
pub open spec fn is_kit_action(c: ChatCommand, kits: Seq<String>, idx: int) -> bool {
    &&& c.cmd == ChatCommandKind::Kit
    &&& c.args@.len() == 1
    &&& c.args@[0]@ == kits[idx]@
}

/// What the spawn-entities button issues: the prefixed entity
/// configuration and the decimal quantity.
pub open spec fn is_spawn_action(c: ChatCommand, entities: Seq<String>, idx: int, qty: u32) -> bool {
    &&& c.cmd == ChatCommandKind::MakeNpc
    &&& c.args@.len() == 2
    &&& c.args@[0]@ == "common.entity."@ + entities[idx]@
    &&& c.args@[1]@ == dec_digits(qty as nat)
}

/// The give-items section: a click issues one give-item command for
/// the selected catalog entry and quantity.
pub fn draw_give_items(
    state: &AdminCommandState,
    items: &Vec<String>,
    clicked: bool,
    actions: &mut Vec<ChatCommand>,
)
    requires
        clicked ==> state.give_item_selected_idx < items@.len(),
    ensures
        clicked ==> final(actions)@.len() == old(actions)@.len() + 1
            && final(actions)@.drop_last() == old(actions)@
            && is_give_action(
            final(actions)@.last(),
            items@,
            state.give_item_selected_idx as int,
            state.give_item_qty,
        ),
        !clicked ==> *final(actions) == *old(actions),
{
    if clicked {
        let id: String = String::from_str("common.items.").concat(
            items[state.give_item_selected_idx].as_str(),
        );
        let qty: String = u32_decimal(state.give_item_qty);
        let mut args: Vec<String> = Vec::new();
        args.push(id);
        args.push(qty);
        actions.push(ChatCommand { cmd: ChatCommandKind::GiveItem, args });
        proof {
            assert(actions@.drop_last() =~= old(actions)@);
        }
    }
}

/// The kits section: a click issues one kit command for the selected
/// kit name.
pub fn draw_kits(
    state: &AdminCommandState,
    kits: &Vec<String>,
    clicked: bool,
    actions: &mut Vec<ChatCommand>,
)
    requires
        clicked ==> state.kits_selected_idx < kits@.len(),
    ensures
        clicked ==> final(actions)@.len() == old(actions)@.len() + 1
            && final(actions)@.drop_last() == old(actions)@
            && is_kit_action(final(actions)@.last(), kits@, state.kits_selected_idx as int),
        !clicked ==> *final(actions) == *old(actions),
{
    if clicked {
        let name: String = kits[state.kits_selected_idx].clone();
        let mut args: Vec<String> = Vec::new();
        args.push(name);
        actions.push(ChatCommand { cmd: ChatCommandKind::Kit, args });
        proof {
            assert(actions@.drop_last() =~= old(actions)@);
        }
    }
}

/// The spawn-entities section: a click issues one spawn command for
/// the selected entity configuration and quantity.
pub fn draw_spawn_entities(
    state: &AdminCommandState,
    entities: &Vec<String>,
    clicked: bool,
    actions: &mut Vec<ChatCommand>,
)
    requires
        clicked ==> state.spawn_entity_selected_idx < entities@.len(),
    ensures
        clicked ==> final(actions)@.len() == old(actions)@.len() + 1
            && final(actions)@.drop_last() == old(actions)@
            && is_spawn_action(
            final(actions)@.last(),
            entities@,
            state.spawn_entity_selected_idx as int,
            state.spawn_entity_qty,
        ),
        !clicked ==> *final(actions) == *old(actions),
{
    if clicked {
        let id: String = String::from_str("common.entity.").concat(
            entities[state.spawn_entity_selected_idx].as_str(),
        );
        let qty: String = u32_decimal(state.spawn_entity_qty);
        let mut args: Vec<String> = Vec::new();
        args.push(id);
        args.push(qty);
        actions.push(ChatCommand { cmd: ChatCommandKind::MakeNpc, args });
        proof {
            assert(actions@.drop_last() =~= old(actions)@);
        }
    }
}

/// How many commands a set of clicks issues.
pub open spec fn click_count(clicks: AdminClicks) -> int {
    (if clicks.give_item {
        1int
    } else {
        0
    }) + (if clicks.kit {
        1int
    } else {
        0
    }) + (if clicks.spawn_entity {
        1int
    } else {
        0
    })
}

/// The whole admin-commands window for one frame: runs the three
/// sections in their panel order over the supplied catalogs and
/// returns the chat commands the clicks issued.
pub fn draw_admin_commands_window(
    state: &AdminCommandState,
    items: &Vec<String>,
    kits: &Vec<String>,
    entities: &Vec<String>,
    clicks: AdminClicks,
) -> (actions: Vec<ChatCommand>)
    requires
        clicks.give_item ==> state.give_item_selected_idx < items@.len(),
        clicks.kit ==> state.kits_selected_idx < kits@.len(),
        clicks.spawn_entity ==> state.spawn_entity_selected_idx < entities@.len(),
    ensures
        actions@.len() == click_count(clicks),
        clicks.give_item ==> is_give_action(
            actions@[0],
            items@,
            state.give_item_selected_idx as int,
            state.give_item_qty,
        ),
        clicks.kit ==> is_kit_action(
            actions@[if clicks.give_item {
                1int
            } else {
                0
            }],
            kits@,
            state.kits_selected_idx as int,
        ),
        clicks.spawn_entity ==> is_spawn_action(
            actions@[actions@.len() - 1],
            entities@,
            state.spawn_entity_selected_idx as int,
            state.spawn_entity_qty,
        ),
{
    let mut actions: Vec<ChatCommand> = Vec::new();
    draw_give_items(state, items, clicks.give_item, &mut actions);
    draw_kits(state, kits, clicks.kit, &mut actions);
    draw_spawn_entities(state, entities, clicks.spawn_entity, &mut actions);
    actions
}

} // verus!
