//! The global hotkeys and what pressing them asks for.

use vstd::prelude::*;
use crate::text::same_text;

verus! {

/// Global show/hide hotkey for the recorder popover.
pub const RECORDER_HOTKEY: &'static str = "Alt+Shift+R";

/// System-wide recorder-control hotkeys, each with the name of the action it dispatches.
/// `Ctrl+Shift+F{n}` dodges the shortcuts of browsers and window managers and stays clear of
/// AltGr, so the whole start, stop, new loop can be driven from any application.
pub const RECORDER_HOTKEYS: [(&'static str, &'static str); 8] = [
    ("Ctrl+Shift+F9", "start"),
    ("Ctrl+Shift+F10", "stop"),
    ("Ctrl+Shift+F8", "pause"),
    ("Ctrl+Shift+F7", "cancel"),
    ("Ctrl+Shift+F6", "new"),
    ("Ctrl+Shift+F5", "mic"),
    ("Ctrl+Shift+F4", "camera"),
    ("Ctrl+Shift+F3", "system-audio"),
];

/// The accelerator of entry `i` of the table.
pub open spec fn accelerator(i: int) -> Seq<char> {
    RECORDER_HOTKEYS@[i].0@
}

/// The action name of entry `i` of the table.
pub open spec fn action_name(i: int) -> Seq<char> {
    RECORDER_HOTKEYS@[i].1@
}

/// Whether the table binds `accel` to `action`.
pub open spec fn binds(accel: Seq<char>, action: Seq<char>) -> bool {
    exists|i: int|
        0 <= i < RECORDER_HOTKEYS@.len() && #[trigger] accelerator(i) == accel && action_name(i)
            == action
}

/// Whether `name` is the name of a recorder action.
pub open spec fn is_recorder_action(name: Seq<char>) -> bool {
    exists|i: int| 0 <= i < RECORDER_HOTKEYS@.len() && #[trigger] action_name(i) == name
}

/// Whether `name` is one of the action names that the hotkeys dispatch.
pub fn known_action(name: &str) -> (known: bool)
    ensures
        known == is_recorder_action(name@),
{
    let mut i: usize = 0;
    while i < RECORDER_HOTKEYS.len()
        invariant
            i <= RECORDER_HOTKEYS@.len(),
            forall|j: int| 0 <= j < i ==> #[trigger] action_name(j) != name@,
        decreases RECORDER_HOTKEYS@.len() - i,
    {
        if same_text(RECORDER_HOTKEYS[i].1, name) {
            assert(action_name(i as int) == name@);
            return true;
        }
        i += 1;
    }
    false
}

/// The two events that a registered shortcut reports.
#[derive(Clone, Copy, Debug, PartialEq, Eq, Structural)]
pub enum ShortcutState {
    Pressed,
    Released,
}

/// What an event on a global shortcut asks the application to do.
#[derive(Clone, Copy, Debug)]
pub enum ShortcutEffect {
    /// Show the recorder popover, or hide it if it is shown.
    TogglePopover,
    /// Hand this action name to the recorder.
    Dispatch(&'static str),
    /// Nothing.
    Ignore,
}

/// The effect that event `state` of shortcut `accel` has: only a press of a registered
/// accelerator has one.
pub open spec fn has_effect(
    accel: Seq<char>,
    state: ShortcutState,
    effect: ShortcutEffect,
) -> bool {
    match effect {
        ShortcutEffect::TogglePopover => state is Pressed && accel == RECORDER_HOTKEY@,
        ShortcutEffect::Dispatch(action) => state is Pressed && binds(accel, action@),
        ShortcutEffect::Ignore => state is Pressed ==> {
            &&& accel != RECORDER_HOTKEY@
            &&& forall|action: Seq<char>| !#[trigger] binds(accel, action)
        },
    }
}

/// Decides what an event of the shortcut registered as `accel` does.
pub fn on_shortcut(accel: &str, state: ShortcutState) -> (effect: ShortcutEffect)
    ensures
        has_effect(accel@, state, effect),
{
    // Fire once, on key-down.
    if state == ShortcutState::Released {
        return ShortcutEffect::Ignore;
    }
    if same_text(accel, RECORDER_HOTKEY) {
        return ShortcutEffect::TogglePopover;
    }
    let mut i: usize = 0;
    while i < RECORDER_HOTKEYS.len()
        invariant
            i <= RECORDER_HOTKEYS@.len(),
            state is Pressed,
            forall|j: int| 0 <= j < i ==> #[trigger] accelerator(j) != accel@,
        decreases RECORDER_HOTKEYS@.len() - i,
    {
        if same_text(RECORDER_HOTKEYS[i].0, accel) {
            assert(accelerator(i as int) == accel@);
            return ShortcutEffect::Dispatch(RECORDER_HOTKEYS[i].1);
        }
        i += 1;
    }
    ShortcutEffect::Ignore
}

/// No two entries of the table share an accelerator, and none is the popover's hotkey.
pub proof fn law_accelerators_distinct(i: int, j: int)
    requires
        0 <= i < RECORDER_HOTKEYS@.len(),
        0 <= j < RECORDER_HOTKEYS@.len(),
    ensures
        accelerator(i) == accelerator(j) ==> i == j,
        accelerator(i) != RECORDER_HOTKEY@,
{
    reveal_accelerators();
    assert(accelerator(i)[12] == accelerator(j)[12] ==> i == j);
    assert(accelerator(i)[0] != RECORDER_HOTKEY@[0]);
}

/// No two entries of the table share an action.
pub proof fn law_actions_distinct(i: int, j: int)
    requires
        0 <= i < RECORDER_HOTKEYS@.len(),
        0 <= j < RECORDER_HOTKEYS@.len(),
    ensures
        action_name(i) == action_name(j) ==> i == j,
{
    reveal_actions();
    if action_name(i) == action_name(j) {
        assert(action_name(i).len() == action_name(j).len());
        assert(action_name(i)[0] == action_name(j)[0]);
        assert(action_name(i)[2] == action_name(j)[2]);
    }
}

/// No action has a name that could be mistaken for a flag.
pub proof fn law_action_names_are_no_flags(name: Seq<char>)
    requires
        name.len() > 0,
        name[0] == '-',
    ensures
        !is_recorder_action(name),
{
    reveal_actions();
}

/// Every recorder-control hotkey is `Ctrl+Shift+F` and the number of a function key.
pub proof fn law_accelerators_are_function_keys(i: int)
    requires
        0 <= i < RECORDER_HOTKEYS@.len(),
    ensures
        ({
            let accel = accelerator(i);
            let prefix = "Ctrl+Shift+F"@;
            &&& crate::text::starts_with(accel, prefix)
            &&& accel.len() > prefix.len()
            &&& forall|k: int| prefix.len() <= k < accel.len() ==> '0' <= #[trigger] accel[k] <= '9'
        }),
{
    reveal_accelerators();
    reveal_strlit("Ctrl+Shift+F");
    let accel = accelerator(i);
    assert(accel.subrange(0, 12) =~= "Ctrl+Shift+F"@);
}

/// An event has exactly one effect: two effects that both fit it are the same.
pub proof fn law_effect_unique(
    accel: Seq<char>,
    state: ShortcutState,
    a: ShortcutEffect,
    b: ShortcutEffect,
)
    requires
        has_effect(accel, state, a),
        has_effect(accel, state, b),
    ensures
        a is TogglePopover <==> b is TogglePopover,
        a is Ignore <==> b is Ignore,
        a matches ShortcutEffect::Dispatch(x) ==> (b matches ShortcutEffect::Dispatch(y) && x@
            == y@),
{
    assert forall|i: int| 0 <= i < RECORDER_HOTKEYS@.len() implies #[trigger] accelerator(i)
        != RECORDER_HOTKEY@ by {
        law_accelerators_distinct(i, i);
    }
    assert forall|i: int, j: int|
        0 <= i < RECORDER_HOTKEYS@.len() && 0 <= j < RECORDER_HOTKEYS@.len() && #[trigger]
        accelerator(i) == #[trigger] accelerator(j) implies i == j by {
        law_accelerators_distinct(i, j);
    }
}

/// Pressing the hotkey of an entry dispatches that entry's action; releasing it does nothing,
/// so one stroke of a key dispatches once.
pub proof fn law_one_dispatch_per_stroke(
    i: int,
    on_press: ShortcutEffect,
    on_release: ShortcutEffect,
)
    requires
        0 <= i < RECORDER_HOTKEYS@.len(),
        has_effect(accelerator(i), ShortcutState::Pressed, on_press),
        has_effect(accelerator(i), ShortcutState::Released, on_release),
    ensures
        on_press matches ShortcutEffect::Dispatch(action) && action@ == action_name(i),
        on_release is Ignore,
{
    assert(binds(accelerator(i), action_name(i)));
    law_effect_unique(
        accelerator(i),
        ShortcutState::Pressed,
        on_press,
        ShortcutEffect::Dispatch(RECORDER_HOTKEYS@[i].1),
    );
}

/// The recorder actions are these eight names and no others.
pub proof fn law_recorder_actions(name: Seq<char>)
    ensures
        is_recorder_action(name) <==> {
            ||| name == "start"@
            ||| name == "stop"@
            ||| name == "pause"@
            ||| name == "cancel"@
            ||| name == "new"@
            ||| name == "mic"@
            ||| name == "camera"@
            ||| name == "system-audio"@
        },
{
    assert(action_name(0) == "start"@);
    assert(action_name(1) == "stop"@);
    assert(action_name(2) == "pause"@);
    assert(action_name(3) == "cancel"@);
    assert(action_name(4) == "new"@);
    assert(action_name(5) == "mic"@);
    assert(action_name(6) == "camera"@);
    assert(action_name(7) == "system-audio"@);
}

/// The recorder-control hotkeys are these eight pairs of accelerator and action, and no others.
pub proof fn law_bindings(accel: Seq<char>, action: Seq<char>)
    ensures
        binds(accel, action) <==> {
            ||| accel == "Ctrl+Shift+F9"@ && action == "start"@
            ||| accel == "Ctrl+Shift+F10"@ && action == "stop"@
            ||| accel == "Ctrl+Shift+F8"@ && action == "pause"@
            ||| accel == "Ctrl+Shift+F7"@ && action == "cancel"@
            ||| accel == "Ctrl+Shift+F6"@ && action == "new"@
            ||| accel == "Ctrl+Shift+F5"@ && action == "mic"@
            ||| accel == "Ctrl+Shift+F4"@ && action == "camera"@
            ||| accel == "Ctrl+Shift+F3"@ && action == "system-audio"@
        },
{
    assert(accelerator(0) == "Ctrl+Shift+F9"@ && action_name(0) == "start"@);
    assert(accelerator(1) == "Ctrl+Shift+F10"@ && action_name(1) == "stop"@);
    assert(accelerator(2) == "Ctrl+Shift+F8"@ && action_name(2) == "pause"@);
    assert(accelerator(3) == "Ctrl+Shift+F7"@ && action_name(3) == "cancel"@);
    assert(accelerator(4) == "Ctrl+Shift+F6"@ && action_name(4) == "new"@);
    assert(accelerator(5) == "Ctrl+Shift+F5"@ && action_name(5) == "mic"@);
    assert(accelerator(6) == "Ctrl+Shift+F4"@ && action_name(6) == "camera"@);
    assert(accelerator(7) == "Ctrl+Shift+F3"@ && action_name(7) == "system-audio"@);
}

/// A name is known exactly where it is one of the eight action names.
pub proof fn law_known_actions(name: &str, known: bool)
    requires
        call_ensures(known_action, (name,), known),
    ensures
        known <==> {
            ||| name@ == "start"@
            ||| name@ == "stop"@
            ||| name@ == "pause"@
            ||| name@ == "cancel"@
            ||| name@ == "new"@
            ||| name@ == "mic"@
            ||| name@ == "camera"@
            ||| name@ == "system-audio"@
        },
{
    law_recorder_actions(name@);
}

/// What an event of a shortcut does, for every accelerator: a release nothing, a press of the
/// popover's hotkey toggles the popover, a press of a recorder-control hotkey dispatches the
/// action bound to it, and a press of anything else nothing.
pub proof fn law_shortcut_effects(accel: &str, state: ShortcutState, effect: ShortcutEffect)
    requires
        call_ensures(on_shortcut, (accel, state), effect),
    ensures
        state == ShortcutState::Released ==> effect is Ignore,
        effect is TogglePopover <==> state == ShortcutState::Pressed && accel@ == "Alt+Shift+R"@,
        forall|action: Seq<char>|
            (effect matches ShortcutEffect::Dispatch(name) && name@ == action) <==> state
                == ShortcutState::Pressed && #[trigger] binds(accel@, action),
{
    assert forall|action: Seq<char>|
        (effect matches ShortcutEffect::Dispatch(name) && name@ == action) <==> state
            == ShortcutState::Pressed && #[trigger] binds(accel@, action) by {
        if state == ShortcutState::Pressed && binds(accel@, action) {
            let i = choose|i: int|
                0 <= i < RECORDER_HOTKEYS@.len() && #[trigger] accelerator(i) == accel@
                    && action_name(i) == action;
            law_effect_unique(
                accel@,
                state,
                effect,
                ShortcutEffect::Dispatch(RECORDER_HOTKEYS@[i].1),
            );
        }
    }
    if state == ShortcutState::Pressed && accel@ == "Alt+Shift+R"@ {
        law_effect_unique(accel@, state, effect, ShortcutEffect::TogglePopover);
    }
}

proof fn reveal_accelerators()
    ensures
        forall|i: int|
            0 <= i < RECORDER_HOTKEYS@.len() ==> {
                &&& (#[trigger] accelerator(i)).len() == (if i == 1 { 14int } else { 13int })
                &&& accelerator(i)[0] == 'C' && accelerator(i)[1] == 't' && accelerator(i)[2] == 'r'
                &&& accelerator(i)[3] == 'l' && accelerator(i)[4] == '+' && accelerator(i)[5] == 'S'
                &&& accelerator(i)[6] == 'h' && accelerator(i)[7] == 'i' && accelerator(i)[8] == 'f'
                &&& accelerator(i)[9] == 't' && accelerator(i)[10] == '+' && accelerator(i)[11] == 'F'
                &&& i == 0 ==> accelerator(i)[12] == '9'
                &&& i == 1 ==> accelerator(i)[12] == '1' && accelerator(i)[13] == '0'
                &&& i == 2 ==> accelerator(i)[12] == '8'
                &&& i == 3 ==> accelerator(i)[12] == '7'
                &&& i == 4 ==> accelerator(i)[12] == '6'
                &&& i == 5 ==> accelerator(i)[12] == '5'
                &&& i == 6 ==> accelerator(i)[12] == '4'
                &&& i == 7 ==> accelerator(i)[12] == '3'
            },
        RECORDER_HOTKEY@[0] == 'A',
{
    reveal_strlit("Alt+Shift+R");
    reveal_strlit("Ctrl+Shift+F9");
    reveal_strlit("Ctrl+Shift+F10");
    reveal_strlit("Ctrl+Shift+F8");
    reveal_strlit("Ctrl+Shift+F7");
    reveal_strlit("Ctrl+Shift+F6");
    reveal_strlit("Ctrl+Shift+F5");
    reveal_strlit("Ctrl+Shift+F4");
    reveal_strlit("Ctrl+Shift+F3");
}

/// The length and the first and third letters of the action names: enough to tell them apart.
proof fn reveal_actions()
    ensures
        action_name(0).len() == 5 && action_name(0)[0] == 's' && action_name(0)[2] == 'a',
        action_name(1).len() == 4 && action_name(1)[0] == 's' && action_name(1)[2] == 'o',
        action_name(2).len() == 5 && action_name(2)[0] == 'p' && action_name(2)[2] == 'u',
        action_name(3).len() == 6 && action_name(3)[0] == 'c' && action_name(3)[2] == 'n',
        action_name(4).len() == 3 && action_name(4)[0] == 'n' && action_name(4)[2] == 'w',
        action_name(5).len() == 3 && action_name(5)[0] == 'm' && action_name(5)[2] == 'c',
        action_name(6).len() == 6 && action_name(6)[0] == 'c' && action_name(6)[2] == 'm',
        action_name(7).len() == 12 && action_name(7)[0] == 's' && action_name(7)[2] == 's',
{
    reveal_strlit("start");
    reveal_strlit("stop");
    reveal_strlit("pause");
    reveal_strlit("cancel");
    reveal_strlit("new");
    reveal_strlit("mic");
    reveal_strlit("camera");
    reveal_strlit("system-audio");
}

} // verus!
