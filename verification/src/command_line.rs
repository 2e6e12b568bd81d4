//! The command-line automation channel: `--action <name>` and `--action=<name>`.

use vstd::prelude::*;
use crate::hotkeys::known_action;
use crate::text::{same_text, strip_prefix};

verus! {

/// The flag whose next argument names an action.
pub const ACTION_FLAG: &'static str = "--action";

/// The start of an argument that names an action itself.
pub const ACTION_PREFIX: &'static str = "--action=";

/// The arguments as sequences of characters.
pub open spec fn words(argv: Seq<String>) -> Seq<Seq<char>> {
    Seq::new(argv.len(), |i: int| argv[i]@)
}

/// Whether `word` introduces an action name, in either form.
pub open spec fn is_action_flag(word: Seq<char>) -> bool {
    word == ACTION_FLAG@ || crate::text::starts_with(word, ACTION_PREFIX@)
}

/// Whether the argument at position `k` gives `value` to `--action`: as the word after the
/// flag, or behind `--action=`.
pub open spec fn gives_value(args: Seq<Seq<char>>, value: Seq<char>, k: int) -> bool {
    &&& 0 <= k < args.len()
    &&& args[k] == ACTION_PREFIX@ + value || (k > 0 && args[k - 1] == ACTION_FLAG@ && args[k]
        == value)
}

/// The values that the arguments give to `--action`, in order. The flag takes the argument
/// after it as its value, whatever that is; at the end of the line it has none.
pub open spec fn action_values(args: Seq<Seq<char>>) -> Seq<Seq<char>>
    decreases args.len(),
{
    if args.len() == 0 {
        Seq::empty()
    } else if crate::text::starts_with(args[0], ACTION_PREFIX@) {
        seq![crate::text::after(args[0], ACTION_PREFIX@.len())] + action_values(args.skip(1))
    } else if args[0] == ACTION_FLAG@ {
        if args.len() == 1 {
            Seq::empty()
        } else {
            seq![args[1]] + action_values(args.skip(2))
        }
    } else {
        action_values(args.skip(1))
    }
}

/// Whether position `i` holds the first recorder action among `values`.
pub open spec fn first_action_at(values: Seq<Seq<char>>, i: int) -> bool {
    &&& 0 <= i < values.len()
    &&& crate::hotkeys::is_recorder_action(values[i])
    &&& forall|j: int| 0 <= j < i ==> !crate::hotkeys::is_recorder_action(#[trigger] values[j])
}

/// The action that the arguments ask for: the first value of `--action` that names a
/// recorder action.
pub open spec fn requested_action(args: Seq<Seq<char>>) -> Option<Seq<char>> {
    let values = action_values(args);
    if exists|i: int| first_action_at(values, i) {
        Some(values[choose|i: int| first_action_at(values, i)])
    } else {
        None
    }
}

/// Parses `--action <name>` / `--action=<name>` out of a forwarded command line, accepting
/// only known recorder actions so a stray argument can't emit garbage.
pub fn recorder_action_from_argv(argv: &[String]) -> (action: Option<String>)
    ensures
        action is Some <==> requested_action(words(argv@)) is Some,
        action matches Some(name) ==> requested_action(words(argv@)) == Some(name@),
{
    let ghost args = words(argv@);
    let ghost mut seen: Seq<Seq<char>> = Seq::empty();
    let mut i: usize = 0;
    assert(args.skip(0) =~= args);
    assert(seen + action_values(args) =~= action_values(args));
    while i < argv.len()
        invariant
            i <= argv@.len(),
            args == words(argv@),
            action_values(args) == seen + action_values(args.skip(i as int)),
            forall|j: int|
                0 <= j < seen.len() ==> !crate::hotkeys::is_recorder_action(#[trigger] seen[j]),
        decreases argv@.len() - i,
    {
        let arg: &str = argv[i].as_str();
        let ghost rest = args.skip(i as int);
        assert(rest[0] == arg@);
        assert(rest.skip(1) =~= args.skip(i + 1));
        i += 1;
        let candidate: Option<&str> = match strip_prefix(arg, ACTION_PREFIX) {
            Some(value) => Some(value),
            None => {
                if same_text(arg, ACTION_FLAG) && i < argv.len() {
                    assert(rest.skip(2) =~= args.skip(i + 1));
                    i += 1;
                    Some(argv[i - 1].as_str())
                } else {
                    assert(rest.len() == 1 ==> rest.skip(1) =~= Seq::empty());
                    None
                }
            },
        };
        if let Some(value) = candidate {
            proof {
                assert(action_values(rest) == seq![value@] + action_values(args.skip(i as int)));
                assert(action_values(args) =~= seen.push(value@) + action_values(
                    args.skip(i as int),
                ));
                seen = seen.push(value@);
            }
            if known_action(value) {
                proof {
                    let values = action_values(args);
                    let at = seen.len() - 1;
                    assert forall|j: int| 0 <= j < at implies !crate::hotkeys::is_recorder_action(
                        #[trigger] values[j],
                    ) by {
                        assert(values[j] == seen[j]);
                    }
                    assert(first_action_at(values, at));
                    lemma_first_action_unique(values, at);
                }
                return Some(value.to_string());
            }
        }
    }
    proof {
        assert(args.skip(i as int) =~= Seq::empty());
        assert(action_values(args) =~= seen);
    }
    None
}

/// What a second launch of the application asks the running one to do.
#[derive(Debug)]
pub enum LaunchRequest {
    /// Hand this action name to the recorder, as a hotkey would.
    Dispatch(String),
    /// Show the recorder popover.
    ShowRecorder,
}

/// Decides what the command line of a second launch does in the running application.
pub fn on_second_launch(argv: &[String]) -> (request: LaunchRequest)
    ensures
        match request {
            LaunchRequest::Dispatch(name) => requested_action(words(argv@)) == Some(name@),
            LaunchRequest::ShowRecorder => requested_action(words(argv@)) is None,
        },
{
    match recorder_action_from_argv(argv) {
        Some(action) => LaunchRequest::Dispatch(action),
        None => LaunchRequest::ShowRecorder,
    }
}

/// The words of a command line are its arguments, each in full and at its own position.
pub proof fn law_words_are_the_arguments(argv: Seq<String>)
    ensures
        words(argv).len() == argv.len(),
        forall|i: int| 0 <= i < argv.len() ==> #[trigger] words(argv)[i] == argv[i]@,
{
}

/// An empty command line, and one that is a bare `--action` only, ask for nothing.
pub proof fn law_no_value_no_action(argv: &[String], out: Option<String>)
    requires
        call_ensures(recorder_action_from_argv, (argv,), out),
        argv@.len() == 0 || (argv@.len() == 1 && argv@[0]@ == "--action"@),
    ensures
        out is None,
{
    let args = words(argv@);
    reveal_strlit("--action");
    reveal_strlit("--action=");
    assert(action_values(args) =~= Seq::empty());
}

/// A first argument that is not the flag, in either form, makes no difference, whatever it is:
/// the command line asks for what its other arguments ask for.
pub proof fn law_other_first_argument(
    argv: &[String],
    rest: &[String],
    out: Option<String>,
    out_of_rest: Option<String>,
)
    requires
        call_ensures(recorder_action_from_argv, (argv,), out),
        call_ensures(recorder_action_from_argv, (rest,), out_of_rest),
        argv@.len() > 0,
        rest@ == argv@.skip(1),
        argv@[0]@ != "--action"@,
        forall|value: Seq<char>| argv@[0]@ != #[trigger] ("--action="@ + value),
    ensures
        out is Some <==> out_of_rest is Some,
        out is Some ==> out->0@ == out_of_rest->0@,
{
    let args = words(argv@);
    let first = argv@[0]@;
    assert(args[0] == first);
    if crate::text::starts_with(first, ACTION_PREFIX@) {
        assert(first =~= "--action="@ + crate::text::after(first, ACTION_PREFIX@.len()));
    }
    assert(args.skip(1) =~= words(rest@));
    assert(action_values(args) == action_values(words(rest@)));
}

/// A first argument that gives a value to the flag, in either form, decides where the value is
/// a recorder action; otherwise the arguments after the value decide.
pub proof fn law_first_value(
    argv: &[String],
    rest: &[String],
    value: Seq<char>,
    out: Option<String>,
    out_of_rest: Option<String>,
)
    requires
        call_ensures(recorder_action_from_argv, (argv,), out),
        call_ensures(recorder_action_from_argv, (rest,), out_of_rest),
        ({
            ||| argv@.len() > 1 && argv@[0]@ == "--action"@ && argv@[1]@ == value && rest@
                == argv@.skip(2)
            ||| argv@.len() > 0 && argv@[0]@ == "--action="@ + value && rest@ == argv@.skip(1)
        }),
    ensures
        crate::hotkeys::is_recorder_action(value) ==> (out matches Some(name) && name@ == value),
        !crate::hotkeys::is_recorder_action(value) ==> (out is Some <==> out_of_rest is Some),
        !crate::hotkeys::is_recorder_action(value) && out is Some ==> out->0@ == out_of_rest->0@,
{
    let args = words(argv@);
    let following = words(rest@);
    reveal_strlit("--action");
    reveal_strlit("--action=");
    let none = Seq::<Seq<char>>::empty();
    assert(action_values(none) =~= none);
    lemma_forms(none, value, following);
    if argv@[0]@ == "--action="@ + value && rest@ == argv@.skip(1) {
        assert(args =~= none + seq![ACTION_PREFIX@ + value] + following);
    } else {
        assert(args =~= none + seq![ACTION_FLAG@, value] + following);
    }
    let values = action_values(args);
    assert(values =~= seq![value] + action_values(following));
    if crate::hotkeys::is_recorder_action(value) {
        assert(first_action_at(values, 0));
        lemma_first_action_unique(values, 0);
    } else {
        lemma_unknown_values(none, seq![value], action_values(following));
        assert(none + seq![value] + action_values(following) =~= values);
        assert(none + action_values(following) =~= action_values(following));
    }
}

/// Where no argument before it is the flag, the first flag decides: a recorder action that it
/// names is the one that is asked for, whatever the program's name, the other arguments before
/// it and those that follow.
pub proof fn law_first_flag_decides(argv: &[String], k: int, name: Seq<char>, out: Option<String>)
    requires
        call_ensures(recorder_action_from_argv, (argv,), out),
        0 <= k < argv@.len(),
        forall|j: int| 0 <= j < k ==> (#[trigger] argv@[j])@ != "--action"@,
        forall|j: int, value: Seq<char>|
            0 <= j < k ==> (#[trigger] argv@[j])@ != #[trigger] ("--action="@ + value),
        argv@[k]@ == "--action="@ + name || (k + 1 < argv@.len() && argv@[k]@ == "--action"@
            && argv@[k + 1]@ == name),
        crate::hotkeys::is_recorder_action(name),
    ensures
        out matches Some(found) && found@ == name,
{
    let args = words(argv@);
    let before = args.subrange(0, k);
    assert forall|j: int| 0 <= j < before.len() implies !is_action_flag(#[trigger] before[j]) by {
        let word = argv@[j]@;
        assert(before[j] == word);
        if crate::text::starts_with(word, ACTION_PREFIX@) {
            assert(word =~= "--action="@ + crate::text::after(word, ACTION_PREFIX@.len()));
        }
    }
    assert forall|j: int| 0 <= j < before.len() implies #[trigger] before[j] != ACTION_FLAG@ by {
        assert(!is_action_flag(before[j]));
    }
    law_missing_action_requests_nothing(before);
    let len = args.len() as int;
    if argv@[k]@ == "--action="@ + name {
        let following = args.subrange(k + 1, len);
        law_both_forms_accepted(before, name, following);
        assert(args =~= before + seq![ACTION_PREFIX@ + name] + following);
    } else {
        let following = args.subrange(k + 2, len);
        law_both_forms_accepted(before, name, following);
        assert(args =~= before + seq![ACTION_FLAG@, name] + following);
    }
}

/// What is found is a recorder action, and it stands in the command line: behind `--action=`,
/// or as the argument after `--action`.
pub proof fn law_found_action_was_given(argv: &[String], out: Option<String>)
    requires
        call_ensures(recorder_action_from_argv, (argv,), out),
    ensures
        out matches Some(name) ==> {
            &&& crate::hotkeys::is_recorder_action(name@)
            &&& exists|k: int|
                0 <= k < argv@.len() && ((#[trigger] argv@[k])@ == "--action="@ + name@ || (k > 0
                    && argv@[k - 1]@ == "--action"@ && argv@[k]@ == name@))
        },
{
    if let Some(name) = out {
        let args = words(argv@);
        law_requests_stand_in_arguments(args);
        let k = choose|k: int| gives_value(args, name@, k);
        assert(argv@[k]@ == args[k]);
        if k > 0 {
            assert(argv@[k - 1]@ == args[k - 1]);
        }
    }
}

/// A second launch dispatches exactly the action that its command line asks for, and shows the
/// recorder exactly where it asks for none.
pub proof fn law_second_launch(argv: &[String], asked: Option<String>, request: LaunchRequest)
    requires
        call_ensures(recorder_action_from_argv, (argv,), asked),
        call_ensures(on_second_launch, (argv,), request),
    ensures
        request is ShowRecorder <==> asked is None,
        request matches LaunchRequest::Dispatch(action) ==> (asked matches Some(name) && action@
            == name@),
{
}

/// Only recorder actions are requested: what a command line can dispatch, pressing some hotkey
/// dispatches too.
pub proof fn law_requests_are_hotkey_actions(args: Seq<Seq<char>>)
    ensures
        requested_action(args) matches Some(name) ==> {
            &&& crate::hotkeys::is_recorder_action(name)
            &&& exists|accel: Seq<char>| #[trigger] crate::hotkeys::binds(accel, name)
        },
{
    if let Some(name) = requested_action(args) {
        let i = choose|i: int|
            0 <= i < crate::hotkeys::RECORDER_HOTKEYS@.len() && #[trigger]
            crate::hotkeys::action_name(i) == name;
        assert(crate::hotkeys::binds(crate::hotkeys::accelerator(i), name));
    }
}

/// A requested action stands in the arguments: as the word after `--action`, or behind
/// `--action=`.
pub proof fn law_requests_stand_in_arguments(args: Seq<Seq<char>>)
    ensures
        requested_action(args) matches Some(name) ==> exists|k: int| gives_value(args, name, k),
{
    if let Some(name) = requested_action(args) {
        let values = action_values(args);
        let i = choose|i: int| first_action_at(values, i);
        lemma_value_stands_in_arguments(args, i);
    }
}

/// The two forms of the flag mean the same: whatever the value, whatever follows, and whatever
/// stands before but a bare `--action`, which could take the flag as its own value.
pub proof fn law_both_forms_agree(
    before: Seq<Seq<char>>,
    value: Seq<char>,
    following: Seq<Seq<char>>,
)
    requires
        forall|k: int| 0 <= k < before.len() ==> #[trigger] before[k] != ACTION_FLAG@,
    ensures
        requested_action(before + seq![ACTION_FLAG@, value] + following) == requested_action(
            before + seq![ACTION_PREFIX@ + value] + following,
        ),
{
    lemma_forms(before, value, following);
}

/// Both forms of the flag are accepted for every recorder action, whatever follows, and
/// whatever stands before that asks for nothing itself and holds no bare `--action`.
pub proof fn law_both_forms_accepted(
    before: Seq<Seq<char>>,
    name: Seq<char>,
    following: Seq<Seq<char>>,
)
    requires
        forall|k: int| 0 <= k < before.len() ==> #[trigger] before[k] != ACTION_FLAG@,
        requested_action(before) is None,
        crate::hotkeys::is_recorder_action(name),
    ensures
        requested_action(before + seq![ACTION_FLAG@, name] + following) == Some(name),
        requested_action(before + seq![ACTION_PREFIX@ + name] + following) == Some(name),
{
    lemma_forms(before, name, following);
    let values = action_values(before);
    let all = values + (seq![name] + action_values(following));
    lemma_no_action(values);
    assert forall|j: int| 0 <= j < values.len() implies !crate::hotkeys::is_recorder_action(
        #[trigger] all[j],
    ) by {
        assert(all[j] == values[j]);
    }
    assert(all[values.len() as int] == name);
    assert(first_action_at(all, values.len() as int));
    lemma_first_action_unique(all, values.len() as int);
}

/// Arguments without the flag ask for nothing.
pub proof fn law_missing_action_requests_nothing(args: Seq<Seq<char>>)
    requires
        forall|k: int| 0 <= k < args.len() ==> !is_action_flag(#[trigger] args[k]),
    ensures
        requested_action(args) is None,
{
    assert(args + Seq::<Seq<char>>::empty() =~= args);
    lemma_stray_arguments(args, Seq::empty());
}

/// A bare `--action` at the end of the line makes no difference: it has no value, and it names
/// no action where it is itself the value of a flag before it.
pub proof fn law_trailing_flag_ignored(args: Seq<Seq<char>>)
    ensures
        requested_action(args + seq![ACTION_FLAG@]) == requested_action(args),
{
    let values = action_values(args);
    let all = action_values(args + seq![ACTION_FLAG@]);
    lemma_trailing_flag(args);
    if all != values {
        reveal_strlit("--action");
        crate::hotkeys::law_action_names_are_no_flags(ACTION_FLAG@);
        lemma_unknown_values(values, seq![ACTION_FLAG@], Seq::empty());
        assert(values + seq![ACTION_FLAG@] + Seq::<Seq<char>>::empty() =~= all);
        assert(values + Seq::<Seq<char>>::empty() =~= values);
    }
}

/// Arguments that stand before the others make no difference where they ask for nothing
/// themselves and hold no bare `--action`.
pub proof fn law_stray_arguments_ignored(before: Seq<Seq<char>>, args: Seq<Seq<char>>)
    requires
        forall|k: int| 0 <= k < before.len() ==> #[trigger] before[k] != ACTION_FLAG@,
        requested_action(before) is None,
    ensures
        requested_action(before + args) == requested_action(args),
{
    lemma_values_split(before, args);
    lemma_no_action(action_values(before));
    lemma_unknown_values(Seq::empty(), action_values(before), action_values(args));
    assert(Seq::<Seq<char>>::empty() + action_values(before) + action_values(args)
        =~= action_values(before) + action_values(args));
    assert(Seq::<Seq<char>>::empty() + action_values(args) =~= action_values(args));
}

/// A name that is no recorder action is passed over, in both forms: what is asked for is what
/// the other arguments ask for, if no bare `--action` stands before it.
pub proof fn law_unknown_action_skipped(
    before: Seq<Seq<char>>,
    name: Seq<char>,
    following: Seq<Seq<char>>,
)
    requires
        forall|k: int| 0 <= k < before.len() ==> #[trigger] before[k] != ACTION_FLAG@,
        !crate::hotkeys::is_recorder_action(name),
    ensures
        requested_action(before + seq![ACTION_FLAG@, name] + following) == requested_action(
            before + following,
        ),
        requested_action(before + seq![ACTION_PREFIX@ + name] + following) == requested_action(
            before + following,
        ),
{
    lemma_forms(before, name, following);
    lemma_values_split(before, following);
    lemma_unknown_values(action_values(before), seq![name], action_values(following));
    assert(action_values(before) + seq![name] + action_values(following) =~= action_values(before)
        + (seq![name] + action_values(following)));
}

/// The first action wins: arguments added after a request do not change it.
pub proof fn law_first_action_wins(args: Seq<Seq<char>>, more: Seq<Seq<char>>)
    requires
        requested_action(args) is Some,
    ensures
        requested_action(args + more) == requested_action(args),
{
    let values = action_values(args);
    let all = action_values(args + more);
    lemma_values_extend(args, more);
    let i = choose|i: int| first_action_at(values, i);
    lemma_first_action_unique(values, i);
    assert forall|j: int| 0 <= j < i implies !crate::hotkeys::is_recorder_action(
        #[trigger] all[j],
    ) by {
        assert(values[j] == all[j]);
    }
    assert(first_action_at(all, i));
    lemma_first_action_unique(all, i);
}

proof fn lemma_stray_arguments(before: Seq<Seq<char>>, args: Seq<Seq<char>>)
    requires
        forall|k: int| 0 <= k < before.len() ==> !is_action_flag(#[trigger] before[k]),
    ensures
        action_values(before + args) == action_values(args),
    decreases before.len(),
{
    if before.len() == 0 {
        assert(before + args =~= args);
    } else {
        assert((before + args)[0] == before[0]);
        assert((before + args).skip(1) =~= before.skip(1) + args);
        lemma_stray_arguments(before.skip(1), args);
    }
}

proof fn lemma_value_stands_in_arguments(args: Seq<Seq<char>>, i: int)
    requires
        0 <= i < action_values(args).len(),
    ensures
        exists|k: int| gives_value(args, action_values(args)[i], k),
    decreases args.len(),
{
    let value = action_values(args)[i];
    if crate::text::starts_with(args[0], ACTION_PREFIX@) {
        if i == 0 {
            assert(args[0] =~= ACTION_PREFIX@ + value);
            assert(gives_value(args, value, 0));
        } else {
            lemma_value_stands_in_arguments(args.skip(1), i - 1);
            let k = choose|k: int| gives_value(args.skip(1), value, k);
            assert(gives_value(args, value, k + 1));
        }
    } else if args[0] == ACTION_FLAG@ {
        if i == 0 {
            assert(gives_value(args, value, 1));
        } else {
            lemma_value_stands_in_arguments(args.skip(2), i - 1);
            let k = choose|k: int| gives_value(args.skip(2), value, k);
            assert(gives_value(args, value, k + 2));
        }
    } else {
        lemma_value_stands_in_arguments(args.skip(1), i);
        let k = choose|k: int| gives_value(args.skip(1), value, k);
        assert(gives_value(args, value, k + 1));
    }
}

/// The values of two parts of a command line are those of the whole, where the first part
/// holds no bare flag that could reach into the second.
proof fn lemma_values_split(before: Seq<Seq<char>>, args: Seq<Seq<char>>)
    requires
        forall|k: int| 0 <= k < before.len() ==> #[trigger] before[k] != ACTION_FLAG@,
    ensures
        action_values(before + args) == action_values(before) + action_values(args),
    decreases before.len(),
{
    if before.len() == 0 {
        assert(before + args =~= args);
        assert(action_values(before) + action_values(args) =~= action_values(args));
    } else {
        assert((before + args)[0] == before[0]);
        assert((before + args).skip(1) =~= before.skip(1) + args);
        lemma_values_split(before.skip(1), args);
        assert(action_values(before + args) =~= action_values(before) + action_values(args));
    }
}

/// Either form of the flag adds its value between the values of what stands before and after.
proof fn lemma_forms(before: Seq<Seq<char>>, value: Seq<char>, following: Seq<Seq<char>>)
    requires
        forall|k: int| 0 <= k < before.len() ==> #[trigger] before[k] != ACTION_FLAG@,
    ensures
        action_values(before + seq![ACTION_FLAG@, value] + following) == action_values(before) + (
        seq![value] + action_values(following)),
        action_values(before + seq![ACTION_PREFIX@ + value] + following) == action_values(before)
            + (seq![value] + action_values(following)),
{
    reveal_strlit("--action");
    reveal_strlit("--action=");
    let spaced = seq![ACTION_FLAG@, value] + following;
    assert(!crate::text::starts_with(ACTION_FLAG@, ACTION_PREFIX@));
    assert(spaced.skip(2) =~= following);
    assert(action_values(spaced) =~= seq![value] + action_values(following));
    assert(before + seq![ACTION_FLAG@, value] + following =~= before + spaced);
    lemma_values_split(before, spaced);

    let joined = seq![ACTION_PREFIX@ + value] + following;
    assert((ACTION_PREFIX@ + value).subrange(0, ACTION_PREFIX@.len() as int) =~= ACTION_PREFIX@);
    assert(crate::text::after(ACTION_PREFIX@ + value, ACTION_PREFIX@.len()) =~= value);
    assert(joined.skip(1) =~= following);
    assert(action_values(joined) =~= seq![value] + action_values(following));
    assert(before + seq![ACTION_PREFIX@ + value] + following =~= before + joined);
    lemma_values_split(before, joined);
}

/// A bare flag at the end adds no value, or itself as the value of the flag before it.
proof fn lemma_trailing_flag(args: Seq<Seq<char>>)
    ensures
        ({
            let all = action_values(args + seq![ACTION_FLAG@]);
            all == action_values(args) || all == action_values(args).push(ACTION_FLAG@)
        }),
    decreases args.len(),
{
    let whole = args + seq![ACTION_FLAG@];
    let all = action_values(whole);
    reveal_strlit("--action");
    reveal_strlit("--action=");
    if args.len() == 0 {
        assert(whole[0] == ACTION_FLAG@);
        assert(!crate::text::starts_with(ACTION_FLAG@, ACTION_PREFIX@));
        assert(all =~= action_values(args));
    } else {
        assert(whole[0] == args[0]);
        assert(whole.skip(1) =~= args.skip(1) + seq![ACTION_FLAG@]);
        if crate::text::starts_with(args[0], ACTION_PREFIX@) {
            lemma_trailing_flag(args.skip(1));
            let first = seq![crate::text::after(args[0], ACTION_PREFIX@.len())];
            let rest = action_values(args.skip(1));
            assert(first + rest.push(ACTION_FLAG@) =~= (first + rest).push(ACTION_FLAG@));
        } else if args[0] == ACTION_FLAG@ {
            if args.len() == 1 {
                assert(whole[1] == ACTION_FLAG@);
                assert(action_values(whole.skip(2)) =~= Seq::empty());
                assert(action_values(args) =~= Seq::empty());
                assert(all =~= action_values(args).push(ACTION_FLAG@));
            } else {
                assert(whole[1] == args[1]);
                assert(whole.skip(2) =~= args.skip(2) + seq![ACTION_FLAG@]);
                lemma_trailing_flag(args.skip(2));
                let first = seq![args[1]];
                let rest = action_values(args.skip(2));
                assert(first + rest.push(ACTION_FLAG@) =~= (first + rest).push(ACTION_FLAG@));
            }
        } else {
            lemma_trailing_flag(args.skip(1));
        }
    }
}

/// Where no value is a first action, none is an action.
proof fn lemma_no_action(values: Seq<Seq<char>>)
    requires
        !exists|i: int| first_action_at(values, i),
    ensures
        forall|j: int|
            0 <= j < values.len() ==> !crate::hotkeys::is_recorder_action(#[trigger] values[j]),
    decreases values.len(),
{
    if values.len() > 0 {
        let init = values.drop_last();
        assert forall|i: int| !first_action_at(init, i) by {
            if first_action_at(init, i) {
                assert forall|j: int| 0 <= j < i implies !crate::hotkeys::is_recorder_action(
                    #[trigger] values[j],
                ) by {
                    assert(init[j] == values[j]);
                }
                assert(first_action_at(values, i));
            }
        }
        lemma_no_action(init);
        assert forall|j: int| 0 <= j < values.len() - 1 implies !crate::hotkeys::is_recorder_action(
            #[trigger] values[j],
        ) by {
            assert(init[j] == values[j]);
        }
        assert(!first_action_at(values, values.len() - 1));
    }
}

proof fn lemma_values_extend(args: Seq<Seq<char>>, more: Seq<Seq<char>>)
    ensures
        action_values(args).len() <= action_values(args + more).len(),
        forall|i: int|
            0 <= i < action_values(args).len() ==> #[trigger] action_values(args)[i]
                == action_values(args + more)[i],
    decreases args.len(),
{
    if args.len() > 0 {
        let all = args + more;
        assert(all[0] == args[0]);
        assert(all.skip(1) =~= args.skip(1) + more);
        if crate::text::starts_with(args[0], ACTION_PREFIX@) {
            lemma_values_extend(args.skip(1), more);
        } else if args[0] == ACTION_FLAG@ {
            if args.len() > 1 {
                assert(all[1] == args[1]);
                assert(all.skip(2) =~= args.skip(2) + more);
                lemma_values_extend(args.skip(2), more);
            }
        } else {
            lemma_values_extend(args.skip(1), more);
        }
    }
}

/// Values that are no recorder actions do not change which one comes first.
proof fn lemma_unknown_values(a: Seq<Seq<char>>, unknown: Seq<Seq<char>>, b: Seq<Seq<char>>)
    requires
        forall|j: int|
            0 <= j < unknown.len() ==> !crate::hotkeys::is_recorder_action(#[trigger] unknown[j]),
    ensures
        ({
            let all = a + unknown + b;
            let known = a + b;
            &&& (exists|i: int| first_action_at(all, i)) <==> (exists|i: int|
                first_action_at(known, i))
            &&& forall|i: int, k: int|
                #[trigger] first_action_at(all, i) && #[trigger] first_action_at(known, k)
                    ==> all[i] == known[k]
        }),
{
    let all = a + unknown + b;
    let known = a + b;
    let n = a.len();
    let u = unknown.len();
    assert forall|j: int| 0 <= j < n implies all[j] == #[trigger] known[j] by {}
    assert forall|j: int| n <= j < known.len() implies all[j + u] == #[trigger] known[j] by {}
    assert forall|j: int| n <= j < n + u implies !crate::hotkeys::is_recorder_action(
        #[trigger] all[j],
    ) by {
        assert(all[j] == unknown[j - n]);
    }
    assert forall|k: int| first_action_at(known, k) implies first_action_at(
        all,
        if k < n {
            k
        } else {
            k + u
        },
    ) by {
        let at = if k < n {
            k
        } else {
            k + u
        };
        assert(all[at] == known[k]);
        assert forall|j: int| 0 <= j < at implies !crate::hotkeys::is_recorder_action(
            #[trigger] all[j],
        ) by {
            if j < n {
                assert(all[j] == known[j]);
            } else if j >= n + u {
                assert(all[j] == known[j - u]);
            }
        }
    }
    assert forall|i: int| first_action_at(all, i) implies first_action_at(
        known,
        if i < n {
            i
        } else {
            i - u
        },
    ) by {
        let at = if i < n {
            i
        } else {
            i - u
        };
        assert(!(n <= i < n + u));
        assert(all[i] == known[at]);
        assert forall|j: int| 0 <= j < at implies !crate::hotkeys::is_recorder_action(
            #[trigger] known[j],
        ) by {
            if j < n {
                assert(all[j] == known[j]);
            } else {
                assert(all[j + u] == known[j]);
            }
        }
    }
    assert forall|i: int, k: int|
        #[trigger] first_action_at(all, i) && #[trigger] first_action_at(known, k) implies all[i]
        == known[k] by {
        lemma_first_action_unique(known, k);
        let at = if i < n {
            i
        } else {
            i - u
        };
        assert(first_action_at(known, at));
        assert(!(n <= i < n + u));
        assert(all[i] == known[at]);
    }
}

proof fn lemma_first_action_unique(values: Seq<Seq<char>>, i: int)
    requires
        first_action_at(values, i),
    ensures
        forall|k: int| first_action_at(values, k) ==> k == i,
{
    assert forall|k: int| first_action_at(values, k) implies k == i by {
        if k < i {
            assert(!crate::hotkeys::is_recorder_action(values[k]));
        } else if i < k {
            assert(!crate::hotkeys::is_recorder_action(values[i]));
        }
    }
}

} // verus!
