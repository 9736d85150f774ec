//! Processes: how records and command lines are read.

use vstd::prelude::*;

use crate::process::{
    ProcessIdentity, WaybarPidRecord, arguments, basename, identity_of, is_popup_cmdline,
    is_recorded_waybar, is_waybar_cmdline, last_close, popup_status, shows_file, stat_start_time,
    step_for, waybar_record_of,
};
use crate::text::{number_of, path_name, words};

verus! {

/// A record is two numbers, a pid and a start time, and nothing else; an identity may
/// be followed by more.
pub proof fn law_records_are_two_numbers(text: Seq<char>)
    ensures
        ({
            let found = words(text);
            let numbers = found.len() >= 2 && number_of(found[0]) is Some && number_of(
                found[1],
            ) is Some && number_of(found[0])->Some_0 <= u32::MAX && number_of(found[1])->Some_0
                <= u64::MAX;
            &&& waybar_record_of(text) is Some <==> numbers && found.len() == 2
            &&& waybar_record_of(text) is Some ==> waybar_record_of(text)->Some_0.pid as nat
                == number_of(found[0])->Some_0 && waybar_record_of(text)->Some_0.start_time as nat
                == number_of(found[1])->Some_0
            &&& identity_of(text) is Some <==> numbers
            &&& identity_of(text) is Some ==> identity_of(text)->Some_0.pid as nat == number_of(
                found[0],
            )->Some_0 && identity_of(text)->Some_0.start_time_ticks as nat == number_of(
                found[1],
            )->Some_0
        }),
{
}

proof fn lemma_last_close(before: Seq<char>, rest: Seq<char>)
    requires
        forall|i: int|
            0 <= i < rest.len() - 1 ==> !(#[trigger] rest[i] == ')' && rest[i + 1] == ' '),
    ensures
        last_close(before + seq![')', ' '] + rest) == Some(before.len() as int),
    decreases rest.len(),
{
    let text = before + seq![')', ' '] + rest;
    if rest.len() == 0 {
        assert(text =~= before + seq![')', ' ']);
    } else {
        let n = text.len() as int;
        if rest.len() >= 2 {
            assert(text[n - 1] == rest[rest.len() - 1]);
            assert(text[n - 2] == rest[rest.len() - 2]);
            assert(!(rest[rest.len() - 2] == ')' && rest[rest.len() - 2 + 1] == ' '));
        } else {
            assert(text[n - 2] == ' ');
        }
        let shorter = rest.drop_last();
        assert(text.drop_last() =~= before + seq![')', ' '] + shorter);
        assert forall|i: int| 0 <= i < shorter.len() - 1 implies !(#[trigger] shorter[i] == ')'
            && shorter[i + 1] == ' ') by {
            assert(rest[i] == shorter[i] && rest[i + 1] == shorter[i + 1]);
        }
        lemma_last_close(before, shorter);
    }
}

/// The start time of a process is the twentieth word behind the last bracket that
/// closes its name, whatever the name holds.
pub proof fn law_start_times(before: Seq<char>, rest: Seq<char>)
    requires
        forall|i: int|
            0 <= i < rest.len() - 1 ==> !(#[trigger] rest[i] == ')' && rest[i + 1] == ' '),
    ensures
        ({
            let start = stat_start_time(before + seq![')', ' '] + rest);
            let fields = words(rest);
            &&& start is Some <==> fields.len() >= 20 && number_of(fields[19]) is Some && number_of(
                fields[19],
            )->Some_0 <= u64::MAX
            &&& start is Some ==> start->Some_0 as nat == number_of(fields[19])->Some_0
        }),
{
    lemma_last_close(before, rest);
    let text = before + seq![')', ' '] + rest;
    assert(text.skip(before.len() as int + 2) =~= rest);
}

/// A number is read digit by digit, with a plus sign before it or not; anything else is
/// no number.
pub proof fn law_numbers(digits: Seq<char>, digit: char)
    requires
        digits.len() > 0,
        forall|i: int| 0 <= i < digits.len() ==> '0' <= #[trigger] digits[i] <= '9',
    ensures
        number_of(digits) is Some,
        '0' <= digit <= '9' ==> number_of(seq![digit]) == Some((digit as u32 - '0' as u32) as nat),
        '0' <= digit <= '9' ==> number_of(digits.push(digit)) == Some(
            (10 * number_of(digits)->Some_0 + (digit as u32 - '0' as u32)) as nat,
        ),
        number_of(seq!['+'] + digits) == number_of(digits),
        !('0' <= digit <= '9') ==> number_of(digits.push(digit)) is None,
        number_of(Seq::empty()) is None,
{
    assert(crate::text::all_digits(digits)) by {
        assert forall|i: int| 0 <= i < digits.len() implies crate::text::is_digit(
            #[trigger] digits[i],
        ) by {}
    }
    let longer = digits.push(digit);
    assert(longer.drop_last() =~= digits);
    assert(longer[0] == digits[0]);
    assert('0' <= digits[0] <= '9');
    assert(longer[digits.len() as int] == digit);
    let signed = seq!['+'] + digits;
    assert(signed[0] == '+');
    assert(signed.drop_first() =~= digits);
    reveal_with_fuel(crate::text::digits_value, 2);
    assert(seq![digit].drop_last() =~= Seq::empty());
    if '0' <= digit <= '9' {
        assert forall|i: int| 0 <= i < longer.len() implies crate::text::is_digit(
            #[trigger] longer[i],
        ) by {
            if i < digits.len() {
                assert(longer[i] == digits[i]);
            }
        }
        assert(seq![digit][0] == digit);
    }
}

/// Words are what white space separates.
pub proof fn law_words(word: Seq<char>, space: char, rest: Seq<char>)
    requires
        word.len() > 0,
        forall|i: int|
            0 <= i < word.len() ==> !crate::text::is_white_space(#[trigger] word[i]),
        crate::text::is_white_space(space),
    ensures
        words(seq![space] + rest) == words(rest),
        words(word + (seq![space] + rest)) == seq![word] + words(rest),
        words(word) == seq![word],
        words(Seq::empty()).len() == 0,
{
    let tail = seq![space] + rest;
    assert(tail.drop_first() =~= rest);
    let text = word + tail;
    lemma_word_is(word, tail);
    lemma_word_is(word, Seq::empty());
    assert(word + Seq::<char>::empty() =~= word);
    assert(text[0] == word[0]);
    assert(text.take(word.len() as int) =~= word);
    assert(text.skip(word.len() as int) =~= tail);
    assert(word.take(word.len() as int) =~= word);
    assert(word.skip(word.len() as int) =~= Seq::empty());
    assert(words(text) =~= seq![word] + words(tail));
    assert(words(word) =~= seq![word] + words(Seq::empty()));
    assert(words(word) =~= seq![word]);
}

proof fn lemma_word_is(word: Seq<char>, tail: Seq<char>)
    requires
        forall|i: int|
            0 <= i < word.len() ==> !crate::text::is_white_space(#[trigger] word[i]),
        tail.len() > 0 ==> crate::text::is_white_space(tail[0]),
    ensures
        crate::text::word_length(word + tail) == word.len(),
    decreases word.len(),
{
    let text = word + tail;
    if word.len() == 0 {
        assert(text =~= tail);
    } else {
        assert(text[0] == word[0]);
        let rest = word.drop_first();
        assert(text.drop_first() =~= rest + tail);
        assert forall|i: int| 0 <= i < rest.len() implies !crate::text::is_white_space(
            #[trigger] rest[i],
        ) by {
            assert(rest[i] == word[i + 1]);
        }
        lemma_word_is(rest, tail);
    }
}

proof fn lemma_argument_is(argument: Seq<u8>, tail: Seq<u8>)
    requires
        forall|i: int| 0 <= i < argument.len() ==> #[trigger] argument[i] != 0,
        tail.len() > 0 ==> tail[0] == 0,
    ensures
        crate::process::argument_length(argument + tail) == argument.len(),
    decreases argument.len(),
{
    let bytes = argument + tail;
    if argument.len() == 0 {
        assert(bytes =~= tail);
    } else {
        assert(bytes[0] == argument[0]);
        let rest = argument.drop_first();
        assert(bytes.drop_first() =~= rest + tail);
        assert forall|i: int| 0 <= i < rest.len() implies #[trigger] rest[i] != 0 by {
            assert(rest[i] == argument[i + 1]);
        }
        lemma_argument_is(rest, tail);
    }
}

/// A command line is its arguments, each closed by a zero byte.
pub proof fn law_command_lines(argument: Seq<u8>, rest: Seq<u8>)
    requires
        argument.len() > 0,
        forall|i: int| 0 <= i < argument.len() ==> #[trigger] argument[i] != 0,
    ensures
        arguments(argument + (seq![0u8] + rest)) == seq![argument] + arguments(rest),
        arguments(argument) == seq![argument],
        arguments(Seq::empty()).len() == 0,
{
    let tail = seq![0u8] + rest;
    let bytes = argument + tail;
    lemma_argument_is(argument, tail);
    lemma_argument_is(argument, Seq::empty());
    assert(argument + Seq::<u8>::empty() =~= argument);
    assert(bytes[0] == argument[0]);
    assert(bytes.take(argument.len() as int) =~= argument);
    assert(bytes.skip(argument.len() as int) =~= tail);
    assert(tail.drop_first() =~= rest);
    assert(argument.take(argument.len() as int) =~= argument);
    assert(argument.skip(argument.len() as int) =~= Seq::empty());
    assert(arguments(bytes) =~= seq![argument] + arguments(tail));
    assert(arguments(argument) =~= seq![argument] + arguments(Seq::empty()));
    assert(arguments(argument) =~= seq![argument]);
}

/// Whether bytes are the characters of an ASCII text.
pub open spec fn are_letters(bytes: Seq<u8>, text: Seq<char>) -> bool {
    bytes.len() == text.len() && forall|i: int|
        0 <= i < text.len() ==> #[trigger] bytes[i] as int == text[i] as int
}

proof fn lemma_basename(directory: Seq<u8>, name: Seq<u8>)
    requires
        directory.len() > 0 ==> directory.last() == 47,
        forall|i: int| 0 <= i < name.len() ==> #[trigger] name[i] != 47,
    ensures
        basename(directory + name) == name,
    decreases name.len(),
{
    let path = directory + name;
    lemma_basename_start(directory, name);
    assert(path.skip(directory.len() as int) =~= name);
}

proof fn lemma_basename_start(directory: Seq<u8>, name: Seq<u8>)
    requires
        directory.len() > 0 ==> directory.last() == 47,
        forall|i: int| 0 <= i < name.len() ==> #[trigger] name[i] != 47,
    ensures
        crate::process::basename_start(directory + name) == directory.len(),
    decreases name.len(),
{
    let path = directory + name;
    if name.len() == 0 {
        assert(path =~= directory);
    } else {
        assert(path.last() == name[name.len() - 1]);
        let shorter = name.drop_last();
        assert(path.drop_last() =~= directory + shorter);
        assert forall|i: int| 0 <= i < shorter.len() implies #[trigger] shorter[i] != 47 by {
            assert(shorter[i] == name[i]);
        }
        lemma_basename_start(directory, shorter);
    }
}

/// A process is the Waybar module exactly where its program is called `d2b-wlcontrol`,
/// in whatever directory, and its first argument is `waybar`.
pub proof fn law_waybar_command_lines(
    bytes: Seq<u8>,
    directory: Seq<u8>,
    name: Seq<u8>,
    argument: Seq<u8>,
    others: Seq<Seq<u8>>,
)
    requires
        arguments(bytes) == seq![directory + name, argument] + others,
        directory.len() > 0 ==> directory.last() == 47,
        forall|i: int| 0 <= i < name.len() ==> #[trigger] name[i] != 47,
    ensures
        is_waybar_cmdline(bytes) <==> are_letters(name, "d2b-wlcontrol"@) && are_letters(
            argument,
            "waybar"@,
        ),
{
    lemma_basename(directory, name);
    let args = arguments(bytes);
    assert(args[0] == directory + name && args[1] == argument);
}

/// A process that has no second argument is not the Waybar module.
pub proof fn law_waybar_needs_its_subcommand(bytes: Seq<u8>)
    requires
        arguments(bytes).len() < 2,
    ensures
        !is_waybar_cmdline(bytes),
{
}

/// A process is the popup exactly where its program is called `quickshell`, one of its
/// arguments is `--no-duplicate`, and the popup's file stands behind a `--path`.
pub proof fn law_popup_command_lines(args: Seq<Seq<char>>, qml_path: Seq<char>)
    ensures
        is_popup_cmdline(args, qml_path) <==> args.len() > 0 && path_name(args[0]) == Some(
            "quickshell"@,
        ) && (exists|i: int|
            0 <= i < args.len() - 1 && #[trigger] args[i] == "--path"@ && args[i + 1] == qml_path)
            && (exists|k: int| 0 <= k < args.len() && #[trigger] args[k] == "--no-duplicate"@),
{
    if exists|i: int|
        0 <= i < args.len() - 1 && #[trigger] args[i] == "--path"@ && args[i + 1] == qml_path {
        let i = choose|i: int|
            0 <= i < args.len() - 1 && #[trigger] args[i] == "--path"@ && args[i + 1] == qml_path;
        assert(shows_file(args, i, qml_path));
    }
    if exists|k: int| 0 <= k < args.len() && #[trigger] args[k] == "--no-duplicate"@ {
        assert(args.contains("--no-duplicate"@));
    }
    if is_popup_cmdline(args, qml_path) {
        let i = choose|i: int| #[trigger] shows_file(args, i, qml_path);
        assert(args[i] == "--path"@);
        let k = args.index_of("--no-duplicate"@);
        assert(args[k] == "--no-duplicate"@);
    }
}

/// A record still names the Waybar module exactly where the process started when the
/// record says and runs the module.
pub proof fn law_records_are_checked(
    record: WaybarPidRecord,
    start_time: u64,
    cmdline: Seq<u8>,
)
    ensures
        is_recorded_waybar(record, Some(start_time), Some(cmdline)) <==> start_time
            == record.start_time && is_waybar_cmdline(cmdline),
        !is_recorded_waybar(record, None, Some(cmdline)),
        !is_recorded_waybar(record, Some(start_time), None),
{
}

/// Opening the popup terminates it exactly where it runs: where the process of the
/// record is alive, is the same and is a popup. A record of another process is removed,
/// and then, or where there is none, a popup is started.
pub proof fn law_opening_toggles_the_popup(
    recorded: ProcessIdentity,
    live: Option<ProcessIdentity>,
    is_popup: bool,
)
    ensures
        ({
            let step = step_for(popup_status(Some(recorded), live, is_popup));
            let runs = recorded.pid != 0 && live == Some(recorded) && is_popup;
            &&& step.terminate == if runs {
                Some(recorded.pid)
            } else {
                None
            }
            &&& step.start <==> !runs
            &&& step.remove_record <==> recorded.pid != 0 && live is Some
        }),
        ({
            let step = step_for(popup_status(None, live, is_popup));
            step.terminate is None && step.start && !step.remove_record
        }),
{
}

} // verus!
