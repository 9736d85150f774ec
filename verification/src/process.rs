//! Process identities: pid files, `/proc` entries and command lines.

use vstd::prelude::*;

use crate::text::{
    chars_of, decimal, decimal_text, empty, file_name, is_digit, is_white_space,
    lemma_decimal_denotes, lemma_word_length, number_of, opt_view, parse_number, parse_small_number,
    path_name, same_text, split_words, views, word_length, words,
};

verus! {

/// The identity of a running process: its pid, and when it started. The start
/// time tells a process from a later one with the same pid.
#[derive(Debug, Clone, Copy, PartialEq, Eq, Structural)]
pub struct ProcessIdentity {
    pub pid: u32,
    pub start_time_ticks: u64,
}

/// The identity of the running Waybar module.
#[derive(Debug, Clone, Copy, PartialEq, Eq, Structural)]
pub struct WaybarPidRecord {
    pub pid: u32,
    pub start_time: u64,
}

/// The line of a pid file.
pub open spec fn record_text(pid: u32, start_time: u64) -> Seq<char> {
    decimal(pid as nat) + " "@ + decimal(start_time as nat) + "\n"@
}

fn record_line(pid: u32, start_time: u64) -> (line: String)
    ensures
        line@ == record_text(pid, start_time),
{
    let mut line = decimal_text(pid as u64);
    line.append(" ");
    line.append(decimal_text(start_time).as_str());
    line.append("\n");
    line
}

/// The pid and start time that the first two words of a text give.
pub open spec fn record_numbers(found: Seq<Seq<char>>) -> Option<(u32, u64)> {
    if found.len() < 2 {
        None
    } else {
        match (number_of(found[0]), number_of(found[1])) {
            (Some(pid), Some(start)) => if pid <= u32::MAX && start <= u64::MAX {
                Some((pid as u32, start as u64))
            } else {
                None
            },
            _ => None,
        }
    }
}

fn read_numbers(found: &Vec<String>) -> (numbers: Option<(u32, u64)>)
    ensures
        numbers == record_numbers(views(found@)),
{
    if found.len() < 2 {
        return None;
    }
    assert(views(found@)[0] == found@[0]@ && views(found@)[1] == found@[1]@);
    match (parse_small_number(found[0].as_str()), parse_number(found[1].as_str())) {
        (Some(pid), Some(start)) => Some((pid, start)),
        _ => None,
    }
}

/// The record that a text holds: exactly two numbers.
pub open spec fn waybar_record_of(text: Seq<char>) -> Option<WaybarPidRecord> {
    if words(text).len() != 2 {
        None
    } else {
        match record_numbers(words(text)) {
            Some(numbers) => Some(WaybarPidRecord { pid: numbers.0, start_time: numbers.1 }),
            None => None,
        }
    }
}

/// The identity that a text holds: two numbers, whatever follows.
pub open spec fn identity_of(text: Seq<char>) -> Option<ProcessIdentity> {
    match record_numbers(words(text)) {
        Some(numbers) => Some(ProcessIdentity { pid: numbers.0, start_time_ticks: numbers.1 }),
        None => None,
    }
}

impl WaybarPidRecord {
    /// Reads a record: exactly two numbers.
    pub fn parse(contents: &str) -> (record: Option<Self>)
        ensures
            record == waybar_record_of(contents@),
    {
        let found = split_words(contents);
        if found.len() != 2 {
            return None;
        }
        match read_numbers(&found) {
            Some((pid, start_time)) => Some(WaybarPidRecord { pid, start_time }),
            None => None,
        }
    }

    /// The line of the record.
    pub fn serialize(self) -> (line: String)
        ensures
            line@ == record_text(self.pid, self.start_time),
    {
        record_line(self.pid, self.start_time)
    }
}

impl ProcessIdentity {
    /// Reads an identity: two numbers, whatever follows.
    pub fn parse(contents: &str) -> (identity: Option<Self>)
        ensures
            identity == identity_of(contents@),
    {
        match read_numbers(&split_words(contents)) {
            Some((pid, start_time_ticks)) => Some(ProcessIdentity { pid, start_time_ticks }),
            None => None,
        }
    }

    /// The line of the identity.
    pub fn serialize(self) -> (line: String)
        ensures
            line@ == record_text(self.pid, self.start_time_ticks),
    {
        record_line(self.pid, self.start_time_ticks)
    }
}

proof fn lemma_word_then(word: Seq<char>, rest: Seq<char>)
    requires
        word.len() > 0,
        forall|i: int| 0 <= i < word.len() ==> !is_white_space(#[trigger] word[i]),
        rest.len() > 0,
        is_white_space(rest[0]),
    ensures
        words(word + rest) == seq![word] + words(rest.drop_first()),
{
    let text = word + rest;
    lemma_word_length_of(word, rest);
    lemma_word_length(text);
    assert(text[0] == word[0]);
    assert(text.take(word.len() as int) =~= word);
    assert(text.skip(word.len() as int) =~= rest);
    assert(words(rest) == words(rest.drop_first()));
}

proof fn lemma_word_length_of(word: Seq<char>, rest: Seq<char>)
    requires
        forall|i: int| 0 <= i < word.len() ==> !is_white_space(#[trigger] word[i]),
        rest.len() > 0,
        is_white_space(rest[0]),
    ensures
        word_length(word + rest) == word.len(),
    decreases word.len(),
{
    let text = word + rest;
    if word.len() > 0 {
        let tail = word.drop_first();
        assert forall|i: int| 0 <= i < tail.len() implies !is_white_space(#[trigger] tail[i]) by {
            assert(tail[i] == word[i + 1]);
        }
        lemma_word_length_of(tail, rest);
        assert(text[0] == word[0]);
        assert(text.drop_first() =~= tail + rest);
    } else {
        assert(text =~= rest);
    }
}

/// The words of a pid file line are its two numbers.
proof fn lemma_record_words(pid: u32, start_time: u64)
    ensures
        words(record_text(pid, start_time)) == seq![
            decimal(pid as nat),
            decimal(start_time as nat),
        ],
{
    reveal_strlit(" ");
    reveal_strlit("\n");
    let first = decimal(pid as nat);
    let second = decimal(start_time as nat);
    lemma_decimal_denotes(pid as nat);
    lemma_decimal_denotes(start_time as nat);
    assert forall|i: int| 0 <= i < first.len() implies !is_white_space(#[trigger] first[i]) by {
        assert(is_digit(first[i]));
    }
    assert forall|i: int| 0 <= i < second.len() implies !is_white_space(#[trigger] second[i]) by {
        assert(is_digit(second[i]));
    }
    let tail = " "@ + second + "\n"@;
    assert(record_text(pid, start_time) =~= first + tail);
    lemma_word_then(first, tail);
    assert(tail.drop_first() =~= second + "\n"@);
    lemma_word_then(second, "\n"@);
    assert("\n"@.drop_first() =~= Seq::<char>::empty());
    assert(words("\n"@.drop_first()) =~= Seq::<Seq<char>>::empty());
    assert(words(record_text(pid, start_time)) =~= seq![first, second]);
}

/// A record reads back as it was written.
pub proof fn law_pid_record_round_trips(record: WaybarPidRecord)
    ensures
        waybar_record_of(record_text(record.pid, record.start_time)) == Some(record),
{
    lemma_record_words(record.pid, record.start_time);
    lemma_decimal_denotes(record.pid as nat);
    lemma_decimal_denotes(record.start_time as nat);
}

/// An identity reads back as it was written.
pub proof fn law_identity_round_trips(identity: ProcessIdentity)
    ensures
        identity_of(record_text(identity.pid, identity.start_time_ticks)) == Some(identity),
{
    lemma_record_words(identity.pid, identity.start_time_ticks);
    lemma_decimal_denotes(identity.pid as nat);
    lemma_decimal_denotes(identity.start_time_ticks as nat);
}

/// Where the last `) ` of a text stands.
pub open spec fn last_close(text: Seq<char>) -> Option<int>
    decreases text.len(),
{
    if text.len() < 2 {
        None
    } else if text[text.len() - 2] == ')' && text[text.len() - 1] == ' ' {
        Some(text.len() - 2)
    } else {
        last_close(text.drop_last())
    }
}

/// The start time in a `/proc/<pid>/stat` line: the twentieth word after the
/// process name, which stands in parentheses and may itself hold any character.
pub open spec fn stat_start_time(stat: Seq<char>) -> Option<u64> {
    match last_close(stat) {
        Some(at) => {
            let fields = words(stat.skip(at + 2));
            if fields.len() < 20 {
                None
            } else {
                match number_of(fields[19]) {
                    Some(ticks) => if ticks <= u64::MAX {
                        Some(ticks as u64)
                    } else {
                        None
                    },
                    None => None,
                }
            }
        },
        None => None,
    }
}

fn find_last_close(chars: &Vec<char>) -> (at: Option<usize>)
    ensures
        match at {
            Some(i) => last_close(chars@) == Some(i as int) && i + 2 <= chars@.len(),
            None => last_close(chars@) is None,
        },
{
    let mut end: usize = chars.len();
    assert(chars@.take(end as int) =~= chars@);
    while end >= 2
        invariant
            end <= chars@.len(),
            last_close(chars@) == last_close(chars@.take(end as int)),
        decreases end,
    {
        let ghost upto = chars@.take(end as int);
        if chars[end - 2] == ')' && chars[end - 1] == ' ' {
            return Some(end - 2);
        }
        assert(upto.drop_last() =~= chars@.take(end - 1));
        end = end - 1;
    }
    None
}

/// The start time in a `/proc/<pid>/stat` line.
pub fn parse_proc_start_time(stat: &str) -> (start: Option<u64>)
    ensures
        start == stat_start_time(stat@),
{
    let chars = chars_of(stat);
    let total: usize = chars.len();
    match find_last_close(&chars) {
        Some(at) => {
            let rest = stat.substring_char(at + 2, total);
            assert(rest@ =~= stat@.skip(at + 2));
            let fields = split_words(rest);
            if fields.len() < 20 {
                None
            } else {
                assert(views(fields@)[19] == fields@[19]@);
                parse_number(fields[19].as_str())
            }
        },
        None => None,
    }
}

/// How many bytes stand before the first zero.
pub open spec fn argument_length(bytes: Seq<u8>) -> nat
    decreases bytes.len(),
{
    if bytes.len() == 0 || bytes[0] == 0 {
        0
    } else {
        1 + argument_length(bytes.drop_first())
    }
}

/// An argument is no longer than the command line it starts.
pub proof fn lemma_argument_length(bytes: Seq<u8>)
    ensures
        argument_length(bytes) <= bytes.len(),
        bytes.len() > 0 && bytes[0] != 0 ==> argument_length(bytes) > 0,
    decreases bytes.len(),
{
    if bytes.len() > 0 && bytes[0] != 0 {
        lemma_argument_length(bytes.drop_first());
    }
}

/// The non-empty arguments of a zero-separated command line, in order.
pub open spec fn arguments(bytes: Seq<u8>) -> Seq<Seq<u8>>
    decreases bytes.len(),
{
    if bytes.len() == 0 {
        Seq::empty()
    } else if bytes[0] == 0 {
        arguments(bytes.drop_first())
    } else {
        proof {
            lemma_argument_length(bytes);
        }
        seq![bytes.take(argument_length(bytes) as int)] + arguments(
            bytes.skip(argument_length(bytes) as int),
        )
    }
}

proof fn lemma_argument_length_is(bytes: Seq<u8>, length: int)
    requires
        0 <= length <= bytes.len(),
        forall|i: int| 0 <= i < length ==> #[trigger] bytes[i] != 0,
        length < bytes.len() ==> bytes[length] == 0,
    ensures
        argument_length(bytes) == length,
    decreases bytes.len(),
{
    if length > 0 {
        assert(bytes[0] != 0);
        let rest = bytes.drop_first();
        assert forall|i: int| 0 <= i < length - 1 implies #[trigger] rest[i] != 0 by {
            assert(rest[i] == bytes[i + 1]);
        }
        lemma_argument_length_is(rest, length - 1);
    }
}

/// The non-empty arguments of a zero-separated command line, in order.
pub fn split_arguments(bytes: &[u8]) -> (found: Vec<Vec<u8>>)
    ensures
        views(found@) == arguments(bytes@),
{
    let mut found: Vec<Vec<u8>> = Vec::new();
    let mut at: usize = 0;
    assert(bytes@.skip(0) =~= bytes@);
    assert(views(found@) + arguments(bytes@) =~= arguments(bytes@));
    while at < bytes.len()
        invariant
            at <= bytes@.len(),
            views(found@) + arguments(bytes@.skip(at as int)) == arguments(bytes@),
        decreases bytes@.len() - at,
    {
        let ghost rest = bytes@.skip(at as int);
        assert(rest[0] == bytes@[at as int]);
        proof {
            lemma_argument_length(rest);
        }
        if bytes[at] == 0 {
            assert(rest.drop_first() =~= bytes@.skip(at + 1));
            at = at + 1;
        } else {
            let start: usize = at;
            let mut argument: Vec<u8> = Vec::new();
            while at < bytes.len() && bytes[at] != 0
                invariant
                    start <= at <= bytes@.len(),
                    argument@ == bytes@.subrange(start as int, at as int),
                    forall|i: int| start <= i < at ==> #[trigger] bytes@[i] != 0,
                decreases bytes@.len() - at,
            {
                argument.push(bytes[at]);
                assert(argument@ =~= bytes@.subrange(start as int, at + 1));
                at = at + 1;
            }
            let ghost before = views(found@);
            let ghost word = rest.take(at - start);
            proof {
                assert forall|i: int| 0 <= i < at - start implies #[trigger] rest[i] != 0 by {
                    assert(rest[i] == bytes@[start + i]);
                }
                if at - start < rest.len() {
                    assert(rest[at - start] == bytes@[at as int]);
                }
                lemma_argument_length_is(rest, at - start);
                assert(word =~= argument@);
                assert(rest.skip(at - start) =~= bytes@.skip(at as int));
            }
            found.push(argument);
            assert(views(found@) =~= before.push(word));
            assert(before + (seq![word] + arguments(bytes@.skip(at as int))) =~= views(found@)
                + arguments(bytes@.skip(at as int)));
        }
    }
    assert(bytes@.skip(at as int) =~= Seq::<u8>::empty());
    assert(views(found@) + Seq::<Seq<u8>>::empty() =~= views(found@));
    found
}

/// Whether bytes spell a text, one byte for each character.
pub open spec fn spells(bytes: Seq<u8>, text: Seq<char>) -> bool {
    &&& bytes.len() == text.len()
    &&& forall|i: int| 0 <= i < bytes.len() ==> #[trigger] bytes[i] as int == text[i] as int
}

fn bytes_spell(bytes: &Vec<u8>, from: usize, text: &str) -> (yes: bool)
    requires
        from <= bytes@.len(),
    ensures
        yes == spells(bytes@.skip(from as int), text@),
{
    let chars = chars_of(text);
    let total: usize = bytes.len();
    let ghost part = bytes@.skip(from as int);
    if chars.len() != total - from {
        return false;
    }
    let mut i: usize = 0;
    while i < chars.len()
        invariant
            chars@ == text@,
            part == bytes@.skip(from as int),
            total == bytes@.len(),
            from <= total,
            part.len() == chars@.len(),
            i <= chars@.len(),
            forall|k: int| 0 <= k < i ==> #[trigger] part[k] as int == text@[k] as int,
        decreases chars@.len() - i,
    {
        assert(part[i as int] == bytes@[from + i]);
        let byte: u8 = bytes[from + i];
        let c: char = chars[i];
        if byte as char != c {
            return false;
        }
        i = i + 1;
    }
    true
}

/// Where the part of a path after its last slash starts.
pub open spec fn basename_start(path: Seq<u8>) -> nat
    decreases path.len(),
{
    if path.len() == 0 || path.last() == 47 {
        path.len()
    } else {
        basename_start(path.drop_last())
    }
}

/// The part of a path after its last slash.
pub open spec fn basename(path: Seq<u8>) -> Seq<u8> {
    path.skip(basename_start(path) as int)
}

/// Whether a program is this one, by the last part of its path.
pub fn program_basename_matches(program: &Vec<u8>) -> (yes: bool)
    ensures
        yes == spells(basename(program@), "d2b-wlcontrol"@),
{
    let mut start: usize = program.len();
    assert(program@.take(start as int) =~= program@);
    while start > 0 && program[start - 1] != 47
        invariant
            start <= program@.len(),
            basename_start(program@) == basename_start(program@.take(start as int)),
        decreases start,
    {
        assert(program@.take(start as int).drop_last() =~= program@.take(start - 1));
        start = start - 1;
    }
    bytes_spell(program, start, "d2b-wlcontrol")
}

/// Whether a command line is that of the Waybar module: this program, with
/// `waybar` as its first argument.
pub open spec fn is_waybar_cmdline(bytes: Seq<u8>) -> bool {
    let args = arguments(bytes);
    &&& args.len() >= 2
    &&& spells(basename(args[0]), "d2b-wlcontrol"@)
    &&& spells(args[1], "waybar"@)
}

/// Whether a command line is that of the Waybar module.
pub fn cmdline_matches_waybar(bytes: &[u8]) -> (yes: bool)
    ensures
        yes == is_waybar_cmdline(bytes@),
{
    let args = split_arguments(bytes);
    if args.len() < 2 {
        return false;
    }
    assert(views(args@)[0] == args@[0]@ && views(args@)[1] == args@[1]@);
    assert(args@[1]@.skip(0) =~= args@[1]@);
    program_basename_matches(&args[0]) && bytes_spell(&args[1], 0, "waybar")
}

/// Whether the process that a record names still is the Waybar module it was
/// written for.
pub open spec fn is_recorded_waybar(
    record: WaybarPidRecord,
    start_time: Option<u64>,
    cmdline: Option<Seq<u8>>,
) -> bool {
    &&& start_time == Some(record.start_time)
    &&& cmdline is Some
    &&& is_waybar_cmdline(cmdline->Some_0)
}

/// Whether the process that a record names still is the Waybar module it was
/// written for, by what `/proc` says of that pid now.
pub fn process_matches_waybar(
    record: WaybarPidRecord,
    start_time: Option<u64>,
    cmdline: Option<&Vec<u8>>,
) -> (yes: bool)
    ensures
        yes == is_recorded_waybar(record, start_time, opt_view(cmdline)),
        yes == (start_time == Some(record.start_time) && cmdline is Some && is_waybar_cmdline(
            cmdline->Some_0@,
        )),
{
    let same_start = match start_time {
        Some(start) => start == record.start_time,
        None => false,
    };
    match cmdline {
        Some(bytes) => same_start && cmdline_matches_waybar(bytes.as_slice()),
        None => false,
    }
}

/// Whether a program is the daemon's command line tool, by the name of its file.
pub fn is_d2b_program(program: &str) -> (yes: bool)
    ensures
        yes == (path_name(program@) == Some("d2b"@)),
{
    match file_name(program) {
        Some(name) => same_text(name.as_str(), "d2b"),
        None => false,
    }
}

/// Whether a command line is that of the popup: Quickshell, showing the given
/// file, as a single instance.
pub open spec fn is_popup_cmdline(args: Seq<Seq<char>>, qml_path: Seq<char>) -> bool {
    &&& args.len() > 0
    &&& path_name(args[0]) == Some("quickshell"@)
    &&& exists|i: int| #[trigger] shows_file(args, i, qml_path)
    &&& args.contains("--no-duplicate"@)
}

/// Whether the arguments at a position name the file to show.
pub open spec fn shows_file(args: Seq<Seq<char>>, i: int, qml_path: Seq<char>) -> bool {
    0 <= i < args.len() - 1 && args[i] == "--path"@ && args[i + 1] == qml_path
}

/// Whether a command line is that of the popup.
pub fn args_match_quickshell(args: &Vec<String>, qml_path: &str) -> (yes: bool)
    ensures
        yes == is_popup_cmdline(views(args@), qml_path@),
{
    let ghost all = views(args@);
    if args.len() == 0 {
        return false;
    }
    assert(all[0] == args@[0]@);
    let quickshell = match file_name(args[0].as_str()) {
        Some(name) => same_text(name.as_str(), "quickshell"),
        None => false,
    };
    if !quickshell {
        return false;
    }
    let mut shown: bool = false;
    let mut single: bool = false;
    let mut i: usize = 0;
    while i < args.len()
        invariant
            i <= args@.len(),
            all == views(args@),
            shown == exists|k: int| 0 <= k < i && #[trigger] shows_file(all, k, qml_path@),
            single == exists|k: int| 0 <= k < i && #[trigger] all[k] == "--no-duplicate"@,
        decreases args@.len() - i,
    {
        assert(all[i as int] == args@[i as int]@);
        if i + 1 < args.len() {
            assert(all[i + 1] == args@[i + 1]@);
            if same_text(args[i].as_str(), "--path") && same_text(args[i + 1].as_str(), qml_path) {
                assert(shows_file(all, i as int, qml_path@));
                shown = true;
            }
        }
        if same_text(args[i].as_str(), "--no-duplicate") {
            single = true;
        }
        i = i + 1;
    }
    shown && single
}

/// The text that some bytes encode, if they encode any.
pub open spec fn encoded_text(bytes: Seq<u8>) -> Option<Seq<char>> {
    if vstd::utf8::valid_utf8(bytes) {
        Some(vstd::utf8::decode_utf8(bytes))
    } else {
        None
    }
}

/// Calls `String::from_utf8`: bytes that are valid UTF-8 become the text they
/// encode, others are refused.
#[verifier::external_body]
fn text_from_utf8(bytes: Vec<u8>) -> (text: Option<String>)
    ensures
        opt_view(text) == encoded_text(bytes@),
{
    String::from_utf8(bytes).ok()
}

/// The arguments of a zero-separated command line that are texts, in order.
pub open spec fn text_arguments(bytes: Seq<u8>) -> Seq<Seq<char>> {
    arguments(bytes).filter_map(|argument: Seq<u8>| encoded_text(argument))
}

fn read_text_arguments(bytes: &[u8]) -> (args: Vec<String>)
    ensures
        views(args@) == text_arguments(bytes@),
{
    let found = split_arguments(bytes);
    let ghost source = found@;
    let ghost all = views(source);
    let ghost text = |argument: Seq<u8>| encoded_text(argument);
    let mut args: Vec<String> = Vec::new();
    assert(all.take(0).filter_map(text) =~= Seq::<Seq<char>>::empty());
    for argument in it: found
        invariant
            it.seq() == source,
            all == views(source),
            text == |argument: Seq<u8>| encoded_text(argument),
            views(args@) == all.take(it.index() as int).filter_map(text),
    {
        let ghost at = it.index() as int;
        let ghost before = views(args@);
        proof {
            assert(all[at] == argument@);
            all.lemma_filter_map_take_succ(text, at);
        }
        match text_from_utf8(argument) {
            Some(read) => {
                args.push(read);
                assert(views(args@) =~= before + seq![read@]);
            },
            None => {
                assert(before + Seq::<Seq<char>>::empty() =~= before);
            },
        }
    }
    assert(all.take(all.len() as int) =~= all);
    args
}

/// Whether a zero-separated command line is that of the popup.
pub fn cmdline_matches_quickshell(bytes: &[u8], qml_path: &str) -> (yes: bool)
    ensures
        yes == is_popup_cmdline(text_arguments(bytes@), qml_path@),
{
    args_match_quickshell(&read_text_arguments(bytes), qml_path)
}

/// What to make of the record of a popup.
#[derive(Debug, Clone, Copy, PartialEq, Eq, Structural)]
pub enum FrontendStatus {
    /// The popup runs and can be told to close.
    Live(ProcessIdentity),
    /// The record names another process; it should be removed.
    Stale,
    /// There is no popup.
    Absent,
}

/// What to make of the record of a popup.
pub open spec fn popup_status(
    recorded: Option<ProcessIdentity>,
    live: Option<ProcessIdentity>,
    is_popup: bool,
) -> FrontendStatus {
    if recorded is None || recorded->Some_0.pid == 0 || live is None {
        FrontendStatus::Absent
    } else if live == recorded && is_popup {
        FrontendStatus::Live(recorded->Some_0)
    } else {
        FrontendStatus::Stale
    }
}

/// Decides what to make of the record of a popup: `recorded` is what the record
/// says, `live` what `/proc` says of that pid now, and `is_popup` whether the
/// command line of that process is the popup's.
pub fn frontend_status(
    recorded: Option<ProcessIdentity>,
    live: Option<ProcessIdentity>,
    is_popup: bool,
) -> (status: FrontendStatus)
    ensures
        status == popup_status(recorded, live, is_popup),
        status is Live <==> recorded is Some && recorded->Some_0.pid != 0 && live == recorded
            && is_popup,
        status is Live ==> status == FrontendStatus::Live(recorded->Some_0),
        status is Stale <==> recorded is Some && recorded->Some_0.pid != 0 && live is Some && !(live
            == recorded && is_popup),
{
    match recorded {
        Some(identity) => if identity.pid == 0 {
            FrontendStatus::Absent
        } else {
            match live {
                Some(current) => if current == identity && is_popup {
                    FrontendStatus::Live(identity)
                } else {
                    FrontendStatus::Stale
                },
                None => FrontendStatus::Absent,
            }
        },
        None => FrontendStatus::Absent,
    }
}

/// What opening the popup does about the one that may run already.
#[derive(Debug, Clone, Copy, PartialEq, Eq, Structural)]
pub struct PopupStep {
    /// The process to terminate.
    pub terminate: Option<u32>,
    /// Whether to remove the record.
    pub remove_record: bool,
    /// Whether to start a popup.
    pub start: bool,
}

/// What opening the popup does about the one that may run already.
pub open spec fn step_for(status: FrontendStatus) -> PopupStep {
    match status {
        FrontendStatus::Live(identity) => PopupStep {
            terminate: Some(identity.pid),
            remove_record: true,
            start: false,
        },
        FrontendStatus::Stale => PopupStep { terminate: None, remove_record: true, start: true },
        FrontendStatus::Absent => PopupStep { terminate: None, remove_record: false, start: true },
    }
}

/// Decides what opening the popup does. A running popup is hidden: its process is
/// terminated, its record removed, and none is started. Otherwise one is started,
/// once a stale record is gone.
pub fn popup_step(status: FrontendStatus) -> (step: PopupStep)
    ensures
        step == step_for(status),
        step.terminate == match status {
            FrontendStatus::Live(identity) => Some(identity.pid),
            _ => None,
        },
        step.remove_record <==> !(status is Absent),
        step.start <==> !(status is Live),
{
    match status {
        FrontendStatus::Live(identity) => PopupStep {
            terminate: Some(identity.pid),
            remove_record: true,
            start: false,
        },
        FrontendStatus::Stale => PopupStep { terminate: None, remove_record: true, start: true },
        FrontendStatus::Absent => PopupStep { terminate: None, remove_record: false, start: true },
    }
}

} // verus!
