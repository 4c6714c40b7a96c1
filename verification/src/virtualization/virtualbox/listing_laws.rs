//! How VirtualBox's listings are read, said of their lines.
use super::creation;
use super::creation::VirtualBoxOsTypeView;
use super::guest_observation;
use super::machine_info;
use super::recovery;
use super::service;
use super::service::{Request, Run};
use crate::text::laws;
use crate::text::model;
use crate::text::model::Text;
use crate::virtualization::DetectionState;
use vstd::prelude::*;

verus! {

/// A text is split at a pattern that one of the pattern's characters, which is not in front of
/// the pattern and not earlier in it, tells.
pub proof fn lemma_split_at(before: Text, pattern: Text, after: Text, k: int)
    requires
        0 <= k < pattern.len(),
        !laws::has_char(before, pattern[k]),
        forall|j: int| 0 <= j < k ==> #[trigger] pattern[j] != pattern[k],
    ensures
        model::split_once(before + pattern + after, pattern) == Some((before, after)),
{
    let s = before + pattern + after;
    let n = before.len() as int;
    model::lemma_first_from(s, pattern, 0);
    assert(s.subrange(n, n + pattern.len()) =~= pattern);
    assert(model::occurs_at(s, pattern, n));
    let i = model::first_from(s, pattern, 0)->0;
    if i < n {
        assert(s.subrange(i, i + pattern.len())[k] == s[i + k]);
        if i + k < n {
            assert(before[i + k] == s[i + k]);
        } else {
            assert(s[i + k] == pattern[i + k - n]);
        }
    }
    assert(i == n);
    assert(s.take(n) =~= before);
    assert(s.skip(n + pattern.len()) =~= after);
}

proof fn lemma_not_split(s: Text, pattern: Text, k: int)
    requires
        0 <= k < pattern.len(),
        !laws::has_char(s, pattern[k]),
    ensures
        model::split_once(s, pattern) is None,
{
    model::lemma_first_from(s, pattern, 0);
    if let Some(i) = model::first_from(s, pattern, 0) {
        assert(s.subrange(i, i + pattern.len())[k] == s[i + k]);
    }
}

// ---- Guest systems ---------------------------------------------------------------------

/// A heading ends the system before it and begins the one that it names: its identifier, two
/// hyphens and its description. The systems before it stay.
pub proof fn law_a_heading_begins_a_system(
    lines: Seq<Text>,
    line: Text,
    id: Text,
    description: Text,
)
    requires
        model::trimmed(line) == "ID / Description:"@ + (id + seq!['-', '-'] + description),
        !laws::has_char(id, '-'),
    ensures
        ({
            let before = creation::after_os_lines(lines);
            let after = creation::after_os_lines(lines.push(line));
            &&& after.current == Some(
                VirtualBoxOsTypeView {
                    id: model::trimmed(id),
                    description: model::trimmed(description),
                    architecture: seq![],
                },
            )
            &&& before.current is None ==> after.records == before.records
            &&& before.current matches Some(system) ==> after.records == before.records.push(
                system,
            )
        }),
{
    reveal_strlit("--");
    assert("--"@ =~= seq!['-', '-']);
    let head = "ID / Description:"@;
    let value = id + seq!['-', '-'] + description;
    lemma_split_at(id, seq!['-', '-'], description, 0);
    assert(lines.push(line).drop_last() =~= lines);
    assert(head.is_prefix_of(model::trimmed(line)));
    assert(model::trimmed(line).skip(head.len() as int) =~= value);
}

/// An architecture is that of the system whose heading came last, and nothing else of it changes.
pub proof fn law_an_architecture_is_of_its_system(lines: Seq<Text>, line: Text, rest: Text)
    requires
        model::trimmed(line) == "Architecture:"@ + rest,
    ensures
        ({
            let before = creation::after_os_lines(lines);
            let after = creation::after_os_lines(lines.push(line));
            &&& after.records == before.records
            &&& before.current is None ==> after.current is None
            &&& before.current matches Some(system) ==> after.current == Some(
                VirtualBoxOsTypeView {
                    id: system.id,
                    description: system.description,
                    architecture: model::trimmed(rest),
                },
            )
        }),
{
    reveal_strlit("ID / Description:");
    reveal_strlit("Architecture:");
    let head = "Architecture:"@;
    assert("ID / Description:"@[0] == 'I' && head[0] == 'A');
    let text = model::trimmed(line);
    assert(text[0] == 'A');
    assert(lines.push(line).drop_last() =~= lines);
    assert(head.is_prefix_of(text));
    assert(text.skip(head.len() as int) =~= rest);
}

/// The end of a listing ends its last system.
pub proof fn law_the_last_system_counts(output: Text)
    ensures
        ({
            let read = creation::after_os_lines(model::lines(output));
            let systems = creation::os_types(output);
            &&& read.current is None ==> systems == read.records
            &&& read.current matches Some(system) ==> systems.len() == read.records.len() + 1
                && systems.last() == system && systems.drop_last() == read.records
        }),
{
    let read = creation::after_os_lines(model::lines(output));
    if let Some(system) = read.current {
        assert(read.records.push(system).drop_last() =~= read.records);
    }
}

// ---- New machines ----------------------------------------------------------------------

/// A machine that was registered is known by the field `UUID`, and where there is none by what
/// follows `UUID:` in the first line that has it.
pub proof fn law_a_new_machine_is_known_by_its_identifier(
    output: Text,
    i: int,
    before: Text,
    after: Text,
)
    requires
        0 <= i < model::lines(output).len(),
        model::lines(output)[i] == before + seq!['U', 'U', 'I', 'D', ':'] + after,
        !laws::has_char(before, 'U'),
        !laws::has_char(after, 'U'),
        forall|j: int| 0 <= j < i ==> !laws::has_char(#[trigger] model::lines(output)[j], 'U'),
    ensures
        ({
            let fields = machine_info::machine_fields(output);
            &&& fields.contains_key("UUID"@) ==> creation::created_uuid(output) == Some(
                fields["UUID"@],
            )
            &&& !fields.contains_key("UUID"@) ==> creation::created_uuid(output) == Some(
                model::trimmed(after),
            )
        }),
{
    reveal_strlit("UUID:");
    assert("UUID:"@ =~= seq!['U', 'U', 'I', 'D', ':']);
    lemma_split_at(before, "UUID:"@, after, 0);
    lemma_not_split(after, "UUID:"@, 0);
    assert(model::pieces(after, "UUID:"@) == seq![after]);
    assert(model::pieces(model::lines(output)[i], "UUID:"@) =~= seq![before, after]);
    lemma_uuid_from(model::lines(output), 0, i, after);
}

proof fn lemma_uuid_from(lines: Seq<Text>, from: int, i: int, after: Text)
    requires
        0 <= from <= i < lines.len(),
        "UUID:"@ == seq!['U', 'U', 'I', 'D', ':'],
        model::pieces(lines[i], "UUID:"@).len() == 2,
        model::pieces(lines[i], "UUID:"@)[1] == after,
        forall|j: int| 0 <= j < i ==> !laws::has_char(#[trigger] lines[j], 'U'),
    ensures
        creation::uuid_line_from(lines, from) == Some(model::trimmed(after)),
    decreases i - from,
{
    if from < i {
        lemma_not_split(lines[from], "UUID:"@, 0);
        assert(model::pieces(lines[from], "UUID:"@) == seq![lines[from]]);
        lemma_uuid_from(lines, from + 1, i, after);
    }
}

// ---- Guest properties ------------------------------------------------------------------

/// Whether a text neither begins nor ends with white space or an apostrophe.
pub open spec fn is_bare(s: Text) -> bool {
    s.len() > 0 && !model::is_space(s[0]) && !model::is_space(s.last()) && s[0] != '\'' && s.last()
        != '\''
}

/// A property is read from a line of either form: its name, an equality sign, its value between
/// apostrophes, an at sign and a time; or its name, its value and a time, each with its label. It
/// is noted under its name, and the other properties stay.
pub proof fn law_a_property_is_read_from_its_line(
    lines: Seq<Text>,
    line: Text,
    name: Text,
    value: Text,
    time: Text,
    other: Text,
)
    requires
        is_bare(name),
        is_bare(value),
        !laws::has_char(name, '=') && !laws::has_char(name, ','),
        !laws::has_char(value, '@') && !laws::has_char(value, ',') && !laws::has_char(value, '='),
        !laws::has_char(time, '='),
        other != name,
        ({
            ||| model::trimmed(line) == name + " = "@ + (seq!['\''] + value + seq!['\''] + " @ "@
                + time)
            ||| model::trimmed(line) == "Name: "@ + (name + ", value: "@ + (value + ", timestamp:"@
                + time))
        }),
    ensures
        ({
            let before = guest_observation::properties_of_lines(lines);
            let after = guest_observation::properties_of_lines(lines.push(line));
            &&& after.contains_key(name)
            &&& after[name] == value
            &&& after.contains_key(other) <==> before.contains_key(other)
            &&& before.contains_key(other) ==> after[other] == before[other]
        }),
{
    reveal_strlit(" = ");
    reveal_strlit(" @ ");
    assert(" = "@ =~= seq![' ', '=', ' ']);
    assert(" @ "@ =~= seq![' ', '@', ' ']);
    laws::law_trimming_is_done_once(name);
    laws::law_trimming_is_done_once(value);
    assert(lines.push(line).drop_last() =~= lines);
    let text = model::trimmed(line);
    if text == name + " = "@ + (seq!['\''] + value + seq!['\''] + " @ "@ + time) {
        let rest = seq!['\''] + value + seq!['\''] + " @ "@ + time;
        let quoted = seq!['\''] + value + seq!['\''];
        lemma_split_at(name, " = "@, rest, 1);
        assert forall|i: int| 0 <= i < quoted.len() implies #[trigger] quoted[i] != '@' by {
            if 0 < i < quoted.len() - 1 {
                assert(quoted[i] == value[i - 1]);
            }
        }
        lemma_split_at(quoted, " @ "@, time, 1);
        assert(guest_observation::upto(rest, " @ "@) == quoted);
        laws::law_trimming_is_done_once(quoted);
        lemma_unquoted(value);
        assert(guest_observation::property(line) == Some((name, value)));
    } else {
        reveal_strlit("Name: ");
        reveal_strlit(", value: ");
        reveal_strlit(", timestamp:");
        let tail = value + ", timestamp:"@ + time;
        let rest = name + ", value: "@ + tail;
        assert(text == "Name: "@ + rest);
        assert forall|i: int| 0 <= i < text.len() implies #[trigger] text[i] != '=' by {
            lemma_no_sign(name, value, time, i);
        }
        lemma_not_split(text, " = "@, 1);
        assert("Name: "@.is_prefix_of(text));
        assert(text.skip("Name: "@.len() as int) =~= rest);
        assert(", value: "@[0] == ',' && ", timestamp:"@[0] == ',');
        lemma_split_at(name, ", value: "@, tail, 0);
        lemma_split_at(value, ", timestamp:"@, time, 0);
        assert(guest_observation::upto(tail, ", timestamp:"@) == value);
        assert(guest_observation::property(line) == Some((name, value)));
    }
}

proof fn lemma_no_sign(name: Text, value: Text, time: Text, i: int)
    requires
        !laws::has_char(name, '='),
        !laws::has_char(value, '='),
        !laws::has_char(time, '='),
        0 <= i < ("Name: "@ + (name + ", value: "@ + (value + ", timestamp:"@ + time))).len(),
    ensures
        ("Name: "@ + (name + ", value: "@ + (value + ", timestamp:"@ + time)))[i] != '=',
{
    reveal_strlit("Name: ");
    reveal_strlit(", value: ");
    reveal_strlit(", timestamp:");
    let a = "Name: "@;
    let b = ", value: "@;
    let c = ", timestamp:"@;
    assert forall|j: int| 0 <= j < a.len() implies #[trigger] a[j] != '=' by {}
    assert forall|j: int| 0 <= j < b.len() implies #[trigger] b[j] != '=' by {}
    assert forall|j: int| 0 <= j < c.len() implies #[trigger] c[j] != '=' by {}
    let tail = value + c + time;
    let rest = name + b + tail;
    let text = a + rest;
    if i < a.len() {
        assert(text[i] == a[i]);
    } else {
        let j = i - a.len();
        assert(text[i] == rest[j]);
        if j < name.len() {
            assert(rest[j] == name[j]);
        } else if j < name.len() + b.len() {
            assert(rest[j] == b[j - name.len()]);
        } else {
            let k = j - name.len() - b.len();
            assert(rest[j] == tail[k]);
            if k < value.len() {
                assert(tail[k] == value[k]);
            } else if k < value.len() + c.len() {
                assert(tail[k] == c[k - value.len()]);
            } else {
                assert(tail[k] == time[k - value.len() - c.len()]);
            }
        }
    }
}

proof fn lemma_unquoted(value: Text)
    requires
        is_bare(value),
    ensures
        model::trimmed_of(seq!['\''] + value + seq!['\''], '\'') == value,
{
    let quoted = seq!['\''] + value + seq!['\''];
    let class = model::one_class('\'');
    let inner = value + seq!['\''];
    assert(quoted.skip(1) =~= inner);
    assert(inner[0] == value[0]);
    assert(model::without_leading(inner, class) == inner);
    assert(model::without_leading(quoted, class) == inner);
    assert(inner.drop_last() =~= value);
    assert(inner.last() == '\'');
    assert(model::without_trailing(value, class) == value);
    assert(model::without_trailing(inner, class) == value);
}

// ---- The host's processor --------------------------------------------------------------

/// Whether a line speaks of hardware virtualization.
pub open spec fn speaks(line: Text, label: Text, answer: Text) -> bool {
    &&& line == label + seq![':'] + answer
    &&& !laws::has_char(label, ':')
    &&& model::same_ignoring_case(
        model::trimmed(label),
        "Processor supports HW virtualization"@,
    )
}

/// Whether no label makes a line speak of hardware virtualization.
pub open spec fn is_silent(line: Text) -> bool {
    forall|label: Text, answer: Text| !#[trigger] speaks(line, label, answer)
}

/// Whether the host's processor can run machines is what the first line says that speaks of it:
/// yes, no, or something that does not tell.
pub proof fn law_the_processor_is_as_its_line_says(
    lines: Seq<Text>,
    i: int,
    label: Text,
    answer: Text,
)
    requires
        0 <= i < lines.len(),
        speaks(lines[i], label, answer),
        forall|j: int| 0 <= j < i ==> is_silent(#[trigger] lines[j]),
    ensures
        ({
            let said = recovery::support_from(lines, 0);
            let word = model::lower(model::trimmed(answer));
            &&& said == DetectionState::Yes <==> word == seq!['y', 'e', 's']
            &&& said == DetectionState::No <==> word == seq!['n', 'o']
        }),
{
    reveal_strlit("yes");
    reveal_strlit("no");
    assert("yes"@ =~= seq!['y', 'e', 's']);
    assert("no"@ =~= seq!['n', 'o']);
    assert(seq!['y', 'e', 's'].len() == 3 && seq!['n', 'o'].len() == 2);
    lemma_support(lines, 0, i, label, answer);
}

proof fn lemma_support(lines: Seq<Text>, from: int, i: int, label: Text, answer: Text)
    requires
        0 <= from <= i < lines.len(),
        speaks(lines[i], label, answer),
        forall|j: int| 0 <= j < i ==> is_silent(#[trigger] lines[j]),
    ensures
        recovery::support_from(lines, from) == recovery::support_line(lines[i])->0,
        recovery::support_line(lines[i]) is Some,
        model::split_once(lines[i], ":"@) == Some((label, answer)),
    decreases i - from,
{
    reveal_strlit(":");
    assert(":"@ =~= seq![':']);
    laws::law_splitting_finds_the_first_part(label, ':', answer);
    if from < i {
        let line = lines[from];
        assert(is_silent(line));
        laws::law_a_text_is_split_where_a_character_first_stands(line, ':');
        if let Some((before, after)) = model::split_once(line, seq![':']) {
            assert(!speaks(line, before, after));
        }
        assert(recovery::support_line(line) is None);
        lemma_support(lines, from + 1, i, label, answer);
    }
}

/// Where no line speaks of it, nothing is known of the processor.
pub proof fn law_a_silent_listing_tells_nothing(lines: Seq<Text>, from: int)
    requires
        0 <= from <= lines.len(),
        forall|j: int| 0 <= j < lines.len() ==> is_silent(#[trigger] lines[j]),
    ensures
        recovery::support_from(lines, from) == DetectionState::Unknown,
    decreases lines.len() - from,
{
    if from < lines.len() {
        reveal_strlit(":");
        assert(":"@ =~= seq![':']);
        let line = lines[from];
        assert(is_silent(line));
        laws::law_a_text_is_split_where_a_character_first_stands(line, ':');
        if let Some((before, after)) = model::split_once(line, seq![':']) {
            assert(!speaks(line, before, after));
        }
        law_a_silent_listing_tells_nothing(lines, from + 1);
    }
}

// ---- Machines --------------------------------------------------------------------------

/// A line of the list of machines is passed over where it is blank. Where it names a machine, that
/// machine is asked about by the identifier in the line, and is listed under the name in the line
/// where it could be asked about. Whatever is not listed for another reason is warned about.
pub proof fn law_a_listed_machine_is_asked_about(
    w: Run,
    line: Text,
    list: super::runtime::VirtualMachineListView,
)
    ensures
        ({
            let text = model::trimmed(line);
            let entry = machine_info::vm_list_entry(text);
            let (after, next) = service::list_line_p(w, line, list);
            &&& text.len() == 0 ==> after == w && next == list
            &&& text.len() > 0 && entry is None ==> after == w && next.machines == list.machines
                && next.warnings.len() == list.warnings.len() + 1
            &&& text.len() > 0 && entry is Some ==> {
                let (name, uuid) = entry->0;
                let (asked, found) = service::inspect_vm_p(w, uuid);
                &&& after == asked
                &&& after.requests == w.requests.push(
                    Request::Execute(seq!["showvminfo"@, uuid, "--machinereadable"@]),
                )
                &&& found is Err ==> next.machines == list.machines && next.warnings.len()
                    == list.warnings.len() + 1
                &&& found matches Ok(vm) ==> {
                    &&& next.warnings == list.warnings
                    &&& next.machines.len() == list.machines.len() + 1
                    &&& next.machines.drop_last() == list.machines
                    &&& next.machines.last().name == name
                    &&& next.machines.last().uuid == vm.uuid
                    &&& next.machines.last().state == vm.state
                    &&& next.machines.last().guest_os_description == vm.guest_os_description
                    &&& next.machines.last().usb_xhci_enabled == vm.usb_xhci_enabled
                    &&& next.machines.last().session_pid == vm.session_pid
                }
            }
        }),
{
    let text = model::trimmed(line);
    if let Some((name, uuid)) = machine_info::vm_list_entry(text) {
        let (_, next) = service::list_line_p(w, line, list);
        if service::inspect_vm_p(w, uuid).1 is Ok && text.len() > 0 {
            assert(next.machines.drop_last() =~= list.machines);
        }
    }
}

} // verus!
