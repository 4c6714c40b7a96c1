//! How what VirtualBox prints is read, said of what it prints.
use super::executor::Answer;
use super::machine_info;
use super::runtime::VirtualMachineView;
use super::service;
use super::service::Run;
use crate::text::laws;
use crate::text::model;
use crate::text::model::Text;
use vstd::prelude::*;

verus! {

// ---- Lists of machines -----------------------------------------------------------------

/// A machine is listed by its name in quotation marks and its identifier in braces, and is read
/// as that name and that identifier, whatever the name holds.
pub proof fn law_a_listed_machine_is_read(name: Text, uuid: Text)
    requires
        name.len() > 0,
        uuid.len() > 0,
        !laws::has_char(uuid, '"'),
    ensures
        machine_info::vm_list_entry(seq!['"'] + name + seq!['"', ' ', '{'] + uuid + seq!['}'])
            == Some((name, uuid)),
{
    reveal_strlit("\"");
    reveal_strlit("\" {");
    reveal_strlit("}");
    assert("\""@ =~= seq!['"']);
    assert("\" {"@ =~= seq!['"', ' ', '{']);
    assert("}"@ =~= seq!['}']);
    let line = seq!['"'] + name + seq!['"', ' ', '{'] + uuid + seq!['}'];
    let rest = name + seq!['"', ' ', '{'] + uuid + seq!['}'];
    let n = name.len() as int;
    assert(line.skip(1) =~= rest);
    assert(rest.subrange(n, n + 3) =~= seq!['"', ' ', '{']);
    lemma_last(rest, n, rest.len() as int);
    assert(rest.skip(n + 3) =~= uuid + seq!['}']);
    assert((uuid + seq!['}']).take(uuid.len() as int) =~= uuid);
    assert(rest.take(n) =~= name);
}

proof fn lemma_last(rest: Text, n: int, from: int)
    requires
        0 <= n <= from <= rest.len(),
        model::occurs_at(rest, "\" {"@, n),
        forall|i: int| n < i < rest.len() ==> #[trigger] rest[i] != '"',
        "\" {"@ == seq!['"', ' ', '{'],
    ensures
        model::last_upto(rest, "\" {"@, from) == Some(n),
    decreases from,
{
    if from > n {
        if model::occurs_at(rest, "\" {"@, from) {
            assert(rest.subrange(from, from + 3)[0] == rest[from]);
        }
        lemma_last(rest, n, from - 1);
    }
}

/// What is read from a line is in it: the line is the name in quotation marks and the identifier
/// in braces, and neither is empty.
pub proof fn law_what_is_read_was_listed(line: Text)
    ensures
        machine_info::vm_list_entry(line) matches Some((name, uuid)) ==> {
            &&& line == seq!['"'] + name + seq!['"', ' ', '{'] + uuid + seq!['}']
            &&& name.len() > 0
            &&& uuid.len() > 0
        },
{
    reveal_strlit("\"");
    reveal_strlit("\" {");
    reveal_strlit("}");
    assert("\""@ =~= seq!['"']);
    assert("\" {"@ =~= seq!['"', ' ', '{']);
    assert("}"@ =~= seq!['}']);
    if let Some((name, uuid)) = machine_info::vm_list_entry(line) {
        let rest = line.skip(1);
        lemma_found(rest, "\" {"@, rest.len() as int);
        let end = model::last_upto(rest, "\" {"@, rest.len() as int)->0;
        let after = rest.skip(end + 3);
        assert(line =~= seq!['"'] + rest);
        assert(rest.subrange(end, end + 3) == seq!['"', ' ', '{']);
        assert(rest =~= rest.take(end) + rest.subrange(end, end + 3) + after);
        assert(after =~= uuid + seq!['}']);
        assert(line =~= seq!['"'] + name + seq!['"', ' ', '{'] + uuid + seq!['}']);
    }
}

proof fn lemma_found(s: Text, pattern: Text, from: int)
    requires
        from <= s.len(),
    ensures
        model::last_upto(s, pattern, from) matches Some(i) ==> 0 <= i <= from && model::occurs_at(
            s,
            pattern,
            i,
        ),
    decreases from + 1,
{
    if from >= 0 && !model::occurs_at(s, pattern, from) {
        lemma_found(s, pattern, from - 1);
    }
}

// ---- Fields ----------------------------------------------------------------------------

/// Whether a text is free of what is taken off or undone when a field is read.
pub open spec fn is_plain(s: Text) -> bool {
    forall|i: int|
        0 <= i < s.len() ==> #[trigger] s[i] != '"' && s[i] != '\\' && !model::is_space(s[i])
}

/// A line that states a field gives it its value, whatever was stated before, and leaves the
/// other fields as they were. A line that states none changes nothing.
pub proof fn law_a_line_states_a_field(lines: Seq<Text>, key: Text, value: Text, other: Text)
    requires
        is_plain(key),
        is_plain(value),
        !laws::has_char(key, '='),
        other != key,
    ensures
        ({
            let line = key + seq!['='] + seq!['"'] + value + seq!['"'];
            let before = machine_info::fields_of_lines(lines);
            let after = machine_info::fields_of_lines(lines.push(line));
            &&& after.contains_key(key)
            &&& after[key] == value
            &&& after.contains_key(other) <==> before.contains_key(other)
            &&& before.contains_key(other) ==> after[other] == before[other]
        }),
{
    reveal_strlit("=");
    assert("="@ =~= seq!['=']);
    let quoted = seq!['"'] + value + seq!['"'];
    let line = key + seq!['='] + seq!['"'] + value + seq!['"'];
    assert(line =~= key + seq!['='] + quoted);
    laws::law_splitting_finds_the_first_part(key, '=', quoted);
    let all = lines.push(line);
    assert(all.drop_last() =~= lines);
    assert(all.last() == line);
    lemma_plain_key(key);
    lemma_plain_value(value);
}

/// A line without an equality sign states nothing.
pub proof fn law_other_lines_state_nothing(lines: Seq<Text>, line: Text)
    requires
        !laws::has_char(line, '='),
    ensures
        machine_info::fields_of_lines(lines.push(line)) == machine_info::fields_of_lines(lines),
        machine_info::fields_of_lines(seq![]) == Map::<Text, Text>::empty(),
{
    reveal_strlit("=");
    assert("="@ =~= seq!['=']);
    laws::law_a_text_is_split_where_a_character_first_stands(line, '=');
    if let Some((before, after)) = model::split_once(line, seq!['=']) {
        assert(line[before.len() as int] == '=');
    }
    assert(lines.push(line).drop_last() =~= lines);
}

proof fn lemma_ends_stay(s: Text, c: char)
    requires
        s.len() == 0 || (s[0] != c && s.last() != c),
    ensures
        model::trimmed_of(s, c) == s,
{
}

proof fn lemma_plain_key(key: Text)
    requires
        is_plain(key),
    ensures
        machine_info::machine_key(key) == key,
{
    laws::law_trimming_is_done_once(key);
    lemma_ends_stay(key, '"');
}

proof fn lemma_plain_value(value: Text)
    requires
        is_plain(value),
    ensures
        machine_info::machine_value(seq!['"'] + value + seq!['"']) == value,
{
    reveal_strlit("\\\"");
    reveal_strlit("\\\\");
    let quoted = seq!['"'] + value + seq!['"'];
    laws::law_trimming_is_done_once(quoted);
    let class = model::one_class('"');
    let inner = value + seq!['"'];
    assert(quoted.skip(1) =~= inner);
    if value.len() > 0 {
        assert(inner[0] == value[0]);
        assert(model::without_leading(inner, class) == inner);
        assert(model::without_leading(quoted, class) == inner);
        assert(inner.drop_last() =~= value);
        assert(inner.last() == '"');
        assert(value.last() != '"');
        assert(model::without_trailing(value, class) == value);
        assert(model::without_trailing(inner, class) == value);
    } else {
        assert(inner =~= seq!['"']);
        assert(inner.skip(1) =~= Seq::<char>::empty());
        assert(model::without_leading(inner.skip(1), class) == Seq::<char>::empty());
        assert(model::without_leading(inner, class) == Seq::<char>::empty());
        assert(model::without_leading(quoted, class) == Seq::<char>::empty());
        assert(value =~= Seq::<char>::empty());
    }
    assert(model::trimmed_of(quoted, '"') == value);
    lemma_nothing_replaced(value, "\\\""@, "\""@);
    lemma_nothing_replaced(value, "\\\\"@, "\\"@);
}

proof fn lemma_nothing_replaced(s: Text, pattern: Text, by: Text)
    requires
        is_plain(s),
        pattern.len() > 0,
        pattern[0] == '\\',
    ensures
        model::replaced(s, pattern, by) == s,
{
    model::lemma_first_from(s, pattern, 0);
    if let Some(i) = model::first_from(s, pattern, 0) {
        assert(s.subrange(i, i + pattern.len())[0] == s[i]);
    }
}

// ---- Machines --------------------------------------------------------------------------

/// What a machine is told to be is what its fields say, each thing under its own name. A machine
/// without a name or an identifier goes by what it was asked for under, and one without a state is
/// in none that is known.
pub proof fn law_a_machine_is_what_its_fields_say(fields: Map<Text, Text>, vm_id: Text)
    ensures
        ({
            let vm = machine_info::described_machine(fields, vm_id);
            &&& vm.name == (if fields.contains_key("name"@) {
                fields["name"@]
            } else {
                vm_id
            })
            &&& vm.uuid == (if fields.contains_key("UUID"@) {
                fields["UUID"@]
            } else {
                vm_id
            })
            &&& vm.state == (if fields.contains_key("VMState"@) {
                fields["VMState"@]
            } else {
                "unknown"@
            })
            &&& vm.guest_os_description is Some <==> fields.contains_key("ostype"@)
            &&& vm.guest_os_description is Some ==> vm.guest_os_description->0 == fields["ostype"@]
            &&& vm.usb_xhci_enabled is Some <==> fields.contains_key("xhci"@)
            &&& vm.usb_xhci_enabled == Some(true) <==> fields.contains_key("xhci"@)
                && model::same_ignoring_case(fields["xhci"@], seq!['o', 'n'])
            &&& vm.session_pid != Some(0u32)
        }),
{
    reveal_strlit("on");
    assert("on"@ =~= seq!['o', 'n']);
}

/// The process of a machine is the number that its field states in decimal digits.
pub proof fn law_the_process_is_the_number_stated(
    fields: Map<Text, Text>,
    vm_id: Text,
    process: u32,
)
    requires
        process != 0,
        fields.contains_key("SessionPID"@),
        fields["SessionPID"@] == model::decimal(process as nat),
    ensures
        machine_info::described_machine(fields, vm_id).session_pid == Some(process),
{
    laws::law_numbers_are_read_back(process as nat, u32::MAX as nat);
}

/// A machine can be a seat's exactly where its guest is Windows and its USB controller is not
/// switched off. Each of the two that fails is told.
pub proof fn law_a_machine_must_be_windows_with_usb(vm: VirtualMachineView)
    ensures
        ({
            let errors = machine_info::machine_errors(vm);
            let windows = vm.guest_os_description is Some && model::contains(
                model::lower(vm.guest_os_description->0),
                seq!['w', 'i', 'n', 'd', 'o', 'w', 's'],
            );
            let no_usb = vm.usb_xhci_enabled == Some(false);
            &&& errors.len() == 0 <==> windows && !no_usb
            &&& errors.contains("selected VM is not configured with a Windows guest OS type"@)
                <==> !windows
            &&& errors.contains("selected VM does not have its xHCI USB controller enabled"@)
                <==> no_usb
        }),
{
    reveal_strlit("windows");
    assert("windows"@ =~= seq!['w', 'i', 'n', 'd', 'o', 'w', 's']);
    reveal_strlit("selected VM is not configured with a Windows guest OS type");
    reveal_strlit("selected VM does not have its xHCI USB controller enabled");
    let one = "selected VM is not configured with a Windows guest OS type"@;
    let other = "selected VM does not have its xHCI USB controller enabled"@;
    assert(one[12] == 'i' && other[12] == 'd');
    let errors = machine_info::machine_errors(vm);
    if !machine_info::has_windows_guest(vm) {
        assert(errors[0] == one);
    }
    if vm.usb_xhci_enabled == Some(false) {
        assert(errors[errors.len() - 1] == other);
    }
}

// ---- Answers ---------------------------------------------------------------------------

/// A command is put to VirtualBox as it is. It succeeds exactly where VirtualBox ran it and said
/// that it did, and then what came back is what VirtualBox gave.
pub proof fn law_a_command_succeeds_where_virtual_box_says_so(w: Run, arguments: Seq<Text>)
    ensures
        ({
            let n = w.requests.len() as int;
            let answer: Answer = (w.oracle)(n)->Output_0;
            let (after, result) = service::checked_p(w, arguments);
            &&& after.requests == w.requests.push(service::Request::Execute(arguments))
            &&& after.state == w.state
            &&& result is Ok <==> answer is Ok && answer->Ok_0.success
            &&& result is Ok ==> result == answer
            &&& answer is Err ==> result == answer
        }),
{
}

/// A machine is described by one question about it, and the description is that of the fields in
/// the answer.
pub proof fn law_a_machine_is_asked_about_by_its_identifier(w: Run, vm_id: Text)
    ensures
        ({
            let n = w.requests.len() as int;
            let answer: Answer = (w.oracle)(n)->Output_0;
            let (after, result) = service::inspect_vm_p(w, vm_id);
            let command = seq!["showvminfo"@, vm_id, "--machinereadable"@];
            &&& after.requests == w.requests.push(service::Request::Execute(command))
            &&& result is Ok <==> answer is Ok && answer->Ok_0.success
            &&& result matches Ok(vm) ==> vm == machine_info::described_machine(
                machine_info::machine_fields(answer->Ok_0.stdout),
                vm_id,
            )
        }),
{
}

/// A policy is read from the first line that begins with `Value:`, and is what follows, without
/// the white space around it. Where no line does, or nothing follows, there is none.
pub proof fn law_a_value_is_the_first_stated(output: Text)
    ensures
        ({
            let lines = model::lines(output);
            let found = service::extra_data(output);
            &&& found matches Some(value) ==> exists|i: int|
                #![trigger lines[i]]
                0 <= i < lines.len() && is_value_line(lines[i], value) && forall|j: int|
                    0 <= j < i ==> !begins_value(#[trigger] lines[j])
            &&& (forall|j: int| 0 <= j < lines.len() ==> !begins_value(#[trigger] lines[j]))
                ==> found is None
            &&& found matches Some(value) ==> value.len() > 0
        }),
{
    lemma_value_from(model::lines(output), 0);
}

/// Whether a line states a value.
pub open spec fn begins_value(line: Text) -> bool {
    let text = model::trimmed(line);
    text.len() >= 6 && text.take(6) == seq!['V', 'a', 'l', 'u', 'e', ':']
}

/// Whether a line states a certain value.
pub open spec fn is_value_line(line: Text, value: Text) -> bool {
    begins_value(line) && value == model::trimmed(model::trimmed(line).skip(6))
}

proof fn lemma_value_from(lines: Seq<Text>, from: int)
    requires
        0 <= from <= lines.len(),
    ensures
        ({
            let found = service::value_from(lines, from);
            &&& found matches Some(value) ==> exists|i: int|
                #![trigger lines[i]]
                from <= i < lines.len() && is_value_line(lines[i], value) && forall|j: int|
                    from <= j < i ==> !begins_value(#[trigger] lines[j])
            &&& found is None ==> forall|j: int|
                from <= j < lines.len() ==> !begins_value(#[trigger] lines[j])
            &&& (forall|j: int| from <= j < lines.len() ==> !begins_value(#[trigger] lines[j]))
                ==> found is None
        }),
    decreases lines.len() - from,
{
    reveal_strlit("Value:");
    let head = seq!['V', 'a', 'l', 'u', 'e', ':'];
    assert("Value:"@ =~= head);
    if from < lines.len() {
        let text = model::trimmed(lines[from]);
        assert(head.is_prefix_of(text) <==> begins_value(lines[from])) by {
            if head.is_prefix_of(text) {
                assert(text.take(6) =~= head);
            }
            if begins_value(lines[from]) {
                assert(head =~= text.subrange(0, 6));
            }
        }
        if begins_value(lines[from]) {
            assert(is_value_line(lines[from], model::trimmed(text.skip(6))));
        } else {
            lemma_value_from(lines, from + 1);
        }
    }
}

/// A policy that was set is read back before it counts: setting it succeeds exactly where
/// VirtualBox took it and then gives it back, up to the case of letters.
pub proof fn law_a_policy_counts_where_it_is_given_back(w: Run, vm_id: Text, policy: Text)
    ensures
        ({
            let n = w.requests.len() as int;
            let taken: Answer = (w.oracle)(n)->Output_0;
            let given: Answer = (w.oracle)(n + 1)->Output_0;
            let key = "GUI/MouseCapturePolicy"@;
            let (after, result) = service::set_capture_policy_p(w, vm_id, policy);
            &&& after.requests.len() >= n + 1
            &&& after.requests[n] == service::Request::Execute(
                seq!["setextradata"@, vm_id, key, policy],
            )
            &&& after.requests.len() > n + 1 ==> after.requests.len() == n + 2
                && after.requests[n + 1] == service::Request::Execute(
                seq!["getextradata"@, vm_id, key],
            )
            &&& result is Ok <==> taken is Ok && taken->Ok_0.success && given is Ok
                && given->Ok_0.success && service::extra_data(given->Ok_0.stdout) is Some
                && model::same_ignoring_case(
                service::extra_data(given->Ok_0.stdout)->0,
                policy,
            )
        }),
{
}

/// Waiting for a state succeeds only where the machine was seen in it. A machine that is in it at
/// once is not waited for, and one that cannot be asked about ends the waiting.
pub proof fn law_a_state_is_waited_for(w: Run, vm_id: Text, desired: Text, attempts: nat)
    ensures
        ({
            let n = w.requests.len() as int;
            let (after, result) = service::wait_for_state_p(w, vm_id, desired, attempts, None);
            let (w1, seen) = service::inspect_vm_p(w, vm_id);
            &&& attempts == 0 ==> result is Err && after == w
            &&& attempts > 0 && seen is Err ==> result is Err && after == w1
            &&& attempts > 0 && seen is Ok && model::same_ignoring_case(seen->Ok_0.state, desired)
                ==> result is Ok && after == w1
            &&& attempts == 1 && seen is Ok && !model::same_ignoring_case(
                seen->Ok_0.state,
                desired,
            ) ==> result is Err
            &&& attempts > 1 && seen is Ok && !model::same_ignoring_case(
                seen->Ok_0.state,
                desired,
            ) ==> {
                let waited = Run {
                    requests: w1.requests.push(service::Request::Wait(500)),
                    ..w1
                };
                (after, result) == service::wait_for_state_p(
                    waited,
                    vm_id,
                    desired,
                    (attempts - 1) as nat,
                    None,
                )
            }
        }),
{
    reveal_with_fuel(service::wait_for_state_p, 3);
}

} // verus!
