//! What VirtualBox says about machines, and how it says it.
use super::runtime::{VirtualMachine, VirtualMachineView};
use crate::text::compose::{replace, to_lower};
use crate::text::model;
use crate::text::model::Text;
use crate::text::number::parse_number;
use crate::text::scan::{
    has, lines_of, same_any_case, split_at_first, split_at_last, strip_end, strip_start, trim,
    trim_char,
};
use crate::text_map;
use crate::text_map::TextMap;
use vstd::prelude::*;

verus! {

/// The name and the identifier in a line `"name" {identifier}`.
pub open spec fn vm_list_entry(line: Text) -> Option<(Text, Text)> {
    match model::after_prefix(line, "\""@) {
        None => None,
        Some(rest) => match model::last_upto(rest, "\" {"@, rest.len() as int) {
            None => None,
            Some(end) => match model::before_suffix(rest.skip(end + "\" {"@.len()), "}"@) {
                None => None,
                Some(uuid) => if end > 0 && uuid.len() > 0 {
                    Some((rest.take(end), uuid))
                } else {
                    None
                },
            },
        },
    }
}

/// The name and the identifier in a line of `VBoxManage list vms`.
pub fn parse_vm_list_line(line: &str) -> (r: Option<(String, String)>)
    ensures
        match r {
            Some((name, uuid)) => vm_list_entry(line@) == Some((name@, uuid@)),
            None => vm_list_entry(line@) is None,
        },
{
    let rest = match strip_start(line, "\"") {
        Some(rest) => rest,
        None => {
            return None;
        },
    };
    let (name, after) = match split_at_last(rest.as_str(), "\" {") {
        Some(parts) => parts,
        None => {
            return None;
        },
    };
    proof {
        lemma_last_upto(rest@, "\" {"@, rest@.len() as int);
    }
    let uuid = match strip_end(after.as_str(), "}") {
        Some(uuid) => uuid,
        None => {
            return None;
        },
    };
    if !name.as_str().is_empty() && !uuid.as_str().is_empty() {
        Some((name, uuid))
    } else {
        None
    }
}

proof fn lemma_last_upto(s: Text, pattern: Text, from: int)
    requires
        from <= s.len(),
    ensures
        model::last_upto(s, pattern, from) matches Some(i) ==> 0 <= i <= from && model::occurs_at(
            s,
            pattern,
            i,
        ),
    decreases from + 1,
{
    if from >= 0 && !model::occurs_at(s, pattern, from) {
        lemma_last_upto(s, pattern, from - 1);
    }
}

/// The key in the left part of a line.
pub open spec fn machine_key(left: Text) -> Text {
    model::trimmed_of(model::trimmed(left), '"')
}

/// The value in the right part of a line, with its escapes undone.
pub open spec fn machine_value(right: Text) -> Text {
    model::replaced(
        model::replaced(model::trimmed_of(model::trimmed(right), '"'), "\\\""@, "\""@),
        "\\\\"@,
        "\\"@,
    )
}

/// The fields that some lines state. Of two lines with one key the later counts.
pub open spec fn fields_of_lines(lines: Seq<Text>) -> Map<Text, Text>
    decreases lines.len(),
{
    if lines.len() == 0 {
        Map::empty()
    } else {
        let earlier = fields_of_lines(lines.drop_last());
        match model::split_once(lines.last(), "="@) {
            Some((left, right)) => earlier.insert(machine_key(left), machine_value(right)),
            None => earlier,
        }
    }
}

/// The fields of a machine-readable output.
pub open spec fn machine_fields(output: Text) -> Map<Text, Text> {
    fields_of_lines(model::lines(output))
}

/// Reads machine-readable output: lines of the form `key="value"`.
pub fn parse_machine_readable(output: &str) -> (r: TextMap<String>)
    ensures
        text_map::text_values(r@) == machine_fields(output@),
{
    let mut fields: TextMap<String> = TextMap::new();
    let lines = lines_of(output);
    let ghost all = model::texts(lines@);
    let mut i: usize = 0;
    assert(all.take(0) =~= Seq::<Text>::empty());
    assert(text_map::text_values(fields@) =~= Map::<Text, Text>::empty());
    while i < lines.len()
        invariant
            i <= lines@.len(),
            all == model::texts(lines@),
            text_map::text_values(fields@) == fields_of_lines(all.take(i as int)),
        decreases lines.len() - i,
    {
        proof {
            assert(all.take(i + 1).drop_last() =~= all.take(i as int));
            assert(all.take(i + 1).last() == lines@[i as int]@);
        }
        if let Some((left, right)) = split_at_first(lines[i].as_str(), "=") {
            let left = trim(left.as_str());
            let key = trim_char(left.as_str(), '"');
            let right = trim(right.as_str());
            let bare = trim_char(right.as_str(), '"');
            proof {
                reveal_strlit("\\\"");
                reveal_strlit("\\\\");
            }
            let unquoted = replace(bare.as_str(), "\\\"", "\"");
            let value = replace(unquoted.as_str(), "\\\\", "\\");
            let ghost before = fields@;
            fields.insert(key.as_str(), value);
            assert(text_map::text_values(fields@) =~= text_map::text_values(before).insert(
                key@,
                value@,
            ));
        }
        i += 1;
    }
    assert(all.take(i as int) =~= all);
    fields
}

/// The value of a field.
pub fn field(fields: &TextMap<String>, key: &str) -> (r: Option<String>)
    ensures
        model::opt_text(r) == text_map::lookup(text_map::text_values(fields@), key@),
{
    match fields.get(key) {
        Some(value) => Some(value.clone()),
        None => None,
    }
}

/// The value of a field, or another where it has none.
pub open spec fn field_or(fields: Map<Text, Text>, key: Text, other: Text) -> Text {
    match text_map::lookup(fields, key) {
        Some(value) => value,
        None => other,
    }
}

/// The value of a field, or another where it has none.
pub fn field_or_else(fields: &TextMap<String>, key: &str, other: &str) -> (r: String)
    ensures
        r@ == field_or(text_map::text_values(fields@), key@, other@),
{
    match fields.get(key) {
        Some(value) => value.clone(),
        None => other.to_owned(),
    }
}

/// The process that a field names. Zero is none.
pub open spec fn process_field(fields: Map<Text, Text>, key: Text) -> Option<u32> {
    match text_map::lookup(fields, key) {
        Some(value) => match model::parsed_number(value, u32::MAX as nat) {
            Some(n) => if n != 0 {
                Some(n as u32)
            } else {
                None
            },
            None => None,
        },
        None => None,
    }
}

/// The machine that fields describe. What they leave out is filled from the identifier that
/// was asked for.
pub open spec fn described_machine(fields: Map<Text, Text>, vm_id: Text) -> VirtualMachineView {
    VirtualMachineView {
        name: field_or(fields, "name"@, vm_id),
        uuid: field_or(fields, "UUID"@, vm_id),
        state: field_or(fields, "VMState"@, "unknown"@),
        guest_os_description: text_map::lookup(fields, "ostype"@),
        usb_xhci_enabled: match text_map::lookup(fields, "xhci"@) {
            Some(value) => Some(model::same_ignoring_case(value, "on"@)),
            None => None,
        },
        session_pid: process_field(fields, "SessionPID"@),
    }
}

/// The machine that fields describe.
pub fn describe_machine(fields: &TextMap<String>, vm_id: &str) -> (r: VirtualMachine)
    ensures
        r@ == described_machine(text_map::text_values(fields@), vm_id@),
{
    let session_pid: Option<u32> = match fields.get("SessionPID") {
        Some(value) => match parse_number(value.as_str(), 0xffff_ffff) {
            Some(n) => if n != 0 {
                Some(n as u32)
            } else {
                None
            },
            None => None,
        },
        None => None,
    };
    VirtualMachine {
        name: field_or_else(fields, "name", vm_id),
        uuid: field_or_else(fields, "UUID", vm_id),
        state: field_or_else(fields, "VMState", "unknown"),
        guest_os_description: field(fields, "ostype"),
        usb_xhci_enabled: match fields.get("xhci") {
            Some(value) => Some(same_any_case(value.as_str(), "on")),
            None => None,
        },
        session_pid,
    }
}

/// Whether a machine is running.
pub open spec fn is_running(vm: VirtualMachineView) -> bool {
    model::same_ignoring_case(vm.state, "running"@)
}

/// Whether a machine has a Windows guest.
pub open spec fn has_windows_guest(vm: VirtualMachineView) -> bool {
    vm.guest_os_description matches Some(kind) && model::contains(model::lower(kind), "windows"@)
}

/// Why a machine cannot be a seat's.
pub open spec fn machine_errors(vm: VirtualMachineView) -> Seq<Text> {
    (if has_windows_guest(vm) {
        seq![]
    } else {
        seq!["selected VM is not configured with a Windows guest OS type"@]
    }) + (if vm.usb_xhci_enabled == Some(false) {
        seq!["selected VM does not have its xHCI USB controller enabled"@]
    } else {
        seq![]
    })
}

/// Why a machine cannot be a seat's.
pub fn validate_vm(vm: &VirtualMachine) -> (r: Vec<String>)
    ensures
        model::texts(r@) == machine_errors(vm@),
{
    let mut errors: Vec<String> = Vec::new();
    let windows = match &vm.guest_os_description {
        Some(kind) => {
            let lower = to_lower(kind.as_str());
            has(lower.as_str(), "windows")
        },
        None => false,
    };
    if !windows {
        errors.push("selected VM is not configured with a Windows guest OS type".to_owned());
    }
    let xhci_off = match vm.usb_xhci_enabled {
        Some(enabled) => !enabled,
        None => false,
    };
    if xhci_off {
        errors.push("selected VM does not have its xHCI USB controller enabled".to_owned());
    }
    errors
}

} // verus!
