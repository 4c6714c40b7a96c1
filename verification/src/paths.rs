//! File paths of the host, as text: Windows paths, wherever the library runs.
//!
//! A path's parts stand between slashes or backslashes, and are joined by backslashes. A path
//! may begin with a drive such as `C:`, with a network share such as `\\server\share`, or with a
//! device such as `\\.\COM1`. A drive without a separator after it stands for the drive's current
//! directory, so `C:a` is a file of that directory. Empty parts and single dots lead nowhere and
//! are passed over, but for a single dot that a relative path begins with.
//!
//! A path that begins with `\\?\` is verbatim: in it only a backslash separates parts, and a
//! single dot is a part like any other. It may go on with a drive, with `UNC\` and a network
//! share, or with some other name.
use crate::text::compose::{chars_of, concat2, concat3, text_of};
use crate::text::model;
use crate::text::model::Text;
use crate::text::scan::{letter, same, same_any_case, split_at_last};
use vstd::prelude::*;

verus! {

pub open spec fn is_separator(c: char) -> bool {
    c == '/' || c == '\\'
}

/// Whether a path is verbatim.
pub open spec fn is_verbatim(path: Text) -> bool {
    path.len() >= 4 && path[0] == '\\' && path[1] == '\\' && path[2] == '?' && path[3] == '\\'
}

/// Whether a character separates the parts of a path.
pub open spec fn separates(verbatim: bool, c: char) -> bool {
    c == '\\' || (c == '/' && !verbatim)
}

/// Whether a path is a drive, such as `C:`.
pub open spec fn is_drive(path: Text) -> bool {
    path.len() == 2 && model::is_letter(path[0]) && path[1] == ':'
}

/// The first separator at or after a place, or the end of the path.
pub open spec fn part_end(path: Text, verbatim: bool, from: int) -> int
    decreases path.len() - from,
{
    if from >= path.len() {
        path.len() as int
    } else if separates(verbatim, path[from]) {
        from
    } else {
        part_end(path, verbatim, from + 1)
    }
}

/// Where the drive, the share or the name ends that a verbatim path begins with.
pub open spec fn verbatim_end(path: Text) -> int {
    if path.len() >= 8 && path[4] == 'U' && path[5] == 'N' && path[6] == 'C' && is_separator(
        path[7],
    ) {
        let server = part_end(path, true, 8);
        let share = part_end(path, true, server + 1);
        if server + 1 < share {
            share
        } else {
            server
        }
    } else if path.len() >= 6 && is_drive(path.subrange(4, 6)) && (path.len() == 6
        || is_separator(path[6])) {
        6
    } else {
        part_end(path, true, 4)
    }
}

/// Where the drive, the share or the device ends that a path begins with, or 0.
pub open spec fn prefix_end(path: Text) -> int {
    if is_verbatim(path) {
        verbatim_end(path)
    } else if path.len() < 2 {
        0
    } else if is_drive(path.take(2)) {
        2
    } else if !is_separator(path[0]) || !is_separator(path[1]) {
        0
    } else if path.len() >= 4 && path[2] == '.' && is_separator(path[3]) {
        part_end(path, false, 4)
    } else {
        let server = part_end(path, false, 2);
        let share = part_end(path, false, server + 1);
        if 2 < server && server + 1 < share {
            share
        } else {
            0
        }
    }
}

/// Where the parts of a path begin: after its drive or share, its root, or the single dot that
/// a relative path begins with.
pub open spec fn base_end(path: Text) -> int {
    let prefix = prefix_end(path);
    if prefix >= path.len() {
        prefix
    } else if is_separator(path[prefix]) || (!is_verbatim(path) && path[prefix] == '.'
        && part_end(path, false, prefix) == prefix + 1) {
        prefix + 1
    } else {
        prefix
    }
}

/// The place after the last separator between two places, or the first of them.
pub open spec fn part_start(path: Text, verbatim: bool, base: int, end: int) -> int
    decreases end - base,
{
    if end <= base || end > path.len() {
        base
    } else if separates(verbatim, path[end - 1]) {
        end
    } else {
        part_start(path, verbatim, base, end - 1)
    }
}

/// Where a path ends once the part that starts at a place is taken off, with the separator
/// before it.
pub open spec fn above(base: int, start: int) -> int {
    if start > base {
        start - 1
    } else {
        base
    }
}

/// Where a path ends without the parts at its end that are passed over.
pub open spec fn trimmed_end(path: Text, verbatim: bool, base: int, end: int) -> int
    decreases end,
{
    if end <= base || end > path.len() || base < 0 {
        end
    } else {
        let start = part_start(path, verbatim, base, end);
        if (start >= end || (!verbatim && start + 1 == end && path[start] == '.')) && above(
            base,
            start,
        ) < end {
            trimmed_end(path, verbatim, base, above(base, start))
        } else {
            end
        }
    }
}

/// Where the last part of a path ends.
pub open spec fn body_end(path: Text) -> int {
    trimmed_end(path, is_verbatim(path), base_end(path), path.len() as int)
}

/// Where the last part of a path starts.
pub open spec fn name_start(path: Text) -> int {
    part_start(path, is_verbatim(path), base_end(path), body_end(path))
}

/// The name of the file that a path leads to, where it leads to one.
pub open spec fn file_name(path: Text) -> Option<Text> {
    let name = path.subrange(name_start(path), body_end(path));
    if body_end(path) <= base_end(path) || name == ".."@ || name == "."@ {
        None
    } else {
        Some(name)
    }
}

/// The extension of a file name: what follows its last dot, unless that dot comes first.
pub open spec fn name_extension(name: Text) -> Option<Text> {
    match model::last_upto(name, "."@, name.len() as int) {
        Some(i) => if i > 0 {
            Some(name.skip(i + 1))
        } else {
            None
        },
        None => None,
    }
}

/// The extension of the file that a path leads to.
pub open spec fn extension(path: Text) -> Option<Text> {
    match file_name(path) {
        Some(name) => name_extension(name),
        None => None,
    }
}

/// The directory that a path stands in. A root, a drive and a share stand in none.
pub open spec fn parent(path: Text) -> Option<Text> {
    let base = base_end(path);
    if body_end(path) > base {
        Some(
            path.take(
                trimmed_end(path, is_verbatim(path), base, above(base, name_start(path))),
            ),
        )
    } else if path.len() > 0 && prefix_end(path) == 0 && !is_separator(path[0]) {
        Some(seq![])
    } else {
        None
    }
}

/// Text in which no backslash follows another.
pub open spec fn single_backslashes(text: Text) -> Text
    decreases text.len(),
{
    if text.len() == 0 {
        seq![]
    } else {
        let rest = single_backslashes(text.drop_last());
        if text.last() == '\\' && text.len() > 1 && text[text.len() - 2] == '\\' {
            rest
        } else {
            rest.push(text.last())
        }
    }
}

/// A verbatim path with its parts joined anew: its root, where it has one, is a backslash, and
/// one backslash stands between its parts.
pub open spec fn joined_anew(path: Text) -> Text {
    let prefix = prefix_end(path);
    if prefix >= path.len() {
        path + "\\"@
    } else {
        let parts = single_backslashes("\\"@ + path.skip(prefix + 1));
        path.take(prefix) + parts + (if parts.last() == '\\' {
            seq![]
        } else {
            "\\"@
        })
    }
}

/// A plain name in a directory. No separator follows a drive alone, which stands for the
/// drive's current directory.
pub open spec fn joined(directory: Text, name: Text) -> Text {
    if is_verbatim(directory) {
        joined_anew(directory) + name
    } else if directory.len() == 0 || is_separator(directory.last()) || is_drive(directory) {
        directory + name
    } else {
        directory + "\\"@ + name
    }
}

fn separator(c: char) -> (r: bool)
    ensures
        r == is_separator(c),
{
    c == '/' || c == '\\'
}

fn parts_at(verbatim: bool, c: char) -> (r: bool)
    ensures
        r == separates(verbatim, c),
{
    c == '\\' || (c == '/' && !verbatim)
}

fn verbatim_path(chars: &Vec<char>) -> (r: bool)
    ensures
        r == is_verbatim(chars@),
{
    chars.len() >= 4 && chars[0] == '\\' && chars[1] == '\\' && chars[2] == '?' && chars[3] == '\\'
}

fn drive_at(chars: &Vec<char>, from: usize) -> (r: bool)
    requires
        from + 2 <= usize::MAX,
    ensures
        r == (chars@.len() >= from + 2 && is_drive(chars@.subrange(from as int, from + 2))),
{
    chars.len() >= from + 2 && letter(chars[from]) && chars[from + 1] == ':'
}

fn end_of_part(chars: &Vec<char>, verbatim: bool, from: usize) -> (r: usize)
    requires
        from <= chars@.len(),
    ensures
        from <= r <= chars@.len(),
        r == part_end(chars@, verbatim, from as int),
{
    let mut end: usize = from;
    while end < chars.len() && !parts_at(verbatim, chars[end])
        invariant
            from <= end <= chars@.len(),
            part_end(chars@, verbatim, from as int) == part_end(chars@, verbatim, end as int),
        decreases chars@.len() - end,
    {
        end += 1;
    }
    end
}

fn end_of_verbatim(chars: &Vec<char>) -> (r: usize)
    requires
        is_verbatim(chars@),
    ensures
        4 <= r <= chars@.len(),
        r == verbatim_end(chars@),
{
    let count = chars.len();
    if count >= 8 && chars[4] == 'U' && chars[5] == 'N' && chars[6] == 'C' && separator(chars[7]) {
        let server = end_of_part(chars, true, 8);
        if server == count {
            return server;
        }
        let share = end_of_part(chars, true, server + 1);
        if server + 1 < share {
            share
        } else {
            server
        }
    } else if drive_at(chars, 4) && (count == 6 || separator(chars[6])) {
        6
    } else {
        end_of_part(chars, true, 4)
    }
}

fn end_of_prefix(chars: &Vec<char>) -> (r: usize)
    ensures
        r <= chars@.len(),
        r == prefix_end(chars@),
{
    if verbatim_path(chars) {
        return end_of_verbatim(chars);
    }
    assert(chars@.len() >= 2 ==> chars@.subrange(0, 2) =~= chars@.take(2));
    if drive_at(chars, 0) {
        return 2;
    }
    if chars.len() < 2 || !separator(chars[0]) || !separator(chars[1]) {
        return 0;
    }
    if chars.len() >= 4 && chars[2] == '.' && separator(chars[3]) {
        return end_of_part(chars, false, 4);
    }
    let server = end_of_part(chars, false, 2);
    if server == chars.len() {
        return 0;
    }
    let share = end_of_part(chars, false, server + 1);
    if 2 < server && server + 1 < share {
        share
    } else {
        0
    }
}

fn end_of_base(chars: &Vec<char>) -> (r: usize)
    ensures
        r <= chars@.len(),
        r == base_end(chars@),
{
    let prefix = end_of_prefix(chars);
    if prefix >= chars.len() {
        prefix
    } else if separator(chars[prefix]) || (!verbatim_path(chars) && chars[prefix] == '.'
        && end_of_part(chars, false, prefix) == prefix + 1) {
        prefix + 1
    } else {
        prefix
    }
}

fn start_of_part(chars: &Vec<char>, verbatim: bool, base: usize, end: usize) -> (r: usize)
    requires
        base <= end <= chars@.len(),
    ensures
        base <= r <= end,
        r == part_start(chars@, verbatim, base as int, end as int),
{
    let mut start: usize = end;
    while start > base && !parts_at(verbatim, chars[start - 1])
        invariant
            base <= start <= end <= chars@.len(),
            part_start(chars@, verbatim, base as int, end as int) == part_start(
                chars@,
                verbatim,
                base as int,
                start as int,
            ),
        decreases start,
    {
        start -= 1;
    }
    start
}

fn without_part(base: usize, start: usize) -> (r: usize)
    ensures
        r == above(base as int, start as int),
{
    if start > base {
        start - 1
    } else {
        base
    }
}

fn end_trimmed(chars: &Vec<char>, verbatim: bool, base: usize, from: usize) -> (r: usize)
    requires
        base <= from <= chars@.len(),
    ensures
        base <= r <= from,
        r == trimmed_end(chars@, verbatim, base as int, from as int),
{
    let mut end: usize = from;
    while end > base
        invariant
            base <= end <= from <= chars@.len(),
            trimmed_end(chars@, verbatim, base as int, from as int) == trimmed_end(
                chars@,
                verbatim,
                base as int,
                end as int,
            ),
        decreases end,
    {
        let start = start_of_part(chars, verbatim, base, end);
        if start == end || (!verbatim && start + 1 == end && chars[start] == '.') {
            end = without_part(base, start);
        } else {
            return end;
        }
    }
    end
}

/// The name of the file that a path leads to, where it leads to one.
pub fn file_name_of(path: &str) -> (r: Option<String>)
    ensures
        model::opt_text(r) == file_name(path@),
{
    let chars = chars_of(path);
    let verbatim = verbatim_path(&chars);
    let base = end_of_base(&chars);
    let end = end_trimmed(&chars, verbatim, base, chars.len());
    if end <= base {
        return None;
    }
    let start = start_of_part(&chars, verbatim, base, end);
    let name = text_of(&chars, start, end);
    if same(name.as_str(), "..") || same(name.as_str(), ".") {
        None
    } else {
        Some(name)
    }
}

/// The extension of the file that a path leads to.
pub fn extension_of(path: &str) -> (r: Option<String>)
    ensures
        model::opt_text(r) == extension(path@),
{
    let name = match file_name_of(path) {
        Some(name) => name,
        None => {
            return None;
        },
    };
    proof {
        reveal_strlit(".");
    }
    match split_at_last(name.as_str(), ".") {
        Some((before, after)) => {
            proof {
                lemma_last_place(name@, "."@, name@.len() as int);
            }
            if before.as_str().is_empty() {
                None
            } else {
                Some(after)
            }
        },
        None => None,
    }
}

proof fn lemma_last_place(s: Text, pattern: Text, from: int)
    requires
        from <= s.len(),
    ensures
        model::last_upto(s, pattern, from) matches Some(i) ==> 0 <= i <= from,
    decreases from + 1,
{
    if from >= 0 && !model::occurs_at(s, pattern, from) {
        lemma_last_place(s, pattern, from - 1);
    }
}

/// Whether the extension of a path is another, up to ASCII case.
pub fn has_extension(path: &str, wanted: &str) -> (r: bool)
    ensures
        r == model::is_ignoring_case(extension(path@), wanted@),
{
    match extension_of(path) {
        Some(found) => same_any_case(found.as_str(), wanted),
        None => false,
    }
}

/// The directory that a path stands in.
pub fn parent_of(path: &str) -> (r: Option<String>)
    ensures
        model::opt_text(r) == parent(path@),
{
    let chars = chars_of(path);
    let verbatim = verbatim_path(&chars);
    let base = end_of_base(&chars);
    let end = end_trimmed(&chars, verbatim, base, chars.len());
    if end > base {
        let start = start_of_part(&chars, verbatim, base, end);
        let above_end = end_trimmed(&chars, verbatim, base, without_part(base, start));
        let directory = text_of(&chars, 0, above_end);
        assert(directory@ =~= path@.take(above_end as int));
        Some(directory)
    } else if chars.len() > 0 && end_of_prefix(&chars) == 0 && !separator(chars[0]) {
        Some(String::new())
    } else {
        None
    }
}

fn join_anew(path: &str) -> (r: String)
    requires
        is_verbatim(path@),
    ensures
        r@ == joined_anew(path@),
{
    let chars = chars_of(path);
    let prefix = end_of_prefix(&chars);
    if prefix >= chars.len() {
        return concat2(path, "\\");
    }
    proof {
        reveal_strlit("\\");
    }
    let mut text = text_of(&chars, 0, prefix);
    let ghost start = path@.take(prefix as int);
    let ghost whole = "\\"@ + path@.skip(prefix + 1);
    text.push('\\');
    let mut last = '\\';
    let mut i: usize = prefix + 1;
    proof {
        assert(whole.take(1) =~= seq!['\\']);
        assert(whole.take(1).drop_last() =~= seq![]);
        reveal_with_fuel(single_backslashes, 2);
        assert(text@ =~= start + single_backslashes(whole.take(1)));
    }
    while i < chars.len()
        invariant
            prefix + 1 <= i <= chars@.len(),
            chars@ == path@,
            whole.len() == chars@.len() - prefix,
            whole[0] == '\\',
            forall|k: int| 1 <= k < whole.len() ==> #[trigger] whole[k] == chars@[prefix + k],
            text@ == start + single_backslashes(whole.take(i - prefix)),
            last == whole[i - prefix - 1],
        decreases chars@.len() - i,
    {
        let c = chars[i];
        let ghost here = i - prefix;
        proof {
            assert(whole[here] == c);
            assert(whole.take(here + 1).drop_last() =~= whole.take(here));
            assert(whole.take(here + 1).last() == c);
            assert(whole.take(here + 1)[here - 1] == last);
        }
        if c != '\\' || last != '\\' {
            let ghost earlier = single_backslashes(whole.take(here));
            text.push(c);
            assert(text@ =~= start + earlier.push(c));
        }
        last = c;
        i += 1;
    }
    proof {
        assert(whole.take(i - prefix) =~= whole);
        lemma_last_kept(whole);
    }
    if last == '\\' {
        assert(text@ + Seq::<char>::empty() =~= text@);
        text
    } else {
        concat2(text.as_str(), "\\")
    }
}

proof fn lemma_last_kept(text: Text)
    requires
        text.len() > 0,
    ensures
        single_backslashes(text).len() > 0,
        single_backslashes(text).last() == text.last(),
    decreases text.len(),
{
    if text.len() > 1 {
        lemma_last_kept(text.drop_last());
    }
}

/// A plain name in a directory.
pub fn join_path(directory: &str, name: &str) -> (r: String)
    ensures
        r@ == joined(directory@, name@),
{
    let chars = chars_of(directory);
    let count = chars.len();
    assert(count == 2 ==> chars@.subrange(0, 2) =~= chars@);
    if verbatim_path(&chars) {
        concat2(join_anew(directory).as_str(), name)
    } else if count == 0 || separator(chars[count - 1]) || (count == 2 && drive_at(&chars, 0)) {
        concat2(directory, name)
    } else {
        concat3(directory, "\\", name)
    }
}

// ---- Laws ------------------------------------------------------------------------------

/// A name in a directory is written as the directory and the name, with a backslash between them
/// unless the directory is empty, ends with a separator or is a drive alone.
pub proof fn law_a_name_is_put_behind_its_directory(directory: Text, name: Text)
    requires
        !is_verbatim(directory),
    ensures
        ({
            let path = joined(directory, name);
            let bare = directory.len() == 0 || directory.last() == '/' || directory.last() == '\\'
                || (directory.len() == 2 && directory[1] == ':' && ('a' <= directory[0] <= 'z'
                || 'A' <= directory[0] <= 'Z'));
            &&& bare ==> path == directory + name
            &&& !bare ==> path == directory + seq!['\\'] + name
        }),
{
    reveal_strlit("\\");
    assert("\\"@ =~= seq!['\\']);
}

proof fn lemma_part_start(path: Text, base: int, start: int, end: int)
    requires
        0 <= base <= start <= end <= path.len(),
        start == base || is_separator(path[start - 1]),
        forall|i: int| start <= i < end ==> !is_separator(#[trigger] path[i]),
    ensures
        part_start(path, false, base, end) == start,
    decreases end - start,
{
    if start < end {
        assert(!is_separator(path[end - 1]));
        lemma_part_start(path, base, start, end - 1);
    }
}

/// A file on a drive is named by what follows the last separator of its path.
pub proof fn law_a_file_is_named_by_the_last_part(directory: Text, name: Text)
    requires
        directory.len() >= 3,
        'a' <= directory[0] <= 'z' || 'A' <= directory[0] <= 'Z',
        directory[1] == ':',
        is_separator(directory[2]),
        is_separator(directory.last()),
        name.len() > 0,
        forall|i: int| 0 <= i < name.len() ==> !is_separator(#[trigger] name[i]),
        name != seq!['.'],
        name != seq!['.', '.'],
    ensures
        file_name(directory + name) == Some(name),
{
    reveal_strlit(".");
    reveal_strlit("..");
    assert("."@ =~= seq!['.']);
    assert(".."@ =~= seq!['.', '.']);
    let path = directory + name;
    let n = directory.len() as int;
    let end = path.len() as int;
    assert(is_drive(path.take(2)));
    assert(base_end(path) == 3);
    assert forall|i: int| n <= i < end implies !is_separator(#[trigger] path[i]) by {
        assert(path[i] == name[i - n]);
    }
    lemma_part_start(path, 3, n, end);
    if n + 1 == end && path[n] == '.' {
        assert(name =~= seq!['.']);
    }
    assert(body_end(path) == end);
    assert(path.subrange(n, end) =~= name);
}

/// A file in a directory of a drive stands in that directory.
pub proof fn law_a_file_stands_in_its_directory(directory: Text, name: Text)
    requires
        directory.len() > 3,
        'a' <= directory[0] <= 'z' || 'A' <= directory[0] <= 'Z',
        directory[1] == ':',
        is_separator(directory[2]),
        !is_separator(directory.last()),
        directory.last() != '.',
        name.len() > 0,
        forall|i: int| 0 <= i < name.len() ==> !is_separator(#[trigger] name[i]),
        name != seq!['.'],
        name != seq!['.', '.'],
    ensures
        parent(joined(directory, name)) == Some(directory),
        file_name(joined(directory, name)) == Some(name),
{
    reveal_strlit("\\");
    assert("\\"@ =~= seq!['\\']);
    let head = directory + seq!['\\'];
    let path = joined(directory, name);
    let n = directory.len() as int;
    assert(path =~= head + name);
    law_a_file_is_named_by_the_last_part(head, name);
    let end = path.len() as int;
    assert(is_drive(path.take(2)));
    assert(base_end(path) == 3);
    assert forall|i: int| n + 1 <= i < end implies !is_separator(#[trigger] path[i]) by {
        assert(path[i] == name[i - n - 1]);
    }
    lemma_part_start(path, 3, n + 1, end);
    if n + 2 == end && path[n + 1] == '.' {
        assert(name =~= seq!['.']);
    }
    assert(body_end(path) == end);
    let start = part_start(path, false, 3, n);
    lemma_part_begins(path, 3, n);
    assert(path[n - 1] == directory.last());
    assert(start < n);
    assert(trimmed_end(path, false, 3, n) == n);
    assert(path.take(n) =~= directory);
}

proof fn lemma_part_begins(path: Text, base: int, end: int)
    requires
        0 <= base < end <= path.len(),
        !is_separator(path[end - 1]),
    ensures
        base <= part_start(path, false, base, end) < end,
    decreases end - base,
{
    if end - 1 > base && !is_separator(path[end - 2]) {
        lemma_part_begins(path, base, end - 1);
    } else {
        reveal_with_fuel(part_start, 3);
    }
}

/// The extension of a file is what follows the last dot of its name. A name that has no dot, or
/// none but in front, has no extension.
pub proof fn law_an_extension_follows_the_last_dot(stem: Text, ending: Text)
    requires
        forall|i: int| 0 <= i < ending.len() ==> #[trigger] ending[i] != '.',
    ensures
        stem.len() > 0 ==> name_extension(stem + seq!['.'] + ending) == Some(ending),
        name_extension(seq!['.'] + ending) is None,
        name_extension(ending) is None,
{
    reveal_strlit(".");
    assert("."@ =~= seq!['.']);
    let name = stem + seq!['.'] + ending;
    let n = stem.len() as int;
    assert(name.subrange(n, n + 1) =~= seq!['.']);
    assert forall|i: int| n < i < name.len() implies #[trigger] name[i] != '.' by {
        assert(name[i] == ending[i - n - 1]);
    }
    lemma_last_dot(name, n, name.len() as int);
    assert(name.skip(n + 1) =~= ending);
    let hidden = seq!['.'] + ending;
    assert(hidden.subrange(0, 1) =~= seq!['.']);
    assert forall|i: int| 0 < i < hidden.len() implies #[trigger] hidden[i] != '.' by {
        assert(hidden[i] == ending[i - 1]);
    }
    lemma_last_dot(hidden, 0, hidden.len() as int);
    lemma_no_dot(ending, ending.len() as int);
}

proof fn lemma_last_dot(name: Text, at: int, from: int)
    requires
        0 <= at <= from <= name.len(),
        "."@ == seq!['.'],
        model::occurs_at(name, seq!['.'], at),
        forall|i: int| at < i < name.len() ==> #[trigger] name[i] != '.',
    ensures
        model::last_upto(name, "."@, from) == Some(at),
    decreases from,
{
    if from > at {
        if model::occurs_at(name, "."@, from) {
            assert(name.subrange(from, from + 1)[0] == name[from]);
        }
        lemma_last_dot(name, at, from - 1);
    }
}

proof fn lemma_no_dot(name: Text, from: int)
    requires
        from <= name.len(),
        "."@ == seq!['.'],
        forall|i: int| 0 <= i < name.len() ==> #[trigger] name[i] != '.',
    ensures
        model::last_upto(name, "."@, from) is None,
    decreases from + 1,
{
    if from >= 0 {
        if model::occurs_at(name, "."@, from) {
            assert(name.subrange(from, from + 1)[0] == name[from]);
        }
        lemma_no_dot(name, from - 1);
    }
}

} // verus!
