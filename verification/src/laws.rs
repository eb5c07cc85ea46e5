//! The properties that hold across the write path.
//!
//! A worker's contracts say that its log grows by exactly one framed line
//! per handled event and that a shutdown hands every buffered byte back.
//! The lemmas here tie that to the shape of the output file: the log of a
//! run is the events' lines in order, each line carries exactly one
//! newline, at its end, so a file holding the log of N events holds
//! exactly N newline-delimited JSON lines. And two zones with distinct
//! identities write to distinct paths.

use vstd::prelude::*;
use vstd::utf8::encode_utf8;

use crate::identity::alias_chars;
use crate::json::escape_byte;
use crate::json::escape_bytes;
use crate::json::hex_digit;
use crate::json::lemma_escape_plain;
use crate::json::line_spec;
use crate::json::member;
use crate::json::members;
use crate::json::quoted;
use crate::json::vm_key;
use crate::json::alias_key;
use crate::worker::path_spec;

verus! {

/// The whole output of a worker that handled `events` in order and then
/// drained: each event's line, concatenated in the same order.
pub open spec fn lines_of(events: Seq<Seq<(Seq<u8>, Seq<u8>)>>, vm: Seq<u8>, alias: Seq<u8>) -> Seq<
    u8,
>
    decreases events.len(),
{
    if events.len() == 0 {
        Seq::empty()
    } else {
        lines_of(events.drop_last(), vm, alias) + line_spec(events.last(), vm, alias)
    }
}

/// A run's output grows line by line: handling one more event appends
/// exactly that event's line to the output of the run so far. Together
/// with the worker's own contracts this pins the whole log of a run, in
/// the events' order.
pub proof fn lemma_lines_of_step(
    events: Seq<Seq<(Seq<u8>, Seq<u8>)>>,
    event: Seq<(Seq<u8>, Seq<u8>)>,
    vm: Seq<u8>,
    alias: Seq<u8>,
)
    ensures
        lines_of(events.push(event), vm, alias) == lines_of(events, vm, alias) + line_spec(
            event,
            vm,
            alias,
        ),
{
    assert(events.push(event).drop_last() =~= events);
    assert(events.push(event).last() == event);
}

/// How many newline bytes a sequence holds.
pub open spec fn newline_count(s: Seq<u8>) -> int
    decreases s.len(),
{
    if s.len() == 0 {
        0
    } else {
        newline_count(s.drop_last()) + if s.last() == 0x0a {
            1int
        } else {
            0int
        }
    }
}

/// No byte of `s` is a newline.
pub open spec fn no_newline(s: Seq<u8>) -> bool {
    forall|i: int| 0 <= i < s.len() ==> s[i] != 0x0a
}

proof fn lemma_newline_count_concat(a: Seq<u8>, b: Seq<u8>)
    ensures
        newline_count(a + b) == newline_count(a) + newline_count(b),
    decreases b.len(),
{
    if b.len() == 0 {
        assert(a + b =~= a);
    } else {
        lemma_newline_count_concat(a, b.drop_last());
        assert((a + b).drop_last() =~= a + b.drop_last());
        assert((a + b).last() == b.last());
    }
}

proof fn lemma_no_newline_count(s: Seq<u8>)
    requires
        no_newline(s),
    ensures
        newline_count(s) == 0,
    decreases s.len(),
{
    if s.len() > 0 {
        lemma_no_newline_count(s.drop_last());
    }
}

proof fn lemma_escape_byte_no_newline(b: u8)
    ensures
        no_newline(escape_byte(b)),
{
    assert(hex_digit(b / 16) != 0x0a);
    assert(hex_digit(b % 16) != 0x0a);
}

proof fn lemma_escape_no_newline(s: Seq<u8>)
    ensures
        no_newline(escape_bytes(s)),
    decreases s.len(),
{
    if s.len() > 0 {
        lemma_escape_no_newline(s.drop_last());
        lemma_escape_byte_no_newline(s.last());
    }
}

proof fn lemma_member_no_newline(key: Seq<u8>, value: Seq<u8>)
    ensures
        no_newline(member(key, value)),
{
    lemma_escape_no_newline(key);
    lemma_escape_no_newline(value);
    assert(no_newline(quoted(key)));
    assert(no_newline(quoted(value)));
}

proof fn lemma_members_no_newline(fields: Seq<(Seq<u8>, Seq<u8>)>)
    ensures
        no_newline(members(fields)),
    decreases fields.len(),
{
    if fields.len() > 0 {
        lemma_members_no_newline(fields.drop_last());
        lemma_member_no_newline(fields.last().0, fields.last().1);
    }
}

/// One framed line carries exactly one newline, and it is the final byte:
/// lines never run into each other, and a line never breaks in two.
pub proof fn lemma_line_single_newline(fields: Seq<(Seq<u8>, Seq<u8>)>, vm: Seq<u8>, alias: Seq<u8>)
    ensures
        line_spec(fields, vm, alias).len() > 0,
        line_spec(fields, vm, alias).last() == 0x0a,
        no_newline(line_spec(fields, vm, alias).drop_last()),
        newline_count(line_spec(fields, vm, alias)) == 1,
{
    lemma_members_no_newline(fields);
    lemma_member_no_newline(vm_key(), vm);
    lemma_member_no_newline(alias_key(), alias);
    let line = line_spec(fields, vm, alias);
    assert(no_newline(line.drop_last()));
    lemma_no_newline_count(line.drop_last());
    assert(line.drop_last() + seq![line.last()] =~= line);
    lemma_newline_count_concat(line.drop_last(), seq![line.last()]);
    assert(newline_count(seq![0x0au8]) == 1) by {
        assert(seq![0x0au8].drop_last() =~= Seq::<u8>::empty());
    }
}

/// The output of a worker that handled `events` and drained holds exactly
/// `events.len()` newline-terminated lines, in the events' order: the
/// whole output is the concatenation of the events' lines, and each line
/// contributes its one terminating newline.
pub proof fn lemma_log_line_count(events: Seq<Seq<(Seq<u8>, Seq<u8>)>>, vm: Seq<u8>, alias: Seq<u8>)
    ensures
        newline_count(lines_of(events, vm, alias)) == events.len(),
    decreases events.len(),
{
    if events.len() > 0 {
        lemma_log_line_count(events.drop_last(), vm, alias);
        lemma_line_single_newline(events.last(), vm, alias);
        lemma_newline_count_concat(
            lines_of(events.drop_last(), vm, alias),
            line_spec(events.last(), vm, alias),
        );
    }
}

/// A record without an alias yields lines whose alias member is present
/// and empty — the line closes with `"alias":""` — never a missing member.
pub proof fn lemma_absent_alias_logged_empty(fields: Seq<(Seq<u8>, Seq<u8>)>, vm: Seq<u8>)
    ensures
        encode_utf8(alias_chars(Option::<String>::None)) == Seq::<u8>::empty(),
        line_spec(fields, vm, encode_utf8(alias_chars(Option::<String>::None))) == seq![0x7bu8]
            + members(fields) + member(vm_key(), vm) + seq![0x2cu8]
            + seq![0x22u8, 0x61, 0x6c, 0x69, 0x61, 0x73, 0x22, 0x3a, 0x22, 0x22]
            + seq![0x7du8, 0x0a],
{
    assert(encode_utf8(alias_chars(Option::<String>::None)) =~= Seq::<u8>::empty());
    lemma_escape_plain(alias_key());
    assert(escape_bytes(Seq::<u8>::empty()) =~= Seq::<u8>::empty());
    assert(member(alias_key(), Seq::<u8>::empty()) =~= seq![
        0x22u8,
        0x61,
        0x6c,
        0x69,
        0x61,
        0x73,
        0x22,
        0x3a,
        0x22,
        0x22,
    ]);
    assert(line_spec(fields, vm, encode_utf8(alias_chars(Option::<String>::None))) =~= seq![0x7bu8]
        + members(fields) + member(vm_key(), vm) + seq![0x2cu8]
        + seq![0x22u8, 0x61, 0x6c, 0x69, 0x61, 0x73, 0x22, 0x3a, 0x22, 0x22]
        + seq![0x7du8, 0x0a]);
}

/// Two zones whose identities differ write to different files, as long as
/// neither a tenant id nor an instance id holds a path separator.
pub proof fn lemma_paths_independent(
    owner1: Seq<char>,
    vm1: Seq<char>,
    owner2: Seq<char>,
    vm2: Seq<char>,
)
    requires
        forall|i: int| 0 <= i < owner1.len() ==> owner1[i] != '/',
        forall|i: int| 0 <= i < owner2.len() ==> owner2[i] != '/',
        forall|i: int| 0 <= i < vm1.len() ==> vm1[i] != '/',
        forall|i: int| 0 <= i < vm2.len() ==> vm2[i] != '/',
        owner1 != owner2 || vm1 != vm2,
    ensures
        path_spec(owner1, vm1) != path_spec(owner2, vm2),
{
    reveal_strlit("/var/log/firewall/");
    reveal_strlit("/");
    reveal_strlit("/current.log");
    let root = "/var/log/firewall/"@;
    let sep = "/"@;
    let left = path_spec(owner1, vm1);
    let right = path_spec(owner2, vm2);
    if left == right {
        if owner1.len() < owner2.len() {
            let j = root.len() + owner1.len();
            assert(left[j as int] == '/');
            assert(right[j as int] == owner2[owner1.len() as int]);
            assert(false);
        } else if owner2.len() < owner1.len() {
            let j = root.len() + owner2.len();
            assert(right[j as int] == '/');
            assert(left[j as int] == owner1[owner2.len() as int]);
            assert(false);
        } else {
            assert forall|i: int| 0 <= i < owner1.len() implies owner1[i] == owner2[i] by {
                assert(left[root.len() + i] == owner1[i]);
                assert(right[root.len() + i] == owner2[i]);
            }
            assert(owner1 =~= owner2);
            assert(left.len() == right.len());
            assert(vm1.len() == vm2.len());
            let base = root.len() + owner1.len() + sep.len();
            assert forall|i: int| 0 <= i < vm1.len() implies vm1[i] == vm2[i] by {
                assert(left[base + i] == vm1[i]);
                assert(right[base + i] == vm2[i]);
            }
            assert(vm1 =~= vm2);
            assert(false);
        }
    }
}

} // verus!
