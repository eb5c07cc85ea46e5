//! Framing of one enriched event as a single JSON object line.
//!
//! A log line is a JSON object holding every field of the parsed event, in
//! order, followed by the two injected fields `vm` and `alias`, and is
//! terminated by one newline. Keys and values are written as JSON strings
//! over their UTF-8 bytes: a quote or a backslash is escaped with a
//! backslash, and a control byte (below 0x20) is written as `\u00XX` with
//! lower-case hex digits. Bytes of multi-byte UTF-8 characters are 0x80 or
//! above, so escaping byte by byte never splits a character.

use vstd::prelude::*;
use vstd::string::StringSliceAdditionalSpecFns;

use crate::event::EventRecord;

verus! {

/// The lower-case hex digit for a nibble.
pub open spec fn hex_digit(n: u8) -> u8 {
    if n < 10 {
        (0x30 + n) as u8  // '0'..='9'
    } else {
        (0x57 + n) as u8  // 'a'..='f'
    }
}

/// How one byte of a key or value appears inside a JSON string.
pub open spec fn escape_byte(b: u8) -> Seq<u8> {
    if b == 0x22 {  // '"'
        seq![0x5c, 0x22]
    } else if b == 0x5c {  // '\\'
        seq![0x5c, 0x5c]
    } else if b < 0x20 {  // control: \u00XX
        seq![0x5c, 0x75, 0x30, 0x30, hex_digit(b / 16), hex_digit(b % 16)]
    } else {
        seq![b]
    }
}

/// The escaped form of a whole key or value.
pub open spec fn escape_bytes(s: Seq<u8>) -> Seq<u8>
    decreases s.len(),
{
    if s.len() == 0 {
        Seq::empty()
    } else {
        escape_bytes(s.drop_last()) + escape_byte(s.last())
    }
}

/// A byte that the escaping leaves as it is.
pub open spec fn plain_byte(b: u8) -> bool {
    b != 0x22 && b != 0x5c && b >= 0x20
}

/// Escaping does not change a sequence of plain bytes.
pub proof fn lemma_escape_plain(s: Seq<u8>)
    requires
        forall|i: int| 0 <= i < s.len() ==> plain_byte(s[i]),
    ensures
        escape_bytes(s) == s,
    decreases s.len(),
{
    if s.len() == 0 {
        assert(escape_bytes(s) =~= s);
    } else {
        lemma_escape_plain(s.drop_last());
        assert(escape_byte(s.last()) == seq![s.last()]);
        assert(escape_bytes(s) =~= s);
    }
}

/// A JSON string: the escaped bytes between two quotes.
pub open spec fn quoted(s: Seq<u8>) -> Seq<u8> {
    seq![0x22] + escape_bytes(s) + seq![0x22]
}

/// One `"key":"value"` member.
pub open spec fn member(key: Seq<u8>, value: Seq<u8>) -> Seq<u8> {
    quoted(key) + seq![0x3a] + quoted(value)
}

/// The event's own members, each with its trailing comma (the injected
/// `vm` and `alias` members always follow).
pub open spec fn members(fields: Seq<(Seq<u8>, Seq<u8>)>) -> Seq<u8>
    decreases fields.len(),
{
    if fields.len() == 0 {
        Seq::empty()
    } else {
        members(fields.drop_last()) + member(fields.last().0, fields.last().1) + seq![0x2c]
    }
}

/// The bytes of the key `vm`.
pub open spec fn vm_key() -> Seq<u8> {
    seq![0x76, 0x6d]
}

/// The bytes of the key `alias`.
pub open spec fn alias_key() -> Seq<u8> {
    seq![0x61, 0x6c, 0x69, 0x61, 0x73]
}

/// One whole log line: the object followed by a newline.
pub open spec fn line_spec(fields: Seq<(Seq<u8>, Seq<u8>)>, vm: Seq<u8>, alias: Seq<u8>) -> Seq<u8> {
    seq![0x7b] + members(fields) + member(vm_key(), vm) + seq![0x2c] + member(
        alias_key(),
        alias,
    ) + seq![0x7d, 0x0a]
}

/// Appends the escaped form of `s` to `out`.
fn escape_into(out: &mut Vec<u8>, s: &[u8])
    ensures
        final(out)@ == old(out)@ + escape_bytes(s@),
{
    let ghost whole = s@;
    let mut i: usize = 0;
    while i < s.len()
        invariant
            i <= s@.len(),
            s@ == whole,
            out@ == old(out)@ + escape_bytes(s@.take(i as int)),
        decreases s@.len() - i,
    {
        let b = s[i];
        if b == 0x22 {
            out.push(0x5c);
            out.push(0x22);
        } else if b == 0x5c {
            out.push(0x5c);
            out.push(0x5c);
        } else if b < 0x20 {
            out.push(0x5c);
            out.push(0x75);
            out.push(0x30);
            out.push(0x30);
            let hi = b / 16;
            let lo = b % 16;
            out.push(if hi < 10 { 0x30 + hi } else { 0x57 + hi });
            out.push(if lo < 10 { 0x30 + lo } else { 0x57 + lo });
        } else {
            out.push(b);
        }
        proof {
            assert(s@.take(i + 1).drop_last() =~= s@.take(i as int));
            assert(s@.take(i + 1).last() == s@[i as int]);
            assert(out@ =~= old(out)@ + escape_bytes(s@.take(i + 1)));
        }
        i = i + 1;
    }
    proof {
        assert(s@.take(s@.len() as int) =~= s@);
    }
}

/// Appends `"s"`, escaped and quoted, to `out`.
fn quote_into(out: &mut Vec<u8>, s: &[u8])
    ensures
        final(out)@ == old(out)@ + quoted(s@),
{
    out.push(0x22);
    escape_into(out, s);
    out.push(0x22);
    proof {
        assert(out@ =~= old(out)@ + quoted(s@));
    }
}

/// Appends one `"key":"value"` member to `out`.
fn member_into(out: &mut Vec<u8>, key: &[u8], value: &[u8])
    ensures
        final(out)@ == old(out)@ + member(key@, value@),
{
    quote_into(out, key);
    out.push(0x3a);
    quote_into(out, value);
    proof {
        assert(out@ =~= old(out)@ + member(key@, value@));
    }
}

/// Builds the whole log line for one event: the event's fields in order,
/// then `vm` and `alias`, closed and newline-terminated.
pub fn format_line(ev: &EventRecord, vm: &str, alias: &str) -> (r: Vec<u8>)
    ensures
        r@ == line_spec(ev@, vm.spec_bytes(), alias.spec_bytes()),
{
    let mut out: Vec<u8> = Vec::new();
    out.push(0x7b);
    let mut i: usize = 0;
    while i < ev.fields.len()
        invariant
            i <= ev.fields.len(),
            out@ == seq![0x7bu8] + members(ev@.take(i as int)),
            ev@.len() == ev.fields.len(),
        decreases ev.fields.len() - i,
    {
        let key = ev.fields[i].key.as_str().as_bytes();
        let value = ev.fields[i].value.as_str().as_bytes();
        member_into(&mut out, key, value);
        out.push(0x2c);
        proof {
            assert(ev@.take(i + 1).drop_last() =~= ev@.take(i as int));
            assert(ev@.take(i + 1).last() == ev@[i as int]);
            assert(out@ =~= seq![0x7bu8] + members(ev@.take(i + 1)));
        }
        i = i + 1;
    }
    proof {
        assert(ev@.take(ev@.len() as int) =~= ev@);
    }
    // "vm":"<instance id>",
    out.push(0x22);
    out.push(0x76);
    out.push(0x6d);
    out.push(0x22);
    out.push(0x3a);
    quote_into(&mut out, vm.as_bytes());
    out.push(0x2c);
    // "alias":"<alias>"
    out.push(0x22);
    out.push(0x61);
    out.push(0x6c);
    out.push(0x69);
    out.push(0x61);
    out.push(0x73);
    out.push(0x22);
    out.push(0x3a);
    quote_into(&mut out, alias.as_bytes());
    out.push(0x7d);
    out.push(0x0a);
    proof {
        lemma_escape_plain(vm_key());
        lemma_escape_plain(alias_key());
        assert(quoted(vm_key()) =~= seq![0x22u8, 0x76, 0x6d, 0x22]);
        assert(quoted(alias_key()) =~= seq![0x22u8, 0x61, 0x6c, 0x69, 0x61, 0x73, 0x22]);
        assert(out@ =~= line_spec(ev@, vm.spec_bytes(), alias.spec_bytes()));
    }
    out
}

} // verus!
