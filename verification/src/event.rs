//! The structured event record handed to a worker.
//!
//! Parsing of the raw wire payload into these fields belongs to the
//! dispatch side; the worker trusts the parsed result. A record is viewed
//! as the sequence of its fields' UTF-8 key and value bytes, in order,
//! which is exactly what the JSON framing consumes.

use vstd::prelude::*;
use vstd::utf8::encode_utf8;

verus! {

/// One parsed field of a firewall event: a key and its value.
pub struct EventField {
    pub key: String,
    pub value: String,
}

/// A parsed firewall event: its fields, in the order they were parsed.
pub struct EventRecord {
    pub fields: Vec<EventField>,
}

/// The UTF-8 bytes of a field's key and value.
pub open spec fn field_view(f: EventField) -> (Seq<u8>, Seq<u8>) {
    (encode_utf8(f.key@), encode_utf8(f.value@))
}

impl View for EventRecord {
    type V = Seq<(Seq<u8>, Seq<u8>)>;

    open spec fn view(&self) -> Seq<(Seq<u8>, Seq<u8>)> {
        self.fields@.map_values(|f: EventField| field_view(f))
    }
}

impl EventRecord {
    /// An event with no fields yet.
    pub fn new() -> (r: Self)
        ensures
            r@ == Seq::<(Seq<u8>, Seq<u8>)>::empty(),
    {
        let r = EventRecord { fields: Vec::new() };
        proof {
            assert(r@ =~= Seq::<(Seq<u8>, Seq<u8>)>::empty());
        }
        r
    }

    /// Appends one parsed field.
    pub fn push_field(&mut self, key: String, value: String)
        ensures
            final(self)@ == old(self)@.push((encode_utf8(key@), encode_utf8(value@))),
    {
        let ghost k = key@;
        let ghost v = value@;
        self.fields.push(EventField { key, value });
        proof {
            assert(self@ =~= old(self)@.push((encode_utf8(k), encode_utf8(v))));
        }
    }
}

} // verus!
