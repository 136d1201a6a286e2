use vstd::prelude::*;

use std::sync::Arc;

verus! {

/// The UTF-16 code units of one character: one unit inside the basic
/// plane, a surrogate pair above it.
pub open spec fn utf16_of_char(c: char) -> Seq<u16> {
    let v = c as u32 as int;
    if v < 0x10000 {
        seq![v as u16]
    } else {
        seq![(0xD800 + (v - 0x10000) / 0x400) as u16, (0xDC00 + (v - 0x10000) % 0x400) as u16]
    }
}

/// The UTF-16 code units of a string, character by character.
pub open spec fn utf16_of(s: Seq<char>) -> Seq<u16>
    decreases s.len(),
{
    if s.len() == 0 {
        Seq::empty()
    } else {
        utf16_of_char(s[0]) + utf16_of(s.drop_first())
    }
}

/// Relies on str::encode_utf16, collected into a vector: the string's
/// characters as UTF-16 code units, in order.
#[verifier::external_body]
fn encode_utf16(s: &str) -> (r: Vec<u16>)
    ensures
        r@ == utf16_of(s@),
{
    s.encode_utf16().collect()
}

/// Relies on Arc::clone: a second pointer to the same allocation.
#[verifier::external_body]
fn share_units(a: &Arc<Vec<u16>>) -> (r: Arc<Vec<u16>>)
    ensures
        *r == **a,
{
    Arc::clone(a)
}

/// The name of an endpoint, encoded once as UTF-16 with a terminating zero
/// unit. Copies share the encoding and never change it.
#[derive(Debug)]
pub struct PipeName {
    units: Arc<Vec<u16>>,
}

impl View for PipeName {
    type V = Seq<u16>;

    closed spec fn view(&self) -> Seq<u16> {
        (*self.units)@
    }
}

impl PipeName {
    /// Encodes `name` and appends the terminating zero unit.
    pub fn new(name: &str) -> (r: PipeName)
        ensures
            r@ == utf16_of(name@).push(0u16),
    {
        let mut units = encode_utf16(name);
        units.push(0u16);
        PipeName { units: Arc::new(units) }
    }

    /// Another handle on the same encoded name.
    pub fn share(&self) -> (r: PipeName)
        ensures
            r@ == self@,
    {
        PipeName { units: share_units(&self.units) }
    }

    /// The encoded units, terminating zero included.
    pub fn units(&self) -> (r: &Vec<u16>)
        ensures
            r@ == self@,
    {
        &*self.units
    }
}

} // verus!
