use vstd::prelude::*;

verus! {

/// The sections that symbols and relocations refer to.
#[derive(Debug, Clone, Copy, PartialEq, Eq, Structural)]
pub enum SectionType {
    Text,
    Data,
    RoData,
    Undefined,
}

/// The bytes of one section of an object file.
#[derive(Debug, Clone)]
pub struct Section {
    pub data: Vec<u8>,
}

impl Section {
    /// An empty section.
    pub fn new() -> (s: Self)
        ensures
            s.data@ == Seq::<u8>::empty(),
    {
        Section { data: Vec::new() }
    }
}

/// Appends `bytes` to `v`.
pub fn append_bytes(v: &mut Vec<u8>, bytes: &[u8])
    ensures
        final(v)@ == old(v)@ + bytes@,
{
    let mut i: usize = 0;
    while i < bytes.len()
        invariant
            0 <= i <= bytes@.len(),
            v@ == old(v)@ + bytes@.subrange(0, i as int),
        decreases bytes@.len() - i,
    {
        v.push(bytes[i]);
        i = i + 1;
        assert(v@ =~= old(v)@ + bytes@.subrange(0, i as int));
    }
    assert(bytes@.subrange(0, i as int) =~= bytes@);
}

} // verus!
