use vstd::prelude::*;

use super::section::SectionType;

verus! {

/// Kinds of relocation the compiler emits.
#[derive(Debug, Clone, Copy, PartialEq, Eq, Structural)]
pub enum RelocationType {
    /// 32-bit PC-relative reference to a symbol.
    PcRel32,
    /// 32-bit PC-relative reference through the PLT (function calls).
    PltPcRel32,
}

/// A place in a section that the linker fills with the address of a symbol.
#[derive(Debug, Clone)]
pub struct Relocation {
    pub section: SectionType,
    pub offset: usize,
    pub symbol: String,
    pub reloc_type: RelocationType,
    pub addend: i64,
}

/// Mathematical model of a relocation.
pub struct RelocationView {
    pub section: SectionType,
    pub offset: usize,
    pub symbol: Seq<char>,
    pub reloc_type: RelocationType,
    pub addend: i64,
}

impl View for Relocation {
    type V = RelocationView;

    open spec fn view(&self) -> RelocationView {
        RelocationView {
            section: self.section,
            offset: self.offset,
            symbol: self.symbol@,
            reloc_type: self.reloc_type,
            addend: self.addend,
        }
    }
}

} // verus!
