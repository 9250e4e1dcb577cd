use vstd::prelude::*;

use super::relocation::{Relocation, RelocationView};
use super::section::{append_bytes, Section};
use super::symbol::{Symbol, SymbolTable, SymbolView};

verus! {

/// Mathematical model of an object file under construction.
#[verifier::ext_equal]
pub struct ObjectView {
    /// Machine code.
    pub text: Seq<u8>,
    /// Initialised writable data.
    pub data: Seq<u8>,
    /// Read-only data (string and float constants).
    pub rodata: Seq<u8>,
    /// Symbol table, in insertion order.
    pub symbols: Seq<SymbolView>,
    /// Relocations, in insertion order.
    pub relocations: Seq<RelocationView>,
    /// Names of the functions that the code unit defines.
    pub defined_functions: Seq<Seq<char>>,
    /// Name of the entry point, if one was set.
    pub entry_point: Option<Seq<char>>,
}

impl ObjectView {
    /// The same object with `bytes` appended to the text section.
    pub open spec fn emit(self, bytes: Seq<u8>) -> ObjectView {
        ObjectView { text: self.text + bytes, ..self }
    }

    /// Appending nothing leaves the object as it is.
    pub proof fn lemma_emit_empty(self)
        ensures
            self.emit(Seq::empty()) == self,
    {
        assert(self.emit(Seq::empty()) =~= self);
    }

    /// The same object with one more symbol.
    pub open spec fn add_symbol(self, s: SymbolView) -> ObjectView {
        ObjectView { symbols: self.symbols.push(s), ..self }
    }

    /// The same object with one more relocation.
    pub open spec fn add_relocation(self, r: RelocationView) -> ObjectView {
        ObjectView { relocations: self.relocations.push(r), ..self }
    }

    /// The offset `k` bytes past the current end of the text section (in machine arithmetic).
    pub open spec fn text_offset(self, k: usize) -> usize {
        (self.text.len() as usize).wrapping_add(k)
    }

    /// An object with no contents.
    pub open spec fn empty() -> ObjectView {
        ObjectView {
            text: Seq::empty(),
            data: Seq::empty(),
            rodata: Seq::empty(),
            symbols: Seq::empty(),
            relocations: Seq::empty(),
            defined_functions: Seq::empty(),
            entry_point: None,
        }
    }
}

/// A relocatable ELF object for Linux on x86-64, as the compiler fills it.
#[derive(Debug, Clone)]
pub struct ELFObject {
    pub text_section: Section,
    pub data_section: Section,
    pub rodata_section: Section,
    pub symbol_table: SymbolTable,
    pub relocations: Vec<Relocation>,
    pub defined_functions: Vec<String>,
    pub entry_point: Option<String>,
}

/// Views of a sequence of strings.
pub open spec fn string_views(v: Seq<String>) -> Seq<Seq<char>> {
    v.map_values(|s: String| s@)
}

impl View for ELFObject {
    type V = ObjectView;

    open spec fn view(&self) -> ObjectView {
        ObjectView {
            text: self.text_section.data@,
            data: self.data_section.data@,
            rodata: self.rodata_section.data@,
            symbols: self.symbol_table.spec_symbols(),
            relocations: self.relocations@.map_values(|r: Relocation| r@),
            defined_functions: string_views(self.defined_functions@),
            entry_point: match self.entry_point {
                Some(s) => Some(s@),
                None => None,
            },
        }
    }
}

impl ELFObject {
    /// An empty object.
    pub fn new() -> (o: Self)
        ensures
            o@ == ObjectView::empty(),
    {
        let o = ELFObject {
            text_section: Section::new(),
            data_section: Section::new(),
            rodata_section: Section::new(),
            symbol_table: SymbolTable::new(),
            relocations: Vec::new(),
            defined_functions: Vec::new(),
            entry_point: None,
        };
        assert(o@.relocations =~= Seq::<RelocationView>::empty());
        assert(o@.defined_functions =~= Seq::<Seq<char>>::empty());
        o
    }

    /// Marks the function `name` as the entry point of the program.
    pub fn set_entry_point(&mut self, name: &str)
        ensures
            final(self)@ == (ObjectView { entry_point: Some(name@), ..old(self)@ }),
    {
        self.entry_point = Some(name.to_owned());
    }

    /// Current length of the text section.
    pub fn text_len(&self) -> (n: usize)
        ensures
            n == self@.text.len(),
    {
        self.text_section.data.len()
    }

    /// Appends one byte of machine code.
    pub fn emit(&mut self, b: u8)
        ensures
            final(self)@ == old(self)@.emit(seq![b]),
    {
        self.text_section.data.push(b);
        assert(self@.text =~= old(self)@.text + seq![b]);
        assert(self@ =~= old(self)@.emit(seq![b]));
    }

    /// Appends machine code bytes.
    pub fn emit_bytes(&mut self, bytes: &[u8])
        ensures
            final(self)@ == old(self)@.emit(bytes@),
    {
        append_bytes(&mut self.text_section.data, bytes);
        assert(self@ =~= old(self)@.emit(bytes@));
    }

    /// Current length of the read-only data section.
    pub fn rodata_len(&self) -> (n: usize)
        ensures
            n == self@.rodata.len(),
    {
        self.rodata_section.data.len()
    }

    /// Current length of the data section.
    pub fn data_len(&self) -> (n: usize)
        ensures
            n == self@.data.len(),
    {
        self.data_section.data.len()
    }

    /// Appends bytes to the read-only data section.
    pub fn append_rodata(&mut self, bytes: &[u8])
        ensures
            final(self)@ == (ObjectView { rodata: old(self)@.rodata + bytes@, ..old(self)@ }),
    {
        append_bytes(&mut self.rodata_section.data, bytes);
        assert(self@ =~= (ObjectView { rodata: old(self)@.rodata + bytes@, ..old(self)@ }));
    }

    /// Appends bytes to the data section.
    pub fn append_data(&mut self, bytes: &[u8])
        ensures
            final(self)@ == (ObjectView { data: old(self)@.data + bytes@, ..old(self)@ }),
    {
        append_bytes(&mut self.data_section.data, bytes);
        assert(self@ =~= (ObjectView { data: old(self)@.data + bytes@, ..old(self)@ }));
    }

    /// Overwrites the text bytes at `at` with `bytes`.
    pub fn patch_text(&mut self, at: usize, bytes: &[u8])
        requires
            at + bytes@.len() <= old(self)@.text.len(),
        ensures
            final(self)@ == (ObjectView {
                text: old(self)@.text.subrange(0, at as int) + bytes@ + old(self)@.text.subrange(
                    at + bytes@.len(),
                    old(self)@.text.len() as int,
                ),
                ..old(self)@
            }),
    {
        let n = self.text_section.data.len();
        let mut k: usize = 0;
        while k < bytes.len()
            invariant
                n == old(self)@.text.len(),
                at + bytes@.len() <= old(self)@.text.len(),
                0 <= k <= bytes@.len(),
                self@ == (ObjectView {
                    text: old(self)@.text.subrange(0, at as int) + bytes@.subrange(0, k as int)
                        + old(self)@.text.subrange(at + k, old(self)@.text.len() as int),
                    ..old(self)@
                }),
            decreases bytes@.len() - k,
        {
            self.text_section.data.set(at + k, bytes[k]);
            k = k + 1;
            assert(self@.text =~= old(self)@.text.subrange(0, at as int) + bytes@.subrange(0, k as int)
                + old(self)@.text.subrange(at + k, old(self)@.text.len() as int));
        }
        assert(bytes@.subrange(0, k as int) =~= bytes@);
    }

    /// Adds a symbol at the end of the symbol table.
    pub fn add_symbol(&mut self, symbol: Symbol)
        ensures
            final(self)@ == old(self)@.add_symbol(symbol@),
    {
        self.symbol_table.add_symbol(symbol);
        assert(self@ =~= old(self)@.add_symbol(symbol@));
    }

    /// Adds a relocation at the end of the relocation list.
    pub fn add_relocation(&mut self, relocation: Relocation)
        ensures
            final(self)@ == old(self)@.add_relocation(relocation@),
    {
        let ghost r = relocation@;
        self.relocations.push(relocation);
        assert(self@.relocations =~= old(self)@.relocations.push(r));
        assert(self@ =~= old(self)@.add_relocation(r));
    }
}

} // verus!
