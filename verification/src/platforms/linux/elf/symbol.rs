use vstd::prelude::*;

use super::section::SectionType;
use crate::strings::{first_index_of, lemma_first_index_of, lemma_first_index_of_none};

verus! {

/// Kind of entity a symbol names.
#[derive(Debug, Clone, Copy, PartialEq, Eq, Structural)]
pub enum SymbolType {
    Function,
    Object,
}

/// Visibility of a symbol to the linker.
#[derive(Debug, Clone, Copy, PartialEq, Eq, Structural)]
pub enum SymbolBinding {
    Local,
    Global,
}

/// An entry of the symbol table.
#[derive(Debug, Clone)]
pub struct Symbol {
    pub name: String,
    pub section: SectionType,
    pub offset: usize,
    pub size: usize,
    pub symbol_type: SymbolType,
    pub binding: SymbolBinding,
}

/// Mathematical model of a symbol.
pub struct SymbolView {
    pub name: Seq<char>,
    pub section: SectionType,
    pub offset: usize,
    pub size: usize,
    pub symbol_type: SymbolType,
    pub binding: SymbolBinding,
}

impl View for Symbol {
    type V = SymbolView;

    open spec fn view(&self) -> SymbolView {
        SymbolView {
            name: self.name@,
            section: self.section,
            offset: self.offset,
            size: self.size,
            symbol_type: self.symbol_type,
            binding: self.binding,
        }
    }
}

/// The names of a sequence of symbols.
pub open spec fn symbol_names(symbols: Seq<SymbolView>) -> Seq<Seq<char>> {
    symbols.map_values(|s: SymbolView| s.name)
}

/// Index of the first symbol called `name`, or -1.
pub open spec fn spec_find_symbol(symbols: Seq<SymbolView>, name: Seq<char>) -> int {
    first_index_of(symbol_names(symbols), name)
}

/// The symbol table of an object file, in insertion order.
#[derive(Debug, Clone)]
pub struct SymbolTable {
    pub symbols: Vec<Symbol>,
}

impl SymbolTable {
    /// The symbols as mathematical values.
    pub open spec fn spec_symbols(&self) -> Seq<SymbolView> {
        self.symbols@.map_values(|s: Symbol| s@)
    }

    /// An empty table.
    pub fn new() -> (t: Self)
        ensures
            t.spec_symbols() == Seq::<SymbolView>::empty(),
    {
        let t = SymbolTable { symbols: Vec::new() };
        assert(t.spec_symbols() =~= Seq::<SymbolView>::empty());
        t
    }

    /// Appends a symbol at the end of the table.
    pub fn add_symbol(&mut self, symbol: Symbol)
        ensures
            final(self).spec_symbols() == old(self).spec_symbols().push(symbol@),
    {
        self.symbols.push(symbol);
        assert(self.spec_symbols() =~= old(self).spec_symbols().push(symbol@));
    }

    /// Finds the first symbol called `name`.
    pub fn find_symbol(&self, name: &str) -> (found: Option<&Symbol>)
        ensures
            match found {
                Some(s) => {
                    let i = spec_find_symbol(self.spec_symbols(), name@);
                    0 <= i < self.spec_symbols().len() && s@ == self.spec_symbols()[i] && s.name@
                        == name@
                },
                None => spec_find_symbol(self.spec_symbols(), name@) == -1,
            },
    {
        let key = name.to_owned();
        let ghost names = symbol_names(self.spec_symbols());
        let mut i: usize = 0;
        while i < self.symbols.len()
            invariant
                0 <= i <= self.symbols@.len(),
                key@ == name@,
                names == symbol_names(self.spec_symbols()),
                names.len() == self.symbols@.len(),
                forall|j: int| 0 <= j < i ==> names[j] != name@,
            decreases self.symbols@.len() - i,
        {
            if self.symbols[i].name == key {
                proof {
                    assert(names[i as int] == name@);
                    lemma_first_index_of(names, name@, i as int);
                }
                return Some(&self.symbols[i]);
            }
            assert(names[i as int] != name@);
            i = i + 1;
        }
        proof {
            lemma_first_index_of_none(names, name@);
        }
        None
    }

    /// Whether some symbol is called `name`.
    pub fn contains(&self, name: &String) -> (b: bool)
        ensures
            b <==> exists|i: int|
                0 <= i < self.spec_symbols().len() && #[trigger] self.spec_symbols()[i].name
                    == name@,
    {
        let mut i: usize = 0;
        while i < self.symbols.len()
            invariant
                0 <= i <= self.symbols@.len(),
                forall|j: int| 0 <= j < i ==> #[trigger] self.spec_symbols()[j].name != name@,
            decreases self.symbols@.len() - i,
        {
            if self.symbols[i].name == *name {
                assert(self.spec_symbols()[i as int].name == name@);
                return true;
            }
            i = i + 1;
        }
        false
    }
}

} // verus!
