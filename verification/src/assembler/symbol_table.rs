//! The symbol table: predefined symbols, labels and variables in one
//! namespace.

use crate::assembler::error::{variable_exists, Error};
use vstd::hash_map::StringHashMap;
use vstd::prelude::*;
use vstd::string::StringExecFns;

verus! {

/// The mapping from names to addresses, and the allocator of variable
/// addresses.
pub struct SymbolTable {
    symbols: StringHashMap<u16>,
    ram_addr: u16,
}

/// What a symbol table holds: the address of each name, and the address
/// that the next new variable will get.
pub struct SymbolTableView {
    pub symbols: Map<Seq<char>, u16>,
    pub ram_addr: u16,
}

impl View for SymbolTable {
    type V = SymbolTableView;

    closed spec fn view(&self) -> SymbolTableView {
        SymbolTableView { symbols: self.symbols@, ram_addr: self.ram_addr }
    }
}

/// The symbols that every table starts with: the registers `R0` to `R15`,
/// the screen and the keyboard, and the five names of the low registers.
pub open spec fn predefined_symbols() -> Map<Seq<char>, u16> {
    map![
        "R0"@ => 0u16,
        "R1"@ => 1u16,
        "R2"@ => 2u16,
        "R3"@ => 3u16,
        "R4"@ => 4u16,
        "R5"@ => 5u16,
        "R6"@ => 6u16,
        "R7"@ => 7u16,
        "R8"@ => 8u16,
        "R9"@ => 9u16,
        "R10"@ => 10u16,
        "R11"@ => 11u16,
        "R12"@ => 12u16,
        "R13"@ => 13u16,
        "R14"@ => 14u16,
        "R15"@ => 15u16,
        "SCREEN"@ => 16384u16,
        "KBD"@ => 24576u16,
        "SP"@ => 0u16,
        "LCL"@ => 1u16,
        "ARG"@ => 2u16,
        "THIS"@ => 3u16,
        "THAT"@ => 4u16,
    ]
}

/// The address of the first variable.
pub const FIRST_VARIABLE_ADDRESS: u16 = 16;

/// The table after the label `label` was bound to `line_num`; a name that
/// was bound before is bound anew.
pub open spec fn with_label(table: SymbolTableView, label: Seq<char>, line_num: u16)
    -> SymbolTableView {
    SymbolTableView { symbols: table.symbols.insert(label, line_num), ..table }
}

/// The table after the new variable `variable` got the next free address.
pub open spec fn with_variable(table: SymbolTableView, variable: Seq<char>) -> SymbolTableView {
    SymbolTableView {
        symbols: table.symbols.insert(variable, table.ram_addr),
        ram_addr: (table.ram_addr + 1) as u16,
    }
}

impl SymbolTable {
    /// A table that holds the predefined symbols and will give the first
    /// variable the address 16.
    pub fn new() -> (r: Self)
        ensures
            r@ == (SymbolTableView {
                symbols: predefined_symbols(),
                ram_addr: FIRST_VARIABLE_ADDRESS,
            }),
    {
        let mut symbols = StringHashMap::new();

        symbols.insert(String::from_str("R0"), 0);
        symbols.insert(String::from_str("R1"), 1);
        symbols.insert(String::from_str("R2"), 2);
        symbols.insert(String::from_str("R3"), 3);
        symbols.insert(String::from_str("R4"), 4);
        symbols.insert(String::from_str("R5"), 5);
        symbols.insert(String::from_str("R6"), 6);
        symbols.insert(String::from_str("R7"), 7);
        symbols.insert(String::from_str("R8"), 8);
        symbols.insert(String::from_str("R9"), 9);
        symbols.insert(String::from_str("R10"), 10);
        symbols.insert(String::from_str("R11"), 11);
        symbols.insert(String::from_str("R12"), 12);
        symbols.insert(String::from_str("R13"), 13);
        symbols.insert(String::from_str("R14"), 14);
        symbols.insert(String::from_str("R15"), 15);

        symbols.insert(String::from_str("SCREEN"), 16384);
        symbols.insert(String::from_str("KBD"), 24576);
        symbols.insert(String::from_str("SP"), 0);
        symbols.insert(String::from_str("LCL"), 1);
        symbols.insert(String::from_str("ARG"), 2);
        symbols.insert(String::from_str("THIS"), 3);
        symbols.insert(String::from_str("THAT"), 4);

        Self { symbols, ram_addr: 16 }
    }

    /// Binds the label `label` to the instruction address `line_num`. A
    /// name that the table holds already is bound anew, without an error.
    pub fn add_label(&mut self, label: &str, line_num: u16)
        ensures
            final(self)@ == with_label(old(self)@, label@, line_num),
    {
        self.symbols.insert(String::from_str(label), line_num);
    }

    /// Declares the variable `variable` and returns its address, the next
    /// free one. A name that the table holds already is an error, and the
    /// table stays as it was. Addresses are counted in 16 bits: a new
    /// variable needs the counter to be below 65535.
    pub fn add_variable(&mut self, variable: &str) -> (r: Result<u16, Error>)
        requires
            !old(self)@.symbols.contains_key(variable@) ==> old(self)@.ram_addr < u16::MAX,
        ensures
            match r {
                Ok(address) => {
                    &&& !old(self)@.symbols.contains_key(variable@)
                    &&& address == old(self)@.ram_addr
                    &&& final(self)@ == with_variable(old(self)@, variable@)
                },
                Err(error) => {
                    &&& old(self)@.symbols.contains_key(variable@)
                    &&& error@ == variable_exists(variable@)
                    &&& final(self)@ == old(self)@
                },
            },
    {
        if self.symbols.contains_key(variable) {
            return Err(Error::variable_exists(variable));
        }
        self.symbols.insert(String::from_str(variable), self.ram_addr);
        self.ram_addr += 1;
        Ok(self.ram_addr - 1)
    }

    /// The address that the next new variable will get.
    pub fn next_variable_address(&self) -> (r: u16)
        ensures
            r == self@.ram_addr,
    {
        self.ram_addr
    }

    /// The address of `symbol`, or `None` where the table does not hold it.
    pub fn get_symbol_addr(&self, symbol: &str) -> (r: Option<u16>)
        ensures
            r == if self@.symbols.contains_key(symbol@) {
                Some(self@.symbols[symbol@])
            } else {
                None
            },
    {
        match self.symbols.get(symbol) {
            Some(address) => Some(*address),
            None => None,
        }
    }
}

} // verus!
