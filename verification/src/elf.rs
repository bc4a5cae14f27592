//! The ELF symbol tables of the game binary, read through goblin.
use vstd::prelude::*;

use goblin::elf::{Elf, Symtab};
use goblin::strtab::Strtab;

verus! {

#[verifier::external_type_specification]
#[verifier::external_body]
pub struct ExSymtab<'a>(Symtab<'a>);

#[verifier::external_type_specification]
#[verifier::external_body]
pub struct ExStrtab<'a>(Strtab<'a>);

/// The symbols of a symbol table, in table order, each as its name's offset
/// into the string table (`st_name`) and its value (`st_value`).
pub uninterp spec fn symtab_entries(t: Symtab) -> Seq<(usize, u64)>;

/// The strings of a string table, by the byte offset at which each can be
/// read.
pub uninterp spec fn strtab_entries(t: Strtab) -> Map<usize, Seq<char>>;

/// What goblin's ELF parser makes of `bytes`: `None` when it fails, and
/// otherwise the entries of the image's symbol table (`.symtab`) and of that
/// table's string table.
pub uninterp spec fn elf_tables(bytes: Seq<u8>) -> Option<(Seq<(usize, u64)>, Map<usize, Seq<char>>)>;

/// `goblin::elf::Elf::parse`: parses an ELF image and keeps its symbol table
/// (`Elf::syms`) and the string table of its symbol names (`Elf::strtab`);
/// `None` when the parse fails. The outcome depends on the bytes alone.
#[verifier::external_body]
pub(crate) fn parse_elf_tables<'a>(bytes: &'a [u8]) -> (r: Option<(Symtab<'a>, Strtab<'a>)>)
    ensures
        r is Some <==> elf_tables(bytes@) is Some,
        r matches Some(p) ==> elf_tables(bytes@) == Some(
            (symtab_entries(p.0), strtab_entries(p.1)),
        ),
{
    match Elf::parse(bytes) {
        Ok(elf) => Some((elf.syms, elf.strtab)),
        Err(_) => None,
    }
}

/// `goblin::elf::Symtab::len`: the number of symbols in the table.
#[verifier::external_body]
pub(crate) fn symtab_len(t: &Symtab) -> (n: usize)
    ensures
        n == symtab_entries(*t).len(),
{
    t.len()
}

/// `goblin::elf::Symtab::get`: the symbol at `index`, or `None` past the end
/// of the table; of the symbol, its `st_name` and `st_value`.
#[verifier::external_body]
pub(crate) fn symtab_get(t: &Symtab, index: usize) -> (r: Option<(usize, u64)>)
    ensures
        index < symtab_entries(*t).len() ==> r == Some(symtab_entries(*t)[index as int]),
        index >= symtab_entries(*t).len() ==> r is None,
{
    match t.get(index) {
        Some(sym) => Some((sym.st_name, sym.st_value)),
        None => None,
    }
}

/// `goblin::strtab::Strtab::get_at`: the string that can be read at byte
/// `offset` of the table, if any.
#[verifier::external_body]
pub(crate) fn strtab_get_at<'b, 'a>(t: &'b Strtab<'a>, offset: usize) -> (r: Option<&'a str>)
    ensures
        r is Some <==> strtab_entries(*t).dom().contains(offset),
        r matches Some(s) ==> s@ == strtab_entries(*t)[offset],
{
    t.get_at(offset)
}

} // verus!
