use vstd::prelude::*;

use vstd::string::StringSliceAdditionalSpecFns;

use goblin::elf::Symtab;
use goblin::strtab::Strtab;

use crate::elf::{
    elf_tables, parse_elf_tables, strtab_entries,
    strtab_get_at, symtab_entries, symtab_get, symtab_len,
};
use crate::err::Error;

verus! {

/// Whether two strings are the same, compared byte by byte.
pub fn same_str(a: &str, b: &str) -> (r: bool)
    ensures
        r == (a@ == b@),
{
    let ab = a.as_bytes();
    let bb = b.as_bytes();
    if ab.len() != bb.len() {
        return false;
    }
    let mut i: usize = 0;
    while i < ab.len()
        invariant
            ab@ == a.spec_bytes(),
            bb@ == b.spec_bytes(),
            ab.len() == bb.len(),
            0 <= i <= ab.len(),
            forall|j: int| 0 <= j < i ==> ab@[j] == bb@[j],
        decreases ab.len() - i,
    {
        if ab[i] != bb[i] {
            return false;
        }
        i = i + 1;
    }
    assert(ab@ =~= bb@);
    proof {
        vstd::utf8::encode_utf8_decode_utf8(a@);
        vstd::utf8::encode_utf8_decode_utf8(b@);
    }
    true
}

/// Why the offset of a symbol could not be found.
#[derive(Clone, Copy, Debug, PartialEq, Eq, Structural)]
pub enum SymbolLookupError {
    /// The image is not an ELF file that goblin can parse.
    ElfParse,
    /// No symbol of that name is in the symbol table.
    NotFound,
}

/// Symbol `i` of `entries` is named `name` in `strs`.
pub open spec fn symbol_named(
    entries: Seq<(usize, u64)>,
    strs: Map<usize, Seq<char>>,
    i: int,
    name: Seq<char>,
) -> bool {
    strs.dom().contains(entries[i].0) && strs[entries[i].0] == name
}

/// Symbol `i` is the first one named `name`.
pub open spec fn first_named(
    entries: Seq<(usize, u64)>,
    strs: Map<usize, Seq<char>>,
    i: int,
    name: Seq<char>,
) -> bool {
    &&& 0 <= i < entries.len()
    &&& symbol_named(entries, strs, i, name)
    &&& forall|j: int| 0 <= j < i ==> !symbol_named(entries, strs, j, name)
}

/// The value of the first symbol named `name`, if there is one.
pub open spec fn symbol_lookup(
    entries: Seq<(usize, u64)>,
    strs: Map<usize, Seq<char>>,
    name: Seq<char>,
) -> Option<u64> {
    if exists|i: int| first_named(entries, strs, i, name) {
        Some(entries[choose|i: int| first_named(entries, strs, i, name)].1)
    } else {
        None
    }
}

/// The first symbol named `name` is unique.
proof fn lemma_first_named_unique(
    entries: Seq<(usize, u64)>,
    strs: Map<usize, Seq<char>>,
    i: int,
    k: int,
    name: Seq<char>,
)
    requires
        first_named(entries, strs, i, name),
        first_named(entries, strs, k, name),
    ensures
        i == k,
{
    if i < k {
        assert(!symbol_named(entries, strs, i, name));
    } else if k < i {
        assert(!symbol_named(entries, strs, k, name));
    }
}

/// The value of the first symbol in `syms` whose name, read from `strtab`,
/// is `symbol`; `None` when no symbol has that name.
pub fn find_symbol(syms: &Symtab, strtab: &Strtab, symbol: &str) -> (r: Option<u64>)
    ensures
        r == symbol_lookup(symtab_entries(*syms), strtab_entries(*strtab), symbol@),
{
    let ghost entries = symtab_entries(*syms);
    let ghost strs = strtab_entries(*strtab);
    let n = symtab_len(syms);
    let mut i: usize = 0;
    while i < n
        invariant
            n == entries.len(),
            entries == symtab_entries(*syms),
            strs == strtab_entries(*strtab),
            0 <= i <= n,
            forall|j: int| 0 <= j < i ==> !symbol_named(entries, strs, j, symbol@),
        decreases n - i,
    {
        if let Some((st_name, st_value)) = symtab_get(syms, i) {
            if let Some(name) = strtab_get_at(strtab, st_name) {
                if same_str(name, symbol) {
                    proof {
                        assert(first_named(entries, strs, i as int, symbol@));
                        let c = choose|k: int| first_named(entries, strs, k, symbol@);
                        lemma_first_named_unique(entries, strs, i as int, c, symbol@);
                    }
                    return Some(st_value);
                }
            }
        }
        i = i + 1;
    }
    None
}

/// The offset of `symbol` in the ELF image whose tables are `tables` (as
/// [`elf_tables`] gives them): the value of the first symbol of that name.
pub open spec fn offset_in(
    tables: Option<(Seq<(usize, u64)>, Map<usize, Seq<char>>)>,
    symbol: Seq<char>,
) -> Result<u64, SymbolLookupError> {
    match tables {
        None => Err(SymbolLookupError::ElfParse),
        Some(t) => match symbol_lookup(t.0, t.1, symbol) {
            Some(v) => Ok(v),
            None => Err(SymbolLookupError::NotFound),
        },
    }
}

/// The offset of `symbol` in the ELF image `exe`: the value of the first
/// entry of that name in its symbol table (`.symtab`). Fails with `ElfParse`
/// when goblin cannot parse the image and with `NotFound` when no symbol has
/// that name.
pub fn get_symbol_offset(exe: &[u8], symbol: &str) -> (r: Result<u64, SymbolLookupError>)
    ensures
        r == offset_in(elf_tables(exe@), symbol@),
{
    let (syms, strtab) = match parse_elf_tables(exe) {
        Some(tables) => tables,
        None => {
            return Err(SymbolLookupError::ElfParse);
        },
    };
    match find_symbol(&syms, &strtab, symbol) {
        Some(offset) => Ok(offset),
        None => Err(SymbolLookupError::NotFound),
    }
}

/// The address of a symbol whose offset is `offset` in an image loaded at
/// `base_addr`, when it fits in 64 bits.
pub open spec fn relocated(base_addr: u64, offset: Option<u64>) -> Option<u64> {
    match offset {
        Some(o) => if base_addr + o <= u64::MAX {
            Some((base_addr + o) as u64)
        } else {
            None
        },
        None => None,
    }
}

/// The address of `symbol` in the image loaded at `base_addr` whose tables
/// are `syms` and `strtab`: the image base plus the symbol's value. Fails
/// with `SymbolError` when no symbol has that name or when the sum does not
/// fit in 64 bits.
pub fn symbol_address(base_addr: u64, syms: &Symtab, strtab: &Strtab, symbol: &str) -> (r: Result<
    u64,
    Error,
>)
    ensures
        r == match relocated(
            base_addr,
            symbol_lookup(symtab_entries(*syms), strtab_entries(*strtab), symbol@),
        ) {
            Some(a) => Ok::<u64, Error>(a),
            None => Err::<u64, Error>(Error::SymbolError),
        },
{
    match find_symbol(syms, strtab, symbol) {
        Some(offset) => base_addr.checked_add(offset).ok_or(Error::SymbolError),
        None => Err(Error::SymbolError),
    }
}

/// The address of `symbol` in the process: `base_addr`, where the game
/// binary is loaded, plus the symbol's offset in `exe`, the bytes of the
/// game binary. Fails with `SymbolError` when the image does not parse, the
/// symbol is missing, or the sum does not fit in 64 bits.
pub fn get_symbol_address(base_addr: u64, exe: &[u8], symbol: &str) -> (r: Result<u64, Error>)
    ensures
        r == match offset_in(elf_tables(exe@), symbol@) {
            Ok(o) => match relocated(base_addr, Some(o)) {
                Some(a) => Ok::<u64, Error>(a),
                None => Err::<u64, Error>(Error::SymbolError),
            },
            Err(_) => Err::<u64, Error>(Error::SymbolError),
        },
{
    let fn_offset = get_symbol_offset(exe, symbol);
    match fn_offset {
        Ok(offset) => base_addr.checked_add(offset).ok_or(Error::SymbolError),
        Err(_) => Err(Error::SymbolError),
    }
}

} // verus!

verus! {

/// The addresses in the game process that the helper needs: its data
/// (player list, entity list, local player pointer, model-view-projection
/// matrix, screen size, crosshair world position) and three game functions.
#[derive(Clone, Copy, Debug, PartialEq, Eq, Structural)]
pub struct GameSymbols {
    pub players: u64,
    pub ents: u64,
    pub player1: u64,
    pub mvpmatrix: u64,
    pub screenw: u64,
    pub screenh: u64,
    pub worldpos: u64,
    pub trace_line: u64,
    pub is_visible: u64,
    pub draw_text: u64,
}

/// The address of the symbol `name` in the image loaded at `base_addr`.
pub open spec fn spec_address(
    base_addr: u64,
    entries: Seq<(usize, u64)>,
    strs: Map<usize, Seq<char>>,
    name: Seq<char>,
) -> Option<u64> {
    relocated(base_addr, symbol_lookup(entries, strs, name))
}

/// All ten addresses, looked up by their (mangled) symbol names.
pub open spec fn spec_game_symbols(
    base_addr: u64,
    syms: Seq<(usize, u64)>,
    strtab: Map<usize, Seq<char>>,
) -> Option<GameSymbols> {
    let players = spec_address(base_addr, syms, strtab, "players"@);
    let ents = spec_address(base_addr, syms, strtab, "ents"@);
    let player1 = spec_address(base_addr, syms, strtab, "player1"@);
    let mvpmatrix = spec_address(base_addr, syms, strtab, "mvpmatrix"@);
    let screenw = spec_address(base_addr, syms, strtab, "screenw"@);
    let screenh = spec_address(base_addr, syms, strtab, "screenh"@);
    let worldpos = spec_address(base_addr, syms, strtab, "worldpos"@);
    let trace_line = spec_address(
        base_addr,
        syms,
        strtab,
        "_Z9TraceLine3vecS_P6dynentbP13traceresult_sb"@,
    );
    let is_visible = spec_address(base_addr, syms, strtab, "_Z9IsVisible3vecS_P6dynentb"@);
    let draw_text = spec_address(base_addr, syms, strtab, "_Z9draw_textPKciiiiiiii"@);
    if players is Some && ents is Some && player1 is Some && mvpmatrix is Some && screenw is Some
        && screenh is Some && worldpos is Some && trace_line is Some && is_visible is Some
        && draw_text is Some {
        Some(
            GameSymbols {
                players: players->0,
                ents: ents->0,
                player1: player1->0,
                mvpmatrix: mvpmatrix->0,
                screenw: screenw->0,
                screenh: screenh->0,
                worldpos: worldpos->0,
                trace_line: trace_line->0,
                is_visible: is_visible->0,
                draw_text: draw_text->0,
            },
        )
    } else {
        None
    }
}

/// Looks up the ten game addresses in the image loaded at `base_addr` whose
/// tables are `syms` and `strtab`; fails with `SymbolError` when any is
/// missing (or lies past the end of the address space).
pub fn resolve_game_symbols(base_addr: u64, syms: &Symtab, strtab: &Strtab) -> (r: Result<
    GameSymbols,
    Error,
>)
    ensures
        r == match spec_game_symbols(base_addr, symtab_entries(*syms), strtab_entries(*strtab)) {
            Some(g) => Ok::<GameSymbols, Error>(g),
            None => Err::<GameSymbols, Error>(Error::SymbolError),
        },
{
    let players = symbol_address(base_addr, syms, strtab, "players")?;
    let ents = symbol_address(base_addr, syms, strtab, "ents")?;
    let player1 = symbol_address(base_addr, syms, strtab, "player1")?;
    let mvpmatrix = symbol_address(base_addr, syms, strtab, "mvpmatrix")?;
    let screenw = symbol_address(base_addr, syms, strtab, "screenw")?;
    let screenh = symbol_address(base_addr, syms, strtab, "screenh")?;
    let worldpos = symbol_address(base_addr, syms, strtab, "worldpos")?;
    let trace_line = symbol_address(
        base_addr,
        syms,
        strtab,
        "_Z9TraceLine3vecS_P6dynentbP13traceresult_sb",
    )?;
    let is_visible = symbol_address(base_addr, syms, strtab, "_Z9IsVisible3vecS_P6dynentb")?;
    let draw_text = symbol_address(base_addr, syms, strtab, "_Z9draw_textPKciiiiiiii")?;
    Ok(
        GameSymbols {
            players,
            ents,
            player1,
            mvpmatrix,
            screenw,
            screenh,
            worldpos,
            trace_line,
            is_visible,
            draw_text,
        },
    )
}

/// Looks up the ten game addresses in `exe`, the bytes of the game binary
/// loaded at `base_addr`, by name in its symbol table. Fails with
/// `SymbolError` when the binary does not parse, when a name is missing, or
/// when an address does not fit in 64 bits.
pub fn load_game_symbols(base_addr: u64, exe: &[u8]) -> (r: Result<GameSymbols, Error>)
    ensures
        r == match elf_tables(exe@) {
            None => Err::<GameSymbols, Error>(Error::SymbolError),
            Some(t) => match spec_game_symbols(base_addr, t.0, t.1) {
                Some(g) => Ok::<GameSymbols, Error>(g),
                None => Err::<GameSymbols, Error>(Error::SymbolError),
            },
        },
{
    let (syms, strtab) = match parse_elf_tables(exe) {
        Some(tables) => tables,
        None => {
            return Err(Error::SymbolError);
        },
    };
    resolve_game_symbols(base_addr, &syms, &strtab)
}

/// Where the 32-bit jump offset sits in `SDL_GL_SwapWindow`, whose code
/// starts at `handle`: six bytes in.
pub fn swap_window_offset_location(handle: u64) -> (r: u64)
    requires
        handle + 6 <= u64::MAX,
    ensures
        r == handle + 6,
{
    handle + 0x4 + 0x2
}

/// The slot through which `SDL_GL_SwapWindow` (code at `handle`) calls its
/// inner function: the jump offset `offset` counted from the end of the
/// ten-byte instruction sequence that holds it.
pub fn swap_window_inner_slot(handle: u64, offset: u32) -> (r: u64)
    requires
        handle + 0xa + offset <= u64::MAX,
    ensures
        r == handle + 0xa + offset,
{
    handle + 0xa + offset as u64
}

/// Undoing the hook: the slot to write and the function to write back into
/// it, which is the inner function the slot held before the hook. Fails with
/// `SDLHookError` when the hook was never installed (`hook_slot` or
/// `original_inner` unknown).
pub fn recover_sdl_gl_swap_window(hook_slot: Option<u64>, original_inner: Option<u64>) -> (r: Result<
    (u64, u64),
    Error,
>)
    ensures
        r == match (hook_slot, original_inner) {
            (Some(s), Some(o)) => Ok::<(u64, u64), Error>((s, o)),
            _ => Err::<(u64, u64), Error>(Error::SDLHookError),
        },
{
    match hook_slot {
        Some(slot) => {
            match original_inner {
                Some(original) => Ok((slot, original)),
                None => Err(Error::SDLHookError),
            }
        },
        None => Err(Error::SDLHookError),
    }
}

/// What unloading does: undo the swap-window hook (see
/// [`recover_sdl_gl_swap_window`]).
pub fn fini(hook_slot: Option<u64>, original_inner: Option<u64>) -> (r: Result<(u64, u64), Error>)
    ensures
        r == match (hook_slot, original_inner) {
            (Some(s), Some(o)) => Ok::<(u64, u64), Error>((s, o)),
            _ => Err::<(u64, u64), Error>(Error::SDLHookError),
        },
{
    recover_sdl_gl_swap_window(hook_slot, original_inner)
}

/// One object loaded in the process, as the dynamic loader lists it: whether
/// its name is empty (the main program has no name) and its load address.
#[derive(Clone, Copy, Debug, PartialEq, Eq, Structural)]
pub struct LoadedObject {
    pub unnamed: bool,
    pub addr: u64,
}

/// Object `i` is the first unnamed one.
pub open spec fn first_unnamed(objects: Seq<LoadedObject>, i: int) -> bool {
    &&& 0 <= i < objects.len()
    &&& objects[i].unnamed
    &&& forall|j: int| 0 <= j < i ==> !objects[j].unnamed
}

/// The load address of the game binary: that of the first unnamed object in
/// the loader's list, in list order. Fails with `FindBaseAddrError` when no
/// object is unnamed or that address is 0.
pub fn find_base_address(objects: &Vec<LoadedObject>) -> (r: Result<u64, Error>)
    ensures
        (forall|j: int| 0 <= j < objects.len() ==> !objects@[j].unnamed) ==> r == Err::<u64, Error>(
            Error::FindBaseAddrError,
        ),
        forall|i: int|
            first_unnamed(objects@, i) ==> r == if objects@[i].addr == 0 {
                Err::<u64, Error>(Error::FindBaseAddrError)
            } else {
                Ok::<u64, Error>(objects@[i].addr)
            },
{
    let mut i: usize = 0;
    while i < objects.len()
        invariant
            0 <= i <= objects.len(),
            forall|j: int| 0 <= j < i ==> !objects@[j].unnamed,
        decreases objects.len() - i,
    {
        if objects[i].unnamed {
            let base_address = objects[i].addr;
            assert(first_unnamed(objects@, i as int));
            assert forall|k: int| first_unnamed(objects@, k) implies k == i by {
                if k < i {
                } else if i < k {
                    assert(!objects@[i as int].unnamed);
                }
            }
            if base_address == 0 {
                return Err(Error::FindBaseAddrError);
            } else {
                return Ok(base_address);
            }
        }
        i = i + 1;
    }
    Err(Error::FindBaseAddrError)
}

} // verus!
