use ac_internal::hooks::{
    find_base_address, find_symbol, fini, get_symbol_address, get_symbol_offset,
    load_game_symbols, recover_sdl_gl_swap_window, resolve_game_symbols, same_str,
    swap_window_inner_slot, swap_window_offset_location, symbol_address, GameSymbols,
    LoadedObject, SymbolLookupError,
};
use ac_internal::Error;
use goblin::container::{Container, Ctx, Endian};
use goblin::elf::Symtab;
use goblin::strtab::Strtab;

/// A string table and a 64-bit little-endian symbol table (with the leading
/// null symbol) for the given names and values.
fn tables(symbols: &[(&str, u64)]) -> (Vec<u8>, Vec<u8>) {
    let mut strtab = vec![0u8];
    let mut symtab = vec![0u8; 24];
    for (name, value) in symbols {
        let offset = strtab.len() as u32;
        strtab.extend_from_slice(name.as_bytes());
        strtab.push(0);
        symtab.extend_from_slice(&offset.to_le_bytes());
        symtab.push(0x12); // global function
        symtab.push(0);
        symtab.extend_from_slice(&1u16.to_le_bytes());
        symtab.extend_from_slice(&value.to_le_bytes());
        symtab.extend_from_slice(&0u64.to_le_bytes());
    }
    (strtab, symtab)
}

fn section_header(
    out: &mut Vec<u8>,
    name: u32,
    kind: u32,
    offset: u64,
    size: u64,
    link: u32,
    info: u32,
    entsize: u64,
) {
    out.extend_from_slice(&name.to_le_bytes());
    out.extend_from_slice(&kind.to_le_bytes());
    out.extend_from_slice(&0u64.to_le_bytes()); // flags
    out.extend_from_slice(&0u64.to_le_bytes()); // addr
    out.extend_from_slice(&offset.to_le_bytes());
    out.extend_from_slice(&size.to_le_bytes());
    out.extend_from_slice(&link.to_le_bytes());
    out.extend_from_slice(&info.to_le_bytes());
    out.extend_from_slice(&1u64.to_le_bytes()); // addralign
    out.extend_from_slice(&entsize.to_le_bytes());
}

/// A minimal relocatable x86-64 ELF image holding just a symbol table.
fn elf_image(symbols: &[(&str, u64)]) -> Vec<u8> {
    let (strtab, symtab) = tables(symbols);
    let shstrtab = b"\0.symtab\0.strtab\0.shstrtab\0".to_vec();
    let symtab_off = 64u64;
    let strtab_off = symtab_off + symtab.len() as u64;
    let shstrtab_off = strtab_off + strtab.len() as u64;
    let mut shoff = shstrtab_off + shstrtab.len() as u64;
    shoff = (shoff + 7) / 8 * 8;

    let mut out = Vec::new();
    out.extend_from_slice(&[0x7f, b'E', b'L', b'F', 2, 1, 1, 0, 0, 0, 0, 0, 0, 0, 0, 0]);
    out.extend_from_slice(&1u16.to_le_bytes()); // ET_REL
    out.extend_from_slice(&62u16.to_le_bytes()); // EM_X86_64
    out.extend_from_slice(&1u32.to_le_bytes());
    out.extend_from_slice(&0u64.to_le_bytes()); // entry
    out.extend_from_slice(&0u64.to_le_bytes()); // phoff
    out.extend_from_slice(&shoff.to_le_bytes());
    out.extend_from_slice(&0u32.to_le_bytes()); // flags
    out.extend_from_slice(&64u16.to_le_bytes()); // ehsize
    out.extend_from_slice(&56u16.to_le_bytes()); // phentsize
    out.extend_from_slice(&0u16.to_le_bytes()); // phnum
    out.extend_from_slice(&64u16.to_le_bytes()); // shentsize
    out.extend_from_slice(&4u16.to_le_bytes()); // shnum
    out.extend_from_slice(&3u16.to_le_bytes()); // shstrndx
    assert_eq!(out.len(), 64);
    out.extend_from_slice(&symtab);
    out.extend_from_slice(&strtab);
    out.extend_from_slice(&shstrtab);
    while (out.len() as u64) < shoff {
        out.push(0);
    }
    section_header(&mut out, 0, 0, 0, 0, 0, 0, 0);
    section_header(&mut out, 1, 2, symtab_off, symtab.len() as u64, 2, 1, 24);
    section_header(&mut out, 9, 3, strtab_off, strtab.len() as u64, 0, 0, 0);
    section_header(&mut out, 17, 3, shstrtab_off, shstrtab.len() as u64, 0, 0, 0);
    out
}

fn ctx() -> Ctx {
    Ctx::new(Container::Big, Endian::Little)
}

const GAME_NAMES: [&str; 10] = [
    "players",
    "ents",
    "player1",
    "mvpmatrix",
    "screenw",
    "screenh",
    "worldpos",
    "_Z9TraceLine3vecS_P6dynentbP13traceresult_sb",
    "_Z9IsVisible3vecS_P6dynentb",
    "_Z9draw_textPKciiiiiiii",
];

#[test]
fn same_str_compares_contents() {
    assert!(same_str("players", "players"));
    assert!(!same_str("players", "player1"));
    assert!(!same_str("ents", "ent"));
    assert!(same_str("", ""));
    assert!(!same_str("ƒoo", "foo"));
}

#[test]
fn find_symbol_first_match_wins() {
    let (strtab_bytes, symtab_bytes) =
        tables(&[("ents", 0x20), ("players", 0x10), ("players", 0x30)]);
    let strtab = Strtab::new_preparsed(&strtab_bytes, 0).unwrap();
    let syms = Symtab::parse(&symtab_bytes, 0, 4, ctx()).unwrap();
    assert_eq!(find_symbol(&syms, &strtab, "players"), Some(0x10));
    assert_eq!(find_symbol(&syms, &strtab, "ents"), Some(0x20));
    assert_eq!(find_symbol(&syms, &strtab, "worldpos"), None);
    // the leading null symbol is named by the empty string at offset 0
    assert_eq!(find_symbol(&syms, &strtab, ""), Some(0));
}

#[test]
fn symbol_address_adds_base() {
    let (strtab_bytes, symtab_bytes) = tables(&[("screenw", 0x1234)]);
    let strtab = Strtab::new_preparsed(&strtab_bytes, 0).unwrap();
    let syms = Symtab::parse(&symtab_bytes, 0, 2, ctx()).unwrap();
    assert_eq!(symbol_address(0x40_0000, &syms, &strtab, "screenw"), Ok(0x40_1234));
    assert_eq!(symbol_address(0x40_0000, &syms, &strtab, "screenh"), Err(Error::SymbolError));
    assert_eq!(symbol_address(u64::MAX, &syms, &strtab, "screenw"), Err(Error::SymbolError));
}

#[test]
fn offset_from_elf_image() {
    let image = elf_image(&[("ents", 0x2000), ("players", 0x1000), ("players", 0x3000)]);
    assert_eq!(get_symbol_offset(&image, "players"), Ok(0x1000));
    assert_eq!(get_symbol_offset(&image, "ents"), Ok(0x2000));
    assert_eq!(get_symbol_offset(&image, "screenh"), Err(SymbolLookupError::NotFound));
    assert_eq!(get_symbol_offset(b"not an elf file at all", "ents"), Err(SymbolLookupError::ElfParse));
}

#[test]
fn address_from_elf_image() {
    let image = elf_image(&[("ents", 0x2000)]);
    assert_eq!(get_symbol_address(0x5555_0000, &image, "ents"), Ok(0x5555_2000));
    assert_eq!(get_symbol_address(0x5555_0000, &image, "players"), Err(Error::SymbolError));
    assert_eq!(get_symbol_address(u64::MAX - 1, &image, "ents"), Err(Error::SymbolError));
    assert_eq!(get_symbol_address(0, b"\x7fELF", "ents"), Err(Error::SymbolError));
}

#[test]
fn game_symbols_resolved() {
    let symbols: Vec<(&str, u64)> =
        GAME_NAMES.iter().enumerate().map(|(i, n)| (*n, 0x100 * (i as u64 + 1))).collect();
    let image = elf_image(&symbols);
    let expected = GameSymbols {
        players: 0x1100,
        ents: 0x1200,
        player1: 0x1300,
        mvpmatrix: 0x1400,
        screenw: 0x1500,
        screenh: 0x1600,
        worldpos: 0x1700,
        trace_line: 0x1800,
        is_visible: 0x1900,
        draw_text: 0x1a00,
    };
    assert_eq!(load_game_symbols(0x1000, &image), Ok(expected));
    let (strtab_bytes, symtab_bytes) = tables(&symbols);
    let strtab = Strtab::new_preparsed(&strtab_bytes, 0).unwrap();
    let syms = Symtab::parse(&symtab_bytes, 0, 11, ctx()).unwrap();
    assert_eq!(resolve_game_symbols(0x1000, &syms, &strtab), Ok(expected));
}

#[test]
fn game_symbols_missing_one() {
    let symbols: Vec<(&str, u64)> = GAME_NAMES[..9].iter().map(|n| (*n, 0x10)).collect();
    let image = elf_image(&symbols);
    assert_eq!(load_game_symbols(0x1000, &image), Err(Error::SymbolError));
    assert_eq!(load_game_symbols(0x1000, b"garbage"), Err(Error::SymbolError));
}

#[test]
fn swap_window_hook_addresses() {
    assert_eq!(swap_window_offset_location(0x7f00_0000_1000), 0x7f00_0000_1006);
    assert_eq!(swap_window_inner_slot(0x7f00_0000_1000, 0x20), 0x7f00_0000_102a);
}

#[test]
fn recover_writes_back_original() {
    let slot = swap_window_inner_slot(0x1000, 0x30);
    assert_eq!(recover_sdl_gl_swap_window(Some(slot), Some(0xdead)), Ok((slot, 0xdead)));
    assert_eq!(recover_sdl_gl_swap_window(None, Some(0xdead)), Err(Error::SDLHookError));
    assert_eq!(recover_sdl_gl_swap_window(Some(slot), None), Err(Error::SDLHookError));
    assert_eq!(fini(Some(slot), Some(7)), Ok((slot, 7)));
    assert_eq!(fini(None, None), Err(Error::SDLHookError));
}

#[test]
fn base_address_of_main_program() {
    let objs = vec![
        LoadedObject { unnamed: false, addr: 0x7000 },
        LoadedObject { unnamed: true, addr: 0x5555_0000 },
        LoadedObject { unnamed: true, addr: 0x9999 },
    ];
    assert_eq!(find_base_address(&objs), Ok(0x5555_0000));
    assert_eq!(
        find_base_address(&vec![LoadedObject { unnamed: false, addr: 1 }]),
        Err(Error::FindBaseAddrError)
    );
    assert_eq!(
        find_base_address(&vec![LoadedObject { unnamed: true, addr: 0 }]),
        Err(Error::FindBaseAddrError)
    );
    assert_eq!(find_base_address(&vec![]), Err(Error::FindBaseAddrError));
}
