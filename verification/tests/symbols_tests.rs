use hot_reload::symbols::{
    demangle_all, load_symbol, load_symbols, select_export, starts_with, symbol_bytes, AppCreator,
    EntryPoint, LoadError, LoadSymbolError, LoadedUnit, Registry, StaticSymbols,
    SymbolResolutionError,
};

fn unit(names: &[&str]) -> LoadedUnit {
    LoadedUnit { exports: names.iter().map(|name| name.to_string()).collect() }
}

fn put_u16(out: &mut Vec<u8>, value: u16) {
    out.extend_from_slice(&value.to_le_bytes());
}

fn put_u32(out: &mut Vec<u8>, value: u32) {
    out.extend_from_slice(&value.to_le_bytes());
}

fn put_u64(out: &mut Vec<u8>, value: u64) {
    out.extend_from_slice(&value.to_le_bytes());
}

fn pad_to_eight(out: &mut Vec<u8>) {
    while out.len() % 8 != 0 {
        out.push(0);
    }
}

fn section_header(out: &mut Vec<u8>, fields: [u64; 8], name: u32, kind: u32) {
    let [flags, offset, size, link, info, align, entsize, addr] = fields;
    put_u32(out, name);
    put_u32(out, kind);
    put_u64(out, flags);
    put_u64(out, addr);
    put_u64(out, offset);
    put_u64(out, size);
    put_u32(out, link as u32);
    put_u32(out, info as u32);
    put_u64(out, align);
    put_u64(out, entsize);
}

/// A little-endian 64-bit ELF relocatable file whose symbol table holds
/// `names`, in that order, as global functions.
fn elf_with_symbols(names: &[&[u8]]) -> Vec<u8> {
    let mut strtab = vec![0u8];
    let mut offsets = Vec::new();
    for name in names {
        offsets.push(strtab.len() as u32);
        strtab.extend_from_slice(name);
        strtab.push(0);
    }
    let shstrtab = b"\0.symtab\0.strtab\0.shstrtab\0".to_vec();

    let mut symtab = vec![0u8; 24];
    for offset in &offsets {
        put_u32(&mut symtab, *offset);
        symtab.push(0x12);
        symtab.push(0);
        put_u16(&mut symtab, 0xfff1);
        put_u64(&mut symtab, 0);
        put_u64(&mut symtab, 0);
    }

    let symtab_at = 64u64;
    let strtab_at = symtab_at + symtab.len() as u64;
    let mut body = Vec::new();
    body.extend_from_slice(&symtab);
    body.extend_from_slice(&strtab);
    let shstrtab_at = 64 + body.len() as u64;
    body.extend_from_slice(&shstrtab);
    while (64 + body.len()) % 8 != 0 {
        body.push(0);
    }
    let headers_at = 64 + body.len() as u64;

    let mut out = Vec::new();
    out.extend_from_slice(&[0x7f, b'E', b'L', b'F', 2, 1, 1, 0]);
    out.extend_from_slice(&[0u8; 8]);
    put_u16(&mut out, 1);
    put_u16(&mut out, 62);
    put_u32(&mut out, 1);
    put_u64(&mut out, 0);
    put_u64(&mut out, 0);
    put_u64(&mut out, headers_at);
    put_u32(&mut out, 0);
    put_u16(&mut out, 64);
    put_u16(&mut out, 0);
    put_u16(&mut out, 0);
    put_u16(&mut out, 64);
    put_u16(&mut out, 4);
    put_u16(&mut out, 3);
    assert_eq!(out.len(), 64);
    out.extend_from_slice(&body);
    pad_to_eight(&mut out);

    section_header(&mut out, [0; 8], 0, 0);
    section_header(&mut out, [0, symtab_at, symtab.len() as u64, 2, 1, 8, 24, 0], 1, 2);
    section_header(&mut out, [0, strtab_at, strtab.len() as u64, 0, 0, 1, 0, 0], 9, 3);
    section_header(&mut out, [0, shstrtab_at, shstrtab.len() as u64, 0, 0, 1, 0, 0], 17, 3);
    out
}

const MANGLED_ONE_FN: &str = "_ZN6one_fn6one_fn17h0123456789abcdefE";

#[test]
fn starts_with_compares_bytes() {
    assert!(starts_with("one_fn::one_fn", "one_fn"));
    assert!(starts_with("one_fn", "one_fn"));
    assert!(starts_with("one_fn", ""));
    assert!(starts_with("", ""));
    assert!(!starts_with("one_f", "one_fn"));
    assert!(!starts_with("", "one_fn"));
    assert!(!starts_with("_one_fn", "one_fn"));
    assert!(!starts_with("one_fx::y", "one_fn"));
    assert!(starts_with("grüße::fn", "grü"));
    assert!(!starts_with("grüße::fn", "gru"));
}

#[test]
fn select_export_finds_the_only_match() {
    let names = vec!["alpha::f".to_string(), "one_fn::g".to_string(), "beta".to_string()];
    assert_eq!(select_export(&names, "one_fn"), Ok(1));
    assert_eq!(select_export(&names, "beta"), Ok(2));
    assert_eq!(select_export(&names, "alpha::f"), Ok(0));
}

#[test]
fn select_export_reports_no_match() {
    let names = vec!["alpha::f".to_string(), "beta".to_string()];
    assert_eq!(select_export(&names, "gamma"), Err(SymbolResolutionError::NotFound));
    assert_eq!(select_export(&vec![], "gamma"), Err(SymbolResolutionError::NotFound));
    assert_eq!(select_export(&vec![], ""), Err(SymbolResolutionError::NotFound));
}

#[test]
fn select_export_refuses_to_guess() {
    let names = vec!["one_fn::a".to_string(), "other".to_string(), "one_fn::b".to_string()];
    assert_eq!(select_export(&names, "one_fn"), Err(SymbolResolutionError::Ambiguous));
    assert_eq!(select_export(&names, "o"), Err(SymbolResolutionError::Ambiguous));
    assert_eq!(select_export(&names, ""), Err(SymbolResolutionError::Ambiguous));
    let twice = vec!["same".to_string(), "same".to_string()];
    assert_eq!(select_export(&twice, "same"), Err(SymbolResolutionError::Ambiguous));
}

#[test]
fn demangle_all_prints_legacy_and_plain_names() {
    let raw = vec![
        MANGLED_ONE_FN.to_string(),
        "_ZN4testE".to_string(),
        "_ZN3foo3barE".to_string(),
        "foo".to_string(),
        "create_capsule".to_string(),
        "".to_string(),
    ];
    assert_eq!(
        demangle_all(&raw),
        vec![
            "one_fn::one_fn::h0123456789abcdef".to_string(),
            "test".to_string(),
            "foo::bar".to_string(),
            "foo".to_string(),
            "create_capsule".to_string(),
            "".to_string(),
        ]
    );
}

#[test]
fn resolve_matches_the_demangled_name() {
    let loaded = unit(&["_ZN5other4mainE", MANGLED_ONE_FN, "memcpy"]);
    assert_eq!(
        loaded.resolve("one_fn"),
        Ok(EntryPoint { index: 1, symbol: MANGLED_ONE_FN.to_string() })
    );
    // The raw name itself does not begin with the logical name.
    assert!(!starts_with(MANGLED_ONE_FN, "one_fn"));
}

#[test]
fn resolve_reports_missing_and_ambiguous_names() {
    let loaded = unit(&["_ZN6one_fn1aE", "_ZN6one_fn1bE", "memcpy"]);
    assert_eq!(loaded.resolve("one_fn"), Err(SymbolResolutionError::Ambiguous));
    assert_eq!(loaded.resolve("two_fn"), Err(SymbolResolutionError::NotFound));
    assert_eq!(loaded.resolve("one_fn::a"), Ok(EntryPoint { index: 0, symbol: "_ZN6one_fn1aE".to_string() }));
    assert_eq!(unit(&[]).resolve("one_fn"), Err(SymbolResolutionError::NotFound));
}

#[test]
fn resolving_twice_gives_the_same_entry_point() {
    let loaded = unit(&["exit_code", MANGLED_ONE_FN, "reconcile"]);
    for logical in ["exit_code", "one_fn", "reconcile", "absent", "e", ""] {
        assert_eq!(loaded.resolve(logical), loaded.resolve(logical));
    }
}

#[test]
fn symbol_bytes_drops_the_leading_byte() {
    assert_eq!(symbol_bytes("_create_capsule"), b"create_capsule");
    assert_eq!(symbol_bytes("__ZN6one_fnE"), b"_ZN6one_fnE");
    assert_eq!(symbol_bytes("x"), b"");
}

#[test]
fn load_symbols_refuses_what_is_no_module() {
    assert_eq!(load_symbols(b""), Err(LoadError::InvalidModule));
    assert_eq!(load_symbols(b"not a module at all"), Err(LoadError::InvalidModule));
    assert_eq!(load_symbols(&[0x7f, b'E', b'L', b'F']), Err(LoadError::InvalidModule));
}

#[test]
fn load_symbols_reads_the_table_in_order() {
    let data = elf_with_symbols(&[b"_create_capsule", MANGLED_ONE_FN.as_bytes(), b"exit_code"]);
    assert_eq!(
        load_symbols(&data),
        Ok(unit(&["_create_capsule", MANGLED_ONE_FN, "exit_code"]))
    );
    let empty = elf_with_symbols(&[]);
    assert_eq!(load_symbols(&empty), Ok(unit(&[])));
}

#[test]
fn load_symbols_refuses_a_name_that_is_not_utf8() {
    let data = elf_with_symbols(&[b"fine", &[0xff, 0xfe, b'x']]);
    assert_eq!(load_symbols(&data), Err(LoadError::InvalidModule));
}

#[test]
fn load_symbol_gives_the_lookup_name() {
    let data = elf_with_symbols(&[b"memcpy", MANGLED_ONE_FN.as_bytes()]);
    assert_eq!(load_symbol(&data, "one_fn"), Ok(MANGLED_ONE_FN.as_bytes()[1..].to_vec()));
    assert_eq!(load_symbol(&data, "memcpy"), Ok(b"emcpy".to_vec()));
}

#[test]
fn load_symbol_reports_each_failure() {
    assert_eq!(
        load_symbol(b"garbage", "one_fn"),
        Err(LoadSymbolError::Load(LoadError::InvalidModule))
    );
    let data = elf_with_symbols(&[b"_ZN6one_fn1aE", b"_ZN6one_fn1bE"]);
    assert_eq!(
        load_symbol(&data, "one_fn"),
        Err(LoadSymbolError::Resolution(SymbolResolutionError::Ambiguous))
    );
    assert_eq!(
        load_symbol(&data, "two_fn"),
        Err(LoadSymbolError::Resolution(SymbolResolutionError::NotFound))
    );
    let unnamed = elf_with_symbols(&[b""]);
    assert_eq!(load_symbol(&unnamed, ""), Err(LoadSymbolError::Unnamed));
}

#[test]
fn app_creator_resolves_the_constructor() {
    let loaded = unit(&["exit_code", "create_capsule"]);
    assert_eq!(
        AppCreator::new(&loaded),
        Ok(AppCreator(EntryPoint { index: 1, symbol: "create_capsule".to_string() }))
    );
    assert_eq!(AppCreator::new(&unit(&["exit_code"])), Err(SymbolResolutionError::NotFound));
    assert_eq!(
        AppCreator::new(&unit(&["create_capsule", "create_capsule_too"])),
        Err(SymbolResolutionError::Ambiguous)
    );
}

#[test]
fn static_symbols_resolve_all_six() {
    let loaded = unit(&[
        "reconcile",
        "exit_into_capsule",
        "exit_code",
        "run_capsule",
        "set_change_flag",
        "get_change_flag",
        "create_capsule",
    ]);
    let table = StaticSymbols::new(&loaded).unwrap();
    let point = |index: usize, symbol: &str| EntryPoint { index, symbol: symbol.to_string() };
    assert_eq!(
        table,
        StaticSymbols {
            get_hot_reload_detector: point(5, "get_change_flag"),
            set_hot_reload_detector: point(4, "set_change_flag"),
            run_app: point(3, "run_capsule"),
            exit_code: point(2, "exit_code"),
            exit_into_app: point(1, "exit_into_capsule"),
            hot_reload_reconciliation: point(0, "reconcile"),
        }
    );
}

#[test]
fn static_symbols_fail_with_the_first_name_that_does_not_resolve() {
    // `run_capsule` is missing and `exit_code` is ambiguous: the missing one
    // comes first.
    let loaded = unit(&[
        "get_change_flag",
        "set_change_flag",
        "exit_code",
        "exit_code_v2",
        "exit_into_capsule",
        "reconcile",
    ]);
    assert_eq!(StaticSymbols::new(&loaded), Err(SymbolResolutionError::NotFound));
    let loaded = unit(&[
        "get_change_flag",
        "set_change_flag",
        "run_capsule",
        "exit_code",
        "exit_code_v2",
        "exit_into_capsule",
    ]);
    assert_eq!(StaticSymbols::new(&loaded), Err(SymbolResolutionError::Ambiguous));
    assert_eq!(StaticSymbols::new(&unit(&[])), Err(SymbolResolutionError::NotFound));
}

#[test]
fn registry_only_grows() {
    let mut registry = Registry::new();
    assert_eq!(registry.len(), 0);
    assert_eq!(registry.get(0), None);
    assert_eq!(registry.register(unit(&["a"])), 0);
    assert_eq!(registry.register(unit(&["b", "c"])), 1);
    assert_eq!(registry.len(), 2);
    assert_eq!(registry.get(0), Some(&unit(&["a"])));
    assert_eq!(registry.register(unit(&[])), 2);
    assert_eq!(registry.get(0), Some(&unit(&["a"])));
    assert_eq!(registry.get(1), Some(&unit(&["b", "c"])));
    assert_eq!(registry.get(2), Some(&unit(&[])));
    assert_eq!(registry.get(3), None);
}

#[test]
fn registry_load_keeps_what_it_could_read() {
    let mut registry = Registry::new();
    let first = elf_with_symbols(&[b"create_capsule"]);
    let second = elf_with_symbols(&[b"create_capsule", b"exit_code"]);
    assert_eq!(registry.load(&first), Ok(0));
    assert_eq!(registry.load(b"no module"), Err(LoadError::InvalidModule));
    assert_eq!(registry.len(), 1);
    assert_eq!(registry.load(&second), Ok(1));
    assert_eq!(registry.get(0), Some(&unit(&["create_capsule"])));
    assert_eq!(registry.get(1), Some(&unit(&["create_capsule", "exit_code"])));
}
