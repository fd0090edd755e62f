//! Finding entry points in a dynamic module.
//!
//! A module's symbol table lists raw exported names, which carry the
//! toolchain's decoration. An entry point is asked for by its logical name:
//! each raw name is demangled, and the export whose demangled name begins
//! with the logical name is the one meant. No export, or more than one, is an
//! error: the order of the table is never used to break a tie.
//!
//! Two things are taken from other crates and believed, not proved: the
//! symbol table that `object` reads out of a module's bytes, and the text
//! that `rustc_demangle` prints for a raw name. Both are functions of their
//! argument alone and are named here as [`symbol_table`] and [`demangled`].

use object::{Object, ObjectSymbol};
use vstd::prelude::*;
use vstd::slice::{slice_subrange, slice_to_vec};
use vstd::string::StringSliceAdditionalSpecFns;
use vstd::utf8::encode_utf8;

verus! {

/// The error of `object`'s readers. Nothing is known of a value but that it
/// is one.
#[verifier::external_type_specification]
#[verifier::external_body]
pub struct ExObjectError(object::read::Error);

/// The names in the symbol table of the module held in `data`, in the
/// table's order, as `object` reads them; `None` where `object` does not
/// accept `data` as a module or a symbol's name is not UTF-8.
pub uninterp spec fn symbol_table(data: Seq<u8>) -> Option<Seq<Seq<char>>>;

/// The text that `rustc_demangle` prints for the raw name `raw`.
pub uninterp spec fn demangled(raw: Seq<char>) -> Seq<char>;

/// Calls `object::File::parse` on `data`, walks `symbols()` and takes each
/// symbol's `name()`.
///
/// Believed: the outcome is [`symbol_table`] of the bytes. It is `Err` when
/// parsing fails, or at the first symbol whose name is not UTF-8.
#[verifier::external_body]
fn read_symbol_table(data: &[u8]) -> (table: Result<Vec<String>, object::read::Error>)
    ensures
        match table {
            Ok(names) => symbol_table(data@) == Some(names.deep_view()),
            Err(_) => symbol_table(data@) is None,
        },
{
    let file = object::File::parse(data)?;
    file.symbols().map(|symbol| symbol.name().map(String::from)).collect()
}

/// Calls `rustc_demangle::demangle` on `raw` and prints the result.
///
/// Believed: the text is [`demangled`] of the raw name.
#[verifier::external_body]
fn demangle(raw: &str) -> (name: String)
    ensures
        name@ == demangled(raw@),
{
    rustc_demangle::demangle(raw).to_string()
}

/// Why a module could not be loaded.
#[derive(Clone, Copy, Debug, PartialEq, Eq, Structural)]
pub enum LoadError {
    /// There is no file at the artifact's path.
    Missing,
    /// The file is there and could not be read.
    Unreadable,
    /// The bytes are not a module whose symbol table can be read.
    InvalidModule,
}

/// Why a logical name did not resolve to an entry point.
#[derive(Clone, Copy, Debug, PartialEq, Eq, Structural)]
pub enum SymbolResolutionError {
    /// No export's demangled name begins with the logical name.
    NotFound,
    /// More than one does.
    Ambiguous,
}

/// A module read into the process: its exported raw names, in the order of
/// its symbol table.
#[derive(Debug, PartialEq, Eq)]
pub struct LoadedUnit {
    pub exports: Vec<String>,
}

impl View for LoadedUnit {
    type V = Seq<Seq<char>>;

    open spec fn view(&self) -> Seq<Seq<char>> {
        self.exports.deep_view()
    }
}

/// An export chosen for a logical name.
#[derive(Debug, PartialEq, Eq)]
pub struct EntryPoint {
    /// Where the export stands in the unit's table.
    pub index: usize,
    /// Its raw name.
    pub symbol: String,
}

/// Whether `name` begins with `prefix`, both taken as UTF-8.
pub open spec fn begins_with(name: Seq<char>, prefix: Seq<char>) -> bool {
    encode_utf8(prefix).is_prefix_of(encode_utf8(name))
}

/// Whether the name at `index` of `names` begins with `logical`.
pub open spec fn is_hit(names: Seq<Seq<char>>, logical: Seq<char>, index: int) -> bool {
    0 <= index < names.len() && begins_with(names[index], logical)
}

/// The one index of `names` whose name begins with `logical`; `NotFound`
/// where there is none, `Ambiguous` where there are several.
pub open spec fn selection(names: Seq<Seq<char>>, logical: Seq<char>) -> Result<
    int,
    SymbolResolutionError,
> {
    if !exists|i: int| is_hit(names, logical, i) {
        Err(SymbolResolutionError::NotFound)
    } else {
        let first = choose|i: int| is_hit(names, logical, i);
        if forall|j: int| is_hit(names, logical, j) ==> j == first {
            Ok(first)
        } else {
            Err(SymbolResolutionError::Ambiguous)
        }
    }
}

/// The demangled name of each raw name of `exports`.
pub open spec fn demangled_table(exports: Seq<Seq<char>>) -> Seq<Seq<char>> {
    exports.map_values(|raw: Seq<char>| demangled(raw))
}

/// The export of `exports` that `logical` names.
pub open spec fn resolution(exports: Seq<Seq<char>>, logical: Seq<char>) -> Result<
    int,
    SymbolResolutionError,
> {
    selection(demangled_table(exports), logical)
}

/// Tells whether `name` begins with `prefix`.
pub fn starts_with(name: &str, prefix: &str) -> (hit: bool)
    ensures
        hit == begins_with(name@, prefix@),
{
    let text = name.as_bytes();
    let head = prefix.as_bytes();
    if head.len() > text.len() {
        return false;
    }
    let mut at: usize = 0;
    while at < head.len()
        invariant
            at <= head.len() <= text.len(),
            text@ == encode_utf8(name@),
            head@ == encode_utf8(prefix@),
            forall|k: int| 0 <= k < at ==> head@[k] == text@[k],
        decreases head.len() - at,
    {
        if head[at] != text[at] {
            assert(text@.subrange(0, head@.len() as int)[at as int] == text@[at as int]);
            return false;
        }
        at += 1;
    }
    assert(head@ =~= text@.subrange(0, head@.len() as int));
    true
}

/// Picks the one name of `names` that begins with `logical`.
///
/// `names` are demangled names. The result is the index of the only one that
/// begins with `logical`, `NotFound` where none does and `Ambiguous` where
/// two or more do.
pub fn select_export(names: &Vec<String>, logical: &str) -> (chosen: Result<
    usize,
    SymbolResolutionError,
>)
    ensures
        match selection(names.deep_view(), logical@) {
            Ok(index) => chosen == Ok::<usize, SymbolResolutionError>(index as usize),
            Err(error) => chosen == Err::<usize, SymbolResolutionError>(error),
        },
        chosen matches Ok(index) ==> index < names.len(),
{
    let ghost table = names.deep_view();
    let mut found: Option<usize> = None;
    let mut at: usize = 0;
    while at < names.len()
        invariant
            at <= names.len(),
            table == names.deep_view(),
            table.len() == names.len(),
            match found {
                Some(first) => first < at && is_hit(table, logical@, first as int) && forall|
                    j: int,
                |
                    0 <= j < at && is_hit(table, logical@, j) ==> j == first,
                None => forall|j: int| 0 <= j < at ==> !is_hit(table, logical@, j),
            },
        decreases names.len() - at,
    {
        assert(table[at as int] == names@[at as int]@);
        if starts_with(names[at].as_str(), logical) {
            match found {
                Some(first) => {
                    assert(is_hit(table, logical@, first as int));
                    assert(is_hit(table, logical@, at as int));
                    return Err(SymbolResolutionError::Ambiguous);
                },
                None => {
                    found = Some(at);
                },
            }
        }
        at += 1;
    }
    match found {
        Some(first) => {
            assert(is_hit(table, logical@, first as int));
            Ok(first)
        },
        None => Err(SymbolResolutionError::NotFound),
    }
}

/// Demangles every raw name of `exports`, in order.
pub fn demangle_all(exports: &Vec<String>) -> (names: Vec<String>)
    ensures
        names.deep_view() == demangled_table(exports.deep_view()),
{
    let mut names: Vec<String> = Vec::new();
    let mut at: usize = 0;
    while at < exports.len()
        invariant
            at <= exports.len(),
            names.len() == at,
            forall|k: int| 0 <= k < at ==> names@[k]@ == demangled(#[trigger] exports@[k]@),
        decreases exports.len() - at,
    {
        let name = demangle(exports[at].as_str());
        names.push(name);
        at += 1;
    }
    assert(names.deep_view() =~= demangled_table(exports.deep_view()));
    names
}

/// Whether `entry` is what resolving `logical` against `exports` gives: the
/// chosen export with its index and raw name, or the error.
pub open spec fn resolves_to(
    exports: Seq<Seq<char>>,
    logical: Seq<char>,
    entry: Result<EntryPoint, SymbolResolutionError>,
) -> bool {
    match resolution(exports, logical) {
        Ok(index) => entry matches Ok(point) && point.index == index && point.symbol@
            == exports[index],
        Err(error) => entry matches Err(e) && e == error,
    }
}

impl LoadedUnit {
    /// Resolves `logical` against this unit's exports.
    ///
    /// Each raw name is demangled and the demangled names are matched
    /// against `logical`. The entry point is the only export whose demangled
    /// name begins with `logical`; with none the error is `NotFound`, with
    /// several it is `Ambiguous`.
    pub fn resolve(&self, logical: &str) -> (entry: Result<EntryPoint, SymbolResolutionError>)
        ensures
            resolves_to(self@, logical@, entry),
    {
        let names = demangle_all(&self.exports);
        match select_export(&names, logical) {
            Ok(index) => {
                assert(self@[index as int] == self.exports@[index as int]@);
                Ok(EntryPoint { index, symbol: self.exports[index].clone() })
            },
            Err(error) => Err(error),
        }
    }
}

/// Reads the export table of the module held in `data`.
///
/// Succeeds exactly when `object` can read a symbol table with UTF-8 names
/// out of `data`; otherwise the error is `InvalidModule`.
pub fn load_symbols(data: &[u8]) -> (unit: Result<LoadedUnit, LoadError>)
    ensures
        match symbol_table(data@) {
            Some(names) => unit matches Ok(loaded) && loaded@ == names,
            None => unit matches Err(e) && e == LoadError::InvalidModule,
        },
{
    match read_symbol_table(data) {
        Ok(exports) => Ok(LoadedUnit { exports }),
        Err(_) => Err(LoadError::InvalidModule),
    }
}

/// The name under which the dynamic loader finds the export `name`: the raw
/// name without its first byte, the underscore that the linker put in front.
pub fn symbol_bytes(name: &str) -> (lookup: &[u8])
    requires
        name.spec_bytes().len() >= 1,
    ensures
        lookup@ == name.spec_bytes().subrange(1, name.spec_bytes().len() as int),
{
    let bytes = name.as_bytes();
    slice_subrange(bytes, 1, bytes.len())
}

/// Why the lookup name of an entry point could not be worked out from a
/// module's bytes.
#[derive(Clone, Copy, Debug, PartialEq, Eq, Structural)]
pub enum LoadSymbolError {
    /// The module could not be read.
    Load(LoadError),
    /// The logical name did not resolve.
    Resolution(SymbolResolutionError),
    /// The chosen export has an empty raw name, so there is nothing to look
    /// up.
    Unnamed,
}

/// What [`load_symbol`] gives for the symbol table `table` of a module and
/// the logical name `logical`.
pub open spec fn lookup_name(table: Option<Seq<Seq<char>>>, logical: Seq<char>) -> Result<
    Seq<u8>,
    LoadSymbolError,
> {
    match table {
        None => Err(LoadSymbolError::Load(LoadError::InvalidModule)),
        Some(exports) => match resolution(exports, logical) {
            Err(error) => Err(LoadSymbolError::Resolution(error)),
            Ok(index) => {
                let raw = encode_utf8(exports[index]);
                if raw.len() == 0 {
                    Err(LoadSymbolError::Unnamed)
                } else {
                    Ok(raw.subrange(1, raw.len() as int))
                }
            },
        },
    }
}

/// Works out, from the bytes of a module, the name to hand to the dynamic
/// loader for the entry point `logical`.
///
/// The module's symbol table is read, `logical` is resolved against it, and
/// the chosen raw name is cut down by [`symbol_bytes`].
pub fn load_symbol(buf: &[u8], logical: &str) -> (lookup: Result<Vec<u8>, LoadSymbolError>)
    ensures
        match lookup_name(symbol_table(buf@), logical@) {
            Ok(name) => lookup matches Ok(bytes) && bytes@ == name,
            Err(error) => lookup matches Err(e) && e == error,
        },
{
    let unit = match load_symbols(buf) {
        Ok(unit) => unit,
        Err(error) => {
            return Err(LoadSymbolError::Load(error));
        },
    };
    let point = match unit.resolve(logical) {
        Ok(point) => point,
        Err(error) => {
            return Err(LoadSymbolError::Resolution(error));
        },
    };
    let raw = point.symbol.as_str();
    if raw.as_bytes().len() == 0 {
        return Err(LoadSymbolError::Unnamed);
    }
    Ok(slice_to_vec(symbol_bytes(raw)))
}

/// The logical name of the entry point that constructs a capsule.
pub open spec fn creator_name() -> Seq<char> {
    "create_capsule"@
}

/// The logical names of the entry points that every module exports besides
/// its constructor, in the order in which they are resolved.
pub open spec fn static_names() -> Seq<Seq<char>> {
    seq![
        "get_change_flag"@,
        "set_change_flag"@,
        "run_capsule"@,
        "exit_code"@,
        "exit_into_capsule"@,
        "reconcile"@,
    ]
}

/// Whether `names[at]` is the first of `names` that does not resolve against
/// `exports`, and fails with `error`.
pub open spec fn first_failure(
    exports: Seq<Seq<char>>,
    names: Seq<Seq<char>>,
    at: int,
    error: SymbolResolutionError,
) -> bool {
    &&& 0 <= at < names.len()
    &&& resolution(exports, names[at]) == Err::<int, SymbolResolutionError>(error)
    &&& forall|j: int| 0 <= j < at ==> (#[trigger] resolution(exports, names[j])) is Ok
}

/// The entry point that constructs a capsule. It is resolved anew after
/// every load, since each build of the module has its own constructor.
#[derive(Debug, PartialEq, Eq)]
pub struct AppCreator(pub EntryPoint);

impl AppCreator {
    /// Resolves the constructor in `unit`.
    pub fn new(unit: &LoadedUnit) -> (creator: Result<AppCreator, SymbolResolutionError>)
        ensures
            match creator {
                Ok(found) => resolves_to(
                    unit@,
                    creator_name(),
                    Ok::<EntryPoint, SymbolResolutionError>(found.0),
                ),
                Err(error) => resolution(unit@, creator_name()) == Err::<
                    int,
                    SymbolResolutionError,
                >(error),
            },
    {
        match unit.resolve("create_capsule") {
            Ok(point) => Ok(AppCreator(point)),
            Err(error) => Err(error),
        }
    }
}

/// The entry points that act on a capsule once it exists.
#[derive(Debug, PartialEq, Eq)]
pub struct StaticSymbols {
    pub get_hot_reload_detector: EntryPoint,
    pub set_hot_reload_detector: EntryPoint,
    pub run_app: EntryPoint,
    pub exit_code: EntryPoint,
    pub exit_into_app: EntryPoint,
    pub hot_reload_reconciliation: EntryPoint,
}

impl StaticSymbols {
    /// The entry points in the order of [`static_names`].
    pub open spec fn entries(&self) -> Seq<EntryPoint> {
        seq![
            self.get_hot_reload_detector,
            self.set_hot_reload_detector,
            self.run_app,
            self.exit_code,
            self.exit_into_app,
            self.hot_reload_reconciliation,
        ]
    }

    /// Resolves every name of [`static_names`] in `unit`.
    ///
    /// Succeeds exactly when all of them resolve, and then each field holds
    /// the export chosen for its name. Otherwise the error is that of the
    /// first name, in the order of [`static_names`], that does not resolve.
    pub fn new(unit: &LoadedUnit) -> (table: Result<StaticSymbols, SymbolResolutionError>)
        ensures
            match table {
                Ok(symbols) => forall|k: int|
                    0 <= k < static_names().len() ==> resolves_to(
                        unit@,
                        #[trigger] static_names()[k],
                        Ok::<EntryPoint, SymbolResolutionError>(symbols.entries()[k]),
                    ),
                Err(error) => exists|k: int| first_failure(unit@, static_names(), k, error),
            },
    {
        let get_hot_reload_detector = match unit.resolve("get_change_flag") {
            Ok(point) => point,
            Err(error) => {
                assert(first_failure(unit@, static_names(), 0, error));
                return Err(error);
            },
        };
        let set_hot_reload_detector = match unit.resolve("set_change_flag") {
            Ok(point) => point,
            Err(error) => {
                assert(first_failure(unit@, static_names(), 1, error));
                return Err(error);
            },
        };
        let run_app = match unit.resolve("run_capsule") {
            Ok(point) => point,
            Err(error) => {
                assert(first_failure(unit@, static_names(), 2, error));
                return Err(error);
            },
        };
        let exit_code = match unit.resolve("exit_code") {
            Ok(point) => point,
            Err(error) => {
                assert(first_failure(unit@, static_names(), 3, error));
                return Err(error);
            },
        };
        let exit_into_app = match unit.resolve("exit_into_capsule") {
            Ok(point) => point,
            Err(error) => {
                assert(first_failure(unit@, static_names(), 4, error));
                return Err(error);
            },
        };
        let hot_reload_reconciliation = match unit.resolve("reconcile") {
            Ok(point) => point,
            Err(error) => {
                assert(first_failure(unit@, static_names(), 5, error));
                return Err(error);
            },
        };
        Ok(
            StaticSymbols {
                get_hot_reload_detector,
                set_hot_reload_detector,
                run_app,
                exit_code,
                exit_into_app,
                hot_reload_reconciliation,
            },
        )
    }
}

/// The units loaded so far, oldest first. A unit is entered once and stays
/// for the life of the process: code that a live capsule may still call is
/// never given up.
pub struct Registry {
    units: Vec<LoadedUnit>,
}

impl View for Registry {
    type V = Seq<Seq<Seq<char>>>;

    closed spec fn view(&self) -> Seq<Seq<Seq<char>>> {
        self.units@.map_values(|unit: LoadedUnit| unit@)
    }
}

impl Registry {
    /// A registry with no unit in it.
    pub fn new() -> (registry: Registry)
        ensures
            registry@ == Seq::<Seq<Seq<char>>>::empty(),
    {
        let registry = Registry { units: Vec::new() };
        assert(registry@ =~= Seq::<Seq<Seq<char>>>::empty());
        registry
    }

    /// How many units were loaded.
    pub fn len(&self) -> (count: usize)
        ensures
            count == self@.len(),
    {
        self.units.len()
    }

    /// Enters `unit` behind all earlier ones and gives its generation: the
    /// number of units loaded before it.
    pub fn register(&mut self, unit: LoadedUnit) -> (generation: usize)
        ensures
            final(self)@ == old(self)@.push(unit@),
            generation == old(self)@.len(),
    {
        let generation = self.units.len();
        self.units.push(unit);
        assert(self@ =~= old(self)@.push(unit@));
        generation
    }

    /// Loads the module held in `data` and keeps it.
    ///
    /// Where its symbol table can be read the unit is entered behind all
    /// earlier ones and its generation is returned. Otherwise the error is
    /// `InvalidModule` and the registry is as it was.
    pub fn load(&mut self, data: &[u8]) -> (generation: Result<usize, LoadError>)
        ensures
            match symbol_table(data@) {
                Some(names) => generation == Ok::<usize, LoadError>(old(self)@.len() as usize)
                    && final(self)@ == old(self)@.push(names),
                None => generation == Err::<usize, LoadError>(LoadError::InvalidModule)
                    && final(self)@ == old(self)@,
            },
    {
        match load_symbols(data) {
            Ok(unit) => Ok(self.register(unit)),
            Err(error) => Err(error),
        }
    }

    /// The unit of `generation`, if that many were loaded.
    pub fn get(&self, generation: usize) -> (unit: Option<&LoadedUnit>)
        ensures
            match unit {
                Some(found) => generation < self@.len() && found@ == self@[generation as int],
                None => generation >= self@.len(),
            },
    {
        if generation < self.units.len() {
            Some(&self.units[generation])
        } else {
            None
        }
    }
}

/// Resolving one logical name twice against one unit chooses the same
/// export both times, or fails with the same error both times.
pub proof fn law_resolution_is_stable(
    exports: Seq<Seq<char>>,
    logical: Seq<char>,
    first: Result<EntryPoint, SymbolResolutionError>,
    second: Result<EntryPoint, SymbolResolutionError>,
)
    requires
        resolves_to(exports, logical, first),
        resolves_to(exports, logical, second),
    ensures
        match (first, second) {
            (Ok(a), Ok(b)) => a.index == b.index && a.symbol@ == b.symbol@,
            (Err(a), Err(b)) => a == b,
            _ => false,
        },
{
}

/// Entering a unit changes no earlier entry of the registry.
pub proof fn law_registry_only_grows(before: Seq<Seq<Seq<char>>>, unit: Seq<Seq<char>>)
    ensures
        before.push(unit).len() == before.len() + 1,
        forall|generation: int|
            0 <= generation < before.len() ==> before.push(unit)[generation]
                == before[generation],
{
}

} // verus!
