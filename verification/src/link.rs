//! Linking imported symbols to their stub libraries.
//!
//! From the import database two maps are built: one from every imported
//! function's name and one from every imported variable's name to the stub
//! library that defines it, kernel libraries left out. A symbol imported
//! by two stub libraries is an error. With the maps in hand, one foreign
//! block of declarations is resolved to the single stub library all its
//! symbols link against: a symbol the maps do not know makes the whole
//! block count as provided by the C runtime, and two symbols with
//! different stub libraries are incompatible. Parsing the source tree and
//! rewriting its attributes happens outside the library; the items of a
//! foreign block arrive here as plain names.

use vstd::prelude::*;

use crate::headers_db::{stub_lib_name, stub_lib_name_spec, VitaImports};
use crate::strutil::str_eq;

verus! {

/// The view of an association list of strings.
pub open spec fn pairs_view(v: Seq<(String, String)>) -> Seq<(Seq<char>, Seq<char>)> {
    v.map_values(|p: (String, String)| (p.0@, p.1@))
}

/// The `(symbol, stub library)` pairs of one run of imported names, all
/// mapping to the same stub library.
pub open spec fn names_with_stub(nids: Seq<(String, u32)>, stub: Seq<char>) -> Seq<
    (Seq<char>, Seq<char>),
>
    decreases nids.len(),
{
    if nids.len() == 0 {
        Seq::empty()
    } else {
        names_with_stub(nids.drop_last(), stub).push((nids.last().0@, stub))
    }
}

/// The symbol entries contributed by one module's libraries: functions
/// when `functions` is set, variables otherwise; kernel libraries
/// contribute nothing.
pub open spec fn libs_entries(
    libs: Seq<(String, crate::headers_db::VitaImportsLib)>,
    stub: Seq<char>,
    functions: bool,
) -> Seq<(Seq<char>, Seq<char>)>
    decreases libs.len(),
{
    if libs.len() == 0 {
        Seq::empty()
    } else {
        libs_entries(libs.drop_last(), stub, functions) + (if libs.last().1.kernel {
            Seq::empty()
        } else if functions {
            names_with_stub(libs.last().1.function_nids@, stub)
        } else {
            names_with_stub(libs.last().1.variable_nids@, stub)
        })
    }
}

/// The symbol entries contributed by a run of modules.
pub open spec fn import_entries_of(
    mods: Seq<(String, crate::headers_db::VitaImportsModule)>,
    fw: Seq<char>,
    functions: bool,
) -> Seq<(Seq<char>, Seq<char>)>
    decreases mods.len(),
{
    if mods.len() == 0 {
        Seq::empty()
    } else {
        import_entries_of(mods.drop_last(), fw, functions) + libs_entries(
            mods.last().1.libraries@,
            stub_lib_name_spec(mods.last().0@, fw),
            functions,
        )
    }
}

/// The symbol entries of the whole database, in file order.
pub open spec fn all_entries(imports: Seq<VitaImports>, functions: bool) -> Seq<
    (Seq<char>, Seq<char>),
>
    decreases imports.len(),
{
    if imports.len() == 0 {
        Seq::empty()
    } else {
        all_entries(imports.drop_last(), functions) + import_entries_of(
            imports.last().modules@,
            imports.last().firmware@,
            functions,
        )
    }
}

/// The value under the first occurrence of `k`.
pub open spec fn assoc_lookup(m: Seq<(Seq<char>, Seq<char>)>, k: Seq<char>) -> Option<Seq<char>>
    decreases m.len(),
{
    if m.len() == 0 {
        None
    } else if m.first().0 == k {
        Some(m.first().1)
    } else {
        assoc_lookup(m.drop_first(), k)
    }
}

/// The map built by inserting the entries in order, refusing a symbol
/// that is already mapped: the error carries the symbol, the stub library
/// it is mapped to, and the one it newly claimed.
pub open spec fn built_map(entries: Seq<(Seq<char>, Seq<char>)>) -> Result<
    Seq<(Seq<char>, Seq<char>)>,
    (Seq<char>, Seq<char>, Seq<char>),
>
    decreases entries.len(),
{
    if entries.len() == 0 {
        Ok(Seq::empty())
    } else {
        match built_map(entries.drop_last()) {
            Err(e) => Err(e),
            Ok(m) => match assoc_lookup(m, entries.last().0) {
                Some(existing) => Err((entries.last().0, existing, entries.last().1)),
                None => Ok(m.push(entries.last())),
            },
        }
    }
}

/// Why the link maps could not be built.
#[derive(Clone, Debug, PartialEq, Eq)]
pub enum LinkError {
    /// One symbol is imported by two stub libraries.
    DuplicateSymbol { symbol: String, first: String, second: String },
}

/// The value under the first occurrence of `k` in the list.
pub fn assoc_get(m: &Vec<(String, String)>, k: &str) -> (r: Option<String>)
    ensures
        match r {
            Some(v) => assoc_lookup(pairs_view(m@), k@) == Some(v@),
            None => assoc_lookup(pairs_view(m@), k@) is None,
        },
{
    let n = m.len();
    let mut i: usize = 0;
    assert(pairs_view(m@).skip(0int) =~= pairs_view(m@));
    while i < n
        invariant
            i <= n == m@.len(),
            assoc_lookup(pairs_view(m@), k@) == assoc_lookup(
                pairs_view(m@).skip(i as int),
                k@,
            ),
        decreases n - i,
    {
        proof {
            assert(pairs_view(m@).skip(i as int).first() == (m@[i as int].0@, m@[i as int].1@));
            assert(pairs_view(m@).skip(i as int).drop_first() =~= pairs_view(m@).skip(
                i as int + 1,
            ));
        }
        if str_eq(m[i].0.as_str(), k) {
            return Some(m[i].1.clone());
        }
        i += 1;
    }
    proof {
        assert(pairs_view(m@).skip(n as int) =~= Seq::<(Seq<char>, Seq<char>)>::empty());
    }
    None
}

proof fn lemma_built_map_err_extends(entries: Seq<(Seq<char>, Seq<char>)>, j: int)
    requires
        0 <= j <= entries.len(),
        built_map(entries.take(j)) is Err,
    ensures
        built_map(entries) == built_map(entries.take(j)),
    decreases entries.len() - j,
{
    if j < entries.len() {
        assert(entries.take(j + 1).drop_last() =~= entries.take(j));
        assert(built_map(entries.take(j + 1)) == built_map(entries.take(j)));
        lemma_built_map_err_extends(entries, j + 1);
    } else {
        assert(entries.take(j) =~= entries);
    }
}

/// Builds the symbol map from the entries in order; the first symbol seen
/// twice is the error, carrying the stub library it is already mapped to
/// and the one it newly claimed.
pub fn build_link_map(entries: &Vec<(String, String)>) -> (r: Result<
    Vec<(String, String)>,
    LinkError,
>)
    ensures
        r matches Ok(m) ==> built_map(pairs_view(entries@)) == Ok::<_, (Seq<char>, Seq<char>, Seq<
            char,
        >)>(pairs_view(m@)),
        r matches Err(LinkError::DuplicateSymbol { symbol, first, second }) ==> built_map(
            pairs_view(entries@),
        ) == Err::<Seq<(Seq<char>, Seq<char>)>, _>((symbol@, first@, second@)),
{
    let mut map: Vec<(String, String)> = Vec::new();
    let n = entries.len();
    let mut i: usize = 0;
    proof {
        assert(pairs_view(entries@).take(0int) =~= Seq::<(Seq<char>, Seq<char>)>::empty());
        assert(pairs_view(map@) =~= Seq::<(Seq<char>, Seq<char>)>::empty());
    }
    while i < n
        invariant
            i <= n == entries@.len(),
            built_map(pairs_view(entries@).take(i as int)) == Ok::<_, (Seq<char>, Seq<char>, Seq<
                char,
            >)>(pairs_view(map@)),
        decreases n - i,
    {
        let key = entries[i].0.clone();
        let value = entries[i].1.clone();
        proof {
            assert(pairs_view(entries@).take(i + 1).drop_last() =~= pairs_view(entries@).take(
                i as int,
            ));
            assert(pairs_view(entries@).take(i + 1).last() == (entries@[i as int].0@, entries@[
                i as int].1@));
        }
        match assoc_get(&map, key.as_str()) {
            Some(existing) => {
                proof {
                    assert(built_map(pairs_view(entries@).take(i + 1)) == Err::<Seq<(Seq<char>, Seq<
                        char,
                    >)>, _>((key@, existing@, value@)));
                    lemma_built_map_err_extends(pairs_view(entries@), i as int + 1);
                }
                return Err(LinkError::DuplicateSymbol { symbol: key, first: existing, second: value });
            },
            None => {
                let ghost pre = map@;
                map.push((key, value));
                proof {
                    assert(pairs_view(map@) =~= pairs_view(pre).push((entries@[i as int].0@,
                    entries@[i as int].1@)));
                    assert(built_map(pairs_view(entries@).take(i + 1)) == Ok::<_, (Seq<char>, Seq<
                        char,
                    >, Seq<char>)>(pairs_view(map@)));
                }
            },
        }
        i += 1;
    }
    proof {
        assert(pairs_view(entries@).take(n as int) =~= pairs_view(entries@));
    }
    Ok(map)
}

/// The symbol entries of the whole database, in file order: functions
/// when `functions` is set, variables otherwise.
pub fn collect_entries(imports: &Vec<VitaImports>, functions: bool) -> (r: Vec<(String, String)>)
    ensures
        pairs_view(r@) == all_entries(imports@, functions),
{
    let mut r: Vec<(String, String)> = Vec::new();
    let n = imports.len();
    let mut i: usize = 0;
    assert(pairs_view(r@) =~= all_entries(imports@.take(0int), functions));
    while i < n
        invariant
            i <= n == imports@.len(),
            pairs_view(r@) == all_entries(imports@.take(i as int), functions),
        decreases n - i,
    {
        let ghost pre = r@;
        collect_import_entries(&imports[i], functions, &mut r);
        proof {
            assert(imports@.take(i + 1).drop_last() =~= imports@.take(i as int));
            assert(imports@.take(i + 1).last() == imports@[i as int]);
            assert(pairs_view(r@) =~= all_entries(imports@.take(i + 1), functions));
        }
        i += 1;
    }
    proof {
        assert(imports@.take(n as int) =~= imports@);
    }
    r
}

fn collect_import_entries(imp: &VitaImports, functions: bool, out: &mut Vec<(String, String)>)
    ensures
        pairs_view(final(out)@) == pairs_view(old(out)@) + import_entries_of(
            imp.modules@,
            imp.firmware@,
            functions,
        ),
{
    let ghost base = pairs_view(old(out)@);
    let n = imp.modules.len();
    let mut i: usize = 0;
    assert(pairs_view(out@) =~= base + import_entries_of(
        imp.modules@.take(0int),
        imp.firmware@,
        functions,
    ));
    while i < n
        invariant
            i <= n == imp.modules@.len(),
            pairs_view(out@) == base + import_entries_of(
                imp.modules@.take(i as int),
                imp.firmware@,
                functions,
            ),
        decreases n - i,
    {
        let stub = stub_lib_name(imp.modules[i].0.as_str(), imp.firmware.as_str());
        collect_libs_entries(&imp.modules[i].1.libraries, &stub, functions, out);
        proof {
            assert(imp.modules@.take(i + 1).drop_last() =~= imp.modules@.take(i as int));
            assert(imp.modules@.take(i + 1).last() == imp.modules@[i as int]);
            assert(pairs_view(out@) =~= base + import_entries_of(
                imp.modules@.take(i + 1),
                imp.firmware@,
                functions,
            ));
        }
        i += 1;
    }
    proof {
        assert(imp.modules@.take(n as int) =~= imp.modules@);
    }
}

fn collect_libs_entries(
    libs: &Vec<(String, crate::headers_db::VitaImportsLib)>,
    stub: &String,
    functions: bool,
    out: &mut Vec<(String, String)>,
)
    ensures
        pairs_view(final(out)@) == pairs_view(old(out)@) + libs_entries(libs@, stub@, functions),
{
    let ghost base = pairs_view(old(out)@);
    let n = libs.len();
    let mut i: usize = 0;
    assert(pairs_view(out@) =~= base + libs_entries(libs@.take(0int), stub@, functions));
    while i < n
        invariant
            i <= n == libs@.len(),
            pairs_view(out@) == base + libs_entries(libs@.take(i as int), stub@, functions),
        decreases n - i,
    {
        if !libs[i].1.kernel {
            if functions {
                collect_names(&libs[i].1.function_nids, stub, out);
            } else {
                collect_names(&libs[i].1.variable_nids, stub, out);
            }
        }
        proof {
            assert(libs@.take(i + 1).drop_last() =~= libs@.take(i as int));
            assert(libs@.take(i + 1).last() == libs@[i as int]);
            assert(pairs_view(out@) =~= base + libs_entries(libs@.take(i + 1), stub@, functions));
        }
        i += 1;
    }
    proof {
        assert(libs@.take(n as int) =~= libs@);
    }
}

fn collect_names(nids: &Vec<(String, u32)>, stub: &String, out: &mut Vec<(String, String)>)
    ensures
        pairs_view(final(out)@) == pairs_view(old(out)@) + names_with_stub(nids@, stub@),
{
    let ghost base = pairs_view(old(out)@);
    let n = nids.len();
    let mut i: usize = 0;
    assert(pairs_view(out@) =~= base + names_with_stub(nids@.take(0int), stub@));
    while i < n
        invariant
            i <= n == nids@.len(),
            pairs_view(out@) == base + names_with_stub(nids@.take(i as int), stub@),
        decreases n - i,
    {
        let ghost pre = out@;
        out.push((nids[i].0.clone(), stub.clone()));
        proof {
            assert(pairs_view(out@) =~= pairs_view(pre).push((nids@[i as int].0@, stub@)));
            assert(nids@.take(i + 1).drop_last() =~= nids@.take(i as int));
            assert(nids@.take(i + 1).last() == nids@[i as int]);
            assert(pairs_view(out@) =~= base + names_with_stub(nids@.take(i + 1), stub@));
        }
        i += 1;
    }
    proof {
        assert(nids@.take(n as int) =~= nids@);
    }
}

/// The two symbol maps of the database: every imported function and every
/// imported variable to its stub library.
#[derive(Debug, PartialEq, Eq)]
pub struct Link {
    pub function: Vec<(String, String)>,
    pub variable: Vec<(String, String)>,
}

impl Link {
    /// Builds the function and variable maps from the import files. A
    /// symbol imported by two stub libraries is an error; a function
    /// duplicate is found before any variable duplicate.
    pub fn load(imports: &Vec<VitaImports>) -> (r: Result<Link, LinkError>)
        ensures
            r matches Ok(link) ==> built_map(all_entries(imports@, true)) == Ok::<_, (Seq<char>, Seq<
                char,
            >, Seq<char>)>(pairs_view(link.function@)) && built_map(all_entries(imports@, false))
                == Ok::<_, (Seq<char>, Seq<char>, Seq<char>)>(pairs_view(link.variable@)),
            r is Err ==> built_map(all_entries(imports@, true)) is Err || built_map(
                all_entries(imports@, false),
            ) is Err,
            r matches Err(LinkError::DuplicateSymbol { symbol, first, second }) ==> ({
                let fe = built_map(all_entries(imports@, true));
                let ve = built_map(all_entries(imports@, false));
                if fe is Err {
                    fe == Err::<Seq<(Seq<char>, Seq<char>)>, _>((symbol@, first@, second@))
                } else {
                    ve == Err::<Seq<(Seq<char>, Seq<char>)>, _>((symbol@, first@, second@))
                }
            }),
    {
        let function_entries = collect_entries(imports, true);
        let function = match build_link_map(&function_entries) {
            Ok(m) => m,
            Err(e) => {
                return Err(e);
            },
        };
        let variable_entries = collect_entries(imports, false);
        let variable = match build_link_map(&variable_entries) {
            Ok(m) => m,
            Err(e) => {
                return Err(e);
            },
        };
        Ok(Link { function, variable })
    }
}

/// One item of a foreign declaration block, reduced to what linking needs.
#[derive(Clone, Debug, PartialEq, Eq)]
pub enum ExternItem {
    /// A declared function and its symbol name.
    Function { name: String },
    /// A declared static variable and its symbol name.
    Static { name: String },
    /// Anything else in the block; irrelevant to linking.
    Other,
}

/// How one foreign block resolves against the symbol maps.
#[derive(Clone, Debug, PartialEq, Eq)]
pub enum StubResolution {
    /// Every known symbol agreed: the stub library to link the block
    /// against, or `None` when the block declares no known symbol.
    Resolved { stub: Option<String> },
    /// This symbol is in no map; the whole block is taken to come from
    /// the C runtime and is left alone.
    Undefined { symbol: String },
    /// Two symbols of the block link to different stub libraries.
    Incompatible { first: String, second: String },
}

/// The spec-level mirror of [`StubResolution`].
pub enum StubResolutionView {
    Resolved { stub: Option<Seq<char>> },
    Undefined { symbol: Seq<char> },
    Incompatible { first: Seq<char>, second: Seq<char> },
}

/// The view of a resolution.
pub open spec fn resolution_view(r: StubResolution) -> StubResolutionView {
    match r {
        StubResolution::Resolved { stub: Some(s) } => StubResolutionView::Resolved {
            stub: Some(s@),
        },
        StubResolution::Resolved { stub: None } => StubResolutionView::Resolved { stub: None },
        StubResolution::Undefined { symbol } => StubResolutionView::Undefined { symbol: symbol@ },
        StubResolution::Incompatible { first, second } => StubResolutionView::Incompatible {
            first: first@,
            second: second@,
        },
    }
}

/// The stub library of one item's symbol, if the item has a symbol.
pub open spec fn item_lookup(
    item: ExternItem,
    functions: Seq<(Seq<char>, Seq<char>)>,
    variables: Seq<(Seq<char>, Seq<char>)>,
) -> Option<(Seq<char>, Option<Seq<char>>)> {
    match item {
        ExternItem::Function { name } => Some((name@, assoc_lookup(functions, name@))),
        ExternItem::Static { name } => Some((name@, assoc_lookup(variables, name@))),
        ExternItem::Other => None,
    }
}

/// Resolution of a block's items from position `i` on, with `acc` the
/// stub library agreed on so far.
pub open spec fn resolve_from(
    items: Seq<ExternItem>,
    functions: Seq<(Seq<char>, Seq<char>)>,
    variables: Seq<(Seq<char>, Seq<char>)>,
    acc: Option<Seq<char>>,
    i: int,
) -> StubResolutionView
    decreases items.len() - i,
{
    if i < 0 || i >= items.len() {
        StubResolutionView::Resolved { stub: acc }
    } else {
        match item_lookup(items[i], functions, variables) {
            None => resolve_from(items, functions, variables, acc, i + 1),
            Some((sym, None)) => StubResolutionView::Undefined { symbol: sym },
            Some((sym, Some(stub))) => match acc {
                None => resolve_from(items, functions, variables, Some(stub), i + 1),
                Some(a) => if a == stub {
                    resolve_from(items, functions, variables, acc, i + 1)
                } else {
                    StubResolutionView::Incompatible { first: a, second: stub }
                },
            },
        }
    }
}

/// Resolves one foreign block against the symbol maps, walking its items
/// in order: the first symbol in no map makes the block `Undefined`, two
/// symbols with different stub libraries make it `Incompatible`, and
/// otherwise the agreed stub library (if any symbol was seen) comes back.
pub fn resolve_stub_lib(
    items: &Vec<ExternItem>,
    functions: &Vec<(String, String)>,
    variables: &Vec<(String, String)>,
) -> (r: StubResolution)
    ensures
        resolution_view(r) == resolve_from(
            items@,
            pairs_view(functions@),
            pairs_view(variables@),
            None,
            0,
        ),
{
    let mut acc: Option<String> = None;
    let n = items.len();
    let mut i: usize = 0;
    while i < n
        invariant
            i <= n == items@.len(),
            resolve_from(items@, pairs_view(functions@), pairs_view(variables@), None, 0)
                == resolve_from(
                items@,
                pairs_view(functions@),
                pairs_view(variables@),
                match acc {
                    Some(a) => Some(a@),
                    None => None,
                },
                i as int,
            ),
        decreases n - i,
    {
        let looked: Option<Option<String>> = match &items[i] {
            ExternItem::Function { name } => Some(assoc_get(functions, name.as_str())),
            ExternItem::Static { name } => Some(assoc_get(variables, name.as_str())),
            ExternItem::Other => None,
        };
        match looked {
            None => (),
            Some(None) => {
                let symbol = match &items[i] {
                    ExternItem::Function { name } => name.clone(),
                    ExternItem::Static { name } => name.clone(),
                    ExternItem::Other => String::new(),
                };
                return StubResolution::Undefined { symbol };
            },
            Some(Some(stub)) => match &acc {
                None => {
                    acc = Some(stub);
                },
                Some(a) => if !str_eq(a.as_str(), stub.as_str()) {
                    let first = a.clone();
                    return StubResolution::Incompatible { first, second: stub };
                },
            },
        }
        i += 1;
    }
    StubResolution::Resolved { stub: acc }
}

} // verus!
