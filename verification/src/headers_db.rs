//! The platform-headers import database.
//!
//! The database is a set of import descriptions, one per file, each tagged
//! with a firmware version and holding modules, their libraries and the
//! function and variable imports of each. Reading the files is I/O and
//! happens outside the library; the grouping by firmware, the naming of
//! stub libraries, the removal of stub libraries with conflicting symbol
//! definitions, and the check for missing feature gates are the logic
//! here.

use vstd::prelude::*;

use crate::strutil::{push_char, str_eq};
use crate::toolchain::strs_view;

verus! {

/// One library of a module: its imported functions and variables, keyed by
/// name.
pub struct VitaImportsLib {
    pub kernel: bool,
    pub nid: u32,
    pub version: Option<u32>,
    pub function_nids: Vec<(String, u32)>,
    pub variable_nids: Vec<(String, u32)>,
}

/// One module of an import file, with its libraries keyed by name.
pub struct VitaImportsModule {
    pub nid: u32,
    pub libraries: Vec<(String, VitaImportsLib)>,
}

/// One import file: a firmware version and its modules, keyed by name.
pub struct VitaImports {
    pub version: i32,
    pub firmware: String,
    pub modules: Vec<(String, VitaImportsModule)>,
}

/// `s` with every `'.'` removed.
pub open spec fn strip_dots(s: Seq<char>) -> Seq<char>
    decreases s.len(),
{
    if s.len() == 0 {
        Seq::empty()
    } else {
        strip_dots(s.drop_last()) + (if s.last() != '.' {
            seq![s.last()]
        } else {
            Seq::empty()
        })
    }
}

/// The firmware postfix of a stub library's name: empty for the baseline
/// firmware, otherwise an underscore and the version with its dots
/// removed.
pub open spec fn postfix_spec(fw: Seq<char>) -> Seq<char> {
    if fw == "3.60"@ {
        Seq::empty()
    } else {
        seq!['_'] + strip_dots(fw)
    }
}

/// The firmware postfix of a stub library's name, ready to render.
pub struct VitaImportsPostfix<'a> {
    pub firmware: &'a str,
}

/// The firmware postfix for one firmware version.
pub fn postfix<'a>(firmware: &'a str) -> (r: VitaImportsPostfix<'a>)
    ensures
        r.firmware@ == firmware@,
{
    VitaImportsPostfix { firmware }
}

impl<'a> VitaImportsPostfix<'a> {
    /// Renders the postfix.
    pub fn render(&self) -> (r: String)
        ensures
            r@ == postfix_spec(self.firmware@),
    {
        if str_eq(self.firmware, "3.60") {
            return String::new();
        }
        let mut r = String::new();
        push_char(&mut r, '_');
        let n = self.firmware.unicode_len();
        let mut i: usize = 0;
        assert(r@ =~= seq!['_'] + strip_dots(self.firmware@.take(0int)));
        while i < n
            invariant
                i <= n == self.firmware@.len(),
                r@ == seq!['_'] + strip_dots(self.firmware@.take(i as int)),
            decreases n - i,
        {
            let c = self.firmware.get_char(i);
            if c != '.' {
                push_char(&mut r, c);
            }
            proof {
                assert(self.firmware@.take(i + 1).drop_last() =~= self.firmware@.take(i as int));
                assert(r@ =~= seq!['_'] + strip_dots(self.firmware@.take(i + 1)));
            }
            i += 1;
        }
        assert(self.firmware@.take(n as int) =~= self.firmware@);
        r
    }
}

/// The name of the stub library that carries one module's imports for one
/// firmware version.
pub open spec fn stub_lib_name_spec(mod_name: Seq<char>, fw: Seq<char>) -> Seq<char> {
    mod_name + postfix_spec(fw) + "_stub"@
}

/// The name of the stub library that carries `mod_name`'s imports for
/// firmware `firmware`.
pub fn stub_lib_name(mod_name: &str, firmware: &str) -> (r: String)
    ensures
        r@ == stub_lib_name_spec(mod_name@, firmware@),
{
    let mut r = mod_name.to_owned();
    let p = postfix(firmware).render();
    r.append(p.as_str());
    r.append("_stub");
    assert(r@ =~= stub_lib_name_spec(mod_name@, firmware@));
    r
}

/// The stub libraries whose symbol definitions conflict with the Rust
/// runtime and must not be linked.
pub open spec fn is_conflicting_spec(name: Seq<char>) -> bool {
    ||| name == "SceSysclibForDriver_stub"@
    ||| name == "SceLibc_stub"@
    ||| name == "SceLibMonoBridge_stub"@
    ||| name == "SceRtabi_stub"@
}

/// Whether a stub library is on the conflict list.
pub fn is_conflicting_stub(name: &str) -> (r: bool)
    ensures
        r == is_conflicting_spec(name@),
{
    str_eq(name, "SceSysclibForDriver_stub") || str_eq(name, "SceLibc_stub") || str_eq(
        name,
        "SceLibMonoBridge_stub",
    ) || str_eq(name, "SceRtabi_stub")
}

/// The modules kept after dropping those whose stub library conflicts.
pub open spec fn retained_modules(
    mods: Seq<(String, VitaImportsModule)>,
    fw: Seq<char>,
) -> Seq<(String, VitaImportsModule)>
    decreases mods.len(),
{
    if mods.len() == 0 {
        Seq::empty()
    } else {
        retained_modules(mods.drop_last(), fw) + (if !is_conflicting_spec(
            stub_lib_name_spec(mods.last().0@, fw),
        ) {
            seq![mods.last()]
        } else {
            Seq::empty()
        })
    }
}

impl VitaImports {
    /// Drops every module whose stub library is on the conflict list.
    pub fn remove_conflicting_modules(&mut self)
        ensures
            final(self).version == old(self).version,
            final(self).firmware == old(self).firmware,
            final(self).modules@ == retained_modules(old(self).modules@, old(self).firmware@),
    {
        let mut kept: Vec<(String, VitaImportsModule)> = Vec::new();
        let ghost orig = self.modules@;
        let ghost fw = self.firmware@;
        let n = self.modules.len();
        let mut i: usize = 0;
        assert(kept@ =~= retained_modules(orig.take(0int), fw));
        while self.modules.len() > 0
            invariant
                i <= n == orig.len(),
                self.modules@ =~= orig.skip(i as int),
                self.version == old(self).version,
                self.firmware == old(self).firmware,
                fw == self.firmware@,
                kept@ == retained_modules(orig.take(i as int), fw),
            decreases orig.len() - i,
        {
            let entry = self.modules.remove(0);
            let stub = stub_lib_name(entry.0.as_str(), self.firmware.as_str());
            let keep = !is_conflicting_stub(stub.as_str());
            proof {
                assert(orig.skip(i as int)[0] == orig[i as int]);
                assert(orig.skip(i as int).skip(1) =~= orig.skip(i as int + 1));
                assert(orig.take(i + 1).drop_last() =~= orig.take(i as int));
                assert(orig.take(i + 1).last() == orig[i as int]);
            }
            if keep {
                kept.push(entry);
            }
            assert(kept@ =~= retained_modules(orig.take(i + 1), fw));
            i += 1;
        }
        proof {
            assert(orig.take(i as int) =~= orig);
        }
        self.modules = kept;
    }
}

/// The import database, its files grouped by firmware version.
pub struct VitaDb {
    pub files_by_firmware: Vec<(String, Vec<VitaImports>)>,
}

/// The database's groups with their file lists as sequences.
pub open spec fn db_view(v: Seq<(String, Vec<VitaImports>)>) -> Seq<(String, Seq<VitaImports>)> {
    v.map_values(|p: (String, Vec<VitaImports>)| (p.0, p.1@))
}

/// One import file sorted into the groups: appended to the group of its
/// firmware, or opening a new group at the end.
pub open spec fn insert_grouped(
    groups: Seq<(String, Seq<VitaImports>)>,
    imp: VitaImports,
) -> Seq<(String, Seq<VitaImports>)>
    decreases groups.len(),
{
    if groups.len() == 0 {
        seq![(imp.firmware, seq![imp])]
    } else if groups.first().0@ == imp.firmware@ {
        seq![(groups.first().0, groups.first().1.push(imp))] + groups.drop_first()
    } else {
        seq![groups.first()] + insert_grouped(groups.drop_first(), imp)
    }
}

/// The import files grouped by firmware, in order of first appearance.
pub open spec fn grouped(imports: Seq<VitaImports>) -> Seq<(String, Seq<VitaImports>)>
    decreases imports.len(),
{
    if imports.len() == 0 {
        Seq::empty()
    } else {
        insert_grouped(grouped(imports.drop_last()), imports.last())
    }
}

proof fn lemma_insert_grouped_found(
    groups: Seq<(String, Seq<VitaImports>)>,
    imp: VitaImports,
    j: int,
)
    requires
        0 <= j < groups.len(),
        groups[j].0@ == imp.firmware@,
        forall|k: int| 0 <= k < j ==> groups[k].0@ != imp.firmware@,
    ensures
        insert_grouped(groups, imp) == groups.update(j, (groups[j].0, groups[j].1.push(imp))),
    decreases j,
{
    if j == 0 {
        assert(insert_grouped(groups, imp) =~= groups.update(
            0,
            (groups[0].0, groups[0].1.push(imp)),
        ));
    } else {
        assert(groups.first().0@ != imp.firmware@);
        assert(forall|k: int|
            0 <= k < j - 1 ==> groups.drop_first()[k].0@ != imp.firmware@);
        lemma_insert_grouped_found(groups.drop_first(), imp, j - 1);
        assert(insert_grouped(groups, imp) =~= groups.update(
            j,
            (groups[j].0, groups[j].1.push(imp)),
        ));
    }
}

proof fn lemma_insert_grouped_new(groups: Seq<(String, Seq<VitaImports>)>, imp: VitaImports)
    requires
        forall|k: int| 0 <= k < groups.len() ==> groups[k].0@ != imp.firmware@,
    ensures
        insert_grouped(groups, imp) == groups.push((imp.firmware, seq![imp])),
    decreases groups.len(),
{
    if groups.len() == 0 {
        assert(insert_grouped(groups, imp) =~= groups.push((imp.firmware, seq![imp])));
    } else {
        assert(forall|k: int|
            0 <= k < groups.len() - 1 ==> groups.drop_first()[k].0@ != imp.firmware@);
        lemma_insert_grouped_new(groups.drop_first(), imp);
        assert(insert_grouped(groups, imp) =~= groups.push((imp.firmware, seq![imp])));
    }
}

/// Sorts one import file into the groups.
fn insert_import(groups: &mut Vec<(String, Vec<VitaImports>)>, imp: VitaImports)
    ensures
        db_view(final(groups)@) == insert_grouped(db_view(old(groups)@), imp),
{
    let n = groups.len();
    let mut j: usize = 0;
    while j < n
        invariant
            j <= n == groups@.len(),
            groups@ == old(groups)@,
            forall|k: int| 0 <= k < j ==> groups@[k].0@ != imp.firmware@,
        decreases n - j,
    {
        if str_eq(groups[j].0.as_str(), imp.firmware.as_str()) {
            let ghost pre = groups@;
            let mut entry = groups.remove(j);
            entry.1.push(imp);
            groups.insert(j, entry);
            proof {
                assert(groups@ =~= pre.update(j as int, (pre[j as int].0, entry.1)));
                lemma_insert_grouped_found(db_view(pre), imp, j as int);
                assert(forall|k: int|
                    0 <= k < pre.len() ==> db_view(pre)[k] == (pre[k].0, pre[k].1@));
                assert(db_view(groups@) =~= insert_grouped(db_view(pre), imp));
            }
            return;
        }
        j += 1;
    }
    let ghost pre = groups@;
    let fw = imp.firmware.clone();
    let mut single: Vec<VitaImports> = Vec::new();
    single.push(imp);
    groups.push((fw, single));
    proof {
        assert(forall|k: int| 0 <= k < pre.len() ==> db_view(pre)[k] == (pre[k].0, pre[k].1@));
        lemma_insert_grouped_new(db_view(pre), imp);
        assert(db_view(groups@) =~= insert_grouped(db_view(pre), imp));
    }
}

impl VitaDb {
    /// Builds the database from the import files, grouping them by
    /// firmware in order of first appearance.
    pub fn from_imports(imports: Vec<VitaImports>) -> (r: VitaDb)
        ensures
            db_view(r.files_by_firmware@) == grouped(imports@),
    {
        let ghost orig = imports@;
        let mut rest = imports;
        let n = rest.len();
        let mut groups: Vec<(String, Vec<VitaImports>)> = Vec::new();
        let mut i: usize = 0;
        assert(db_view(groups@) =~= grouped(orig.take(0int)));
        while rest.len() > 0
            invariant
                i <= n == orig.len(),
                rest@ =~= orig.skip(i as int),
                db_view(groups@) == grouped(orig.take(i as int)),
            decreases orig.len() - i,
        {
            let imp = rest.remove(0);
            proof {
                assert(orig.skip(i as int)[0] == orig[i as int]);
                assert(orig.skip(i as int).skip(1) =~= orig.skip(i as int + 1));
                assert(orig.take(i + 1).drop_last() =~= orig.take(i as int));
                assert(orig.take(i + 1).last() == orig[i as int]);
            }
            insert_import(&mut groups, imp);
            i += 1;
        }
        proof {
            assert(orig.take(i as int) =~= orig);
        }
        VitaDb { files_by_firmware: groups }
    }

    /// Drops, in every import file, the modules whose stub library is on
    /// the conflict list. Groups, their order and everything else in the
    /// files stay as they were.
    pub fn remove_conflicting(&mut self)
        ensures
            final(self).files_by_firmware@.len() == old(self).files_by_firmware@.len(),
            forall|g: int|
                0 <= g < old(self).files_by_firmware@.len() ==> (
                #[trigger] final(self).files_by_firmware@[g]).0 == old(
                    self,
                ).files_by_firmware@[g].0 && final(self).files_by_firmware@[g].1@.len() == old(
                    self,
                ).files_by_firmware@[g].1@.len(),
            forall|g: int, i: int|
                0 <= g < old(self).files_by_firmware@.len() && 0 <= i < old(
                    self,
                ).files_by_firmware@[g].1@.len() ==> {
                    let new_imp = #[trigger] final(self).files_by_firmware@[g].1@[i];
                    let old_imp = old(self).files_by_firmware@[g].1@[i];
                    new_imp.version == old_imp.version && new_imp.firmware == old_imp.firmware
                        && new_imp.modules@ == retained_modules(old_imp.modules@, old_imp.firmware@)
                },
    {
        let ghost orig = self.files_by_firmware@;
        let n = self.files_by_firmware.len();
        let mut new_groups: Vec<(String, Vec<VitaImports>)> = Vec::new();
        let mut g: usize = 0;
        while self.files_by_firmware.len() > 0
            invariant
                g <= n == orig.len(),
                self.files_by_firmware@ =~= orig.skip(g as int),
                new_groups@.len() == g,
                forall|k: int|
                    0 <= k < g ==> (#[trigger] new_groups@[k]).0 == orig[k].0
                        && new_groups@[k].1@.len() == orig[k].1@.len(),
                forall|k: int, i: int|
                    0 <= k < g && 0 <= i < orig[k].1@.len() ==> {
                        let new_imp = #[trigger] new_groups@[k].1@[i];
                        let old_imp = orig[k].1@[i];
                        new_imp.version == old_imp.version && new_imp.firmware == old_imp.firmware
                            && new_imp.modules@ == retained_modules(
                            old_imp.modules@,
                            old_imp.firmware@,
                        )
                    },
            decreases orig.len() - g,
        {
            proof {
                assert(orig.skip(g as int)[0] == orig[g as int]);
                assert(orig.skip(g as int).skip(1) =~= orig.skip(g as int + 1));
            }
            let entry = self.files_by_firmware.remove(0);
            let fw_key = entry.0;
            let mut list = entry.1;
            let ghost olist = list@;
            let nl = list.len();
            let mut new_list: Vec<VitaImports> = Vec::new();
            let mut i: usize = 0;
            while list.len() > 0
                invariant
                    i <= nl == olist.len(),
                    list@ =~= olist.skip(i as int),
                    new_list@.len() == i,
                    forall|k: int|
                        0 <= k < i ==> {
                            let new_imp = #[trigger] new_list@[k];
                            let old_imp = olist[k];
                            new_imp.version == old_imp.version && new_imp.firmware
                                == old_imp.firmware && new_imp.modules@ == retained_modules(
                                old_imp.modules@,
                                old_imp.firmware@,
                            )
                        },
                decreases olist.len() - i,
            {
                proof {
                    assert(olist.skip(i as int)[0] == olist[i as int]);
                    assert(olist.skip(i as int).skip(1) =~= olist.skip(i as int + 1));
                }
                let mut imp = list.remove(0);
                imp.remove_conflicting_modules();
                new_list.push(imp);
                i += 1;
            }
            new_groups.push((fw_key, new_list));
            g += 1;
        }
        self.files_by_firmware = new_groups;
    }
}

/// The stub libraries named by a run of modules whose gate feature is not
/// in `feats`, in order.
pub open spec fn missing_in_modules(
    mods: Seq<(String, VitaImportsModule)>,
    fw: Seq<char>,
    feats: Seq<Seq<char>>,
) -> Seq<Seq<char>>
    decreases mods.len(),
{
    if mods.len() == 0 {
        Seq::empty()
    } else {
        missing_in_modules(mods.drop_last(), fw, feats) + (if !feats.contains(
            stub_lib_name_spec(mods.last().0@, fw),
        ) {
            seq![stub_lib_name_spec(mods.last().0@, fw)]
        } else {
            Seq::empty()
        })
    }
}

/// The missing stub-library features over a list of import files.
pub open spec fn missing_in_list(l: Seq<VitaImports>, feats: Seq<Seq<char>>) -> Seq<Seq<char>>
    decreases l.len(),
{
    if l.len() == 0 {
        Seq::empty()
    } else {
        missing_in_list(l.drop_last(), feats) + missing_in_modules(
            l.last().modules@,
            l.last().firmware@,
            feats,
        )
    }
}

/// The missing stub-library features over the whole database.
pub open spec fn missing_in_db(
    groups: Seq<(String, Vec<VitaImports>)>,
    feats: Seq<Seq<char>>,
) -> Seq<Seq<char>>
    decreases groups.len(),
{
    if groups.len() == 0 {
        Seq::empty()
    } else {
        missing_in_db(groups.drop_last(), feats) + missing_in_list(groups.last().1@, feats)
    }
}

/// Whether `s` is one of the strings in `v`.
pub fn contains_str(v: &Vec<String>, s: &str) -> (r: bool)
    ensures
        r == strs_view(v@).contains(s@),
{
    let n = v.len();
    let mut i: usize = 0;
    while i < n
        invariant
            i <= n == v@.len(),
            forall|j: int| 0 <= j < i ==> v@[j]@ != s@,
        decreases n - i,
    {
        if str_eq(v[i].as_str(), s) {
            assert(strs_view(v@)[i as int] == s@);
            return true;
        }
        i += 1;
    }
    proof {
        assert(forall|j: int| 0 <= j < v@.len() ==> #[trigger] strs_view(v@)[j] == v@[j]@);
    }
    false
}

fn missing_of_modules(
    mods: &Vec<(String, VitaImportsModule)>,
    fw: &str,
    features: &Vec<String>,
) -> (r: Vec<String>)
    ensures
        strs_view(r@) == missing_in_modules(mods@, fw@, strs_view(features@)),
{
    let mut r: Vec<String> = Vec::new();
    let n = mods.len();
    let mut i: usize = 0;
    assert(strs_view(r@) =~= missing_in_modules(mods@.take(0int), fw@, strs_view(features@)));
    while i < n
        invariant
            i <= n == mods@.len(),
            strs_view(r@) == missing_in_modules(mods@.take(i as int), fw@, strs_view(features@)),
        decreases n - i,
    {
        let ghost pre = r@;
        let stub = stub_lib_name(mods[i].0.as_str(), fw);
        if !contains_str(features, stub.as_str()) {
            let ghost stubv = stub@;
            r.push(stub);
            proof {
                assert(strs_view(r@) =~= strs_view(pre).push(stubv));
            }
        }
        proof {
            assert(mods@.take(i + 1).drop_last() =~= mods@.take(i as int));
            assert(mods@.take(i + 1).last() == mods@[i as int]);
            assert(strs_view(r@) =~= missing_in_modules(
                mods@.take(i + 1),
                fw@,
                strs_view(features@),
            ));
        }
        i += 1;
    }
    proof {
        assert(mods@.take(n as int) =~= mods@);
    }
    r
}

fn missing_of_list(l: &Vec<VitaImports>, features: &Vec<String>) -> (r: Vec<String>)
    ensures
        strs_view(r@) == missing_in_list(l@, strs_view(features@)),
{
    let mut r: Vec<String> = Vec::new();
    let n = l.len();
    let mut i: usize = 0;
    assert(strs_view(r@) =~= missing_in_list(l@.take(0int), strs_view(features@)));
    while i < n
        invariant
            i <= n == l@.len(),
            strs_view(r@) == missing_in_list(l@.take(i as int), strs_view(features@)),
        decreases n - i,
    {
        let ghost pre = r@;
        let mut part = missing_of_modules(&l[i].modules, l[i].firmware.as_str(), features);
        let ghost partv = part@;
        r.append(&mut part);
        proof {
            assert(strs_view(r@) =~= strs_view(pre) + strs_view(partv));
            assert(l@.take(i + 1).drop_last() =~= l@.take(i as int));
            assert(l@.take(i + 1).last() == l@[i as int]);
            assert(strs_view(r@) =~= missing_in_list(l@.take(i + 1), strs_view(features@)));
        }
        i += 1;
    }
    proof {
        assert(l@.take(n as int) =~= l@);
    }
    r
}

impl VitaDb {
    /// The stub libraries of the database for which `features` (the
    /// feature names a package manifest declares) holds no gate, in
    /// database order.
    pub fn missing_features(&self, features: &Vec<String>) -> (r: Vec<String>)
        ensures
            strs_view(r@) == missing_in_db(self.files_by_firmware@, strs_view(features@)),
    {
        let mut r: Vec<String> = Vec::new();
        let n = self.files_by_firmware.len();
        let mut g: usize = 0;
        assert(strs_view(r@) =~= missing_in_db(
            self.files_by_firmware@.take(0int),
            strs_view(features@),
        ));
        while g < n
            invariant
                g <= n == self.files_by_firmware@.len(),
                strs_view(r@) == missing_in_db(
                    self.files_by_firmware@.take(g as int),
                    strs_view(features@),
                ),
            decreases n - g,
        {
            let ghost pre = r@;
            let mut part = missing_of_list(&self.files_by_firmware[g].1, features);
            let ghost partv = part@;
            r.append(&mut part);
            proof {
                assert(strs_view(r@) =~= strs_view(pre) + strs_view(partv));
                assert(self.files_by_firmware@.take(g + 1).drop_last()
                    =~= self.files_by_firmware@.take(g as int));
                assert(self.files_by_firmware@.take(g + 1).last() == self.files_by_firmware@[
                    g as int]);
                assert(strs_view(r@) =~= missing_in_db(
                    self.files_by_firmware@.take(g + 1),
                    strs_view(features@),
                ));
            }
            g += 1;
        }
        proof {
            assert(self.files_by_firmware@.take(n as int) =~= self.files_by_firmware@);
        }
        r
    }
}

} // verus!
