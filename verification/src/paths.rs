//! Derivation of the four sibling paths of one compiled executable.
//!
//! Every path this library handles is a plain UTF-8 string with `'/'` as the
//! directory separator. Within the file name (the part after the last
//! separator), the extension is everything after the last `'.'`, provided
//! that dot is not the file name's first character (so a leading-dot file
//! name has no extension). Replacing the extension keeps everything up to
//! that dot and appends a dot and the new extension.
//!
//! For one executable `P` the pipeline works on four siblings obtained by
//! replacing `P`'s extension: the repackaged executable (`velf`), the
//! package metadata file (`sfo`), the signed executable (`eboot-bin`) and
//! the final package (`vpk`). These are pure functions of `P`; their
//! determinism and mutual distinctness are proved below.

use vstd::prelude::*;

use crate::strutil::push_char;

verus! {

/// The largest index at which `c` occurs in `s`, or `-1` if it does not
/// occur.
pub open spec fn last_index_of(s: Seq<char>, c: char) -> int
    decreases s.len(),
{
    if s.len() == 0 {
        -1
    } else if s[s.len() - 1] == c {
        s.len() - 1
    } else {
        last_index_of(s.drop_last(), c)
    }
}

pub proof fn lemma_last_index_of(s: Seq<char>, c: char)
    ensures
        -1 <= last_index_of(s, c) < s.len(),
        last_index_of(s, c) >= 0 ==> s[last_index_of(s, c)] == c,
        forall|j: int| last_index_of(s, c) < j < s.len() ==> s[j] != c,
    decreases s.len(),
{
    if s.len() > 0 && s[s.len() - 1] != c {
        lemma_last_index_of(s.drop_last(), c);
        assert(forall|j: int|
            last_index_of(s, c) < j < s.len() - 1 ==> s.drop_last()[j] == s[j]);
    }
}

proof fn lemma_last_index_of_push(s: Seq<char>, c0: char, c: char)
    ensures
        last_index_of(s.push(c0), c) == if c0 == c {
            s.len() as int
        } else {
            last_index_of(s, c)
        },
{
    assert(s.push(c0).drop_last() =~= s);
}

/// Index of the first character of the file name: one past the last
/// separator, or `0` when the path has no separator.
pub open spec fn name_start(p: Seq<char>) -> int {
    last_index_of(p, '/') + 1
}

/// Index right after the stem: the file name's last dot where the
/// extension starts, or the end of the path when the file name has no
/// extension.
pub open spec fn stem_end(p: Seq<char>) -> int {
    let d = last_index_of(p, '.');
    if d > name_start(p) {
        d
    } else {
        p.len() as int
    }
}

/// The path up to (excluding) the extension dot.
pub open spec fn base_of(p: Seq<char>) -> Seq<char> {
    p.subrange(0, stem_end(p))
}

/// The path with its extension replaced by `ext`.
pub open spec fn with_ext_spec(p: Seq<char>, ext: Seq<char>) -> Seq<char> {
    base_of(p) + seq!['.'] + ext
}

/// The file name without its extension.
pub open spec fn file_stem_spec(p: Seq<char>) -> Seq<char> {
    p.subrange(name_start(p), stem_end(p))
}

/// The largest index at which `c` occurs in `s`, or `None` if it does not
/// occur.
pub fn find_last(s: &str, c: char) -> (r: Option<usize>)
    ensures
        match r {
            Some(i) => last_index_of(s@, c) == i as int,
            None => last_index_of(s@, c) == -1,
        },
{
    let n = s.unicode_len();
    let mut best: Option<usize> = None;
    let mut i: usize = 0;
    while i < n
        invariant
            i <= n,
            n == s@.len(),
            match best {
                Some(b) => last_index_of(s@.subrange(0, i as int), c) == b as int,
                None => last_index_of(s@.subrange(0, i as int), c) == -1,
            },
        decreases n - i,
    {
        proof {
            assert(s@.subrange(0, i + 1) =~= s@.subrange(0, i as int).push(s@[i as int]));
            lemma_last_index_of_push(s@.subrange(0, i as int), s@[i as int], c);
        }
        if s.get_char(i) == c {
            best = Some(i);
        }
        i += 1;
    }
    proof {
        assert(s@.subrange(0, n as int) =~= s@);
    }
    best
}

/// `stem_end` of the path, as an index usable for slicing.
fn stem_end_exec(path: &str) -> (r: usize)
    ensures
        r as int == stem_end(path@),
        r <= path@.len(),
{
    let n = path.unicode_len();
    let slash = find_last(path, '/');
    let dot = find_last(path, '.');
    proof {
        lemma_last_index_of(path@, '/');
        lemma_last_index_of(path@, '.');
    }
    let ns: usize = match slash {
        Some(i) => i + 1,
        None => 0,
    };
    match dot {
        Some(d) => if d > ns {
            d
        } else {
            n
        },
        None => n,
    }
}

/// Replaces the path's extension (in the sense of this module) by `ext`,
/// or appends `.ext` when the file name has none.
pub fn with_extension(path: &str, ext: &str) -> (r: String)
    ensures
        r@ == with_ext_spec(path@, ext@),
{
    let se = stem_end_exec(path);
    let mut r = path.substring_char(0, se).to_owned();
    push_char(&mut r, '.');
    r.append(ext);
    assert(r@ =~= with_ext_spec(path@, ext@));
    r
}

/// The file name without its extension, or `None` when there is none (an
/// empty path or a path ending in a separator).
pub fn file_stem(path: &str) -> (r: Option<String>)
    ensures
        match r {
            Some(s) => s@ == file_stem_spec(path@) && file_stem_spec(path@).len() > 0,
            None => file_stem_spec(path@).len() == 0,
        },
{
    let se = stem_end_exec(path);
    let slash = find_last(path, '/');
    proof {
        lemma_last_index_of(path@, '/');
    }
    let ns: usize = match slash {
        Some(i) => i + 1,
        None => 0,
    };
    if ns < se {
        Some(path.substring_char(ns, se).to_owned())
    } else {
        assert(file_stem_spec(path@) =~= Seq::<char>::empty());
        None
    }
}

/// The path of `name` placed in the same directory as `path`: everything of
/// `path` up to and including its last separator, then `name`; just `name`
/// when `path` has no separator.
pub fn sibling_path(path: &str, name: &str) -> (r: String)
    ensures
        ({
            let ls = last_index_of(path@, '/');
            if ls >= 0 {
                r@ == path@.subrange(0, ls + 1) + name@
            } else {
                r@ == name@
            }
        }),
{
    // establishes that the path's length fits in usize, so the slice
    // bound below cannot overflow
    let _len = path.unicode_len();
    let slash = find_last(path, '/');
    proof {
        lemma_last_index_of(path@, '/');
    }
    match slash {
        Some(i) => {
            let mut r = path.substring_char(0, i + 1).to_owned();
            r.append(name);
            r
        },
        None => name.to_owned(),
    }
}

/// The four sibling files of one executable artifact, derived from its path.
#[derive(Debug)]
pub struct ArtifactPaths {
    /// The executable repackaged in the platform's loadable format.
    pub velf: String,
    /// The package metadata file.
    pub sfo: String,
    /// The signed, optionally compressed executable.
    pub eboot_bin: String,
    /// The final installable package.
    pub vpk: String,
}

impl ArtifactPaths {
    /// Derives the four sibling paths of the executable at `elf`.
    pub fn derive(elf: &str) -> (r: ArtifactPaths)
        ensures
            r.velf@ == with_ext_spec(elf@, "velf"@),
            r.sfo@ == with_ext_spec(elf@, "sfo"@),
            r.eboot_bin@ == with_ext_spec(elf@, "eboot-bin"@),
            r.vpk@ == with_ext_spec(elf@, "vpk"@),
    {
        ArtifactPaths {
            velf: with_extension(elf, "velf"),
            sfo: with_extension(elf, "sfo"),
            eboot_bin: with_extension(elf, "eboot-bin"),
            vpk: with_extension(elf, "vpk"),
        }
    }
}

/// Deriving a sibling path is deterministic: two derivations from the same
/// executable path and the same extension agree.
pub proof fn lemma_derivation_deterministic(
    p: Seq<char>,
    ext: Seq<char>,
    r1: Seq<char>,
    r2: Seq<char>,
)
    requires
        r1 == with_ext_spec(p, ext),
        r2 == with_ext_spec(p, ext),
    ensures
        r1 == r2,
{
}

/// Two derived paths with extensions whose final characters differ are
/// themselves different, whatever the two executables are.
pub proof fn lemma_ext_last_differs(p: Seq<char>, q: Seq<char>, e1: Seq<char>, e2: Seq<char>)
    requires
        e1.len() > 0,
        e2.len() > 0,
        e1.last() != e2.last(),
    ensures
        with_ext_spec(p, e1) != with_ext_spec(q, e2),
{
    let r1 = with_ext_spec(p, e1);
    let r2 = with_ext_spec(q, e2);
    assert(r1.last() == e1.last());
    assert(r2.last() == e2.last());
}

/// Replacing the extension is injective in the path's base: two executables
/// with different bases never derive the same sibling for the same
/// extension.
pub proof fn lemma_same_ext_injective(p: Seq<char>, q: Seq<char>, ext: Seq<char>)
    requires
        base_of(p) != base_of(q),
    ensures
        with_ext_spec(p, ext) != with_ext_spec(q, ext),
{
    let r1 = with_ext_spec(p, ext);
    let r2 = with_ext_spec(q, ext);
    if r1 == r2 {
        let b1 = base_of(p);
        let b2 = base_of(q);
        assert(r1.len() == r2.len());
        assert(b1.len() == b2.len());
        assert(forall|i: int| 0 <= i < b1.len() ==> b1[i] == r1[i] && b2[i] == r2[i]);
        assert(b1 =~= b2);
    }
}

/// The set of the four derived paths of one executable.
pub open spec fn derived_set(p: Seq<char>) -> Set<Seq<char>> {
    set![
        with_ext_spec(p, "velf"@),
        with_ext_spec(p, "sfo"@),
        with_ext_spec(p, "eboot-bin"@),
        with_ext_spec(p, "vpk"@),
    ]
}

proof fn lemma_ext_literals()
    ensures
        "velf"@.len() > 0 && "velf"@.last() == 'f',
        "sfo"@.len() > 0 && "sfo"@.last() == 'o',
        "eboot-bin"@.len() > 0 && "eboot-bin"@.last() == 'n',
        "vpk"@.len() > 0 && "vpk"@.last() == 'k',
{
    reveal_strlit("velf");
    reveal_strlit("sfo");
    reveal_strlit("eboot-bin");
    reveal_strlit("vpk");
}

/// The four derived paths of one executable are pairwise distinct: the
/// four extensions end in four different characters.
pub proof fn lemma_derived_paths_distinct(p: Seq<char>)
    ensures
        with_ext_spec(p, "velf"@) != with_ext_spec(p, "sfo"@),
        with_ext_spec(p, "velf"@) != with_ext_spec(p, "eboot-bin"@),
        with_ext_spec(p, "velf"@) != with_ext_spec(p, "vpk"@),
        with_ext_spec(p, "sfo"@) != with_ext_spec(p, "eboot-bin"@),
        with_ext_spec(p, "sfo"@) != with_ext_spec(p, "vpk"@),
        with_ext_spec(p, "eboot-bin"@) != with_ext_spec(p, "vpk"@),
{
    lemma_ext_literals();
    lemma_ext_last_differs(p, p, "velf"@, "sfo"@);
    lemma_ext_last_differs(p, p, "velf"@, "eboot-bin"@);
    lemma_ext_last_differs(p, p, "velf"@, "vpk"@);
    lemma_ext_last_differs(p, p, "sfo"@, "eboot-bin"@);
    lemma_ext_last_differs(p, p, "sfo"@, "vpk"@);
    lemma_ext_last_differs(p, p, "eboot-bin"@, "vpk"@);
}

/// Two artifacts whose paths have different bases (the part up to the
/// extension dot) share none of their derived paths. Two executables with
/// the same base — say `app.elf` and `app.bin` side by side — do collide,
/// which is why the requirement is stated on the base.
pub proof fn lemma_derived_paths_disjoint(p: Seq<char>, q: Seq<char>)
    requires
        base_of(p) != base_of(q),
    ensures
        derived_set(p).disjoint(derived_set(q)),
{
    lemma_ext_literals();
    lemma_same_ext_injective(p, q, "velf"@);
    lemma_same_ext_injective(p, q, "sfo"@);
    lemma_same_ext_injective(p, q, "eboot-bin"@);
    lemma_same_ext_injective(p, q, "vpk"@);
    lemma_ext_last_differs(p, q, "velf"@, "sfo"@);
    lemma_ext_last_differs(p, q, "velf"@, "eboot-bin"@);
    lemma_ext_last_differs(p, q, "velf"@, "vpk"@);
    lemma_ext_last_differs(p, q, "sfo"@, "eboot-bin"@);
    lemma_ext_last_differs(p, q, "sfo"@, "vpk"@);
    lemma_ext_last_differs(p, q, "eboot-bin"@, "vpk"@);
    lemma_ext_last_differs(q, p, "velf"@, "sfo"@);
    lemma_ext_last_differs(q, p, "velf"@, "eboot-bin"@);
    lemma_ext_last_differs(q, p, "velf"@, "vpk"@);
    lemma_ext_last_differs(q, p, "sfo"@, "eboot-bin"@);
    lemma_ext_last_differs(q, p, "sfo"@, "vpk"@);
    lemma_ext_last_differs(q, p, "eboot-bin"@, "vpk"@);
    assert(derived_set(p).disjoint(derived_set(q)));
}

} // verus!
