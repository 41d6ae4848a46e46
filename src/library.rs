use vstd::prelude::*;

verus! {

/// A top-level library of the remote service.
pub struct Library {
    pub permission: String,
    pub encrypted: bool,
    pub mtime: u64,
    pub owner: String,
    pub id: String,
    pub size: u64,
    pub name: String,
    pub library_type: String,
    pub is_virtual: bool,
    pub desc: String,
    pub root: String,
}

/// One child of a directory listing inside a library.
pub struct LibraryEntry {
    pub id: String,
    pub mtime: u64,
    pub size: u64,
    pub name: String,
    pub permission: String,
    pub entry_type: String,
}

/// The answer of the token exchange.
pub struct AuthResponse {
    pub token: String,
}

/// The entry type of a directory.
pub open spec fn dir_type() -> Seq<char> {
    seq!['d', 'i', 'r']
}

impl LibraryEntry {
    /// Whether this entry is a directory; any other type is a file.
    pub fn is_dir(&self) -> (r: bool)
        ensures
            r == (self.entry_type@ == dir_type()),
    {
        let t = self.entry_type.as_str();
        if t.unicode_len() != 3 {
            return false;
        }
        let r = t.get_char(0) == 'd' && t.get_char(1) == 'i' && t.get_char(2) == 'r';
        proof {
            if r {
                assert(t@ =~= dir_type());
            }
        }
        r
    }
}

/// The first entry of `entries` named `name`, if there is one.
pub open spec fn first_entry_named(entries: Seq<LibraryEntry>, name: Seq<char>) -> Option<LibraryEntry>
    decreases entries.len(),
{
    if entries.len() == 0 {
        None
    } else if entries[0].name@ == name {
        Some(entries[0])
    } else {
        first_entry_named(entries.drop_first(), name)
    }
}

/// Index of the first entry of `entries` named `name`.
pub fn find_entry(entries: &Vec<LibraryEntry>, name: &String) -> (r: Option<usize>)
    ensures
        match r {
            Some(k) => k < entries@.len() && first_entry_named(entries@, name@) == Some(
                entries@[k as int],
            ),
            None => first_entry_named(entries@, name@) is None,
        },
{
    let mut i: usize = 0;
    assert(entries@.skip(0) =~= entries@);
    while i < entries.len()
        invariant
            i <= entries@.len(),
            first_entry_named(entries@, name@) == first_entry_named(entries@.skip(i as int), name@),
        decreases entries@.len() - i,
    {
        assert(entries@.skip(i as int).drop_first() =~= entries@.skip(i + 1));
        if entries[i].name == *name {
            return Some(i);
        }
        i = i + 1;
    }
    None
}

/// Strict lexicographic order on names, character by character (the order
/// of `String`'s `Ord`, which agrees with the order of the UTF-8 bytes).
pub open spec fn name_lt(a: Seq<char>, b: Seq<char>) -> bool
    decreases a.len(),
{
    if a.len() == 0 {
        b.len() > 0
    } else if b.len() == 0 {
        false
    } else if a[0] != b[0] {
        (a[0] as int) < (b[0] as int)
    } else {
        name_lt(a.drop_first(), b.drop_first())
    }
}

/// No name comes before itself.
pub proof fn lemma_name_lt_irreflexive(a: Seq<char>)
    ensures
        !name_lt(a, a),
    decreases a.len(),
{
    if a.len() > 0 {
        lemma_name_lt_irreflexive(a.drop_first());
    }
}

/// Of two distinct names one comes first, and never both.
pub proof fn lemma_name_lt_total(a: Seq<char>, b: Seq<char>)
    ensures
        a != b ==> name_lt(a, b) || name_lt(b, a),
        !(name_lt(a, b) && name_lt(b, a)),
    decreases a.len(),
{
    if a.len() > 0 && b.len() > 0 && a[0] == b[0] {
        lemma_name_lt_total(a.drop_first(), b.drop_first());
        if a.drop_first() == b.drop_first() {
            assert(a =~= b.drop_first().insert(0, b[0]));
            assert(b =~= b.drop_first().insert(0, b[0]));
        }
    } else if a.len() > 0 && b.len() > 0 {
        assert(a[0] as int != b[0] as int);
    } else if a.len() == 0 && b.len() == 0 {
        assert(a =~= b);
    }
}

/// The name order is transitive.
pub proof fn lemma_name_lt_transitive(a: Seq<char>, b: Seq<char>, c: Seq<char>)
    requires
        name_lt(a, b),
        name_lt(b, c),
    ensures
        name_lt(a, c),
    decreases a.len(),
{
    if a.len() > 0 && b.len() > 0 && c.len() > 0 && a[0] == b[0] && b[0] == c[0] {
        lemma_name_lt_transitive(a.drop_first(), b.drop_first(), c.drop_first());
    }
}

/// Compares two names by `name_lt`.
pub fn name_less(a: &String, b: &String) -> (r: bool)
    ensures
        r == name_lt(a@, b@),
{
    let sa = a.as_str();
    let sb = b.as_str();
    let la = sa.unicode_len();
    let lb = sb.unicode_len();
    let mut i: usize = 0;
    assert(a@.skip(0) =~= a@);
    assert(b@.skip(0) =~= b@);
    while i < la && i < lb
        invariant
            la == a@.len(),
            lb == b@.len(),
            sa@ == a@,
            sb@ == b@,
            i <= la,
            i <= lb,
            name_lt(a@, b@) == name_lt(a@.skip(i as int), b@.skip(i as int)),
        decreases la - i,
    {
        let ca = sa.get_char(i);
        let cb = sb.get_char(i);
        if ca != cb {
            assert(a@.skip(i as int)[0] == ca);
            assert(b@.skip(i as int)[0] == cb);
            return (ca as u32) < (cb as u32);
        }
        assert(a@.skip(i as int).drop_first() =~= a@.skip(i + 1));
        assert(b@.skip(i as int).drop_first() =~= b@.skip(i + 1));
        i = i + 1;
    }
    i < lb
}


impl Library {
    /// A copy of this record, field for field.
    pub fn duplicate(&self) -> (r: Library)
        ensures
            r == *self,
    {
        Library {
            permission: self.permission.clone(),
            encrypted: self.encrypted,
            mtime: self.mtime,
            owner: self.owner.clone(),
            id: self.id.clone(),
            size: self.size,
            name: self.name.clone(),
            library_type: self.library_type.clone(),
            is_virtual: self.is_virtual,
            desc: self.desc.clone(),
            root: self.root.clone(),
        }
    }
}

/// `libs[i]` is the first library of the list that carries its name.
pub open spec fn is_first_of_name(libs: Seq<Library>, i: int) -> bool {
    &&& 0 <= i < libs.len()
    &&& forall|j: int| 0 <= j < i ==> libs[j].name@ != libs[i].name@
}

/// Names strictly increase along the list (so no name occurs twice).
pub open spec fn sorted_by_name(r: Seq<Library>) -> bool {
    forall|i: int, j: int| 0 <= i < j < r.len() ==> name_lt(r[i].name@, r[j].name@)
}

/// `r` is `libs` sorted by name with duplicates dropped, where of each name
/// the first library of `libs` that carries it is kept.
pub open spec fn is_deduplication(r: Seq<Library>, libs: Seq<Library>) -> bool {
    dedup_progress(r, libs, libs.len() as int)
}

/// The first library of `libs` named `name`, if there is one.
pub open spec fn first_with_name(libs: Seq<Library>, name: Seq<char>) -> Option<Library>
    decreases libs.len(),
{
    if libs.len() == 0 {
        None
    } else if libs[0].name@ == name {
        Some(libs[0])
    } else {
        first_with_name(libs.drop_first(), name)
    }
}

/// The first library with a name is found at the first index carrying it.
pub proof fn lemma_first_with_name_at(libs: Seq<Library>, name: Seq<char>, k: int)
    requires
        0 <= k < libs.len(),
        libs[k].name@ == name,
        forall|j: int| 0 <= j < k ==> libs[j].name@ != name,
    ensures
        first_with_name(libs, name) == Some(libs[k]),
    decreases k,
{
    if k > 0 {
        lemma_first_with_name_at(libs.drop_first(), name, k - 1);
    }
}

/// No library carries the name: none is found.
pub proof fn lemma_first_with_name_none(libs: Seq<Library>, name: Seq<char>)
    requires
        forall|j: int| 0 <= j < libs.len() ==> libs[j].name@ != name,
    ensures
        first_with_name(libs, name) is None,
    decreases libs.len(),
{
    if libs.len() > 0 {
        lemma_first_with_name_none(libs.drop_first(), name);
    }
}

/// Index of the first library of `libs` named `name`.
pub fn find_library(libs: &Vec<Library>, name: &String) -> (r: Option<usize>)
    ensures
        match r {
            Some(k) => {
                &&& k < libs@.len()
                &&& libs@[k as int].name@ == name@
                &&& forall|j: int| 0 <= j < k ==> libs@[j].name@ != name@
            },
            None => forall|j: int| 0 <= j < libs@.len() ==> libs@[j].name@ != name@,
        },
        r is Some <==> first_with_name(libs@, name@) is Some,
        r matches Some(k) ==> first_with_name(libs@, name@) == Some(libs@[k as int]),
{
    let mut i: usize = 0;
    while i < libs.len()
        invariant
            i <= libs@.len(),
            forall|j: int| 0 <= j < i ==> libs@[j].name@ != name@,
        decreases libs@.len() - i,
    {
        if libs[i].name == *name {
            proof {
                lemma_first_with_name_at(libs@, name@, i as int);
            }
            return Some(i);
        }
        i = i + 1;
    }
    proof {
        lemma_first_with_name_none(libs@, name@);
    }
    None
}

/// Adds `x` to the name-sorted list `r` at its place, unless a library of
/// that name is already there.
fn insert_by_name(r: &mut Vec<Library>, x: &Library)
    requires
        sorted_by_name(old(r)@),
    ensures
        sorted_by_name(final(r)@),
        forall|k: int| 0 <= k < old(r)@.len() ==> #[trigger] final(r)@.contains(old(r)@[k]),
        forall|m: int|
            0 <= m < final(r)@.len() ==> #[trigger] old(r)@.contains(final(r)@[m]) || (final(r)@[m]
                == *x && !name_in(old(r)@, x.name@)),
        name_in(final(r)@, x.name@),
{
    let mut p: usize = 0;
    while p < r.len() && name_less(&r[p].name, &x.name)
        invariant
            p <= r@.len(),
            forall|q: int| 0 <= q < p ==> name_lt(r@[q].name@, x.name@),
        decreases r@.len() - p,
    {
        p = p + 1;
    }
    let ghost old_r = r@;
    if p < r.len() && r[p].name == x.name {
        assert(old_r[p as int] == r@[p as int]);
        assert(r@ == old_r);
        assert forall|k: int| 0 <= k < old_r.len() implies #[trigger] r@.contains(old_r[k]) by {
            assert(old_r[k] == r@[k]);
        }
        assert forall|m: int| 0 <= m < r@.len() implies #[trigger] old_r.contains(r@[m]) by {
            assert(old_r[m] == r@[m]);
        }
        assert(r@[p as int].name@ == x.name@);
        return;
    }
    proof {
        assert forall|q: int| p <= q < old_r.len() implies name_lt(x.name@, old_r[q].name@) by {
            lemma_name_lt_total(x.name@, old_r[p as int].name@);
            if q > p {
                lemma_name_lt_transitive(x.name@, old_r[p as int].name@, old_r[q].name@);
            }
        }
        assert forall|k: int| 0 <= k < old_r.len() implies #[trigger] old_r[k].name@ != x.name@ by {
            lemma_name_lt_irreflexive(x.name@);
        }
    }
    r.insert(p, x.duplicate());
    proof {
        assert(r@ == old_r.insert(p as int, *x));
        assert forall|a: int, b: int| 0 <= a < b < r@.len() implies name_lt(
            r@[a].name@,
            r@[b].name@,
        ) by {
            if b < p {
            } else if a < p && b == p {
            } else if a < p {
                assert(r@[b] == old_r[b - 1]);
            } else if a == p {
                assert(r@[b] == old_r[b - 1]);
            } else {
                assert(r@[a] == old_r[a - 1]);
                assert(r@[b] == old_r[b - 1]);
            }
        }
        assert forall|k: int| 0 <= k < old_r.len() implies #[trigger] r@.contains(old_r[k]) by {
            if k < p {
                assert(old_r[k] == r@[k]);
            } else {
                assert(old_r[k] == r@[k + 1]);
            }
        }
        assert forall|m: int| 0 <= m < r@.len() implies #[trigger] old_r.contains(r@[m]) || (r@[m]
            == *x && !name_in(old_r, x.name@)) by {
            if m < p {
                assert(r@[m] == old_r[m]);
            } else if m > p {
                assert(r@[m] == old_r[m - 1]);
            }
        }
        assert(r@[p as int].name@ == x.name@);
    }
}

/// Some library of `r` is named `n`.
pub open spec fn name_in(r: Seq<Library>, n: Seq<char>) -> bool {
    exists|k: int| 0 <= k < r.len() && r[k].name@ == n
}

/// `x` is the first library of `libs[0..n]` with its name.
pub open spec fn kept_from(libs: Seq<Library>, n: int, x: Library) -> bool {
    exists|j: int| 0 <= j < n && is_first_of_name(libs, j) && libs[j] == x
}

/// `r` is the deduplication of the first `n` libraries of `libs`.
pub open spec fn dedup_progress(r: Seq<Library>, libs: Seq<Library>, n: int) -> bool {
    &&& sorted_by_name(r)
    &&& forall|k: int| 0 <= k < r.len() ==> #[trigger] kept_from(libs, n, r[k])
    &&& forall|j: int| 0 <= j < n ==> #[trigger] name_in(r, libs[j].name@)
}

proof fn lemma_dedup_step(libs: Seq<Library>, i: int, old_r: Seq<Library>, r: Seq<Library>)
    requires
        0 <= i < libs.len(),
        dedup_progress(old_r, libs, i),
        sorted_by_name(r),
        forall|k: int| 0 <= k < old_r.len() ==> #[trigger] r.contains(old_r[k]),
        forall|m: int|
            0 <= m < r.len() ==> #[trigger] old_r.contains(r[m]) || (r[m] == libs[i] && !name_in(
                old_r,
                libs[i].name@,
            )),
        name_in(r, libs[i].name@),
    ensures
        dedup_progress(r, libs, i + 1),
{
    let x = libs[i];
    assert forall|k: int| 0 <= k < r.len() implies #[trigger] kept_from(libs, i + 1, r[k]) by {
        if old_r.contains(r[k]) {
            let k0 = choose|k0: int| 0 <= k0 < old_r.len() && old_r[k0] == r[k];
            assert(kept_from(libs, i, old_r[k0]));
            let j = choose|j: int| 0 <= j < i && is_first_of_name(libs, j) && libs[j] == old_r[k0];
            assert(0 <= j < i + 1 && is_first_of_name(libs, j) && libs[j] == r[k]);
        } else {
            assert forall|j: int| 0 <= j < i implies libs[j].name@ != x.name@ by {
                assert(name_in(old_r, libs[j].name@));
            }
            assert(is_first_of_name(libs, i));
            assert(r[k] == libs[i]);
        }
    }
    assert forall|j: int| 0 <= j < i + 1 implies #[trigger] name_in(r, libs[j].name@) by {
        if j < i {
            assert(name_in(old_r, libs[j].name@));
            let k0 = choose|k0: int| 0 <= k0 < old_r.len() && old_r[k0].name@ == libs[j].name@;
            assert(r.contains(old_r[k0]));
            let m = choose|m: int| 0 <= m < r.len() && r[m] == old_r[k0];
            assert(r[m].name@ == libs[j].name@);
        }
    }
}

/// Sorts `libs` by name and keeps, of each name, the first library that
/// carries it.
pub fn deduplicate(libs: &Vec<Library>) -> (r: Vec<Library>)
    ensures
        is_deduplication(r@, libs@),
{
    let mut r: Vec<Library> = Vec::new();
    let mut i: usize = 0;
    while i < libs.len()
        invariant
            i <= libs@.len(),
            dedup_progress(r@, libs@, i as int),
        decreases libs@.len() - i,
    {
        let ghost old_r = r@;
        insert_by_name(&mut r, &libs[i]);
        proof {
            lemma_dedup_step(libs@, i as int, old_r, r@);
        }
        i = i + 1;
    }
    r
}


/// Resolving a name against the deduplicated list gives the first library,
/// in the list as fetched, with that name; so every deduplication of one
/// list, and every repetition of the lookup, resolves a name to the same
/// library. Deduplicating again changes nothing.
pub proof fn lemma_resolution_deterministic(
    libs: Seq<Library>,
    r1: Seq<Library>,
    r2: Seq<Library>,
    name: Seq<char>,
)
    requires
        is_deduplication(r1, libs),
        is_deduplication(r2, libs),
    ensures
        first_with_name(r1, name) == first_with_name(libs, name),
        first_with_name(r1, name) == first_with_name(r2, name),
        is_deduplication(r1, r1),
{
    lemma_resolution_after_dedup(libs, r1, name);
    lemma_resolution_after_dedup(libs, r2, name);
    assert forall|k: int| 0 <= k < r1.len() implies #[trigger] kept_from(r1, r1.len() as int, r1[k]) by {
        assert forall|j: int| 0 <= j < k implies r1[j].name@ != r1[k].name@ by {
            lemma_name_lt_irreflexive(r1[k].name@);
        }
        assert(is_first_of_name(r1, k));
    }
    assert forall|j: int| 0 <= j < r1.len() implies #[trigger] name_in(r1, r1[j].name@) by {
        assert(r1[j].name@ == r1[j].name@);
    }
}

proof fn lemma_resolution_after_dedup(libs: Seq<Library>, r: Seq<Library>, name: Seq<char>)
    requires
        is_deduplication(r, libs),
    ensures
        first_with_name(r, name) == first_with_name(libs, name),
{
    if exists|i: int| 0 <= i < libs.len() && libs[i].name@ == name {
        let i0 = choose|i: int| 0 <= i < libs.len() && libs[i].name@ == name;
        let i = first_index_with_name(libs, name, i0);
        lemma_first_with_name_at(libs, name, i);
        assert(name_in(r, libs[i].name@));
        let k = choose|k: int| 0 <= k < r.len() && r[k].name@ == libs[i].name@;
        assert(kept_from(libs, libs.len() as int, r[k]));
        let j = choose|j: int| 0 <= j < libs.len() && is_first_of_name(libs, j) && libs[j] == r[k];
        if j < i {
        } else if j > i {
            assert(libs[i].name@ == libs[j].name@);
        }
        assert forall|q: int| 0 <= q < k implies r[q].name@ != name by {
            lemma_name_lt_irreflexive(name);
        }
        lemma_first_with_name_at(r, name, k);
    } else {
        assert forall|q: int| 0 <= q < r.len() implies r[q].name@ != name by {
            assert(kept_from(libs, libs.len() as int, r[q]));
        }
        lemma_first_with_name_none(r, name);
        lemma_first_with_name_none(libs, name);
    }
}

/// The least index at or below `i` whose library is named `name`.
proof fn first_index_with_name(libs: Seq<Library>, name: Seq<char>, i: int) -> (f: int)
    requires
        0 <= i < libs.len(),
        libs[i].name@ == name,
    ensures
        0 <= f <= i,
        libs[f].name@ == name,
        forall|j: int| 0 <= j < f ==> libs[j].name@ != name,
    decreases i,
{
    if exists|j: int| 0 <= j < i && libs[j].name@ == name {
        let j = choose|j: int| 0 <= j < i && libs[j].name@ == name;
        first_index_with_name(libs, name, j)
    } else {
        i
    }
}

} // verus!
