use vstd::prelude::*;

verus! {

/// The names of a list of path components.
pub open spec fn names(v: Seq<String>) -> Seq<Seq<char>> {
    v.map_values(|s: String| s@)
}

/// The components joined with a `/` before each.
pub open spec fn joined(parts: Seq<Seq<char>>) -> Seq<char>
    decreases parts.len(),
{
    if parts.len() == 0 {
        Seq::empty()
    } else {
        joined(parts.drop_last()) + seq!['/'] + parts.last()
    }
}

/// The path, inside a library, made of these components: `/` for none.
pub open spec fn path_text(parts: Seq<Seq<char>>) -> Seq<char> {
    if parts.len() == 0 {
        seq!['/']
    } else {
        joined(parts)
    }
}

/// A filesystem path taken apart. A path is given as the components that
/// follow the root marker: depth 1 (no component) is the filesystem root,
/// depth 2 a library's own root, and deeper paths name content of the
/// library that the first component selects.
pub struct ResolvedPath {
    pub selector: Option<String>,
    pub relative_path: Vec<String>,
    pub leaf_name: Option<String>,
}

/// The selector, relative path and leaf of a path of these components.
pub open spec fn resolution(c: Seq<String>) -> (Option<String>, Seq<String>, Option<String>) {
    if c.len() == 0 {
        (None, Seq::empty(), None)
    } else if c.len() == 1 {
        (Some(c[0]), Seq::empty(), None)
    } else {
        (Some(c[0]), c.subrange(1, c.len() - 1), Some(c.last()))
    }
}

/// A copy of a list of components.
pub fn copy_components(v: &[String]) -> (r: Vec<String>)
    ensures
        r@ == v@,
{
    let mut r: Vec<String> = Vec::new();
    let mut i: usize = 0;
    while i < v.len()
        invariant
            i <= v@.len(),
            r@ == v@.take(i as int),
        decreases v@.len() - i,
    {
        r.push(v[i].clone());
        assert(r@ =~= v@.take(i + 1));
        i = i + 1;
    }
    assert(r@ =~= v@);
    r
}

pub fn resolve_path(components: &Vec<String>) -> (r: ResolvedPath)
    ensures
        (r.selector, r.relative_path@, r.leaf_name) == resolution(components@),
{
    let n = components.len();
    if n == 0 {
        ResolvedPath { selector: None, relative_path: Vec::new(), leaf_name: None }
    } else if n == 1 {
        ResolvedPath {
            selector: Some(components[0].clone()),
            relative_path: Vec::new(),
            leaf_name: None,
        }
    } else {
        let middle = copy_components(&components.as_slice()[1..n - 1]);
        assert(middle@ =~= components@.subrange(1, n - 1));
        ResolvedPath {
            selector: Some(components[0].clone()),
            relative_path: middle,
            leaf_name: Some(components[n - 1].clone()),
        }
    }
}

/// The text of the path inside a library made of `parts`.
pub fn path_string(parts: &Vec<String>) -> (r: String)
    ensures
        r@ == path_text(names(parts@)),
{
    let mut s = String::new();
    let mut i: usize = 0;
    while i < parts.len()
        invariant
            i <= parts@.len(),
            s@ == joined(names(parts@.take(i as int))),
        decreases parts@.len() - i,
    {
        proof {
            reveal_strlit("/");
        }
        s.append("/");
        s.append(parts[i].as_str());
        proof {
            let t = names(parts@.take(i + 1));
            assert(t.drop_last() =~= names(parts@.take(i as int)));
        }
        i = i + 1;
    }
    assert(parts@.take(parts@.len() as int) =~= parts@);
    if parts.len() == 0 {
        proof {
            reveal_strlit("/");
        }
        s.append("/");
        assert(s@ =~= seq!['/']);
    }
    s
}

} // verus!
