use vstd::prelude::*;

verus! {

/// One component of a filesystem path, in the shape that a path splits into.
#[derive(Debug, Clone, PartialEq, Eq)]
pub enum Component {
    /// The root directory (`/`).
    Root,
    /// A leading `.`.
    Current,
    /// A `..`.
    Parent,
    /// An ordinary name, as the bytes that the filesystem holds.
    Normal(Vec<u8>),
}

/// What a component is, as a mathematical value.
pub ghost enum Part {
    Root,
    Current,
    Parent,
    Normal(Seq<u8>),
}

impl View for Component {
    type V = Part;

    open spec fn view(&self) -> Part {
        match self {
            Component::Root => Part::Root,
            Component::Current => Part::Current,
            Component::Parent => Part::Parent,
            Component::Normal(s) => Part::Normal(s@),
        }
    }
}

/// The parts of a path given as a list of components.
pub open spec fn parts(p: Seq<Component>) -> Seq<Part> {
    p.map_values(|c: Component| c@)
}

/// The final name of a path, if it ends in an ordinary name.
pub open spec fn file_name_of(p: Seq<Part>) -> Option<Seq<u8>> {
    if p.len() > 0 && p.last() is Normal {
        Some(p.last()->Normal_0)
    } else {
        None
    }
}

/// The path without its last component; none for an empty path or the root alone.
pub open spec fn parent_of(p: Seq<Part>) -> Option<Seq<Part>> {
    if p.len() == 0 || p.last() is Root {
        None
    } else {
        Some(p.drop_last())
    }
}

/// Where a copy of `source` lands when the destination is `dest`.
pub open spec fn target_of(source: Seq<Part>, dest: Seq<Part>, dest_is_dir: bool) -> Option<
    Seq<Part>,
> {
    if dest_is_dir {
        match file_name_of(source) {
            Some(name) => Some(dest.push(Part::Normal(name))),
            None => None,
        }
    } else {
        Some(dest)
    }
}

/// Appending a component appends its part.
pub proof fn lemma_parts_push(s: Seq<Component>, c: Component)
    ensures
        parts(s.push(c)) == parts(s).push(c@),
{
    assert(parts(s.push(c)) =~= parts(s).push(c@));
}

/// A copy of a name.
fn copy_bytes(b: &Vec<u8>) -> (r: Vec<u8>)
    ensures
        r@ == b@,
{
    let mut r: Vec<u8> = Vec::new();
    let mut i: usize = 0;
    while i < b.len()
        invariant
            i <= b.len(),
            r@ == b@.subrange(0, i as int),
        decreases b.len() - i,
    {
        r.push(b[i]);
        i = i + 1;
        assert(r@ =~= b@.subrange(0, i as int));
    }
    assert(b@.subrange(0, b.len() as int) =~= b@);
    r
}

/// Whether two names hold the same bytes.
fn same_bytes(a: &Vec<u8>, b: &Vec<u8>) -> (r: bool)
    ensures
        r == (a@ == b@),
{
    if a.len() != b.len() {
        return false;
    }
    let mut i: usize = 0;
    while i < a.len()
        invariant
            a.len() == b.len(),
            i <= a.len(),
            a@.subrange(0, i as int) == b@.subrange(0, i as int),
        decreases a.len() - i,
    {
        if a[i] != b[i] {
            assert(a@[i as int] != b@[i as int]);
            return false;
        }
        assert(a@.subrange(0, i + 1) =~= a@.subrange(0, i as int).push(a@[i as int]));
        assert(b@.subrange(0, i + 1) =~= b@.subrange(0, i as int).push(b@[i as int]));
        i = i + 1;
    }
    assert(a@ =~= a@.subrange(0, a.len() as int));
    assert(b@ =~= b@.subrange(0, b.len() as int));
    true
}

impl Component {
    /// An equal copy of this component.
    pub fn duplicate(&self) -> (r: Component)
        ensures
            r@ == self@,
    {
        match self {
            Component::Root => Component::Root,
            Component::Current => Component::Current,
            Component::Parent => Component::Parent,
            Component::Normal(s) => Component::Normal(copy_bytes(s)),
        }
    }

    /// Whether two components denote the same part.
    pub fn same_as(&self, other: &Component) -> (r: bool)
        ensures
            r == (self@ == other@),
    {
        match (self, other) {
            (Component::Root, Component::Root) => true,
            (Component::Current, Component::Current) => true,
            (Component::Parent, Component::Parent) => true,
            (Component::Normal(a), Component::Normal(b)) => same_bytes(a, b),
            _ => false,
        }
    }
}

/// A copy of the components `p[from..]`.
pub fn copy_from(p: &Vec<Component>, from: usize) -> (r: Vec<Component>)
    requires
        from <= p.len(),
    ensures
        parts(r@) == parts(p@).subrange(from as int, p@.len() as int),
{
    let mut r: Vec<Component> = Vec::new();
    let mut i: usize = from;
    while i < p.len()
        invariant
            from <= i <= p.len(),
            parts(r@) == parts(p@).subrange(from as int, i as int),
        decreases p.len() - i,
    {
        let c = p[i].duplicate();
        proof {
            lemma_parts_push(r@, c);
        }
        r.push(c);
        i = i + 1;
        assert(parts(r@) =~= parts(p@).subrange(from as int, i as int));
    }
    r
}

/// A copy of a whole path.
pub fn copy_path(p: &Vec<Component>) -> (r: Vec<Component>)
    ensures
        parts(r@) == parts(p@),
{
    let r = copy_from(p, 0);
    assert(parts(p@).subrange(0, p@.len() as int) =~= parts(p@));
    r
}

/// The final name of a path, if it ends in an ordinary name.
pub fn file_name(p: &Vec<Component>) -> (r: Option<Vec<u8>>)
    ensures
        r matches Some(s) ==> file_name_of(parts(p@)) == Some(s@),
        r is None <==> file_name_of(parts(p@)) is None,
{
    if p.len() == 0 {
        return None;
    }
    match &p[p.len() - 1] {
        Component::Normal(s) => Some(copy_bytes(s)),
        _ => None,
    }
}

/// The path `base` followed by the components of `rel`.
pub fn join(base: &Vec<Component>, rel: &Vec<Component>) -> (r: Vec<Component>)
    ensures
        parts(r@) == parts(base@) + parts(rel@),
{
    let mut r = copy_path(base);
    let mut i: usize = 0;
    while i < rel.len()
        invariant
            i <= rel.len(),
            parts(r@) == parts(base@) + parts(rel@).subrange(0, i as int),
        decreases rel.len() - i,
    {
        let c = rel[i].duplicate();
        proof {
            lemma_parts_push(r@, c);
        }
        r.push(c);
        i = i + 1;
        assert(parts(r@) =~= parts(base@) + parts(rel@).subrange(0, i as int));
    }
    assert(parts(rel@).subrange(0, rel.len() as int) =~= parts(rel@));
    r
}

/// The path without its last component; none for an empty path or the root alone.
pub fn parent(p: &Vec<Component>) -> (r: Option<Vec<Component>>)
    ensures
        r matches Some(q) ==> parent_of(parts(p@)) == Some(parts(q@)),
        r is None <==> parent_of(parts(p@)) is None,
{
    if p.len() == 0 {
        return None;
    }
    match &p[p.len() - 1] {
        Component::Root => None,
        _ => {
            let mut q = copy_path(p);
            let ghost before = q@;
            q.pop();
            assert(before =~= q@.push(before.last()));
            proof {
                lemma_parts_push(q@, before.last());
            }
            assert(parts(q@) =~= parts(p@).drop_last());
            Some(q)
        },
    }
}

/// The rest of `path` after `base`, when `base` is a leading part of it.
pub fn strip_prefix(path: &Vec<Component>, base: &Vec<Component>) -> (r: Option<Vec<Component>>)
    ensures
        r matches Some(rest) ==> parts(path@) == parts(base@) + parts(rest@),
        r is None <==> !parts(base@).is_prefix_of(parts(path@)),
{
    if base.len() > path.len() {
        return None;
    }
    let mut i: usize = 0;
    while i < base.len()
        invariant
            base.len() <= path.len(),
            i <= base.len(),
            forall|j: int| 0 <= j < i ==> #[trigger] path@[j]@ == base@[j]@,
        decreases base.len() - i,
    {
        if !path[i].same_as(&base[i]) {
            assert(parts(base@)[i as int] != parts(path@)[i as int]);
            return None;
        }
        i = i + 1;
    }
    let rest = copy_from(path, base.len());
    assert(parts(base@) =~= parts(path@).subrange(0, base.len() as int));
    assert(parts(path@) =~= parts(base@) + parts(rest@));
    Some(rest)
}

/// Where a copy of `source` lands when the destination is `dest`: inside `dest`
/// under the source's own name when `dest` is a directory, else `dest` itself.
/// None when `dest` is a directory and the source has no final name.
pub fn resolve_target_path(source: &Vec<Component>, dest: &Vec<Component>, dest_is_dir: bool) -> (r:
    Option<Vec<Component>>)
    ensures
        r matches Some(t) ==> target_of(parts(source@), parts(dest@), dest_is_dir) == Some(
            parts(t@),
        ),
        r is None <==> target_of(parts(source@), parts(dest@), dest_is_dir) is None,
{
    if dest_is_dir {
        match file_name(source) {
            Some(name) => {
                let mut t = copy_path(dest);
                proof {
                    lemma_parts_push(t@, Component::Normal(name));
                }
                t.push(Component::Normal(name));
                assert(parts(t@) =~= parts(dest@).push(Part::Normal(name@)));
                Some(t)
            },
            None => None,
        }
    } else {
        Some(copy_path(dest))
    }
}

} // verus!
