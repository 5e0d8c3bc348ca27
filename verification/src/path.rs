//! A platform-independent model of filesystem paths.
//!
//! A [`SysPath`] is either absolute or relative and carries its components in
//! order, as plain strings.  Components are kept verbatim: `.` and `..` stay
//! in place, and it is the confiner's job to decide what they may refer to.

use vstd::prelude::*;

verus! {

/// The mathematical value of a [`SysPath`]: whether it is absolute, and its
/// components as sequences of characters.
#[verifier::ext_equal]
pub ghost struct PathModel {
    pub absolute: bool,
    pub parts: Seq<Seq<char>>,
}

/// An owned path, split into components.
#[derive(Debug, PartialEq, Eq)]
pub struct SysPath {
    absolute: bool,
    parts: Vec<String>,
}

impl View for SysPath {
    type V = PathModel;

    closed spec fn view(&self) -> PathModel {
        PathModel { absolute: self.absolute, parts: self.parts.deep_view() }
    }
}

/// True when `pre` is an initial run of `s`.
pub open spec fn is_prefix_of(pre: Seq<Seq<char>>, s: Seq<Seq<char>>) -> bool {
    pre.len() <= s.len() && s.take(pre.len() as int) == pre
}

/// The component that names the current directory.
pub open spec fn cur_component() -> Seq<char> {
    "."@
}

/// The component that names the parent directory.
pub open spec fn parent_component() -> Seq<char> {
    ".."@
}

/// True exactly when `part` is the current-directory marker `.`.
pub fn is_cur(part: &String) -> (r: bool)
    ensures
        r == (part@ == cur_component()),
{
    let probe: String = ".".to_owned();
    *part == probe
}

/// True exactly when `part` is the parent-directory marker `..`.
pub fn is_parent(part: &String) -> (r: bool)
    ensures
        r == (part@ == parent_component()),
{
    let probe: String = "..".to_owned();
    *part == probe
}

/// Copies a vector of components, element for element.
pub(crate) fn clone_strings(v: &Vec<String>) -> (r: Vec<String>)
    ensures
        r.deep_view() == v.deep_view(),
        r@.len() == v@.len(),
{
    let mut r: Vec<String> = Vec::new();
    proof {
        assert(r.deep_view() =~= v.deep_view().take(0));
    }
    let mut i: usize = 0;
    while i < v.len()
        invariant
            i <= v@.len(),
            r@.len() == i,
            r.deep_view() == v.deep_view().take(i as int),
        decreases v@.len() - i,
    {
        r.push(v[i].clone());
        i = i + 1;
        proof {
            assert(r.deep_view() =~= v.deep_view().take(i as int));
        }
    }
    proof {
        assert(v.deep_view().take(v@.len() as int) =~= v.deep_view());
    }
    r
}

/// Appends the components `src[from..to]` onto `dst`, element for element.
pub(crate) fn append_range(dst: &mut Vec<String>, src: &Vec<String>, from: usize, to: usize)
    requires
        from <= to <= src@.len(),
    ensures
        final(dst).deep_view() == old(dst).deep_view() + src.deep_view().subrange(
            from as int,
            to as int,
        ),
        final(dst)@.len() == old(dst)@.len() + (to - from),
{
    let ghost base = dst.deep_view();
    let ghost base_len = dst@.len();
    proof {
        assert(dst.deep_view() =~= base + src.deep_view().subrange(from as int, from as int));
    }
    let mut i: usize = from;
    while i < to
        invariant
            from <= i <= to <= src@.len(),
            dst@.len() == base_len + (i - from),
            dst.deep_view() == base + src.deep_view().subrange(from as int, i as int),
        decreases to - i,
    {
        let ghost pre = dst@;
        let ghost pre_deep = dst.deep_view();
        let elem = src[i].clone();
        proof {
            assert(elem == src@[i as int]);
        }
        dst.push(elem);
        i = i + 1;
        proof {
            assert(dst@ == pre.push(src@[i as int - 1]));
            assert(dst.deep_view().len() == pre_deep.len() + 1);
            assert forall|k: int| 0 <= k < pre.len() implies dst.deep_view()[k] == pre_deep[k] by {
                assert(dst@[k] == pre[k]);
            }
            assert(dst.deep_view()[pre.len() as int] == src@[i as int - 1].deep_view());
            let rhs = base + src.deep_view().subrange(from as int, i as int);
            assert(pre_deep == base + src.deep_view().subrange(from as int, i as int - 1));
            assert(dst.deep_view().len() == rhs.len());
            assert forall|k: int| 0 <= k < rhs.len() implies dst.deep_view()[k] == rhs[k] by {
                if k < pre.len() {
                    assert(dst.deep_view()[k] == pre_deep[k]);
                    assert(rhs[k] == pre_deep[k]);
                } else {
                    assert(rhs[k] == src.deep_view()[i as int - 1]);
                    assert(src.deep_view()[i as int - 1] == src@[i as int - 1].deep_view());
                }
            }
            assert(dst.deep_view() =~= rhs);
        }
    }
}

impl Clone for SysPath {
    fn clone(&self) -> (r: Self)
        ensures
            r@ == self@,
    {
        let r = SysPath { absolute: self.absolute, parts: clone_strings(&self.parts) };
        proof {
            assert(r@ =~= self@);
        }
        r
    }
}

impl SysPath {
    /// Builds a path from its components.
    pub fn new(absolute: bool, parts: Vec<String>) -> (r: SysPath)
        ensures
            r@.absolute == absolute,
            r@.parts == parts.deep_view(),
    {
        SysPath { absolute, parts }
    }

    /// The filesystem root: absolute, with no components.
    pub fn root() -> (r: SysPath)
        ensures
            r@.absolute,
            r@.parts == Seq::<Seq<char>>::empty(),
    {
        let r = SysPath { absolute: true, parts: Vec::new() };
        proof {
            assert(r@.parts =~= Seq::<Seq<char>>::empty());
        }
        r
    }

    /// Whether this path is absolute.
    pub fn is_absolute(&self) -> (r: bool)
        ensures
            r == self@.absolute,
    {
        self.absolute
    }

    /// The number of components.
    pub fn len(&self) -> (r: usize)
        ensures
            r == self@.parts.len(),
    {
        self.parts.len()
    }

    /// The components of this path, in order.
    pub fn components(&self) -> (r: &Vec<String>)
        ensures
            r.deep_view() == self@.parts,
    {
        &self.parts
    }

    /// This path followed by all components of `other`.
    pub fn join(&self, other: &SysPath) -> (r: SysPath)
        ensures
            r@.absolute == self@.absolute,
            r@.parts == self@.parts + other@.parts,
    {
        let mut parts = clone_strings(&self.parts);
        append_range(&mut parts, &other.parts, 0, other.parts.len());
        let r = SysPath { absolute: self.absolute, parts };
        proof {
            assert(r@.parts =~= self@.parts + other@.parts);
        }
        r
    }

    /// The first `k` components of this path.
    pub fn truncated(&self, k: usize) -> (r: SysPath)
        requires
            k <= self@.parts.len(),
        ensures
            r@.absolute == self@.absolute,
            r@.parts == self@.parts.take(k as int),
    {
        let mut parts: Vec<String> = Vec::new();
        append_range(&mut parts, &self.parts, 0, k);
        let r = SysPath { absolute: self.absolute, parts };
        proof {
            assert(r@.parts =~= self@.parts.take(k as int));
        }
        r
    }

    /// The components from position `k` on.
    pub fn parts_from(&self, k: usize) -> (r: Vec<String>)
        requires
            k <= self@.parts.len(),
        ensures
            r.deep_view() == self@.parts.skip(k as int),
    {
        let mut parts: Vec<String> = Vec::new();
        append_range(&mut parts, &self.parts, k, self.parts.len());
        proof {
            assert(parts.deep_view() =~= self@.parts.skip(k as int));
        }
        parts
    }

    /// Whether `prefix` is an initial run of this path, on the same side of
    /// the root marker.
    pub fn starts_with(&self, prefix: &SysPath) -> (r: bool)
        ensures
            r == (self@.absolute == prefix@.absolute && is_prefix_of(prefix@.parts, self@.parts)),
    {
        if self.absolute != prefix.absolute {
            return false;
        }
        let pl = prefix.parts.len();
        if pl > self.parts.len() {
            return false;
        }
        let mut i: usize = 0;
        while i < pl
            invariant
                i <= pl == prefix@.parts.len() <= self@.parts.len(),
                forall|j: int| 0 <= j < i ==> self@.parts[j] == prefix@.parts[j],
            decreases pl - i,
        {
            if !(self.parts[i] == prefix.parts[i]) {
                proof {
                    if self@.parts.take(pl as int) == prefix@.parts {
                        assert(self@.parts.take(pl as int)[i as int] == prefix@.parts[i as int]);
                        assert(false);
                    }
                }
                return false;
            }
            i = i + 1;
        }
        proof {
            assert(self@.parts.take(pl as int) =~= prefix@.parts);
        }
        true
    }
}

} // verus!
