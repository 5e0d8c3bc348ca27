//! The path confiner: maps caller-supplied paths into a sandbox and rejects
//! any path that would resolve outside it.
//!
//! Confinement is a pure computation.  Given the sandbox root, the caller's
//! working directory and an input path, the confiner first *absolutizes* the
//! input (a relative path is joined to the working directory), then *reroots*
//! it (the path's root marker is remapped onto the sandbox root).  The
//! rerooted path may partly exist on disk; the surrounding program resolves
//! its deepest existing ancestor to canonical form and reports the outcome as
//! a [`Resolution`] value, which the confiner splices back in.  Finally the
//! resolved path must start with the sandbox root, and its components beyond
//! the root must never net-ascend above it — the depth walk in
//! [`is_traversal`] catches `..` sequences that survive in the suffix that
//! does not exist on disk yet, which a prefix check alone would miss.
//!
//! The confiner trusts the reported canonical form of the existing ancestor.
//! A relative symbolic link inside the sandbox whose target text ascends out
//! of it can therefore still evade the check when the native filesystem
//! follows it later; this sandbox prevents accidental escapes, it is not a
//! security boundary.

use vstd::prelude::*;

use crate::error::PathError;
use crate::path::{
    append_range, clone_strings, cur_component, is_prefix_of, parent_component, PathModel, SysPath,
};

verus! {

/// How one component changes the logical depth below the sandbox root:
/// a current-directory marker leaves it unchanged, a parent-directory marker
/// ascends, any other component descends into the tree.
pub open spec fn component_delta(c: Seq<char>) -> int {
    if c == cur_component() {
        0
    } else if c == parent_component() {
        -1
    } else {
        1
    }
}

/// The logical depth reached after walking all of `parts`.
pub open spec fn depth_after(parts: Seq<Seq<char>>) -> int
    decreases parts.len(),
{
    if parts.len() == 0 {
        0
    } else {
        depth_after(parts.drop_last()) + component_delta(parts.last())
    }
}

/// True when no prefix of `parts` ever ascends above depth zero.
pub open spec fn depth_ok(parts: Seq<Seq<char>>) -> bool {
    forall|i: int| 0 <= i <= parts.len() ==> depth_after(#[trigger] parts.take(i)) >= 0
}

/// Walking one more component adds that component's delta to the depth.
proof fn lemma_depth_take_succ(s: Seq<Seq<char>>, i: int)
    requires
        0 <= i < s.len(),
    ensures
        depth_after(s.take(i + 1)) == depth_after(s.take(i)) + component_delta(s[i]),
{
    assert(s.take(i + 1).drop_last() =~= s.take(i));
    assert(s.take(i + 1).last() == s[i]);
}

/// The two directory markers are distinct components.
proof fn lemma_cur_parent_distinct()
    ensures
        cur_component() != parent_component(),
{
    reveal_strlit(".");
    reveal_strlit("..");
    assert(cur_component().len() == 1);
    assert(parent_component().len() == 2);
}

/// Walks the components of a path and reports whether their parent-directory
/// references ever net-ascend above the starting point.
///
/// This is the dedicated traversal check of the confiner: current-directory
/// markers leave the depth unchanged, a parent-directory marker decrements
/// it, any other component increments it, and the walk fails as soon as the
/// depth would go negative.
pub fn is_traversal(parts: &Vec<String>) -> (r: bool)
    ensures
        r == !depth_ok(parts.deep_view()),
{
    let ghost dv = parts.deep_view();
    proof {
        assert(dv.take(0) =~= Seq::<Seq<char>>::empty());
    }
    let mut depth: usize = 0;
    let mut i: usize = 0;
    while i < parts.len()
        invariant
            i <= parts@.len(),
            dv == parts.deep_view(),
            depth == depth_after(dv.take(i as int)),
            depth <= i,
            forall|j: int| 0 <= j <= i ==> depth_after(#[trigger] dv.take(j)) >= 0,
        decreases parts@.len() - i,
    {
        proof {
            lemma_depth_take_succ(dv, i as int);
            lemma_cur_parent_distinct();
        }
        let part = &parts[i];
        proof {
            assert(part@ == dv[i as int]);
        }
        if crate::path::is_parent(part) {
            if depth == 0 {
                proof {
                    assert(depth_after(dv.take(i as int + 1)) == -1);
                }
                return true;
            }
            depth = depth - 1;
        } else if !crate::path::is_cur(part) {
            depth = depth + 1;
        }
        i = i + 1;
    }
    proof {
        assert(dv.take(parts@.len() as int) =~= dv);
        assert(depth_ok(dv));
    }
    false
}

/// What resolving the rerooted path against the on-disk state produced.
///
/// The surrounding program walks the rerooted path's ancestors from the full
/// path down and canonicalizes the first one that exists; the confiner only
/// consumes the outcome, so its verdict is proved for every outcome the walk
/// can report.
pub enum Resolution {
    /// The first existing ancestor held `depth` components of the rerooted
    /// path and canonicalized to `canonical`.
    Resolved { depth: usize, canonical: SysPath },
    /// No ancestor of the rerooted path exists on disk; the path is taken as
    /// already canonical.
    Unresolved,
    /// Canonicalizing an ancestor failed with an I/O error.
    Failed,
}

/// The mathematical value of a [`Resolution`].
pub ghost enum ResolutionModel {
    Resolved { depth: int, canonical: PathModel },
    Unresolved,
    Failed,
}

impl View for Resolution {
    type V = ResolutionModel;

    closed spec fn view(&self) -> ResolutionModel {
        match self {
            Resolution::Resolved { depth, canonical } => ResolutionModel::Resolved {
                depth: *depth as int,
                canonical: canonical@,
            },
            Resolution::Unresolved => ResolutionModel::Unresolved,
            Resolution::Failed => ResolutionModel::Failed,
        }
    }
}

/// A resolution fits a rerooted path when its reported ancestor depth lies
/// within that path and the canonical form it reports is absolute.
pub open spec fn resolution_wf(res: ResolutionModel, rerooted: PathModel) -> bool {
    match res {
        ResolutionModel::Resolved { depth, canonical } => 0 <= depth <= rerooted.parts.len()
            && canonical.absolute,
        ResolutionModel::Unresolved => true,
        ResolutionModel::Failed => true,
    }
}

/// A relative input is joined to the caller's working directory; an absolute
/// input stands as it is.
pub open spec fn absolutize_spec(cwd: PathModel, input: PathModel) -> PathModel {
    if input.absolute {
        input
    } else {
        PathModel { absolute: true, parts: cwd.parts + input.parts }
    }
}

/// The path's root marker is remapped onto the sandbox root.
pub open spec fn reroot_spec(root: PathModel, absolute: PathModel) -> PathModel {
    PathModel { absolute: true, parts: root.parts + absolute.parts }
}

/// Absolutizing and rerooting an input path, in one step.
pub open spec fn rerooted_spec(root: PathModel, cwd: PathModel, input: PathModel) -> PathModel {
    reroot_spec(root, absolutize_spec(cwd, input))
}

/// The canonical ancestor followed by the rerooted path's remaining suffix.
pub open spec fn splice_spec(rerooted: PathModel, depth: int, canonical: PathModel) -> PathModel {
    PathModel { absolute: true, parts: canonical.parts + rerooted.parts.skip(depth) }
}

/// The rerooted path after the reported resolution has been applied.
pub open spec fn resolved_spec(rerooted: PathModel, res: ResolutionModel) -> PathModel {
    match res {
        ResolutionModel::Resolved { depth, canonical } => splice_spec(rerooted, depth, canonical),
        ResolutionModel::Unresolved => rerooted,
        ResolutionModel::Failed => rerooted,
    }
}

/// The confinement check proper: the resolved path must start with the
/// sandbox root, and its components beyond the root must never net-ascend
/// above it.
pub open spec fn check_spec(root: PathModel, resolved: PathModel) -> Result<PathModel, PathError> {
    if is_prefix_of(root.parts, resolved.parts) && depth_ok(
        resolved.parts.skip(root.parts.len() as int),
    ) {
        Ok(resolved)
    } else {
        Err(PathError::ConfinementViolation)
    }
}

/// The confiner's verdict on a rerooted path, for a given resolution.
pub open spec fn confine_spec(root: PathModel, rerooted: PathModel, res: ResolutionModel) -> Result<
    PathModel,
    PathError,
> {
    match res {
        ResolutionModel::Failed => Err(PathError::CanonicalizationFailure),
        _ => check_spec(root, resolved_spec(rerooted, res)),
    }
}

/// The value of a confinement result, for writing contracts.
pub open spec fn confined_view(r: Result<SysPath, PathError>) -> Result<PathModel, PathError> {
    match r {
        Ok(p) => Ok(p@),
        Err(e) => Err(e),
    }
}

/// The path confiner of one sandbox session.
///
/// It holds the sandbox root in canonical form and confines caller paths
/// against it; it keeps no other state, so one confiner may serve any number
/// of lookups.
pub struct Confiner {
    root: SysPath,
}

impl View for Confiner {
    type V = PathModel;

    closed spec fn view(&self) -> PathModel {
        self.root@
    }
}

impl Confiner {
    /// A confiner is well-formed when its root is an absolute path.
    pub open spec fn wf(&self) -> bool {
        self@.absolute
    }

    /// Creates a confiner for the sandbox rooted at `root`.
    ///
    /// The root must be given in canonical form: the confinement check
    /// compares resolved paths against it verbatim.
    pub fn new(root: SysPath) -> (r: Confiner)
        requires
            root@.absolute,
        ensures
            r@ == root@,
            r.wf(),
    {
        Confiner { root }
    }

    /// The root of this sandbox.
    pub fn root_path(&self) -> (r: &SysPath)
        ensures
            r@ == self@,
    {
        &self.root
    }

    /// Absolutizes `input` against `cwd` and reroots it under the sandbox
    /// root.
    pub fn reroot(&self, cwd: &SysPath, input: &SysPath) -> (r: SysPath)
        requires
            self.wf(),
            cwd@.absolute,
        ensures
            r@ == rerooted_spec(self@, cwd@, input@),
    {
        let abs = if input.is_absolute() {
            input.clone()
        } else {
            cwd.join(input)
        };
        let r = self.root.join(&abs);
        proof {
            assert(r@ =~= rerooted_spec(self@, cwd@, input@));
        }
        r
    }

    /// Checks a fully resolved path against the sandbox root.
    fn check(&self, resolved: SysPath) -> (r: Result<SysPath, PathError>)
        requires
            self.wf(),
            resolved@.absolute,
        ensures
            confined_view(r) == check_spec(self@, resolved@),
    {
        if !resolved.starts_with(&self.root) {
            return Err(PathError::ConfinementViolation);
        }
        let suffix = resolved.parts_from(self.root.len());
        if is_traversal(&suffix) {
            Err(PathError::ConfinementViolation)
        } else {
            Ok(resolved)
        }
    }

    /// Applies a resolution to the rerooted path and checks the outcome.
    ///
    /// On success the returned path starts with the sandbox root and its
    /// remaining components never ascend above it; on failure no partial
    /// result is returned.
    pub fn confine_resolved(&self, rerooted: &SysPath, res: &Resolution) -> (r: Result<
        SysPath,
        PathError,
    >)
        requires
            self.wf(),
            rerooted@.absolute,
            resolution_wf(res@, rerooted@),
        ensures
            confined_view(r) == confine_spec(self@, rerooted@, res@),
    {
        match res {
            Resolution::Failed => Err(PathError::CanonicalizationFailure),
            Resolution::Unresolved => self.check(rerooted.clone()),
            Resolution::Resolved { depth, canonical } => {
                let mut parts = clone_strings(canonical.components());
                append_range(&mut parts, rerooted.components(), *depth, rerooted.len());
                let spliced = SysPath::new(true, parts);
                proof {
                    assert(spliced@ =~= splice_spec(rerooted@, *depth as int, canonical@));
                }
                self.check(spliced)
            },
        }
    }

    /// Confines one caller-supplied path: absolutize, reroot, splice in the
    /// reported resolution, and check the result against the sandbox root.
    pub fn confine(&self, cwd: &SysPath, input: &SysPath, res: &Resolution) -> (r: Result<
        SysPath,
        PathError,
    >)
        requires
            self.wf(),
            cwd@.absolute,
            resolution_wf(res@, rerooted_spec(self@, cwd@, input@)),
        ensures
            confined_view(r) == confine_spec(self@, rerooted_spec(self@, cwd@, input@), res@),
    {
        let rerooted = self.reroot(cwd, input);
        self.confine_resolved(&rerooted, res)
    }
}

/// Splitting a concatenation at its seam recovers both halves.
proof fn lemma_concat_take_skip(a: Seq<Seq<char>>, b: Seq<Seq<char>>)
    ensures
        (a + b).take(a.len() as int) == a,
        (a + b).skip(a.len() as int) == b,
{
    assert((a + b).take(a.len() as int) =~= a);
    assert((a + b).skip(a.len() as int) =~= b);
}

/// Taking within the first half of a concatenation ignores the second.
proof fn lemma_take_of_concat_within(a: Seq<Seq<char>>, b: Seq<Seq<char>>, k: int)
    requires
        0 <= k <= a.len(),
    ensures
        (a + b).take(k) == a.take(k),
{
    assert((a + b).take(k) =~= a.take(k));
}

/// A sequence is its own take followed by its own skip.
proof fn lemma_take_skip_decomp(s: Seq<Seq<char>>, k: int)
    requires
        0 <= k <= s.len(),
    ensures
        s.take(k) + s.skip(k) == s,
{
    assert(s.take(k) + s.skip(k) =~= s);
}

/// Depth is additive over concatenation.
proof fn lemma_depth_after_concat(a: Seq<Seq<char>>, b: Seq<Seq<char>>)
    ensures
        depth_after(a + b) == depth_after(a) + depth_after(b),
    decreases b.len(),
{
    if b.len() == 0 {
        assert(a + b =~= a);
    } else {
        assert((a + b).drop_last() =~= a + b.drop_last());
        assert((a + b).last() == b.last());
        lemma_depth_after_concat(a, b.drop_last());
    }
}

/// A walk that never ascends, followed by another such walk, never ascends.
proof fn lemma_depth_ok_concat(a: Seq<Seq<char>>, b: Seq<Seq<char>>)
    requires
        depth_ok(a),
        depth_ok(b),
    ensures
        depth_ok(a + b),
{
    assert forall|j: int| 0 <= j <= (a + b).len() implies depth_after(#[trigger] (a + b).take(j))
        >= 0 by {
        if j <= a.len() {
            assert((a + b).take(j) =~= a.take(j));
            assert(depth_after(a.take(j)) >= 0);
        } else {
            assert((a + b).take(j) =~= a + b.take(j - a.len()));
            lemma_depth_after_concat(a, b.take(j - a.len()));
            assert(a.take(a.len() as int) =~= a);
            assert(depth_after(a.take(a.len() as int)) >= 0);
            assert(depth_after(b.take(j - a.len())) >= 0);
        }
    }
}

/// Soundness of confinement: whatever resolution was reported, every path
/// the confiner accepts starts with the sandbox root, and its components
/// beyond the root never net-ascend above it.
pub proof fn lemma_confine_sound(root: PathModel, rerooted: PathModel, res: ResolutionModel)
    ensures
        confine_spec(root, rerooted, res) matches Ok(p) ==> is_prefix_of(root.parts, p.parts)
            && depth_ok(p.parts.skip(root.parts.len() as int)),
{
}

/// An absolute input whose `..` components net-ascend above the root is
/// rejected as a traversal when no ancestor of the rerooted path resolved:
/// the prefix check alone would pass, but the leftover components fail the
/// depth walk.
pub proof fn lemma_ascent_rejected(root: PathModel, cwd: PathModel, input: PathModel)
    requires
        input.absolute,
        !depth_ok(input.parts),
    ensures
        confine_spec(root, rerooted_spec(root, cwd, input), ResolutionModel::Unresolved)
            == Err::<PathModel, PathError>(PathError::ConfinementViolation),
{
    lemma_concat_take_skip(root.parts, input.parts);
}

/// An ancestor that canonicalized to a location outside the root is rejected
/// by the prefix check, wherever it sat in the rerooted path.
pub proof fn lemma_resolved_outside_rejected(
    root: PathModel,
    rerooted: PathModel,
    depth: int,
    canonical: PathModel,
)
    requires
        0 <= depth <= rerooted.parts.len(),
        canonical.parts.len() >= root.parts.len(),
        canonical.parts.take(root.parts.len() as int) != root.parts,
    ensures
        confine_spec(root, rerooted, ResolutionModel::Resolved { depth, canonical })
            == Err::<PathModel, PathError>(PathError::ConfinementViolation),
{
    lemma_take_of_concat_within(
        canonical.parts,
        rerooted.parts.skip(depth),
        root.parts.len() as int,
    );
    assert(canonical.parts.take(canonical.parts.len() as int) =~= canonical.parts);
}

/// A fully nested path is accepted verbatim: when the resolved ancestor is
/// the root itself, an absolute input whose components never ascend is
/// confined to exactly the root followed by those components — even when
/// nothing below the root exists on disk yet.
pub proof fn lemma_nested_path_confined(root: PathModel, cwd: PathModel, input: PathModel)
    requires
        root.absolute,
        input.absolute,
        depth_ok(input.parts),
    ensures
        confine_spec(
            root,
            rerooted_spec(root, cwd, input),
            ResolutionModel::Resolved { depth: root.parts.len() as int, canonical: root },
        ) == Ok::<PathModel, PathError>(
            PathModel { absolute: true, parts: root.parts + input.parts },
        ),
        confine_spec(root, rerooted_spec(root, cwd, input), ResolutionModel::Unresolved)
            == Ok::<PathModel, PathError>(
            PathModel { absolute: true, parts: root.parts + input.parts },
        ),
{
    let rr = rerooted_spec(root, cwd, input);
    lemma_concat_take_skip(root.parts, input.parts);
    let spliced = splice_spec(rr, root.parts.len() as int, root);
    assert(spliced =~= PathModel { absolute: true, parts: root.parts + input.parts });
    assert(rr =~= PathModel { absolute: true, parts: root.parts + input.parts });
}

/// Confining the sandbox root itself succeeds and yields the root — the
/// depth-zero boundary case.
pub proof fn lemma_root_itself_confined(root: PathModel, cwd: PathModel)
    requires
        root.absolute,
    ensures
        confine_spec(
            root,
            rerooted_spec(
                root,
                cwd,
                PathModel { absolute: true, parts: Seq::<Seq<char>>::empty() },
            ),
            ResolutionModel::Resolved { depth: root.parts.len() as int, canonical: root },
        ) == Ok::<PathModel, PathError>(root),
{
    let input = PathModel { absolute: true, parts: Seq::<Seq<char>>::empty() };
    assert(input.parts.take(0) =~= input.parts);
    assert(depth_ok(input.parts));
    lemma_nested_path_confined(root, cwd, input);
    assert(PathModel { absolute: true, parts: root.parts + input.parts } =~= root);
}

/// A relative input is resolved against the caller's working directory and
/// rerooted under the sandbox root: the confined path is the root, then the
/// working directory's components, then the input's.
pub proof fn lemma_relative_path_rerooted(root: PathModel, cwd: PathModel, input: PathModel)
    requires
        root.absolute,
        cwd.absolute,
        !input.absolute,
        depth_ok(cwd.parts + input.parts),
    ensures
        confine_spec(
            root,
            rerooted_spec(root, cwd, input),
            ResolutionModel::Resolved { depth: root.parts.len() as int, canonical: root },
        ) == Ok::<PathModel, PathError>(
            PathModel { absolute: true, parts: root.parts + (cwd.parts + input.parts) },
        ),
{
    let abs = PathModel { absolute: true, parts: cwd.parts + input.parts };
    lemma_nested_path_confined(root, cwd, abs);
    assert(rerooted_spec(root, cwd, input) =~= rerooted_spec(root, cwd, abs));
}

/// Re-confining is the identity when the sandbox root is the filesystem root
/// itself: a path the confiner accepted, fed back in unchanged and with no
/// ancestor resolving differently, is accepted again verbatim.  (Under a
/// deeper root the rerooting step prefixes the root a second time, so the
/// result, though still confined, is not the same path; see
/// [`lemma_reconfine_stays_confined`].)
pub proof fn lemma_reconfine_at_fs_root(
    root: PathModel,
    rerooted: PathModel,
    res: ResolutionModel,
    cwd2: PathModel,
    p: PathModel,
)
    requires
        root.absolute,
        root.parts == Seq::<Seq<char>>::empty(),
        rerooted.absolute,
        confine_spec(root, rerooted, res) == Ok::<PathModel, PathError>(p),
    ensures
        confine_spec(root, rerooted_spec(root, cwd2, p), ResolutionModel::Unresolved)
            == Ok::<PathModel, PathError>(p),
{
    match res {
        ResolutionModel::Failed => {
            assert(false);
        },
        _ => {
            assert(p.absolute);
            assert(p.parts.skip(0) =~= p.parts);
            let rr2 = rerooted_spec(root, cwd2, p);
            assert(rr2.parts =~= p.parts);
            assert(rr2 =~= p);
            assert(rr2.parts.take(0) =~= Seq::<Seq<char>>::empty());
        },
    }
}

/// Re-confining an accepted path never escapes: fed back in unchanged, with
/// no ancestor resolving differently, it is accepted again, now as the root
/// followed by the full already-confined path.
pub proof fn lemma_reconfine_stays_confined(
    root: PathModel,
    rerooted: PathModel,
    res: ResolutionModel,
    cwd2: PathModel,
    p: PathModel,
)
    requires
        root.absolute,
        depth_ok(root.parts),
        rerooted.absolute,
        confine_spec(root, rerooted, res) == Ok::<PathModel, PathError>(p),
    ensures
        confine_spec(root, rerooted_spec(root, cwd2, p), ResolutionModel::Unresolved)
            == Ok::<PathModel, PathError>(
            PathModel { absolute: true, parts: root.parts + p.parts },
        ),
{
    match res {
        ResolutionModel::Failed => {
            assert(false);
        },
        _ => {
            assert(p.absolute);
            let rl = root.parts.len() as int;
            assert(is_prefix_of(root.parts, p.parts));
            assert(depth_ok(p.parts.skip(rl)));
            lemma_take_skip_decomp(p.parts, rl);
            lemma_depth_ok_concat(root.parts, p.parts.skip(rl));
            assert(depth_ok(p.parts));
            let rr2 = rerooted_spec(root, cwd2, p);
            assert(rr2.parts == root.parts + p.parts);
            lemma_concat_take_skip(root.parts, p.parts);
        },
    }
}

} // verus!
