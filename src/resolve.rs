//! Resolving an untrusted request path to a location inside the document root.
//!
//! A path is a sequence of components, each held as the raw bytes that the
//! operating system uses for it. Filesystem access (joining and
//! canonicalizing) happens outside this module; the decisions that follow
//! from its outcomes are made and proved here.
use vstd::prelude::*;
use vstd::string::StringSliceAdditionalSpecFns;

verus! {

/// Why a request for a document was turned down.
#[derive(Debug, Clone, Copy, PartialEq, Eq, Structural)]
pub enum DocError {
    /// The target does not exist inside the root, or could not be resolved at all.
    NotFound,
    /// The target exists but resolves outside the root.
    Forbidden,
    /// The document root itself could not be established.
    InternalError,
    /// The target was resolved but could not be read.
    ReadFailure,
}

/// `p` is equal to `root` or lies below it: the components of `root` are the
/// first components of `p`. Paths are sequences of components, each the raw
/// bytes of one component (an absolute path starts with its root component).
/// Comparing whole components keeps `/docs-secret` out of a root `/docs`.
pub open spec fn within(root: Seq<Seq<u8>>, p: Seq<Seq<u8>>) -> bool {
    root.len() <= p.len() && p.subrange(0, root.len() as int) == root
}

/// Decides whether two path components are the same bytes.
fn same_component(a: &Vec<u8>, b: &Vec<u8>) -> (r: bool)
    ensures
        r == (a@ == b@),
{
    if a.len() != b.len() {
        return false;
    }
    let mut i: usize = 0;
    while i < a.len()
        invariant
            a@.len() == b@.len(),
            i <= a@.len(),
            forall|j: int| 0 <= j < i ==> a@[j] == b@[j],
        decreases a@.len() - i,
    {
        if a[i] != b[i] {
            return false;
        }
        i = i + 1;
    }
    assert(a@ =~= b@);
    true
}

/// Decides `within(root, p)` for two concrete paths.
pub fn is_within(root: &Vec<Vec<u8>>, p: &Vec<Vec<u8>>) -> (r: bool)
    ensures
        r == within(root.deep_view(), p.deep_view()),
{
    let n = root.len();
    if n > p.len() {
        return false;
    }
    let mut i: usize = 0;
    while i < n
        invariant
            n == root@.len(),
            n <= p@.len(),
            i <= n,
            forall|j: int| 0 <= j < i ==> p.deep_view()[j] == root.deep_view()[j],
        decreases n - i,
    {
        assert(p.deep_view()[i as int] == p@[i as int]@);
        assert(root.deep_view()[i as int] == root@[i as int]@);
        if !same_component(&p[i], &root[i]) {
            assert(p.deep_view().subrange(0, n as int)[i as int] != root.deep_view()[i as int]);
            return false;
        }
        i = i + 1;
    }
    assert(p.deep_view().subrange(0, n as int) =~= root.deep_view());
    true
}

/// A request path may go on to the filesystem: it is not empty (the empty
/// path would name the root directory itself, which is no document) and it
/// holds no NUL byte, which no filesystem path can contain.
pub open spec fn request_acceptable(requested: Seq<u8>) -> bool {
    requested.len() > 0 && !requested.contains(0u8)
}

/// Screens a request path before any filesystem call is made with it.
pub fn check_request(requested: &str) -> (r: Result<(), DocError>)
    ensures
        r == (if request_acceptable(requested.spec_bytes()) {
            Ok::<(), DocError>(())
        } else {
            Err(DocError::NotFound)
        }),
{
    let b = requested.as_bytes();
    if b.len() == 0 {
        return Err(DocError::NotFound);
    }
    let mut i: usize = 0;
    while i < b.len()
        invariant
            b@ == requested.spec_bytes(),
            i <= b@.len(),
            forall|j: int| 0 <= j < i ==> b@[j] != 0u8,
        decreases b@.len() - i,
    {
        if b[i] == 0u8 {
            assert(b@.contains(0u8));
            return Err(DocError::NotFound);
        }
        i = i + 1;
    }
    assert(!b@.contains(0u8));
    Ok(())
}

/// What resolution yields, given the outcomes of canonicalizing the root
/// (`None` where that failed) and the joined request path (likewise).
pub open spec fn resolution(root: Option<Seq<Seq<u8>>>, candidate: Option<Seq<Seq<u8>>>) -> Result<
    Seq<Seq<u8>>,
    DocError,
> {
    match root {
        None => Err(DocError::InternalError),
        Some(r) => match candidate {
            None => Err(DocError::NotFound),
            Some(c) => if within(r, c) {
                Ok(c)
            } else {
                Err(DocError::Forbidden)
            },
        },
    }
}

/// A canonical path that has been checked to lie inside a canonical root.
pub struct ValidatedPath {
    root: Vec<Vec<u8>>,
    path: Vec<Vec<u8>>,
}

impl ValidatedPath {
    #[verifier::type_invariant]
    spec fn inside(&self) -> bool {
        within(self.root.deep_view(), self.path.deep_view())
    }

    /// The canonical document root that the path was checked against.
    pub closed spec fn root_view(&self) -> Seq<Seq<u8>> {
        self.root.deep_view()
    }

    /// The canonical location itself.
    pub closed spec fn path_view(&self) -> Seq<Seq<u8>> {
        self.path.deep_view()
    }

    /// The canonical document root, as components.
    pub fn root(&self) -> (r: &Vec<Vec<u8>>)
        ensures
            r.deep_view() == self.root_view(),
    {
        &self.root
    }

    /// The validated location, as components; it lies inside the root, whatever produced it.
    pub fn path(&self) -> (r: &Vec<Vec<u8>>)
        ensures
            r.deep_view() == self.path_view(),
            within(self.root_view(), r.deep_view()),
    {
        proof {
            use_type_invariant(self);
        }
        &self.path
    }
}

/// Views a resolution result by the location it validated.
pub open spec fn outcome_view(r: Result<ValidatedPath, DocError>) -> Result<
    Seq<Seq<u8>>,
    DocError,
> {
    match r {
        Ok(v) => Ok(v.path_view()),
        Err(e) => Err(e),
    }
}

/// Decides a request from the canonical forms of the document root and of
/// the root joined with the request path, `None` standing for a failed
/// canonicalization.
pub fn resolve(root: Option<Vec<Vec<u8>>>, candidate: Option<Vec<Vec<u8>>>) -> (r: Result<
    ValidatedPath,
    DocError,
>)
    ensures
        outcome_view(r) == resolution(root.deep_view(), candidate.deep_view()),
        r matches Ok(v) ==> root matches Some(rb) && v.root_view() == rb.deep_view(),
{
    match root {
        None => Err(DocError::InternalError),
        Some(rb) => match candidate {
            None => Err(DocError::NotFound),
            Some(cb) => {
                if is_within(&rb, &cb) {
                    Ok(ValidatedPath { root: rb, path: cb })
                } else {
                    Err(DocError::Forbidden)
                }
            },
        },
    }
}

/// A location inside the root (the root itself included) is resolved to
/// exactly that location.
pub proof fn lemma_inside_resolves(root: Seq<Seq<u8>>, candidate: Seq<Seq<u8>>)
    requires
        within(root, candidate),
    ensures
        resolution(Some(root), Some(candidate)) == Ok::<Seq<Seq<u8>>, DocError>(candidate),
{
}

/// Whatever canonicalization produced, resolution succeeds only with a
/// location inside the root; a location outside it is forbidden.
pub proof fn lemma_outside_never_resolves(root: Seq<Seq<u8>>, candidate: Option<Seq<Seq<u8>>>)
    ensures
        resolution(Some(root), candidate) matches Ok(p) ==> within(root, p),
        candidate matches Some(c) && !within(root, c) ==> resolution(Some(root), candidate)
            == Err::<Seq<Seq<u8>>, DocError>(DocError::Forbidden),
{
}

/// A request whose target does not exist (canonicalization failed) is not found.
pub proof fn lemma_missing_not_found(root: Seq<Seq<u8>>)
    ensures
        resolution(Some(root), None) == Err::<Seq<Seq<u8>>, DocError>(DocError::NotFound),
{
}

} // verus!
