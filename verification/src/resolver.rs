//! Maps a request URI to the script to execute and a residual path.
//!
//! The resolver reproduces classic front-controller emulation: an explicit
//! script segment in the path wins, otherwise the deepest directory on the
//! path that holds a front controller (`index.php`) serves the request, and
//! whatever follows the matched prefix becomes the residual `path_info`.
//!
//! The filesystem is passed in as an immutable snapshot of file paths, so
//! resolution is a pure function of the snapshot and the URI.

use vstd::prelude::*;

use crate::bytes_util::bytes_eq;
use crate::bytes_util::ends_with;
use crate::bytes_util::push_all;
use crate::bytes_util::to_vec;

verus! {

broadcast use crate::bytes_util::lemma_bytes_deep_view;

/// ASCII for `.php`, the script extension.
pub const SCRIPT_EXT: [u8; 4] = [46u8, 112u8, 104u8, 112u8];

/// ASCII for `/index.php`, a slash followed by the front-controller name.
pub const FRONT_CONTROLLER: [u8; 10] = [
    47u8,
    105u8,
    110u8,
    100u8,
    101u8,
    120u8,
    46u8,
    112u8,
    104u8,
    112u8,
];

/// The outcome of resolution: the script to run and the residual path.
pub struct Route {
    pub script_name: Vec<u8>,
    pub path_info: Option<Vec<u8>>,
}

/// Mathematical image of a [`Route`].
pub ghost struct RouteSpec {
    pub script_name: Seq<u8>,
    pub path_info: Option<Seq<u8>>,
}

impl View for Route {
    type V = RouteSpec;

    open spec fn view(&self) -> RouteSpec {
        RouteSpec {
            script_name: self.script_name@,
            path_info: match self.path_info {
                Option::Some(p) => Option::Some(p@),
                Option::None => Option::None,
            },
        }
    }
}

/// An immutable snapshot of the document root: the set of file paths that
/// exist under it, each written root-relative with a leading slash.
pub struct FsSnapshot {
    files: Vec<Vec<u8>>,
}

impl View for FsSnapshot {
    type V = Seq<Seq<u8>>;

    closed spec fn view(&self) -> Seq<Seq<u8>> {
        self.files.deep_view()
    }
}

/// The snapshot records a file with path `p`.
pub open spec fn has_file(files: Seq<Seq<u8>>, p: Seq<u8>) -> bool {
    exists|i: int| 0 <= i < files.len() && files[i] == p
}

impl FsSnapshot {
    /// Wraps a list of root-relative file paths as a snapshot.
    pub fn new(files: Vec<Vec<u8>>) -> (r: Self)
        ensures
            r@ == files.deep_view(),
    {
        FsSnapshot { files }
    }

    /// Whether the snapshot holds a file with exactly the path `p`.
    pub fn is_file(&self, p: &[u8]) -> (r: bool)
        ensures
            r == has_file(self@, p@),
    {
        let n = self.files.len();
        let mut i: usize = 0;
        while i < n
            invariant
                n == self.files@.len(),
                i <= n,
                forall|j: int| 0 <= j < i ==> self@[j] != p@,
            decreases n - i,
        {
            if bytes_eq(self.files[i].as_slice(), p) {
                assert(self@[i as int] == p@);
                return true;
            }
            i += 1;
        }
        false
    }
}

/// Splits the path part of `s` (up to `?`) into its nonempty `/`-separated
/// segments; `cur` and `acc` carry the segment and list built so far.
pub open spec fn split_req(s: Seq<u8>, cur: Seq<u8>, acc: Seq<Seq<u8>>) -> Seq<Seq<u8>>
    decreases s.len(),
{
    if s.len() == 0 || s[0] == 63 {
        if cur.len() == 0 {
            acc
        } else {
            acc.push(cur)
        }
    } else if s[0] == 47 {
        split_req(
            s.drop_first(),
            Seq::empty(),
            if cur.len() == 0 {
                acc
            } else {
                acc.push(cur)
            },
        )
    } else {
        split_req(s.drop_first(), cur.push(s[0]), acc)
    }
}

/// The nonempty segments of the path part of `uri`.
pub open spec fn segments_of(uri: Seq<u8>) -> Seq<Seq<u8>> {
    split_req(uri, Seq::empty(), Seq::empty())
}

/// Splits a request URI into the nonempty segments of its path part,
/// dropping the query string and any leading, trailing or doubled slashes.
pub fn segments(uri: &[u8]) -> (r: Vec<Vec<u8>>)
    ensures
        r.deep_view() == segments_of(uri@),
{
    let n = uri.len();
    let mut acc: Vec<Vec<u8>> = Vec::new();
    let mut cur: Vec<u8> = Vec::new();
    let mut i: usize = 0;
    proof {
        assert(acc.deep_view() =~= Seq::<Seq<u8>>::empty());
        assert(uri@.skip(0) =~= uri@);
    }
    while i < n
        invariant
            n == uri@.len(),
            i <= n,
            split_req(uri@.skip(i as int), cur@, acc.deep_view()) == segments_of(uri@),
        decreases n - i,
    {
        let ghost s = uri@.skip(i as int);
        let ghost old_cur = cur@;
        let ghost old_acc = acc.deep_view();
        let b = uri[i];
        proof {
            assert(s.drop_first() =~= uri@.skip(i as int + 1));
            assert(s[0] == b);
            assert(s.len() > 0);
        }
        if b == 63 {
            if cur.len() > 0 {
                let seg = cur;
                acc.push(seg);
                proof {
                    assert(acc.deep_view() =~= old_acc.push(old_cur));
                }
            }
            proof {
                assert(split_req(s, old_cur, old_acc) == acc.deep_view());
            }
            return acc;
        } else if b == 47 {
            if cur.len() > 0 {
                let seg = cur;
                acc.push(seg);
                cur = Vec::new();
                proof {
                    assert(acc.deep_view() =~= old_acc.push(old_cur));
                    assert(cur@ =~= Seq::<u8>::empty());
                    assert(split_req(s, old_cur, old_acc) == split_req(
                        s.drop_first(),
                        Seq::empty(),
                        old_acc.push(old_cur),
                    ));
                }
            } else {
                proof {
                    assert(old_cur =~= Seq::<u8>::empty());
                    assert(split_req(s, old_cur, old_acc) == split_req(
                        s.drop_first(),
                        Seq::empty(),
                        old_acc,
                    ));
                }
            }
        } else {
            cur.push(b);
            proof {
                assert(cur@ =~= old_cur.push(b));
                assert(split_req(s, old_cur, old_acc) == split_req(
                    s.drop_first(),
                    old_cur.push(b),
                    old_acc,
                ));
            }
        }
        i += 1;
    }
    proof {
        assert(uri@.skip(n as int) =~= Seq::<u8>::empty());
    }
    if cur.len() > 0 {
        let seg = cur;
        let ghost pre_acc = acc.deep_view();
        acc.push(seg);
        proof {
            assert(acc.deep_view() =~= pre_acc.push(seg@));
        }
    }
    acc
}

/// `/`-prefixed join of the segments with indices in `[from, to)`.
pub open spec fn joined_range(segs: Seq<Seq<u8>>, from: int, to: int) -> Seq<u8>
    decreases to - from,
{
    if to <= from {
        Seq::empty()
    } else {
        joined_range(segs, from, to - 1) + seq![47u8] + segs[to - 1]
    }
}

/// Builds the `/`-prefixed join of `segs[from..to]`.
pub fn join_range(segs: &Vec<Vec<u8>>, from: usize, to: usize) -> (r: Vec<u8>)
    requires
        to <= segs@.len(),
    ensures
        r@ == joined_range(segs.deep_view(), from as int, to as int),
{
    let mut r: Vec<u8> = Vec::new();
    let mut j: usize = from;
    if from >= to {
        assert(r@ =~= joined_range(segs.deep_view(), from as int, to as int));
        return r;
    }
    while j < to
        invariant
            from <= j <= to <= segs@.len(),
            r@ == joined_range(segs.deep_view(), from as int, j as int),
        decreases to - j,
    {
        r.push(47u8);
        push_all(&mut r, segs[j].as_slice());
        proof {
            assert(segs.deep_view()[j as int] == segs@[j as int]@);
            assert(r@ =~= joined_range(segs.deep_view(), from as int, j as int) + seq![47u8]
                + segs.deep_view()[j as int]);
        }
        j += 1;
    }
    r
}

/// The path ends in the script extension.
pub open spec fn ends_with_ext(p: Seq<u8>) -> bool {
    p.len() >= SCRIPT_EXT@.len() && p.subrange(p.len() - SCRIPT_EXT@.len(), p.len() as int)
        == SCRIPT_EXT@
}

/// Residual path left when the first `k` segments were consumed: `None` when
/// nothing remains, otherwise the `/`-prefixed join of the rest.
pub open spec fn rest_info(segs: Seq<Seq<u8>>, k: int) -> Option<Seq<u8>> {
    if k == segs.len() {
        Option::None
    } else {
        Option::Some(joined_range(segs, k, segs.len() as int))
    }
}

/// The route served at depth `k`, if the snapshot offers one: an explicit
/// script formed by the first `k` segments, else a front controller in that
/// directory.
pub open spec fn candidate_at(files: Seq<Seq<u8>>, segs: Seq<Seq<u8>>, k: int) -> Option<
    RouteSpec,
> {
    let prefix = joined_range(segs, 0, k);
    if ends_with_ext(prefix) && has_file(files, prefix) {
        Option::Some(RouteSpec { script_name: prefix, path_info: rest_info(segs, k) })
    } else if has_file(files, prefix + FRONT_CONTROLLER@) {
        Option::Some(
            RouteSpec { script_name: prefix + FRONT_CONTROLLER@, path_info: rest_info(segs, k) },
        )
    } else {
        Option::None
    }
}

/// Resolution result when all depths in `(k, n]` offered no route: the first
/// match walking from depth `k` down, or the root front controller with the
/// whole path as residual.
pub open spec fn resolve_rec(files: Seq<Seq<u8>>, segs: Seq<Seq<u8>>, k: int) -> RouteSpec
    decreases k,
{
    if k <= 0 {
        RouteSpec { script_name: FRONT_CONTROLLER@, path_info: rest_info(segs, 0) }
    } else {
        match candidate_at(files, segs, k) {
            Option::Some(r) => r,
            Option::None => resolve_rec(files, segs, k - 1),
        }
    }
}

/// The route for `uri` against the snapshot `files`.
pub open spec fn spec_resolve(files: Seq<Seq<u8>>, uri: Seq<u8>) -> RouteSpec {
    resolve_rec(files, segments_of(uri), segments_of(uri).len() as int)
}

/// Residual path for segments `k..` as a vector.
fn rest_exec(segs: &Vec<Vec<u8>>, k: usize) -> (r: Option<Vec<u8>>)
    requires
        k <= segs@.len(),
    ensures
        (match r {
            Option::Some(p) => rest_info(segs.deep_view(), k as int) == Option::Some(p@),
            Option::None => rest_info(segs.deep_view(), k as int) is None,
        }),
{
    if k == segs.len() {
        None
    } else {
        Some(join_range(segs, k, segs.len()))
    }
}

/// Resolves `uri` against the snapshot: the deepest explicit script or front
/// controller wins; with no match anywhere the root front controller is
/// returned with the whole cleaned path as residual.
pub fn resolve(fs: &FsSnapshot, uri: &[u8]) -> (r: Route)
    ensures
        r@ == spec_resolve(fs@, uri@),
{
    let segs = segments(uri);
    let ghost gsegs = segs.deep_view();
    let n = segs.len();
    proof {
        assert(gsegs.len() == segs@.len());
    }
    let mut k: usize = n;
    while k >= 1
        invariant
            n == segs@.len(),
            gsegs == segs.deep_view(),
            gsegs == segments_of(uri@),
            k <= n,
            resolve_rec(fs@, gsegs, n as int) == resolve_rec(fs@, gsegs, k as int),
        decreases k,
    {
        let prefix = join_range(&segs, 0, k);
        if ends_with(prefix.as_slice(), SCRIPT_EXT.as_slice()) && fs.is_file(prefix.as_slice()) {
            let info = rest_exec(&segs, k);
            let r = Route { script_name: prefix, path_info: info };
            assert(r@ == resolve_rec(fs@, gsegs, k as int));
            return r;
        }
        let mut fc = prefix;
        push_all(&mut fc, FRONT_CONTROLLER.as_slice());
        if fs.is_file(fc.as_slice()) {
            let info = rest_exec(&segs, k);
            let r = Route { script_name: fc, path_info: info };
            assert(r@ == resolve_rec(fs@, gsegs, k as int));
            return r;
        }
        assert(candidate_at(fs@, gsegs, k as int) is None);
        k -= 1;
    }
    let info = rest_exec(&segs, 0);
    let r = Route { script_name: to_vec(FRONT_CONTROLLER.as_slice()), path_info: info };
    assert(r@ == resolve_rec(fs@, gsegs, 0));
    r
}

/// A request path that is routed to the engine outright: directory-style
/// paths and explicit script paths.
pub open spec fn spec_wants_engine(path: Seq<u8>) -> bool {
    (path.len() > 0 && path.last() == 47) || ends_with_ext(path)
}

/// Whether a request path goes straight to the engine — it ends in a slash
/// or in the script extension. Any other path is tried as a static file
/// first and falls back to the engine.
pub fn wants_engine(path: &[u8]) -> (r: bool)
    ensures
        r == spec_wants_engine(path@),
{
    if path.len() > 0 && path[path.len() - 1] == 47 {
        true
    } else {
        ends_with(path, SCRIPT_EXT.as_slice())
    }
}

proof fn lemma_split_trailing_slash(s: Seq<u8>, cur: Seq<u8>, acc: Seq<Seq<u8>>)
    requires
        forall|i: int| 0 <= i < s.len() ==> s[i] != 63,
    ensures
        split_req(s + seq![47u8], cur, acc) == split_req(s, cur, acc),
    decreases s.len(),
{
    let t = s + seq![47u8];
    if s.len() == 0 {
        let acc2 = if cur.len() == 0 {
            acc
        } else {
            acc.push(cur)
        };
        assert(t.len() == 1 && t[0] == 47);
        assert(t.drop_first() =~= Seq::<u8>::empty());
        assert(split_req(t, cur, acc) == split_req(Seq::<u8>::empty(), Seq::<u8>::empty(), acc2));
        assert(split_req(Seq::<u8>::empty(), Seq::<u8>::empty(), acc2) == acc2);
        assert(split_req(s, cur, acc) == acc2);
    } else {
        assert(t[0] == s[0]);
        assert(t.drop_first() =~= s.drop_first() + seq![47u8]);
        if s[0] == 47 {
            lemma_split_trailing_slash(
                s.drop_first(),
                Seq::empty(),
                if cur.len() == 0 {
                    acc
                } else {
                    acc.push(cur)
                },
            );
        } else {
            lemma_split_trailing_slash(s.drop_first(), cur.push(s[0]), acc);
        }
    }
}

/// A trailing slash does not change the result: a URI without a query
/// string resolves exactly as the same URI with one more slash at its end.
pub proof fn lemma_trailing_slash_irrelevant(files: Seq<Seq<u8>>, uri: Seq<u8>)
    requires
        forall|i: int| 0 <= i < uri.len() ==> uri[i] != 63,
    ensures
        spec_resolve(files, uri + seq![47u8]) == spec_resolve(files, uri),
{
    lemma_split_trailing_slash(uri, Seq::empty(), Seq::empty());
}

/// Route resolution is deterministic: for a fixed snapshot, equal URIs
/// resolve to the same script and residual path. Together with the exact
/// postcondition of [`resolve`], every call returns `spec_resolve`, a pure
/// function of the snapshot and the URI.
pub proof fn lemma_resolve_deterministic(files: Seq<Seq<u8>>, uri1: Seq<u8>, uri2: Seq<u8>)
    requires
        uri1 == uri2,
    ensures
        spec_resolve(files, uri1) == spec_resolve(files, uri2),
{
}

} // verus!
