//! Relative paths as sequences of components, and the two leaf stages that
//! compute with them: mapping a URL to a storage path, and resolving a path
//! under a base directory.
use vstd::prelude::*;

use crate::error::Error;
use crate::pipe::{Duplicate, Pipe};
use vstd::string::{StrSliceExecFns, StringSliceAdditionalSpecFns};
use vstd::utf8::encode_utf8;

verus! {

/// The byte `/`, which separates path components.
pub const SLASH: u8 = 47;

/// The byte `.`; the components `.` and `..` name the current and the
/// parent directory.
pub const DOT: u8 = 46;

/// The components of a path, each as its bytes.
pub open spec fn comps(v: Seq<Vec<u8>>) -> Seq<Seq<u8>> {
    v.map_values(|c: Vec<u8>| c@)
}

/// The bytes after the last `/` of `p` (all of `p` when it has none).
pub open spec fn last_piece(p: Seq<u8>) -> Seq<u8>
    decreases p.len(),
{
    if p.len() == 0 {
        Seq::empty()
    } else if p.last() == SLASH {
        Seq::empty()
    } else {
        last_piece(p.drop_last()).push(p.last())
    }
}

/// The non-empty pieces of `p` that a `/` closes, in order.
pub open spec fn closed_pieces(p: Seq<u8>) -> Seq<Seq<u8>>
    decreases p.len(),
{
    if p.len() == 0 {
        Seq::empty()
    } else if p.last() == SLASH && last_piece(p.drop_last()).len() > 0 {
        closed_pieces(p.drop_last()).push(last_piece(p.drop_last()))
    } else {
        closed_pieces(p.drop_last())
    }
}

/// The non-empty `/`-separated pieces of `p`, in order.
pub open spec fn segments(p: Seq<u8>) -> Seq<Seq<u8>> {
    if last_piece(p).len() > 0 {
        closed_pieces(p).push(last_piece(p))
    } else {
        closed_pieces(p)
    }
}

/// Splits `p` into its non-empty `/`-separated pieces.
pub fn split_segments(p: &Vec<u8>) -> (r: Vec<Vec<u8>>)
    ensures
        comps(r@) == segments(p@),
{
    let mut out: Vec<Vec<u8>> = Vec::new();
    let mut cur: Vec<u8> = Vec::new();
    let mut i: usize = 0;
    while i < p.len()
        invariant
            i <= p@.len(),
            cur@ == last_piece(p@.take(i as int)),
            comps(out@) == closed_pieces(p@.take(i as int)),
        decreases p.len() - i,
    {
        let b = p[i];
        proof {
            assert(p@.take(i + 1).drop_last() == p@.take(i as int));
        }
        if b == SLASH {
            if cur.len() > 0 {
                let piece = cur;
                out.push(piece);
                assert(comps(out@) == comps(out@).drop_last().push(piece@));
                cur = Vec::new();
            }
        } else {
            cur.push(b);
        }
        i = i + 1;
    }
    proof {
        assert(p@.take(i as int) == p@);
    }
    if cur.len() > 0 {
        out.push(cur);
    }
    assert(comps(out@) =~= segments(p@));
    out
}

/// The file name that stands for a URL path ending in `/`.
pub open spec fn index_name() -> Seq<u8> {
    seq![105u8, 110u8, 100u8, 101u8, 120u8, 46u8, 104u8, 116u8, 109u8, 108u8]
}

fn index_file() -> (r: Vec<u8>)
    ensures
        r@ == index_name(),
{
    let r = vec![105u8, 110u8, 100u8, 101u8, 120u8, 46u8, 104u8, 116u8, 109u8, 108u8];
    assert(r@ =~= index_name());
    r
}

/// A web address: its whole text, and the parts that the path mapping
/// reads (its scheme, its host and its path).
pub struct WebUrl {
    pub text: String,
    pub scheme: String,
    pub host: String,
    pub path: String,
}

impl Duplicate for WebUrl {
    fn duplicate(&self) -> (r: WebUrl) {
        WebUrl {
            text: self.text.clone(),
            scheme: self.scheme.clone(),
            host: self.host.clone(),
            path: self.path.clone(),
        }
    }
}

/// The storage path of a web address: the scheme, the host, then the
/// path's pieces, and `index.html` where the path ends in `/`.
pub open spec fn url_to_path(scheme: Seq<u8>, host: Seq<u8>, path: Seq<u8>) -> Seq<Seq<u8>> {
    let p = seq![scheme, host] + segments(path);
    if path.len() > 0 && path.last() == SLASH {
        p.push(index_name())
    } else {
        p
    }
}

/// Maps a web address to the relative path it is stored under.
pub struct UrlToPathPipe();

impl Pipe for UrlToPathPipe {
    type In = WebUrl;
    type Out = Vec<Vec<u8>>;

    open spec fn produces(&self, i: WebUrl, r: Result<Vec<Vec<u8>>, Error>) -> bool {
        r is Ok && comps(r->Ok_0@) == url_to_path(
            encode_utf8(i.scheme@),
            encode_utf8(i.host@),
            encode_utf8(i.path@),
        )
    }

    fn pipe(&self, i: WebUrl) -> (r: Result<Vec<Vec<u8>>, Error>) {
        let scheme_bytes = i.scheme.as_str().as_bytes_vec();
        let host_bytes = i.host.as_str().as_bytes_vec();
        let path_bytes = i.path.as_str().as_bytes_vec();
        let ends_in_slash = path_bytes.len() > 0 && path_bytes[path_bytes.len() - 1] == SLASH;
        let pieces = split_segments(&path_bytes);
        let ghost (scheme, host) = (scheme_bytes@, host_bytes@);
        let mut out: Vec<Vec<u8>> = Vec::new();
        out.push(scheme_bytes);
        out.push(host_bytes);
        assert(comps(out@) =~= seq![scheme, host] + comps(pieces@.take(0)));
        let mut k: usize = 0;
        while k < pieces.len()
            invariant
                k <= pieces@.len(),
                comps(out@) == seq![scheme, host] + comps(pieces@.take(k as int)),
            decreases pieces.len() - k,
        {
            let c = pieces[k].clone();
            assert(c@ =~= pieces@[k as int]@);
            let ghost before = out@;
            out.push(c);
            assert(comps(out@) =~= comps(before).push(c@));
            assert(comps(pieces@.take(k + 1)) =~= comps(pieces@.take(k as int)).push(c@));
            assert(comps(out@) =~= seq![scheme, host] + comps(pieces@.take(k + 1)));
            k = k + 1;
        }
        assert(pieces@.take(k as int) == pieces@);
        if ends_in_slash {
            out.push(index_file());
        }
        proof {
            assert(comps(out@) =~= url_to_path(scheme, host, path_bytes@));
        }
        Ok(out)
    }
}

/// The path reached from `base` by following the components of `rel`: a
/// `..` leaves the last component (where there is one), `.` and empty
/// components stay in place, and any other component is entered.
pub open spec fn resolve(base: Seq<Seq<u8>>, rel: Seq<Seq<u8>>) -> Seq<Seq<u8>>
    decreases rel.len(),
{
    if rel.len() == 0 {
        base
    } else {
        let prev = resolve(base, rel.drop_last());
        let c = rel.last();
        if c == seq![DOT, DOT] {
            if prev.len() > 0 {
                prev.drop_last()
            } else {
                prev
            }
        } else if c == seq![DOT] || c.len() == 0 {
            prev
        } else {
            prev.push(c)
        }
    }
}

fn copy_bytes(c: &Vec<u8>) -> (r: Vec<u8>)
    ensures
        r@ == c@,
{
    let r = c.clone();
    assert(r@ =~= c@);
    r
}

/// Where files are stored: a base directory, under which each relative
/// path is resolved.
pub struct FsPipe {
    base_path: Vec<Vec<u8>>,
    rooted: bool,
}

impl FsPipe {
    /// The base directory's components.
    pub closed spec fn base(&self) -> Seq<Seq<u8>> {
        comps(self.base_path@)
    }

    /// Whether the base directory starts at the file system's root.
    pub closed spec fn rooted(&self) -> bool {
        self.rooted
    }

    /// Stores under the directory `s`, whose components are separated by
    /// `/`.
    pub fn new(s: &str) -> (r: FsPipe)
        ensures
            r.base() == segments(s.spec_bytes()),
            r.rooted() == (s.spec_bytes().len() > 0 && s.spec_bytes()[0] == SLASH),
    {
        let v = s.as_bytes_vec();
        let rooted = v.len() > 0 && v[0] == SLASH;
        FsPipe { base_path: split_segments(&v), rooted }
    }

    /// Whether the base directory starts at the file system's root.
    pub fn is_rooted(&self) -> (r: bool)
        ensures
            r == self.rooted(),
    {
        self.rooted
    }

    /// The components of the path that `rel` names under the base
    /// directory.
    pub fn target(&self, rel: &Vec<Vec<u8>>) -> (r: Vec<Vec<u8>>)
        ensures
            comps(r@) == resolve(self.base(), comps(rel@)),
    {
        let mut out: Vec<Vec<u8>> = Vec::new();
        let mut j: usize = 0;
        while j < self.base_path.len()
            invariant
                j <= self.base_path@.len(),
                comps(out@) == comps(self.base_path@.take(j as int)),
            decreases self.base_path.len() - j,
        {
            let c = copy_bytes(&self.base_path[j]);
            let ghost before = out@;
            out.push(c);
            assert(comps(out@) =~= comps(before).push(c@));
            assert(comps(self.base_path@.take(j + 1)) =~= comps(self.base_path@.take(j as int)).push(c@));
            j = j + 1;
        }
        assert(self.base_path@.take(j as int) == self.base_path@);
        assert(comps(rel@.take(0)) =~= Seq::<Seq<u8>>::empty());
        let mut k: usize = 0;
        while k < rel.len()
            invariant
                k <= rel@.len(),
                comps(out@) == resolve(self.base(), comps(rel@.take(k as int))),
            decreases rel.len() - k,
        {
            let c = &rel[k];
            proof {
                assert(comps(rel@.take(k + 1)).drop_last() =~= comps(rel@.take(k as int)));
                assert(comps(rel@.take(k + 1)).last() == c@);
            }
            let ghost before = out@;
            if c.len() == 2 && c[0] == DOT && c[1] == DOT {
                assert(c@ =~= seq![DOT, DOT]);
                if out.len() > 0 {
                    out.pop();
                    assert(comps(out@) =~= comps(before).drop_last());
                }
            } else if c.len() == 0 || (c.len() == 1 && c[0] == DOT) {
                assert(c.len() == 1 ==> c@ =~= seq![DOT]);
            } else {
                assert(c@ != seq![DOT, DOT]);
                assert(c@ != seq![DOT]);
                let d = copy_bytes(c);
                out.push(d);
                assert(comps(out@) =~= comps(before).push(c@));
            }
            k = k + 1;
        }
        assert(rel@.take(k as int) == rel@);
        out
    }
}

} // verus!
