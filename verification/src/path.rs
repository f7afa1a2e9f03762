//! File-system paths modelled by their components, the way `std::path`
//! compares, joins and strips them: a path is absolute or relative, and has a
//! sequence of components. Empty components do not count, and neither does
//! `.`, except as the first component of a relative path (`./a` is not `a`).
use vstd::prelude::*;

use crate::text::{extend_chars, from_chars, to_chars};

verus! {

/// The mathematical model of a path.
pub struct PathView {
    /// Whether the path starts at the root directory.
    pub absolute: bool,
    /// The named components, in order.
    pub parts: Seq<Seq<char>>,
}

/// A file-system path.
pub struct FsPath {
    absolute: bool,
    parts: Vec<String>,
}

impl View for FsPath {
    type V = PathView;

    closed spec fn view(&self) -> PathView {
        PathView { absolute: self.absolute, parts: self.parts@.map_values(|p: String| p@) }
    }
}

/// A component that a path keeps: non-empty and not `.`.
pub open spec fn kept(part: Seq<char>) -> Seq<Seq<char>> {
    if part.len() == 0 || part == seq!['.'] {
        Seq::empty()
    } else {
        seq![part]
    }
}

/// The components of `s` that end before its last `/`, and the text after it.
pub open spec fn scan_parts(s: Seq<char>) -> (Seq<Seq<char>>, Seq<char>)
    decreases s.len(),
{
    if s.len() == 0 {
        (Seq::empty(), Seq::empty())
    } else {
        let (done, cur) = scan_parts(s.drop_last());
        if s.last() == '/' {
            (done + kept(cur), Seq::empty())
        } else {
            (done, cur.push(s.last()))
        }
    }
}

/// Whether the text `s` begins with the component `.`: it is `.` or starts
/// with `./`.
pub open spec fn leads_with_cur_dir(s: Seq<char>) -> bool {
    s.len() > 0 && s[0] == '.' && (s.len() == 1 || s[1] == '/')
}

/// The path that the text `s` names (`Path::new(s)`): a leading `.`
/// component is kept, the other `.` components are not.
pub open spec fn parse_path(s: Seq<char>) -> PathView {
    let (done, cur) = scan_parts(s);
    let ps = done + kept(cur);
    PathView {
        absolute: s.len() > 0 && s[0] == '/',
        parts: if leads_with_cur_dir(s) {
            seq![seq!['.']] + ps
        } else {
            ps
        },
    }
}

/// Whether the first component of `p` is `.`.
pub open spec fn starts_with_cur_dir(p: PathView) -> bool {
    p.parts.len() > 0 && p.parts[0] == seq!['.']
}

/// Whether `p` is the empty path: relative, without components.
pub open spec fn is_empty_path(p: PathView) -> bool {
    !p.absolute && p.parts.len() == 0
}

/// The components joined with `/`.
pub open spec fn join_parts(parts: Seq<Seq<char>>) -> Seq<char>
    decreases parts.len(),
{
    if parts.len() == 0 {
        Seq::empty()
    } else if parts.len() == 1 {
        parts[0]
    } else {
        join_parts(parts.drop_last()) + seq!['/'] + parts.last()
    }
}

/// The text of a path (`Path::display`): its components joined with `/`,
/// after a leading `/` when it is absolute.
pub open spec fn display_path(p: PathView) -> Seq<char> {
    if p.absolute {
        seq!['/'] + join_parts(p.parts)
    } else {
        join_parts(p.parts)
    }
}

/// `base` joined with `rel` (`Path::join`): an absolute `rel` replaces `base`,
/// the empty `base` gives `rel`, and a leading `.` of `rel` no longer leads
/// and is dropped.
pub open spec fn join_path(base: PathView, rel: PathView) -> PathView {
    if rel.absolute || is_empty_path(base) {
        rel
    } else if starts_with_cur_dir(rel) {
        PathView { absolute: base.absolute, parts: base.parts + rel.parts.drop_first() }
    } else {
        PathView { absolute: base.absolute, parts: base.parts + rel.parts }
    }
}

/// The rest of `p` after `base` (`Path::strip_prefix`), or `None` when the
/// components of `base` (the root directory of an absolute path among them)
/// do not begin those of `p`. The empty `base` begins every path, and the rest
/// is then `p` itself, absolute if `p` is.
pub open spec fn strip_path_prefix(p: PathView, base: PathView) -> Option<PathView> {
    if is_empty_path(base) {
        Some(p)
    } else if p.absolute == base.absolute && base.parts.len() <= p.parts.len() && p.parts.take(
        base.parts.len() as int,
    ) == base.parts {
        Some(PathView { absolute: false, parts: p.parts.skip(base.parts.len() as int) })
    } else {
        None
    }
}

/// `p` and each of its parents, nearest first (`Path::ancestors`).
pub open spec fn ancestors(p: PathView) -> Seq<PathView> {
    Seq::new(
        p.parts.len() + 1,
        |i: int| PathView { absolute: p.absolute, parts: p.parts.take(p.parts.len() - i) },
    )
}

/// Joining a relative path onto `base` and then stripping `base` gives the
/// relative path back, unless a leading `.` of it was dropped by the join.
pub proof fn lemma_strip_join(base: PathView, rel: PathView)
    requires
        !rel.absolute,
        !starts_with_cur_dir(rel) || is_empty_path(base),
    ensures
        strip_path_prefix(join_path(base, rel), base) == Some(rel),
{
    let j = join_path(base, rel);
    assert(j.parts.take(base.parts.len() as int) =~= base.parts);
    assert(j.parts.skip(base.parts.len() as int) =~= rel.parts);
}

/// A path is a prefix of itself, and the rest is the empty relative path.
pub proof fn lemma_strip_self(p: PathView)
    ensures
        strip_path_prefix(p, p) == Some(PathView { absolute: false, parts: Seq::<Seq<char>>::empty() }),
{
    assert(p.parts.take(p.parts.len() as int) =~= p.parts);
    assert(p.parts.skip(p.parts.len() as int) =~= Seq::<Seq<char>>::empty());
}

/// A component that text can name: not empty, not `.`, and without `/`
/// (`.` is only named as the first component of a relative path).
pub open spec fn wf_part(part: Seq<char>) -> bool {
    &&& part.len() > 0
    &&& part != seq!['.']
    &&& forall|i: int| 0 <= i < part.len() ==> part[i] != '/'
}

/// A path all of whose components text can name.
pub open spec fn wf_path(p: PathView) -> bool {
    forall|i: int|
        0 <= i < p.parts.len() ==> wf_part(#[trigger] p.parts[i]) || (i == 0 && !p.absolute
            && p.parts[i] == seq!['.'])
}

proof fn lemma_scan_append_plain(s: Seq<char>, y: Seq<char>)
    requires
        forall|i: int| 0 <= i < y.len() ==> y[i] != '/',
    ensures
        scan_parts(s + y) == (scan_parts(s).0, scan_parts(s).1 + y),
    decreases y.len(),
{
    if y.len() == 0 {
        assert(s + y =~= s);
        assert(scan_parts(s).1 + y =~= scan_parts(s).1);
    } else {
        let y0 = y.drop_last();
        lemma_scan_append_plain(s, y0);
        assert((s + y).drop_last() =~= s + y0);
        assert((s + y).last() == y.last());
        assert(scan_parts(s).1 + y =~= (scan_parts(s).1 + y0).push(y.last()));
    }
}

proof fn lemma_scan_after_slash(s: Seq<char>, t: Seq<char>)
    requires
        s.len() > 0,
        s.last() == '/',
    ensures
        scan_parts(s + t) == (scan_parts(s).0 + scan_parts(t).0, scan_parts(t).1),
    decreases t.len(),
{
    if t.len() == 0 {
        assert(s + t =~= s);
        assert(scan_parts(s).1 == Seq::<char>::empty());
        assert(scan_parts(s).0 + scan_parts(t).0 =~= scan_parts(s).0);
    } else {
        let t0 = t.drop_last();
        lemma_scan_after_slash(s, t0);
        assert((s + t).drop_last() =~= s + t0);
        assert((s + t).last() == t.last());
        if t.last() == '/' {
            assert(scan_parts(s).0 + scan_parts(t0).0 + kept(scan_parts(t0).1) =~= scan_parts(s).0 + (
            scan_parts(t0).0 + kept(scan_parts(t0).1)));
        }
    }
}

proof fn lemma_scan_join(ps: Seq<Seq<char>>)
    requires
        ps.len() >= 1,
        forall|i: int| 0 <= i < ps.len() ==> wf_part(#[trigger] ps[i]),
    ensures
        scan_parts(join_parts(ps)) == (ps.drop_last(), ps.last()),
        join_parts(ps).len() >= ps[0].len() > 0,
        join_parts(ps).take(ps[0].len() as int) == ps[0],
    decreases ps.len(),
{
    if ps.len() == 1 {
        assert(wf_part(ps[0]));
        lemma_scan_append_plain(Seq::empty(), ps[0]);
        assert(Seq::<char>::empty() + ps[0] =~= ps[0]);
        assert(ps.drop_last() =~= Seq::<Seq<char>>::empty());
    } else {
        let q = ps.drop_last();
        assert forall|i: int| 0 <= i < q.len() implies wf_part(#[trigger] q[i]) by {
            assert(q[i] == ps[i]);
        }
        lemma_scan_join(q);
        let jq = join_parts(q);
        let head = jq + seq!['/'];
        assert(wf_part(ps.last()));
        lemma_scan_append_plain(head, ps.last());
        assert(head.drop_last() =~= jq);
        assert(kept(q.last()) == seq![q.last()]);
        assert(scan_parts(head) == (q.drop_last() + kept(q.last()), Seq::<char>::empty()));
        assert(q.drop_last() + seq![q.last()] =~= q);
        assert(Seq::<char>::empty() + ps.last() =~= ps.last());
        assert(join_parts(ps) == head + ps.last());
        assert(q[0] == ps[0]);
        assert(join_parts(ps).take(ps[0].len() as int) =~= jq.take(q[0].len() as int));
    }
}

proof fn lemma_join_parts_cons(a: Seq<char>, q: Seq<Seq<char>>)
    requires
        q.len() > 0,
    ensures
        join_parts(seq![a] + q) == a + seq!['/'] + join_parts(q),
    decreases q.len(),
{
    let aq = seq![a] + q;
    assert(aq.drop_last() =~= seq![a] + q.drop_last());
    assert(aq.last() == q.last());
    assert(join_parts(aq) == join_parts(aq.drop_last()) + seq!['/'] + aq.last());
    if q.len() == 1 {
        assert(seq![a] + q.drop_last() =~= seq![a]);
        assert(join_parts(seq![a]) == a);
        assert(join_parts(q) == q[0]);
    } else {
        lemma_join_parts_cons(a, q.drop_last());
        assert(a + seq!['/'] + join_parts(q.drop_last()) + seq!['/'] + q.last() =~= a + seq!['/'] + (
        join_parts(q.drop_last()) + seq!['/'] + q.last()));
    }
}

proof fn lemma_scan_wf(s: Seq<char>)
    ensures
        forall|i: int| 0 <= i < scan_parts(s).0.len() ==> wf_part(#[trigger] scan_parts(s).0[i]),
        forall|i: int| 0 <= i < scan_parts(s).1.len() ==> scan_parts(s).1[i] != '/',
    decreases s.len(),
{
    if s.len() > 0 {
        lemma_scan_wf(s.drop_last());
        let (done, cur) = scan_parts(s.drop_last());
        if s.last() == '/' {
            let k = kept(cur);
            assert forall|i: int| 0 <= i < k.len() implies wf_part(#[trigger] k[i]) by {
                assert(k[i] == cur);
            }
            assert forall|i: int| 0 <= i < (done + k).len() implies wf_part(#[trigger] (done + k)[i]) by {
                if i < done.len() {
                    assert((done + k)[i] == done[i]);
                } else {
                    assert((done + k)[i] == k[i - done.len()]);
                }
            }
        } else {
            assert forall|i: int| 0 <= i < cur.push(s.last()).len() implies cur.push(s.last())[i] != '/' by {
                if i < cur.len() {
                    assert(cur.push(s.last())[i] == cur[i]);
                }
            }
        }
    }
}

/// Every path read from text has components that text can name.
pub proof fn lemma_parse_wf(s: Seq<char>)
    ensures
        wf_path(parse_path(s)),
{
    lemma_scan_wf(s);
    let (done, cur) = scan_parts(s);
    let k = kept(cur);
    let ps = done + k;
    assert forall|i: int| 0 <= i < k.len() implies wf_part(#[trigger] k[i]) by {
        assert(k[i] == cur);
    }
    assert forall|i: int| 0 <= i < ps.len() implies wf_part(#[trigger] ps[i]) by {
        if i < done.len() {
            assert(ps[i] == done[i]);
        } else {
            assert(ps[i] == k[i - done.len()]);
        }
    }
    if leads_with_cur_dir(s) {
        let q = seq![seq!['.']] + ps;
        assert forall|i: int| 0 < i < q.len() implies wf_part(#[trigger] q[i]) by {
            assert(q[i] == ps[i - 1]);
        }
    }
}

proof fn lemma_parse_display_plain(p: PathView)
    requires
        forall|i: int| 0 <= i < p.parts.len() ==> wf_part(#[trigger] p.parts[i]),
    ensures
        parse_path(display_path(p)) == p,
{
    let ps = p.parts;
    if ps.len() > 0 {
        lemma_scan_join(ps);
        assert(kept(ps.last()) == seq![ps.last()]) by {
            assert(wf_part(ps[ps.len() - 1]));
        }
        assert(ps.drop_last() + seq![ps.last()] =~= ps);
    }
    if p.absolute {
        let slash = seq!['/'];
        assert(scan_parts(slash) == (Seq::<Seq<char>>::empty(), Seq::<char>::empty())) by {
            assert(slash.drop_last() =~= Seq::<char>::empty());
            assert(slash.last() == '/');
            let e = scan_parts(Seq::<char>::empty());
            assert(e == (Seq::<Seq<char>>::empty(), Seq::<char>::empty()));
            assert(kept(Seq::<char>::empty()) =~= Seq::<Seq<char>>::empty());
            assert(e.0 + kept(e.1) =~= Seq::<Seq<char>>::empty());
        }
        lemma_scan_after_slash(slash, join_parts(ps));
        assert(Seq::<Seq<char>>::empty() + scan_parts(join_parts(ps)).0 =~= scan_parts(
            join_parts(ps),
        ).0);
        if ps.len() == 0 {
            assert(display_path(p) =~= slash);
        }
        assert(display_path(p)[0] == '/');
        assert(!leads_with_cur_dir(display_path(p)));
    } else {
        if ps.len() > 0 {
            let d = display_path(p);
            assert(wf_part(ps[0]));
            assert(d[0] == ps[0][0]) by {
                assert(d.take(ps[0].len() as int)[0] == d[0]);
            }
            assert(ps[0][0] != '/');
            if leads_with_cur_dir(d) {
                if ps[0].len() == 1 {
                    assert(ps[0] =~= seq!['.']);
                } else {
                    assert(d[1] == ps[0][1]) by {
                        assert(d.take(ps[0].len() as int)[1] == d[1]);
                    }
                }
            }
        }
    }
    assert(parse_path(display_path(p)).parts =~= p.parts);
}

/// Reading back the text of a path gives the same path, when its components
/// can be named by text.
pub proof fn lemma_parse_display(p: PathView)
    requires
        wf_path(p),
    ensures
        parse_path(display_path(p)) == p,
{
    let ps = p.parts;
    if starts_with_cur_dir(p) {
        let dot = seq!['.'];
        assert(!wf_part(ps[0]));
        assert(!p.absolute);
        let q = ps.drop_first();
        assert(ps =~= seq![dot] + q);
        assert forall|i: int| 0 <= i < q.len() implies wf_part(#[trigger] q[i]) by {
            assert(q[i] == ps[i + 1]);
        }
        assert(scan_parts(dot) == (Seq::<Seq<char>>::empty(), dot)) by {
            assert(dot.drop_last() =~= Seq::<char>::empty());
            let e = scan_parts(Seq::<char>::empty());
            assert(e == (Seq::<Seq<char>>::empty(), Seq::<char>::empty()));
            assert(e.1.push('.') =~= dot);
        }
        if q.len() == 0 {
            assert(ps =~= seq![dot]);
            assert(join_parts(ps) == dot);
            assert(parse_path(dot).parts =~= ps);
        } else {
            let jq = join_parts(q);
            let t = seq!['.', '/'];
            lemma_join_parts_cons(dot, q);
            assert(display_path(p) =~= t + jq);
            assert(scan_parts(t) == (Seq::<Seq<char>>::empty(), Seq::<char>::empty())) by {
                assert(t.drop_last() =~= dot);
                assert(kept(dot) =~= Seq::<Seq<char>>::empty());
                assert(Seq::<Seq<char>>::empty() + kept(dot) =~= Seq::<Seq<char>>::empty());
            }
            lemma_scan_after_slash(t, jq);
            lemma_scan_join(q);
            assert(kept(q.last()) == seq![q.last()]) by {
                assert(wf_part(q[q.len() - 1]));
            }
            assert(Seq::<Seq<char>>::empty() + q.drop_last() =~= q.drop_last());
            assert(q.drop_last() + seq![q.last()] =~= q);
            assert((t + jq)[0] == '.' && (t + jq)[1] == '/');
            assert(parse_path(t + jq).parts =~= ps);
        }
    } else {
        assert forall|i: int| 0 <= i < ps.len() implies wf_part(#[trigger] ps[i]) by {
            if i == 0 && !p.absolute && ps[i] == seq!['.'] {
                assert(starts_with_cur_dir(p));
            }
        }
        lemma_parse_display_plain(p);
    }
}

impl FsPath {
    /// The path named by the text `s`.
    pub fn parse(s: &str) -> (r: FsPath)
        ensures
            r@ == parse_path(s@),
    {
        let c = to_chars(s);
        let lead = c.len() > 0 && c[0] == '.' && (c.len() == 1 || c[1] == '/');
        let mut parts: Vec<String> = Vec::new();
        assert(lead == leads_with_cur_dir(s@));
        if lead {
            let dot = String::from_str(".");
            proof {
                reveal_strlit(".");
                assert(dot@ =~= seq!['.']);
            }
            parts.push(dot);
            assert(parts@.map_values(|p: String| p@)[0] == seq!['.']);
        }
        let ghost prefix = parts@.map_values(|p: String| p@);
        assert(prefix =~= (if leads_with_cur_dir(s@) {
            seq![seq!['.']]
        } else {
            Seq::<Seq<char>>::empty()
        }));
        let mut cur: Vec<char> = Vec::new();
        let mut i: usize = 0;
        assert(s@.take(0) =~= Seq::<char>::empty());
        assert(prefix + scan_parts(s@.take(0)).0 =~= prefix);
        while i < c.len()
            invariant
                c@ == s@,
                i <= c@.len(),
                parts@.map_values(|p: String| p@) =~= prefix + scan_parts(s@.take(i as int)).0,
                cur@ == scan_parts(s@.take(i as int)).1,
            decreases c@.len() - i,
        {
            let ch = c[i];
            assert(s@.take(i + 1).drop_last() =~= s@.take(i as int));
            if ch == '/' {
                if cur.len() > 0 && !(cur.len() == 1 && cur[0] == '.') {
                    let ghost before = parts@;
                    let part = from_chars(cur.as_slice());
                    parts.push(part);
                    assert(parts@.map_values(|p: String| p@) =~= before.map_values(|p: String| p@).push(cur@));
                } else {
                    assert(cur@.len() == 0 || cur@ =~= seq!['.']);
                }
                cur = Vec::new();
            } else {
                cur.push(ch);
            }
            i = i + 1;
        }
        assert(s@.take(i as int) =~= s@);
        let ghost done = prefix + scan_parts(s@).0;
        if cur.len() > 0 && !(cur.len() == 1 && cur[0] == '.') {
            let ghost before = parts@;
            let part = from_chars(cur.as_slice());
            parts.push(part);
            assert(parts@.map_values(|p: String| p@) =~= before.map_values(|p: String| p@).push(cur@));
            assert(cur@ != seq!['.']) by {
                if cur@ == seq!['.'] {
                    assert(cur@.len() == 1 && cur@[0] == '.');
                }
            }
            assert(kept(cur@) == seq![cur@]);
            assert(parts@.map_values(|p: String| p@) =~= done + kept(cur@));
        } else {
            assert(cur@.len() == 0 || cur@ =~= seq!['.']);
            assert(kept(cur@) == Seq::<Seq<char>>::empty());
            assert(parts@.map_values(|p: String| p@) =~= done + kept(cur@));
        }
        let absolute = c.len() > 0 && c[0] == '/';
        let r = FsPath { absolute, parts };
        assert(prefix + scan_parts(s@).0 + kept(cur@) =~= prefix + (scan_parts(s@).0 + kept(cur@)));
        assert(r@.parts =~= parse_path(s@).parts);
        r
    }

    /// Whether the path starts at the root directory.
    pub fn is_absolute(&self) -> (r: bool)
        ensures
            r == self@.absolute,
    {
        self.absolute
    }

    /// Whether the path has no components and is relative (the empty path).
    pub fn is_empty(&self) -> (r: bool)
        ensures
            r == is_empty_path(self@),
    {
        !self.absolute && self.parts.len() == 0
    }

    /// The number of components.
    pub fn num_parts(&self) -> (r: usize)
        ensures
            r == self@.parts.len(),
    {
        self.parts.len()
    }

    /// The component at `i`.
    pub fn part(&self, i: usize) -> (r: &str)
        requires
            i < self@.parts.len(),
        ensures
            r@ == self@.parts[i as int],
    {
        self.parts[i].as_str()
    }

    /// A copy of the path.
    pub fn duplicate(&self) -> (r: FsPath)
        ensures
            r@ == self@,
    {
        let mut parts: Vec<String> = Vec::new();
        let mut i: usize = 0;
        while i < self.parts.len()
            invariant
                i <= self.parts@.len(),
                parts@.map_values(|p: String| p@) =~= self.parts@.take(i as int).map_values(
                    |p: String| p@,
                ),
            decreases self.parts@.len() - i,
        {
            let ghost before = parts@;
            let p = self.parts[i].clone();
            parts.push(p);
            assert(parts@.map_values(|p: String| p@) =~= before.map_values(|p: String| p@).push(
                self.parts@[i as int]@,
            ));
            assert(self.parts@.take(i + 1) =~= self.parts@.take(i as int).push(self.parts@[i as int]));
            i = i + 1;
        }
        assert(self.parts@.take(i as int) =~= self.parts@);
        FsPath { absolute: self.absolute, parts }
    }

    /// The text of the path.
    pub fn display(&self) -> (r: String)
        ensures
            r@ == display_path(self@),
    {
        let mut out: Vec<char> = Vec::new();
        if self.absolute {
            out.push('/');
        }
        let ghost head = out@;
        let mut i: usize = 0;
        while i < self.parts.len()
            invariant
                i <= self.parts@.len(),
                out@ == head + join_parts(self@.parts.take(i as int)),
                self@.parts == self.parts@.map_values(|p: String| p@),
            decreases self.parts@.len() - i,
        {
            let ghost before = out@;
            if i > 0 {
                out.push('/');
            }
            let pc = to_chars(self.parts[i].as_str());
            extend_chars(&mut out, pc.as_slice());
            proof {
                let t = self@.parts.take(i + 1);
                assert(t.drop_last() =~= self@.parts.take(i as int));
                assert(t.last() == self@.parts[i as int]);
                if i == 0 {
                    assert(join_parts(t) == t[0]);
                }
                assert(out@ =~= head + join_parts(t));
            }
            i = i + 1;
        }
        assert(self@.parts.take(i as int) =~= self@.parts);
        from_chars(out.as_slice())
    }

    /// `self` joined with `rel`.
    pub fn join(&self, rel: &FsPath) -> (r: FsPath)
        ensures
            r@ == join_path(self@, rel@),
    {
        if rel.absolute || (!self.absolute && self.parts.len() == 0) {
            return rel.duplicate();
        }
        let lead = rel.parts.len() > 0 && {
            let first = to_chars(rel.parts[0].as_str());
            first.len() == 1 && first[0] == '.'
        };
        assert(lead == starts_with_cur_dir(rel@)) by {
            if rel@.parts.len() > 0 {
                if rel@.parts[0] == seq!['.'] {
                    assert(rel@.parts[0].len() == 1);
                }
                if rel@.parts[0].len() == 1 && rel@.parts[0][0] == '.' {
                    assert(rel@.parts[0] =~= seq!['.']);
                }
            }
        }
        let start: usize = if lead {
            1
        } else {
            0
        };
        let ghost tail = rel@.parts.skip(start as int);
        assert(tail =~= (if lead {
            rel@.parts.drop_first()
        } else {
            rel@.parts
        }));
        let mut out = self.duplicate();
        let mut i: usize = start;
        assert(self@.parts + rel@.parts.subrange(start as int, i as int) =~= self@.parts);
        while i < rel.parts.len()
            invariant
                !rel@.absolute,
                start <= i <= rel.parts@.len(),
                out@.absolute == self@.absolute,
                out@.parts =~= self@.parts + rel@.parts.subrange(start as int, i as int),
                rel@.parts == rel.parts@.map_values(|p: String| p@),
            decreases rel.parts@.len() - i,
        {
            let ghost before = out.parts@;
            out.parts.push(rel.parts[i].clone());
            assert(out.parts@.map_values(|p: String| p@) =~= before.map_values(|p: String| p@).push(
                rel.parts@[i as int]@,
            ));
            assert(rel@.parts.subrange(start as int, i + 1) =~= rel@.parts.subrange(start as int, i as int).push(
                rel@.parts[i as int],
            ));
            i = i + 1;
        }
        assert(rel@.parts.subrange(start as int, i as int) =~= tail);
        out
    }

    /// `self` joined with the path that the text `rel` names.
    pub fn join_str(&self, rel: &str) -> (r: FsPath)
        ensures
            r@ == join_path(self@, parse_path(rel@)),
    {
        let p = FsPath::parse(rel);
        self.join(&p)
    }

    /// The rest of `self` after `base`.
    pub fn strip_prefix(&self, base: &FsPath) -> (r: Option<FsPath>)
        ensures
            match r {
                Some(p) => strip_path_prefix(self@, base@) == Some(p@),
                None => strip_path_prefix(self@, base@) is None,
            },
    {
        if !base.absolute && base.parts.len() == 0 {
            return Some(self.duplicate());
        }
        if self.absolute != base.absolute || base.parts.len() > self.parts.len() {
            return None;
        }
        let n = base.parts.len();
        let mut i: usize = 0;
        while i < n
            invariant
                n == base@.parts.len(),
                n <= self@.parts.len(),
                i <= n,
                base@.parts == base.parts@.map_values(|p: String| p@),
                self@.parts == self.parts@.map_values(|p: String| p@),
                forall|j: int| 0 <= j < i ==> self@.parts[j] == base@.parts[j],
            decreases n - i,
        {
            if self.parts[i] != base.parts[i] {
                assert(self@.parts.take(n as int)[i as int] != base@.parts[i as int]);
                return None;
            }
            i = i + 1;
        }
        assert(self@.parts.take(n as int) =~= base@.parts);
        let mut parts: Vec<String> = Vec::new();
        let mut k: usize = n;
        while k < self.parts.len()
            invariant
                n <= k <= self.parts@.len(),
                self@.parts == self.parts@.map_values(|p: String| p@),
                parts@.map_values(|p: String| p@) =~= self@.parts.subrange(n as int, k as int),
            decreases self.parts@.len() - k,
        {
            let ghost before = parts@;
            parts.push(self.parts[k].clone());
            assert(parts@.map_values(|p: String| p@) =~= before.map_values(|p: String| p@).push(
                self.parts@[k as int]@,
            ));
            k = k + 1;
        }
        Some(FsPath { absolute: false, parts })
    }

    /// The path without its last component (one step of `Path::ancestors`).
    pub fn parent(&self) -> (r: Option<FsPath>)
        ensures
            match r {
                Some(p) => self@.parts.len() > 0 && p@ == PathView {
                    absolute: self@.absolute,
                    parts: self@.parts.drop_last(),
                },
                None => self@.parts.len() == 0,
            },
    {
        if self.parts.len() == 0 {
            return None;
        }
        let mut out = self.duplicate();
        out.parts.pop();
        assert(out@.parts =~= self@.parts.drop_last());
        Some(out)
    }
}

} // verus!
