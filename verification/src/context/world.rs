//! The World monorepo: its trees live in `~/world/trees/<tree>/src`, and a
//! directory inside a tree is written `//<path below src>`.
use vstd::prelude::*;
use vstd::string::*;

use crate::path::{join_parts, join_path, parse_path, strip_path_prefix, FsPath, PathView};
use crate::text::{extend_chars, from_chars, to_chars};

verus! {

/// The directory that holds the World trees of a user.
pub open spec fn world_trees_dir(home_dir: PathView) -> PathView {
    join_path(join_path(home_dir, parse_path("world"@)), parse_path("trees"@))
}

/// The tree and the World path of `cwd`, when `cwd` is inside the `src`
/// directory of a tree: the path is `//` followed by the components below
/// `src`, joined with `/`.
pub open spec fn world_location(cwd: PathView, home_dir: PathView) -> Option<(Seq<char>, Seq<char>)> {
    match strip_path_prefix(cwd, world_trees_dir(home_dir)) {
        Some(rel) => if rel.parts.len() >= 2 && rel.parts[1] == "src"@ {
            Some((rel.parts[0], "//"@ + join_parts(rel.parts.skip(2))))
        } else {
            None
        },
        None => None,
    }
}

/// The current directory's place in the World monorepo.
pub struct WorldContext {
    tree: String,
    path: String,
}

impl View for WorldContext {
    type V = (Seq<char>, Seq<char>);

    closed spec fn view(&self) -> (Seq<char>, Seq<char>) {
        (self.tree@, self.path@)
    }
}

impl WorldContext {
    /// The World location of `cwd`, if it is inside a World tree of the user
    /// whose home directory is `home_dir`.
    pub fn new(cwd: &FsPath, home_dir: &FsPath) -> (r: Option<Self>)
        ensures
            match r {
                Some(w) => world_location(cwd@, home_dir@) == Some(w@),
                None => world_location(cwd@, home_dir@) is None,
            },
    {
        let trees = home_dir.join_str("world").join_str("trees");
        let relative = match cwd.strip_prefix(&trees) {
            Some(r) => r,
            None => return None,
        };
        if relative.num_parts() < 2 {
            return None;
        }
        let tree = String::from_str(relative.part(0));
        let second = String::from_str(relative.part(1));
        let src = String::from_str("src");
        if second != src {
            return None;
        }
        let mut out = to_chars("//");
        let ghost head = out@;
        let ghost rest = relative@.parts.skip(2);
        let mut i: usize = 2;
        proof {
            assert(rest.take(0) =~= Seq::<Seq<char>>::empty());
        }
        while i < relative.num_parts()
            invariant
                2 <= i <= relative@.parts.len(),
                rest == relative@.parts.skip(2),
                out@ == head + join_parts(rest.take(i - 2)),
            decreases relative@.parts.len() - i,
        {
            if i > 2 {
                out.push('/');
            }
            let pc = to_chars(relative.part(i));
            extend_chars(&mut out, pc.as_slice());
            proof {
                let t = rest.take(i - 1);
                assert(t.drop_last() =~= rest.take(i - 2));
                assert(t.last() == relative@.parts[i as int]);
                if i == 2 {
                    assert(join_parts(t) == t[0]);
                }
                assert(out@ =~= head + join_parts(t));
            }
            i = i + 1;
        }
        proof {
            reveal_strlit("//");
            assert(rest.take(i - 2) =~= rest);
        }
        let path = from_chars(out.as_slice());
        Some(WorldContext { tree, path })
    }

    /// The name of the World tree.
    pub fn tree(&self) -> (r: &str)
        ensures
            r@ == self@.0,
    {
        self.tree.as_str()
    }

    /// The World path, such as `//foo/bar`.
    pub fn path(&self) -> (r: &str)
        ensures
            r@ == self@.1,
    {
        self.path.as_str()
    }
}

} // verus!
