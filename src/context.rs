//! What every tunnel operation knows of the user: the user name, the home
//! directory and the directory of the SSH control sockets.
use vstd::prelude::*;

use crate::error::{result_view, Error, ErrorView};
use crate::text::{
    join, join_lead, lemma_join_split, replace_all, replace_all_text, segments,
};

verus! {

/// The placeholder for the user name.
pub open spec fn user_token() -> Seq<char> {
    seq!['$', 'U', 'S', 'E', 'R']
}

/// The placeholder for the home directory.
pub open spec fn home_token() -> Seq<char> {
    seq!['$', 'H', 'O', 'M', 'E']
}

/// The control-path directory used when none is configured.
pub open spec fn default_control_path_directory() -> Seq<char> {
    "/tmp/tunka"@
}

/// Collects what a `Context` is built from.
pub struct ContextBuilder {
    control_path_directory: String,
}

impl ContextBuilder {
    /// The control-path directory that a built context will hold, before
    /// expansion.
    pub closed spec fn directory(&self) -> Seq<char> {
        self.control_path_directory@
    }

    pub fn new() -> (r: Self)
        ensures
            r.directory() == default_control_path_directory(),
    {
        ContextBuilder { control_path_directory: String::from_str("/tmp/tunka") }
    }

    pub fn control_path_directory(self, dir: &str) -> (r: Self)
        ensures
            r.directory() == dir@,
    {
        ContextBuilder { control_path_directory: String::from_str(dir) }
    }

    /// Builds the context from the user name and the home directory, as the
    /// environment gave them (`None` where it gave nothing).
    pub fn build(self, user_name: Option<String>, home_dir: Option<String>) -> (r: Result<
        Context,
        Error,
    >)
        ensures
            user_name is None ==> result_view(r) == Err::<Context, ErrorView>(
                ErrorView::UserNameNotFound,
            ),
            user_name is Some && home_dir is None ==> result_view(r) == Err::<Context, ErrorView>(
                ErrorView::HomeDirectoryNotFound,
            ),
            user_name is Some && home_dir is Some <==> r is Ok,
            r matches Ok(c) ==> {
                &&& c.user() == user_name->Some_0@
                &&& c.home() == home_dir->Some_0@
                &&& c.directory() == self.directory()
            },
    {
        let user_name = match user_name {
            Some(u) => u,
            None => return Err(Error::UserNameNotFound),
        };
        let home_dir = match home_dir {
            Some(h) => h,
            None => return Err(Error::HomeDirectoryNotFound),
        };
        Ok(Context { user_name, home_dir, control_path_directory: self.control_path_directory })
    }
}

/// The user name, the home directory and the control-path directory (as
/// configured, before expansion). Fixed once built.
#[derive(Debug)]
pub struct Context {
    user_name: String,
    home_dir: String,
    control_path_directory: String,
}

impl Context {
    pub closed spec fn user(&self) -> Seq<char> {
        self.user_name@
    }

    pub closed spec fn home(&self) -> Seq<char> {
        self.home_dir@
    }

    pub closed spec fn directory(&self) -> Seq<char> {
        self.control_path_directory@
    }

    /// `s` with each `$USER` replaced by the user name, and then each `$HOME`
    /// by the home directory.
    pub open spec fn expand(&self, s: Seq<char>) -> Seq<char> {
        replace_all(replace_all(s, user_token(), self.user()), home_token(), self.home())
    }

    /// `p` with each '/'-separated segment expanded on its own.
    pub open spec fn expand_path(&self, p: Seq<char>) -> Seq<char> {
        join(segments(p).map_values(|g: Seq<char>| self.expand(g)))
    }

    pub fn apply(&self, s: &str) -> (r: String)
        ensures
            r@ == self.expand(s@),
    {
        let user = "$USER";
        let home = "$HOME";
        proof {
            reveal_strlit("$USER");
            reveal_strlit("$HOME");
            assert(user@ =~= user_token());
            assert(home@ =~= home_token());
        }
        let with_user = replace_all_text(s, user, self.user_name.as_str());
        replace_all_text(with_user.as_str(), home, self.home_dir.as_str())
    }

    pub fn apply_path(&self, path: &str) -> (r: String)
        ensures
            r@ == self.expand_path(path@),
    {
        let slash = "/";
        proof {
            reveal_strlit("/");
            assert(slash@ =~= seq!['/']);
        }
        let ghost f = |g: Seq<char>| self.expand(g);
        let n = path.unicode_len();
        let mut out = String::new();
        let mut start: usize = 0;
        let mut i: usize = 0;
        proof {
            assert(path@.take(0) =~= Seq::<char>::empty());
            assert(path@.subrange(0, 0) =~= Seq::<char>::empty());
            assert(segments(Seq::<char>::empty()).map_values(f) =~= seq![self.expand(Seq::empty())]);
        }
        while i < n
            invariant
                start <= i <= n,
                n == path@.len(),
                f == (|g: Seq<char>| self.expand(g)),
                slash@ == seq!['/'],
                segments(path@.take(i as int)).len() >= 1,
                segments(path@.take(i as int)).last() == path@.subrange(start as int, i as int),
                out@ == join_lead(segments(path@.take(i as int)).map_values(f)),
            decreases n - i,
        {
            let ghost segs = segments(path@.take(i as int));
            let ghost old_out = out@;
            assert(path@.take(i + 1).drop_last() =~= path@.take(i as int));
            assert(path@.take(i + 1).last() == path@[i as int]);
            let c = path.get_char(i);
            if c == '/' {
                let seg = path.substring_char(start, i);
                let expanded = self.apply(seg);
                out.append(expanded.as_str());
                out.append(slash);
                proof {
                    let m = segs.map_values(f);
                    lemma_join_split(m);
                    assert(segments(path@.take(i + 1)) == segs.push(Seq::empty()));
                    assert(segs.push(Seq::<char>::empty()).map_values(f) =~= m.push(f(Seq::empty())));
                    assert(m.push(f(Seq::empty())).drop_last() =~= m);
                    assert(path@.subrange(i + 1, i + 1) =~= Seq::<char>::empty());
                }
                i = i + 1;
                start = i;
            } else {
                proof {
                    let m = segs.map_values(f);
                    let s2 = segs.update(segs.len() - 1, segs.last().push(c));
                    assert(segments(path@.take(i + 1)) == s2);
                    assert(s2.map_values(f).drop_last() =~= m.drop_last());
                    assert(path@.subrange(start as int, i + 1) =~= path@.subrange(start as int, i as int).push(c));
                }
                i = i + 1;
            }
        }
        let seg = path.substring_char(start, n);
        let expanded = self.apply(seg);
        out.append(expanded.as_str());
        proof {
            assert(path@.take(n as int) =~= path@);
            let m = segments(path@).map_values(f);
            lemma_join_split(m);
        }
        out
    }

    /// The directory of the SSH control sockets, expanded.
    pub fn control_path_directory(&self) -> (r: String)
        ensures
            r@ == self.expand_path(self.directory()),
    {
        self.apply_path(self.control_path_directory.as_str())
    }
}

} // verus!
