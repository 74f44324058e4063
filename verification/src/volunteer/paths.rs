//! Paths whose parts are separated by slashes.

use vstd::prelude::*;
use vstd::string::StringExecFns;

use crate::text::{chars_of, text_of};

verus! {

/// How much of a path comes before its parts: the root, or a dot for the place where one is.
pub open spec fn lead(path: Seq<char>) -> nat {
    if path.len() > 0 && (path[0] == '/' || (path[0] == '.' && (path.len() == 1 || path[1] == '/'))) {
        1
    } else {
        0
    }
}

/// The last character of `path` is a slash, or a part that is only a dot.
pub open spec fn ends_idly(path: Seq<char>, lead: nat) -> bool {
    path.last() == '/' || (path.last() == '.' && (path.len() == lead + 1 || path[path.len() - 2] == '/'))
}

/// `path` without the slashes at its end, and without parts there that are only a dot. The first
/// `lead` characters stay.
pub open spec fn tidied(path: Seq<char>, lead: nat) -> Seq<char>
    decreases path.len(),
{
    if path.len() > lead && ends_idly(path, lead) {
        tidied(path.drop_last(), lead)
    } else {
        path
    }
}

/// `path` up to its last slash. The first `lead` characters stay.
pub open spec fn up_to_slash(path: Seq<char>, lead: nat) -> Seq<char>
    decreases path.len(),
{
    if path.len() <= lead || path.last() == '/' {
        path
    } else {
        up_to_slash(path.drop_last(), lead)
    }
}

/// The directory that holds `path`, if any does: the path without its last part. Parts that are only
/// a dot do not count, but for one at the very beginning. The root and the empty path are held by
/// none.
pub open spec fn parent(path: Seq<char>) -> Option<Seq<char>> {
    let named = tidied(path, lead(path));
    if named.len() > lead(path) {
        Some(tidied(up_to_slash(named, lead(path)), lead(path)))
    } else if path.len() > 0 && path[0] == '.' {
        Some(Seq::empty())
    } else {
        None
    }
}

/// The directory `n` levels above `path`, if there is one.
pub open spec fn ancestor(path: Seq<char>, n: nat) -> Option<Seq<char>>
    decreases n,
{
    if n == 0 {
        Some(path)
    } else {
        match ancestor(path, (n - 1) as nat) {
            Some(p) => parent(p),
            None => None,
        }
    }
}

/// `part` inside `base`.
pub open spec fn inside(base: Seq<char>, part: Seq<char>) -> Seq<char> {
    if base.len() == 0 || base.last() == '/' {
        base + part
    } else {
        base + seq!['/'] + part
    }
}

/// How many of the first `n` of `chars` are left without slashes and idle dots at their end.
fn tidied_len(chars: &Vec<char>, n: usize, lead: usize) -> (r: usize)
    requires
        n <= chars@.len(),
        lead <= n,
    ensures
        lead <= r <= n,
        chars@.take(r as int) == tidied(chars@.take(n as int), lead as nat),
{
    let mut i: usize = n;
    while i > lead && (chars[i - 1] == '/' || (chars[i - 1] == '.' && (i - 1 == lead || chars[i - 2]
        == '/')))
        invariant
            lead <= i <= n <= chars@.len(),
            tidied(chars@.take(i as int), lead as nat) == tidied(
                chars@.take(n as int),
                lead as nat,
            ),
        decreases i,
    {
        assert(chars@.take(i as int).drop_last() =~= chars@.take(i as int - 1));
        i = i - 1;
    }
    i
}

/// The place behind the last slash of the first `n` of `chars`.
fn behind_slash(chars: &Vec<char>, n: usize, lead: usize) -> (r: usize)
    requires
        n <= chars@.len(),
        lead <= n,
    ensures
        lead <= r <= n,
        chars@.take(r as int) == up_to_slash(chars@.take(n as int), lead as nat),
{
    let mut i: usize = n;
    while i > lead && chars[i - 1] != '/'
        invariant
            lead <= i <= n <= chars@.len(),
            up_to_slash(chars@.take(i as int), lead as nat) == up_to_slash(
                chars@.take(n as int),
                lead as nat,
            ),
        decreases i,
    {
        assert(chars@.take(i as int).drop_last() =~= chars@.take(i as int - 1));
        i = i - 1;
    }
    i
}

/// The directory that holds `path`, if any does.
pub fn parent_of(path: &str) -> (r: Option<String>)
    ensures
        match r {
            Some(p) => parent(path@) == Some(p@),
            None => parent(path@) is None,
        },
{
    let chars = chars_of(path);
    let n: usize = chars.len();
    assert(chars@.take(n as int) =~= chars@);
    let lead: usize = if n > 0 && (chars[0] == '/' || (chars[0] == '.' && (n == 1 || chars[1] == '/'))) {
        1
    } else {
        0
    };
    let named: usize = tidied_len(&chars, n, lead);
    if named > lead {
        let head: usize = behind_slash(&chars, named, lead);
        let dir: usize = tidied_len(&chars, head, lead);
        assert(chars@.subrange(0, dir as int) =~= chars@.take(dir as int));
        Some(text_of(&chars, 0, dir))
    } else if n > 0 && chars[0] == '.' {
        let none = String::new();
        assert(none@ =~= Seq::<char>::empty());
        Some(none)
    } else {
        None
    }
}

/// The directory `n` levels above `path`, if there is one.
pub fn ancestor_of(path: &str, n: usize) -> (r: Option<String>)
    ensures
        match r {
            Some(p) => ancestor(path@, n as nat) == Some(p@),
            None => ancestor(path@, n as nat) is None,
        },
{
    let mut at = path.to_string();
    let mut i: usize = 0;
    while i < n
        invariant
            i <= n,
            ancestor(path@, i as nat) == Some(at@),
        decreases n - i,
    {
        match parent_of(at.as_str()) {
            Some(p) => {
                at = p;
            },
            None => {
                proof {
                    lemma_no_ancestor(path@, i as nat + 1, n as nat);
                }
                return None;
            },
        }
        i = i + 1;
    }
    Some(at)
}

/// Above the topmost directory there is nothing.
proof fn lemma_no_ancestor(path: Seq<char>, i: nat, n: nat)
    requires
        i <= n,
        ancestor(path, i) is None,
    ensures
        ancestor(path, n) is None,
    decreases n,
{
    if i < n {
        lemma_no_ancestor(path, i, (n - 1) as nat);
    }
}

/// `part` inside `base`.
pub fn join_path(base: &str, part: &str) -> (r: String)
    ensures
        r@ == inside(base@, part@),
{
    let mut out = base.to_string();
    let n: usize = base.unicode_len();
    if n > 0 && base.get_char(n - 1) != '/' {
        out.push('/');
        assert(out@ =~= base@ + seq!['/']);
    }
    out.append(part);
    out
}

/// Behind a path that ends in a slash, a part without slashes adds nothing before that slash.
proof fn lemma_up_to_slash(base: Seq<char>, part: Seq<char>, lead: nat)
    requires
        base.len() == lead || (base.len() > lead && base.last() == '/'),
        !part.contains('/'),
    ensures
        up_to_slash(base + part, lead) == base,
    decreases part.len(),
{
    if part.len() == 0 {
        assert(base + part =~= base);
    } else {
        let p = base + part;
        assert(p.last() == part.last());
        assert(part[part.len() - 1] == part.last());
        assert(p.drop_last() =~= base + part.drop_last());
        assert(!part.drop_last().contains('/')) by {
            if part.drop_last().contains('/') {
                let j = choose|j: int| 0 <= j < part.drop_last().len() && part.drop_last()[j] == '/';
                assert(part[j] == '/');
            }
        }
        lemma_up_to_slash(base, part.drop_last(), lead);
    }
}

/// A part put inside a directory is held by that directory.
pub proof fn law_parent_of_inside(base: Seq<char>, part: Seq<char>)
    requires
        base.len() > 0,
        tidied(base, lead(base)) == base,
        part.len() > 0,
        !part.contains('/'),
        part != seq!['.'],
    ensures
        parent(inside(base, part)) == Some(base),
{
    let path = inside(base, part);
    let k = lead(base);
    let head = if base.last() == '/' {
        base
    } else {
        base + seq!['/']
    };
    assert(path =~= head + part);
    assert(path[0] == base[0]);
    if base.len() > 1 {
        assert(path[1] == base[1]);
    }
    lemma_tidied_len(base, k);
    assert(lead(path) == k);
    assert(part[part.len() - 1] != '/');
    assert(path.last() == part.last());
    if part.len() == 1 {
        assert(part =~= seq![part[0]]);
    } else {
        assert(part[part.len() - 2] != '/');
        assert(path[path.len() - 2] == part[part.len() - 2]);
    }
    assert(tidied(path, k) == path);
    lemma_up_to_slash(head, part, k);
    if base.last() != '/' {
        assert(head.drop_last() =~= base);
        assert(head.last() == '/');
        assert(tidied(head, k) == tidied(base, k));
    }
}

/// A path that ends in a named part has nothing idle at its end.
pub(crate) proof fn lemma_inside_is_tidy(base: Seq<char>, part: Seq<char>)
    requires
        base.len() > 0,
        tidied(base, lead(base)) == base,
        part.len() > 0,
        !part.contains('/'),
        part != seq!['.'],
    ensures
        inside(base, part).len() > 0,
        tidied(inside(base, part), lead(inside(base, part))) == inside(base, part),
{
    let path = inside(base, part);
    let k = lead(base);
    let head = if base.last() == '/' {
        base
    } else {
        base + seq!['/']
    };
    assert(path =~= head + part);
    assert(path[0] == base[0]);
    if base.len() > 1 {
        assert(path[1] == base[1]);
    }
    lemma_tidied_len(base, k);
    assert(lead(path) == k);
    assert(part[part.len() - 1] != '/');
    assert(path.last() == part.last());
    if part.len() == 1 {
        assert(part =~= seq![part[0]]);
    } else {
        assert(part[part.len() - 2] != '/');
        assert(path[path.len() - 2] == part[part.len() - 2]);
    }
}

/// What is left is never longer than the path.
proof fn lemma_tidied_len(path: Seq<char>, lead: nat)
    ensures
        tidied(path, lead).len() <= path.len(),
        tidied(path, lead) == path && path.len() > lead ==> path.last() != '/',
    decreases path.len(),
{
    if path.len() > lead && ends_idly(path, lead) {
        lemma_tidied_len(path.drop_last(), lead);
    }
}

/// A part that is only a dot does not count: what lies in the directory that it stands in is held by
/// the directory itself.
pub proof fn law_dots_do_not_count(base: Seq<char>, part: Seq<char>)
    requires
        base.len() > 0,
        tidied(base, lead(base)) == base,
        part.len() > 0,
        !part.contains('/'),
        part != seq!['.'],
    ensures
        parent(inside(inside(base, seq!['.']), part)) == Some(base),
{
    let dotted = inside(base, seq!['.']);
    let path = inside(dotted, part);
    let k = lead(base);
    lemma_tidied_len(base, k);
    let head = dotted + seq!['/'];
    assert(dotted.last() == '.');
    assert(path =~= head + part);
    assert(path[0] == base[0]);
    if base.len() > 1 {
        assert(path[1] == base[1]);
    } else if base.last() != '/' {
        assert(path[1] == '/');
    }
    assert(lead(path) == k);
    assert(part[part.len() - 1] != '/');
    assert(path.last() == part.last());
    if part.len() == 1 {
        assert(part =~= seq![part[0]]);
    } else {
        assert(part[part.len() - 2] != '/');
        assert(path[path.len() - 2] == part[part.len() - 2]);
    }
    assert(tidied(path, k) == path);
    lemma_up_to_slash(head, part, k);
    assert(head.drop_last() =~= dotted);
    assert(tidied(head, k) == tidied(dotted, k));
    if base.last() == '/' {
        assert(base.len() == k);
        assert(dotted.drop_last() =~= base);
    } else {
        let slashed = base + seq!['/'];
        assert(dotted.drop_last() =~= slashed);
        assert(dotted[dotted.len() - 2] == '/');
        assert(slashed.drop_last() =~= base);
        assert(slashed.last() == '/');
        assert(tidied(dotted, k) == tidied(slashed, k));
        assert(tidied(slashed, k) == tidied(base, k));
    }
}

/// A slash at the end of a path does not count.
pub proof fn law_trailing_slashes_do_not_count(path: Seq<char>)
    requires
        path.len() > 0,
    ensures
        parent(path + seq!['/']) == parent(path),
{
    let slashed = path + seq!['/'];
    assert(slashed[0] == path[0]);
    if path.len() > 1 {
        assert(slashed[1] == path[1]);
    }
    assert(lead(slashed) == lead(path));
    assert(slashed.drop_last() =~= path);
    assert(tidied(slashed, lead(path)) == tidied(path, lead(path)));
}

/// The root is held by no directory, and neither is a path that names nothing. A name that stands alone
/// is held by the place where one is.
pub proof fn law_the_topmost_have_no_parent(part: Seq<char>)
    requires
        part.len() > 0,
        !part.contains('/'),
        part[0] != '.',
        part.last() != '.',
    ensures
        parent(seq!['/']) is None,
        parent(Seq::empty()) is None,
        parent(part) == Some(Seq::<char>::empty()),
{
    assert(part[part.len() - 1] == part.last());
    assert(lead(part) == 0);
    lemma_up_to_slash(Seq::empty(), part, 0);
    assert(Seq::<char>::empty() + part =~= part);
}

} // verus!
