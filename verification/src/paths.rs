//! Paths compared the way Unix paths are: by their components.
use vstd::prelude::*;

use crate::text::{push_char, str_equal};

verus! {

/// The views of a list of path strings.
pub open spec fn path_views(paths: Seq<String>) -> Seq<Seq<char>> {
    paths.map_values(|p: String| p@)
}

/// A text between separators is a component unless it is empty (repeated
/// or trailing `/`) or `.` (the current directory, which only counts at the
/// start of a relative path).
pub open spec fn component_kept(part: Seq<char>) -> bool {
    part.len() > 0 && part != seq!['.']
}

/// `done` with `part` added when it is a component.
pub open spec fn finish_component(done: Seq<Seq<char>>, part: Seq<char>) -> Seq<Seq<char>> {
    if component_kept(part) {
        done.push(part)
    } else {
        done
    }
}

/// The components of the rest `p` of a path, given the components `done`
/// found so far and the text `part` read since the last `/`.
pub open spec fn components_from(p: Seq<char>, done: Seq<Seq<char>>, part: Seq<char>) -> Seq<
    Seq<char>,
>
    decreases p.len(),
{
    if p.len() == 0 {
        finish_component(done, part)
    } else if p[0] == '/' {
        components_from(p.drop_first(), finish_component(done, part), Seq::empty())
    } else {
        components_from(p.drop_first(), done, part.push(p[0]))
    }
}

/// The components of a Unix path: the root `/` when the path starts with
/// one, `.` when a relative path starts with the current directory, then the
/// texts between separators that are neither empty nor `.`. So `a/b`,
/// `a//b`, `a/./b`, `a/b/` and `a/b/.` all have the components `a`, `b`,
/// while `./a/b` has `.`, `a`, `b`.
pub open spec fn path_components(p: Seq<char>) -> Seq<Seq<char>> {
    if p.len() > 0 && p[0] == '/' {
        components_from(p.drop_first(), seq![seq!['/']], Seq::empty())
    } else if p.len() > 0 && p[0] == '.' && (p.len() == 1 || p[1] == '/') {
        components_from(p.drop_first(), seq![seq!['.']], Seq::empty())
    } else {
        components_from(p, Seq::empty(), Seq::empty())
    }
}

/// Two paths are the same path when their components are equal.
pub open spec fn same_path(a: Seq<char>, b: Seq<char>) -> bool {
    path_components(a) == path_components(b)
}

/// Reading a doubled separator, or a separator followed by `./`, gives the
/// same components as reading a single separator, wherever it stands.
proof fn lemma_redundant_separators(a: Seq<char>, q: Seq<char>, done: Seq<Seq<char>>, part: Seq<char>)
    ensures
        components_from(a + seq!['/', '/'] + q, done, part) == components_from(a + seq!['/'] + q, done, part),
        components_from(a + seq!['/', '.', '/'] + q, done, part) == components_from(
            a + seq!['/'] + q,
            done,
            part,
        ),
    decreases a.len(),
{
    let x = a + seq!['/', '/'] + q;
    let y = a + seq!['/'] + q;
    let z = a + seq!['/', '.', '/'] + q;
    if a.len() == 0 {
        let d = finish_component(done, part);
        let empty = Seq::<char>::empty();
        let dot = empty.push('.');
        assert(dot =~= seq!['.']);
        assert(finish_component(d, empty) == d);
        assert(finish_component(d, dot) == d);
        let x1 = seq!['/'] + q;
        let z1 = seq!['.', '/'] + q;
        assert(x.drop_first() =~= x1);
        assert(y =~= x1);
        assert(z.drop_first() =~= z1);
        assert(x1.drop_first() =~= q);
        assert(z1.drop_first() =~= x1);
        assert(components_from(x, done, part) == components_from(x1, d, empty));
        assert(components_from(x1, d, empty) == components_from(q, d, empty));
        assert(components_from(y, done, part) == components_from(q, d, empty));
        assert(components_from(z, done, part) == components_from(z1, d, empty));
        assert(components_from(z1, d, empty) == components_from(x1, d, dot));
        assert(components_from(x1, d, dot) == components_from(q, d, empty));
    } else {
        assert(x[0] == a[0] && y[0] == a[0] && z[0] == a[0]);
        assert(x.drop_first() =~= a.drop_first() + seq!['/', '/'] + q);
        assert(y.drop_first() =~= a.drop_first() + seq!['/'] + q);
        assert(z.drop_first() =~= a.drop_first() + seq!['/', '.', '/'] + q);
        if a[0] == '/' {
            lemma_redundant_separators(a.drop_first(), q, finish_component(done, part), Seq::empty());
        } else {
            lemma_redundant_separators(a.drop_first(), q, done, part.push(a[0]));
        }
    }
}

/// Reading a trailing separator, or a trailing `/.`, changes no component.
proof fn lemma_trailing_separator(a: Seq<char>, done: Seq<Seq<char>>, part: Seq<char>)
    ensures
        components_from(a + seq!['/'], done, part) == components_from(a, done, part),
        components_from(a + seq!['/', '.'], done, part) == components_from(a, done, part),
    decreases a.len(),
{
    let x = a + seq!['/'];
    let y = a + seq!['/', '.'];
    if a.len() == 0 {
        let d = finish_component(done, part);
        let empty = Seq::<char>::empty();
        let dot = empty.push('.');
        assert(dot =~= seq!['.']);
        assert(finish_component(d, empty) == d);
        assert(finish_component(d, dot) == d);
        assert(a =~= empty);
        assert(x =~= seq!['/']);
        assert(y =~= seq!['/', '.']);
        assert(x.drop_first() =~= empty);
        assert(y.drop_first() =~= seq!['.']);
        assert(seq!['.'].drop_first() =~= empty);
        assert(components_from(a, done, part) == d);
        assert(components_from(x, done, part) == components_from(empty, d, empty));
        assert(components_from(y, done, part) == components_from(seq!['.'], d, empty));
        assert(components_from(seq!['.'], d, empty) == components_from(empty, d, dot));
    } else {
        assert(x[0] == a[0] && y[0] == a[0]);
        assert(x.drop_first() =~= a.drop_first() + seq!['/']);
        assert(y.drop_first() =~= a.drop_first() + seq!['/', '.']);
        if a[0] == '/' {
            lemma_trailing_separator(a.drop_first(), finish_component(done, part), Seq::empty());
        } else {
            lemma_trailing_separator(a.drop_first(), done, part.push(a[0]));
        }
    }
}

/// Paths are compared by their components, so redundant separators do not
/// tell two paths apart: `a//b` and `a/./b` are the same path as `a/b`, and
/// a non-empty path is the same path with a trailing `/` or `/.` added.
pub proof fn law_redundant_separators_name_the_same_path(a: Seq<char>, b: Seq<char>)
    ensures
        same_path(a + seq!['/', '/'] + b, a + seq!['/'] + b),
        same_path(a + seq!['/', '.', '/'] + b, a + seq!['/'] + b),
        a.len() > 0 ==> same_path(a + seq!['/'], a),
        a.len() > 0 ==> same_path(a + seq!['/', '.'], a),
{
    let x = a + seq!['/', '/'] + b;
    let y = a + seq!['/'] + b;
    let z = a + seq!['/', '.', '/'] + b;
    let empty = Seq::<Seq<char>>::empty();
    let none = Seq::<char>::empty();
    if a.len() == 0 {
        assert(x[0] == '/' && y[0] == '/' && z[0] == '/');
        assert(x.drop_first() =~= none + seq!['/'] + b);
        assert(z.drop_first() =~= none + seq!['.', '/'] + b);
        assert(y.drop_first() =~= b);
        lemma_trailing_separator(none, seq![seq!['/']], none);
        let d = seq![seq!['/']];
        assert(finish_component(d, none) == d);
        assert(none.push('.') =~= seq!['.']);
        assert(finish_component(d, none.push('.')) == d);
        assert((none + seq!['/'] + b) =~= seq!['/'] + b);
        assert((seq!['/'] + b)[0] == '/');
        assert((seq!['/'] + b).drop_first() =~= b);
        assert((none + seq!['.', '/'] + b) =~= seq!['.', '/'] + b);
        assert((seq!['.', '/'] + b)[0] == '.');
        assert((seq!['.', '/'] + b).drop_first() =~= seq!['/'] + b);
        assert(path_components(z) == components_from(seq!['.', '/'] + b, d, none));
        assert(components_from(seq!['.', '/'] + b, d, none) == components_from(
            seq!['/'] + b,
            d,
            none.push('.'),
        ));
        assert(components_from(seq!['/'] + b, d, none.push('.')) == components_from(b, d, none));
        assert(path_components(y) == components_from(b, d, none));
    } else {
        assert(x[0] == a[0] && y[0] == a[0] && z[0] == a[0]);
        assert(x.drop_first() =~= a.drop_first() + seq!['/', '/'] + b);
        assert(y.drop_first() =~= a.drop_first() + seq!['/'] + b);
        assert(z.drop_first() =~= a.drop_first() + seq!['/', '.', '/'] + b);
        assert(x.len() > 1 && y.len() > 1 && z.len() > 1);
        if a.len() == 1 {
            assert(x[1] == '/' && y[1] == '/' && z[1] == '/');
        } else {
            assert(x[1] == a[1] && y[1] == a[1] && z[1] == a[1]);
        }
        lemma_redundant_separators(a.drop_first(), b, seq![seq!['/']], none);
        lemma_redundant_separators(a.drop_first(), b, seq![seq!['.']], none);
        lemma_redundant_separators(a, b, empty, none);
        let t = a + seq!['/'];
        let u = a + seq!['/', '.'];
        assert(t[0] == a[0] && u[0] == a[0]);
        assert(t.drop_first() =~= a.drop_first() + seq!['/']);
        assert(u.drop_first() =~= a.drop_first() + seq!['/', '.']);
        if a.len() == 1 {
            assert(t[1] == '/' && u[1] == '/');
        } else {
            assert(t[1] == a[1] && u[1] == a[1]);
        }
        lemma_trailing_separator(a.drop_first(), seq![seq!['/']], none);
        lemma_trailing_separator(a.drop_first(), seq![seq!['.']], none);
        lemma_trailing_separator(a, empty, none);
    }
}

fn finish_part(done: &mut Vec<String>, part: String)
    ensures
        path_views(final(done)@) == finish_component(path_views(old(done)@), part@),
{
    proof {
        reveal_strlit(".");
        assert("."@ =~= seq!['.']);
    }
    if part.unicode_len() > 0 && !str_equal(part.as_str(), ".") {
        done.push(part);
        assert(path_views(done@) =~= path_views(old(done)@).push(part@));
    }
}

/// The components of a path, each as a string.
pub fn path_components_of(p: &str) -> (components: Vec<String>)
    ensures
        path_views(components@) == path_components(p@),
{
    proof {
        reveal_strlit("/");
        reveal_strlit(".");
        assert("/"@ =~= seq!['/']);
        assert("."@ =~= seq!['.']);
    }
    let n = p.unicode_len();
    let mut done: Vec<String> = Vec::new();
    let mut start: usize = 0;
    if n > 0 && p.get_char(0) == '/' {
        done.push(String::from_str("/"));
        start = 1;
    } else if n > 0 && p.get_char(0) == '.' && (n == 1 || p.get_char(1) == '/') {
        done.push(String::from_str("."));
        start = 1;
    }
    let mut part = String::new();
    proof {
        assert(p@.skip(start as int) =~= (if start == 1 { p@.drop_first() } else { p@ }));
        if start == 1 {
            if p@[0] == '/' {
                assert(path_views(done@) =~= seq![seq!['/']]);
            } else {
                assert(path_views(done@) =~= seq![seq!['.']]);
            }
        } else {
            assert(path_views(done@) =~= Seq::<Seq<char>>::empty());
        }
        assert(part@ =~= Seq::<char>::empty());
    }
    let mut i: usize = start;
    while i < n
        invariant
            n == p@.len(),
            start <= i <= n,
            components_from(p@.skip(i as int), path_views(done@), part@) == path_components(p@),
        decreases n - i,
    {
        let c = p.get_char(i);
        let ghost rest = p@.skip(i as int);
        assert(rest[0] == c);
        assert(rest.drop_first() =~= p@.skip(i + 1));
        if c == '/' {
            finish_part(&mut done, part);
            part = String::new();
            assert(part@ =~= Seq::<char>::empty());
        } else {
            push_char(&mut part, c);
        }
        i = i + 1;
    }
    assert(p@.skip(n as int) =~= Seq::<char>::empty());
    finish_part(&mut done, part);
    done
}

/// Whether two paths are the same path, component by component.
pub fn same_path_as(a: &str, b: &str) -> (same: bool)
    ensures
        same == same_path(a@, b@),
{
    let ca = path_components_of(a);
    let cb = path_components_of(b);
    let ghost va = path_views(ca@);
    let ghost vb = path_views(cb@);
    if ca.len() != cb.len() {
        assert(va.len() != vb.len());
        return false;
    }
    let n = ca.len();
    let mut i: usize = 0;
    while i < n
        invariant
            n == ca@.len(),
            n == cb@.len(),
            va == path_views(ca@),
            vb == path_views(cb@),
            va == path_components(a@),
            vb == path_components(b@),
            i <= n,
            forall|k: int| 0 <= k < i ==> va[k] == vb[k],
        decreases n - i,
    {
        let equal = ca[i] == cb[i];
        assert(va[i as int] == ca@[i as int]@);
        assert(vb[i as int] == cb@[i as int]@);
        if !equal {
            assert(va[i as int] != vb[i as int]);
            return false;
        }
        i = i + 1;
    }
    assert(va =~= vb);
    true
}

} // verus!
