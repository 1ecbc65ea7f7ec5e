//! Canonical form of HTTP paths.
use vstd::prelude::*;
use crate::text::push_char;

verus! {

/// The characters of `s` with every run of consecutive `/` collapsed into one.
pub open spec fn collapse_slashes(s: Seq<char>) -> Seq<char>
    decreases s.len(),
{
    if s.len() == 0 {
        Seq::empty()
    } else {
        let r = collapse_slashes(s.drop_last());
        if s.last() == '/' && r.len() > 0 && r.last() == '/' {
            r
        } else {
            r.push(s.last())
        }
    }
}

/// `s` without its trailing `/` characters.
pub open spec fn trim_trailing_slashes(s: Seq<char>) -> Seq<char>
    decreases s.len(),
{
    if s.len() > 0 && s.last() == '/' {
        trim_trailing_slashes(s.drop_last())
    } else {
        s
    }
}

/// The canonical form of a path: slashes collapsed, trailing slashes removed,
/// and `/` when nothing else is left.
pub open spec fn canonical_path(s: Seq<char>) -> Seq<char> {
    let t = trim_trailing_slashes(collapse_slashes(s));
    if t.len() == 0 {
        seq!['/']
    } else {
        t
    }
}

/// Canonicalize an HTTP path by collapsing duplicate slashes and removing
/// trailing slashes; a path made only of slashes (or empty) becomes `/`.
///
/// A slash is written only once a character other than `/` follows it, so
/// that what has been written is always the collapsed prefix without its
/// trailing slash.
pub fn canonicalize_path(path: &str) -> (res: String)
    ensures
        res@ == canonical_path(path@),
{
    broadcast use vstd::string::to_string_from_display_ensures_for_str;

    let mut result = String::new();
    let mut prev_was_slash = false;
    for c in iter: path.chars()
        invariant
            iter.seq() == path@,
            result@ == trim_trailing_slashes(collapse_slashes(path@.take(iter.index() as int))),
            prev_was_slash <==> ({
                let done = collapse_slashes(path@.take(iter.index() as int));
                done.len() > 0 && done.last() == '/'
            }),
    {
        let ghost done = collapse_slashes(path@.take(iter.index() as int));
        proof {
            assert(path@.take(iter.index() + 1).drop_last() =~= path@.take(iter.index() as int));
            lemma_collapse_push(path@.take(iter.index() as int), c);
            assert(path@.take(iter.index() + 1) =~= path@.take(iter.index() as int).push(c));
            lemma_collapse_shape(path@.take(iter.index() as int));
            lemma_trim_after_slash(done);
        }
        if c == '/' {
            prev_was_slash = true;
            proof {
                assert(done.push('/').drop_last() =~= done);
                assert(trim_trailing_slashes(done.push('/')) == trim_trailing_slashes(done));
            }
        } else {
            if prev_was_slash {
                push_char(&mut result, '/');
            }
            push_char(&mut result, c);
            prev_was_slash = false;
            proof {
                let pushed = done.push(c);
                assert(pushed.drop_last() =~= done);
                assert(trim_trailing_slashes(pushed) == pushed);
                if done.len() > 0 && done.last() == '/' {
                    assert(done.drop_last().push('/') =~= done);
                }
            }
        }
    }
    assert(path@.take(path@.len() as int) =~= path@);
    if result.as_str().is_empty() {
        proof {
            reveal_strlit("/");
        }
        "/".to_string()
    } else {
        result
    }
}

/// In a sequence without doubled slashes, trimming trailing slashes drops at
/// most the last character, and keeps a sequence that ends otherwise.
proof fn lemma_trim_after_slash(s: Seq<char>)
    requires
        no_double_slash(s),
    ensures
        s.len() > 0 && s.last() == '/' ==> trim_trailing_slashes(s) == s.drop_last(),
        !(s.len() > 0 && s.last() == '/') ==> trim_trailing_slashes(s) == s,
{
    if s.len() > 0 && s.last() == '/' {
        let p = s.drop_last();
        if p.len() > 0 {
            assert(!(s[s.len() - 2] == '/' && s[s.len() - 1] == '/'));
            assert(p.last() == s[s.len() - 2]);
        }
        assert(trim_trailing_slashes(p) == p);
        assert(trim_trailing_slashes(s) == trim_trailing_slashes(p));
    }
}

/// `s` has no two consecutive `/` characters.
pub open spec fn no_double_slash(s: Seq<char>) -> bool {
    forall|i: int| 0 <= i < s.len() - 1 ==> !(#[trigger] s[i] == '/' && s[i + 1] == '/')
}

/// The characters of `s` other than `/`, in order.
pub open spec fn non_slash_chars(s: Seq<char>) -> Seq<char>
    decreases s.len(),
{
    if s.len() == 0 {
        Seq::empty()
    } else if s.last() == '/' {
        non_slash_chars(s.drop_last())
    } else {
        non_slash_chars(s.drop_last()).push(s.last())
    }
}

proof fn lemma_collapse_push(s: Seq<char>, c: char)
    ensures
        collapse_slashes(s.push(c)) == (if c == '/' && collapse_slashes(s).len() > 0
            && collapse_slashes(s).last() == '/' {
            collapse_slashes(s)
        } else {
            collapse_slashes(s).push(c)
        }),
{
    assert(s.push(c).drop_last() =~= s);
}

proof fn lemma_collapse_shape(s: Seq<char>)
    ensures
        no_double_slash(collapse_slashes(s)),
        non_slash_chars(collapse_slashes(s)) == non_slash_chars(s),
        collapse_slashes(s).len() <= s.len(),
        s.len() > 0 ==> collapse_slashes(s).len() > 0 && collapse_slashes(s).last() == s.last(),
    decreases s.len(),
{
    if s.len() > 0 {
        let p = s.drop_last();
        lemma_collapse_shape(p);
        let r = collapse_slashes(p);
        if !(s.last() == '/' && r.len() > 0 && r.last() == '/') {
            assert(r.push(s.last()).drop_last() =~= r);
        } else {
            assert(p.len() > 0);
        }
    }
}

proof fn lemma_collapse_fixed(s: Seq<char>)
    requires
        no_double_slash(s),
    ensures
        collapse_slashes(s) == s,
    decreases s.len(),
{
    if s.len() > 0 {
        let p = s.drop_last();
        assert(no_double_slash(p)) by {
            assert forall|i: int| 0 <= i < p.len() - 1 implies !(#[trigger] p[i] == '/' && p[i
                + 1] == '/') by {
                assert(p[i] == s[i] && p[i + 1] == s[i + 1]);
            }
        }
        lemma_collapse_fixed(p);
        if p.len() > 0 {
            assert(s[p.len() - 1] == p.last());
        }
        assert(p.push(s.last()) =~= s);
    }
}

proof fn lemma_trim_shape(s: Seq<char>)
    ensures
        trim_trailing_slashes(s).len() <= s.len(),
        trim_trailing_slashes(s) =~= s.take(trim_trailing_slashes(s).len() as int),
        trim_trailing_slashes(s).len() > 0 ==> trim_trailing_slashes(s).last() != '/',
        non_slash_chars(trim_trailing_slashes(s)) == non_slash_chars(s),
    decreases s.len(),
{
    if s.len() > 0 && s.last() == '/' {
        let p = s.drop_last();
        lemma_trim_shape(p);
        let t = trim_trailing_slashes(p);
        assert(t =~= s.take(t.len() as int));
    }
}

proof fn lemma_no_double_prefix(s: Seq<char>, n: int)
    requires
        no_double_slash(s),
        0 <= n <= s.len(),
    ensures
        no_double_slash(s.take(n)),
{
    let t = s.take(n);
    assert forall|i: int| 0 <= i < t.len() - 1 implies !(#[trigger] t[i] == '/' && t[i + 1]
        == '/') by {
        assert(t[i] == s[i] && t[i + 1] == s[i + 1]);
    }
}

/// The canonical form of any path is non-empty, holds no two consecutive
/// slashes, ends in a slash only when it is exactly `/`, and keeps every
/// character of the path other than `/`, in order.
pub proof fn lemma_canonical_shape(s: Seq<char>)
    ensures
        canonical_path(s).len() > 0,
        no_double_slash(canonical_path(s)),
        canonical_path(s).last() == '/' ==> canonical_path(s) == seq!['/'],
        non_slash_chars(canonical_path(s)) == non_slash_chars(s),
{
    let c = collapse_slashes(s);
    lemma_collapse_shape(s);
    lemma_trim_shape(c);
    let t = trim_trailing_slashes(c);
    lemma_no_double_prefix(c, t.len() as int);
    if t.len() == 0 {
        let one = seq!['/'];
        assert(one.drop_last() =~= Seq::<char>::empty());
        assert(non_slash_chars(one) == non_slash_chars(Seq::<char>::empty()));
        assert(non_slash_chars(t) == Seq::<char>::empty());
    }
}

/// Canonicalizing is idempotent: a canonical path is its own canonical form.
pub proof fn lemma_canonical_idempotent(s: Seq<char>)
    ensures
        canonical_path(canonical_path(s)) == canonical_path(s),
{
    lemma_canonical_shape(s);
    let c = canonical_path(s);
    lemma_collapse_fixed(c);
    if c == seq!['/'] {
        let one = seq!['/'];
        assert(one.drop_last() =~= Seq::<char>::empty());
        assert(trim_trailing_slashes(one.drop_last()).len() == 0);
    } else {
        assert(c.last() != '/');
    }
}

/// A trailing slash does not change the canonical form of a path.
pub proof fn lemma_canonical_trailing_slash(s: Seq<char>)
    ensures
        canonical_path(s.push('/')) == canonical_path(s),
{
    lemma_collapse_push(s, '/');
    let r = collapse_slashes(s);
    if !(r.len() > 0 && r.last() == '/') {
        assert(r.push('/').drop_last() =~= r);
    }
}

proof fn lemma_collapse_congruent(a: Seq<char>, b: Seq<char>, rest: Seq<char>)
    requires
        collapse_slashes(a) == collapse_slashes(b),
    ensures
        collapse_slashes(a + rest) == collapse_slashes(b + rest),
    decreases rest.len(),
{
    if rest.len() == 0 {
        assert(a + rest =~= a);
        assert(b + rest =~= b);
    } else {
        let p = rest.drop_last();
        lemma_collapse_congruent(a, b, p);
        assert((a + p).push(rest.last()) =~= a + rest);
        assert((b + p).push(rest.last()) =~= b + rest);
        lemma_collapse_push(a + p, rest.last());
        lemma_collapse_push(b + p, rest.last());
    }
}

/// Doubling a slash anywhere in a path does not change its canonical form:
/// `a + "//" + b` and `a + "/" + b` are the same path.
pub proof fn lemma_canonical_double_slash(a: Seq<char>, b: Seq<char>)
    ensures
        canonical_path(a + seq!['/', '/'] + b) == canonical_path(a + seq!['/'] + b),
{
    lemma_collapse_push(a, '/');
    lemma_collapse_push(a.push('/'), '/');
    lemma_collapse_shape(a.push('/'));
    assert(a.push('/').push('/') =~= a + seq!['/', '/']);
    assert(a.push('/') =~= a + seq!['/']);
    lemma_collapse_congruent(a + seq!['/', '/'], a + seq!['/'], b);
}

} // verus!
