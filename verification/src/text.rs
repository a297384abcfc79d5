//! Character-level text helpers: turning strings into character vectors,
//! sanitizing file names, and locating the `/` of a MIME type.

use vstd::prelude::*;
use vstd::string::StrSliceExecFns;

verus! {

/// What one character of a prospective file name becomes: `/` is not
/// acceptable in a file name and turns into `" - "`; every other
/// character stays as it is.
pub open spec fn sanitize_char(c: char) -> Seq<char> {
    if c == '/' {
        seq![' ', '-', ' ']
    } else {
        seq![c]
    }
}

/// A file name with every `/` replaced by `" - "`.
pub open spec fn sanitize_view(s: Seq<char>) -> Seq<char>
    decreases s.len(),
{
    if s.len() == 0 {
        Seq::empty()
    } else {
        sanitize_view(s.drop_last()) + sanitize_char(s.last())
    }
}

/// Sanitizing distributes over concatenation.
pub proof fn lemma_sanitize_concat(a: Seq<char>, b: Seq<char>)
    ensures
        sanitize_view(a + b) == sanitize_view(a) + sanitize_view(b),
    decreases b.len(),
{
    if b.len() == 0 {
        assert(a + b =~= a);
        assert(sanitize_view(b) =~= Seq::<char>::empty());
        assert(sanitize_view(a) + sanitize_view(b) =~= sanitize_view(a));
    } else {
        lemma_sanitize_concat(a, b.drop_last());
        assert((a + b).drop_last() =~= a + b.drop_last());
        assert((a + b).last() == b.last());
        assert(sanitize_view(a) + sanitize_view(b.drop_last()) + sanitize_char(b.last())
            =~= sanitize_view(a) + (sanitize_view(b.drop_last()) + sanitize_char(b.last())));
    }
}

/// A sanitized name never holds a `/`.
pub proof fn lemma_sanitize_no_slash(s: Seq<char>)
    ensures
        forall|j: int| 0 <= j < sanitize_view(s).len() ==> sanitize_view(s)[j] != '/',
    decreases s.len(),
{
    if s.len() > 0 {
        lemma_sanitize_no_slash(s.drop_last());
        let p = sanitize_view(s.drop_last());
        let t = sanitize_char(s.last());
        assert forall|j: int| 0 <= j < sanitize_view(s).len() implies sanitize_view(s)[j]
            != '/' by {
            if j < p.len() {
                assert(sanitize_view(s)[j] == p[j]);
            } else {
                assert(sanitize_view(s)[j] == t[j - p.len()]);
            }
        }
    }
}

/// A `/` at index `i` is replaced: the sanitized string decomposes
/// around it into `" - "`, with everything before and after sanitized
/// on its own.
pub proof fn lemma_sanitize_replaces_slash(s: Seq<char>, i: int)
    requires
        0 <= i < s.len(),
        s[i] == '/',
    ensures
        sanitize_view(s) == sanitize_view(s.subrange(0, i)) + seq![' ', '-', ' ']
            + sanitize_view(s.subrange(i + 1, s.len() as int)),
{
    let a = s.subrange(0, i);
    let b = s.subrange(i + 1, s.len() as int);
    let sl = seq!['/'];
    let e = Seq::<char>::empty();
    assert(sl.drop_last() =~= e);
    assert(sl.last() == '/');
    assert(sanitize_view(e) == Seq::<char>::empty());
    assert(sanitize_view(sl) == sanitize_view(sl.drop_last()) + sanitize_char(sl.last()));
    assert(sanitize_view(sl) =~= seq![' ', '-', ' ']);
    assert(s =~= (a + sl) + b);
    lemma_sanitize_concat(a + sl, b);
    lemma_sanitize_concat(a, sl);
}

/// Whether `s` holds a `/` anywhere.
pub open spec fn has_slash(s: Seq<char>) -> bool {
    exists|i: int| 0 <= i < s.len() && s[i] == '/'
}

/// The index of the first `/` of `s`, or `s.len()` when there is none.
pub open spec fn first_slash(s: Seq<char>) -> int
    decreases s.len(),
{
    if s.len() == 0 {
        0
    } else if s[0] == '/' {
        0
    } else {
        1 + first_slash(s.drop_first())
    }
}

/// `first_slash` is the first index of a `/`: nothing before it is a
/// `/`, and it points at a `/` exactly when the string holds one.
pub proof fn lemma_first_slash(s: Seq<char>)
    ensures
        0 <= first_slash(s) <= s.len(),
        has_slash(s) <==> first_slash(s) < s.len(),
        first_slash(s) < s.len() ==> s[first_slash(s)] == '/',
        forall|j: int| 0 <= j < first_slash(s) ==> s[j] != '/',
    decreases s.len(),
{
    if s.len() == 0 {
    } else if s[0] == '/' {
    } else {
        lemma_first_slash(s.drop_first());
        let t = s.drop_first();
        assert(forall|j: int| 0 <= j < t.len() ==> t[j] == s[j + 1]);
        if has_slash(s) {
            let i = choose|i: int| 0 <= i < s.len() && s[i] == '/';
            assert(t[i - 1] == '/');
            assert(has_slash(t));
        }
        if has_slash(t) {
            let i = choose|i: int| 0 <= i < t.len() && t[i] == '/';
            assert(s[i + 1] == '/');
            assert(has_slash(s));
        }
        assert forall|j: int| 0 <= j < first_slash(s) implies s[j] != '/' by {
            if j > 0 {
                assert(t[j - 1] == s[j]);
                assert(t[j - 1] != '/');
            }
        }
    }
}

/// Collects the characters of `s`, in order.
pub fn chars_of(s: &str) -> (r: Vec<char>)
    ensures
        r@ == s@,
{
    let n = s.unicode_len();
    let mut r: Vec<char> = Vec::new();
    let mut i: usize = 0;
    while i < n
        invariant
            n == s@.len(),
            i <= n,
            r@ == s@.subrange(0, i as int),
        decreases n - i,
    {
        let c = s.get_char(i);
        r.push(c);
        assert(r@ =~= s@.subrange(0, i as int + 1));
        i = i + 1;
    }
    assert(r@ =~= s@);
    r
}

/// Relies on `String`'s `FromIterator<char>` impl: collecting characters
/// yields the string made of exactly those characters, in order.
#[verifier::external_body]
pub fn string_from_chars(v: &Vec<char>) -> (r: String)
    ensures
        r@ == v@,
{
    v.iter().collect()
}

/// Replaces every `/` of `s` by `" - "`, keeping all other characters.
pub fn sanitize_chars(s: &Vec<char>) -> (r: Vec<char>)
    ensures
        r@ == sanitize_view(s@),
{
    let mut r: Vec<char> = Vec::new();
    let n = s.len();
    let mut i: usize = 0;
    while i < n
        invariant
            n == s@.len(),
            i <= n,
            r@ == sanitize_view(s@.subrange(0, i as int)),
        decreases n - i,
    {
        let c = s[i];
        if c == '/' {
            r.push(' ');
            r.push('-');
            r.push(' ');
        } else {
            r.push(c);
        }
        proof {
            let pre = s@.subrange(0, i as int);
            let post = s@.subrange(0, i as int + 1);
            assert(post.drop_last() =~= pre);
            assert(post.last() == s@[i as int]);
            assert(r@ =~= sanitize_view(pre) + sanitize_char(s@[i as int]));
        }
        i = i + 1;
    }
    assert(s@.subrange(0, n as int) =~= s@);
    r
}

/// Finds the index of the first `/` of `s`, or `s.len()` when none exists.
pub fn find_first_slash(s: &Vec<char>) -> (i: usize)
    ensures
        i == first_slash(s@),
        i <= s@.len(),
        i < s@.len() ==> s@[i as int] == '/',
        forall|j: int| 0 <= j < i ==> s@[j] != '/',
        has_slash(s@) <==> i < s@.len(),
{
    let n = s.len();
    let mut i: usize = 0;
    while i < n
        invariant
            n == s@.len(),
            i <= n,
            forall|j: int| 0 <= j < i ==> s@[j] != '/',
        decreases n - i,
    {
        if s[i] == '/' {
            proof {
                lemma_first_slash(s@);
                assert(has_slash(s@));
                if first_slash(s@) < i {
                    assert(s@[first_slash(s@)] == '/');
                    assert(false);
                }
                if first_slash(s@) > i {
                    assert(s@[i as int] != '/');
                    assert(false);
                }
            }
            return i;
        }
        i = i + 1;
    }
    proof {
        lemma_first_slash(s@);
        if has_slash(s@) {
            assert(s@[first_slash(s@)] == '/');
            assert(false);
        }
    }
    n
}

} // verus!
