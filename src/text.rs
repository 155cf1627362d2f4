use vstd::prelude::*;
use crate::activity::opt_str_view;

verus! {

/// `s` ends with `suffix`.
pub open spec fn ends_with(s: Seq<char>, suffix: Seq<char>) -> bool {
    s.len() >= suffix.len() && s.subrange(s.len() - suffix.len(), s.len() as int) == suffix
}

/// `s` with one trailing badge extension removed, when it has one.
pub open spec fn strip_extension(s: Seq<char>) -> Seq<char> {
    if ends_with(s, ".svg"@) {
        s.subrange(0, s.len() - 4)
    } else {
        s
    }
}

/// Whether the first `end` characters of `s` end with the badge extension.
fn prefix_ends_with_extension(s: &str, end: usize) -> (r: bool)
    requires
        end <= s@.len(),
    ensures
        r == (end >= 4 && ends_with(s@.subrange(0, end as int), ".svg"@)),
{
    proof {
        reveal_strlit(".svg");
    }
    if end < 4 {
        return false;
    }
    let r = s.get_char(end - 4) == '.' && s.get_char(end - 3) == 's' && s.get_char(end - 2) == 'v'
        && s.get_char(end - 1) == 'g';
    let ghost p = s@.subrange(0, end as int);
    assert(".svg"@ =~= seq!['.', 's', 'v', 'g']);
    assert(r == (p.subrange(p.len() - 4, p.len() as int) =~= ".svg"@));
    r
}

/// Removes one trailing badge extension from `s`, when it has one.
pub fn trim_extension(s: &str) -> (r: String)
    ensures
        r@ == strip_extension(s@),
{
    proof {
        reveal_strlit(".svg");
    }
    let n: usize = s.unicode_len();
    assert(s@.subrange(0, n as int) =~= s@);
    let end: usize = if prefix_ends_with_extension(s, n) {
        n - 4
    } else {
        n
    };
    let t = s.substring_char(0, end);
    t.to_owned()
}

/// The identity that a badge path names: the path is `/` followed by one
/// segment, from which one trailing badge extension is removed; what is left
/// must not be empty.
pub open spec fn badge_identity(path: Seq<char>) -> Option<Seq<char>> {
    if path.len() >= 2 && path[0] == '/' && (forall|i: int| 1 <= i < path.len() ==> path[i] != '/')
        && strip_extension(path.subrange(1, path.len() as int)).len() > 0 {
        Some(strip_extension(path.subrange(1, path.len() as int)))
    } else {
        None
    }
}

/// Reads the identity out of a badge path, or `None` when the path does not
/// hold exactly one segment or names no identity.
pub fn parse_badge_path(path: &str) -> (r: Option<String>)
    ensures
        opt_str_view(r) == badge_identity(path@),
{
    let n = path.unicode_len();
    if n < 2 || path.get_char(0) != '/' {
        return None;
    }
    let mut i: usize = 1;
    while i < n
        invariant
            n == path@.len(),
            1 <= i <= n,
            forall|j: int| 1 <= j < i ==> path@[j] != '/',
        decreases n - i,
    {
        if path.get_char(i) == '/' {
            return None;
        }
        i = i + 1;
    }
    let segment = path.substring_char(1, n);
    let identity = trim_extension(segment);
    if identity.as_str().unicode_len() == 0 {
        None
    } else {
        Some(identity)
    }
}

/// Whether `a` and `b` hold the same characters.
pub fn str_eq(a: &str, b: &str) -> (r: bool)
    ensures
        r == (a@ == b@),
{
    let n = a.unicode_len();
    if n != b.unicode_len() {
        return false;
    }
    let mut i: usize = 0;
    while i < n
        invariant
            n == a@.len(),
            n == b@.len(),
            i <= n,
            forall|j: int| 0 <= j < i ==> a@[j] == b@[j],
        decreases n - i,
    {
        if a.get_char(i) != b.get_char(i) {
            return false;
        }
        i = i + 1;
    }
    assert(a@ =~= b@);
    true
}

/// `prefix` followed by `rest`.
pub fn concat(prefix: &str, rest: &str) -> (r: String)
    ensures
        r@ == prefix@ + rest@,
{
    let s = String::from_str(prefix);
    s.concat(rest)
}

} // verus!
