//! Small string functions, stated over sequences of characters.
use vstd::prelude::*;

verus! {

/// The position of the first `c` in `s`, or the length of `s` if there is none.
pub open spec fn position_of(s: Seq<char>, c: char) -> int
    decreases s.len(),
{
    if s.len() == 0 {
        0
    } else if s[0] == c {
        0
    } else {
        1 + position_of(s.drop_first(), c)
    }
}

/// `s` starts with `prefix`.
pub open spec fn starts_with(s: Seq<char>, prefix: Seq<char>) -> bool {
    prefix.len() <= s.len() && s.subrange(0, prefix.len() as int) =~= prefix
}

/// The names of a path: its parts between `/`. A path without `/` is a name itself.
pub open spec fn names_of(path: Seq<char>) -> Seq<Seq<char>>
    decreases path.len(),
{
    let k = position_of(path, '/');
    if 0 <= k < path.len() {
        seq![path.subrange(0, k)] + names_of(path.subrange(k + 1, path.len() as int))
    } else {
        seq![path]
    }
}

/// The items of `parts`, in order, with `separator` between neighbours.
pub open spec fn joined(parts: Seq<Seq<char>>, separator: Seq<char>) -> Seq<char>
    decreases parts.len(),
{
    if parts.len() == 0 {
        Seq::empty()
    } else if parts.len() == 1 {
        parts[0]
    } else {
        joined(parts.drop_last(), separator) + separator + parts.last()
    }
}

/// The characters of each string of a sequence.
pub open spec fn texts(strings: Seq<String>) -> Seq<Seq<char>> {
    strings.map_values(|s: String| s@)
}

/// The characters of an optional string.
pub open spec fn optional_text(s: Option<String>) -> Option<Seq<char>> {
    match s {
        Some(s) => Some(s@),
        None => None,
    }
}

/// `position_of` is the least position that holds `c`.
pub proof fn lemma_position_of(s: Seq<char>, c: char)
    ensures
        0 <= position_of(s, c) <= s.len(),
        position_of(s, c) < s.len() ==> s[position_of(s, c)] == c,
        forall|i: int| 0 <= i < position_of(s, c) ==> s[i] != c,
    decreases s.len(),
{
    if s.len() > 0 && s[0] != c {
        lemma_position_of(s.drop_first(), c);
        assert forall|i: int| 0 <= i < position_of(s, c) implies s[i] != c by {
            if i > 0 {
                assert(s[i] == s.drop_first()[i - 1]);
            }
        }
    }
}

/// The position that holds the first `c` is `position_of`.
pub proof fn lemma_position_of_is(s: Seq<char>, c: char, k: int)
    requires
        0 <= k <= s.len(),
        k < s.len() ==> s[k] == c,
        forall|i: int| 0 <= i < k ==> s[i] != c,
    ensures
        position_of(s, c) == k,
{
    lemma_position_of(s, c);
}

/// A path has at least one name, and no name holds a `/`.
pub proof fn lemma_names(path: Seq<char>)
    ensures
        names_of(path).len() > 0,
        forall|i: int| 0 <= i < names_of(path).len() ==> !(#[trigger] names_of(path)[i]).contains('/'),
    decreases path.len(),
{
    let k = position_of(path, '/');
    lemma_position_of(path, '/');
    if k < path.len() {
        let rest = path.subrange(k + 1, path.len() as int);
        lemma_names(rest);
        assert forall|i: int| 0 <= i < names_of(path).len() implies !(
        #[trigger] names_of(path)[i]).contains('/') by {
            if i > 0 {
                assert(names_of(path)[i] == names_of(rest)[i - 1]);
            }
        }
    }
}

/// Different paths have different names.
pub proof fn lemma_same_names(a: Seq<char>, b: Seq<char>)
    requires
        names_of(a) == names_of(b),
    ensures
        a == b,
    decreases a.len(),
{
    let j = position_of(a, '/');
    let k = position_of(b, '/');
    lemma_position_of(a, '/');
    lemma_position_of(b, '/');
    let names = names_of(a);
    if j < a.len() {
        lemma_names(a.subrange(j + 1, a.len() as int));
    }
    if k < b.len() {
        lemma_names(b.subrange(k + 1, b.len() as int));
    }
    if j < a.len() && k < b.len() {
        let rest_a = a.subrange(j + 1, a.len() as int);
        let rest_b = b.subrange(k + 1, b.len() as int);
        assert(names[0] == a.subrange(0, j) && names[0] == b.subrange(0, k));
        assert(names_of(a).drop_first() =~= names_of(rest_a));
        assert(names_of(b).drop_first() =~= names_of(rest_b));
        lemma_same_names(rest_a, rest_b);
        assert(a =~= a.subrange(0, j) + seq!['/'] + rest_a);
        assert(b =~= b.subrange(0, k) + seq!['/'] + rest_b);
    } else {
        assert(names[0] == a || names.len() > 1);
        assert(names_of(b)[0] == b || names_of(b).len() > 1);
    }
}

/// Whether two strings hold the same characters.
pub fn equal(a: &str, b: &str) -> (r: bool)
    ensures
        r == (a@ == b@),
{
    a.to_owned() == b.to_owned()
}

/// What follows `prefix` in `s`, if `s` starts with it.
pub fn strip_prefix<'a>(s: &'a str, prefix: &str) -> (r: Option<&'a str>)
    ensures
        r is Some <==> starts_with(s@, prefix@),
        r matches Some(rest) ==> rest@ == s@.subrange(prefix@.len() as int, s@.len() as int),
{
    let n: usize = prefix.unicode_len();
    let len: usize = s.unicode_len();
    if len < n {
        return None;
    }
    if equal(s.substring_char(0, n), prefix) {
        Some(s.substring_char(n, len))
    } else {
        None
    }
}

/// The parts of `s` before and after its first `c`.
pub fn split_first<'a>(s: &'a str, c: char) -> (r: Option<(&'a str, &'a str)>)
    ensures
        r is Some <==> position_of(s@, c) < s@.len(),
        r matches Some((before, after)) ==> {
            let k = position_of(s@, c);
            before@ == s@.subrange(0, k) && after@ == s@.subrange(k + 1, s@.len() as int)
        },
{
    let len: usize = s.unicode_len();
    let mut i: usize = 0;
    while i < len
        invariant
            len == s@.len(),
            i <= len,
            forall|j: int| 0 <= j < i ==> s@[j] != c,
        decreases len - i,
    {
        if s.get_char(i) == c {
            proof {
                lemma_position_of_is(s@, c, i as int);
            }
            return Some((s.substring_char(0, i), s.substring_char(i + 1, len)));
        }
        i = i + 1;
    }
    proof {
        lemma_position_of_is(s@, c, len as int);
    }
    None
}

/// Joins strings with a separator.
pub fn join(parts: &Vec<String>, separator: &str) -> (r: String)
    ensures
        r@ == joined(texts(parts@), separator@),
{
    let mut r = String::new();
    let mut i: usize = 0;
    while i < parts.len()
        invariant
            i <= parts.len(),
            r@ == joined(texts(parts@).take(i as int), separator@),
        decreases parts.len() - i,
    {
        if i > 0 {
            r.append(separator);
        }
        r.append(parts[i].as_str());
        proof {
            let all = texts(parts@);
            assert(all.take(i + 1).drop_last() =~= all.take(i as int));
            assert(all.take(i + 1).last() == parts@[i as int]@);
            if i == 0 {
                assert(r@ =~= all.take(1)[0]);
            }
        }
        i = i + 1;
    }
    assert(texts(parts@).take(i as int) =~= texts(parts@));
    r
}

/// One string made of two.
pub fn followed_by(a: &str, b: &str) -> (r: String)
    ensures
        r@ == a@ + b@,
{
    let mut r = a.to_owned();
    r.append(b);
    r
}

} // verus!
