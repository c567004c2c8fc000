//! What holds of texts: how they are split and joined, and how numbers are written.
use vstd::arithmetic::div_mod::lemma_fundamental_div_mod;
use vstd::prelude::*;

use crate::laws::law_src_below_a_directory_is_kept;
use crate::number::{decimal, digit, hexadecimal, written, Felt252};
use crate::directory::{resolve, stripped};
use crate::text::{
    joined, lemma_names, lemma_position_of, lemma_position_of_is, names_of, position_of, starts_with,
    texts,
};

verus! {

/// Joining two lists joins what each of them joins to, and a list of one text joins to that text.
pub proof fn law_lists_are_joined_one_after_the_other(
    a: Seq<Seq<char>>,
    b: Seq<Seq<char>>,
    separator: Seq<char>,
)
    requires
        a.len() > 0,
        b.len() > 0,
    ensures
        joined(a + b, separator) == joined(a, separator) + separator + joined(b, separator),
        a.len() == 1 ==> joined(a, separator) == a[0],
        joined(Seq::empty(), separator) == Seq::<char>::empty(),
    decreases b.len(),
{
    if b.len() == 1 {
        assert((a + b).drop_last() =~= a);
        assert((a + b).last() == b[0]);
    } else {
        let front = b.drop_last();
        assert((a + b).drop_last() =~= a + front);
        law_lists_are_joined_one_after_the_other(a, front, separator);
        assert(joined(a, separator) + separator + joined(front, separator) + separator + b.last()
            =~= joined(a, separator) + separator + (joined(front, separator) + separator
            + b.last()));
    }
}

/// A text starts with another one if and only if something makes the other one up to it.
pub proof fn law_start_is_followed_by_the_rest(prefix: Seq<char>, rest: Seq<char>, s: Seq<char>)
    ensures
        starts_with(prefix + rest, prefix),
        starts_with(s, prefix) ==> exists|end: Seq<char>| s == #[trigger] (prefix + end),
{
    assert((prefix + rest).subrange(0, prefix.len() as int) =~= prefix);
    if starts_with(s, prefix) {
        let end = s.subrange(prefix.len() as int, s.len() as int);
        assert(s =~= prefix + end);
    }
}

/// The names of a path, with `/` between them, make up the path again, and none of them holds a
/// `/`.
pub proof fn law_names_make_up_the_path(path: Seq<char>)
    ensures
        names_of(path).len() > 0,
        joined(names_of(path), "/"@) == path,
        forall|i: int|
            0 <= i < names_of(path).len() ==> !(#[trigger] names_of(path)[i]).contains('/'),
    decreases path.len(),
{
    reveal_strlit("/");
    lemma_names(path);
    lemma_position_of(path, '/');
    let k = position_of(path, '/');
    if k < path.len() {
        let first = seq![path.subrange(0, k)];
        let rest = path.subrange(k + 1, path.len() as int);
        law_names_make_up_the_path(rest);
        law_lists_are_joined_one_after_the_other(first, names_of(rest), "/"@);
        assert(path =~= path.subrange(0, k) + "/"@ + rest);
    }
}

/// A path that is made up of names is split into those names.
pub proof fn law_path_is_split_into_its_names(names: Seq<Seq<char>>)
    requires
        names.len() > 0,
        forall|i: int| 0 <= i < names.len() ==> !(#[trigger] names[i]).contains('/'),
    ensures
        names_of(joined(names, "/"@)) == names,
    decreases names.len(),
{
    reveal_strlit("/");
    let path = joined(names, "/"@);
    let first = names[0];
    let k = first.len() as int;
    assert forall|i: int| 0 <= i < k implies first[i] != '/' by {
        assert(first.contains(first[i]));
    }
    if names.len() == 1 {
        lemma_position_of_is(path, '/', k);
        assert(names =~= seq![path]);
    } else {
        let rest = names.drop_first();
        assert forall|i: int| 0 <= i < rest.len() implies !(#[trigger] rest[i]).contains('/') by {
            assert(rest[i] == names[i + 1]);
        }
        law_path_is_split_into_its_names(rest);
        assert(names =~= seq![first] + rest);
        law_lists_are_joined_one_after_the_other(seq![first], rest, "/"@);
        assert(path == first + "/"@ + joined(rest, "/"@));
        assert(path[k] == '/');
        assert forall|i: int| 0 <= i < k implies path[i] != '/' by {
            assert(path[i] == first[i]);
        }
        lemma_position_of_is(path, '/', k);
        assert(path.subrange(0, k) =~= first);
        assert(path.subrange(k + 1, path.len() as int) =~= joined(rest, "/"@));
    }
}

/// A file stands where the names of its path lead, one name after the other. A `src/` in front of
/// them is no part of the way.
pub proof fn law_path_leads_through_its_names(names: Seq<Seq<char>>)
    requires
        names.len() > 0,
        forall|i: int| 0 <= i < names.len() ==> !(#[trigger] names[i]).contains('/'),
    ensures
        resolve("src/"@ + joined(names, "/"@)) == names,
        names.len() == 1 || names[0] != "src"@ ==> resolve(joined(names, "/"@)) == names,
{
    reveal_strlit("/");
    reveal_strlit("src/");
    let path = joined(names, "/"@);
    law_path_is_split_into_its_names(names);
    law_rest_of_a_path_is_taken_as_it_is(path);
    if names.len() == 1 {
        if starts_with(path, "src/"@) {
            assert(path.subrange(0, 4)[3] == path[3]);
            assert(names[0].contains(path[3]));
        }
    } else if names[0] != "src"@ {
        let rest = names.drop_first();
        assert(names =~= seq![names[0]] + rest);
        law_lists_are_joined_one_after_the_other(seq![names[0]], rest, "/"@);
        assert forall|i: int| 0 <= i < rest.len() implies !(#[trigger] rest[i]).contains('/') by {
            assert(rest[i] == names[i + 1]);
        }
        law_path_is_split_into_its_names(rest);
        law_src_below_a_directory_is_kept(names[0], joined(rest, "/"@));
    }
}

/// Of a path that starts with `src/` the rest counts, as it is. Any other path counts as a whole.
pub proof fn law_rest_of_a_path_is_taken_as_it_is(path: Seq<char>)
    ensures
        resolve("src/"@ + path) == names_of(path),
        (forall|rest: Seq<char>| path != #[trigger] ("src/"@ + rest)) ==> resolve(path) == names_of(
            path,
        ),
{
    let longer = "src/"@ + path;
    law_start_is_followed_by_the_rest("src/"@, path, path);
    assert(longer.subrange("src/"@.len() as int, longer.len() as int) =~= path);
    assert(stripped(longer) == path);
}

/// The characters of strings are those of each of them, in order.
pub proof fn law_texts_are_those_of_the_strings(strings: Seq<String>)
    ensures
        texts(strings).len() == strings.len(),
        forall|i: int| 0 <= i < strings.len() ==> #[trigger] texts(strings)[i] == strings[i]@,
{
}

/// The value of a digit: `0` to `9`, and then `a` to `f`.
pub open spec fn digit_value(c: char) -> int {
    if '0' <= c <= '9' {
        c as int - '0' as int
    } else {
        c as int - 'a' as int + 10
    }
}

/// The character is a digit of a base.
pub open spec fn is_digit(c: char, radix: int) -> bool {
    ('0' <= c <= '9' || 'a' <= c <= 'f') && digit_value(c) < radix
}

/// The number that a text stands for in a base, digit by digit from the left.
pub open spec fn read(text: Seq<char>, radix: int) -> int
    decreases text.len(),
{
    if text.len() == 0 {
        0
    } else {
        read(text.drop_last(), radix) * radix + digit_value(text.last())
    }
}

/// A number that is written in a base is read back from its text, which is made of digits of that
/// base, at least one, and does not start with a zero unless it is one.
pub proof fn law_number_is_read_back(n: nat, radix: nat)
    requires
        2 <= radix <= 16,
    ensures
        written(n, radix).len() > 0,
        read(written(n, radix), radix as int) == n,
        forall|i: int|
            0 <= i < written(n, radix).len() ==> is_digit(
                #[trigger] written(n, radix)[i],
                radix as int,
            ),
        written(n, radix)[0] == '0' ==> n == 0 && written(n, radix).len() == 1,
    decreases n,
{
    let text = written(n, radix);
    let x = radix as int;
    if n < radix {
        assert(text =~= seq![digit(n)]);
        assert(text.drop_last() =~= Seq::empty());
        assert(read(text.drop_last(), x) == 0);
        assert(0 * x == 0);
    } else {
        let rest = n / radix;
        let last = n % radix;
        lemma_fundamental_div_mod(n as int, x);
        assert(rest < n && rest > 0) by (nonlinear_arith)
            requires
                n == x * rest + last,
                n >= x,
                x >= 2,
                0 <= last < x,
        ;
        law_number_is_read_back(rest, radix);
        let front = written(rest, radix);
        assert(text == front.push(digit(last)));
        assert(text.drop_last() =~= front);
        assert(rest * x == x * rest) by (nonlinear_arith);
        assert forall|i: int| 0 <= i < text.len() implies is_digit(#[trigger] text[i], x) by {
            if i < front.len() {
                assert(is_digit(front[i], x));
            }
        }
        assert(text[0] == front[0]);
    }
}

/// A number in base 10 is made of the digits `0` to `9` and is read back from them.
pub proof fn law_decimal_is_read_back(n: nat)
    ensures
        decimal(n).len() > 0,
        read(decimal(n), 10) == n,
        forall|i: int| 0 <= i < decimal(n).len() ==> '0' <= #[trigger] decimal(n)[i] <= '9',
        decimal(n)[0] == '0' ==> n == 0 && decimal(n).len() == 1,
{
    law_number_is_read_back(n, 10);
    assert forall|i: int| 0 <= i < decimal(n).len() implies '0' <= #[trigger] decimal(n)[i]
        <= '9' by {
        assert(is_digit(written(n, 10)[i], 10));
    }
}

/// A number in base 16 starts with `0x`, and is read back from the digits that follow: `0` to `9`
/// and `a` to `f`.
pub proof fn law_hexadecimal_is_read_back(n: nat)
    ensures
        ({
            let digits = hexadecimal(n).skip(2);
            &&& hexadecimal(n).len() > 2
            &&& hexadecimal(n)[0] == '0'
            &&& hexadecimal(n)[1] == 'x'
            &&& read(digits, 16) == n
            &&& forall|i: int| 0 <= i < digits.len() ==> is_digit(#[trigger] digits[i], 16)
            &&& digits[0] == '0' ==> n == 0 && digits.len() == 1
        }),
{
    reveal_strlit("0x");
    law_number_is_read_back(n, 16);
    assert(hexadecimal(n).skip(2) =~= written(n, 16));
}

/// The integer that stands for an element is the sum of its digits, each worth 64 bits more than
/// the one before it.
pub proof fn law_digits_add_up(n: Felt252)
    ensures
        n.value() == n.digits@[0] + n.digits@[1] * 0x1_0000_0000_0000_0000 + n.digits@[2]
            * 0x1_0000_0000_0000_0000_0000_0000_0000_0000int + n.digits@[3]
            * 0x1_0000_0000_0000_0000_0000_0000_0000_0000_0000_0000_0000_0000int,
{
}

} // verus!
