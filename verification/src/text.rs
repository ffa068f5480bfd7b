//! Text building blocks shared by the endpoint and query builders: decimal
//! rendering of integers and joining of lists with a separator.
use vstd::prelude::*;

verus! {

/// `String::push` appends one character at the end of the string.
pub assume_specification[ String::push ](s: &mut String, ch: char)
    ensures
        final(s)@ == old(s)@.push(ch),
;

/// The character that writes the decimal digit `d` (for `d < 10`).
pub open spec fn digit_char(d: nat) -> char {
    if d == 0 {
        '0'
    } else if d == 1 {
        '1'
    } else if d == 2 {
        '2'
    } else if d == 3 {
        '3'
    } else if d == 4 {
        '4'
    } else if d == 5 {
        '5'
    } else if d == 6 {
        '6'
    } else if d == 7 {
        '7'
    } else if d == 8 {
        '8'
    } else {
        '9'
    }
}

/// The decimal notation of a natural number, without leading zeros.
pub open spec fn decimal(n: nat) -> Seq<char>
    decreases n,
{
    if n < 10 {
        seq![digit_char(n)]
    } else {
        decimal(n / 10).push(digit_char(n % 10))
    }
}

/// The decimal notation of an integer: a minus sign before negative numbers.
pub open spec fn signed_decimal(n: int) -> Seq<char> {
    if n < 0 {
        seq!['-'] + decimal((-n) as nat)
    } else {
        decimal(n as nat)
    }
}

/// The text of a boolean as Rust's `Display` writes it.
pub open spec fn bool_text(b: bool) -> Seq<char> {
    if b {
        seq!['t', 'r', 'u', 'e']
    } else {
        seq!['f', 'a', 'l', 's', 'e']
    }
}

/// The parts written one after the other with `sep` between neighbours.
pub open spec fn join(parts: Seq<Seq<char>>, sep: Seq<char>) -> Seq<char>
    decreases parts.len(),
{
    if parts.len() == 0 {
        Seq::empty()
    } else if parts.len() == 1 {
        parts[0]
    } else {
        join(parts.drop_last(), sep) + sep + parts.last()
    }
}

/// The views of a list of owned strings.
pub open spec fn string_views(v: Seq<String>) -> Seq<Seq<char>> {
    v.map_values(|s: String| s@)
}

/// The views of a list of borrowed strings.
pub open spec fn str_views(v: Seq<&str>) -> Seq<Seq<char>> {
    v.map_values(|s: &str| s@)
}

fn digit_to_char(d: u64) -> (c: char)
    requires
        d < 10,
    ensures
        c == digit_char(d as nat),
{
    if d == 0 {
        '0'
    } else if d == 1 {
        '1'
    } else if d == 2 {
        '2'
    } else if d == 3 {
        '3'
    } else if d == 4 {
        '4'
    } else if d == 5 {
        '5'
    } else if d == 6 {
        '6'
    } else if d == 7 {
        '7'
    } else if d == 8 {
        '8'
    } else {
        '9'
    }
}

/// Appends the decimal notation of `n` to `out`.
pub fn push_decimal(out: &mut String, n: u64)
    ensures
        final(out)@ == old(out)@ + decimal(n as nat),
    decreases n,
{
    if n < 10 {
        out.push(digit_to_char(n));
        assert(decimal(n as nat) == seq![digit_char(n as nat)]);
    } else {
        push_decimal(out, n / 10);
        out.push(digit_to_char(n % 10));
    }
}

/// Appends the decimal notation of a signed integer to `out`.
pub fn push_signed_decimal(out: &mut String, n: i64)
    ensures
        final(out)@ == old(out)@ + signed_decimal(n as int),
{
    if n < 0 {
        out.push('-');
        let magnitude: u64 = if n == i64::MIN {
            9223372036854775808u64
        } else {
            (-n) as u64
        };
        push_decimal(out, magnitude);
    } else {
        push_decimal(out, n as u64);
    }
}

/// Appends `true` or `false` to `out`.
pub fn push_bool(out: &mut String, b: bool)
    ensures
        final(out)@ == old(out)@ + bool_text(b),
{
    if b {
        out.append("true");
        proof {
            reveal_strlit("true");
        }
    } else {
        out.append("false");
        proof {
            reveal_strlit("false");
        }
    }
}

/// Appends the strings of `parts` to `out`, separated by `sep`.
pub fn push_joined(out: &mut String, parts: &Vec<String>, sep: &str)
    ensures
        final(out)@ == old(out)@ + join(string_views(parts@), sep@),
{
    let ghost start = out@;
    let ghost views = string_views(parts@);
    let mut i: usize = 0;
    while i < parts.len()
        invariant
            i <= parts.len(),
            views == string_views(parts@),
            out@ == start + join(views.take(i as int), sep@),
        decreases parts.len() - i,
    {
        let ghost before = out@;
        if i > 0 {
            out.append(sep);
        }
        out.append(parts[i].as_str());
        proof {
            let taken = views.take(i as int + 1);
            assert(taken.drop_last() =~= views.take(i as int));
            assert(taken.last() == parts@[i as int]@);
            if i == 0 {
                assert(join(views.take(0), sep@) =~= Seq::<char>::empty());
                assert(out@ =~= start + join(taken, sep@));
            } else {
                assert(out@ =~= start + join(taken, sep@));
            }
        }
        i = i + 1;
    }
    assert(views.take(parts.len() as int) =~= views);
}

/// Appends the strings of `parts` to `out`, separated by `sep`.
pub fn push_joined_strs(out: &mut String, parts: &Vec<&str>, sep: &str)
    ensures
        final(out)@ == old(out)@ + join(str_views(parts@), sep@),
{
    let ghost start = out@;
    let ghost views = str_views(parts@);
    let mut i: usize = 0;
    while i < parts.len()
        invariant
            i <= parts.len(),
            views == str_views(parts@),
            out@ == start + join(views.take(i as int), sep@),
        decreases parts.len() - i,
    {
        if i > 0 {
            out.append(sep);
        }
        out.append(parts[i]);
        proof {
            let taken = views.take(i as int + 1);
            assert(taken.drop_last() =~= views.take(i as int));
            assert(taken.last() == parts@[i as int]@);
            if i == 0 {
                assert(join(views.take(0), sep@) =~= Seq::<char>::empty());
            }
            assert(out@ =~= start + join(taken, sep@));
        }
        i = i + 1;
    }
    assert(views.take(parts.len() as int) =~= views);
}

/// The strings of `parts` joined with `sep`, as `[..].join(sep)` writes them.
pub fn join_strings(parts: &Vec<String>, sep: &str) -> (r: String)
    ensures
        r@ == join(string_views(parts@), sep@),
{
    let mut out = String::new();
    push_joined(&mut out, parts, sep);
    assert(out@ =~= join(string_views(parts@), sep@));
    out
}

/// The borrowed strings of `parts` joined with `sep`.
pub fn join_strs(parts: &Vec<&str>, sep: &str) -> (r: String)
    ensures
        r@ == join(str_views(parts@), sep@),
{
    let mut out = String::new();
    push_joined_strs(&mut out, parts, sep);
    assert(out@ =~= join(str_views(parts@), sep@));
    out
}

} // verus!

verus! {

/// Whether the text of `s` is exactly `lit`.
pub fn text_is(s: &String, lit: &str) -> (b: bool)
    ensures
        b == (s@ == lit@),
{
    let other = String::from_str(lit);
    *s == other
}

/// `prefix` followed by `rest`, as a new string.
pub fn concat_text(prefix: &str, rest: &str) -> (r: String)
    ensures
        r@ == prefix@ + rest@,
{
    let mut out = String::from_str(prefix);
    out.append(rest);
    out
}

} // verus!

verus! {

/// The view of an optional owned string.
pub open spec fn opt_view(o: Option<String>) -> Option<Seq<char>> {
    match o {
        Some(s) => Some(s@),
        None => None,
    }
}

/// Whether the text of `s` is exactly `lit`.
pub fn str_is(s: &str, lit: &str) -> (b: bool)
    ensures
        b == (s@ == lit@),
{
    let a = String::from_str(s);
    let other = String::from_str(lit);
    a == other
}


/// What `str::to_lowercase` returns for a string: the lowercase mapping of
/// each of its characters, as Unicode defines it.
pub uninterp spec fn lowercase(s: Seq<char>) -> Seq<char>;

/// Whether every character of the text is ASCII.
pub open spec fn is_ascii_text(s: Seq<char>) -> bool {
    forall|i: int| 0 <= i < s.len() ==> (s[i] as u32) < 128
}

/// The lowercase of an ASCII character: `A` to `Z` become `a` to `z`, every
/// other character stays.
pub open spec fn ascii_lower_char(c: char) -> char {
    if 'A' <= c && c <= 'Z' {
        ((c as u32) + 32) as char
    } else {
        c
    }
}

/// The text with its ASCII capitals made lowercase.
pub open spec fn ascii_lowercase(s: Seq<char>) -> Seq<char> {
    s.map_values(|c: char| ascii_lower_char(c))
}

/// Calls `str::to_lowercase`. The contract names its result `lowercase`;
/// Unicode's case mapping is not restated beyond ASCII text, whose lowercase
/// equivalent maps `A` to `Z` onto `a` to `z` and keeps every other character.
#[verifier::external_body]
pub(crate) fn to_lowercase(s: &str) -> (r: String)
    ensures
        r@ == lowercase(s@),
        is_ascii_text(s@) ==> r@ == ascii_lowercase(s@),
{
    s.to_lowercase()
}

} // verus!

verus! {

/// A `key=value` parameter when the value is present, nothing otherwise.
pub open spec fn optional_param(key: Seq<char>, value: Option<Seq<char>>) -> Seq<Seq<char>> {
    match value {
        Some(v) => seq![key + v],
        None => Seq::empty(),
    }
}

/// Pushes `key` followed by the optional value onto `params`, when present.
pub fn push_optional_param(params: &mut Vec<String>, key: &str, value: &Option<String>)
    ensures
        string_views(final(params)@) == string_views(old(params)@) + optional_param(key@, opt_view(*value)),
{
    let ghost before = params@;
    match value {
        Some(v) => {
            params.push(concat_text(key, v.as_str()));
            assert(string_views(params@) =~= string_views(before) + seq![key@ + v@]);
        },
        None => {
            assert(string_views(params@) =~= string_views(before) + Seq::<Seq<char>>::empty());
        },
    }
}

/// `key` followed by the decimal notation of `n`.
pub fn decimal_param(key: &str, n: u64) -> (r: String)
    ensures
        r@ == key@ + decimal(n as nat),
{
    let mut out = String::from_str(key);
    push_decimal(&mut out, n);
    out
}

/// `key` followed by the decimal notation of the signed `n`.
pub fn signed_decimal_param(key: &str, n: i64) -> (r: String)
    ensures
        r@ == key@ + signed_decimal(n as int),
{
    let mut out = String::from_str(key);
    push_signed_decimal(&mut out, n);
    out
}

} // verus!

verus! {

/// Whether `t` is how `s` begins.
pub open spec fn has_prefix(s: Seq<char>, t: Seq<char>) -> bool {
    t.len() <= s.len() && s.subrange(0, t.len() as int) == t
}

/// Whether `t` is how `s` ends.
pub open spec fn has_suffix(s: Seq<char>, t: Seq<char>) -> bool {
    t.len() <= s.len() && s.subrange(s.len() - t.len(), s.len() as int) == t
}

/// Whether `t` occurs in `s` as a contiguous piece.
pub open spec fn has_infix(s: Seq<char>, t: Seq<char>) -> bool {
    exists|i: int| 0 <= i && i + t.len() <= s.len() && #[trigger] s.subrange(i, i + t.len()) == t
}

/// A text begins with its first part.
pub proof fn lemma_prefix_of_concat(t: Seq<char>, b: Seq<char>)
    ensures
        has_prefix(t + b, t),
{
    assert((t + b).subrange(0, t.len() as int) =~= t);
}

/// A text ends with its last part.
pub proof fn lemma_suffix_of_concat(a: Seq<char>, t: Seq<char>)
    ensures
        has_suffix(a + t, t),
{
    assert((a + t).subrange(a.len() as int, (a + t).len() as int) =~= t);
}

/// Every part of a text occurs in it.
pub proof fn lemma_infix_of_concat(a: Seq<char>, t: Seq<char>, b: Seq<char>)
    ensures
        has_infix(a + t + b, t),
{
    let s = a + t + b;
    assert(s.subrange(a.len() as int, (a.len() + t.len()) as int) =~= t);
}

/// What occurs in a text occurs in any text that extends it.
pub proof fn lemma_infix_extend(a: Seq<char>, b: Seq<char>, t: Seq<char>)
    requires
        has_infix(a, t),
    ensures
        has_infix(a + b, t),
{
    let i = choose|i: int| 0 <= i && i + t.len() <= a.len() && #[trigger] a.subrange(i, i + t.len()) == t;
    assert((a + b).subrange(i, i + t.len()) =~= a.subrange(i, i + t.len()));
}

/// What occurs in a text occurs in any text that has it as its end.
pub proof fn lemma_infix_prepend(a: Seq<char>, b: Seq<char>, t: Seq<char>)
    requires
        has_infix(b, t),
    ensures
        has_infix(a + b, t),
{
    let i = choose|i: int| 0 <= i && i + t.len() <= b.len() && #[trigger] b.subrange(i, i + t.len()) == t;
    assert((a + b).subrange(a.len() + i, a.len() + i + t.len()) =~= b.subrange(i, i + t.len()));
}

/// Each of the joined parts occurs in the joined text.
pub proof fn lemma_join_has_part(parts: Seq<Seq<char>>, sep: Seq<char>, i: int)
    requires
        0 <= i < parts.len(),
    ensures
        has_infix(join(parts, sep), parts[i]),
    decreases parts.len(),
{
    if parts.len() == 1 {
        lemma_infix_of_concat(Seq::empty(), parts[0], Seq::empty());
        assert(Seq::<char>::empty() + parts[0] + Seq::<char>::empty() =~= parts[0]);
    } else if i == parts.len() - 1 {
        let head = join(parts.drop_last(), sep) + sep;
        lemma_infix_of_concat(head, parts.last(), Seq::empty());
        assert(head + parts.last() + Seq::<char>::empty() =~= join(parts, sep));
    } else {
        lemma_join_has_part(parts.drop_last(), sep, i);
        assert(parts.drop_last()[i] == parts[i]);
        lemma_infix_extend(join(parts.drop_last(), sep), sep + parts.last(), parts[i]);
        assert(join(parts.drop_last(), sep) + (sep + parts.last()) =~= join(parts, sep));
    }
}

} // verus!

verus! {

/// Each part after the first occurs in the joined text right after a separator.
pub proof fn lemma_join_has_separated_part(parts: Seq<Seq<char>>, sep: Seq<char>, i: int)
    requires
        0 < i < parts.len(),
    ensures
        has_infix(join(parts, sep), sep + parts[i]),
    decreases parts.len(),
{
    if i == parts.len() - 1 {
        let head = join(parts.drop_last(), sep);
        lemma_infix_of_concat(head, sep + parts.last(), Seq::empty());
        assert(head + (sep + parts.last()) + Seq::<char>::empty() =~= join(parts, sep));
    } else {
        lemma_join_has_separated_part(parts.drop_last(), sep, i);
        assert(parts.drop_last()[i] == parts[i]);
        lemma_infix_extend(join(parts.drop_last(), sep), sep + parts.last(), sep + parts[i]);
        assert(join(parts.drop_last(), sep) + (sep + parts.last()) =~= join(parts, sep));
    }
}

/// The parameters of a query string `?p0&p1&...`: the first comes right
/// after the question mark, each later one right after an ampersand.
pub proof fn lemma_query_has_param(params: Seq<Seq<char>>, i: int)
    requires
        0 <= i < params.len(),
    ensures
        i == 0 ==> has_prefix("?"@ + join(params, "&"@), "?"@ + params[0]),
        i > 0 ==> has_infix("?"@ + join(params, "&"@), "&"@ + params[i]),
{
    reveal_strlit("?");
    if i == 0 {
        if params.len() == 1 {
            assert("?"@ + join(params, "&"@) =~= "?"@ + params[0]);
            lemma_prefix_of_concat("?"@ + params[0], Seq::empty());
            assert("?"@ + params[0] + Seq::<char>::empty() =~= "?"@ + params[0]);
        } else {
            lemma_join_prefix(params, "&"@);
            let j = join(params, "&"@);
            assert(j.subrange(0, params[0].len() as int) == params[0]);
            assert forall|k: int| 0 <= k < 1 + params[0].len() implies ("?"@ + j).subrange(0, (1 + params[0].len()) as int)[k]
                == ("?"@ + params[0])[k] by {
                if k > 0 {
                    assert(j.subrange(0, params[0].len() as int)[k - 1] == j[k - 1]);
                }
            }
            assert(("?"@ + j).subrange(0, (1 + params[0].len()) as int) =~= "?"@ + params[0]);
        }
    } else {
        lemma_join_has_separated_part(params, "&"@, i);
        lemma_infix_prepend("?"@, join(params, "&"@), "&"@ + params[i]);
    }
}

/// A joined text begins with its first part.
pub proof fn lemma_join_prefix(parts: Seq<Seq<char>>, sep: Seq<char>)
    requires
        parts.len() > 0,
    ensures
        has_prefix(join(parts, sep), parts[0]),
    decreases parts.len(),
{
    if parts.len() == 1 {
        assert(join(parts, sep).subrange(0, parts[0].len() as int) =~= parts[0]);
    } else {
        lemma_join_prefix(parts.drop_last(), sep);
        let h = join(parts.drop_last(), sep);
        assert(join(parts, sep) =~= h + (sep + parts.last()));
        assert(join(parts, sep).subrange(0, parts[0].len() as int) =~= h.subrange(0, parts[0].len() as int));
    }
}

} // verus!
