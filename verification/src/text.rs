//! Plain-text helpers: trimming, ASCII case folding, searching, placeholders
//! and decimal figures.
//!
//! Text is modelled as a sequence of characters, so none of the contracts below
//! mention bytes or encodings.
use vstd::prelude::*;

verus! {

broadcast use vstd::string::group_string_axioms;

/// Whether `c` has the Unicode `White_Space` property.
pub open spec fn white_space(c: char) -> bool {
    let u = c as u32;
    ||| 0x9 <= u <= 0xd
    ||| u == 0x20
    ||| u == 0x85
    ||| u == 0xa0
    ||| u == 0x1680
    ||| 0x2000 <= u <= 0x200a
    ||| u == 0x2028
    ||| u == 0x2029
    ||| u == 0x202f
    ||| u == 0x205f
    ||| u == 0x3000
}

/// Whether `c` is a control character (the Unicode category `Cc`).
pub open spec fn control(c: char) -> bool {
    let u = c as u32;
    u <= 0x1f || 0x7f <= u <= 0x9f
}

/// `c`, with `A` to `Z` mapped to `a` to `z`.
pub open spec fn ascii_lower(c: char) -> char {
    if 'A' <= c <= 'Z' {
        (c as u32 + 32) as char
    } else {
        c
    }
}

/// `s` in ASCII lower case; anything outside `A` to `Z` is left alone.
pub open spec fn lowered(s: Seq<char>) -> Seq<char> {
    s.map_values(|c: char| ascii_lower(c))
}

/// `s` without its leading white space.
pub open spec fn trim_start(s: Seq<char>) -> Seq<char>
    decreases s.len(),
{
    if s.len() > 0 && white_space(s[0]) {
        trim_start(s.drop_first())
    } else {
        s
    }
}

/// `s` without its trailing white space.
pub open spec fn trim_end(s: Seq<char>) -> Seq<char>
    decreases s.len(),
{
    if s.len() > 0 && white_space(s.last()) {
        trim_end(s.drop_last())
    } else {
        s
    }
}

/// `s` without the white space at either end.
pub open spec fn trimmed(s: Seq<char>) -> Seq<char> {
    trim_end(trim_start(s))
}

/// Whether `part` occurs in `s` as a run of adjacent characters, at `at`.
pub open spec fn occurs_at(s: Seq<char>, part: Seq<char>, at: int) -> bool {
    0 <= at && at + part.len() <= s.len() && s.subrange(at, at + part.len()) == part
}

/// Whether `part` occurs anywhere in `s`.
pub open spec fn contains_text(s: Seq<char>, part: Seq<char>) -> bool {
    exists|at: int| occurs_at(s, part, at)
}

/// Whether `s` starts with the placeholder `{}`.
pub open spec fn at_placeholder(s: Seq<char>) -> bool {
    s.len() >= 2 && s[0] == '{' && s[1] == '}'
}

/// `template` with every `{}` replaced by `value`, left to right. What is
/// filled in is not searched again.
pub open spec fn filled(template: Seq<char>, value: Seq<char>) -> Seq<char>
    decreases template.len(),
{
    if template.len() == 0 {
        template
    } else if at_placeholder(template) {
        value + filled(template.skip(2), value)
    } else {
        seq![template[0]] + filled(template.drop_first(), value)
    }
}

/// The character for one decimal digit.
pub open spec fn digit(d: nat) -> char
    recommends
        d < 10,
{
    ('0' as u32 + d) as char
}

/// `n` in decimal, with no leading zeros.
pub open spec fn decimal(n: nat) -> Seq<char>
    decreases n,
{
    if n < 10 {
        seq![digit(n)]
    } else {
        decimal(n / 10).push(digit(n % 10))
    }
}

/// Whether `c` has the Unicode `White_Space` property.
pub fn is_white_space(c: char) -> (r: bool)
    ensures
        r == white_space(c),
{
    let u: u32 = c as u32;
    (0x9 <= u && u <= 0xd) || u == 0x20 || u == 0x85 || u == 0xa0 || u == 0x1680 || (0x2000 <= u
        && u <= 0x200a) || u == 0x2028 || u == 0x2029 || u == 0x202f || u == 0x205f || u == 0x3000
}

/// Whether `c` is a control character.
pub fn is_control(c: char) -> (r: bool)
    ensures
        r == control(c),
{
    let u: u32 = c as u32;
    u <= 0x1f || (0x7f <= u && u <= 0x9f)
}

/// `c` in ASCII lower case.
pub fn to_ascii_lower(c: char) -> (r: char)
    ensures
        r == ascii_lower(c),
{
    if 'A' <= c && c <= 'Z' {
        let low: u8 = c as u8 + 32;
        low as char
    } else {
        c
    }
}

/// The characters of `s`, in order.
pub fn chars_of(s: &str) -> (r: Vec<char>)
    ensures
        r@ == s@,
{
    let mut out: Vec<char> = Vec::new();
    for c in it: s.chars()
        invariant
            it.seq() == s@,
            out@ == it.seq().take(it.index()),
    {
        out.push(c);
    }
    out
}


/// `s` without the white space at either end.
pub fn trim(s: &str) -> (r: &str)
    ensures
        r@ == trimmed(s@),
{
    let cs = chars_of(s);
    let n: usize = cs.len();
    let mut from: usize = 0;
    assert(s@.skip(0) =~= s@);
    while from < n && is_white_space(cs[from])
        invariant
            cs@ == s@,
            n == cs.len(),
            from <= n,
            trim_start(s@) == trim_start(s@.skip(from as int)),
        decreases n - from,
    {
        assert(s@.skip(from as int).drop_first() =~= s@.skip(from + 1));
        from = from + 1;
    }
    let ghost rest = s@.skip(from as int);
    assert(trim_start(s@) == rest);
    let mut to: usize = n;
    assert(rest =~= s@.subrange(from as int, to as int));
    while to > from && is_white_space(cs[to - 1])
        invariant
            cs@ == s@,
            n == cs.len(),
            from <= to <= n,
            trim_end(rest) == trim_end(s@.subrange(from as int, to as int)),
        decreases to,
    {
        assert(s@.subrange(from as int, to as int).drop_last() =~= s@.subrange(
            from as int,
            to - 1,
        ));
        to = to - 1;
    }
    s.substring_char(from, to)
}

/// Whether two texts are the same once `A` to `Z` are read as `a` to `z`.
pub fn same_ignoring_case(a: &str, b: &str) -> (r: bool)
    ensures
        r == (lowered(a@) == lowered(b@)),
{
    let left = chars_of(a);
    let right = chars_of(b);
    if left.len() != right.len() {
        assert(lowered(a@).len() != lowered(b@).len());
        return false;
    }
    let mut i: usize = 0;
    while i < left.len()
        invariant
            left@ == a@,
            right@ == b@,
            left.len() == right.len(),
            i <= left.len(),
            forall|k: int| 0 <= k < i ==> ascii_lower(left[k]) == ascii_lower(right[k]),
        decreases left.len() - i,
    {
        if to_ascii_lower(left[i]) != to_ascii_lower(right[i]) {
            assert(lowered(a@)[i as int] != lowered(b@)[i as int]);
            return false;
        }
        i = i + 1;
    }
    assert(lowered(a@) =~= lowered(b@));
    true
}

/// Whether `part` occurs anywhere in `s`.
pub fn contains(s: &str, part: &str) -> (r: bool)
    ensures
        r == contains_text(s@, part@),
{
    let cs = chars_of(s);
    let ps = chars_of(part);
    if ps.len() > cs.len() {
        return false;
    }
    let last: usize = cs.len() - ps.len();
    let mut at: usize = 0;
    loop
        invariant
            cs@ == s@,
            ps@ == part@,
            last + ps.len() == cs.len(),
            at <= last,
            forall|k: int| 0 <= k < at ==> !occurs_at(s@, part@, k),
        decreases last - at,
    {
        let mut i: usize = 0;
        while i < ps.len() && cs[at + i] == ps[i]
            invariant
                at + ps.len() <= cs.len(),
                i <= ps.len(),
                forall|k: int| 0 <= k < i ==> cs[at + k] == ps[k],
            decreases ps.len() - i,
        {
            i = i + 1;
        }
        if i == ps.len() {
            assert(s@.subrange(at as int, at + part@.len()) =~= part@);
            assert(occurs_at(s@, part@, at as int));
            return true;
        }
        assert(!occurs_at(s@, part@, at as int)) by {
            assert(s@.subrange(at as int, at + part@.len())[i as int] != part@[i as int]);
        }
        if at == last {
            assert(!contains_text(s@, part@));
            return false;
        }
        at = at + 1;
    }
}

/// `template` with every `{}` replaced by `value`.
pub fn fill(template: &str, value: &str) -> (r: String)
    ensures
        r@ == filled(template@, value@),
{
    let cs = chars_of(template);
    let n: usize = cs.len();
    let mut out = String::new();
    let mut i: usize = 0;
    assert(template@.skip(0) =~= template@);
    while i < n
        invariant
            cs@ == template@,
            n == cs.len(),
            i <= n,
            filled(template@, value@) == out@ + filled(template@.skip(i as int), value@),
        decreases n - i,
    {
        let ghost rest = template@.skip(i as int);
        if i + 1 < n && cs[i] == '{' && cs[i + 1] == '}' {
            assert(at_placeholder(rest));
            assert(rest.skip(2) =~= template@.skip(i + 2));
            let ghost before = out@;
            out.append(value);
            assert(before + (value@ + filled(rest.skip(2), value@)) =~= out@ + filled(
                template@.skip(i + 2),
                value@,
            ));
            i = i + 2;
        } else {
            assert(!at_placeholder(rest));
            assert(rest.drop_first() =~= template@.skip(i + 1));
            let ghost before = out@;
            let one = template.substring_char(i, i + 1);
            out.append(one);
            assert(one@ =~= seq![rest[0]]);
            assert(before + (seq![rest[0]] + filled(rest.drop_first(), value@)) =~= out@ + filled(
                template@.skip(i + 1),
                value@,
            ));
            i = i + 1;
        }
    }
    assert(template@.skip(n as int) =~= Seq::empty());
    assert(filled(Seq::empty(), value@) =~= Seq::empty());
    assert(out@ + Seq::empty() =~= out@);
    out
}

/// The text of one decimal digit.
fn digit_text(d: u64) -> (r: &'static str)
    requires
        d < 10,
    ensures
        r@ == seq![digit(d as nat)],
{
    proof {
        reveal_strlit("0");
        reveal_strlit("1");
        reveal_strlit("2");
        reveal_strlit("3");
        reveal_strlit("4");
        reveal_strlit("5");
        reveal_strlit("6");
        reveal_strlit("7");
        reveal_strlit("8");
        reveal_strlit("9");
    }
    if d == 0 {
        "0"
    } else if d == 1 {
        "1"
    } else if d == 2 {
        "2"
    } else if d == 3 {
        "3"
    } else if d == 4 {
        "4"
    } else if d == 5 {
        "5"
    } else if d == 6 {
        "6"
    } else if d == 7 {
        "7"
    } else if d == 8 {
        "8"
    } else {
        "9"
    }
}

/// Appends `n` in decimal.
pub fn push_decimal(out: &mut String, n: u64)
    ensures
        final(out)@ == old(out)@ + decimal(n as nat),
    decreases n,
{
    let ghost before = out@;
    if n >= 10 {
        push_decimal(out, n / 10);
    }
    out.append(digit_text(n % 10));
    assert(out@ =~= before + decimal(n as nat));
}

/// Trimming takes nothing but white space, and takes all of it: what is left
/// stands in `s` between two runs of white space, and neither starts nor ends
/// with any.
pub proof fn trimming_takes_white_space_only(s: Seq<char>)
    ensures
        exists|from: int, to: int|
            {
                &&& 0 <= from <= to <= s.len()
                &&& trimmed(s) == #[trigger] s.subrange(from, to)
                &&& forall|i: int| 0 <= i < from || to <= i < s.len() ==> white_space(s[i])
            },
        trimmed(s).len() > 0 ==> !white_space(trimmed(s)[0]) && !white_space(trimmed(s).last()),
{
    trim_start_is_a_suffix(s);
    let from = choose|from: int|
        {
            &&& 0 <= from <= s.len()
            &&& trim_start(s) == #[trigger] s.subrange(from, s.len() as int)
            &&& forall|i: int| 0 <= i < from ==> white_space(s[i])
        };
    let rest = trim_start(s);
    trim_end_is_a_prefix(rest);
    let keep = choose|keep: int|
        {
            &&& 0 <= keep <= rest.len()
            &&& trim_end(rest) == #[trigger] rest.subrange(0, keep)
            &&& forall|i: int| keep <= i < rest.len() ==> white_space(rest[i])
        };
    assert(rest.subrange(0, keep) =~= s.subrange(from, from + keep));
    assert forall|i: int| 0 <= i < from || from + keep <= i < s.len() implies white_space(
        s[i],
    ) by {
        if from + keep <= i {
            assert(rest[i - from] == s[i]);
        }
    }
    if trimmed(s).len() > 0 {
        assert(trimmed(s)[0] == rest[0]);
    }
}

proof fn trim_start_is_a_suffix(s: Seq<char>)
    ensures
        exists|from: int|
            {
                &&& 0 <= from <= s.len()
                &&& trim_start(s) == #[trigger] s.subrange(from, s.len() as int)
                &&& forall|i: int| 0 <= i < from ==> white_space(s[i])
            },
        trim_start(s).len() > 0 ==> !white_space(trim_start(s)[0]),
    decreases s.len(),
{
    if s.len() > 0 && white_space(s[0]) {
        let rest = s.drop_first();
        trim_start_is_a_suffix(rest);
        let from = choose|from: int|
            {
                &&& 0 <= from <= rest.len()
                &&& trim_start(rest) == #[trigger] rest.subrange(from, rest.len() as int)
                &&& forall|i: int| 0 <= i < from ==> white_space(rest[i])
            };
        assert(rest.subrange(from, rest.len() as int) =~= s.subrange(from + 1, s.len() as int));
        assert forall|i: int| 0 <= i < from + 1 implies white_space(s[i]) by {
            if i > 0 {
                assert(rest[i - 1] == s[i]);
            }
        }
    } else {
        assert(s =~= s.subrange(0, s.len() as int));
    }
}

proof fn trim_end_is_a_prefix(s: Seq<char>)
    ensures
        exists|keep: int|
            {
                &&& 0 <= keep <= s.len()
                &&& trim_end(s) == #[trigger] s.subrange(0, keep)
                &&& forall|i: int| keep <= i < s.len() ==> white_space(s[i])
            },
        trim_end(s).len() > 0 ==> !white_space(trim_end(s).last()),
    decreases s.len(),
{
    if s.len() > 0 && white_space(s.last()) {
        let rest = s.drop_last();
        trim_end_is_a_prefix(rest);
        let keep = choose|keep: int|
            {
                &&& 0 <= keep <= rest.len()
                &&& trim_end(rest) == #[trigger] rest.subrange(0, keep)
                &&& forall|i: int| keep <= i < rest.len() ==> white_space(rest[i])
            };
        assert(rest.subrange(0, keep) =~= s.subrange(0, keep));
        assert forall|i: int| keep <= i < s.len() implies white_space(s[i]) by {
            if i < rest.len() {
                assert(rest[i] == s[i]);
            }
        }
    } else {
        assert(s =~= s.subrange(0, s.len() as int));
    }
}

/// A template that has a placeholder shows what it is filled with.
pub proof fn a_placeholder_shows_its_value(template: Seq<char>, value: Seq<char>, at: int)
    requires
        0 <= at,
        at + 1 < template.len(),
        template[at] == '{',
        template[at + 1] == '}',
    ensures
        contains_text(filled(template, value), value),
    decreases template.len(),
{
    let whole = filled(template, value);
    if at_placeholder(template) {
        let rest = filled(template.skip(2), value);
        assert(whole.subrange(0, value.len() as int) =~= value);
        assert(occurs_at(whole, value, 0));
    } else {
        let rest = template.drop_first();
        a_placeholder_shows_its_value(rest, value, at - 1);
        let inner = filled(rest, value);
        let k = choose|k: int| occurs_at(inner, value, k);
        assert(whole.subrange(k + 1, k + 1 + value.len()) =~= inner.subrange(k, k + value.len()));
        assert(occurs_at(whole, value, k + 1));
    }
}

/// A template without a placeholder is shown as it stands.
pub proof fn no_placeholder_no_change(template: Seq<char>, value: Seq<char>)
    requires
        forall|at: int| 0 <= at < template.len() ==> !at_placeholder(#[trigger] template.skip(at)),
    ensures
        filled(template, value) == template,
    decreases template.len(),
{
    if template.len() > 0 {
        assert(template.skip(0) =~= template);
        let rest = template.drop_first();
        assert forall|at: int| 0 <= at < rest.len() implies !at_placeholder(
            #[trigger] rest.skip(at),
        ) by {
            assert(rest.skip(at) =~= template.skip(at + 1));
        }
        no_placeholder_no_change(rest, value);
        assert(filled(template, value) =~= template);
    }
}

/// A placeholder gives way to the value, and what stands around it stays: the
/// text before it as it is, and the text after it filled in turn.
pub proof fn what_stands_around_a_placeholder_stays(
    before: Seq<char>,
    after: Seq<char>,
    value: Seq<char>,
)
    requires
        forall|i: int| 0 <= i < before.len() ==> before[i] != '{',
    ensures
        filled(before + "{}"@ + after, value) == before + value + filled(after, value),
    decreases before.len(),
{
    reveal_strlit("{}");
    let template = before + "{}"@ + after;
    if before.len() == 0 {
        assert(at_placeholder(template));
        assert(template.skip(2) =~= after);
        assert(filled(template, value) =~= before + value + filled(after, value));
    } else {
        let rest = before.drop_first();
        assert(template[0] == before[0]);
        assert(!at_placeholder(template));
        assert(template.drop_first() =~= rest + "{}"@ + after);
        assert forall|i: int| 0 <= i < rest.len() implies rest[i] != '{' by {
            assert(rest[i] == before[i + 1]);
        }
        what_stands_around_a_placeholder_stays(rest, after, value);
        assert(filled(template, value) =~= before + value + filled(after, value));
    }
}

/// The number that decimal digits stand for.
pub open spec fn number(digits: Seq<char>) -> int
    decreases digits.len(),
{
    if digits.len() == 0 {
        0
    } else {
        number(digits.drop_last()) * 10 + (digits.last() as int - '0' as int)
    }
}

/// A figure is written in decimal digits that stand for it, with no zero in
/// front unless it is zero, and appended to what was there.
pub proof fn a_figure_is_written_in_decimal(n: nat)
    ensures
        number(decimal(n)) == n,
        decimal(n).len() > 0,
        forall|i: int| 0 <= i < decimal(n).len() ==> '0' <= #[trigger] decimal(n)[i] <= '9',
        decimal(n)[0] == '0' ==> n == 0,
    decreases n,
{
    if n < 10 {
        assert(decimal(n).drop_last() =~= Seq::empty());
        reveal_with_fuel(number, 2);
    } else {
        a_figure_is_written_in_decimal(n / 10);
        assert(decimal(n).drop_last() =~= decimal(n / 10));
        assert(decimal(n)[0] == decimal(n / 10)[0]);
    }
}

/// Two texts are the same up to case exactly when they are as long and each
/// character is the other's, or is the same Latin letter in the other case.
pub proof fn case_is_the_only_difference(a: &str, b: &str, r: bool)
    requires
        call_ensures(same_ignoring_case, (a, b), r),
    ensures
        r <==> a@.len() == b@.len() && forall|i: int|
            0 <= i < a@.len() ==> {
                ||| (#[trigger] a@[i]) == b@[i]
                ||| 'A' <= a@[i] <= 'Z' && b@[i] as int == a@[i] as int + 32
                ||| 'A' <= b@[i] <= 'Z' && a@[i] as int == b@[i] as int + 32
            },
{
    let (x, y) = (lowered(a@), lowered(b@));
    if a@.len() == b@.len() {
        assert forall|i: int| 0 <= i < a@.len() implies (x[i] == y[i] <==> {
            ||| (#[trigger] a@[i]) == b@[i]
            ||| 'A' <= a@[i] <= 'Z' && b@[i] as int == a@[i] as int + 32
            ||| 'A' <= b@[i] <= 'Z' && a@[i] as int == b@[i] as int + 32
        }) by {
            assert(x[i] == ascii_lower(a@[i]) && y[i] == ascii_lower(b@[i]));
        }
        if r {
            assert forall|i: int| 0 <= i < a@.len() implies {
                ||| (#[trigger] a@[i]) == b@[i]
                ||| 'A' <= a@[i] <= 'Z' && b@[i] as int == a@[i] as int + 32
                ||| 'A' <= b@[i] <= 'Z' && a@[i] as int == b@[i] as int + 32
            } by {
                assert(x[i] == y[i]);
            }
        } else if forall|i: int|
            0 <= i < a@.len() ==> {
                ||| (#[trigger] a@[i]) == b@[i]
                ||| 'A' <= a@[i] <= 'Z' && b@[i] as int == a@[i] as int + 32
                ||| 'A' <= b@[i] <= 'Z' && a@[i] as int == b@[i] as int + 32
            } {
            assert forall|i: int| 0 <= i < x.len() implies x[i] == y[i] by {
                assert(a@[i] == a@[i]);
            }
            assert(x =~= y);
        }
    } else {
        assert(x.len() != y.len());
    }
}

/// A text contains another wherever the other's characters stand in it one after
/// the other, and only then.
pub proof fn a_part_stands_in_the_whole(s: &str, part: &str, r: bool, at: int)
    requires
        call_ensures(contains, (s, part), r),
    ensures
        r ==> exists|from: int|
            0 <= from && from + part@.len() <= s@.len() && #[trigger] s@.subrange(
                from,
                from + part@.len(),
            ) == part@,
        0 <= at && at + part@.len() <= s@.len() && (forall|i: int|
            0 <= i < part@.len() ==> s@.skip(at)[i] == #[trigger] part@[i]) ==> r,
{
    if r {
        let from = choose|from: int| occurs_at(s@, part@, from);
        assert(s@.subrange(from, from + part@.len()) == part@);
    }
    if 0 <= at && at + part@.len() <= s@.len() && (forall|i: int|
        0 <= i < part@.len() ==> s@.skip(at)[i] == #[trigger] part@[i]) {
        assert forall|i: int| 0 <= i < part@.len() implies s@.subrange(at, at + part@.len())[i]
            == part@[i] by {
            assert(s@.skip(at)[i] == part@[i]);
        }
        assert(s@.subrange(at, at + part@.len()) =~= part@);
        assert(occurs_at(s@, part@, at));
    }
}

} // verus!
