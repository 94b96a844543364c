//! Text the scanner reads and writes, as sequences of characters: how it is
//! compared and searched, and how numbers and lists are laid out in it.

use vstd::prelude::*;

verus! {

/// The texts of a list of strings.
pub open spec fn texts(v: Seq<String>) -> Seq<Seq<char>> {
    v.map_values(|s: String| s@)
}

/// `s` ends with `t`.
pub open spec fn ends_with(s: Seq<char>, t: Seq<char>) -> bool {
    t.len() <= s.len() && s.skip(s.len() - t.len()) == t
}

/// `t` stands somewhere in `s`.
pub open spec fn contains_text(s: Seq<char>, t: Seq<char>) -> bool {
    exists|i: int| #[trigger] stands_at(s, t, i)
}

/// `t` stands in `s` from position `i` on.
pub open spec fn stands_at(s: Seq<char>, t: Seq<char>, i: int) -> bool {
    0 <= i && i + t.len() <= s.len() && s.subrange(i, i + t.len()) == t
}

/// The lower-case form of an ASCII letter; any other character as it is.
pub open spec fn ascii_lower(c: char) -> char {
    if 'A' <= c && c <= 'Z' {
        (c as u32 + 32) as char
    } else {
        c
    }
}

/// `a` and `b` differ at most in the case of ASCII letters.
pub open spec fn same_ignoring_case(a: Seq<char>, b: Seq<char>) -> bool {
    a.len() == b.len() && forall|i: int| 0 <= i < a.len() ==> ascii_lower(#[trigger] a[i]) == ascii_lower(b[i])
}

/// Characters with the Unicode property `White_Space`.
pub open spec fn is_white_space(c: char) -> bool {
    ||| '\u{9}' <= c && c <= '\u{d}'
    ||| c == ' '
    ||| c == '\u{85}'
    ||| c == '\u{a0}'
    ||| c == '\u{1680}'
    ||| '\u{2000}' <= c && c <= '\u{200a}'
    ||| c == '\u{2028}'
    ||| c == '\u{2029}'
    ||| c == '\u{202f}'
    ||| c == '\u{205f}'
    ||| c == '\u{3000}'
}

/// `s` without its leading white space.
pub open spec fn trim_start(s: Seq<char>) -> Seq<char>
    decreases s.len(),
{
    if s.len() > 0 && is_white_space(s[0]) {
        trim_start(s.skip(1))
    } else {
        s
    }
}

/// `s` without its trailing white space.
pub open spec fn trim_end(s: Seq<char>) -> Seq<char>
    decreases s.len(),
{
    if s.len() > 0 && is_white_space(s.last()) {
        trim_end(s.drop_last())
    } else {
        s
    }
}

/// `s` without its leading and trailing white space.
pub open spec fn trim(s: Seq<char>) -> Seq<char> {
    trim_end(trim_start(s))
}

/// The decimal digit for `d`, a number below ten.
pub open spec fn digit(d: nat) -> char {
    (48 + d) as char
}

/// `n` in decimal digits, without leading zeros.
pub open spec fn decimal(n: nat) -> Seq<char>
    decreases n,
{
    if n < 10 {
        seq![digit(n)]
    } else {
        decimal(n / 10).push(digit(n % 10))
    }
}

/// `n` in decimal digits, always with its sign.
pub open spec fn signed(n: int) -> Seq<char> {
    if n < 0 {
        "-"@ + decimal((-n) as nat)
    } else {
        "+"@ + decimal(n as nat)
    }
}

/// `s` set to the right in a column of `width` characters.
pub open spec fn pad_left(s: Seq<char>, width: nat) -> Seq<char>
    decreases width - s.len(),
{
    if s.len() < width {
        pad_left(seq![' '] + s, width)
    } else {
        s
    }
}

/// The items of `list` one after the other, with `sep` between them.
pub open spec fn join(list: Seq<Seq<char>>, sep: Seq<char>) -> Seq<char>
    decreases list.len(),
{
    if list.len() == 0 {
        seq![]
    } else if list.len() == 1 {
        list[0]
    } else {
        join(list.drop_last(), sep) + sep + list.last()
    }
}

/// The lines of `list` one after the other, each ended by a line feed.
pub open spec fn unlines(list: Seq<Seq<char>>) -> Seq<char>
    decreases list.len(),
{
    if list.len() == 0 {
        seq![]
    } else {
        unlines(list.drop_last()) + list.last() + "\n"@
    }
}

/// The characters of `s`.
pub fn chars_of(s: &str) -> (v: Vec<char>)
    ensures
        v@ == s@,
{
    let mut v: Vec<char> = Vec::new();
    for c in it: s.chars()
        invariant
            it.seq() == s@,
            v@ == s@.take(it.index()),
    {
        assert(s@.take(it.index() + 1) == s@.take(it.index()).push(c));
        v.push(c);
    }
    assert(s@.take(s@.len() as int) == s@);
    v
}

/// Whether two texts are equal.
pub fn same_text(a: &str, b: &str) -> (r: bool)
    ensures
        r == (a@ == b@),
{
    let x = a.as_bytes();
    let y = b.as_bytes();
    let mut same = x.len() == y.len();
    let mut i: usize = 0;
    while same && i < x.len()
        invariant
            i <= x@.len(),
            same ==> x@.len() == y@.len() && (forall|j: int| 0 <= j < i ==> x@[j] == y@[j]),
            !same ==> x@ != y@,
        decreases x@.len() - i,
    {
        if x[i] != y[i] {
            same = false;
        }
        i += 1;
    }
    proof {
        vstd::utf8::encode_utf8_decode_utf8(a@);
        vstd::utf8::encode_utf8_decode_utf8(b@);
        if same {
            assert(x@ =~= y@);
        }
    }
    same
}

/// Whether `t` stands in `s` from position `i` on.
fn stands_at_exec(s: &Vec<char>, t: &Vec<char>, i: usize) -> (r: bool)
    requires
        i <= s@.len(),
    ensures
        r == stands_at(s@, t@, i as int),
{
    if t.len() > s.len() - i {
        return false;
    }
    let mut k: usize = 0;
    while k < t.len()
        invariant
            i + t.len() <= s.len(),
            k <= t@.len(),
            forall|j: int| 0 <= j < k ==> s@[i + j] == t@[j],
        decreases t@.len() - k,
    {
        if s[i + k] != t[k] {
            assert(s@.subrange(i as int, i + t@.len())[k as int] != t@[k as int]);
            return false;
        }
        k += 1;
    }
    assert(s@.subrange(i as int, i + t@.len()) =~= t@);
    true
}

/// Whether `s` ends with `t`.
pub fn text_ends_with(s: &str, t: &str) -> (r: bool)
    ensures
        r == ends_with(s@, t@),
{
    let s = chars_of(s);
    let t = chars_of(t);
    chars_end_with(&s, &t)
}

/// Whether the characters `s` end with the characters `t`.
pub fn chars_end_with(s: &Vec<char>, t: &Vec<char>) -> (r: bool)
    ensures
        r == ends_with(s@, t@),
{
    if t.len() > s.len() {
        return false;
    }
    proof {
        assert(s@.skip(s@.len() - t@.len()) =~= s@.subrange(s@.len() - t@.len(), s@.len() as int));
    }
    stands_at_exec(s, t, s.len() - t.len())
}

/// Whether `t` stands somewhere in `s`.
pub fn text_contains(s: &str, t: &str) -> (r: bool)
    ensures
        r == contains_text(s@, t@),
{
    let whole = chars_of(s);
    let part = chars_of(t);
    let mut i: usize = 0;
    while i < whole.len()
        invariant
            whole@ == s@,
            part@ == t@,
            i <= whole@.len(),
            forall|j: int| 0 <= j < i ==> !stands_at(s@, t@, j),
        decreases whole@.len() - i,
    {
        if stands_at_exec(&whole, &part, i) {
            return true;
        }
        i += 1;
    }
    stands_at_exec(&whole, &part, i)
}

/// Whether two characters differ at most in the case of an ASCII letter.
fn same_letter(a: char, b: char) -> (r: bool)
    ensures
        r == (ascii_lower(a) == ascii_lower(b)),
{
    let x: u32 = if 'A' <= a && a <= 'Z' { a as u32 + 32 } else { a as u32 };
    let y: u32 = if 'A' <= b && b <= 'Z' { b as u32 + 32 } else { b as u32 };
    x == y
}

/// Whether two texts differ at most in the case of ASCII letters.
pub fn text_same_ignoring_case(a: &str, b: &str) -> (r: bool)
    ensures
        r == same_ignoring_case(a@, b@),
{
    let x = chars_of(a);
    let y = chars_of(b);
    if x.len() != y.len() {
        return false;
    }
    let mut i: usize = 0;
    while i < x.len()
        invariant
            x@ == a@,
            y@ == b@,
            x@.len() == y@.len(),
            i <= x@.len(),
            forall|j: int| 0 <= j < i ==> ascii_lower(#[trigger] a@[j]) == ascii_lower(b@[j]),
        decreases x@.len() - i,
    {
        if !same_letter(x[i], y[i]) {
            return false;
        }
        i += 1;
    }
    true
}

/// Whether a character has the Unicode property `White_Space`.
pub fn char_is_white_space(c: char) -> (r: bool)
    ensures
        r == is_white_space(c),
{
    ('\u{9}' <= c && c <= '\u{d}') || c == ' ' || c == '\u{85}' || c == '\u{a0}' || c == '\u{1680}'
        || ('\u{2000}' <= c && c <= '\u{200a}') || c == '\u{2028}' || c == '\u{2029}' || c
        == '\u{202f}' || c == '\u{205f}' || c == '\u{3000}'
}

/// A digit as text.
fn digit_text(d: u8) -> (r: &'static str)
    requires
        d < 10,
    ensures
        r@ == seq![digit(d as nat)],
{
    proof {
        reveal_strlit("0");
        reveal_strlit("1");
        reveal_strlit("2");
        reveal_strlit("3");
        reveal_strlit("4");
        reveal_strlit("5");
        reveal_strlit("6");
        reveal_strlit("7");
        reveal_strlit("8");
        reveal_strlit("9");
    }
    match d {
        0 => "0",
        1 => "1",
        2 => "2",
        3 => "3",
        4 => "4",
        5 => "5",
        6 => "6",
        7 => "7",
        8 => "8",
        _ => "9",
    }
}

/// `n` in decimal digits.
pub fn decimal_text(n: u128) -> (r: String)
    ensures
        r@ == decimal(n as nat),
    decreases n,
{
    if n < 10 {
        digit_text(n as u8).to_owned()
    } else {
        let mut r = decimal_text(n / 10);
        r.append(digit_text((n % 10) as u8));
        assert(r@ =~= decimal((n / 10) as nat).push(digit((n % 10) as nat)));
        r
    }
}

/// `n` in decimal digits with its sign.
pub fn signed_text(n: i32) -> (r: String)
    ensures
        r@ == signed(n as int),
{
    let mut r = if n < 0 { "-".to_owned() } else { "+".to_owned() };
    let size: i64 = if n < 0 { -(n as i64) } else { n as i64 };
    let digits = decimal_text(size as u128);
    r.append(digits.as_str());
    r
}

/// `s` set to the right in a column of `width` characters.
pub fn padded_text(s: &str, width: usize) -> (r: String)
    ensures
        r@ == pad_left(s@, width as nat),
{
    let mut r = s.to_owned();
    let mut len = s.unicode_len();
    while len < width
        invariant
            len == r@.len(),
            pad_left(r@, width as nat) == pad_left(s@, width as nat),
        decreases width - len,
    {
        let mut wider = " ".to_owned();
        wider.append(r.as_str());
        proof {
            reveal_strlit(" ");
            assert(wider@ =~= seq![' '] + r@);
        }
        r = wider;
        len += 1;
    }
    r
}

/// The strings of `list` one after the other, with `sep` between them.
pub fn joined_text(list: &Vec<String>, sep: &str) -> (r: String)
    ensures
        r@ == join(texts(list@), sep@),
{
    if list.len() == 0 {
        return String::new();
    }
    let mut r = list[0].clone();
    let mut i: usize = 1;
    assert(texts(list@).take(1) =~= seq![list@[0]@]);
    while i < list.len()
        invariant
            1 <= i <= list@.len(),
            r@ == join(texts(list@).take(i as int), sep@),
        decreases list@.len() - i,
    {
        r.append(sep);
        r.append(list[i].as_str());
        proof {
            let next = texts(list@).take(i + 1);
            assert(next.drop_last() =~= texts(list@).take(i as int));
        }
        i += 1;
    }
    assert(texts(list@).take(i as int) =~= texts(list@));
    r
}

/// Appends the strings of `lines` to `out`, each ended by a line feed.
pub fn append_lines(out: &mut String, lines: &Vec<String>)
    ensures
        final(out)@ == old(out)@ + unlines(texts(lines@)),
{
    let mut i: usize = 0;
    proof {
        assert(texts(lines@).take(0) =~= seq![]);
        assert(out@ =~= old(out)@ + unlines(texts(lines@).take(0)));
    }
    while i < lines.len()
        invariant
            i <= lines@.len(),
            out@ == old(out)@ + unlines(texts(lines@).take(i as int)),
        decreases lines@.len() - i,
    {
        out.append(lines[i].as_str());
        out.append("\n");
        proof {
            let next = texts(lines@).take(i + 1);
            assert(next.drop_last() =~= texts(lines@).take(i as int));
            assert(out@ =~= old(out)@ + unlines(next));
        }
        i += 1;
    }
    assert(texts(lines@).take(i as int) =~= texts(lines@));
}

/// The lower-case form of a text, as `str::to_lowercase` gives it.
pub uninterp spec fn unicode_lowercase(s: Seq<char>) -> Seq<char>;

/// Calls `str::to_lowercase`, which follows the Unicode tables of the standard
/// library: the result depends on the text alone, and in an ASCII text it
/// replaces each letter by its lower-case form.
#[verifier::external_body]
pub(crate) fn lowercase_text(s: &str) -> (r: String)
    ensures
        r@ == unicode_lowercase(s@),
        vstd::utf8::is_ascii_chars(s@) ==> r@ == s@.map_values(|c: char| ascii_lower(c)),
{
    s.to_lowercase()
}

/// A text ends with another exactly when it is some text followed by that one.
pub proof fn ending_is_what_stands_last(s: Seq<char>, t: Seq<char>)
    ensures
        ends_with(s, t) <==> exists|front: Seq<char>| s == #[trigger] (front + t),
{
    if ends_with(s, t) {
        let front = s.take(s.len() - t.len());
        assert(s =~= front + t);
    }
    if exists|front: Seq<char>| s == #[trigger] (front + t) {
        let front = choose|front: Seq<char>| s == #[trigger] (front + t);
        assert(s.skip(s.len() - t.len()) =~= t);
    }
}

/// `s` is `before`, `part` and `after`, one behind the other.
pub open spec fn is_made_of(s: Seq<char>, before: Seq<char>, part: Seq<char>, after: Seq<char>) -> bool {
    s == before + part + after
}

/// A text contains another exactly when it is that one with some text, or none,
/// before and behind it.
pub proof fn containing_is_standing_between(s: Seq<char>, t: Seq<char>)
    ensures
        contains_text(s, t) <==> exists|before: Seq<char>, after: Seq<char>| #[trigger]
            is_made_of(s, before, t, after),
{
    if contains_text(s, t) {
        let i = choose|i: int| #[trigger] stands_at(s, t, i);
        let before = s.take(i);
        let after = s.skip(i + t.len());
        assert(s =~= before + s.subrange(i, i + t.len()) + after);
        assert(is_made_of(s, before, t, after));
    }
    if exists|before: Seq<char>, after: Seq<char>| #[trigger] is_made_of(s, before, t, after) {
        let (before, after) = choose|before: Seq<char>, after: Seq<char>| #[trigger]
            is_made_of(s, before, t, after);
        let i = before.len() as int;
        assert(s.subrange(i, i + t.len()) =~= t);
        assert(stands_at(s, t, i));
    }
}

/// Two characters are the same, or one is the capital of the other among the
/// twenty-six letters from `A` to `Z`.
pub open spec fn is_same_letter(a: char, b: char) -> bool {
    ||| a == b
    ||| 65 <= a as int <= 90 && b as int == a as int + 32
    ||| 65 <= b as int <= 90 && a as int == b as int + 32
}

/// Two texts are the same but for case exactly when they are of one length and
/// have the same letters, capital or small, in every place.
pub proof fn case_is_all_that_differs(a: Seq<char>, b: Seq<char>)
    ensures
        same_ignoring_case(a, b) <==> a.len() == b.len() && forall|i: int|
            0 <= i < a.len() ==> is_same_letter(#[trigger] a[i], b[i]),
{
    if same_ignoring_case(a, b) {
        assert forall|i: int| 0 <= i < a.len() implies is_same_letter(#[trigger] a[i], b[i]) by {
            assert(ascii_lower(a[i]) == ascii_lower(b[i]));
        }
    }
    if a.len() == b.len() && forall|i: int| 0 <= i < a.len() ==> is_same_letter(#[trigger] a[i], b[i]) {
        assert forall|i: int| 0 <= i < a.len() implies ascii_lower(#[trigger] a[i]) == ascii_lower(b[i]) by {
            assert(is_same_letter(a[i], b[i]));
        }
    }
}

/// Small letters, by their numbers, are the capitals moved on by 32; what is no
/// capital letter stays as it is.
pub proof fn lower_case_moves_capitals_alone(c: char)
    ensures
        65 <= c as int <= 90 ==> ascii_lower(c) as int == c as int + 32,
        !(65 <= c as int <= 90) ==> ascii_lower(c) == c,
        !(65 <= ascii_lower(c) as int <= 90),
{
}

/// White space, by the numbers of its characters.
pub proof fn white_space_by_number(c: char)
    ensures
        is_white_space(c) <==> {
            let n = c as int;
            9 <= n <= 13 || n == 32 || n == 133 || n == 160 || n == 5760 || 8192 <= n <= 8202 || n == 8232
                || n == 8233 || n == 8239 || n == 8287 || n == 12288
        },
{
}

/// The text is white space throughout.
pub open spec fn is_blank(s: Seq<char>) -> bool {
    forall|i: int| 0 <= i < s.len() ==> is_white_space(#[trigger] s[i])
}

proof fn trim_start_drops_blank(before: Seq<char>, rest: Seq<char>)
    requires
        is_blank(before),
        rest.len() > 0 ==> !is_white_space(rest[0]),
    ensures
        trim_start(before + rest) == rest,
    decreases before.len(),
{
    let s = before + rest;
    if before.len() > 0 {
        assert(s[0] == before[0]);
        assert(s.skip(1) =~= before.skip(1) + rest);
        assert forall|i: int| 0 <= i < before.skip(1).len() implies is_white_space(
            #[trigger] before.skip(1)[i],
        ) by {
            assert(before.skip(1)[i] == before[i + 1]);
        }
        trim_start_drops_blank(before.skip(1), rest);
    } else {
        assert(s =~= rest);
    }
}

proof fn trim_end_drops_blank(rest: Seq<char>, after: Seq<char>)
    requires
        is_blank(after),
        rest.len() > 0 ==> !is_white_space(rest.last()),
    ensures
        trim_end(rest + after) == rest,
    decreases after.len(),
{
    let s = rest + after;
    if after.len() > 0 {
        assert(s.last() == after[after.len() - 1]);
        assert(s.drop_last() =~= rest + after.drop_last());
        assert forall|i: int| 0 <= i < after.drop_last().len() implies is_white_space(
            #[trigger] after.drop_last()[i],
        ) by {
            assert(after.drop_last()[i] == after[i]);
        }
        trim_end_drops_blank(rest, after.drop_last());
    } else {
        assert(s =~= rest);
    }
}

/// Trimming takes away the white space on both sides, all of it, and nothing
/// else: what begins and ends otherwise is left.
pub proof fn trim_leaves_core(before: Seq<char>, core: Seq<char>, after: Seq<char>)
    requires
        is_blank(before),
        is_blank(after),
        core.len() > 0 ==> !is_white_space(core[0]) && !is_white_space(core.last()),
    ensures
        trim(before + core + after) == core,
{
    if core.len() > 0 {
        assert(before + core + after =~= before + (core + after));
        assert((core + after)[0] == core[0]);
        trim_start_drops_blank(before, core + after);
        trim_end_drops_blank(core, after);
    } else {
        let all = before + after;
        assert(before + core + after =~= all);
        assert forall|i: int| 0 <= i < all.len() implies is_white_space(#[trigger] all[i]) by {
            if i < before.len() {
                assert(all[i] == before[i]);
            } else {
                assert(all[i] == after[i - before.len()]);
            }
        }
        assert(all =~= all + Seq::<char>::empty());
        trim_start_drops_blank(all, Seq::empty());
        assert(core =~= Seq::<char>::empty());
    }
}

/// The number that decimal digits stand for.
pub open spec fn number_of(digits: Seq<char>) -> int
    decreases digits.len(),
{
    if digits.len() == 0 {
        0
    } else {
        10 * number_of(digits.drop_last()) + (digits.last() as int - 48)
    }
}

/// A number in decimal reads back as that number: it is made of the digits `0`
/// to `9` alone, and begins with `0` only where it is nothing but that.
pub proof fn decimal_reads_back(n: nat)
    ensures
        number_of(decimal(n)) == n,
        decimal(n).len() > 0,
        forall|i: int| 0 <= i < decimal(n).len() ==> 48 <= (#[trigger] decimal(n)[i]) as int <= 57,
        decimal(n).len() > 1 ==> decimal(n)[0] as int != 48,
    decreases n,
{
    if n < 10 {
        assert(decimal(n).drop_last() =~= seq![]);
        assert(number_of(seq![]) == 0);
    } else {
        decimal_reads_back(n / 10);
        let front = decimal(n / 10);
        assert(decimal(n).drop_last() =~= front);
        assert forall|i: int| 0 <= i < decimal(n).len() implies 48 <= (#[trigger] decimal(n)[i]) as int
            <= 57 by {
            if i < front.len() {
                assert(decimal(n)[i] == front[i]);
            }
        }
        assert(decimal(n)[0] == front[0]);
        if front.len() == 1 {
            assert(front.drop_last() =~= seq![]);
            assert(number_of(seq![]) == 0);
            assert(number_of(front) == front[0] as int - 48);
        }
    }
}

/// A number with its sign begins with `-` where it lies below zero and with `+`
/// elsewhere; behind the sign stands its size.
pub proof fn signed_reads_back(n: int)
    ensures
        signed(n).len() > 1,
        signed(n)[0] == if n < 0 {
            '-'
        } else {
            '+'
        },
        number_of(signed(n).skip(1)) == if n < 0 {
            -n
        } else {
            n
        },
        signed(n).skip(1) == decimal((if n < 0 {
            -n
        } else {
            n
        }) as nat),
{
    reveal_strlit("-");
    reveal_strlit("+");
    let size = (if n < 0 {
        -n
    } else {
        n
    }) as nat;
    decimal_reads_back(size);
    assert(signed(n).skip(1) =~= decimal(size));
}

/// A text set to the right has blanks before it, as many as the column is
/// wider, and is never cut.
pub proof fn padding_fills_the_column(s: Seq<char>, width: nat)
    ensures
        pad_left(s, width).len() == if s.len() < width {
            width
        } else {
            s.len()
        },
        ends_with(pad_left(s, width), s),
        forall|i: int|
            0 <= i < pad_left(s, width).len() - s.len() ==> #[trigger] pad_left(s, width)[i] == ' ',
    decreases width - s.len(),
{
    if s.len() < width {
        let wider = seq![' '] + s;
        padding_fills_the_column(wider, width);
        let p = pad_left(wider, width);
        assert(p.skip(p.len() - s.len()) =~= p.skip(p.len() - wider.len()).skip(1));
        assert(wider.skip(1) =~= s);
        assert forall|i: int| 0 <= i < p.len() - s.len() implies #[trigger] p[i] == ' ' by {
            if i == p.len() - wider.len() {
                assert(p.skip(p.len() - wider.len())[0] == p[i]);
            }
        }
    } else {
        assert(s.skip(0) =~= s);
    }
}

/// A list of one item is that item; two lists put together are joined by the
/// separator; a list of none is nothing.
pub proof fn join_puts_separator_between(a: Seq<Seq<char>>, b: Seq<Seq<char>>, sep: Seq<char>)
    ensures
        a.len() == 0 ==> join(a, sep).len() == 0,
        a.len() == 1 ==> join(a, sep) == a[0],
        a.len() > 0 && b.len() > 0 ==> join(a + b, sep) == join(a, sep) + sep + join(b, sep),
    decreases b.len(),
{
    if a.len() > 0 && b.len() > 0 {
        let all = a + b;
        assert(all.drop_last() =~= a + b.drop_last());
        if b.len() == 1 {
            assert(all.drop_last() =~= a);
        } else {
            join_puts_separator_between(a, b.drop_last(), sep);
            assert(join(all, sep) =~= join(a, sep) + sep + join(b, sep));
        }
    }
}

/// Lines one behind the other: each is ended by a line feed, and what is written
/// of two lists together is what is written of each.
pub proof fn unlines_ends_every_line(a: Seq<Seq<char>>, b: Seq<Seq<char>>)
    ensures
        a.len() == 0 ==> unlines(a).len() == 0,
        a.len() == 1 ==> unlines(a) == a[0].push('\n'),
        unlines(a + b) == unlines(a) + unlines(b),
    decreases b.len(),
{
    reveal_strlit("\n");
    if a.len() == 1 {
        assert(a.drop_last() =~= seq![]);
        assert(unlines(seq![]) =~= seq![]);
        assert(unlines(a) =~= a[0].push('\n'));
    }
    if b.len() == 0 {
        assert(a + b =~= a);
        assert(unlines(b) =~= seq![]);
        assert(unlines(a) + unlines(b) =~= unlines(a));
    } else {
        let all = a + b;
        assert(all.drop_last() =~= a + b.drop_last());
        unlines_ends_every_line(a, b.drop_last());
        assert(unlines(all) =~= unlines(a) + unlines(b));
    }
}

/// The texts of a list are those of its strings, one for one and in order.
pub proof fn texts_are_those_of_strings(v: Seq<String>)
    ensures
        texts(v).len() == v.len(),
        forall|i: int| 0 <= i < v.len() ==> #[trigger] texts(v)[i] == v[i]@,
{
}

} // verus!
