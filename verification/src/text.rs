use vstd::prelude::*;
use vstd::string::*;

verus! {

/// The character that stands for a decimal digit `d` (`d < 10`).
pub open spec fn digit_char(d: nat) -> char {
    if d == 0 { '0' }
    else if d == 1 { '1' }
    else if d == 2 { '2' }
    else if d == 3 { '3' }
    else if d == 4 { '4' }
    else if d == 5 { '5' }
    else if d == 6 { '6' }
    else if d == 7 { '7' }
    else if d == 8 { '8' }
    else { '9' }
}

/// Decimal notation of `n`, without sign or leading zeros (as `Display` writes integers).
pub open spec fn decimal(n: nat) -> Seq<char>
    decreases n,
{
    if n < 10 {
        seq![digit_char(n)]
    } else {
        decimal(n / 10).push(digit_char(n % 10))
    }
}

fn digit_text(d: u64) -> (r: &'static str)
    requires
        d < 10,
    ensures
        r@ == seq![digit_char(d as nat)],
{
    if d == 0 {
        proof { reveal_strlit("0"); }
        "0"
    } else if d == 1 {
        proof { reveal_strlit("1"); }
        "1"
    } else if d == 2 {
        proof { reveal_strlit("2"); }
        "2"
    } else if d == 3 {
        proof { reveal_strlit("3"); }
        "3"
    } else if d == 4 {
        proof { reveal_strlit("4"); }
        "4"
    } else if d == 5 {
        proof { reveal_strlit("5"); }
        "5"
    } else if d == 6 {
        proof { reveal_strlit("6"); }
        "6"
    } else if d == 7 {
        proof { reveal_strlit("7"); }
        "7"
    } else if d == 8 {
        proof { reveal_strlit("8"); }
        "8"
    } else {
        proof { reveal_strlit("9"); }
        "9"
    }
}

/// Appends the decimal notation of `n` to `s`.
pub fn push_decimal(s: &mut String, n: u64)
    ensures
        final(s)@ == old(s)@ + decimal(n as nat),
    decreases n,
{
    if n >= 10 {
        push_decimal(s, n / 10);
    }
    let d = digit_text(n % 10);
    s.append(d);
    assert(decimal(n as nat) == if n < 10 { seq![digit_char(n as nat)] } else {
        decimal((n / 10) as nat).push(digit_char((n % 10) as nat))
    });
}


/// `parts` joined with `sep` between neighbours (as `[String]::join` does).
pub open spec fn joined(parts: Seq<Seq<char>>, sep: Seq<char>) -> Seq<char>
    decreases parts.len(),
{
    if parts.len() == 0 {
        Seq::empty()
    } else if parts.len() == 1 {
        parts[0]
    } else {
        joined(parts.drop_last(), sep) + sep + parts.last()
    }
}

/// The character sequences held by a sequence of strings.
pub open spec fn texts(v: Seq<String>) -> Seq<Seq<char>> {
    v.map_values(|s: String| s@)
}

/// Joins `parts` with `sep` between each two neighbours.
pub fn join_strings(parts: &Vec<String>, sep: &str) -> (r: String)
    ensures
        r@ == joined(texts(parts@), sep@),
{
    let mut r = String::new();
    let n = parts.len();
    let mut i: usize = 0;
    while i < n
        invariant
            n == parts@.len(),
            i <= n,
            r@ == joined(texts(parts@).take(i as int), sep@),
        decreases n - i,
    {
        let ghost before = texts(parts@).take(i as int);
        if i > 0 {
            r.append(sep);
        }
        r.append(parts[i].as_str());
        proof {
            let after = texts(parts@).take(i + 1);
            assert(after.drop_last() =~= before);
            assert(after.last() == parts@[i as int]@);
            if i == 0 {
                assert(before =~= Seq::<Seq<char>>::empty());
            }
        }
        i = i + 1;
    }
    assert(texts(parts@).take(n as int) =~= texts(parts@));
    r
}

/// Unicode `White_Space` characters, the set that `char::is_whitespace` and `str::trim` use.
pub open spec fn is_white_space(c: char) -> bool {
    let v = c as int;
    ||| 0x9 <= v <= 0xd
    ||| v == 0x20
    ||| v == 0x85
    ||| v == 0xa0
    ||| v == 0x1680
    ||| 0x2000 <= v <= 0x200a
    ||| v == 0x2028
    ||| v == 0x2029
    ||| v == 0x202f
    ||| v == 0x205f
    ||| v == 0x3000
}

/// `s` without its leading white space.
pub open spec fn trim_start(s: Seq<char>) -> Seq<char>
    decreases s.len(),
{
    if s.len() > 0 && is_white_space(s[0]) {
        trim_start(s.drop_first())
    } else {
        s
    }
}

/// `s` without its trailing white space.
pub open spec fn trim_end(s: Seq<char>) -> Seq<char>
    decreases s.len(),
{
    if s.len() > 0 && is_white_space(s.last()) {
        trim_end(s.drop_last())
    } else {
        s
    }
}

/// `s` without leading and trailing white space.
pub open spec fn trimmed(s: Seq<char>) -> Seq<char> {
    trim_end(trim_start(s))
}

/// Every character of `s` is white space (the empty text included).
pub open spec fn is_blank(s: Seq<char>) -> bool {
    forall|i: int| 0 <= i < s.len() ==> is_white_space(#[trigger] s[i])
}

proof fn lemma_trim_start_blank(s: Seq<char>)
    ensures
        is_blank(trim_start(s)) <==> is_blank(s),
        trim_start(s).len() == 0 <==> is_blank(s),
    decreases s.len(),
{
    if s.len() > 0 && is_white_space(s[0]) {
        lemma_trim_start_blank(s.drop_first());
        if is_blank(s.drop_first()) {
            assert forall|i: int| 0 <= i < s.len() implies is_white_space(#[trigger] s[i]) by {
                if i > 0 {
                    assert(s[i] == s.drop_first()[i - 1]);
                }
            }
        }
        if is_blank(s) {
            assert forall|i: int| 0 <= i < s.drop_first().len() implies is_white_space(
                #[trigger] s.drop_first()[i],
            ) by {
                assert(s.drop_first()[i] == s[i + 1]);
            }
        }
    } else if s.len() > 0 {
        assert(!is_white_space(s[0]));
    }
}

proof fn lemma_trim_end_blank(s: Seq<char>)
    ensures
        is_blank(trim_end(s)) <==> is_blank(s),
        trim_end(s).len() == 0 <==> is_blank(s),
    decreases s.len(),
{
    if s.len() > 0 && is_white_space(s.last()) {
        lemma_trim_end_blank(s.drop_last());
        if is_blank(s.drop_last()) {
            assert forall|i: int| 0 <= i < s.len() implies is_white_space(#[trigger] s[i]) by {
                if i < s.len() - 1 {
                    assert(s[i] == s.drop_last()[i]);
                }
            }
        }
        if is_blank(s) {
            assert forall|i: int| 0 <= i < s.drop_last().len() implies is_white_space(
                #[trigger] s.drop_last()[i],
            ) by {
                assert(s.drop_last()[i] == s[i]);
            }
        }
    } else if s.len() > 0 {
        assert(!is_white_space(s[s.len() - 1]));
    }
}

/// Trimming leaves nothing exactly when the text is all white space, and what it
/// leaves is all white space only when it is nothing.
pub proof fn lemma_trimmed_empty_iff_blank(s: Seq<char>)
    ensures
        trimmed(s).len() == 0 <==> is_blank(s),
        is_blank(trimmed(s)) <==> is_blank(s),
{
    lemma_trim_start_blank(s);
    lemma_trim_end_blank(trim_start(s));
}

/// Calls `str::trim`, which (by its documentation) removes leading and trailing
/// characters with the Unicode `White_Space` property; the contract states exactly that.
#[verifier::external_body]
pub(crate) fn trim_text<'a>(s: &'a str) -> (r: &'a str)
    ensures
        r@ == trimmed(s@),
{
    s.trim()
}

/// `p` is a prefix of `s`.
pub open spec fn is_prefix(p: Seq<char>, s: Seq<char>) -> bool {
    p.len() <= s.len() && s.subrange(0, p.len() as int) == p
}

/// The characters of `s`, in order.
pub fn chars_of(s: &str) -> (r: Vec<char>)
    ensures
        r@ == s@,
{
    let mut r: Vec<char> = Vec::new();
    let ghost all = s@;
    for c in iter: s.chars()
        invariant
            r@ == all.take(iter.index() as int),
            iter.seq() == all,
    {
        let ghost k = iter.index();
        assert(c == all[k as int]);
        r.push(c);
        assert(r@ =~= all.take(k + 1));
    }
    assert(all.take(all.len() as int) =~= all);
    r
}

/// Whether `prefix` begins `s`.
pub fn starts_with_text(s: &str, prefix: &str) -> (r: bool)
    ensures
        r == is_prefix(prefix@, s@),
{
    let sv = chars_of(s);
    let pv = chars_of(prefix);
    if pv.len() > sv.len() {
        return false;
    }
    let n = pv.len();
    let mut i: usize = 0;
    while i < n
        invariant
            sv@ == s@,
            pv@ == prefix@,
            n == pv@.len(),
            n <= sv@.len(),
            i <= n,
            forall|j: int| 0 <= j < i ==> sv@[j] == pv@[j],
        decreases n - i,
    {
        if sv[i] != pv[i] {
            assert(s@.subrange(0, n as int)[i as int] != prefix@[i as int]);
            return false;
        }
        i = i + 1;
    }
    assert(s@.subrange(0, n as int) =~= prefix@);
    true
}

/// Whether `a` and `b` hold the same characters.
pub fn same_text(a: &str, b: &str) -> (r: bool)
    ensures
        r == (a@ == b@),
{
    let x: String = a.to_owned();
    let y: String = b.to_owned();
    x == y
}

/// Calls `String::push`: appends one character.
#[verifier::external_body]
pub(crate) fn push_char(s: &mut String, c: char)
    ensures
        final(s)@ == old(s)@.push(c),
{
    s.push(c)
}

/// `s` with every space character removed (as `str::replace(" ", "")` gives it).
pub open spec fn without_spaces(s: Seq<char>) -> Seq<char> {
    s.filter(|c: char| c != ' ')
}

/// Returns `s` with every space removed.
pub fn remove_spaces(s: &str) -> (r: String)
    ensures
        r@ == without_spaces(s@),
{
    let mut r = String::new();
    let ghost keep = |c: char| c != ' ';
    let ghost all = s@;
    for c in iter: s.chars()
        invariant
            r@ == all.take(iter.index() as int).filter(keep),
            iter.seq() == all,
            keep == (|c: char| c != ' '),
    {
        let ghost k = iter.index();
        proof {
            assert(c == all[k as int]);
            assert(all.take(k + 1) =~= all.take(k as int).push(c));
            all.take(k as int).lemma_filter_push(c, keep);
        }
        if c != ' ' {
            push_char(&mut r, c);
        }
    }
    assert(all.take(all.len() as int) =~= all);
    r
}

/// What `str::to_lowercase` gives for a text: the Unicode lowercase mapping, named
/// here rather than written out.
pub uninterp spec fn lowercase_of(s: Seq<char>) -> Seq<char>;

/// The ASCII lowercase form of a character; other characters stay.
pub open spec fn ascii_lower_char(c: char) -> char {
    if 'A' <= c <= 'Z' {
        ((c as int) + 32) as char
    } else {
        c
    }
}

/// Calls `str::to_lowercase`. Its result is named `lowercase_of`; beside the name the
/// contract states the one fact that the Unicode mapping gives for ASCII text: each
/// capital `A`..`Z` becomes its small letter and every other ASCII character stays.
#[verifier::external_body]
pub(crate) fn to_lowercase_text(s: &str) -> (r: String)
    ensures
        r@ == lowercase_of(s@),
        vstd::utf8::is_ascii_chars(s@) ==> r@ == s@.map_values(|c: char| ascii_lower_char(c)),
{
    s.to_lowercase()
}

/// The number a decimal digit character stands for.
pub open spec fn digit_value(c: char) -> int {
    (c as int) - ('0' as int)
}

/// The character is one of `0`..`9`.
pub open spec fn is_decimal_digit(c: char) -> bool {
    '0' <= c <= '9'
}

/// The number a sequence of decimal digits reads as, most significant first.
pub open spec fn numeral_value(s: Seq<char>) -> int
    decreases s.len(),
{
    if s.len() == 0 {
        0
    } else {
        10 * numeral_value(s.drop_last()) + digit_value(s.last())
    }
}

proof fn lemma_digit_char(d: nat)
    requires
        d < 10,
    ensures
        is_decimal_digit(digit_char(d)),
        digit_value(digit_char(d)) == d,
        d > 0 ==> digit_char(d) != '0',
{
}

/// `decimal(n)` is the standard base-10 notation of `n`: it is made of decimal digits,
/// reads back as `n`, and has no leading zero unless `n` is zero (then it is `0`).
pub proof fn decimal_is_base_ten(n: nat)
    ensures
        decimal(n).len() > 0,
        forall|i: int| 0 <= i < decimal(n).len() ==> is_decimal_digit(#[trigger] decimal(n)[i]),
        numeral_value(decimal(n)) == n,
        n > 0 ==> decimal(n)[0] != '0',
        n == 0 ==> decimal(n) == seq!['0'],
    decreases n,
{
    if n < 10 {
        lemma_digit_char(n);
        assert(decimal(n).drop_last() =~= Seq::<char>::empty());
        assert(numeral_value(Seq::<char>::empty()) == 0);
        assert(numeral_value(decimal(n)) == 10 * numeral_value(decimal(n).drop_last()) + digit_value(decimal(n).last()));
        assert(decimal(n).last() == digit_char(n));
    } else {
        decimal_is_base_ten(n / 10);
        lemma_digit_char(n % 10);
        let d = decimal(n);
        assert(d.drop_last() =~= decimal(n / 10));
        assert(d[0] == decimal(n / 10)[0]);
        assert(forall|i: int| 0 <= i < d.len() - 1 ==> d[i] == decimal(n / 10)[i]);
        assert(d.last() == digit_char(n % 10));
        assert(numeral_value(d) == 10 * numeral_value(decimal(n / 10)) + digit_value(d.last()));
        assert(10 * (n / 10) + n % 10 == n);
    }
}

} // verus!
