use vstd::prelude::*;

verus! {

/// The characters of `s`, in order.
pub fn chars_of(s: &str) -> (res: Vec<char>)
    ensures
        res@ == s@,
{
    let mut res: Vec<char> = Vec::new();
    for c in it: s.chars()
        invariant
            res@ == it.seq().take(it.index() as int),
            it.seq() == s@,
    {
        res.push(c);
    }
    res
}

/// Whether two strings hold the same characters.
pub fn text_eq(a: &str, b: &str) -> (res: bool)
    ensures
        res == (a@ == b@),
{
    a.to_owned() == b.to_owned()
}

/// Calls `String::push`, which appends `c` at the end of `s`, as its
/// documentation says; that is all the contract claims.
#[verifier::external_body]
pub(crate) fn push_char(s: &mut String, c: char)
    ensures
        final(s)@ == old(s)@.push(c),
{
    s.push(c);
}

/// The string made of `chars[lo..hi]`.
pub fn string_from_chars(chars: &Vec<char>, lo: usize, hi: usize) -> (res: String)
    requires
        lo <= hi <= chars.len(),
    ensures
        res@ == chars@.subrange(lo as int, hi as int),
{
    let mut res = String::new();
    let mut i = lo;
    while i < hi
        invariant
            lo <= i <= hi <= chars.len(),
            res@ == chars@.subrange(lo as int, i as int),
        decreases hi - i,
    {
        push_char(&mut res, chars[i]);
        assert(chars@.subrange(lo as int, i + 1) == chars@.subrange(lo as int, i as int).push(chars@[i as int]));
        i += 1;
    }
    res
}

/// Unicode `White_Space`, the set `char::is_whitespace` tests for.
pub open spec fn is_white_space(c: char) -> bool {
    ||| '\u{9}' <= c <= '\u{d}'
    ||| c == ' '
    ||| c == '\u{85}'
    ||| c == '\u{a0}'
    ||| c == '\u{1680}'
    ||| '\u{2000}' <= c <= '\u{200a}'
    ||| c == '\u{2028}'
    ||| c == '\u{2029}'
    ||| c == '\u{202f}'
    ||| c == '\u{205f}'
    ||| c == '\u{3000}'
}

/// Whether `c` is white space in the sense of Unicode `White_Space`.
pub fn white_space(c: char) -> (res: bool)
    ensures
        res == is_white_space(c),
{
    ('\u{9}' <= c && c <= '\u{d}') || c == ' ' || c == '\u{85}' || c == '\u{a0}' || c == '\u{1680}'
        || ('\u{2000}' <= c && c <= '\u{200a}') || c == '\u{2028}' || c == '\u{2029}' || c
        == '\u{202f}' || c == '\u{205f}' || c == '\u{3000}'
}

/// `s` without its leading white space.
pub open spec fn trim_start(s: Seq<char>) -> Seq<char>
    decreases s.len(),
{
    if s.len() > 0 && is_white_space(s[0]) {
        trim_start(s.drop_first())
    } else {
        s
    }
}

/// `s` without its trailing white space.
pub open spec fn trim_end(s: Seq<char>) -> Seq<char>
    decreases s.len(),
{
    if s.len() > 0 && is_white_space(s.last()) {
        trim_end(s.drop_last())
    } else {
        s
    }
}

/// `s` without leading or trailing white space, as `str::trim` leaves it.
pub open spec fn trim(s: Seq<char>) -> Seq<char> {
    trim_end(trim_start(s))
}

proof fn lemma_trim_start_skip(s: Seq<char>, i: int)
    requires
        0 <= i <= s.len(),
        forall|k: int| 0 <= k < i ==> is_white_space(#[trigger] s[k]),
    ensures
        trim_start(s) == trim_start(s.subrange(i, s.len() as int)),
    decreases i,
{
    if i > 0 {
        lemma_trim_start_skip(s.drop_first(), i - 1);
        assert(s.drop_first().subrange(i - 1, s.drop_first().len() as int) == s.subrange(i, s.len() as int));
    } else {
        assert(s.subrange(0, s.len() as int) == s);
    }
}

proof fn lemma_trim_end_skip(s: Seq<char>, j: int)
    requires
        0 <= j <= s.len(),
        forall|k: int| j <= k < s.len() ==> is_white_space(#[trigger] s[k]),
    ensures
        trim_end(s) == trim_end(s.subrange(0, j)),
    decreases s.len() - j,
{
    if j < s.len() {
        lemma_trim_end_skip(s.drop_last(), j);
        assert(s.drop_last().subrange(0, j) == s.subrange(0, j));
    } else {
        assert(s.subrange(0, j) == s);
    }
}

/// The characters of `chars[lo..hi]` without leading or trailing white space.
pub fn trimmed(chars: &Vec<char>, lo: usize, hi: usize) -> (res: String)
    requires
        lo <= hi <= chars.len(),
    ensures
        res@ == trim(chars@.subrange(lo as int, hi as int)),
{
    let ghost s = chars@.subrange(lo as int, hi as int);
    let mut a = lo;
    while a < hi && white_space(chars[a])
        invariant
            lo <= a <= hi <= chars.len(),
            s == chars@.subrange(lo as int, hi as int),
            forall|k: int| lo <= k < a ==> is_white_space(#[trigger] chars@[k]),
        decreases hi - a,
    {
        a += 1;
    }
    proof {
        lemma_trim_start_skip(s, a - lo);
        assert(s.subrange(a - lo, s.len() as int) == chars@.subrange(a as int, hi as int));
    }
    let ghost t = chars@.subrange(a as int, hi as int);
    assert(trim_start(t) == t);
    let mut b = hi;
    while b > a && white_space(chars[b - 1])
        invariant
            lo <= a <= b <= hi <= chars.len(),
            t == chars@.subrange(a as int, hi as int),
            forall|k: int| b <= k < hi ==> is_white_space(#[trigger] chars@[k]),
        decreases b - a,
    {
        b -= 1;
    }
    proof {
        lemma_trim_end_skip(t, b - a);
        assert(t.subrange(0, b - a) == chars@.subrange(a as int, b as int));
    }
    string_from_chars(chars, a, b)
}

/// The pieces of `s` between commas, as `str::split(',')` yields them.
pub open spec fn split_commas(s: Seq<char>) -> Seq<Seq<char>>
    decreases s.len(),
{
    if s.len() == 0 {
        seq![Seq::empty()]
    } else {
        let prev = split_commas(s.drop_last());
        if s.last() == ',' {
            prev.push(Seq::empty())
        } else {
            prev.update(prev.len() - 1, prev.last().push(s.last()))
        }
    }
}

pub(crate) proof fn lemma_split_nonempty(s: Seq<char>)
    ensures
        split_commas(s).len() >= 1,
    decreases s.len(),
{
    if s.len() > 0 {
        lemma_split_nonempty(s.drop_last());
    }
}

/// The comma-separated pieces of `s`, each trimmed of white space.
pub fn split_commas_trimmed(s: &str) -> (res: Vec<String>)
    ensures
        res@.len() == split_commas(s@).len(),
        forall|i: int| 0 <= i < res@.len() ==> #[trigger] res@[i]@ == trim(split_commas(s@)[i]),
{
    let chars = chars_of(s);
    let mut res: Vec<String> = Vec::new();
    let mut start: usize = 0;
    let mut i: usize = 0;
    while i < chars.len()
        invariant
            chars@ == s@,
            start <= i <= chars.len(),
            forall|k: int| start <= k < i ==> chars@[k] != ',',
            split_commas(chars@.take(i as int)).len() == res@.len() + 1,
            split_commas(chars@.take(i as int)).last() == chars@.subrange(start as int, i as int),
            forall|k: int|
                0 <= k < res@.len() ==> #[trigger] res@[k]@ == trim(
                    split_commas(chars@.take(i as int))[k],
                ),
        decreases chars.len() - i,
    {
        let ghost prev = split_commas(chars@.take(i as int));
        assert(chars@.take(i + 1).drop_last() == chars@.take(i as int));
        if chars[i] == ',' {
            let piece = trimmed(&chars, start, i);
            res.push(piece);
            start = i + 1;
            assert(chars@.subrange(start as int, i + 1) == Seq::<char>::empty());
        } else {
            assert(chars@.subrange(start as int, i + 1) == chars@.subrange(start as int, i as int).push(
                chars@[i as int],
            ));
        }
        i += 1;
    }
    assert(chars@.take(i as int) == s@);
    let last = trimmed(&chars, start, i);
    res.push(last);
    res
}

/// The pieces of `pieces` joined with `sep` between each two.
pub open spec fn join(pieces: Seq<Seq<char>>, sep: Seq<char>) -> Seq<char>
    decreases pieces.len(),
{
    if pieces.len() == 0 {
        Seq::empty()
    } else if pieces.len() == 1 {
        pieces[0]
    } else {
        join(pieces.drop_last(), sep) + sep + pieces.last()
    }
}

/// The views of a vector of strings.
pub open spec fn views(v: Seq<String>) -> Seq<Seq<char>> {
    v.map_values(|s: String| s@)
}

/// Joins `pieces` with `sep` between each two (`[..].join(sep)`).
pub fn join_strings(pieces: &Vec<String>, sep: &str) -> (res: String)
    ensures
        res@ == join(views(pieces@), sep@),
{
    let mut res = String::new();
    let mut i: usize = 0;
    while i < pieces.len()
        invariant
            i <= pieces.len(),
            res@ == join(views(pieces@.take(i as int)), sep@),
        decreases pieces.len() - i,
    {
        assert(views(pieces@.take(i + 1)).drop_last() == views(pieces@.take(i as int)));
        if i != 0 {
            res.append(sep);
        }
        res.append(pieces[i].as_str());
        i += 1;
    }
    assert(pieces@.take(i as int) == pieces@);
    res
}

/// The decimal digit character for `d`.
pub open spec fn digit_char(d: int) -> char
    recommends
        0 <= d < 10,
{
    (d + 48) as char
}

/// The decimal representation of `n`, without leading zeros.
pub open spec fn decimal(n: nat) -> Seq<char>
    decreases n,
{
    if n < 10 {
        seq![digit_char(n as int)]
    } else {
        decimal(n / 10).push(digit_char((n % 10) as int))
    }
}

/// `s` padded on the left with `'0'` to at least `width` characters.
pub open spec fn zero_pad(s: Seq<char>, width: nat) -> Seq<char> {
    if s.len() >= width {
        s
    } else {
        Seq::new((width - s.len()) as nat, |i: int| '0') + s
    }
}

/// Writes `n` in decimal (`format!("{}", n)`).
pub fn decimal_string(n: u64) -> (res: String)
    ensures
        res@ == decimal(n as nat),
{
    let mut digits: Vec<char> = Vec::new();
    let mut m = n;
    // digits of n, least significant first
    while m >= 10
        invariant
            m <= n,
            decimal(n as nat) == decimal(m as nat) + digits@.reverse(),
        decreases m,
    {
        let d = (m % 10) as u8;
        let c = (d + 48) as char;
        let ghost old_rev = digits@.reverse();
        assert(decimal(m as nat) == decimal((m / 10) as nat).push(c));
        digits.push(c);
        assert(digits@.reverse() =~= seq![c] + old_rev);
        assert(decimal((m / 10) as nat).push(c) + old_rev =~= decimal((m / 10) as nat) + (seq![c]
            + old_rev));
        m = m / 10;
    }
    let d = m as u8;
    let c = (d + 48) as char;
    let ghost old_rev = digits@.reverse();
    assert(decimal(m as nat) == seq![c]);
    digits.push(c);
    assert(digits@.reverse() =~= seq![c] + old_rev);
    assert(decimal(n as nat) == digits@.reverse());
    let mut res = String::new();
    let mut i = digits.len();
    while i > 0
        invariant
            i <= digits.len(),
            res@ == digits@.reverse().take((digits.len() - i) as int),
        decreases i,
    {
        i -= 1;
        push_char(&mut res, digits[i]);
        assert(digits@.reverse().take((digits.len() - i) as int) == digits@.reverse().take(
            (digits.len() - i - 1) as int,
        ).push(digits@[i as int]));
    }
    assert(digits@.reverse().take(digits.len() as int) == digits@.reverse());
    res
}

/// Writes `n` in decimal, padded with zeros to at least `width` digits
/// (`format!("{:0width$}", n)`).
pub fn zero_padded_decimal(n: u64, width: usize) -> (res: String)
    ensures
        res@ == zero_pad(decimal(n as nat), width as nat),
{
    let body = decimal_string(n);
    let len = body.as_str().unicode_len();
    if len >= width {
        return body;
    }
    let mut res = String::new();
    let mut k: usize = 0;
    while k < width - len
        invariant
            len < width,
            k <= width - len,
            res@ == Seq::new(k as nat, |i: int| '0'),
        decreases width - len - k,
    {
        push_char(&mut res, '0');
        assert(res@ == Seq::new((k + 1) as nat, |i: int| '0'));
        k += 1;
    }
    res.append(body.as_str());
    res
}

proof fn lemma_join_extend_last(x: Seq<Seq<char>>, sep: Seq<char>, c: char)
    requires
        x.len() >= 1,
    ensures
        join(x.update(x.len() - 1, x.last().push(c)), sep) == join(x, sep).push(c),
{
    let y = x.update(x.len() - 1, x.last().push(c));
    if x.len() == 1 {
        assert(y[0] == x[0].push(c));
    } else {
        assert(y.drop_last() =~= x.drop_last());
        assert(y.last() == x.last().push(c));
        assert(join(y, sep) =~= join(x, sep).push(c));
    }
}

/// Law: splitting on commas gives pieces that hold no comma and that,
/// joined back with commas, give the text split: nothing is lost, added or
/// moved.
pub proof fn law_split_commas_rejoins(s: Seq<char>)
    ensures
        forall|k: int| 0 <= k < split_commas(s).len() ==> !(#[trigger] split_commas(s)[k]).contains(','),
        join(split_commas(s), seq![',']) == s,
    decreases s.len(),
{
    if s.len() == 0 {
        assert(split_commas(s)[0] =~= Seq::<char>::empty());
        assert(join(split_commas(s), seq![',']) =~= s);
    } else {
        let t = s.drop_last();
        let c = s.last();
        law_split_commas_rejoins(t);
        lemma_split_nonempty(t);
        let prev = split_commas(t);
        if c == ',' {
            let cur = prev.push(Seq::empty());
            assert(cur.drop_last() =~= prev);
            assert(join(cur, seq![',']) =~= t + seq![','] + Seq::<char>::empty());
            assert(t + seq![','] + Seq::<char>::empty() =~= s);
            assert forall|k: int| 0 <= k < cur.len() implies !(#[trigger] cur[k]).contains(',') by {
                if k < prev.len() {
                    assert(cur[k] == prev[k]);
                } else {
                    assert(cur[k] =~= Seq::<char>::empty());
                }
            }
        } else {
            let cur = prev.update(prev.len() - 1, prev.last().push(c));
            lemma_join_extend_last(prev, seq![','], c);
            assert(t.push(c) =~= s);
            assert forall|k: int| 0 <= k < cur.len() implies !(#[trigger] cur[k]).contains(',') by {
                if k < prev.len() - 1 {
                    assert(cur[k] == prev[k]);
                } else {
                    let piece = prev.last().push(c);
                    assert(cur[k] == piece);
                    assert(!prev[prev.len() - 1].contains(','));
                    if piece.contains(',') {
                        let j = choose|j: int| 0 <= j < piece.len() && piece[j] == ',';
                        if j < piece.len() - 1 {
                            assert(prev.last()[j] == ',');
                        }
                    }
                }
            }
        }
    }
}

proof fn lemma_trim_start_shape(s: Seq<char>) -> (i: int)
    ensures
        0 <= i <= s.len(),
        trim_start(s) == s.subrange(i, s.len() as int),
        forall|k: int| 0 <= k < i ==> is_white_space(#[trigger] s[k]),
        trim_start(s).len() > 0 ==> !is_white_space(trim_start(s)[0]),
    decreases s.len(),
{
    if s.len() > 0 && is_white_space(s[0]) {
        let j = lemma_trim_start_shape(s.drop_first());
        assert(s.drop_first().subrange(j, s.drop_first().len() as int) =~= s.subrange(j + 1, s.len() as int));
        assert forall|k: int| 0 <= k < j + 1 implies is_white_space(#[trigger] s[k]) by {
            if k > 0 {
                assert(s[k] == s.drop_first()[k - 1]);
            }
        }
        j + 1
    } else {
        assert(s.subrange(0, s.len() as int) =~= s);
        0
    }
}

proof fn lemma_trim_end_shape(s: Seq<char>) -> (j: int)
    ensures
        0 <= j <= s.len(),
        trim_end(s) == s.subrange(0, j),
        forall|k: int| j <= k < s.len() ==> is_white_space(#[trigger] s[k]),
        trim_end(s).len() > 0 ==> !is_white_space(trim_end(s).last()),
    decreases s.len(),
{
    if s.len() > 0 && is_white_space(s.last()) {
        let j = lemma_trim_end_shape(s.drop_last());
        assert(s.drop_last().subrange(0, j) =~= s.subrange(0, j));
        assert forall|k: int| j <= k < s.len() implies is_white_space(#[trigger] s[k]) by {
            if k < s.len() - 1 {
                assert(s[k] == s.drop_last()[k]);
            }
        }
        j
    } else {
        assert(s.subrange(0, s.len() as int) =~= s);
        s.len() as int
    }
}

/// Law: trimming removes white space from both ends and nothing else: the
/// result is a contiguous piece of the text, everything cut off on either
/// side is white space, and the result neither starts nor ends with white
/// space.
pub proof fn law_trim_cuts_only_outer_white_space(s: Seq<char>)
    ensures
        exists|i: int, j: int|
            0 <= i <= j <= s.len() && trim(s) == s.subrange(i, j) && (forall|k: int|
                0 <= k < i ==> is_white_space(#[trigger] s[k])) && (forall|k: int|
                j <= k < s.len() ==> is_white_space(#[trigger] s[k])),
        trim(s).len() > 0 ==> !is_white_space(trim(s)[0]) && !is_white_space(trim(s).last()),
{
    let i = lemma_trim_start_shape(s);
    let t = trim_start(s);
    let j = lemma_trim_end_shape(t);
    assert(trim(s) == t.subrange(0, j));
    assert(t.subrange(0, j) =~= s.subrange(i, i + j));
    assert forall|k: int| i + j <= k < s.len() implies is_white_space(#[trigger] s[k]) by {
        assert(s[k] == t[k - i]);
    }
    if trim(s).len() > 0 {
        assert(trim(s)[0] == t[0]);
    }
    assert(0 <= i <= i + j <= s.len() && trim(s) == s.subrange(i, i + j));
}

/// The number a text of decimal digits stands for.
pub open spec fn digits_value(s: Seq<char>) -> int
    decreases s.len(),
{
    if s.len() == 0 {
        0
    } else {
        digits_value(s.drop_last()) * 10 + (s.last() as int - 48)
    }
}

/// Law: a number is written with decimal digits only, stands for the
/// number itself, and starts with `0` only where the number is 0.
pub proof fn law_decimal_writes_the_number(n: nat)
    ensures
        decimal(n).len() >= 1,
        forall|k: int| 0 <= k < decimal(n).len() ==> '0' <= #[trigger] decimal(n)[k] <= '9',
        digits_value(decimal(n)) == n,
        decimal(n)[0] == '0' ==> n == 0,
    decreases n,
{
    if n >= 10 {
        law_decimal_writes_the_number(n / 10);
        let d = decimal(n);
        let h = decimal(n / 10);
        assert(d == h.push(digit_char((n % 10) as int)));
        assert(d.drop_last() =~= h);
        assert forall|k: int| 0 <= k < d.len() implies '0' <= #[trigger] d[k] <= '9' by {
            if k < h.len() {
                assert(d[k] == h[k]);
            }
        }
        assert(d[0] == h[0]);
        assert(d.last() == digit_char((n % 10) as int));
        assert(digit_char((n % 10) as int) as int == (n % 10) + 48);
        assert(digits_value(d) == digits_value(h) * 10 + (n % 10));
    } else {
        let d = decimal(n);
        assert(d.last() == digit_char(n as int));
        assert(digit_char(n as int) as int == n + 48);
        assert(d.drop_last() =~= Seq::<char>::empty());
        assert(digits_value(d.drop_last()) == 0);
    }
}

/// Law: padding keeps the text at its end and puts only zeros before it,
/// up to the width asked for.
pub proof fn law_zero_pad_keeps_text(s: Seq<char>, width: nat)
    ensures
        zero_pad(s, width).len() == (if s.len() >= width { s.len() } else { width }),
        zero_pad(s, width).subrange(zero_pad(s, width).len() - s.len(), zero_pad(s, width).len() as int) == s,
        forall|k: int| 0 <= k < zero_pad(s, width).len() - s.len() ==> #[trigger] zero_pad(s, width)[k] == '0',
{
    let p = zero_pad(s, width);
    assert(p.subrange(p.len() - s.len(), p.len() as int) =~= s);
}

} // verus!
