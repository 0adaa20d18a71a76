//! Text building blocks: decimal numerals, zero padding and substring tests.
use vstd::prelude::*;

verus! {

/// The ASCII digit for `d` (`d < 10`).
pub open spec fn digit_char(d: nat) -> char {
    if d == 0 { '0' } else if d == 1 { '1' } else if d == 2 { '2' } else if d == 3 { '3' }
    else if d == 4 { '4' } else if d == 5 { '5' } else if d == 6 { '6' } else if d == 7 { '7' }
    else if d == 8 { '8' } else { '9' }
}

/// The decimal numeral of `n`, as `{}` prints an unsigned integer.
pub open spec fn decimal(n: nat) -> Seq<char>
    decreases n,
{
    if n < 10 {
        seq![digit_char(n)]
    } else {
        decimal(n / 10).push(digit_char(n % 10))
    }
}

fn digit_str(d: u64) -> (s: &'static str)
    requires
        d < 10,
    ensures
        s@ == seq![digit_char(d as nat)],
{
    proof {
        reveal_strlit("0");
        reveal_strlit("1");
        reveal_strlit("2");
        reveal_strlit("3");
        reveal_strlit("4");
        reveal_strlit("5");
        reveal_strlit("6");
        reveal_strlit("7");
        reveal_strlit("8");
        reveal_strlit("9");
    }
    match d {
        0 => "0",
        1 => "1",
        2 => "2",
        3 => "3",
        4 => "4",
        5 => "5",
        6 => "6",
        7 => "7",
        8 => "8",
        _ => "9",
    }
}

/// Appends the decimal numeral of `n` to `out`.
pub fn push_decimal(out: &mut String, n: u64)
    ensures
        final(out)@ == old(out)@ + decimal(n as nat),
    decreases n,
{
    if n < 10 {
        out.append(digit_str(n));
    } else {
        push_decimal(out, n / 10);
        out.append(digit_str(n % 10));
        proof {
            assert(decimal(n as nat) == decimal((n / 10) as nat).push(digit_char((n % 10) as nat)));
        }
    }
}

} // verus!

verus! {

/// The numeral that `{:02}` prints: at least two digits, a leading zero below ten.
pub open spec fn padded2(n: nat) -> Seq<char> {
    if n < 10 { seq!['0'] + decimal(n) } else { decimal(n) }
}

/// Appends `n` formatted as `{:02}` to `out`.
pub fn push_padded2(out: &mut String, n: u64)
    ensures
        final(out)@ == old(out)@ + padded2(n as nat),
{
    if n < 10 {
        proof { reveal_strlit("0"); }
        out.append("0");
    }
    push_decimal(out, n);
}

/// The characters of `s`, one by one.
pub fn chars_of(s: &str) -> (v: Vec<char>)
    ensures
        v@ == s@,
{
    broadcast use vstd::string::group_string_axioms;
    let mut it = s.chars();
    let mut v: Vec<char> = Vec::new();
    loop
        invariant
            v@ + vstd::std_specs::iter::IteratorSpec::remaining(&it) == s@,
            vstd::std_specs::iter::IteratorSpec::obeys_prophetic_iter_laws(&it),
            vstd::std_specs::iter::IteratorSpec::decrease(&it) is Some,
        ensures
            v@ == s@,
        decreases vstd::std_specs::iter::IteratorSpec::decrease(&it)->0,
    {
        match it.next() {
            Some(c) => {
                v.push(c);
            }
            None => {
                break;
            }
        }
    }
    v
}

/// `needle` occurs in `hay` starting at position `i`.
pub open spec fn occurs_at(hay: Seq<char>, needle: Seq<char>, i: int) -> bool {
    &&& 0 <= i
    &&& i + needle.len() <= hay.len()
    &&& hay.subrange(i, i + needle.len()) == needle
}

/// `needle` occurs somewhere in `hay`, as `str::contains` tests it.
pub open spec fn contains_seq(hay: Seq<char>, needle: Seq<char>) -> bool {
    exists|i: int| occurs_at(hay, needle, i)
}

/// `prefix` begins `s`, as `str::starts_with` tests it.
pub open spec fn starts_with_seq(s: Seq<char>, prefix: Seq<char>) -> bool {
    occurs_at(s, prefix, 0)
}

fn matches_at(hay: &Vec<char>, needle: &Vec<char>, i: usize) -> (b: bool)
    requires
        i + needle.len() <= hay.len(),
    ensures
        b == occurs_at(hay@, needle@, i as int),
{
    let mut j: usize = 0;
    while j < needle.len()
        invariant
            i + needle.len() <= hay.len(),
            j <= needle.len(),
            forall|k: int| 0 <= k < j ==> hay@[i + k] == needle@[k],
        decreases needle.len() - j,
    {
        if hay[i + j] != needle[j] {
            assert(hay@.subrange(i as int, i + needle.len())[j as int] != needle@[j as int]);
            return false;
        }
        j = j + 1;
    }
    assert(hay@.subrange(i as int, i + needle.len()) =~= needle@);
    true
}

/// Whether `needle` occurs in `hay`.
pub fn contains_str(hay: &str, needle: &str) -> (b: bool)
    ensures
        b == contains_seq(hay@, needle@),
{
    let h = chars_of(hay);
    let n = chars_of(needle);
    if n.len() > h.len() {
        return false;
    }
    let last = h.len() - n.len();
    let mut i: usize = 0;
    loop
        invariant
            h@ == hay@,
            n@ == needle@,
            last == h.len() - n.len(),
            i <= last,
            forall|k: int| 0 <= k < i ==> !occurs_at(hay@, needle@, k),
        decreases last - i,
    {
        if matches_at(&h, &n, i) {
            return true;
        }
        if i == last {
            assert forall|k: int| !occurs_at(hay@, needle@, k) by {
                if 0 <= k < i {
                } else if k == i {
                } else {
                }
            }
            return false;
        }
        i = i + 1;
    }
}

/// Whether `s` begins with `prefix`.
pub fn starts_with_str(s: &str, prefix: &str) -> (b: bool)
    ensures
        b == starts_with_seq(s@, prefix@),
{
    let sv = chars_of(s);
    let pv = chars_of(prefix);
    if pv.len() > sv.len() {
        return false;
    }
    matches_at(&sv, &pv, 0)
}

} // verus!

verus! {

/// How a channel is mentioned in a message: "<#id>".
pub open spec fn channel_mention(id: nat) -> Seq<char> {
    seq!['<', '#'] + decimal(id) + seq!['>']
}

/// Appends the mention of channel `id` to `out`.
pub fn push_channel_mention(out: &mut String, id: u64)
    ensures
        final(out)@ == old(out)@ + channel_mention(id as nat),
{
    proof {
        reveal_strlit("<#");
        reveal_strlit(">");
    }
    out.append("<#");
    push_decimal(out, id);
    out.append(">");
    assert(final(out)@ =~= old(out)@ + channel_mention(id as nat));
}

/// The value of a run of ASCII decimal digits.
pub open spec fn digits_value(s: Seq<u8>) -> nat
    decreases s.len(),
{
    if s.len() == 0 {
        0
    } else {
        digits_value(s.drop_last()) * 10 + (s.last() - 48) as nat
    }
}

/// Every byte of `s` is an ASCII decimal digit.
pub open spec fn all_digits(s: Seq<u8>) -> bool {
    forall|i: int| 0 <= i < s.len() ==> 48 <= #[trigger] s[i] <= 57
}

/// The digits that `u64::from_str` reads: the text after one leading '+', if the
/// text is longer than that sign, else the whole text.
pub open spec fn unsigned_digits(s: Seq<u8>) -> Seq<u8> {
    if s.len() > 1 && s[0] == 43 { s.drop_first() } else { s }
}

/// What `u64::from_str` gives for the UTF-8 text `s`: its value when it is a
/// non-empty run of decimal digits after an optional '+' and fits in 64 bits.
pub open spec fn parse_u64_spec(s: Seq<u8>) -> Option<u64> {
    let d = unsigned_digits(s);
    if d.len() > 0 && all_digits(d) && digits_value(d) <= u64::MAX {
        Some(digits_value(d) as u64)
    } else {
        None
    }
}

proof fn lemma_digits_value_grows(s: Seq<u8>, i: int, j: int)
    requires
        0 <= i <= j <= s.len(),
        all_digits(s),
    ensures
        digits_value(s.subrange(0, i)) <= digits_value(s.subrange(0, j)),
    decreases j - i,
{
    if i < j {
        lemma_digits_value_grows(s, i, j - 1);
        assert(s.subrange(0, j).drop_last() =~= s.subrange(0, j - 1));
    }
}

/// Reads an unsigned decimal number from UTF-8 text, as `u64::from_str` does.
pub fn parse_u64(s: &[u8]) -> (r: Option<u64>)
    ensures
        r == parse_u64_spec(s@),
{
    assert(s@.subrange(0, s@.len() as int) =~= s@);
    parse_u64_from(s, 0)
}

/// Reads an unsigned decimal number, as `u64::from_str` does, from the bytes of `s`
/// that follow the first `from`.
pub fn parse_u64_from(s: &[u8], from: usize) -> (r: Option<u64>)
    requires
        from <= s.len(),
    ensures
        r == parse_u64_spec(s@.subrange(from as int, s@.len() as int)),
{
    let ghost t = s@.subrange(from as int, s@.len() as int);
    let mut start: usize = from;
    if s.len() - from > 1 && s[from] == 43 {
        start = from + 1;
    }
    let ghost d = unsigned_digits(t);
    assert(d =~= s@.subrange(start as int, s@.len() as int));
    if start == s.len() {
        return None;
    }
    let mut value: u64 = 0;
    let mut i: usize = start;
    while i < s.len()
        invariant
            start <= i <= s.len(),
            start < s.len(),
            d == unsigned_digits(t),
            t == s@.subrange(from as int, s@.len() as int),
            d =~= s@.subrange(start as int, s@.len() as int),
            forall|k: int| 0 <= k < i - start ==> 48 <= #[trigger] d[k] <= 57,
            value as nat == digits_value(d.subrange(0, i - start)),
        decreases s.len() - i,
    {
        let b = s[i];
        if b < 48 || b > 57 {
            assert(!all_digits(d)) by {
                assert(d[i - start] == b);
            }
            return None;
        }
        assert(d.subrange(0, i + 1 - start).drop_last() =~= d.subrange(0, i - start));
        let digit: u64 = (b - 48) as u64;
        if value > (u64::MAX - digit) / 10 {
            proof {
                let k = (i + 1 - start) as int;
                assert(digits_value(d.subrange(0, k)) > u64::MAX) by (nonlinear_arith)
                    requires
                        digits_value(d.subrange(0, k)) == value * 10 + digit,
                        value > (u64::MAX - digit) / 10,
                        digit <= 9,
                ;
                if all_digits(d) {
                    lemma_digits_value_grows(d, k, d.len() as int);
                    assert(d.subrange(0, d.len() as int) =~= d);
                }
            }
            return None;
        }
        value = value * 10 + digit;
        i = i + 1;
    }
    assert(d.subrange(0, d.len() as int) =~= d);
    Some(value)
}

} // verus!

verus! {

/// The texts of `list` with `sep` between neighbours.
pub open spec fn joined(list: Seq<Seq<char>>, sep: Seq<char>) -> Seq<char>
    decreases list.len(),
{
    if list.len() == 0 {
        Seq::empty()
    } else if list.len() == 1 {
        list[0]
    } else {
        joined(list.drop_last(), sep) + sep + list.last()
    }
}

/// The words of `list` separated by single spaces.
pub fn join_words(list: &Vec<String>) -> (s: String)
    ensures
        s@ == joined(list.deep_view(), seq![' ']),
{
    proof {
        reveal_strlit(" ");
    }
    let ghost words = list.deep_view();
    let mut s = String::new();
    let mut i: usize = 0;
    while i < list.len()
        invariant
            i <= list.len(),
            words == list.deep_view(),
            s@ == joined(words.take(i as int), seq![' ']),
        decreases list.len() - i,
    {
        proof {
            reveal_strlit(" ");
        }
        assert(words.take(i + 1).drop_last() =~= words.take(i as int));
        assert(words[i as int] == list@[i as int]@);
        if i > 0 {
            s.append(" ");
        }
        s.append(list[i].as_str());
        i = i + 1;
        assert(s@ =~= joined(words.take(i as int), seq![' ']));
    }
    assert(words.take(i as int) =~= words);
    s
}

} // verus!

verus! {

/// Whether `a` and `b` are the same text.
pub fn equals_str(a: &str, b: &str) -> (r: bool)
    ensures
        r == (a@ == b@),
{
    let av = chars_of(a);
    let bv = chars_of(b);
    if av.len() != bv.len() {
        return false;
    }
    let mut i: usize = 0;
    while i < av.len()
        invariant
            av@ == a@,
            bv@ == b@,
            av.len() == bv.len(),
            i <= av.len(),
            forall|k: int| 0 <= k < i ==> av@[k] == bv@[k],
        decreases av.len() - i,
    {
        if av[i] != bv[i] {
            return false;
        }
        i = i + 1;
    }
    assert(av@ =~= bv@);
    true
}

} // verus!

verus! {

/// The number that a run of decimal digit characters spells.
pub open spec fn numeral_value(s: Seq<char>) -> int
    decreases s.len(),
{
    if s.len() == 0 {
        0
    } else {
        numeral_value(s.drop_last()) * 10 + (s.last() as int - '0' as int)
    }
}

/// Every character of `s` is a decimal digit.
pub open spec fn all_digit_chars(s: Seq<char>) -> bool {
    forall|i: int| 0 <= i < s.len() ==> '0' <= #[trigger] s[i] <= '9'
}

proof fn lemma_digit_char(d: nat)
    requires
        d < 10,
    ensures
        '0' <= digit_char(d) <= '9',
        digit_char(d) as int - '0' as int == d,
{
    assert('0' as int == 48);
    assert('9' as int == 57);
    if d == 0 { assert('0' as int == 48); } else if d == 1 { assert('1' as int == 49); }
    else if d == 2 { assert('2' as int == 50); } else if d == 3 { assert('3' as int == 51); }
    else if d == 4 { assert('4' as int == 52); } else if d == 5 { assert('5' as int == 53); }
    else if d == 6 { assert('6' as int == 54); } else if d == 7 { assert('7' as int == 55); }
    else if d == 8 { assert('8' as int == 56); } else { assert('9' as int == 57); }
}

proof fn lemma_decimal_reads_back(n: nat)
    ensures
        decimal(n).len() > 0,
        all_digit_chars(decimal(n)),
        numeral_value(decimal(n)) == n,
    decreases n,
{
    lemma_digit_char(n % 10);
    if n >= 10 {
        lemma_decimal_reads_back(n / 10);
        let s = decimal(n / 10);
        assert(decimal(n).drop_last() =~= s);
        assert(decimal(n).last() == digit_char(n % 10));
        assert(numeral_value(decimal(n)) == numeral_value(s) * 10 + (digit_char(n % 10) as int - '0' as int));
        assert((n / 10) * 10 + n % 10 == n);
        assert(all_digit_chars(decimal(n))) by {
            assert forall|i: int| 0 <= i < decimal(n).len() implies '0' <= #[trigger] decimal(n)[i] <= '9' by {
                if i < s.len() {
                    assert(decimal(n)[i] == s[i]);
                }
            }
        }
    } else {
        assert(decimal(n).drop_last() =~= Seq::<char>::empty());
        assert(numeral_value(Seq::<char>::empty()) == 0);
        assert(decimal(n).last() == digit_char(n));
        assert(n % 10 == n);
    }
}

/// A channel mention is "<#", the full decimal numeral of the channel id, and ">":
/// the characters between "<#" and ">" are digits that read back as the id.
pub proof fn law_mention_reads_back(id: u64)
    ensures
        channel_mention(id as nat).len() >= 4,
        channel_mention(id as nat)[0] == '<',
        channel_mention(id as nat)[1] == '#',
        channel_mention(id as nat).last() == '>',
        all_digit_chars(channel_mention(id as nat).subrange(2, channel_mention(id as nat).len() - 1)),
        numeral_value(channel_mention(id as nat).subrange(2, channel_mention(id as nat).len() - 1)) == id,
{
    lemma_decimal_reads_back(id as nat);
    let m = channel_mention(id as nat);
    assert(m.subrange(2, m.len() - 1) =~= decimal(id as nat));
}

} // verus!

verus! {

/// The pieces of `s` between its spaces, as `str::split(' ')` gives them: one piece
/// more than there are spaces.
pub open spec fn split_spaces(s: Seq<char>) -> Seq<Seq<char>>
    decreases s.len(),
{
    if s.len() == 0 {
        seq![Seq::<char>::empty()]
    } else {
        let rest = split_spaces(s.drop_last());
        if s.last() == ' ' {
            rest.push(Seq::<char>::empty())
        } else {
            rest.update(rest.len() - 1, rest.last().push(s.last()))
        }
    }
}

/// `w` holds no space.
pub open spec fn no_spaces(w: Seq<char>) -> bool {
    forall|i: int| 0 <= i < w.len() ==> #[trigger] w[i] != ' '
}

proof fn lemma_split_nonempty(s: Seq<char>)
    ensures
        split_spaces(s).len() >= 1,
    decreases s.len(),
{
    if s.len() > 0 {
        lemma_split_nonempty(s.drop_last());
    }
}

proof fn lemma_split_extend(x: Seq<char>, w: Seq<char>)
    requires
        no_spaces(w),
    ensures
        split_spaces(x + w) == split_spaces(x).update(
            split_spaces(x).len() - 1,
            split_spaces(x).last() + w,
        ),
    decreases w.len(),
{
    lemma_split_nonempty(x);
    if w.len() == 0 {
        assert(x + w =~= x);
        assert(split_spaces(x).last() + w =~= split_spaces(x).last());
        assert(split_spaces(x).update(split_spaces(x).len() - 1, split_spaces(x).last()) =~= split_spaces(x));
    } else {
        let w0 = w.drop_last();
        assert(no_spaces(w0)) by {
            assert forall|i: int| 0 <= i < w0.len() implies #[trigger] w0[i] != ' ' by {
                assert(w0[i] == w[i]);
            }
        }
        lemma_split_extend(x, w0);
        assert((x + w).drop_last() =~= x + w0);
        assert((x + w).last() == w.last());
        assert(w.last() != ' ') by {
            assert(w[w.len() - 1] != ' ');
        }
        assert(split_spaces(x).last() + w0 + seq![w.last()] =~= split_spaces(x).last() + w);
        assert((split_spaces(x).last() + w0).push(w.last()) =~= split_spaces(x).last() + w);
        assert(split_spaces(x + w) =~= split_spaces(x).update(
            split_spaces(x).len() - 1,
            split_spaces(x).last() + w,
        ));
    }
}

proof fn lemma_split_after_space(x: Seq<char>, w: Seq<char>)
    requires
        no_spaces(w),
    ensures
        split_spaces(x + seq![' '] + w) == split_spaces(x).push(w),
{
    let xs = x + seq![' '];
    assert(xs.drop_last() =~= x);
    assert(split_spaces(xs) == split_spaces(x).push(Seq::<char>::empty()));
    lemma_split_extend(xs, w);
    assert(Seq::<char>::empty() + w =~= w);
    assert(split_spaces(x).push(Seq::<char>::empty()).update(split_spaces(x).len() as int, w)
        =~= split_spaces(x).push(w));
}

/// Words without spaces, joined by single spaces, split back at the spaces into
/// the same words.
pub proof fn law_split_undoes_join(words: Seq<Seq<char>>)
    requires
        words.len() > 0,
        forall|i: int| 0 <= i < words.len() ==> no_spaces(#[trigger] words[i]),
    ensures
        split_spaces(joined(words, seq![' '])) == words,
    decreases words.len(),
{
    if words.len() == 1 {
        lemma_split_extend(Seq::<char>::empty(), words[0]);
        assert(Seq::<char>::empty() + words[0] =~= words[0]);
        assert(Seq::<Seq<char>>::empty().push(Seq::<char>::empty()) =~= seq![Seq::<char>::empty()]);
        assert(split_spaces(Seq::<char>::empty()) == seq![Seq::<char>::empty()]);
        assert(Seq::<char>::empty() + words[0] =~= words[0]);
        assert(seq![Seq::<char>::empty()].update(0, Seq::<char>::empty() + words[0]) =~= words);
    } else {
        let init = words.drop_last();
        assert forall|i: int| 0 <= i < init.len() implies no_spaces(#[trigger] init[i]) by {
            assert(init[i] == words[i]);
        }
        law_split_undoes_join(init);
        assert(no_spaces(words[words.len() - 1]));
        lemma_split_after_space(joined(init, seq![' ']), words.last());
        assert(init.push(words.last()) =~= words);
    }
}

} // verus!
