//! Character-level text helpers shared by the migration planner: whitespace
//! collapsing for log lines, separator joins, decimal rendering of ids and
//! substring search.
use vstd::prelude::*;

verus! {

/// `String::push` appends one character.
pub assume_specification[ String::push ](s: &mut String, ch: char)
    ensures
        final(s)@ == old(s)@.push(ch),
;

/// The Unicode `White_Space` property, which is what `char::is_whitespace`
/// and `str::split_whitespace` test.
pub open spec fn is_ws(c: char) -> bool {
    let u = c as u32;
    ||| (0x09 <= u && u <= 0x0d)
    ||| u == 0x20
    ||| u == 0x85
    ||| u == 0xa0
    ||| u == 0x1680
    ||| (0x2000 <= u && u <= 0x200a)
    ||| u == 0x2028
    ||| u == 0x2029
    ||| u == 0x202f
    ||| u == 0x205f
    ||| u == 0x3000
}

/// The maximal runs of non-whitespace characters of `s`, left to right
/// (what `str::split_whitespace` yields).
pub open spec fn words(s: Seq<char>) -> Seq<Seq<char>>
    decreases s.len(),
{
    if s.len() == 0 {
        Seq::empty()
    } else {
        let p = s.drop_last();
        let c = s.last();
        let w = words(p);
        if is_ws(c) {
            w
        } else if p.len() > 0 && !is_ws(p.last()) {
            w.update(w.len() - 1, w.last().push(c))
        } else {
            w.push(seq![c])
        }
    }
}

/// `parts` joined with `sep` between consecutive parts (`[T]::join`).
pub open spec fn join_with(parts: Seq<Seq<char>>, sep: Seq<char>) -> Seq<char>
    decreases parts.len(),
{
    if parts.len() == 0 {
        Seq::empty()
    } else if parts.len() == 1 {
        parts[0]
    } else {
        join_with(parts.drop_last(), sep) + sep + parts.last()
    }
}

/// `s` holds at least one character and no whitespace character.
pub open spec fn is_word(s: Seq<char>) -> bool {
    s.len() > 0 && forall|k: int| 0 <= k < s.len() ==> !#[trigger] is_ws(s[k])
}

/// The whitespace-collapsed form of `s`: its words joined by single spaces.
pub open spec fn collapsed(s: Seq<char>) -> Seq<char> {
    join_with(words(s), seq![' '])
}

/// `t` occurs in `s` as a contiguous run of characters.
pub open spec fn contains_seq(s: Seq<char>, t: Seq<char>) -> bool {
    exists|i: int| 0 <= i && i + t.len() <= s.len() && #[trigger] s.subrange(i, i + t.len()) == t
}

/// The ASCII digit for `d < 10`.
pub open spec fn digit_char(d: nat) -> char {
    ((48 + d) as u8) as char
}

/// Decimal digits of `n`, most significant first, without leading zeros.
pub open spec fn nat_digits(n: nat) -> Seq<char>
    decreases n,
{
    if n < 10 {
        seq![digit_char(n)]
    } else {
        nat_digits(n / 10).push(digit_char(n % 10))
    }
}

/// The decimal rendering of `n`, with a leading `-` for negative values
/// (what `i64::to_string` produces).
pub open spec fn int_decimal(n: int) -> Seq<char> {
    if n < 0 {
        seq!['-'] + nat_digits((-n) as nat)
    } else {
        nat_digits(n as nat)
    }
}

/// Exec test of [`is_ws`].
pub fn is_whitespace_char(c: char) -> (b: bool)
    ensures
        b == is_ws(c),
{
    let u = c as u32;
    (0x09 <= u && u <= 0x0d) || u == 0x20 || u == 0x85 || u == 0xa0 || u == 0x1680 || (0x2000
        <= u && u <= 0x200a) || u == 0x2028 || u == 0x2029 || u == 0x202f || u == 0x205f || u
        == 0x3000
}

proof fn lemma_words_nonempty_after_word_char(s: Seq<char>)
    requires
        s.len() > 0,
        !is_ws(s.last()),
    ensures
        words(s).len() > 0,
    decreases s.len(),
{
    let p = s.drop_last();
    if p.len() > 0 && !is_ws(p.last()) {
        lemma_words_nonempty_after_word_char(p);
    }
}

proof fn lemma_join_extend_last(parts: Seq<Seq<char>>, sep: Seq<char>, c: char)
    requires
        parts.len() > 0,
    ensures
        join_with(parts.update(parts.len() - 1, parts.last().push(c)), sep) == join_with(
            parts,
            sep,
        ).push(c),
{
    let q = parts.update(parts.len() - 1, parts.last().push(c));
    if parts.len() == 1 {
        assert(q[0] == parts[0].push(c));
    } else {
        assert(q.drop_last() =~= parts.drop_last());
        assert(q.last() == parts.last().push(c));
        assert(join_with(q, sep) =~= join_with(parts, sep).push(c));
    }
}

proof fn lemma_join_push(parts: Seq<Seq<char>>, sep: Seq<char>, w: Seq<char>)
    ensures
        join_with(parts.push(w), sep) == if parts.len() == 0 {
            w
        } else {
            join_with(parts, sep) + sep + w
        },
{
    let q = parts.push(w);
    assert(q.drop_last() =~= parts);
    if parts.len() == 0 {
        assert(q[0] == w);
    }
}

/// Collapses every run of whitespace in `s` to a single space and drops
/// leading and trailing whitespace, so a multi-line DDL statement reads as
/// one log line.
pub fn one_line(s: &str) -> (r: String)
    ensures
        r@ == collapsed(s@),
{
    let mut out = String::new();
    let mut in_word = false;
    let mut any_word = false;
    for ch in it: s.chars()
        invariant
            it.seq() == s@,
            out@ == join_with(words(s@.take(it.index() as int)), seq![' ']),
            in_word == (it.index() > 0 && !is_ws(s@[it.index() - 1])),
            any_word == (words(s@.take(it.index() as int)).len() > 0),
    {
        let ghost i = it.index() as int;
        let ghost p = s@.take(i);
        let ghost q = s@.take(i + 1);
        proof {
            assert(q.drop_last() =~= p);
            assert(q.last() == ch);
            if i > 0 {
                assert(p.last() == s@[i - 1]);
            }
        }
        if is_whitespace_char(ch) {
            in_word = false;
        } else if in_word {
            proof {
                lemma_words_nonempty_after_word_char(p);
                lemma_join_extend_last(words(p), seq![' '], ch);
            }
            out.push(ch);
        } else {
            proof {
                lemma_join_push(words(p), seq![' '], seq![ch]);
            }
            if any_word {
                out.push(' ');
            }
            out.push(ch);
            proof {
                if any_word {
                    assert(out@ =~= join_with(words(p), seq![' ']) + seq![' '] + seq![ch]);
                } else {
                    assert(out@ =~= seq![ch]);
                }
            }
            in_word = true;
            any_word = true;
        }
    }
    proof {
        assert(s@.take(s@.len() as int) =~= s@);
    }
    out
}


/// `r` is in collapsed form: every whitespace character in it is a plain
/// space, it neither starts nor ends with a space, and no two spaces are
/// adjacent.
pub open spec fn is_collapsed(r: Seq<char>) -> bool {
    &&& forall|k: int| 0 <= k < r.len() ==> #[trigger] r[k] == ' ' || !is_ws(r[k])
    &&& r.len() > 0 ==> r[0] != ' ' && r.last() != ' '
    &&& forall|k: int| 0 <= k < r.len() - 1 && #[trigger] r[k] == ' ' ==> r[k + 1] != ' '
}

proof fn lemma_words_are_words(s: Seq<char>)
    ensures
        forall|i: int| 0 <= i < words(s).len() ==> is_word(#[trigger] words(s)[i]),
    decreases s.len(),
{
    if s.len() > 0 {
        let p = s.drop_last();
        let c = s.last();
        lemma_words_are_words(p);
        let w = words(p);
        if !is_ws(c) && p.len() > 0 && !is_ws(p.last()) {
            lemma_words_nonempty_after_word_char(p);
            let nw = w.last().push(c);
            assert(is_word(w[w.len() - 1]));
            assert forall|k: int| 0 <= k < nw.len() implies !#[trigger] is_ws(nw[k]) by {
                if k < nw.len() - 1 {
                    assert(nw[k] == w[w.len() - 1][k]);
                }
            }
            assert forall|i: int| 0 <= i < words(s).len() implies is_word(#[trigger] words(s)[i]) by {
                if i < w.len() - 1 {
                    assert(words(s)[i] == w[i]);
                } else {
                    assert(words(s)[i] == nw);
                }
            }
        } else if !is_ws(c) {
            assert forall|i: int| 0 <= i < words(s).len() implies is_word(#[trigger] words(s)[i]) by {
                if i < w.len() {
                    assert(words(s)[i] == w[i]);
                } else {
                    assert(words(s)[i] == seq![c]);
                }
            }
        }
    }
}

proof fn lemma_words_of_word(l: Seq<char>)
    requires
        is_word(l),
    ensures
        words(l) == seq![l],
    decreases l.len(),
{
    let p = l.drop_last();
    assert(!is_ws(l[l.len() - 1]));
    if p.len() == 0 {
        assert(words(p) =~= Seq::<Seq<char>>::empty());
        assert(l =~= seq![l.last()]);
        assert(words(l) =~= seq![l]);
    } else {
        assert forall|k: int| 0 <= k < p.len() implies !#[trigger] is_ws(p[k]) by {
            assert(p[k] == l[k]);
        }
        lemma_words_of_word(p);
        assert(!is_ws(l[p.len() - 1]));
        assert(p.push(l.last()) =~= l);
        assert(words(l) =~= seq![l]);
    }
}

proof fn lemma_words_space_word(x: Seq<char>, l: Seq<char>)
    requires
        is_word(l),
    ensures
        words(x + seq![' '] + l) == words(x).push(l),
    decreases l.len(),
{
    let s = x + seq![' '] + l;
    let p = s.drop_last();
    assert(s.last() == l.last());
    assert(!is_ws(l[l.len() - 1]));
    if l.len() == 1 {
        assert(p =~= x + seq![' ']);
        assert((x + seq![' ']).drop_last() =~= x);
        assert(is_ws(' '));
        assert(words(x + seq![' ']) == words(x));
        assert(l =~= seq![l.last()]);
        assert(words(s) =~= words(x).push(l));
    } else {
        let l2 = l.drop_last();
        assert forall|k: int| 0 <= k < l2.len() implies !#[trigger] is_ws(l2[k]) by {
            assert(l2[k] == l[k]);
        }
        lemma_words_space_word(x, l2);
        assert(p =~= x + seq![' '] + l2);
        assert(p.last() == l[l.len() - 2]);
        assert(!is_ws(l[l.len() - 2]));
        assert(l2.push(l.last()) =~= l);
        assert(words(s) =~= words(x).push(l));
    }
}

proof fn lemma_words_of_join(parts: Seq<Seq<char>>)
    requires
        forall|i: int| 0 <= i < parts.len() ==> is_word(#[trigger] parts[i]),
    ensures
        words(join_with(parts, seq![' '])) == parts,
    decreases parts.len(),
{
    if parts.len() == 0 {
        assert(words(Seq::<char>::empty()) =~= parts);
    } else if parts.len() == 1 {
        lemma_words_of_word(parts[0]);
        assert(seq![parts[0]] =~= parts);
    } else {
        let init = parts.drop_last();
        assert forall|i: int| 0 <= i < init.len() implies is_word(#[trigger] init[i]) by {
            assert(init[i] == parts[i]);
        }
        lemma_words_of_join(init);
        assert(is_word(parts[parts.len() - 1]));
        lemma_words_space_word(join_with(init, seq![' ']), parts.last());
        assert(init.push(parts.last()) =~= parts);
    }
}

proof fn lemma_join_of_words_is_collapsed(parts: Seq<Seq<char>>)
    requires
        forall|i: int| 0 <= i < parts.len() ==> is_word(#[trigger] parts[i]),
    ensures
        is_collapsed(join_with(parts, seq![' '])),
        parts.len() > 0 ==> join_with(parts, seq![' ']).len() > 0,
    decreases parts.len(),
{
    let r = join_with(parts, seq![' ']);
    if parts.len() == 1 {
        let w = parts[0];
        assert(is_word(w));
        assert(!is_ws(w[0]) && !is_ws(w[w.len() - 1]));
        assert(is_ws(' '));
    } else if parts.len() > 1 {
        let init = parts.drop_last();
        assert forall|i: int| 0 <= i < init.len() implies is_word(#[trigger] init[i]) by {
            assert(init[i] == parts[i]);
        }
        lemma_join_of_words_is_collapsed(init);
        let j = join_with(init, seq![' ']);
        let w = parts.last();
        assert(is_word(parts[parts.len() - 1]));
        assert(r == j + seq![' '] + w);
        assert(is_ws(' '));
        assert forall|k: int| 0 <= k < r.len() implies #[trigger] r[k] == ' ' || !is_ws(r[k]) by {
            if k < j.len() {
                assert(r[k] == j[k]);
            } else if k > j.len() {
                assert(r[k] == w[k - j.len() - 1]);
            }
        }
        assert(r[0] == j[0]);
        assert(r.last() == w[w.len() - 1]);
        assert forall|k: int| 0 <= k < r.len() - 1 && #[trigger] r[k] == ' ' implies r[k + 1] != ' ' by {
            if k < j.len() - 1 {
                assert(r[k] == j[k]);
                assert(r[k + 1] == j[k + 1]);
            } else if k == j.len() - 1 {
                assert(r[k] == j.last());
            } else if k == j.len() {
                assert(r[k + 1] == w[0]);
            } else {
                assert(r[k] == w[k - j.len() - 1]);
            }
        }
    }
}

/// `one_line` leaves a single line: its only whitespace is single spaces
/// between words, with none at either end.
pub proof fn one_line_is_single_spaced(s: Seq<char>)
    ensures
        is_collapsed(collapsed(s)),
{
    lemma_words_are_words(s);
    lemma_join_of_words_is_collapsed(words(s));
}

/// `one_line` keeps the words of the statement, in order.
pub proof fn one_line_keeps_words(s: Seq<char>)
    ensures
        words(collapsed(s)) == words(s),
{
    lemma_words_are_words(s);
    lemma_words_of_join(words(s));
}

/// Collapsing an already collapsed line changes nothing.
pub proof fn one_line_idempotent(s: Seq<char>)
    ensures
        collapsed(collapsed(s)) == collapsed(s),
{
    one_line_keeps_words(s);
}


/// Collapsing never lengthens a line.
pub proof fn one_line_never_lengthens(s: Seq<char>)
    ensures
        collapsed(s).len() <= s.len(),
    decreases s.len(),
{
    if s.len() > 0 {
        let p = s.drop_last();
        let c = s.last();
        one_line_never_lengthens(p);
        if is_ws(c) {
        } else if p.len() > 0 && !is_ws(p.last()) {
            lemma_words_nonempty_after_word_char(p);
            lemma_join_extend_last(words(p), seq![' '], c);
        } else {
            lemma_join_push(words(p), seq![' '], seq![c]);
            if p.len() > 0 {
                one_line_never_lengthens(p.drop_last());
                assert(words(p) == words(p.drop_last()));
            }
        }
    }
}

/// The characters of `s`, in order.
pub fn chars_of(s: &str) -> (v: Vec<char>)
    ensures
        v@ == s@,
{
    let mut v: Vec<char> = Vec::new();
    for ch in it: s.chars()
        invariant
            it.seq() == s@,
            v@ == s@.take(it.index() as int),
    {
        proof {
            assert(s@.take(it.index() + 1) =~= s@.take(it.index() as int).push(ch));
        }
        v.push(ch);
    }
    assert(s@.take(s@.len() as int) =~= s@);
    v
}

/// Appends the characters of `t` to `out`.
pub fn push_all(out: &mut String, t: &str)
    ensures
        final(out)@ == old(out)@ + t@,
{
    for ch in it: t.chars()
        invariant
            it.seq() == t@,
            out@ == old(out)@ + t@.take(it.index() as int),
    {
        proof {
            assert(t@.take(it.index() + 1) =~= t@.take(it.index() as int).push(ch));
        }
        out.push(ch);
    }
    assert(t@.take(t@.len() as int) =~= t@);
}

/// `t` occurs in `s` (`str::contains` for a string pattern).
pub fn contains_str(s: &str, t: &str) -> (b: bool)
    ensures
        b == contains_seq(s@, t@),
{
    let sv = chars_of(s);
    let tv = chars_of(t);
    let n = sv.len();
    let m = tv.len();
    if m > n {
        assert forall|i: int| 0 <= i && i + t@.len() <= s@.len() implies #[trigger] s@.subrange(
            i,
            i + t@.len(),
        ) != t@ by {}
        return false;
    }
    if m == 0 {
        assert(s@.subrange(0int, 0int + t@.len()) =~= t@);
        return true;
    }
    let mut i: usize = 0;
    while (i as u128) + (m as u128) <= (n as u128)
        invariant
            sv@ == s@,
            tv@ == t@,
            n == s@.len(),
            m == t@.len(),
            1 <= m <= n,
            i <= n - m + 1,
            forall|a: int| 0 <= a < i ==> #[trigger] s@.subrange(a, a + t@.len()) != t@,
        decreases n - m + 1 - i,
    {
        let mut j: usize = 0;
        let mut ok = true;
        while ok && j < m
            invariant
                sv@ == s@,
                tv@ == t@,
                n == s@.len(),
                m == t@.len(),
                i + m <= n,
                j <= m,
                ok ==> forall|k: int| 0 <= k < j ==> s@[i + k] == t@[k],
                !ok ==> s@.subrange(i as int, i + t@.len()) != t@,
            decreases m - j, (if ok { 1int } else { 0int }),
        {
            if sv[i + j] != tv[j] {
                proof {
                    assert(s@.subrange(i as int, i + t@.len())[j as int] == s@[i + j]);
                }
                ok = false;
            } else {
                j += 1;
            }
        }
        if ok {
            assert(s@.subrange(i as int, i + t@.len()) =~= t@);
            return true;
        }
        i += 1;
    }
    assert forall|a: int| 0 <= a && a + t@.len() <= s@.len() implies #[trigger] s@.subrange(
        a,
        a + t@.len(),
    ) != t@ by {
        assert(a < i);
    }
    false
}

/// Appends the decimal digits of `n` to `out`.
pub fn push_unsigned(out: &mut String, n: u64)
    ensures
        final(out)@ == old(out)@ + nat_digits(n as nat),
    decreases n,
{
    if n >= 10 {
        push_unsigned(out, n / 10);
    }
    let d: u8 = (n % 10) as u8;
    let c: char = (48u8 + d) as char;
    out.push(c);
    proof {
        if n >= 10 {
            assert(old(out)@ + nat_digits(n as nat) =~= old(out)@ + nat_digits((n / 10) as nat)
                + seq![digit_char((n % 10) as nat)]);
        } else {
            assert(old(out)@ + nat_digits(n as nat) =~= old(out)@ + seq![digit_char(n as nat)]);
        }
    }
}

/// Appends the decimal rendering of `n` to `out`.
pub fn push_decimal(out: &mut String, n: i64)
    ensures
        final(out)@ == old(out)@ + int_decimal(n as int),
{
    if n < 0 {
        out.push('-');
        let m: u64 = (0i128 - (n as i128)) as u64;
        push_unsigned(out, m);
        assert(old(out)@ + int_decimal(n as int) =~= old(out)@.push('-') + nat_digits(m as nat));
    } else {
        push_unsigned(out, n as u64);
    }
}

/// The decimal rendering of `n` (`i64::to_string`).
pub fn decimal_string(n: i64) -> (r: String)
    ensures
        r@ == int_decimal(n as int),
{
    let mut out = String::new();
    push_decimal(&mut out, n);
    assert(out@ =~= int_decimal(n as int));
    out
}

/// `parts` joined with `sep` (`[String]::join`).
pub fn join_strings(parts: &Vec<String>, sep: &str) -> (r: String)
    ensures
        r@ == join_with(parts@.map_values(|p: String| p@), sep@),
{
    let ghost views = parts@.map_values(|p: String| p@);
    let mut out = String::new();
    let mut i: usize = 0;
    while i < parts.len()
        invariant
            views == parts@.map_values(|p: String| p@),
            i <= parts.len(),
            out@ == join_with(views.take(i as int), sep@),
        decreases parts.len() - i,
    {
        let ghost before = views.take(i as int);
        let ghost after = views.take(i + 1);
        proof {
            assert(after.drop_last() =~= before);
            assert(after.last() == parts@[i as int]@);
        }
        if i > 0 {
            push_all(&mut out, sep);
        }
        push_all(&mut out, parts[i].as_str());
        proof {
            if i == 0 {
                assert(out@ =~= after[0]);
            } else {
                assert(out@ =~= join_with(before, sep@) + sep@ + after.last());
            }
        }
        i += 1;
    }
    assert(views.take(parts.len() as int) =~= views);
    out
}

} // verus!
