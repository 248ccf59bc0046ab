//! Small string helpers whose results are stated over the `Seq<char>`
//! view of `str` and `String`.

use vstd::prelude::*;
use vstd::string::*;

verus! {

/// `a` and `b` hold the same characters.
pub fn str_eq(a: &str, b: &str) -> (r: bool)
    ensures
        r == (a@ == b@),
{
    let n = a.unicode_len();
    if n != b.unicode_len() {
        return false;
    }
    let mut i: usize = 0;
    while i < n
        invariant
            n == a@.len(),
            n == b@.len(),
            i <= n,
            forall|j: int| 0 <= j < i ==> a@[j] == b@[j],
        decreases n - i,
    {
        if a.get_char(i) != b.get_char(i) {
            return false;
        }
        i = i + 1;
    }
    assert(a@ =~= b@);
    true
}

/// The characters of `s`.
pub fn chars_of(s: &str) -> (r: Vec<char>)
    ensures
        r@ == s@,
{
    broadcast use vstd::string::group_string_axioms;
    let mut v: Vec<char> = Vec::new();
    for c in it: s.chars()
        invariant
            v@ == it.seq().take(it.index() as int),
    {
        v.push(c);
    }
    v
}

/// `char::from_u32`: the character with code point `v`. Its documentation
/// gives `Some` exactly for Unicode scalar values (at most 0x10FFFF and not
/// a surrogate), holding that code point, and `None` otherwise.
#[verifier::external_body]
pub(crate) fn char_from_u32(v: u32) -> (r: Option<char>)
    ensures
        r is Some <==> (v <= 0x10FFFF && !(0xD800 <= v <= 0xDFFF)),
        r matches Some(c) ==> c as u32 == v,
{
    char::from_u32(v)
}

/// Slice indexing by a range, `&v[from..to]`: within bounds (which the
/// `requires` asks for; it panics otherwise) it gives the elements from
/// `from` up to, not including, `to`.
#[verifier::external_body]
pub(crate) fn slice_range<T>(v: &Vec<T>, from: usize, to: usize) -> (r: &[T])
    requires
        from <= to <= v@.len(),
    ensures
        r@ == v@.subrange(from as int, to as int),
{
    &v[from..to]
}

/// A string holding the characters `v`.
pub fn string_of(v: &[char]) -> (r: String)
    ensures
        r@ == v@,
{
    let mut s = String::new();
    let mut i: usize = 0;
    while i < v.len()
        invariant
            i <= v@.len(),
            s@ == v@.take(i as int),
        decreases v@.len() - i,
    {
        push_char(&mut s, v[i]);
        proof {
            assert(v@.take(i as int + 1) =~= v@.take(i as int).push(v@[i as int]));
        }
        i = i + 1;
    }
    proof {
        assert(v@.take(v@.len() as int) =~= v@);
    }
    s
}

/// The pieces `ps` joined with `sep` between them.
pub open spec fn join_spec(ps: Seq<Seq<char>>, sep: char) -> Seq<char>
    decreases ps.len(),
{
    if ps.len() == 0 {
        Seq::<char>::empty()
    } else if ps.len() == 1 {
        ps[0]
    } else {
        join_spec(ps.drop_last(), sep).push(sep) + ps.last()
    }
}

/// The strings `v` joined with `sep` between them.
pub fn join_strings(v: &Vec<String>, sep: char) -> (r: String)
    ensures
        r@ == join_spec(views(v@), sep),
{
    let mut s = String::new();
    let mut i: usize = 0;
    while i < v.len()
        invariant
            i <= v@.len(),
            s@ == join_spec(views(v@).take(i as int), sep),
        decreases v@.len() - i,
    {
        proof {
            let t = views(v@).take(i as int + 1);
            assert(t.drop_last() =~= views(v@).take(i as int));
            assert(t.last() == v@[i as int]@);
        }
        if i > 0 {
            push_char(&mut s, sep);
        }
        s.append(v[i].as_str());
        proof {
            if i == 0 {
                assert(s@ =~= views(v@).take(1)[0]);
            }
        }
        i = i + 1;
    }
    proof {
        assert(views(v@).take(i as int) =~= views(v@));
    }
    s
}

/// Whether `s` holds the character `c`.
pub open spec fn has_char(s: Seq<char>, c: char) -> bool {
    exists|i: int| 0 <= i < s.len() && s[i] == c
}

/// The character of the decimal digit `d`.
pub open spec fn digit_char(d: nat) -> char {
    ((d + 48) as u8) as char
}

/// The decimal form of `n`.
pub open spec fn dec(n: nat) -> Seq<char>
    decreases n,
{
    if n < 10 {
        seq![digit_char(n)]
    } else {
        dec(n / 10).push(digit_char(n % 10))
    }
}

/// The decimal form of `v`, with `-` before a negative number.
pub open spec fn signed_dec(v: int) -> Seq<char> {
    if v < 0 {
        seq!['-'] + dec((-v) as nat)
    } else {
        dec(v as nat)
    }
}

/// Appends the decimal form of `n`.
pub fn push_dec(s: &mut String, n: u64)
    ensures
        final(s)@ == old(s)@ + dec(n as nat),
    decreases n,
{
    if n >= 10 {
        push_dec(s, n / 10);
    }
    let d = (n % 10) as u8;
    push_char(s, (d + 48u8) as char);
    proof {
        if n >= 10 {
            assert(old(s)@ + dec((n / 10) as nat) + seq![digit_char((n % 10) as nat)] =~= old(s)@ + dec(n as nat));
        } else {
            assert(old(s)@ + seq![digit_char(n as nat)] =~= old(s)@ + dec(n as nat));
        }
    }
}

/// Appends the decimal form of `v`, with `-` before a negative number.
pub fn push_signed_dec(s: &mut String, v: i64)
    ensures
        final(s)@ == old(s)@ + signed_dec(v as int),
{
    if v < 0 {
        push_char(s, '-');
        let m = (0i128 - (v as i128)) as u64;
        push_dec(s, m);
        proof {
            assert(old(s)@.push('-') + dec((-v) as nat) =~= old(s)@ + (seq!['-'] + dec((-v) as nat)));
        }
    } else {
        push_dec(s, v as u64);
    }
}

/// `String::push`: appends the character `c` at the end of the string.
#[verifier::external_body]
pub(crate) fn push_char(s: &mut String, c: char)
    ensures
        final(s)@ == old(s)@.push(c),
{
    s.push(c)
}

/// The pieces of `s` between occurrences of `c`, as `str::split` gives
/// them: one more piece than there are occurrences.
pub open spec fn split_spec(s: Seq<char>, c: char) -> Seq<Seq<char>>
    decreases s.len(),
{
    if s.len() == 0 {
        seq![Seq::<char>::empty()]
    } else {
        let rest = split_spec(s.drop_last(), c);
        if s.last() == c {
            rest.push(Seq::<char>::empty())
        } else {
            rest.update(rest.len() - 1, rest.last().push(s.last()))
        }
    }
}

/// A split never yields an empty list of pieces.
pub proof fn lemma_split_nonempty(s: Seq<char>, c: char)
    ensures
        split_spec(s, c).len() >= 1,
    decreases s.len(),
{
    if s.len() > 0 {
        lemma_split_nonempty(s.drop_last(), c);
    }
}

/// The views of a list of strings.
pub open spec fn views(v: Seq<String>) -> Seq<Seq<char>> {
    v.map_values(|x: String| x@)
}

/// Splits `s` at every occurrence of `c`.
pub fn split_chars(s: &str, c: char) -> (r: Vec<String>)
    ensures
        views(r@) == split_spec(s@, c),
{
    let n = s.unicode_len();
    let mut parts: Vec<String> = Vec::new();
    let mut cur = String::new();
    let mut i: usize = 0;
    proof {
        assert(s@.take(0) =~= Seq::<char>::empty());
        assert(views(parts@).push(cur@) =~= split_spec(s@.take(0), c));
    }
    while i < n
        invariant
            n == s@.len(),
            i <= n,
            views(parts@).push(cur@) == split_spec(s@.take(i as int), c),
        decreases n - i,
    {
        let ch = s.get_char(i);
        let ghost prev = s@.take(i as int);
        proof {
            assert(s@.take(i as int + 1).drop_last() =~= prev);
            assert(s@.take(i as int + 1).last() == ch);
            lemma_split_nonempty(prev, c);
        }
        if ch == c {
            let ghost oldp = parts@;
            let ghost oldc = cur@;
            parts.push(cur);
            cur = String::new();
            proof {
                assert(views(parts@) =~= views(oldp).push(oldc));
                assert(views(parts@).push(cur@) =~= split_spec(s@.take(i as int + 1), c));
            }
        } else {
            let ghost oldc = cur@;
            push_char(&mut cur, ch);
            proof {
                let sp = split_spec(prev, c);
                assert(views(parts@).push(cur@) =~= sp.update(sp.len() - 1, sp.last().push(ch)));
            }
        }
        i = i + 1;
    }
    proof {
        assert(s@.take(n as int) =~= s@);
    }
    let ghost oldp = parts@;
    parts.push(cur);
    proof {
        assert(views(parts@) =~= views(oldp).push(cur@));
    }
    parts
}

/// The part of `s` before the first occurrence of `c`, or all of `s`.
pub fn before_first(s: &str, c: char) -> (r: String)
    ensures
        r@ == split_spec(s@, c)[0],
{
    let mut parts = split_chars(s, c);
    proof {
        lemma_split_nonempty(s@, c);
    }
    parts.swap_remove(0)
}

} // verus!

verus! {

proof fn lemma_join_push_last(ps: Seq<Seq<char>>, sep: char, x: char)
    requires
        ps.len() >= 1,
    ensures
        join_spec(ps.update(ps.len() - 1, ps.last().push(x)), sep) == join_spec(ps, sep).push(x),
{
    let qs = ps.update(ps.len() - 1, ps.last().push(x));
    if ps.len() > 1 {
        assert(qs.drop_last() =~= ps.drop_last());
        assert(join_spec(ps.drop_last(), sep).push(sep) + ps.last().push(x) =~= (join_spec(ps.drop_last(), sep).push(
            sep,
        ) + ps.last()).push(x));
    }
}

/// Joining the pieces of a split with the same character gives back the
/// text: splitting loses nothing.
pub proof fn lemma_join_split(s: Seq<char>, c: char)
    ensures
        join_spec(split_spec(s, c), c) == s,
    decreases s.len(),
{
    if s.len() > 0 {
        lemma_join_split(s.drop_last(), c);
        lemma_split_nonempty(s.drop_last(), c);
        let rest = split_spec(s.drop_last(), c);
        if s.last() == c {
            let ps = rest.push(Seq::<char>::empty());
            assert(ps.drop_last() =~= rest);
            assert(join_spec(rest, c).push(c) + Seq::<char>::empty() =~= s);
        } else {
            lemma_join_push_last(rest, c, s.last());
            assert(s.drop_last().push(s.last()) =~= s);
        }
    } else {
        assert(split_spec(s, c) =~= seq![Seq::<char>::empty()]);
    }
}

} // verus!

verus! {

/// Splitting `s` followed by text without `c` extends the last piece.
proof fn lemma_split_append(s: Seq<char>, t: Seq<char>, c: char)
    requires
        !has_char(t, c),
    ensures
        split_spec(s + t, c) == split_spec(s, c).update(
            split_spec(s, c).len() - 1,
            split_spec(s, c).last() + t,
        ),
    decreases t.len(),
{
    lemma_split_nonempty(s, c);
    if t.len() == 0 {
        assert(s + t =~= s);
        let r = split_spec(s, c);
        assert(r.update(r.len() - 1, r.last() + t) =~= r);
    } else {
        let t1 = t.drop_last();
        assert(!has_char(t1, c)) by {
            if has_char(t1, c) {
                let i = choose|i: int| 0 <= i < t1.len() && t1[i] == c;
                assert(t[i] == c);
            }
        }
        assert(t.last() != c) by {
            assert(t[t.len() - 1] == t.last());
        }
        lemma_split_append(s, t1, c);
        assert((s + t).drop_last() =~= s + t1);
        assert((s + t).last() == t.last());
        lemma_split_nonempty(s + t1, c);
        let r = split_spec(s, c);
        assert(t1.push(t.last()) =~= t);
        assert((r.last() + t1).push(t.last()) =~= r.last() + t);
        assert(r.update(r.len() - 1, r.last() + t1).update(r.len() - 1, (r.last() + t1).push(t.last())) =~= r.update(
            r.len() - 1,
            r.last() + t,
        ));
    }
}

/// Splitting a join of pieces without `c` at `c` gives the pieces back.
pub proof fn lemma_split_join(ps: Seq<Seq<char>>, c: char)
    requires
        ps.len() >= 1,
        forall|i: int| 0 <= i < ps.len() ==> !has_char(#[trigger] ps[i], c),
    ensures
        split_spec(join_spec(ps, c), c) == ps,
    decreases ps.len(),
{
    if ps.len() == 1 {
        lemma_split_append(Seq::empty(), ps[0], c);
        assert(Seq::<char>::empty() + ps[0] =~= ps[0]);
        assert(split_spec(Seq::<char>::empty(), c).update(0, Seq::<char>::empty() + ps[0]) =~= ps);
    } else {
        let init = ps.drop_last();
        assert forall|i: int| 0 <= i < init.len() implies !has_char(#[trigger] init[i], c) by {
            assert(init[i] == ps[i]);
        }
        lemma_split_join(init, c);
        let j = join_spec(init, c);
        assert(j.push(c).drop_last() =~= j);
        lemma_split_nonempty(j, c);
        assert(!has_char(ps.last(), c)) by {
            assert(ps[ps.len() - 1] == ps.last());
        }
        lemma_split_append(j.push(c), ps.last(), c);
        let r = split_spec(j.push(c), c);
        assert(r == init.push(Seq::<char>::empty()));
        assert(r.update(r.len() - 1, r.last() + ps.last()) =~= ps);
    }
}

} // verus!

verus! {

/// A character is in a concatenation exactly when it is in one of the two
/// parts.
pub proof fn lemma_has_char_concat(a: Seq<char>, b: Seq<char>, c: char)
    ensures
        has_char(a + b, c) <==> (has_char(a, c) || has_char(b, c)),
{
    if has_char(a + b, c) {
        let i = choose|i: int| 0 <= i < (a + b).len() && (a + b)[i] == c;
        if i < a.len() {
            assert(a[i] == c);
        } else {
            assert(b[i - a.len()] == c);
        }
    }
    if has_char(a, c) {
        let i = choose|i: int| 0 <= i < a.len() && a[i] == c;
        assert((a + b)[i] == c);
    }
    if has_char(b, c) {
        let i = choose|i: int| 0 <= i < b.len() && b[i] == c;
        assert((a + b)[a.len() + i] == c);
    }
}

/// Joining pieces without `c` by a separator other than `c` gives a text
/// without `c`.
pub proof fn lemma_join_no_char(ps: Seq<Seq<char>>, sep: char, c: char)
    requires
        sep != c,
        forall|i: int| 0 <= i < ps.len() ==> !has_char(#[trigger] ps[i], c),
    ensures
        !has_char(join_spec(ps, sep), c),
    decreases ps.len(),
{
    if ps.len() == 1 {
        assert(!has_char(ps[0], c));
    } else if ps.len() > 1 {
        let init = ps.drop_last();
        assert forall|i: int| 0 <= i < init.len() implies !has_char(#[trigger] init[i], c) by {
            assert(init[i] == ps[i]);
        }
        lemma_join_no_char(init, sep, c);
        let j = join_spec(init, sep);
        lemma_has_char_concat(j, seq![sep], c);
        assert(j.push(sep) =~= j + seq![sep]);
        assert(!has_char(seq![sep], c)) by {
            if has_char(seq![sep], c) {
                let i = choose|i: int| 0 <= i < 1 && seq![sep][i] == c;
            }
        }
        assert(!has_char(ps.last(), c)) by {
            assert(ps[ps.len() - 1] == ps.last());
        }
        lemma_has_char_concat(j.push(sep), ps.last(), c);
    }
}

} // verus!
