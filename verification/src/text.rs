//! Character-level text operations used by the protocol code, each
//! specified over the `Seq<char>` view of the strings involved.
use vstd::prelude::*;

verus! {

// ------------------------------------------------------------------
// specifications
// ------------------------------------------------------------------

/// The code point of `c` after ASCII lower-casing (`A`..=`Z` become `a`..=`z`).
pub open spec fn lower_code(c: char) -> u32 {
    if 65 <= (c as u32) && (c as u32) <= 90 {
        ((c as u32) + 32) as u32
    } else {
        c as u32
    }
}

/// Two strings are equal when ASCII letters are compared without regard to case.
pub open spec fn eq_ignore_ascii_case_spec(a: Seq<char>, b: Seq<char>) -> bool {
    &&& a.len() == b.len()
    &&& forall|i: int| 0 <= i < a.len() ==> #[trigger] lower_code(a[i]) == lower_code(b[i])
}

/// `i` is the position of the first occurrence of `c` in `s`.
pub open spec fn is_first_pos(s: Seq<char>, c: char, i: int) -> bool {
    &&& 0 <= i < s.len()
    &&& s[i] == c
    &&& forall|j: int| 0 <= j < i ==> s[j] != c
}

/// The position of the first occurrence of `c` in `s`, or -1 when there is none.
pub open spec fn first_pos(s: Seq<char>, c: char) -> int {
    if exists|i: int| is_first_pos(s, c, i) {
        choose|i: int| is_first_pos(s, c, i)
    } else {
        -1
    }
}

/// Left-to-right state of splitting `s` at every `c`: the finished pieces
/// and the piece being collected.
pub open spec fn split_state(s: Seq<char>, c: char) -> (Seq<Seq<char>>, Seq<char>)
    decreases s.len(),
{
    if s.len() == 0 {
        (Seq::empty(), Seq::empty())
    } else {
        let prev = split_state(s.drop_last(), c);
        if s.last() == c {
            (prev.0.push(prev.1), Seq::empty())
        } else {
            (prev.0, prev.1.push(s.last()))
        }
    }
}

/// The pieces of `s` between occurrences of `c` (empty pieces included),
/// as `str::split` with a character pattern yields them.
pub open spec fn split_on(s: Seq<char>, c: char) -> Seq<Seq<char>> {
    split_state(s, c).0.push(split_state(s, c).1)
}

/// `s` with every occurrence of `c` removed.
pub open spec fn without_char(s: Seq<char>, c: char) -> Seq<char>
    decreases s.len(),
{
    if s.len() == 0 {
        s
    } else if s.last() == c {
        without_char(s.drop_last(), c)
    } else {
        without_char(s.drop_last(), c).push(s.last())
    }
}

/// `s` with the non-overlapping occurrences of the non-empty pattern `p`,
/// found from left to right, removed (as `str::replace(p, "")` does).
pub open spec fn without_pattern(s: Seq<char>, p: Seq<char>) -> Seq<char>
    decreases s.len(),
{
    if s.len() == 0 || p.len() == 0 {
        s
    } else if p.is_prefix_of(s) {
        without_pattern(s.skip(p.len() as int), p)
    } else {
        seq![s[0]] + without_pattern(s.drop_first(), p)
    }
}

/// The pieces joined with `sep` between consecutive pieces.
pub open spec fn join_with(parts: Seq<Seq<char>>, sep: Seq<char>) -> Seq<char>
    decreases parts.len(),
{
    if parts.len() == 0 {
        Seq::empty()
    } else if parts.len() == 1 {
        parts[0]
    } else {
        join_with(parts.drop_last(), sep) + sep + parts.last()
    }
}

/// The decimal digit character for `d` in 0..=9.
pub open spec fn digit_char(d: nat) -> char {
    ((48 + d) as u32) as char
}

/// Decimal representation of a natural number, without leading zeros.
pub open spec fn decimal_nat(n: nat) -> Seq<char>
    decreases n,
{
    if n < 10 {
        seq![digit_char(n)]
    } else {
        decimal_nat(n / 10).push(digit_char(n % 10))
    }
}

/// Decimal representation of an integer, with a leading `-` when negative.
pub open spec fn decimal_int(n: int) -> Seq<char> {
    if n < 0 {
        seq!['-'] + decimal_nat((-n) as nat)
    } else {
        decimal_nat(n as nat)
    }
}

// ------------------------------------------------------------------
// lemmas
// ------------------------------------------------------------------

/// The first position of a character is unique, so `first_pos` names it.
pub proof fn lemma_first_pos(s: Seq<char>, c: char, i: int)
    requires
        is_first_pos(s, c, i),
    ensures
        first_pos(s, c) == i,
{
    let k = choose|k: int| is_first_pos(s, c, k);
    assert(is_first_pos(s, c, k));
    if k < i {
        assert(s[k] != c);
    } else if i < k {
        assert(s[i] != c);
    }
}

/// When `c` does not occur in `s`, `first_pos` is -1.
pub proof fn lemma_first_pos_none(s: Seq<char>, c: char)
    requires
        forall|j: int| 0 <= j < s.len() ==> s[j] != c,
    ensures
        first_pos(s, c) == -1,
{
}

/// ASCII case-insensitive equality is reflexive, symmetric and transitive.
pub proof fn lemma_eq_ignore_ascii_case_equivalence(a: Seq<char>, b: Seq<char>, c: Seq<char>)
    ensures
        eq_ignore_ascii_case_spec(a, a),
        eq_ignore_ascii_case_spec(a, b) ==> eq_ignore_ascii_case_spec(b, a),
        eq_ignore_ascii_case_spec(a, b) && eq_ignore_ascii_case_spec(b, c)
            ==> eq_ignore_ascii_case_spec(a, c),
{
    if eq_ignore_ascii_case_spec(a, b) && eq_ignore_ascii_case_spec(b, c) {
        assert forall|i: int| 0 <= i < a.len() implies #[trigger] lower_code(a[i]) == lower_code(
            c[i],
        ) by {
            assert(lower_code(a[i]) == lower_code(b[i]));
            assert(lower_code(b[i]) == lower_code(c[i]));
        }
    }
}

/// Appending text without the separator extends the piece being collected.
pub proof fn lemma_split_state_plain_suffix(p: Seq<char>, t: Seq<char>, c: char)
    requires
        forall|j: int| 0 <= j < t.len() ==> t[j] != c,
    ensures
        split_state(p + t, c) == (split_state(p, c).0, split_state(p, c).1 + t),
    decreases t.len(),
{
    if t.len() == 0 {
        assert(p + t =~= p);
        assert(split_state(p, c).1 + t =~= split_state(p, c).1);
    } else {
        let t2 = t.drop_last();
        lemma_split_state_plain_suffix(p, t2, c);
        assert((p + t).drop_last() =~= p + t2);
        assert((p + t).last() == t.last());
        assert(split_state(p, c).1 + t2.push(t.last()) =~= split_state(p, c).1 + t);
        assert(t2.push(t.last()) =~= t);
    }
}

/// Appending the separator finishes the piece being collected.
pub proof fn lemma_split_state_separator(p: Seq<char>, c: char)
    ensures
        split_state(p.push(c), c) == (split_state(p, c).0.push(split_state(p, c).1), Seq::<
            char,
        >::empty()),
{
    assert(p.push(c).drop_last() =~= p);
}

// ------------------------------------------------------------------
// executable operations
// ------------------------------------------------------------------

/// Appends one character to a string (`String::push`).
#[verifier::external_body]
pub(crate) fn push_char(s: &mut String, c: char)
    ensures
        final(s)@ == old(s)@.push(c),
{
    s.push(c);
}

/// The characters of a string slice, in order.
pub fn chars_of(s: &str) -> (v: Vec<char>)
    ensures
        v@ == s@,
{
    let mut v: Vec<char> = Vec::new();
    for c in it: s.chars()
        invariant
            v@ == it.seq().take(it.index() as int),
    {
        v.push(c);
    }
    v
}

/// The string made of the given characters, in order.
pub fn string_from_chars(v: &[char]) -> (s: String)
    ensures
        s@ == v@,
{
    let mut s = String::new();
    let n = v.len();
    for i in 0..n
        invariant
            n == v@.len(),
            s@ == v@.take(i as int),
    {
        push_char(&mut s, v[i]);
        assert(v@.take(i + 1) == v@.take(i as int).push(v@[i as int]));
    }
    assert(v@.take(n as int) == v@);
    s
}

/// The string made of `v[from..to]`.
pub fn string_from_range(v: &Vec<char>, from: usize, to: usize) -> (s: String)
    requires
        from <= to <= v@.len(),
    ensures
        s@ == v@.subrange(from as int, to as int),
{
    let mut s = String::new();
    let mut i = from;
    while i < to
        invariant
            from <= i <= to <= v@.len(),
            s@ == v@.subrange(from as int, i as int),
        decreases to - i,
    {
        push_char(&mut s, v[i]);
        assert(v@.subrange(from as int, i + 1) == v@.subrange(from as int, i as int).push(
            v@[i as int],
        ));
        i = i + 1;
    }
    s
}

/// Compares two characters ignoring ASCII case.
pub fn char_eq_ignore_ascii_case(a: char, b: char) -> (r: bool)
    ensures
        r == (lower_code(a) == lower_code(b)),
{
    let x: u32 = a as u32;
    let y: u32 = b as u32;
    let lx: u32 = if 65 <= x && x <= 90 {
        x + 32
    } else {
        x
    };
    let ly: u32 = if 65 <= y && y <= 90 {
        y + 32
    } else {
        y
    };
    lx == ly
}

/// Checks that two strings are equal ignoring ASCII case (`str::eq_ignore_ascii_case`).
pub fn eq_ignore_ascii_case(a: &str, b: &str) -> (r: bool)
    ensures
        r == eq_ignore_ascii_case_spec(a@, b@),
{
    let va = chars_of(a);
    let vb = chars_of(b);
    if va.len() != vb.len() {
        return false;
    }
    let n = va.len();
    for i in 0..n
        invariant
            n == va@.len(),
            n == vb@.len(),
            va@ == a@,
            vb@ == b@,
            forall|j: int| 0 <= j < i ==> #[trigger] lower_code(va@[j]) == lower_code(vb@[j]),
    {
        if !char_eq_ignore_ascii_case(va[i], vb[i]) {
            return false;
        }
    }
    true
}

/// The position of the first occurrence of `c` in `v` at or after `start`.
pub fn find_char_from(v: &Vec<char>, c: char, start: usize) -> (r: Option<usize>)
    requires
        start <= v@.len(),
    ensures
        match r {
            Some(i) => {
                &&& start <= i < v@.len()
                &&& v@[i as int] == c
                &&& forall|j: int| start <= j < i ==> v@[j] != c
            },
            None => forall|j: int| start <= j < v@.len() ==> v@[j] != c,
        },
{
    let n = v.len();
    let mut i = start;
    while i < n
        invariant
            start <= i <= n,
            n == v@.len(),
            forall|j: int| start <= j < i ==> v@[j] != c,
        decreases n - i,
    {
        if v[i] == c {
            return Some(i);
        }
        i = i + 1;
    }
    None
}

/// The position of the first occurrence of `c` in `v`, if any.
pub fn find_char(v: &Vec<char>, c: char) -> (r: Option<usize>)
    ensures
        match r {
            Some(i) => is_first_pos(v@, c, i as int) && first_pos(v@, c) == i,
            None => first_pos(v@, c) == -1,
        },
{
    let r = find_char_from(v, c, 0);
    proof {
        if let Some(i) = r {
            lemma_first_pos(v@, c, i as int);
        } else {
            lemma_first_pos_none(v@, c);
        }
    }
    r
}

/// `s` without the leading `prefix`, if `s` starts with it (`str::strip_prefix`).
pub fn strip_prefix(s: &str, prefix: &str) -> (r: Option<String>)
    ensures
        match r {
            Some(rest) => prefix@.is_prefix_of(s@) && rest@ == s@.skip(prefix@.len() as int),
            None => !prefix@.is_prefix_of(s@),
        },
{
    let vs = chars_of(s);
    let vp = chars_of(prefix);
    if vp.len() > vs.len() {
        return None;
    }
    let n = vp.len();
    for i in 0..n
        invariant
            n == vp@.len(),
            n <= vs@.len(),
            vs@ == s@,
            vp@ == prefix@,
            forall|j: int| 0 <= j < i ==> vs@[j] == vp@[j],
    {
        if vs[i] != vp[i] {
            assert(vs@.subrange(0, n as int)[i as int] != vp@[i as int]);
            return None;
        }
    }
    assert(vp@ =~= vs@.subrange(0, n as int));
    let rest = string_from_range(&vs, n, vs.len());
    assert(rest@ =~= s@.skip(n as int));
    Some(rest)
}

/// Splits `s` at the first occurrence of `c`: the part before it and the
/// part after it (`str::split_once` with a character pattern).
pub fn split_once_char(s: &str, c: char) -> (r: Option<(String, String)>)
    ensures
        match r {
            Some((before, after)) => {
                let i = first_pos(s@, c);
                &&& 0 <= i
                &&& before@ == s@.take(i)
                &&& after@ == s@.skip(i + 1)
            },
            None => first_pos(s@, c) == -1,
        },
{
    let v = chars_of(s);
    match find_char(&v, c) {
        Some(i) => {
            let vl = v.len();
            assert(i < vl);
            let before = string_from_range(&v, 0, i);
            let after = string_from_range(&v, i + 1, v.len());
            assert(before@ =~= s@.take(i as int));
            assert(after@ =~= s@.skip(i + 1));
            Some((before, after))
        },
        None => None,
    }
}

/// Splits `s` at every occurrence of `c` (`str::split` with a character pattern).
pub fn split_on_char(s: &str, c: char) -> (r: Vec<String>)
    ensures
        r.deep_view() == split_on(s@, c),
{
    let v = chars_of(s);
    let mut done: Vec<String> = Vec::new();
    let mut cur: Vec<char> = Vec::new();
    let n = v.len();
    for i in 0..n
        invariant
            n == v@.len(),
            v@ == s@,
            (done.deep_view(), cur@) == split_state(v@.take(i as int), c),
    {
        let ghost before = v@.take(i as int);
        assert(v@.take(i + 1).drop_last() == before);
        if v[i] == c {
            let piece = string_from_chars(cur.as_slice());
            done.push(piece);
            cur = Vec::new();
            assert(done.deep_view() == split_state(before, c).0.push(split_state(before, c).1));
        } else {
            cur.push(v[i]);
        }
    }
    assert(v@.take(n as int) == v@);
    let last = string_from_chars(cur.as_slice());
    done.push(last);
    done
}

/// `s` with every occurrence of `c` removed (`str::replace(c, "")`).
pub fn remove_char(s: &str, c: char) -> (r: String)
    ensures
        r@ == without_char(s@, c),
{
    let v = chars_of(s);
    let mut out = String::new();
    let n = v.len();
    for i in 0..n
        invariant
            n == v@.len(),
            v@ == s@,
            out@ == without_char(v@.take(i as int), c),
    {
        assert(v@.take(i + 1).drop_last() == v@.take(i as int));
        if v[i] != c {
            push_char(&mut out, v[i]);
        }
    }
    assert(v@.take(n as int) == v@);
    out
}

/// Whether `p` occurs in `v` starting at position `i`.
pub fn matches_at(v: &Vec<char>, i: usize, p: &Vec<char>) -> (r: bool)
    requires
        i <= v@.len(),
    ensures
        r == p@.is_prefix_of(v@.skip(i as int)),
{
    let m = p.len();
    let vl = v.len();
    if m > vl - i {
        return false;
    }
    for k in 0..m
        invariant
            m == p@.len(),
            vl == v@.len(),
            i + m <= v@.len(),
            forall|j: int| 0 <= j < k ==> v@[i + j] == p@[j],
    {
        assert(k < m);
        if v[i + k] != p[k] {
            assert(v@.skip(i as int).subrange(0, m as int)[k as int] != p@[k as int]);
            return false;
        }
    }
    assert(p@ =~= v@.skip(i as int).subrange(0, m as int));
    true
}

/// `s` with the occurrences of the non-empty pattern `p` removed, scanning
/// from left to right (`str::replace(p, "")`).
pub fn remove_pattern(s: &str, p: &str) -> (r: String)
    requires
        p@.len() > 0,
    ensures
        r@ == without_pattern(s@, p@),
{
    let v = chars_of(s);
    let vp = chars_of(p);
    let mut out = String::new();
    let n = v.len();
    let mut i: usize = 0;
    assert(v@.skip(0) == v@);
    while i < n
        invariant
            i <= n,
            n == v@.len(),
            v@ == s@,
            vp@ == p@,
            vp@.len() > 0,
            out@ + without_pattern(v@.skip(i as int), vp@) == without_pattern(v@, vp@),
        decreases n - i,
    {
        let ghost rest = v@.skip(i as int);
        if matches_at(&v, i, &vp) {
            assert(rest.skip(vp@.len() as int) == v@.skip(i + vp@.len()));
            i = i + vp.len();
        } else {
            assert(rest.drop_first() == v@.skip(i + 1));
            assert(rest[0] == v@[i as int]);
            push_char(&mut out, v[i]);
            assert(out@ + without_pattern(v@.skip(i + 1), vp@) == (out@.drop_last() + seq![
                v@[i as int],
            ]) + without_pattern(v@.skip(i + 1), vp@));
            i = i + 1;
        }
    }
    assert(v@.skip(n as int).len() == 0);
    out
}

/// The pieces joined with `sep` between consecutive pieces (`[String]::join`).
pub fn join(parts: &Vec<String>, sep: &str) -> (r: String)
    ensures
        r@ == join_with(parts.deep_view(), sep@),
{
    let mut out = String::new();
    let n = parts.len();
    let ghost dv = parts.deep_view();
    for i in 0..n
        invariant
            n == parts@.len(),
            dv == parts.deep_view(),
            out@ == join_with(dv.take(i as int), sep@),
    {
        assert(dv.take(i + 1).drop_last() == dv.take(i as int));
        assert(dv.take(i + 1).last() == parts@[i as int]@);
        if i != 0 {
            out.append(sep);
        }
        out.append(parts[i].as_str());
    }
    assert(dv.take(n as int) == dv);
    out
}

/// The decimal digit character of `d` (`d < 10`).
pub fn digit(d: u64) -> (c: char)
    requires
        d < 10,
    ensures
        c == digit_char(d as nat),
{
    let code: u8 = (48 + d) as u8;
    code as char
}

/// Decimal representation of a `u64`.
pub fn u64_to_decimal(n: u64) -> (s: String)
    ensures
        s@ == decimal_nat(n as nat),
    decreases n,
{
    if n < 10 {
        let mut s = String::new();
        push_char(&mut s, digit(n));
        s
    } else {
        let mut s = u64_to_decimal(n / 10);
        push_char(&mut s, digit(n % 10));
        s
    }
}

/// Decimal representation of an `i64` (what `i64::to_string` gives).
pub fn i64_to_decimal(n: i64) -> (s: String)
    ensures
        s@ == decimal_int(n as int),
{
    if n < 0 {
        let mag: u64 = (-(n as i128)) as u64;
        let digits = u64_to_decimal(mag);
        let mut s = String::new();
        push_char(&mut s, '-');
        s.append(digits.as_str());
        s
    } else {
        u64_to_decimal(n as u64)
    }
}

/// Removing a character from a concatenation removes it from each part.
pub proof fn lemma_without_char_concat(a: Seq<char>, b: Seq<char>, c: char)
    ensures
        without_char(a + b, c) == without_char(a, c) + without_char(b, c),
    decreases b.len(),
{
    if b.len() == 0 {
        assert(a + b =~= a);
        assert(without_char(a, c) + without_char(b, c) =~= without_char(a, c));
    } else {
        let b2 = b.drop_last();
        lemma_without_char_concat(a, b2, c);
        assert((a + b).drop_last() =~= a + b2);
        assert((a + b).last() == b.last());
        if b.last() == c {
        } else {
            assert(without_char(a, c) + without_char(b2, c).push(b.last()) =~= (without_char(a, c)
                + without_char(b2, c)).push(b.last()));
        }
    }
}

/// Removing a character that does not occur changes nothing.
pub proof fn lemma_without_char_absent(s: Seq<char>, c: char)
    requires
        forall|i: int| 0 <= i < s.len() ==> s[i] != c,
    ensures
        without_char(s, c) == s,
    decreases s.len(),
{
    if s.len() > 0 {
        lemma_without_char_absent(s.drop_last(), c);
        assert(s.drop_last().push(s.last()) =~= s);
    }
}

/// A pattern whose second character does not occur in `s` is never removed from it.
pub proof fn lemma_without_pattern_absent(s: Seq<char>, p: Seq<char>)
    requires
        p.len() >= 2,
        forall|i: int| 0 <= i < s.len() ==> s[i] != p[1],
    ensures
        without_pattern(s, p) == s,
    decreases s.len(),
{
    if s.len() > 0 {
        if p.is_prefix_of(s) {
            assert(s[1] == p[1]);
        }
        lemma_without_pattern_absent(s.drop_first(), p);
        assert(seq![s[0]] + s.drop_first() =~= s);
    }
}

} // verus!
