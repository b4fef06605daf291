//! Character-level helpers shared by the parsers of this crate.
//!
//! Text is handled as sequences of `char`: the spec functions below say what
//! splitting, line breaking and prefix tests mean on `Seq<char>`, and the exec
//! functions compute them on `Vec<char>` / `String`.
use vstd::prelude::*;

verus! {

/// Whether `prefix` is a prefix of `s`.
pub open spec fn has_prefix(s: Seq<char>, prefix: Seq<char>) -> bool {
    prefix.len() <= s.len() && s.subrange(0, prefix.len() as int) == prefix
}

/// Whether `suffix` is a suffix of `s`.
pub open spec fn has_suffix(s: Seq<char>, suffix: Seq<char>) -> bool {
    suffix.len() <= s.len() && s.subrange(s.len() - suffix.len(), s.len() as int) == suffix
}

/// `s` with `prefix` removed (meaningful when `has_prefix(s, prefix)`).
pub open spec fn drop_prefix(s: Seq<char>, prefix: Seq<char>) -> Seq<char> {
    s.subrange(prefix.len() as int, s.len() as int)
}

/// `s` with `suffix` removed (meaningful when `has_suffix(s, suffix)`).
pub open spec fn drop_suffix(s: Seq<char>, suffix: Seq<char>) -> Seq<char> {
    s.subrange(0, s.len() - suffix.len())
}

/// The pieces of `s` between occurrences of `sep`, as `str::split` with a
/// `char` pattern yields them: one more piece than there are separators.
pub open spec fn split_on(s: Seq<char>, sep: char) -> Seq<Seq<char>>
    decreases s.len(),
{
    if s.len() == 0 {
        seq![Seq::<char>::empty()]
    } else {
        let prev = split_on(s.drop_last(), sep);
        if s.last() == sep {
            prev.push(Seq::<char>::empty())
        } else {
            prev.update(prev.len() - 1, prev.last().push(s.last()))
        }
    }
}

/// `s` without one trailing `'\r'`, if it has one.
pub open spec fn strip_cr(s: Seq<char>) -> Seq<char> {
    if s.len() > 0 && s.last() == '\r' {
        s.drop_last()
    } else {
        s
    }
}

/// The lines of `s` as `str::lines` yields them: split at `'\n'`, a `'\r'`
/// right before a `'\n'` removed, and no empty last line after a final `'\n'`.
pub open spec fn lines_of(s: Seq<char>) -> Seq<Seq<char>> {
    let parts = split_on(s, '\n');
    let n = parts.len();
    let count: int = if parts[n - 1].len() == 0 { n - 1 } else { n as int };
    Seq::new(count as nat, |i: int| if i < n - 1 { strip_cr(parts[i]) } else { parts[i] })
}

/// The position of the first `c` in `s`, if any.
pub open spec fn find_char(s: Seq<char>, c: char) -> Option<int>
    decreases s.len(),
{
    if s.len() == 0 {
        None
    } else if s[0] == c {
        Some(0)
    } else {
        match find_char(s.drop_first(), c) {
            Some(i) => Some(i + 1),
            None => None,
        }
    }
}

/// The position of the last `c` in `s`, if any.
pub open spec fn rfind_char(s: Seq<char>, c: char) -> Option<int>
    decreases s.len(),
{
    if s.len() == 0 {
        None
    } else if s.last() == c {
        Some(s.len() - 1)
    } else {
        rfind_char(s.drop_last(), c)
    }
}

/// What follows the last `c` in `s`, or all of `s` when it holds no `c`
/// (the first item of `str::rsplit(c)`).
pub open spec fn after_last(s: Seq<char>, c: char) -> Seq<char> {
    match rfind_char(s, c) {
        Some(i) => s.subrange(i + 1, s.len() as int),
        None => s,
    }
}

/// The last `c` in `s` is found by scanning back from the end.
pub proof fn lemma_rfind_char(s: Seq<char>, c: char, i: int)
    requires
        0 <= i <= s.len(),
        forall|j: int| i <= j < s.len() ==> s[j] != c,
        i > 0 ==> s[i - 1] == c,
    ensures
        i > 0 ==> rfind_char(s, c) == Some(i - 1),
        i == 0 ==> rfind_char(s, c) is None,
        after_last(s, c) == s.subrange(i, s.len() as int),
    decreases s.len(),
{
    if s.len() > 0 && i < s.len() {
        lemma_rfind_char(s.drop_last(), c, i);
        if i == 0 {
            assert(s.drop_last().subrange(0, s.len() - 1) =~= s.drop_last());
        }
    }
    if i == 0 {
        assert(s.subrange(0, s.len() as int) =~= s);
    }
}

/// The position of the last `c` in `v`, if any.
pub fn rfind_pos(v: &Vec<char>, c: char) -> (r: Option<usize>)
    ensures
        match r {
            Some(i) => rfind_char(v@, c) == Some(i as int) && i < v.len(),
            None => rfind_char(v@, c) is None,
        },
{
    let mut i: usize = v.len();
    while i > 0 && v[i - 1] != c
        invariant
            i <= v.len(),
            forall|j: int| i <= j < v.len() ==> v@[j] != c,
        decreases i,
    {
        i = i - 1;
    }
    proof {
        lemma_rfind_char(v@, c, i as int);
    }
    if i == 0 {
        None
    } else {
        Some(i - 1)
    }
}

/// Scanning forward finds the first `c`.
pub proof fn lemma_find_char_first(s: Seq<char>, c: char, i: int)
    requires
        0 <= i <= s.len(),
        forall|j: int| 0 <= j < i ==> s[j] != c,
        i < s.len() ==> s[i] == c,
    ensures
        i < s.len() ==> find_char(s, c) == Some(i),
        i == s.len() ==> find_char(s, c) is None,
    decreases s.len(),
{
    if s.len() > 0 && i > 0 {
        lemma_find_char_first(s.drop_first(), c, i - 1);
    }
}

/// The position of the first `c` in `v[from..]`, counted from `from`.
pub fn find_from(v: &Vec<char>, c: char, from: usize) -> (r: Option<usize>)
    requires
        from <= v.len(),
    ensures
        match r {
            Some(i) => from <= i < v.len() && find_char(v@.subrange(from as int, v.len() as int), c) == Some(i - from),
            None => find_char(v@.subrange(from as int, v.len() as int), c) is None,
        },
{
    let ghost s = v@.subrange(from as int, v.len() as int);
    let mut i = from;
    while i < v.len() && v[i] != c
        invariant
            from <= i <= v.len(),
            s == v@.subrange(from as int, v.len() as int),
            forall|j: int| from <= j < i ==> v@[j] != c,
        decreases v.len() - i,
    {
        i = i + 1;
    }
    proof {
        assert forall|j: int| 0 <= j < i - from implies s[j] != c by {
            assert(s[j] == v@[from + j]);
        }
        if i < v.len() {
            assert(s[i - from] == v@[i as int]);
        }
        lemma_find_char_first(s, c, i - from);
    }
    if i < v.len() {
        Some(i)
    } else {
        None
    }
}

/// Appends a piece to a list of character sequences.
pub fn push_piece(out: &mut Vec<Vec<char>>, piece: Vec<char>)
    ensures
        final(out).deep_view() == old(out).deep_view().push(piece@),
        final(out)@.len() == old(out)@.len() + 1,
{
    let ghost before = out.deep_view();
    let ghost p = piece@;
    assert(piece.deep_view() =~= piece@);
    out.push(piece);
    assert(out.deep_view() =~= before.push(p));
}

/// The pieces of `s` between `sep`s, at most `n` of them: the last piece
/// is the rest (`str::splitn`).
pub open spec fn splitn_on(s: Seq<char>, sep: char, n: nat) -> Seq<Seq<char>>
    decreases n,
{
    if n <= 1 {
        seq![s]
    } else {
        match find_char(s, sep) {
            Some(i) => seq![s.subrange(0, i)] + splitn_on(s.subrange(i + 1, s.len() as int), sep, (n - 1) as nat),
            None => seq![s],
        }
    }
}

/// A piece with no separator in it, followed by a separator, is the first
/// piece of a split into at least two; the rest is split into one fewer.
pub proof fn lemma_splitn_first(x: Seq<char>, r: Seq<char>, sep: char, n: nat)
    requires
        n >= 2,
        forall|i: int| 0 <= i < x.len() ==> x[i] != sep,
    ensures
        splitn_on(x + seq![sep] + r, sep, n) == seq![x] + splitn_on(r, sep, (n - 1) as nat),
{
    let s = x + seq![sep] + r;
    assert forall|j: int| 0 <= j < x.len() implies s[j] != sep by {
        assert(s[j] == x[j]);
    }
    assert(s[x.len() as int] == sep);
    lemma_find_char_first(s, sep, x.len() as int);
    assert(s.subrange(0, x.len() as int) =~= x);
    assert(s.subrange(x.len() as int + 1, s.len() as int) =~= r);
}

/// Text with no separator in it is split into itself alone.
pub proof fn lemma_splitn_no_sep(x: Seq<char>, sep: char, n: nat)
    requires
        forall|i: int| 0 <= i < x.len() ==> x[i] != sep,
    ensures
        splitn_on(x, sep, n) == seq![x],
{
    lemma_find_char_first(x, sep, x.len() as int);
}

/// The pieces of `v` between `sep`s, at most `n >= 1` of them.
pub fn splitn_chars(v: &Vec<char>, sep: char, n: usize) -> (r: Vec<Vec<char>>)
    requires
        n >= 1,
    ensures
        r.deep_view() == splitn_on(v@, sep, n as nat),
{
    let mut out: Vec<Vec<char>> = Vec::new();
    let mut pos: usize = 0;
    let mut k: usize = n;
    assert(v@.subrange(0, v.len() as int) =~= v@);
    assert(out.deep_view() =~= Seq::<Seq<char>>::empty());
    loop
        invariant
            pos <= v.len(),
            1 <= k <= n,
            out.deep_view() + splitn_on(v@.subrange(pos as int, v.len() as int), sep, k as nat) == splitn_on(
                v@,
                sep,
                n as nat,
            ),
        decreases k,
    {
        let ghost rest = v@.subrange(pos as int, v.len() as int);
        let ghost before = out.deep_view();
        if k <= 1 {
            let piece = slice_chars(v, pos, v.len());
            push_piece(&mut out, piece);
            assert(out.deep_view() =~= before + seq![rest]);
            return out;
        }
        match find_from(v, sep, pos) {
            None => {
                let piece = slice_chars(v, pos, v.len());
                push_piece(&mut out, piece);
                assert(out.deep_view() =~= before + seq![rest]);
                return out;
            },
            Some(i) => {
                let piece = slice_chars(v, pos, i);
                push_piece(&mut out, piece);
                assert(rest.subrange(0, i - pos) =~= v@.subrange(pos as int, i as int));
                assert(rest.subrange(i - pos + 1, rest.len() as int) =~= v@.subrange(i + 1, v.len() as int));
                assert(out.deep_view() =~= before + seq![v@.subrange(pos as int, i as int)]);
                assert(splitn_on(rest, sep, k as nat) =~= seq![v@.subrange(pos as int, i as int)] + splitn_on(
                    v@.subrange(i + 1, v.len() as int),
                    sep,
                    (k - 1) as nat,
                ));
                assert(out.deep_view() + splitn_on(v@.subrange(i + 1, v.len() as int), sep, (k - 1) as nat)
                    =~= before + splitn_on(rest, sep, k as nat));
                pos = i + 1;
                k = k - 1;
            },
        }
    }
}

/// The runs of non-whitespace characters of `s` (`str::split_whitespace`).
pub open spec fn words_of(s: Seq<char>) -> Seq<Seq<char>>
    decreases s.len(),
{
    if s.len() == 0 {
        Seq::empty()
    } else {
        let w = words_of(s.drop_last());
        let c = s.last();
        if is_whitespace(c) {
            w
        } else if s.len() >= 2 && !is_whitespace(s[s.len() - 2]) {
            w.update(w.len() - 1, w.last().push(c))
        } else {
            w.push(seq![c])
        }
    }
}

/// The runs of non-whitespace characters of `v`.
pub fn words_chars(v: &Vec<char>) -> (r: Vec<Vec<char>>)
    ensures
        r.deep_view() == words_of(v@),
{
    let mut done: Vec<Vec<char>> = Vec::new();
    let mut cur: Vec<char> = Vec::new();
    let mut i: usize = 0;
    while i < v.len()
        invariant
            i <= v.len(),
            (if cur@.len() > 0 { done.deep_view().push(cur@) } else { done.deep_view() }) == words_of(v@.take(i as int)),
            cur@.len() > 0 <==> (i > 0 && !is_whitespace(v@[i - 1])),
        decreases v.len() - i,
    {
        let c = v[i];
        let ghost t = v@.take(i + 1);
        assert(t.drop_last() =~= v@.take(i as int));
        assert(t.last() == c);
        if char_is_whitespace(c) {
            if cur.len() > 0 {
                let finished = cur;
                push_piece(&mut done, finished);
                cur = Vec::new();
            }
        } else {
            let ghost d0 = done.deep_view();
            let ghost cv = cur@;
            if i > 0 {
                assert(t[t.len() - 2] == v@[i - 1]);
            }
            cur.push(c);
            assert(d0.push(cv).update(d0.len() as int, cv.push(c)) =~= d0.push(cur@));
            proof {
                if cv.len() == 0 {
                    assert(cur@ =~= seq![c]);
                    assert(d0.push(seq![c]) =~= d0.push(cur@));
                }
            }
        }
        i = i + 1;
    }
    assert(v@.take(v.len() as int) =~= v@);
    if cur.len() > 0 {
        push_piece(&mut done, cur);
    }
    done
}

/// A decimal digit.
pub open spec fn is_digit(c: char) -> bool {
    '0' <= c && c <= '9'
}

/// The value of a decimal digit.
pub open spec fn digit_value(c: char) -> int {
    (c as int) - ('0' as int)
}

/// The value of a nonempty run of decimal digits.
pub open spec fn digits_value(s: Seq<char>) -> int
    decreases s.len(),
{
    if s.len() == 0 {
        0
    } else {
        digits_value(s.drop_last()) * 10 + digit_value(s.last())
    }
}

/// Whether `s` is a nonempty run of decimal digits.
pub open spec fn all_digits(s: Seq<char>) -> bool {
    s.len() > 0 && forall|i: int| 0 <= i < s.len() ==> is_digit(#[trigger] s[i])
}

/// The integer that `str::parse::<iN>` reads from `s`, before the range
/// check: an optional `+` or `-` and then at least one decimal digit.
pub open spec fn parse_signed(s: Seq<char>) -> Option<int> {
    if s.len() > 0 && s[0] == '-' && all_digits(s.drop_first()) {
        Some(-digits_value(s.drop_first()))
    } else if s.len() > 0 && s[0] == '+' && all_digits(s.drop_first()) {
        Some(digits_value(s.drop_first()))
    } else if all_digits(s) {
        Some(digits_value(s))
    } else {
        None
    }
}

/// The integer that `str::parse::<uN>` reads from `s`, before the range
/// check: an optional `+` and then at least one decimal digit.
pub open spec fn parse_unsigned(s: Seq<char>) -> Option<int> {
    if s.len() > 0 && s[0] == '+' && all_digits(s.drop_first()) {
        Some(digits_value(s.drop_first()))
    } else if all_digits(s) {
        Some(digits_value(s))
    } else {
        None
    }
}

/// The characters of a string slice, in order.
pub fn chars_of(s: &str) -> (v: Vec<char>)
    ensures
        v@ == s@,
{
    broadcast use vstd::string::group_string_axioms;

    let mut v: Vec<char> = Vec::new();
    for c in it: s.chars()
        invariant
            it.seq() == s@,
            v@ == s@.take(it.index() as int),
    {
        v.push(c);
    }
    assert(v@ =~= s@);
    v
}

/// Appends one character to a string (`String::push`).
#[verifier::external_body]
pub(crate) fn push_char(s: &mut String, c: char)
    ensures
        final(s)@ == old(s)@.push(c),
{
    s.push(c);
}

/// A `String` holding the characters `v[lo..hi]`.
pub fn string_of_range(v: &Vec<char>, lo: usize, hi: usize) -> (r: String)
    requires
        lo <= hi <= v.len(),
    ensures
        r@ == v@.subrange(lo as int, hi as int),
{
    let mut r = String::new();
    let mut i = lo;
    while i < hi
        invariant
            lo <= i <= hi <= v.len(),
            r@ == v@.subrange(lo as int, i as int),
        decreases hi - i,
    {
        push_char(&mut r, v[i]);
        assert(v@.subrange(lo as int, i + 1) =~= v@.subrange(lo as int, i as int).push(v@[i as int]));
        i = i + 1;
    }
    r
}

/// A `String` holding the characters of `v`.
pub fn string_of(v: &Vec<char>) -> (r: String)
    ensures
        r@ == v@,
{
    let r = string_of_range(v, 0, v.len());
    assert(v@.subrange(0, v@.len() as int) =~= v@);
    r
}

/// A `String` holding the characters of `s`.
pub fn string_of_str(s: &str) -> (r: String)
    ensures
        r@ == s@,
{
    let v = chars_of(s);
    string_of(&v)
}

/// A `Vec<char>` holding `v[lo..hi]`.
pub fn slice_chars(v: &Vec<char>, lo: usize, hi: usize) -> (r: Vec<char>)
    requires
        lo <= hi <= v.len(),
    ensures
        r@ == v@.subrange(lo as int, hi as int),
{
    let mut r: Vec<char> = Vec::new();
    let mut i = lo;
    while i < hi
        invariant
            lo <= i <= hi <= v.len(),
            r@ == v@.subrange(lo as int, i as int),
        decreases hi - i,
    {
        r.push(v[i]);
        assert(v@.subrange(lo as int, i + 1) =~= v@.subrange(lo as int, i as int).push(v@[i as int]));
        i = i + 1;
    }
    r
}

/// The concatenation of two strings.
pub fn concat2(a: &str, b: &str) -> (r: String)
    ensures
        r@ == a@ + b@,
{
    let mut r = string_of_str(a);
    let bv = chars_of(b);
    let mut i: usize = 0;
    while i < bv.len()
        invariant
            i <= bv.len(),
            bv@ == b@,
            r@ == a@ + bv@.take(i as int),
        decreases bv.len() - i,
    {
        push_char(&mut r, bv[i]);
        assert(bv@.take(i + 1) =~= bv@.take(i as int).push(bv@[i as int]));
        i = i + 1;
    }
    assert(bv@.take(bv.len() as int) =~= bv@);
    r
}

/// Whether two character sequences are equal.
pub fn chars_eq(a: &Vec<char>, b: &Vec<char>) -> (r: bool)
    ensures
        r == (a@ == b@),
{
    if a.len() != b.len() {
        return false;
    }
    let mut i: usize = 0;
    while i < a.len()
        invariant
            i <= a.len() == b.len(),
            forall|j: int| 0 <= j < i ==> a@[j] == b@[j],
        decreases a.len() - i,
    {
        if a[i] != b[i] {
            return false;
        }
        i = i + 1;
    }
    assert(a@ =~= b@);
    true
}

/// Whether `a` spells the string slice `b`.
pub fn chars_eq_str(a: &Vec<char>, b: &str) -> (r: bool)
    ensures
        r == (a@ == b@),
{
    let bv = chars_of(b);
    chars_eq(a, &bv)
}

/// Whether two string slices are equal.
pub fn str_eq(a: &str, b: &str) -> (r: bool)
    ensures
        r == (a@ == b@),
{
    let av = chars_of(a);
    chars_eq_str(&av, b)
}

/// Whether `v[start..]` begins with `p`.
pub fn chars_match_at(v: &Vec<char>, start: usize, p: &Vec<char>) -> (r: bool)
    requires
        start <= v.len(),
    ensures
        r == has_prefix(v@.subrange(start as int, v.len() as int), p@),
{
    if p.len() > v.len() - start {
        return false;
    }
    let mut i: usize = 0;
    while i < p.len()
        invariant
            i <= p.len(),
            start + p.len() <= v.len(),
            forall|j: int| 0 <= j < i ==> v@[start + j] == p@[j],
        decreases p.len() - i,
    {
        if v[start + i] != p[i] {
            assert(v@.subrange(start as int, v.len() as int).subrange(0, p.len() as int)[i as int]
                != p@[i as int]);
            return false;
        }
        i = i + 1;
    }
    assert(v@.subrange(start as int, v.len() as int).subrange(0, p.len() as int) =~= p@);
    true
}

/// Whether `v` begins with the string slice `p`.
pub fn starts_with_str(v: &Vec<char>, p: &str) -> (r: bool)
    ensures
        r == has_prefix(v@, p@),
{
    let pv = chars_of(p);
    let r = chars_match_at(v, 0, &pv);
    assert(v@.subrange(0, v.len() as int) =~= v@);
    r
}

/// Whether `v` ends with the string slice `p`.
pub fn ends_with_str(v: &Vec<char>, p: &str) -> (r: bool)
    ensures
        r == has_suffix(v@, p@),
{
    let pv = chars_of(p);
    if pv.len() > v.len() {
        return false;
    }
    let start = v.len() - pv.len();
    let r = chars_match_at(v, start, &pv);
    assert(v@.subrange(start as int, v.len() as int).subrange(0, pv.len() as int)
        =~= v@.subrange(start as int, v.len() as int));
    r
}

/// The pieces of `v` between occurrences of `sep`.
pub fn split_chars(v: &Vec<char>, sep: char) -> (r: Vec<Vec<char>>)
    ensures
        r.deep_view() == split_on(v@, sep),
{
    let mut done: Vec<Vec<char>> = Vec::new();
    let mut cur: Vec<char> = Vec::new();
    let mut i: usize = 0;
    while i < v.len()
        invariant
            i <= v.len(),
            done.deep_view().push(cur@) == split_on(v@.take(i as int), sep),
        decreases v.len() - i,
    {
        let ghost prefix = v@.take(i as int);
        assert(v@.take(i + 1).drop_last() =~= prefix);
        if v[i] == sep {
            let ghost before = done.deep_view();
            let finished = cur;
            assert(finished.deep_view() =~= finished@);
            let ghost fin = finished@;
            let ghost old_done = done@;
            done.push(finished);
            cur = Vec::new();
            assert(done@ == old_done.push(done@[done@.len() - 1]));
            assert(done.deep_view() =~= before.push(fin));
            assert(done.deep_view().push(cur@) =~= split_on(v@.take(i + 1), sep));
        } else {
            let ghost old_cur = cur@;
            cur.push(v[i]);
            assert(done.deep_view().push(cur@) =~= split_on(v@.take(i + 1), sep));
        }
        i = i + 1;
    }
    assert(v@.take(v.len() as int) =~= v@);
    let ghost before = done.deep_view();
    assert(cur.deep_view() =~= cur@);
    let ghost fin = cur@;
    done.push(cur);
    assert(done.deep_view() =~= before.push(fin));
    done
}

/// Reads a nonempty run of decimal digits as a `u64`; `None` when `s` is not
/// such a run or its value does not fit.
pub fn parse_u64_digits(s: &Vec<char>, lo: usize, hi: usize) -> (r: Option<u64>)
    requires
        lo <= hi <= s.len(),
    ensures
        match r {
            Some(n) => all_digits(s@.subrange(lo as int, hi as int)) && n == digits_value(
                s@.subrange(lo as int, hi as int),
            ),
            None => !all_digits(s@.subrange(lo as int, hi as int)) || digits_value(
                s@.subrange(lo as int, hi as int),
            ) > u64::MAX,
        },
{
    if lo == hi {
        return None;
    }
    let mut acc: u64 = 0;
    let mut i = lo;
    let mut overflow = false;
    while i < hi
        invariant
            lo <= i <= hi <= s.len(),
            forall|j: int| lo <= j < i ==> is_digit(#[trigger] s@[j]),
            !overflow ==> acc == digits_value(s@.subrange(lo as int, i as int)),
            overflow ==> digits_value(s@.subrange(lo as int, i as int)) > u64::MAX,
        decreases hi - i,
    {
        let c = s[i];
        if !('0' <= c && c <= '9') {
            assert(!is_digit(s@.subrange(lo as int, hi as int)[i - lo]));
            return None;
        }
        let d = (c as u32 - '0' as u32) as u64;
        let ghost sub = s@.subrange(lo as int, i + 1);
        assert(sub.drop_last() =~= s@.subrange(lo as int, i as int));
        assert(digits_value(sub) == digits_value(s@.subrange(lo as int, i as int)) * 10 + d);
        if !overflow {
            if acc > (u64::MAX - d) / 10 {
                overflow = true;
                assert(digits_value(sub) > u64::MAX) by (nonlinear_arith)
                    requires
                        acc > (u64::MAX - d) / 10,
                        digits_value(sub) == acc * 10 + d,
                        d <= 9,
                ;
            } else {
                assert(acc * 10 + d <= u64::MAX) by (nonlinear_arith)
                    requires
                        acc <= (u64::MAX - d) / 10,
                        d <= 9,
                ;
                acc = acc * 10 + d;
            }
        } else {
            assert(digits_value(s@.subrange(lo as int, i as int)) >= 0) by {
                lemma_digits_value_nonneg(s@.subrange(lo as int, i as int));
            }
            assert(digits_value(sub) > u64::MAX) by (nonlinear_arith)
                requires
                    digits_value(sub) == digits_value(s@.subrange(lo as int, i as int)) * 10 + d,
                    digits_value(s@.subrange(lo as int, i as int)) > u64::MAX,
                    d >= 0,
            ;
        }
        i = i + 1;
    }
    if overflow {
        None
    } else {
        Some(acc)
    }
}

/// A run of digits has a nonnegative value.
pub proof fn lemma_digits_value_nonneg(s: Seq<char>)
    requires
        forall|i: int| 0 <= i < s.len() ==> is_digit(#[trigger] s[i]),
    ensures
        digits_value(s) >= 0,
    decreases s.len(),
{
    if s.len() > 0 {
        lemma_digits_value_nonneg(s.drop_last());
        assert(is_digit(s[s.len() - 1]));
    }
}

} // verus!

verus! {

/// The character of a decimal digit `d < 10`.
pub open spec fn digit_char(d: nat) -> char {
    ((48 + d) as u8) as char
}

/// The decimal text of a natural number, most significant digit first.
pub open spec fn decimal_of_nat(n: nat) -> Seq<char>
    decreases n,
{
    if n < 10 {
        seq![digit_char(n)]
    } else {
        decimal_of_nat(n / 10).push(digit_char(n % 10))
    }
}

/// The decimal text of an integer, as `Display` writes it: a `-` before
/// negative values.
pub open spec fn decimal_of_int(i: int) -> Seq<char> {
    if i < 0 {
        seq!['-'] + decimal_of_nat((-i) as nat)
    } else {
        decimal_of_nat(i as nat)
    }
}

/// Appends the decimal text of `n` to `s`.
pub fn push_decimal(s: &mut String, n: u64)
    ensures
        final(s)@ == old(s)@ + decimal_of_nat(n as nat),
    decreases n,
{
    if n >= 10 {
        push_decimal(s, n / 10);
    }
    let d: u8 = (n % 10) as u8;
    push_char(s, (48u8 + d) as char);
    proof {
        if n >= 10 {
            assert(decimal_of_nat(n as nat) == decimal_of_nat((n / 10) as nat).push(
                digit_char((n % 10) as nat),
            ));
        } else {
            assert(decimal_of_nat(n as nat) == seq![digit_char(n as nat)]);
        }
    }
}

/// Appends the decimal text of `i` to `s`.
pub fn push_decimal_i64(s: &mut String, i: i64)
    ensures
        final(s)@ == old(s)@ + decimal_of_int(i as int),
{
    if i < 0 {
        push_char(s, '-');
        let mag: u64 = ((-(i + 1)) as u64) + 1;
        push_decimal(s, mag);
    } else {
        push_decimal(s, i as u64);
    }
}

/// The decimal text of a `u64`.
pub fn decimal_string(n: u64) -> (r: String)
    ensures
        r@ == decimal_of_nat(n as nat),
{
    let mut s = String::new();
    push_decimal(&mut s, n);
    s
}

/// Appends the characters of `t` to `s`.
pub fn push_str(s: &mut String, t: &str)
    ensures
        final(s)@ == old(s)@ + t@,
{
    let tv = chars_of(t);
    let mut i: usize = 0;
    while i < tv.len()
        invariant
            i <= tv.len(),
            tv@ == t@,
            s@ == old(s)@ + tv@.take(i as int),
        decreases tv.len() - i,
    {
        push_char(s, tv[i]);
        assert(tv@.take(i + 1) =~= tv@.take(i as int).push(tv@[i as int]));
        i = i + 1;
    }
    assert(tv@.take(tv.len() as int) =~= tv@);
}

/// The lines joined with `'\n'` between them.
pub open spec fn join_lines(ls: Seq<Seq<char>>) -> Seq<char>
    decreases ls.len(),
{
    if ls.len() == 0 {
        Seq::<char>::empty()
    } else if ls.len() == 1 {
        ls[0]
    } else {
        join_lines(ls.drop_last()) + seq!['\n'] + ls.last()
    }
}

/// The strings joined with `'\n'` between them (`[..].join("\n")`).
pub fn join_with_newlines(ls: &Vec<String>) -> (r: String)
    ensures
        r@ == join_lines(ls.deep_view()),
{
    let mut r = String::new();
    let mut i: usize = 0;
    while i < ls.len()
        invariant
            i <= ls.len(),
            r@ == join_lines(ls.deep_view().take(i as int)),
        decreases ls.len() - i,
    {
        let ghost before = ls.deep_view().take(i as int);
        let ghost after = ls.deep_view().take(i + 1);
        assert(after.drop_last() =~= before);
        assert(after.last() == ls@[i as int]@);
        if i > 0 {
            push_char(&mut r, '\n');
        }
        push_str(&mut r, ls[i].as_str());
        proof {
            if i == 0 {
                assert(before.len() == 0);
                assert(join_lines(after) == after[0]);
                assert(r@ =~= join_lines(after));
            } else {
                assert(join_lines(after) == join_lines(before) + seq!['\n'] + after.last());
                assert(r@ =~= join_lines(after));
            }
        }
        i = i + 1;
    }
    assert(ls.deep_view().take(ls.len() as int) =~= ls.deep_view());
    r
}

} // verus!

verus! {

/// The lines of `v`, as `str::lines` yields them.
pub fn lines_chars(v: &Vec<char>) -> (r: Vec<Vec<char>>)
    ensures
        r.deep_view() == lines_of(v@),
{
    let parts = split_chars(v, '\n');
    let ghost ps = split_on(v@, '\n');
    proof {
        lemma_split_nonempty(v@, '\n');
    }
    let n = parts.len();
    let count = if parts[n - 1].len() == 0 { n - 1 } else { n };
    assert(parts@[n - 1]@ == ps[n - 1]);
    let mut out: Vec<Vec<char>> = Vec::new();
    let mut i: usize = 0;
    while i < count
        invariant
            i <= count <= n,
            n == parts@.len(),
            ps == parts.deep_view(),
            ps == split_on(v@, '\n'),
            count == (if ps[n - 1].len() == 0 { n - 1 } else { n as int }),
            out@.len() == i,
            forall|k: int| 0 <= k < i ==> (#[trigger] out@[k])@ == (if k < n - 1 { strip_cr(ps[k]) } else { ps[k] }),
        decreases count - i,
    {
        let p = &parts[i];
        assert(p@ == ps[i as int]);
        if i + 1 < n && p.len() > 0 && p[p.len() - 1] == '\r' {
            let q = slice_chars(p, 0, p.len() - 1);
            assert(q@ =~= p@.drop_last());
            out.push(q);
        } else {
            let q = slice_chars(p, 0, p.len());
            assert(q@ =~= p@);
            out.push(q);
        }
        i = i + 1;
    }
    assert forall|k: int| 0 <= k < out@.len() implies out.deep_view()[k] == lines_of(v@)[k] by {
        assert(out@[k].deep_view() =~= out@[k]@);
    }
    assert(out.deep_view() =~= lines_of(v@));
    out
}

/// `split_on` yields at least one piece.
pub proof fn lemma_split_nonempty(s: Seq<char>, sep: char)
    ensures
        split_on(s, sep).len() >= 1,
    decreases s.len(),
{
    if s.len() > 0 {
        lemma_split_nonempty(s.drop_last(), sep);
    }
}

/// A piece without separators splits into itself.
pub proof fn lemma_split_no_sep(s: Seq<char>, sep: char)
    requires
        forall|i: int| 0 <= i < s.len() ==> s[i] != sep,
    ensures
        split_on(s, sep) == seq![s],
    decreases s.len(),
{
    if s.len() > 0 {
        lemma_split_no_sep(s.drop_last(), sep);
        assert(s.drop_last().push(s.last()) =~= s);
        assert(seq![s.drop_last()].update(0, s.drop_last().push(s.last())) =~= seq![s]);
    } else {
        assert(s =~= Seq::<char>::empty());
    }
}

/// Splitting at a separator splits the two sides apart.
pub proof fn lemma_split_concat(x: Seq<char>, y: Seq<char>, sep: char)
    ensures
        split_on(x + seq![sep] + y, sep) == split_on(x, sep) + split_on(y, sep),
    decreases y.len(),
{
    let s = x + seq![sep] + y;
    let a = split_on(x, sep);
    if y.len() == 0 {
        assert(s.drop_last() =~= x);
        assert(a.push(Seq::<char>::empty()) =~= a + seq![Seq::<char>::empty()]);
    } else {
        assert(s.drop_last() =~= x + seq![sep] + y.drop_last());
        lemma_split_concat(x, y.drop_last(), sep);
        lemma_split_nonempty(y.drop_last(), sep);
        let b = split_on(y.drop_last(), sep);
        let c = y.last();
        assert(s.last() == c);
        if c == sep {
            assert((a + b).push(Seq::<char>::empty()) =~= a + b.push(Seq::<char>::empty()));
        } else {
            let ab = a + b;
            assert(ab.update(ab.len() - 1, ab.last().push(c)) =~= a + b.update(b.len() - 1, b.last().push(c)));
        }
    }
}

/// The first piece of a split is what precedes the first separator: all of
/// `s` when there is one piece, else a prefix followed by the separator.
pub proof fn lemma_split_first(s: Seq<char>, sep: char)
    ensures
        split_on(s, sep).len() == 1 ==> split_on(s, sep)[0] == s,
        split_on(s, sep).len() > 1 ==> has_prefix(s, split_on(s, sep)[0].push(sep)),
    decreases s.len(),
{
    lemma_split_nonempty(s, sep);
    if s.len() > 0 {
        let d = s.drop_last();
        lemma_split_first(d, sep);
        lemma_split_nonempty(d, sep);
        let p = split_on(d, sep);
        let q = split_on(s, sep);
        assert(d.push(s.last()) =~= s);
        if p.len() > 1 {
            assert(q[0] == p[0]);
            assert(s.subrange(0, (p[0].len() + 1) as int) =~= d.subrange(0, (p[0].len() + 1) as int));
        } else if s.last() == sep {
            assert(q[0] == p[0]);
            assert(q[0] == d);
            assert(s.subrange(0, (q[0].len() + 1) as int) =~= s);
            assert(q[0].push(sep) =~= s);
        } else {
            assert(q.len() == 1);
            assert(q[0] =~= s);
        }
    }
}

/// The number of bytes of `c` in UTF-8.
pub open spec fn char_utf8_len(c: char) -> nat {
    if (c as u32) < 0x80 {
        1
    } else if (c as u32) < 0x800 {
        2
    } else if (c as u32) < 0x10000 {
        3
    } else {
        4
    }
}

/// The number of bytes of `s` in UTF-8 (`str::len`).
pub open spec fn utf8_len(s: Seq<char>) -> nat
    decreases s.len(),
{
    if s.len() == 0 {
        0
    } else {
        utf8_len(s.drop_last()) + char_utf8_len(s.last())
    }
}

/// The UTF-8 length of one character.
pub fn char_len_utf8(c: char) -> (r: usize)
    ensures
        r == char_utf8_len(c),
{
    let u = c as u32;
    if u < 0x80 {
        1
    } else if u < 0x800 {
        2
    } else if u < 0x10000 {
        3
    } else {
        4
    }
}

} // verus!

verus! {

/// `char::is_whitespace`: the characters with the Unicode `White_Space`
/// property.
pub open spec fn is_whitespace(c: char) -> bool {
    let u = c as u32;
    (0x09 <= u && u <= 0x0D) || u == 0x20 || u == 0x85 || u == 0xA0 || u == 0x1680
        || (0x2000 <= u && u <= 0x200A) || u == 0x2028 || u == 0x2029 || u == 0x202F
        || u == 0x205F || u == 0x3000
}

/// Whether `c` is whitespace (`char::is_whitespace`).
pub fn char_is_whitespace(c: char) -> (r: bool)
    ensures
        r == is_whitespace(c),
{
    let u = c as u32;
    (0x09 <= u && u <= 0x0D) || u == 0x20 || u == 0x85 || u == 0xA0 || u == 0x1680
        || (0x2000 <= u && u <= 0x200A) || u == 0x2028 || u == 0x2029 || u == 0x202F
        || u == 0x205F || u == 0x3000
}

/// The number of leading whitespace characters of `s`.
pub open spec fn leading_ws(s: Seq<char>) -> nat
    decreases s.len(),
{
    if s.len() > 0 && is_whitespace(s[0]) {
        1 + leading_ws(s.drop_first())
    } else {
        0
    }
}

/// The number of trailing whitespace characters of `s`.
pub open spec fn trailing_ws(s: Seq<char>) -> nat
    decreases s.len(),
{
    if s.len() > 0 && is_whitespace(s.last()) {
        1 + trailing_ws(s.drop_last())
    } else {
        0
    }
}

/// `s` without leading and trailing whitespace (`str::trim`).
pub open spec fn trim(s: Seq<char>) -> Seq<char> {
    let a = leading_ws(s);
    if a == s.len() {
        Seq::<char>::empty()
    } else {
        s.subrange(a as int, s.len() - trailing_ws(s))
    }
}

/// Counting leading whitespace from position `i` on.
pub proof fn lemma_leading_ws_step(s: Seq<char>, i: int)
    requires
        0 <= i <= s.len(),
        forall|j: int| 0 <= j < i ==> is_whitespace(#[trigger] s[j]),
    ensures
        leading_ws(s) == i + leading_ws(s.subrange(i, s.len() as int)),
    decreases i,
{
    if i > 0 {
        let t = s.drop_first();
        assert forall|j: int| 0 <= j < i - 1 implies is_whitespace(#[trigger] t[j]) by {
            assert(t[j] == s[j + 1]);
        }
        lemma_leading_ws_step(t, i - 1);
        assert(t.subrange(i - 1, t.len() as int) =~= s.subrange(i, s.len() as int));
        assert(is_whitespace(s[0]));
    } else {
        assert(s.subrange(0, s.len() as int) =~= s);
    }
}

/// Counting trailing whitespace from position `i` back.
pub proof fn lemma_trailing_ws_step(s: Seq<char>, i: int)
    requires
        0 <= i <= s.len(),
        forall|j: int| i <= j < s.len() ==> is_whitespace(#[trigger] s[j]),
    ensures
        trailing_ws(s) == (s.len() - i) + trailing_ws(s.subrange(0, i)),
    decreases s.len() - i,
{
    if i < s.len() {
        let t = s.drop_last();
        lemma_trailing_ws_step(t, i);
        assert(t.subrange(0, i) =~= s.subrange(0, i));
    } else {
        assert(s.subrange(0, i) =~= s);
    }
}

/// The leading-whitespace count is at most the length.
pub proof fn lemma_leading_ws_bound(s: Seq<char>)
    ensures
        leading_ws(s) <= s.len(),
        leading_ws(s) < s.len() ==> !is_whitespace(s[leading_ws(s) as int]),
        forall|j: int| 0 <= j < leading_ws(s) ==> is_whitespace(#[trigger] s[j]),
    decreases s.len(),
{
    if s.len() > 0 && is_whitespace(s[0]) {
        let t = s.drop_first();
        lemma_leading_ws_bound(t);
        assert forall|j: int| 0 <= j < leading_ws(s) implies is_whitespace(#[trigger] s[j]) by {
            if j > 0 {
                assert(s[j] == t[j - 1]);
            }
        }
    }
}

/// `s` without leading and trailing whitespace.
pub fn trim_chars(v: &Vec<char>) -> (r: Vec<char>)
    ensures
        r@ == trim(v@),
{
    let mut a: usize = 0;
    while a < v.len() && char_is_whitespace(v[a])
        invariant
            a <= v.len(),
            forall|j: int| 0 <= j < a ==> is_whitespace(#[trigger] v@[j]),
        decreases v.len() - a,
    {
        a = a + 1;
    }
    proof {
        lemma_leading_ws_step(v@, a as int);
        let rest = v@.subrange(a as int, v.len() as int);
        if a < v.len() {
            assert(rest[0] == v@[a as int]);
            assert(leading_ws(rest) == 0);
        } else {
            assert(rest.len() == 0);
        }
    }
    if a == v.len() {
        return Vec::new();
    }
    let mut b: usize = v.len();
    while b > a && char_is_whitespace(v[b - 1])
        invariant
            a < v.len(),
            !is_whitespace(v@[a as int]),
            a <= b <= v.len(),
            forall|j: int| b <= j < v.len() ==> is_whitespace(#[trigger] v@[j]),
        decreases b,
    {
        b = b - 1;
    }
    proof {
        lemma_trailing_ws_step(v@, b as int);
        let front = v@.subrange(0, b as int);
        assert(b > a);
        assert(front.last() == v@[b - 1]);
        assert(trailing_ws(front) == 0);
    }
    slice_chars(v, a, b)
}

/// Reads `v` as `str::parse::<i64>` does.
pub fn parse_i64_chars(v: &Vec<char>) -> (r: Option<i64>)
    ensures
        r is Some <==> (parse_signed(v@) is Some && i64::MIN <= parse_signed(v@)->0 <= i64::MAX),
        r matches Some(x) ==> x == parse_signed(v@)->0,
{
    let n = v.len();
    if n > 0 && (v[0] == '-' || v[0] == '+') {
        let m = parse_u64_digits(v, 1, n);
        assert(v@.subrange(1, n as int) =~= v@.drop_first());
        match m {
            Some(mag) => {
                if v[0] == '-' {
                    if mag <= 0x8000_0000_0000_0000u64 {
                        if mag == 0x8000_0000_0000_0000u64 {
                            Some(i64::MIN)
                        } else {
                            Some(-(mag as i64))
                        }
                    } else {
                        None
                    }
                } else if mag <= 0x7FFF_FFFF_FFFF_FFFFu64 {
                    Some(mag as i64)
                } else {
                    None
                }
            },
            None => {
                proof {
                    if all_digits(v@) {
                        assert(!is_digit(v@[0]));
                    }
                }
                None
            },
        }
    } else {
        let m = parse_u64_digits(v, 0, n);
        assert(v@.subrange(0, n as int) =~= v@);
        match m {
            Some(x) => if x <= 0x7FFF_FFFF_FFFF_FFFFu64 {
                Some(x as i64)
            } else {
                None
            },
            None => None,
        }
    }
}

/// Reads `v` as `str::parse::<i32>` does.
pub fn parse_i32_chars(v: &Vec<char>) -> (r: Option<i32>)
    ensures
        r is Some <==> (parse_signed(v@) is Some && i32::MIN <= parse_signed(v@)->0 <= i32::MAX),
        r matches Some(x) ==> x == parse_signed(v@)->0,
{
    match parse_i64_chars(v) {
        Some(x) => if i32::MIN as i64 <= x && x <= i32::MAX as i64 {
            Some(x as i32)
        } else {
            None
        },
        None => None,
    }
}

/// Reads `v` as `str::parse::<u64>` does.
pub fn parse_u64_chars(v: &Vec<char>) -> (r: Option<u64>)
    ensures
        r is Some <==> (parse_unsigned(v@) is Some && parse_unsigned(v@)->0 <= u64::MAX),
        r matches Some(x) ==> x == parse_unsigned(v@)->0,
{
    let n = v.len();
    if n > 0 && v[0] == '+' {
        assert(v@.subrange(1, n as int) =~= v@.drop_first());
        let r = parse_u64_digits(v, 1, n);
        proof {
            if r is None && all_digits(v@) {
                assert(!is_digit(v@[0]));
            }
        }
        r
    } else {
        assert(v@.subrange(0, n as int) =~= v@);
        parse_u64_digits(v, 0, n)
    }
}

} // verus!
