//! Text primitives shared by the gateway rules: Unicode trimming, ASCII
//! case folding, comparison and splitting, all stated over `Seq<char>`.
use vstd::prelude::*;
use vstd::string::*;

verus! {

broadcast use vstd::string::group_string_axioms;

/// The Unicode `White_Space` property, which `char::is_whitespace` and
/// `str::trim` use.
pub open spec fn is_ws(c: char) -> bool {
    ||| ('\u{9}' <= c && c <= '\u{d}')
    ||| c == ' '
    ||| c == '\u{85}'
    ||| c == '\u{a0}'
    ||| c == '\u{1680}'
    ||| ('\u{2000}' <= c && c <= '\u{200a}')
    ||| c == '\u{2028}'
    ||| c == '\u{2029}'
    ||| c == '\u{202f}'
    ||| c == '\u{205f}'
    ||| c == '\u{3000}'
}

/// `s` with its leading whitespace removed.
pub open spec fn trim_start(s: Seq<char>) -> Seq<char>
    decreases s.len(),
{
    if s.len() > 0 && is_ws(s[0]) {
        trim_start(s.drop_first())
    } else {
        s
    }
}

/// `s` with its trailing whitespace removed.
pub open spec fn trim_end(s: Seq<char>) -> Seq<char>
    decreases s.len(),
{
    if s.len() > 0 && is_ws(s.last()) {
        trim_end(s.drop_last())
    } else {
        s
    }
}

/// `s` with leading and trailing whitespace removed, as `str::trim` does.
pub open spec fn trim(s: Seq<char>) -> Seq<char> {
    trim_end(trim_start(s))
}

/// The ASCII lower-case form of one character; other characters are kept.
pub open spec fn lower_char(c: char) -> char {
    if 'A' <= c && c <= 'Z' {
        ((c as u32) + 32) as char
    } else {
        c
    }
}

/// The ASCII lower-case form of a text, as `to_ascii_lowercase` computes it.
pub open spec fn lower(s: Seq<char>) -> Seq<char> {
    s.map_values(|c: char| lower_char(c))
}

/// Whether two texts are equal up to ASCII case, as `eq_ignore_ascii_case` decides.
pub open spec fn eq_ignore_case(a: Seq<char>, b: Seq<char>) -> bool {
    lower(a) == lower(b)
}

/// Whether a character is whitespace.
pub fn char_is_ws(c: char) -> (r: bool)
    ensures
        r == is_ws(c),
{
    ('\u{9}' <= c && c <= '\u{d}') || c == ' ' || c == '\u{85}' || c == '\u{a0}' || c
        == '\u{1680}' || ('\u{2000}' <= c && c <= '\u{200a}') || c == '\u{2028}' || c
        == '\u{2029}' || c == '\u{202f}' || c == '\u{205f}' || c == '\u{3000}'
}

/// The characters of a text.
pub fn chars_of(s: &str) -> (v: Vec<char>)
    ensures
        v@ == s@,
{
    let mut v: Vec<char> = Vec::new();
    for c in it: s.chars()
        invariant
            it.seq() == s@,
            v@ == it.seq().take(it.index() as int),
    {
        v.push(c);
    }
    v
}

proof fn lemma_trim_start_skip(s: Seq<char>, k: int)
    requires
        0 <= k <= s.len(),
        forall|j: int| 0 <= j < k ==> is_ws(#[trigger] s[j]),
    ensures
        trim_start(s) == trim_start(s.subrange(k, s.len() as int)),
    decreases k,
{
    if k > 0 {
        assert(s.drop_first() == s.subrange(1, s.len() as int));
        lemma_trim_start_skip(s.drop_first(), k - 1);
        assert(s.drop_first().subrange(k - 1, s.drop_first().len() as int) == s.subrange(
            k,
            s.len() as int,
        ));
    } else {
        assert(s.subrange(0, s.len() as int) == s);
    }
}

proof fn lemma_trim_end_skip(s: Seq<char>, k: int)
    requires
        0 <= k <= s.len(),
        forall|j: int| k <= j < s.len() ==> is_ws(#[trigger] s[j]),
    ensures
        trim_end(s) == trim_end(s.subrange(0, k)),
    decreases s.len() - k,
{
    if k < s.len() {
        lemma_trim_end_skip(s.drop_last(), k);
        assert(s.drop_last().subrange(0, k) == s.subrange(0, k));
    } else {
        assert(s.subrange(0, k) == s);
    }
}

/// Bounds `(i, j)` such that `s[i..j]` is `s` trimmed.
pub fn trim_bounds(v: &Vec<char>) -> (r: (usize, usize))
    ensures
        r.0 <= r.1 <= v@.len(),
        v@.subrange(r.0 as int, r.1 as int) == trim(v@),
{
    let n = v.len();
    let mut i: usize = 0;
    while i < n && char_is_ws(v[i])
        invariant
            i <= n,
            n == v@.len(),
            forall|j: int| 0 <= j < i ==> is_ws(#[trigger] v@[j]),
        decreases n - i,
    {
        i = i + 1;
    }
    proof {
        lemma_trim_start_skip(v@, i as int);
        let t = v@.subrange(i as int, n as int);
        if t.len() > 0 {
            assert(t[0] == v@[i as int]);
        }
        assert(trim_start(t) == t);
    }
    let mut j: usize = n;
    while j > i && char_is_ws(v[j - 1])
        invariant
            i <= j <= n,
            n == v@.len(),
            forall|k: int| j <= k < n ==> is_ws(#[trigger] v@[k]),
        decreases j - i,
    {
        j = j - 1;
    }
    proof {
        let t = v@.subrange(i as int, n as int);
        lemma_trim_end_skip(t, (j - i) as int);
        let u = t.subrange(0, (j - i) as int);
        assert(u == v@.subrange(i as int, j as int));
        if u.len() > 0 {
            assert(u.last() == v@[j - 1]);
        }
        assert(trim_end(u) == u);
    }
    (i, j)
}

/// `str::trim`: the part of `s` without leading and trailing whitespace.
pub fn trim_slice<'a>(s: &'a str) -> (r: &'a str)
    ensures
        r@ == trim(s@),
{
    let v = chars_of(s);
    let (i, j) = trim_bounds(&v);
    s.substring_char(i, j)
}

/// `str::trim`, returned as an owned text.
pub fn trim_str(s: &str) -> (r: String)
    ensures
        r@ == trim(s@),
{
    trim_slice(s).to_string()
}

/// Whether two characters are equal up to ASCII case.
pub fn char_eq_ignore_case(a: char, b: char) -> (r: bool)
    ensures
        r == (lower_char(a) == lower_char(b)),
{
    let a_upper = 'A' <= a && a <= 'Z';
    let b_upper = 'A' <= b && b <= 'Z';
    if a_upper == b_upper {
        a == b
    } else if a_upper {
        (a as u32) + 32 == (b as u32)
    } else {
        (b as u32) + 32 == (a as u32)
    }
}

/// `eq_ignore_ascii_case` on two texts.
pub fn str_eq_ignore_case(a: &str, b: &str) -> (r: bool)
    ensures
        r == eq_ignore_case(a@, b@),
{
    let va = chars_of(a);
    let vb = chars_of(b);
    if va.len() != vb.len() {
        assert(lower(a@).len() != lower(b@).len());
        return false;
    }
    let n = va.len();
    let mut i: usize = 0;
    while i < n
        invariant
            i <= n,
            n == va@.len(),
            n == vb@.len(),
            va@ == a@,
            vb@ == b@,
            forall|k: int| 0 <= k < i ==> lower_char(#[trigger] va@[k]) == lower_char(vb@[k]),
        decreases n - i,
    {
        if !char_eq_ignore_case(va[i], vb[i]) {
            assert(lower(a@)[i as int] != lower(b@)[i as int]);
            return false;
        }
        i = i + 1;
    }
    assert(lower(a@) =~= lower(b@));
    true
}

/// Exact equality of two texts.
pub fn str_eq(a: &str, b: &str) -> (r: bool)
    ensures
        r == (a@ == b@),
{
    let va = chars_of(a);
    let vb = chars_of(b);
    if va.len() != vb.len() {
        return false;
    }
    let n = va.len();
    let mut i: usize = 0;
    while i < n
        invariant
            i <= n,
            n == va@.len(),
            n == vb@.len(),
            va@ == a@,
            vb@ == b@,
            forall|k: int| 0 <= k < i ==> #[trigger] va@[k] == vb@[k],
        decreases n - i,
    {
        if va[i] != vb[i] {
            return false;
        }
        i = i + 1;
    }
    assert(a@ =~= b@);
    true
}

/// A possibly absent text, trimmed, where it is present and not blank after trimming.
pub open spec fn opt_trimmed(o: Option<Seq<char>>) -> Option<Seq<char>> {
    match o {
        Some(v) => if trim(v).len() > 0 {
            Some(trim(v))
        } else {
            None
        },
        None => None,
    }
}

/// The view of an optional borrowed text.
pub open spec fn opt_str_view(o: Option<&str>) -> Option<Seq<char>> {
    match o {
        Some(v) => Some(v@),
        None => None,
    }
}

/// The view of an optional owned text.
pub open spec fn opt_string_view(o: Option<String>) -> Option<Seq<char>> {
    match o {
        Some(v) => Some(v@),
        None => None,
    }
}

/// `value.map(str::trim).filter(|v| !v.is_empty()).map(str::to_string)`.
pub fn trimmed_non_empty(value: Option<&str>) -> (r: Option<String>)
    ensures
        opt_string_view(r) == opt_trimmed(opt_str_view(value)),
{
    match value {
        Some(v) => {
            let t = trim_str(v);
            if t.as_str().is_empty() {
                None
            } else {
                Some(t)
            }
        },
        None => None,
    }
}

/// The pieces of `s` between commas, as `str::split(',')` yields them: one
/// piece more than there are commas.
pub open spec fn comma_pieces(s: Seq<char>) -> Seq<Seq<char>>
    decreases s.len(),
{
    if s.len() == 0 {
        seq![Seq::<char>::empty()]
    } else {
        let p = comma_pieces(s.drop_last());
        if s.last() == ',' {
            p.push(Seq::<char>::empty())
        } else {
            p.update(p.len() - 1, p.last().push(s.last()))
        }
    }
}

/// The pieces, each trimmed, without those that are blank.
pub open spec fn trimmed_pieces(p: Seq<Seq<char>>) -> Seq<Seq<char>>
    decreases p.len(),
{
    if p.len() == 0 {
        Seq::<Seq<char>>::empty()
    } else {
        let k = trimmed_pieces(p.drop_last());
        if trim(p.last()).len() > 0 {
            k.push(trim(p.last()))
        } else {
            k
        }
    }
}

/// The pieces joined by a separator.
pub open spec fn join(p: Seq<Seq<char>>, sep: Seq<char>) -> Seq<char>
    decreases p.len(),
{
    if p.len() == 0 {
        Seq::<char>::empty()
    } else if p.len() == 1 {
        p[0]
    } else {
        join(p.drop_last(), sep) + sep + p.last()
    }
}

proof fn lemma_comma_pieces_nonempty(s: Seq<char>)
    ensures
        comma_pieces(s).len() >= 1,
    decreases s.len(),
{
    if s.len() > 0 {
        lemma_comma_pieces_nonempty(s.drop_last());
    }
}

/// The pieces of `s` between commas.
pub fn split_commas(s: &str) -> (r: Vec<String>)
    ensures
        r@.map_values(|x: String| x@) == comma_pieces(s@),
{
    let v = chars_of(s);
    let n = v.len();
    let mut pieces: Vec<String> = Vec::new();
    let mut start: usize = 0;
    let mut i: usize = 0;
    assert(s@.take(0) =~= Seq::<char>::empty());
    assert(pieces@.map_values(|x: String| x@).push(s@.subrange(0, 0)) =~= seq![
        Seq::<char>::empty(),
    ]);
    while i < n
        invariant
            start <= i <= n,
            n == v@.len(),
            v@ == s@,
            pieces@.map_values(|x: String| x@).push(s@.subrange(start as int, i as int))
                == comma_pieces(s@.take(i as int)),
        decreases n - i,
    {
        proof {
            lemma_comma_pieces_nonempty(s@.take(i as int));
            assert(s@.take(i + 1).drop_last() =~= s@.take(i as int));
            assert(s@.take(i + 1).last() == v@[i as int]);
        }
        if v[i] == ',' {
            let ghost before = pieces@.map_values(|x: String| x@);
            let piece = s.substring_char(start, i).to_string();
            pieces.push(piece);
            assert(pieces@.map_values(|x: String| x@) =~= before.push(
                s@.subrange(start as int, i as int),
            ));
            start = i + 1;
            assert(s@.subrange(start as int, (i + 1) as int) =~= Seq::<char>::empty());
            assert(pieces@.map_values(|x: String| x@).push(s@.subrange(start as int, (i + 1) as int))
                =~= comma_pieces(s@.take(i as int)).push(Seq::<char>::empty()));
        } else {
            assert(s@.subrange(start as int, (i + 1) as int) =~= s@.subrange(start as int, i as int).push(v@[i as int]));
            assert(pieces@.map_values(|x: String| x@).push(s@.subrange(start as int, (i + 1) as int))
                =~= comma_pieces(s@.take(i as int)).update(
                    comma_pieces(s@.take(i as int)).len() - 1,
                    s@.subrange(start as int, i as int).push(v@[i as int]),
                ));
        }
        i = i + 1;
    }
    let last = s.substring_char(start, n).to_string();
    pieces.push(last);
    assert(s@.take(n as int) =~= s@);
    assert(pieces@.map_values(|x: String| x@) =~= comma_pieces(s@));
    pieces
}

/// The pieces, each trimmed, without those that are blank.
pub fn trim_pieces(p: &Vec<String>) -> (r: Vec<String>)
    ensures
        r@.map_values(|x: String| x@) == trimmed_pieces(p@.map_values(|x: String| x@)),
{
    let ghost pv = p@.map_values(|x: String| x@);
    let mut out: Vec<String> = Vec::new();
    let mut i: usize = 0;
    while i < p.len()
        invariant
            i <= p@.len(),
            pv == p@.map_values(|x: String| x@),
            out@.map_values(|x: String| x@) == trimmed_pieces(pv.take(i as int)),
        decreases p@.len() - i,
    {
        proof {
            assert(pv.take(i + 1).drop_last() =~= pv.take(i as int));
            assert(pv.take(i + 1).last() == p@[i as int]@);
        }
        let t = trim_str(p[i].as_str());
        if !t.as_str().is_empty() {
            out.push(t);
            assert(out@.map_values(|x: String| x@) =~= trimmed_pieces(pv.take(i as int)).push(
                trim(p@[i as int]@),
            ));
        }
        i = i + 1;
    }
    assert(pv.take(p@.len() as int) =~= pv);
    out
}

/// The pieces joined by a separator.
pub fn join_pieces(p: &Vec<String>, sep: &str) -> (r: String)
    ensures
        r@ == join(p@.map_values(|x: String| x@), sep@),
{
    let ghost pv = p@.map_values(|x: String| x@);
    let mut out = String::new();
    let mut i: usize = 0;
    while i < p.len()
        invariant
            i <= p@.len(),
            pv == p@.map_values(|x: String| x@),
            out@ == join(pv.take(i as int), sep@),
        decreases p@.len() - i,
    {
        proof {
            assert(pv.take(i + 1).drop_last() =~= pv.take(i as int));
            assert(pv.take(i + 1).last() == p@[i as int]@);
        }
        if i > 0 {
            out.append(sep);
        } else {
            assert(out@ =~= Seq::<char>::empty());
        }
        out.append(p[i].as_str());
        proof {
            if i == 0 {
                assert(out@ =~= pv.take(1)[0]);
            }
        }
        i = i + 1;
    }
    assert(pv.take(p@.len() as int) =~= pv);
    out
}

/// The decimal digit that stands for `d`.
pub open spec fn digit_char(d: nat) -> char {
    if d == 0 {
        '0'
    } else if d == 1 {
        '1'
    } else if d == 2 {
        '2'
    } else if d == 3 {
        '3'
    } else if d == 4 {
        '4'
    } else if d == 5 {
        '5'
    } else if d == 6 {
        '6'
    } else if d == 7 {
        '7'
    } else if d == 8 {
        '8'
    } else {
        '9'
    }
}

/// The decimal digits of a natural number, without leading zeros.
pub open spec fn decimal_digits(n: nat) -> Seq<char>
    decreases n,
{
    if n < 10 {
        seq![digit_char(n)]
    } else {
        decimal_digits(n / 10).push(digit_char(n % 10))
    }
}

/// The decimal form of an integer, as `Display` writes it for the integer types.
pub open spec fn decimal(v: int) -> Seq<char> {
    if v < 0 {
        seq!['-'] + decimal_digits((-v) as nat)
    } else {
        decimal_digits(v as nat)
    }
}

fn digit_text(d: u64) -> (r: &'static str)
    requires
        d < 10,
    ensures
        r@ == seq![digit_char(d as nat)],
{
    if d == 0 {
        proof { reveal_strlit("0"); }
        "0"
    } else if d == 1 {
        proof { reveal_strlit("1"); }
        "1"
    } else if d == 2 {
        proof { reveal_strlit("2"); }
        "2"
    } else if d == 3 {
        proof { reveal_strlit("3"); }
        "3"
    } else if d == 4 {
        proof { reveal_strlit("4"); }
        "4"
    } else if d == 5 {
        proof { reveal_strlit("5"); }
        "5"
    } else if d == 6 {
        proof { reveal_strlit("6"); }
        "6"
    } else if d == 7 {
        proof { reveal_strlit("7"); }
        "7"
    } else if d == 8 {
        proof { reveal_strlit("8"); }
        "8"
    } else {
        proof { reveal_strlit("9"); }
        "9"
    }
}

/// The decimal digits of `n`.
pub fn decimal_digits_text(n: u64) -> (r: String)
    ensures
        r@ == decimal_digits(n as nat),
    decreases n,
{
    if n < 10 {
        digit_text(n).to_string()
    } else {
        let mut s = decimal_digits_text(n / 10);
        s.append(digit_text(n % 10));
        s
    }
}

/// The decimal form of `v`.
pub fn decimal_text(v: i64) -> (r: String)
    ensures
        r@ == decimal(v as int),
{
    if v < 0 {
        let magnitude: u64 = if v == i64::MIN {
            9223372036854775808u64
        } else {
            (-v) as u64
        };
        let mut s = "-".to_string();
        proof { reveal_strlit("-"); }
        s.append(decimal_digits_text(magnitude).as_str());
        s
    } else {
        decimal_digits_text(v as u64)
    }
}

proof fn lemma_trim_start_front(s: Seq<char>)
    ensures
        trim_start(s).len() > 0 ==> !is_ws(trim_start(s)[0]),
        trim_start(s).len() <= s.len(),
        trim_start(s) == s.subrange(s.len() - trim_start(s).len(), s.len() as int),
    decreases s.len(),
{
    if s.len() > 0 && is_ws(s[0]) {
        lemma_trim_start_front(s.drop_first());
        let t = trim_start(s.drop_first());
        assert(s.drop_first().subrange(s.drop_first().len() - t.len(), s.drop_first().len() as int)
            =~= s.subrange(s.len() - t.len(), s.len() as int));
    } else {
        assert(s.subrange(0, s.len() as int) =~= s);
    }
}

proof fn lemma_trim_end_back(s: Seq<char>)
    ensures
        trim_end(s).len() > 0 ==> !is_ws(trim_end(s).last()),
        trim_end(s).len() <= s.len(),
        trim_end(s) == s.take(trim_end(s).len() as int),
    decreases s.len(),
{
    if s.len() > 0 && is_ws(s.last()) {
        lemma_trim_end_back(s.drop_last());
        let t = trim_end(s.drop_last());
        assert(s.drop_last().take(t.len() as int) =~= s.take(t.len() as int));
    } else {
        assert(s.take(s.len() as int) =~= s);
    }
}

/// Trimming a trimmed text changes nothing.
pub proof fn lemma_trim_idempotent(s: Seq<char>)
    ensures
        trim(trim(s)) == trim(s),
{
    let a = trim_start(s);
    lemma_trim_start_front(s);
    let t = trim_end(a);
    lemma_trim_end_back(a);
    if t.len() > 0 {
        assert(t[0] == a[0]);
        assert(trim_start(t) == t);
    } else {
        assert(trim_start(t) == t);
    }
    assert(trim_end(t) == t);
}


/// Whether a text holds no comma.
pub open spec fn comma_free(x: Seq<char>) -> bool {
    forall|i: int| 0 <= i < x.len() ==> x[i] != ','
}

proof fn lemma_trim_start_comma_free(x: Seq<char>)
    requires
        comma_free(x),
    ensures
        comma_free(trim_start(x)),
    decreases x.len(),
{
    if x.len() > 0 && is_ws(x[0]) {
        lemma_trim_start_comma_free(x.drop_first());
    }
}

proof fn lemma_trim_end_comma_free(x: Seq<char>)
    requires
        comma_free(x),
    ensures
        comma_free(trim_end(x)),
    decreases x.len(),
{
    if x.len() > 0 && is_ws(x.last()) {
        lemma_trim_end_comma_free(x.drop_last());
    }
}

/// Trimming keeps a text free of commas.
pub(crate) proof fn lemma_trim_comma_free(x: Seq<char>)
    requires
        comma_free(x),
    ensures
        comma_free(trim(x)),
{
    lemma_trim_start_comma_free(x);
    lemma_trim_end_comma_free(trim_start(x));
}

/// No piece between commas holds a comma.
pub(crate) proof fn lemma_comma_pieces_comma_free(s: Seq<char>)
    ensures
        forall|i: int| 0 <= i < comma_pieces(s).len() ==> comma_free(#[trigger] comma_pieces(s)[i]),
    decreases s.len(),
{
    if s.len() > 0 {
        lemma_comma_pieces_comma_free(s.drop_last());
        lemma_comma_pieces_nonempty(s.drop_last());
    }
}

/// A text without commas is one piece.
proof fn lemma_comma_pieces_single(x: Seq<char>)
    requires
        comma_free(x),
    ensures
        comma_pieces(x) == seq![x],
    decreases x.len(),
{
    if x.len() > 0 {
        lemma_comma_pieces_single(x.drop_last());
        assert(x[x.len() - 1] != ',');
        assert(x.drop_last().push(x.last()) =~= x);
        assert(seq![x.drop_last()].update(0, x.drop_last().push(x.last())) =~= seq![x]);
    } else {
        assert(x =~= Seq::<char>::empty());
    }
}

/// A comma followed by a text without commas adds that text as one more piece.
proof fn lemma_comma_pieces_append(s: Seq<char>, x: Seq<char>)
    requires
        comma_free(x),
    ensures
        comma_pieces(s + seq![','] + x) == comma_pieces(s).push(x),
    decreases x.len(),
{
    let w = s + seq![','] + x;
    if x.len() == 0 {
        assert(w.drop_last() =~= s);
        assert(w.last() == ',');
        assert(x =~= Seq::<char>::empty());
    } else {
        assert(x[x.len() - 1] != ',');
        lemma_comma_pieces_append(s, x.drop_last());
        assert(w.drop_last() =~= s + seq![','] + x.drop_last());
        assert(w.last() == x.last());
        assert(x.drop_last().push(x.last()) =~= x);
        assert(comma_pieces(w) =~= comma_pieces(s).push(x));
    }
}

/// Pieces without commas, joined by commas, split back into themselves.
pub(crate) proof fn lemma_comma_pieces_of_join(p: Seq<Seq<char>>)
    requires
        p.len() >= 1,
        forall|i: int| 0 <= i < p.len() ==> comma_free(#[trigger] p[i]),
    ensures
        comma_pieces(join(p, ","@)) == p,
    decreases p.len(),
{
    reveal_strlit(",");
    if p.len() == 1 {
        lemma_comma_pieces_single(p[0]);
        assert(seq![p[0]] =~= p);
    } else {
        let q = p.drop_last();
        lemma_comma_pieces_of_join(q);
        assert(comma_free(p.last()));
        lemma_comma_pieces_append(join(q, ","@), p.last());
        assert(","@ =~= seq![',']);
        assert(q.push(p.last()) =~= p);
    }
}

/// Every kept piece is trimmed and not blank, and holds no comma where the
/// pieces held none.
pub(crate) proof fn lemma_trimmed_pieces_shape(p: Seq<Seq<char>>)
    requires
        forall|i: int| 0 <= i < p.len() ==> comma_free(#[trigger] p[i]),
    ensures
        forall|i: int|
            0 <= i < trimmed_pieces(p).len() ==> {
                &&& comma_free(#[trigger] trimmed_pieces(p)[i])
                &&& trimmed_pieces(p)[i].len() > 0
                &&& trim(trimmed_pieces(p)[i]) == trimmed_pieces(p)[i]
            },
    decreases p.len(),
{
    if p.len() > 0 {
        let q = p.drop_last();
        assert forall|i: int| 0 <= i < q.len() implies comma_free(#[trigger] q[i]) by {
            assert(q[i] == p[i]);
        }
        lemma_trimmed_pieces_shape(q);
        assert(comma_free(p.last()));
        lemma_trim_comma_free(p.last());
        lemma_trim_idempotent(p.last());
        let k = trimmed_pieces(q);
        let r = trimmed_pieces(p);
        assert forall|i: int| 0 <= i < r.len() implies {
            &&& comma_free(#[trigger] r[i])
            &&& r[i].len() > 0
            &&& trim(r[i]) == r[i]
        } by {
            if i < k.len() {
                assert(r[i] == k[i]);
            }
        }
    }
}

/// Pieces that are trimmed and not blank are kept as they are.
pub(crate) proof fn lemma_trimmed_pieces_fixed(p: Seq<Seq<char>>)
    requires
        forall|i: int| 0 <= i < p.len() ==> (#[trigger] p[i]).len() > 0 && trim(p[i]) == p[i],
    ensures
        trimmed_pieces(p) == p,
    decreases p.len(),
{
    if p.len() > 0 {
        let q = p.drop_last();
        assert forall|i: int| 0 <= i < q.len() implies (#[trigger] q[i]).len() > 0 && trim(q[i]) == q[i] by {
            assert(q[i] == p[i]);
        }
        lemma_trimmed_pieces_fixed(q);
        assert(q.push(p.last()) =~= p);
    }
}

} // verus!
