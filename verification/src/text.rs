//! Character-level text utilities: trimming, splitting, joining, searching and
//! decimal parsing, each stated over `Seq<char>`.
use vstd::prelude::*;

verus! {

broadcast use vstd::string::group_string_axioms;

// ---------------------------------------------------------------------------
// Conversions between strings and character vectors
// ---------------------------------------------------------------------------

/// Copies the characters of a string slice into a vector.
pub fn chars_of(s: &str) -> (out: Vec<char>)
    ensures
        out@ == s@,
{
    let mut out: Vec<char> = Vec::new();
    for c in it: s.chars()
        invariant
            out@ == it.seq().take(it.index() as int),
            it.seq() == s@,
    {
        out.push(c);
    }
    out
}

/// `String::from_iter` over characters: the string holds exactly the given
/// characters, in order.
#[verifier::external_body]
pub(crate) fn string_from_chars(chars: &Vec<char>) -> (s: String)
    ensures
        s@ == chars@,
{
    chars.iter().collect()
}

/// Converts every character vector of a list into a string.
pub fn strings_from_chars(parts: &Vec<Vec<char>>) -> (out: Vec<String>)
    ensures
        out.len() == parts.len(),
        forall|i: int| 0 <= i < parts.len() ==> #[trigger] out[i]@ == parts[i]@,
{
    let mut out: Vec<String> = Vec::new();
    for i in 0..parts.len()
        invariant
            out.len() == i,
            forall|k: int| 0 <= k < i ==> #[trigger] out[k]@ == parts[k]@,
    {
        out.push(string_from_chars(&parts[i]));
    }
    out
}

/// The views of a list of character vectors.
pub open spec fn views_of(parts: Seq<Vec<char>>) -> Seq<Seq<char>> {
    parts.map_values(|v: Vec<char>| v@)
}

/// The views of a list of strings.
pub open spec fn string_views(parts: Seq<String>) -> Seq<Seq<char>> {
    parts.map_values(|v: String| v@)
}

/// Copies the characters of each string of a list.
pub fn chars_of_all(parts: &Vec<String>) -> (out: Vec<Vec<char>>)
    ensures
        views_of(out@) == string_views(parts@),
{
    let mut out: Vec<Vec<char>> = Vec::new();
    for i in 0..parts.len()
        invariant
            out.len() == i,
            forall|k: int| 0 <= k < i ==> #[trigger] out[k]@ == parts[k]@,
    {
        out.push(chars_of(parts[i].as_str()));
    }
    assert(views_of(out@) =~= string_views(parts@));
    out
}

/// Character-wise equality of two vectors.
pub fn chars_eq(a: &Vec<char>, b: &Vec<char>) -> (eq: bool)
    ensures
        eq == (a@ == b@),
{
    if a.len() != b.len() {
        return false;
    }
    for i in 0..a.len()
        invariant
            a.len() == b.len(),
            forall|k: int| 0 <= k < i ==> a@[k] == b@[k],
    {
        if a[i] != b[i] {
            return false;
        }
    }
    assert(a@ =~= b@);
    true
}

/// Character-wise equality of two strings.
pub fn text_eq(a: &str, b: &str) -> (eq: bool)
    ensures
        eq == (a@ == b@),
{
    let x = chars_of(a);
    let y = chars_of(b);
    chars_eq(&x, &y)
}

// ---------------------------------------------------------------------------
// Whitespace and trimming
// ---------------------------------------------------------------------------

/// The Unicode `White_Space` characters, which `char::is_whitespace` accepts.
pub open spec fn is_white_space(c: char) -> bool {
    let u = c as u32;
    ||| 0x09 <= u <= 0x0d
    ||| u == 0x20
    ||| u == 0x85
    ||| u == 0xa0
    ||| u == 0x1680
    ||| 0x2000 <= u <= 0x200a
    ||| u == 0x2028
    ||| u == 0x2029
    ||| u == 0x202f
    ||| u == 0x205f
    ||| u == 0x3000
}

/// Decides `is_white_space`.
pub fn is_white_space_char(c: char) -> (b: bool)
    ensures
        b == is_white_space(c),
{
    let u = c as u32;
    (0x09 <= u && u <= 0x0d) || u == 0x20 || u == 0x85 || u == 0xa0 || u == 0x1680 || (0x2000
        <= u && u <= 0x200a) || u == 0x2028 || u == 0x2029 || u == 0x202f || u == 0x205f || u
        == 0x3000
}

/// The text with its leading white space removed.
pub open spec fn trim_start_spec(s: Seq<char>) -> Seq<char>
    decreases s.len(),
{
    if s.len() > 0 && is_white_space(s[0]) {
        trim_start_spec(s.drop_first())
    } else {
        s
    }
}

/// The text with its trailing white space removed.
pub open spec fn trim_end_spec(s: Seq<char>) -> Seq<char>
    decreases s.len(),
{
    if s.len() > 0 && is_white_space(s.last()) {
        trim_end_spec(s.drop_last())
    } else {
        s
    }
}

/// The text with leading and trailing white space removed (`str::trim`).
pub open spec fn trim_spec(s: Seq<char>) -> Seq<char> {
    trim_end_spec(trim_start_spec(s))
}

/// Removes leading and trailing white space.
pub fn trim_chars(s: &Vec<char>) -> (out: Vec<char>)
    ensures
        out@ == trim_spec(s@),
{
    let n = s.len();
    let mut a: usize = 0;
    assert(s@.subrange(0, n as int) =~= s@);
    while a < n && is_white_space_char(s[a])
        invariant
            a <= n,
            n == s.len(),
            trim_start_spec(s@) == trim_start_spec(s@.subrange(a as int, n as int)),
        decreases n - a,
    {
        assert(s@.subrange(a as int, n as int).drop_first() =~= s@.subrange(
            a as int + 1,
            n as int,
        ));
        a = a + 1;
    }
    let mut b: usize = n;
    while b > a && is_white_space_char(s[b - 1])
        invariant
            a <= b <= n,
            n == s.len(),
            trim_spec(s@) == trim_end_spec(s@.subrange(a as int, b as int)),
        decreases b,
    {
        assert(s@.subrange(a as int, b as int).drop_last() =~= s@.subrange(
            a as int,
            b as int - 1,
        ));
        b = b - 1;
    }
    let mut out: Vec<char> = Vec::new();
    let mut k: usize = a;
    while k < b
        invariant
            a <= k <= b <= n,
            n == s.len(),
            out@ == s@.subrange(a as int, k as int),
        decreases b - k,
    {
        out.push(s[k]);
        k = k + 1;
    }
    out
}

// ---------------------------------------------------------------------------
// Character removal
// ---------------------------------------------------------------------------

/// Characters that cleaned text never keeps: tab, space and asterisk.
pub open spec fn is_dropped_mark(c: char) -> bool {
    c == '\t' || c == ' ' || c == '*'
}

/// The text without tabs, spaces and asterisks.
pub open spec fn drop_marks_spec(s: Seq<char>) -> Seq<char> {
    s.filter(|c: char| !is_dropped_mark(c))
}

/// Removes every tab, space and asterisk.
pub fn drop_marks(s: &Vec<char>) -> (out: Vec<char>)
    ensures
        out@ == drop_marks_spec(s@),
{
    let mut out: Vec<char> = Vec::new();
    for i in 0..s.len()
        invariant
            out@ == drop_marks_spec(s@.take(i as int)),
    {
        proof {
            reveal_with_fuel(Seq::filter, 1);
            assert(s@.take(i as int + 1).drop_last() =~= s@.take(i as int));
        }
        let c = s[i];
        if !(c == '\t' || c == ' ' || c == '*') {
            out.push(c);
        }
    }
    assert(s@.take(s.len() as int) =~= s@);
    out
}

// ---------------------------------------------------------------------------
// Searching
// ---------------------------------------------------------------------------

/// `p` occurs in `s` at position `i`.
pub open spec fn occurs_at(s: Seq<char>, p: Seq<char>, i: int) -> bool {
    0 <= i && i + p.len() <= s.len() && s.subrange(i, i + p.len()) == p
}

/// The leftmost position at or after `i` at which `p` occurs in `s`.
pub open spec fn find_from(s: Seq<char>, p: Seq<char>, i: int) -> Option<int>
    decreases s.len() - i,
{
    if i < 0 || i + p.len() > s.len() {
        None
    } else if occurs_at(s, p, i) {
        Some(i)
    } else if i >= s.len() {
        None
    } else {
        find_from(s, p, i + 1)
    }
}

/// A found position is an occurrence, and no earlier one exists.
pub proof fn lemma_find_from(s: Seq<char>, p: Seq<char>, i: int)
    requires
        0 <= i,
    ensures
        find_from(s, p, i) matches Some(j) ==> i <= j && occurs_at(s, p, j) && forall|k: int|
            i <= k < j ==> !occurs_at(s, p, k),
        find_from(s, p, i) is None ==> forall|k: int| i <= k ==> !occurs_at(s, p, k),
    decreases s.len() - i,
{
    if i < 0 || i + p.len() > s.len() {
    } else if occurs_at(s, p, i) {
    } else if i >= s.len() {
        assert forall|k: int| i <= k implies !occurs_at(s, p, k) by {
            if k > i {
            }
        }
    } else {
        lemma_find_from(s, p, i + 1);
        if find_from(s, p, i) is None {
            assert forall|k: int| i <= k implies !occurs_at(s, p, k) by {
                if k == i {
                } else {
                }
            }
        }
    }
}

/// Decides whether `p` occurs in `s` at position `i`.
pub fn matches_at(s: &Vec<char>, p: &Vec<char>, i: usize) -> (b: bool)
    ensures
        b == occurs_at(s@, p@, i as int),
{
    if i > s.len() || p.len() > s.len() - i {
        return false;
    }
    for k in 0..p.len()
        invariant
            i + p.len() <= s.len(),
            forall|j: int| 0 <= j < k ==> s@[i + j] == p@[j],
    {
        if s[i + k] != p[k] {
            assert(s@.subrange(i as int, i + p.len())[k as int] != p@[k as int]);
            return false;
        }
    }
    assert(s@.subrange(i as int, i + p.len()) =~= p@);
    true
}

/// Finds the leftmost occurrence of `p` in `s` at or after `from`.
pub fn find_pattern(s: &Vec<char>, p: &Vec<char>, from: usize) -> (r: Option<usize>)
    ensures
        r matches Some(j) ==> find_from(s@, p@, from as int) == Some(j as int),
        r is None ==> find_from(s@, p@, from as int) is None,
{
    let mut i = from;
    if i > s.len() {
        return None;
    }
    loop
        invariant
            from <= i <= s.len(),
            find_from(s@, p@, from as int) == find_from(s@, p@, i as int),
        decreases s.len() - i,
    {
        if matches_at(s, p, i) {
            return Some(i);
        }
        if i == s.len() || p.len() > s.len() - i {
            return None;
        }
        i = i + 1;
    }
}

/// `p` occurs somewhere in `s` (`str::contains`).
pub open spec fn contains_spec(s: Seq<char>, p: Seq<char>) -> bool {
    find_from(s, p, 0) is Some
}

/// Decides `contains_spec`.
pub fn contains_chars(s: &Vec<char>, p: &Vec<char>) -> (b: bool)
    ensures
        b == contains_spec(s@, p@),
        b <==> exists|k: int| occurs_at(s@, p@, k),
{
    proof {
        lemma_find_from(s@, p@, 0);
    }
    let r = find_pattern(s, p, 0);
    match r {
        Some(j) => {
            assert(occurs_at(s@, p@, j as int));
            true
        },
        None => false,
    }
}

// ---------------------------------------------------------------------------
// Splitting and joining
// ---------------------------------------------------------------------------

/// The pieces of `s` from position `pos` on, cut at each leftmost
/// non-overlapping occurrence of the non-empty separator `p`.
pub open spec fn split_from(s: Seq<char>, p: Seq<char>, pos: int) -> Seq<Seq<char>>
    decreases s.len() - pos,
{
    if pos < 0 || pos > s.len() || p.len() == 0 {
        seq![s.subrange(pos, s.len() as int)]
    } else {
        match find_from(s, p, pos) {
            Some(i) => if pos <= i && i + p.len() <= s.len() {
                seq![s.subrange(pos, i)] + split_from(s, p, i + p.len())
            } else {
                seq![s.subrange(pos, s.len() as int)]
            },
            None => seq![s.subrange(pos, s.len() as int)],
        }
    }
}

/// The pieces of `s` split by the empty separator: an empty piece, each
/// character on its own, and another empty piece.
pub open spec fn split_empty(s: Seq<char>) -> Seq<Seq<char>> {
    seq![Seq::<char>::empty()] + s.map_values(|c: char| seq![c]) + seq![Seq::<char>::empty()]
}

/// `str::split` with a string separator.
pub open spec fn split_spec(s: Seq<char>, p: Seq<char>) -> Seq<Seq<char>> {
    if p.len() == 0 {
        split_empty(s)
    } else {
        split_from(s, p, 0)
    }
}

/// The pieces joined with `sep` between consecutive pieces (`[String]::join`).
pub open spec fn join_spec(parts: Seq<Seq<char>>, sep: Seq<char>) -> Seq<char>
    decreases parts.len(),
{
    if parts.len() == 0 {
        Seq::empty()
    } else if parts.len() == 1 {
        parts[0]
    } else {
        join_spec(parts.drop_last(), sep) + sep + parts.last()
    }
}

/// Splits `s` by the separator `p`.
pub fn split_chars(s: &Vec<char>, p: &Vec<char>) -> (out: Vec<Vec<char>>)
    ensures
        views_of(out@) == split_spec(s@, p@),
{
    let n = s.len();
    let mut out: Vec<Vec<char>> = Vec::new();
    if p.len() == 0 {
        out.push(Vec::new());
        for i in 0..n
            invariant
                n == s.len(),
                out.len() == i + 1,
                out[0]@ == Seq::<char>::empty(),
                forall|k: int| 0 <= k < i ==> #[trigger] out[k + 1]@ == seq![s@[k]],
        {
            let mut one: Vec<char> = Vec::new();
            one.push(s[i]);
            out.push(one);
        }
        out.push(Vec::new());
        assert forall|j: int| 1 <= j <= n implies views_of(out@)[j] == split_empty(s@)[j] by {
            let k = j - 1;
            assert(out[k + 1]@ == seq![s@[k]]);
        }
        assert(views_of(out@) =~= split_empty(s@));
        return out;
    }
    let mut pos: usize = 0;
    loop
        invariant
            n == s.len(),
            p.len() > 0,
            pos <= n,
            views_of(out@) + split_from(s@, p@, pos as int) == split_from(s@, p@, 0),
        decreases n - pos,
    {
        proof {
            lemma_find_from(s@, p@, pos as int);
        }
        match find_pattern(s, p, pos) {
            Some(i) => {
                let mut piece: Vec<char> = Vec::new();
                let mut k = pos;
                while k < i
                    invariant
                        pos <= k <= i,
                        i <= n,
                        n == s.len(),
                        piece@ == s@.subrange(pos as int, k as int),
                    decreases i - k,
                {
                    piece.push(s[k]);
                    k = k + 1;
                }
                let ghost before = views_of(out@);
                out.push(piece);
                assert(views_of(out@) =~= before + seq![s@.subrange(pos as int, i as int)]);
                assert(split_from(s@, p@, pos as int) == seq![s@.subrange(pos as int, i as int)]
                    + split_from(s@, p@, i + p.len()));
                assert(views_of(out@) + split_from(s@, p@, i + p.len()) =~= before
                    + split_from(s@, p@, pos as int));
                pos = i + p.len();
            },
            None => {
                let mut piece: Vec<char> = Vec::new();
                let mut k = pos;
                while k < n
                    invariant
                        pos <= k <= n,
                        n == s.len(),
                        piece@ == s@.subrange(pos as int, k as int),
                    decreases n - k,
                {
                    piece.push(s[k]);
                    k = k + 1;
                }
                let ghost before = views_of(out@);
                out.push(piece);
                assert(views_of(out@) =~= before + split_from(s@, p@, pos as int));
                return out;
            },
        }
    }
}

/// Joins the pieces with `sep` between consecutive pieces.
pub fn join_chars(parts: &Vec<Vec<char>>, sep: &Vec<char>) -> (out: Vec<char>)
    ensures
        out@ == join_spec(views_of(parts@), sep@),
{
    let mut out: Vec<char> = Vec::new();
    for i in 0..parts.len()
        invariant
            out@ == join_spec(views_of(parts@).take(i as int), sep@),
    {
        assert(views_of(parts@).take(i as int + 1).drop_last() =~= views_of(parts@).take(
            i as int,
        ));
        if i > 0 {
            for k in 0..sep.len()
                invariant
                    out@ == join_spec(views_of(parts@).take(i as int), sep@) + sep@.take(
                        k as int,
                    ),
            {
                assert(sep@.take(k as int + 1) =~= sep@.take(k as int).push(sep@[k as int]));
                out.push(sep[k]);
            }
            assert(sep@.take(sep.len() as int) =~= sep@);
        }
        let ghost mid = out@;
        let part: &Vec<char> = &parts[i];
        for k in 0..part.len()
            invariant
                out@ == mid + part@.take(k as int),
        {
            assert(part@.take(k as int + 1) =~= part@.take(k as int).push(part@[k as int]));
            out.push(part[k]);
        }
        assert(part@.take(part.len() as int) =~= part@);
        assert(views_of(parts@).take(i as int + 1).last() == parts[i as int]@);
        if i == 0 {
            assert(mid =~= Seq::<char>::empty());
            assert(out@ =~= join_spec(views_of(parts@).take(1), sep@));
        }
    }
    assert(views_of(parts@).take(parts.len() as int) =~= views_of(parts@));
    out
}

/// Joining `seq![x] + rest` puts `x` and a separator before the join of `rest`.
pub proof fn lemma_join_prepend(x: Seq<char>, rest: Seq<Seq<char>>, sep: Seq<char>)
    requires
        rest.len() >= 1,
    ensures
        join_spec(seq![x] + rest, sep) == x + sep + join_spec(rest, sep),
    decreases rest.len(),
{
    let all = seq![x] + rest;
    if rest.len() == 1 {
        assert(all.drop_last() =~= seq![x]);
        assert(join_spec(all.drop_last(), sep) == x);
        assert(all.last() == rest[0]);
        assert(join_spec(all, sep) =~= x + sep + join_spec(rest, sep));
    } else {
        assert(all.drop_last() =~= seq![x] + rest.drop_last());
        lemma_join_prepend(x, rest.drop_last(), sep);
        assert(join_spec(all, sep) =~= x + sep + join_spec(rest, sep));
    }
}

/// Splitting from any position yields at least one piece.
pub proof fn lemma_split_from_nonempty(s: Seq<char>, p: Seq<char>, pos: int)
    ensures
        split_from(s, p, pos).len() >= 1,
    decreases s.len() - pos,
{
    if pos < 0 || pos > s.len() || p.len() == 0 {
    } else {
        match find_from(s, p, pos) {
            Some(i) => if pos <= i && i + p.len() <= s.len() {
                lemma_split_from_nonempty(s, p, i + p.len());
            },
            None => {},
        }
    }
}

/// Joining the pieces split off from `pos` gives back the text from `pos` on.
pub proof fn lemma_join_split_from(s: Seq<char>, p: Seq<char>, pos: int)
    requires
        p.len() > 0,
        0 <= pos <= s.len(),
    ensures
        join_spec(split_from(s, p, pos), p) == s.subrange(pos, s.len() as int),
    decreases s.len() - pos,
{
    lemma_find_from(s, p, pos);
    match find_from(s, p, pos) {
        Some(i) => {
            let rest = split_from(s, p, i + p.len());
            lemma_split_from_nonempty(s, p, i + p.len());
            lemma_join_split_from(s, p, i + p.len());
            lemma_join_prepend(s.subrange(pos, i), rest, p);
            assert(s.subrange(i, i + p.len()) == p);
            assert(s.subrange(pos, i) + p + s.subrange(i + p.len(), s.len() as int)
                =~= s.subrange(pos, s.len() as int));
        },
        None => {},
    }
}

/// Joining one-character pieces with the empty separator gives the text back.
pub proof fn lemma_join_singles(s: Seq<char>)
    ensures
        join_spec(s.map_values(|c: char| seq![c]), Seq::empty()) == s,
    decreases s.len(),
{
    let m = s.map_values(|c: char| seq![c]);
    if s.len() == 0 {
    } else if s.len() == 1 {
        assert(m[0] =~= s);
    } else {
        lemma_join_singles(s.drop_last());
        assert(m.drop_last() =~= s.drop_last().map_values(|c: char| seq![c]));
        assert(join_spec(m, Seq::empty()) =~= s);
    }
}

/// Joining the pieces of a split with the same separator gives back the
/// original text: `join(split(s, p), p) == s`, for every text and separator.
pub proof fn law_join_split(s: Seq<char>, p: Seq<char>)
    ensures
        join_spec(split_spec(s, p), p) == s,
{
    if p.len() == 0 {
        let e = Seq::<char>::empty();
        let m = s.map_values(|c: char| seq![c]);
        let front = seq![e] + m;
        assert(split_empty(s) =~= front + seq![e]);
        assert((front + seq![e]).drop_last() =~= front);
        lemma_join_singles(s);
        if m.len() == 0 {
            assert(front =~= seq![e]);
        } else {
            lemma_join_prepend(e, m, p);
            assert(e + p + join_spec(m, p) =~= join_spec(m, p));
        }
        assert(join_spec(front, p) + p + e =~= join_spec(front, p));
    } else {
        lemma_join_split_from(s, p, 0);
        assert(s.subrange(0, s.len() as int) =~= s);
    }
}

/// No piece split off from `pos` holds the separator.
pub proof fn lemma_split_from_avoids(s: Seq<char>, p: Seq<char>, pos: int)
    requires
        p.len() > 0,
        0 <= pos <= s.len(),
    ensures
        forall|j: int, k: int|
            0 <= j < split_from(s, p, pos).len() ==> !#[trigger] occurs_at(
                split_from(s, p, pos)[j],
                p,
                k,
            ),
    decreases s.len() - pos,
{
    lemma_find_from(s, p, pos);
    match find_from(s, p, pos) {
        Some(i) => {
            let piece = s.subrange(pos, i);
            lemma_split_from_avoids(s, p, i + p.len());
            let rest = split_from(s, p, i + p.len());
            assert forall|k: int| !occurs_at(piece, p, k) by {
                if occurs_at(piece, p, k) {
                    assert(s.subrange(pos + k, pos + k + p.len()) =~= piece.subrange(k, k + p.len()));
                    assert(occurs_at(s, p, pos + k));
                }
            }
            assert forall|j: int, k: int|
                0 <= j < split_from(s, p, pos).len() implies !#[trigger] occurs_at(
                split_from(s, p, pos)[j],
                p,
                k,
            ) by {
                if j > 0 {
                    assert(split_from(s, p, pos)[j] == rest[j - 1]);
                }
            }
        },
        None => {
            let piece = s.subrange(pos, s.len() as int);
            assert forall|k: int| !occurs_at(piece, p, k) by {
                if occurs_at(piece, p, k) {
                    assert(s.subrange(pos + k, pos + k + p.len()) =~= piece.subrange(k, k + p.len()));
                    assert(occurs_at(s, p, pos + k));
                }
            }
        },
    }
}

/// Splitting by a non-empty separator leaves no separator inside any piece.
pub proof fn law_split_pieces_avoid_separator(s: Seq<char>, p: Seq<char>)
    requires
        p.len() > 0,
    ensures
        forall|j: int, k: int|
            0 <= j < split_spec(s, p).len() ==> !#[trigger] occurs_at(split_spec(s, p)[j], p, k),
{
    lemma_split_from_avoids(s, p, 0);
}

/// A trimmed text neither starts nor ends with white space.
pub proof fn law_trim_leaves_no_white_space_at_ends(s: Seq<char>)
    ensures
        trim_spec(s).len() > 0 ==> !is_white_space(trim_spec(s)[0]) && !is_white_space(
            trim_spec(s).last(),
        ),
{
    lemma_trim_start(s);
    lemma_trim_end(trim_start_spec(s));
}

/// Trimming the start leaves a text that is empty or starts with a
/// character other than white space.
pub proof fn lemma_trim_start(s: Seq<char>)
    ensures
        trim_start_spec(s).len() > 0 ==> !is_white_space(trim_start_spec(s)[0]),
    decreases s.len(),
{
    if s.len() > 0 && is_white_space(s[0]) {
        lemma_trim_start(s.drop_first());
    }
}

/// Trimming the end keeps a start that is not white space, and leaves a text
/// that is empty or ends with a character other than white space.
pub proof fn lemma_trim_end(s: Seq<char>)
    ensures
        trim_end_spec(s).len() > 0 ==> !is_white_space(trim_end_spec(s).last()),
        trim_end_spec(s).len() > 0 ==> trim_end_spec(s)[0] == s[0],
    decreases s.len(),
{
    if s.len() > 0 && is_white_space(s.last()) {
        lemma_trim_end(s.drop_last());
    }
}

/// Cleaned text holds no tab, space or asterisk.
pub proof fn law_drop_marks_leaves_none(s: Seq<char>)
    ensures
        forall|i: int|
            0 <= i < drop_marks_spec(s).len() ==> !is_dropped_mark(#[trigger] drop_marks_spec(s)[i]),
{
    assert forall|i: int| 0 <= i < drop_marks_spec(s).len() implies !is_dropped_mark(
        #[trigger] drop_marks_spec(s)[i],
    ) by {
        s.lemma_filter_pred(|c: char| !is_dropped_mark(c), i);
    }
}

/// The number of leftmost non-overlapping occurrences of the non-empty
/// separator `p` in `s` from position `pos` on.
pub open spec fn count_from(s: Seq<char>, p: Seq<char>, pos: int) -> nat
    decreases s.len() - pos,
{
    if pos < 0 || pos > s.len() || p.len() == 0 {
        0
    } else {
        match find_from(s, p, pos) {
            Some(i) => if pos <= i && i + p.len() <= s.len() {
                1 + count_from(s, p, i + p.len())
            } else {
                0
            },
            None => 0,
        }
    }
}

/// The number of leftmost non-overlapping occurrences of `p` in `s`.
pub open spec fn count_occurrences(s: Seq<char>, p: Seq<char>) -> nat {
    count_from(s, p, 0)
}

/// Splitting from `pos` gives one piece more than there are occurrences.
pub proof fn lemma_split_from_count(s: Seq<char>, p: Seq<char>, pos: int)
    ensures
        split_from(s, p, pos).len() == count_from(s, p, pos) + 1,
    decreases s.len() - pos,
{
    if pos < 0 || pos > s.len() || p.len() == 0 {
    } else {
        match find_from(s, p, pos) {
            Some(i) => if pos <= i && i + p.len() <= s.len() {
                lemma_split_from_count(s, p, i + p.len());
            },
            None => {},
        }
    }
}

/// Splitting by a non-empty separator gives one piece more than there are
/// leftmost non-overlapping occurrences of the separator.
pub proof fn law_split_piece_count(s: Seq<char>, p: Seq<char>)
    requires
        p.len() > 0,
    ensures
        split_spec(s, p).len() == count_occurrences(s, p) + 1,
{
    lemma_split_from_count(s, p, 0);
}

/// The leftmost occurrence from `i` on is at `j` when `p` occurs at `j` and
/// nowhere in between.
pub proof fn lemma_find_at(s: Seq<char>, p: Seq<char>, i: int, j: int)
    requires
        0 <= i <= j,
        occurs_at(s, p, j),
        forall|k: int| i <= k < j ==> !occurs_at(s, p, k),
    ensures
        find_from(s, p, i) == Some(j),
    decreases j - i,
{
    if i < j {
        assert(!occurs_at(s, p, i));
        lemma_find_at(s, p, i + 1, j);
    }
}

/// Nothing is found from `i` on when `p` occurs nowhere from `i` on.
pub proof fn lemma_find_none(s: Seq<char>, p: Seq<char>, i: int)
    requires
        0 <= i,
        forall|k: int| i <= k ==> !occurs_at(s, p, k),
    ensures
        find_from(s, p, i) is None,
    decreases s.len() - i,
{
    if i + p.len() > s.len() {
    } else {
        assert(!occurs_at(s, p, i));
        if i < s.len() {
            lemma_find_none(s, p, i + 1);
        }
    }
}

/// A one-character separator occurs exactly where that character stands.
pub proof fn lemma_occurs_single(s: Seq<char>, c: char, k: int)
    ensures
        occurs_at(s, seq![c], k) <==> (0 <= k < s.len() && s[k] == c),
{
    if 0 <= k < s.len() && s[k] == c {
        assert(s.subrange(k, k + 1) =~= seq![c]);
    }
    if occurs_at(s, seq![c], k) {
        assert(s.subrange(k, k + 1)[0] == s[k]);
    }
}

/// A text made of two parts around one separator character that neither
/// part holds splits into exactly those two parts.
pub proof fn law_split_around_separator(a: Seq<char>, c: char, b: Seq<char>)
    requires
        !a.contains(c),
        !b.contains(c),
    ensures
        split_spec(a + seq![c] + b, seq![c]) == seq![a, b],
{
    let s = a + seq![c] + b;
    let p = seq![c];
    let n = a.len() as int;
    assert forall|k: int| 0 <= k < n implies !occurs_at(s, p, k) by {
        lemma_occurs_single(s, c, k);
        assert(s[k] == a[k]);
    }
    lemma_occurs_single(s, c, n);
    lemma_find_at(s, p, 0, n);
    assert forall|k: int| n + 1 <= k implies !occurs_at(s, p, k) by {
        lemma_occurs_single(s, c, k);
        if k < s.len() {
            assert(s[k] == b[k - n - 1]);
        }
    }
    lemma_find_none(s, p, n + 1);
    assert(s.subrange(0, n) =~= a);
    assert(s.subrange(n + 1, s.len() as int) =~= b);
    assert(split_from(s, p, n + 1) == seq![b]);
    assert(split_spec(s, p) =~= seq![a, b]);
}

/// Splits a string by a separator (`str::split`).
pub fn split_string(string: &str, split: &str) -> (out: Vec<String>)
    ensures
        string_views(out@) == split_spec(string@, split@),
{
    let s = chars_of(string);
    let p = chars_of(split);
    let parts = split_chars(&s, &p);
    let out = strings_from_chars(&parts);
    assert(string_views(out@) =~= views_of(parts@));
    out
}

/// Joins strings with a separator between consecutive ones (`[String]::join`).
pub fn join_strings(parts: &Vec<String>, sep: &str) -> (out: String)
    ensures
        out@ == join_spec(string_views(parts@), sep@),
{
    let cs = chars_of_all(parts);
    let sp = chars_of(sep);
    let joined = join_chars(&cs, &sp);
    string_from_chars(&joined)
}

/// Removes leading and trailing white space from a string (`str::trim`).
pub fn trim_string(s: &str) -> (out: String)
    ensures
        out@ == trim_spec(s@),
{
    let cs = chars_of(s);
    let t = trim_chars(&cs);
    string_from_chars(&t)
}

/// Whether `p` occurs in `s` (`str::contains`).
pub fn contains_string(s: &str, p: &str) -> (b: bool)
    ensures
        b == contains_spec(s@, p@),
{
    let a = chars_of(s);
    let b = chars_of(p);
    contains_chars(&a, &b)
}

// ---------------------------------------------------------------------------
// Decimal numbers
// ---------------------------------------------------------------------------

/// An ASCII decimal digit.
pub open spec fn is_ascii_digit(c: char) -> bool {
    '0' as u32 <= c as u32 <= '9' as u32
}

/// Every character is an ASCII decimal digit.
pub open spec fn all_ascii_digits(s: Seq<char>) -> bool {
    forall|i: int| 0 <= i < s.len() ==> is_ascii_digit(#[trigger] s[i])
}

/// The number that a run of ASCII digits denotes in base ten.
pub open spec fn digits_value(s: Seq<char>) -> int
    decreases s.len(),
{
    if s.len() == 0 {
        0
    } else {
        digits_value(s.drop_last()) * 10 + (s.last() as u32 - '0' as u32)
    }
}

/// What `str::parse::<i32>` gives: an optional `+` or `-`, then one or more
/// ASCII digits whose value fits in an `i32`.
pub open spec fn parse_i32_spec(s: Seq<char>) -> Option<i32> {
    let signed = s.len() > 0 && (s[0] == '+' || s[0] == '-');
    let negative = s.len() > 0 && s[0] == '-';
    let body = if signed {
        s.drop_first()
    } else {
        s
    };
    if body.len() > 0 && all_ascii_digits(body) {
        let v = if negative {
            -digits_value(body)
        } else {
            digits_value(body)
        };
        if i32::MIN <= v <= i32::MAX {
            Some(v as i32)
        } else {
            None
        }
    } else {
        None
    }
}

/// A run of digits denotes at least what any of its prefixes denotes.
pub proof fn lemma_digits_value_prefix(s: Seq<char>, k: int)
    requires
        all_ascii_digits(s),
        0 <= k <= s.len(),
    ensures
        0 <= digits_value(s.take(k)) <= digits_value(s),
    decreases s.len(),
{
    if s.len() == 0 {
        assert(s.take(k) =~= s);
    } else if k == s.len() {
        assert(s.take(k) =~= s);
        lemma_digits_value_prefix(s.drop_last(), k - 1);
        assert(s.drop_last().take(k - 1) =~= s.drop_last());
    } else {
        lemma_digits_value_prefix(s.drop_last(), k);
        assert(s.drop_last().take(k) =~= s.take(k));
        assert(all_ascii_digits(s.drop_last()));
        lemma_digits_value_prefix(s.drop_last(), s.len() - 1);
        assert(s.drop_last().take(s.len() - 1) =~= s.drop_last());
    }
}

/// Parses a decimal `i32` as `str::parse::<i32>` does.
pub fn parse_i32_chars(s: &Vec<char>) -> (r: Option<i32>)
    ensures
        r == parse_i32_spec(s@),
{
    let n = s.len();
    if n == 0 {
        return None;
    }
    let mut start: usize = 0;
    let mut negative = false;
    if s[0] == '+' || s[0] == '-' {
        negative = s[0] == '-';
        start = 1;
    }
    let ghost body = s@.subrange(start as int, n as int);
    assert(start == 1 ==> body =~= s@.drop_first());
    assert(start == 0 ==> body =~= s@);
    if start == n {
        return None;
    }
    let mut acc: i64 = 0;
    let mut i: usize = start;
    while i < n
        invariant
            start <= i <= n,
            n == s.len(),
            body == s@.subrange(start as int, n as int),
            all_ascii_digits(s@.subrange(start as int, i as int)),
            acc == digits_value(s@.subrange(start as int, i as int)),
            0 <= acc <= 2147483648,
            n > 0,
            start <= 1,
            start == 1 ==> body == s@.drop_first(),
            start == 0 ==> body == s@,
            (start == 1) == (s@[0] == '+' || s@[0] == '-'),
            negative == (s@[0] == '-'),
        decreases n - i,
    {
        let c = s[i];
        let u = c as u32;
        if !(('0' as u32) <= u && u <= ('9' as u32)) {
            assert(body[i - start] == c);
            return None;
        }
        let next = acc * 10 + ((u - ('0' as u32)) as i64);
        assert(s@.subrange(start as int, i as int + 1).drop_last() =~= s@.subrange(
            start as int,
            i as int,
        ));
        assert(all_ascii_digits(s@.subrange(start as int, i as int + 1)));
        assert(digits_value(s@.subrange(start as int, i as int + 1)) == next);
        if next > 2147483648 {
            proof {
                if all_ascii_digits(body) {
                    lemma_digits_value_prefix(body, i + 1 - start);
                    assert(body.take(i + 1 - start) =~= s@.subrange(start as int, i as int + 1));
                }

            }
            return None;
        }
        acc = next;
        i = i + 1;
    }
    assert(s@.subrange(start as int, n as int) =~= body);
    let v: i64 = if negative {
        -acc
    } else {
        acc
    };
    if v < -2147483648 || v > 2147483647 {
        return None;
    }
    Some(v as i32)
}

/// Parses a decimal `i32` from a string (`str::parse::<i32>`).
pub fn parse_i32(s: &str) -> (r: Option<i32>)
    ensures
        r == parse_i32_spec(s@),
{
    let cs = chars_of(s);
    parse_i32_chars(&cs)
}

} // verus!
