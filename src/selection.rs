//! Reading which of the listed hits the user chose: whitespace-separated
//! tokens, each a 1-based position `n` or an inclusive range `a-b`.
use vstd::prelude::*;

use crate::text::{find_char, find_only, is_only};

verus! {

/// The characters that separate tokens: those with the Unicode White_Space
/// property.
pub open spec fn is_blank(c: char) -> bool {
    ||| '\t' <= c && c <= '\r'
    ||| c == ' '
    ||| c == '\u{85}'
    ||| c == '\u{a0}'
    ||| c == '\u{1680}'
    ||| '\u{2000}' <= c && c <= '\u{200a}'
    ||| c == '\u{2028}'
    ||| c == '\u{2029}'
    ||| c == '\u{202f}'
    ||| c == '\u{205f}'
    ||| c == '\u{3000}'
}

/// Whether `c` separates tokens.
fn blank(c: char) -> (r: bool)
    ensures
        r == is_blank(c),
{
    ('\t' <= c && c <= '\r') || c == ' ' || c == '\u{85}' || c == '\u{a0}' || c == '\u{1680}'
        || ('\u{2000}' <= c && c <= '\u{200a}') || c == '\u{2028}' || c == '\u{2029}' || c
        == '\u{202f}' || c == '\u{205f}' || c == '\u{3000}'
}

/// The maximal runs of non-blank characters of `s`, in order.
pub open spec fn words(s: Seq<char>) -> Seq<Seq<char>>
    decreases s.len(),
{
    if s.len() == 0 {
        Seq::empty()
    } else {
        let w = words(s.drop_last());
        let c = s.last();
        if is_blank(c) {
            w
        } else if s.len() == 1 || is_blank(s[s.len() - 2]) {
            w.push(seq![c])
        } else {
            w.update(w.len() - 1, w.last().push(c))
        }
    }
}

pub open spec fn is_digit(c: char) -> bool {
    '0' <= c && c <= '9'
}

/// The number that the decimal digits `t` write.
pub open spec fn digits_value(t: Seq<char>) -> nat
    decreases t.len(),
{
    if t.len() == 0 {
        0
    } else {
        digits_value(t.drop_last()) * 10 + ((t.last() as int - '0' as int) as nat)
    }
}

/// `t` is a nonempty run of decimal digits that writes a positive number
/// fitting a `usize`.
pub open spec fn is_number(t: Seq<char>) -> bool {
    &&& t.len() > 0
    &&& forall|i: int| 0 <= i < t.len() ==> is_digit(t[i])
    &&& 1 <= digits_value(t) <= usize::MAX
}

/// Why a selection was refused, over mathematical values.
pub enum SelectionFault {
    /// A token with more than one `-`.
    Token(Seq<char>),
    /// A token whose position, or one of whose range bounds, is no number.
    Number(Seq<char>),
    /// A chosen position outside `1..=total`, and the total.
    OutOfBounds(int, int),
}

/// The inclusive range of 1-based positions that one token names: `n` names
/// `n..=n`, `a-b` names `a..=b` (nothing where `a > b`).
pub open spec fn token_range(t: Seq<char>) -> Result<(int, int), SelectionFault> {
    if forall|j: int| 0 <= j < t.len() ==> t[j] != '-' {
        if is_number(t) {
            Ok((digits_value(t) as int, digits_value(t) as int))
        } else {
            Err(SelectionFault::Number(t))
        }
    } else if exists|k: int| is_only(t, '-', k) {
        let k = choose|k: int| is_only(t, '-', k);
        if is_number(t.take(k)) && is_number(t.skip(k + 1)) {
            Ok((digits_value(t.take(k)) as int, digits_value(t.skip(k + 1)) as int))
        } else {
            Err(SelectionFault::Number(t))
        }
    } else {
        Err(SelectionFault::Token(t))
    }
}

/// The ranges of all tokens in order, or the fault of the first bad token.
pub open spec fn token_ranges(toks: Seq<Seq<char>>) -> Result<Seq<(int, int)>, SelectionFault>
    decreases toks.len(),
{
    if toks.len() == 0 {
        Ok(Seq::empty())
    } else {
        match token_ranges(toks.drop_last()) {
            Err(f) => Err(f),
            Ok(rs) => match token_range(toks.last()) {
                Err(f) => Err(f),
                Ok(r) => Ok(rs.push(r)),
            },
        }
    }
}

/// The first position of the range `r`, counting up, beyond `total`; its
/// positions are positive.
pub open spec fn range_outside(r: (int, int), total: int) -> Option<int> {
    if r.0 > r.1 {
        None
    } else if r.0 > total {
        Some(r.0)
    } else if r.1 > total {
        Some(total + 1)
    } else {
        None
    }
}

/// The first position outside `1..=total`, in the order the ranges name them.
pub open spec fn first_outside(rs: Seq<(int, int)>, total: int) -> Option<int>
    decreases rs.len(),
{
    if rs.len() == 0 {
        None
    } else {
        match first_outside(rs.drop_last(), total) {
            Some(x) => Some(x),
            None => range_outside(rs.last(), total),
        }
    }
}

/// Some range of `rs` names the position `x`.
pub open spec fn covered(rs: Seq<(int, int)>, x: int) -> bool {
    exists|k: int| 0 <= k < rs.len() && #[trigger] rs[k].0 <= x <= rs[k].1
}

/// The zero-based indices that the text `s` chooses among `total` hits; a bad
/// token refuses the whole text, and only then is a position out of bounds
/// refused.
pub open spec fn selection_of(s: Seq<char>, total: int) -> Result<Set<int>, SelectionFault> {
    match token_ranges(words(s)) {
        Err(f) => Err(f),
        Ok(rs) => match first_outside(rs, total) {
            Some(x) => Err(SelectionFault::OutOfBounds(x, total)),
            None => Ok(Set::new(|i: int| covered(rs, i + 1))),
        },
    }
}

/// The values that `v` holds.
pub open spec fn index_set(v: Seq<usize>) -> Set<int> {
    Set::new(|i: int| exists|k: int| 0 <= k < v.len() && v[k] as int == i)
}

pub open spec fn strictly_ascending(v: Seq<usize>) -> bool {
    forall|a: int, b: int| 0 <= a < b < v.len() ==> v[a] < v[b]
}

/// Why a selection was refused.
#[derive(Clone, Debug, PartialEq, Eq)]
pub enum SelectionError {
    InvalidSelectionToken(String),
    InvalidSelectionNumber(String),
    SelectionOutOfBounds(usize, usize),
}

impl View for SelectionError {
    type V = SelectionFault;

    open spec fn view(&self) -> SelectionFault {
        match self {
            SelectionError::InvalidSelectionToken(t) => SelectionFault::Token(t@),
            SelectionError::InvalidSelectionNumber(t) => SelectionFault::Number(t@),
            SelectionError::SelectionOutOfBounds(i, n) => SelectionFault::OutOfBounds(
                *i as int,
                *n as int,
            ),
        }
    }
}

proof fn lemma_value_grows(t: Seq<char>, j: int, k: int)
    requires
        0 <= j <= k <= t.len(),
    ensures
        digits_value(t.take(j)) <= digits_value(t.take(k)),
    decreases k - j,
{
    if j < k {
        lemma_value_grows(t, j, k - 1);
        assert(t.take(k).drop_last() =~= t.take(k - 1));
    }
}

/// Reads a nonempty run of decimal digits that writes a positive number
/// fitting a `usize`.
fn parse_number(t: &str) -> (r: Option<usize>)
    ensures
        r matches Some(v) ==> is_number(t@) && v == digits_value(t@),
        r is None ==> !is_number(t@),
{
    let n = t.unicode_len();
    if n == 0 {
        return None;
    }
    let mut v: usize = 0;
    let mut i: usize = 0;
    while i < n
        invariant
            i <= n,
            n == t@.len(),
            forall|j: int| 0 <= j < i ==> is_digit(t@[j]),
            v == digits_value(t@.take(i as int)),
        decreases n - i,
    {
        let c = t.get_char(i);
        if c < '0' || c > '9' {
            return None;
        }
        let d = (c as u32 - '0' as u32) as usize;
        proof {
            assert(t@.take(i + 1).drop_last() =~= t@.take(i as int));
            assert(d == t@.take(i + 1).last() as int - '0' as int);
        }
        if v > (usize::MAX - d) / 10 {
            proof {
                assert(v * 10 + d > usize::MAX) by (nonlinear_arith)
                    requires
                        v > (usize::MAX - d) / 10,
                        d <= 9,
                ;
                lemma_value_grows(t@, i + 1, n as int);
                assert(t@.take(n as int) =~= t@);
            }
            return None;
        }
        assert(v * 10 + d <= usize::MAX) by (nonlinear_arith)
            requires
                v <= (usize::MAX - d) / 10,
                d <= 9,
        ;
        v = v * 10 + d;
        i = i + 1;
    }
    assert(t@.take(n as int) =~= t@);
    if v == 0 {
        return None;
    }
    Some(v)
}

/// The range that one token names, or why it names none.
fn token_bounds(t: &str) -> (r: Result<(usize, usize), SelectionError>)
    ensures
        r matches Ok(b) ==> token_range(t@) == Ok::<(int, int), SelectionFault>(
            (b.0 as int, b.1 as int),
        ) && b.0 >= 1 && b.1 >= 1,
        r matches Err(e) ==> token_range(t@) == Err::<(int, int), SelectionFault>(e@),
{
    match find_char(t, '-') {
        None => match parse_number(t) {
            Some(v) => Ok((v, v)),
            None => Err(SelectionError::InvalidSelectionNumber(String::from_str(t))),
        },
        Some(_) => match find_only(t, '-') {
            Some(k) => {
                proof {
                    let c = choose|j: int| is_only(t@, '-', j);
                    assert(is_only(t@, '-', c));
                    assert(c == k) by {
                        if c < k {
                            assert(t@[c] != '-');
                        }
                        if k < c {
                            assert(t@[c] != '-');
                        }
                    }
                }
                let n = t.unicode_len();
                let from = parse_number(t.substring_char(0, k));
                let to = parse_number(t.substring_char(k + 1, n));
                match (from, to) {
                    (Some(a), Some(b)) => Ok((a, b)),
                    _ => Err(SelectionError::InvalidSelectionNumber(String::from_str(t))),
                }
            },
            None => Err(SelectionError::InvalidSelectionToken(String::from_str(t))),
        },
    }
}

/// `marks` and `outside` record what the ranges `rs` choose among `total`
/// hits: the first position out of bounds, or else which positions are chosen.
spec fn tallied(marks: Seq<bool>, outside: Option<usize>, rs: Seq<(int, int)>, total: int) -> bool {
    &&& marks.len() == total
    &&& first_outside(rs, total) == match outside {
        Some(x) => Some(x as int),
        None => None::<int>,
    }
    &&& outside is None ==> forall|i: int| 0 <= i < total ==> (marks[i] <==> covered(rs, i + 1))
}

proof fn lemma_covered_push(rs: Seq<(int, int)>, r: (int, int), x: int)
    ensures
        covered(rs.push(r), x) <==> covered(rs, x) || (r.0 <= x <= r.1),
{
    let rs2 = rs.push(r);
    if covered(rs, x) {
        let k = choose|k: int| 0 <= k < rs.len() && #[trigger] rs[k].0 <= x <= rs[k].1;
        assert(rs2[k] == rs[k]);
    }
    if r.0 <= x <= r.1 {
        assert(rs2[rs.len() as int] == r);
    }
    if covered(rs2, x) {
        let k = choose|k: int| 0 <= k < rs2.len() && #[trigger] rs2[k].0 <= x <= rs2[k].1;
        if k < rs.len() {
            assert(rs[k] == rs2[k]);
        }
    }
}

/// Adds the range `lo..=hi` to what `marks` and `outside` record.
fn add_range(
    marks: &mut Vec<bool>,
    outside: &mut Option<usize>,
    lo: usize,
    hi: usize,
    total: usize,
    Ghost(rs): Ghost<Seq<(int, int)>>,
)
    requires
        tallied(old(marks)@, *old(outside), rs, total as int),
        lo >= 1,
    ensures
        tallied(final(marks)@, *final(outside), rs.push((lo as int, hi as int)), total as int),
{
    let ghost r = (lo as int, hi as int);
    let ghost rs2 = rs.push(r);
    assert(rs2.drop_last() =~= rs);
    assert(rs2.last() == r);
    if outside.is_some() {
        return;
    }
    if lo > hi {
        assert forall|i: int| 0 <= i < total implies (marks@[i] <==> covered(rs2, i + 1)) by {
            lemma_covered_push(rs, r, i + 1);
        }
        return;
    }
    if lo > total {
        *outside = Some(lo);
        return;
    }
    if hi > total {
        *outside = Some(total + 1);
        return;
    }
    let mut j: usize = lo - 1;
    while j < hi
        invariant
            lo - 1 <= j <= hi,
            1 <= lo <= hi <= total,
            marks@.len() == total,
            forall|i: int|
                0 <= i < total ==> (marks@[i] <==> covered(rs, i + 1) || (lo - 1 <= i < j)),
        decreases hi - j,
    {
        marks.set(j, true);
        j = j + 1;
    }
    assert forall|i: int| 0 <= i < total implies (marks@[i] <==> covered(rs2, i + 1)) by {
        lemma_covered_push(rs, r, i + 1);
    }
}

/// Where no position is out of bounds, every chosen position is in bounds.
proof fn lemma_inside(rs: Seq<(int, int)>, total: int, x: int)
    requires
        first_outside(rs, total) is None,
        forall|k: int| 0 <= k < rs.len() ==> #[trigger] rs[k].0 >= 1,
        covered(rs, x),
    ensures
        1 <= x <= total,
    decreases rs.len(),
{
    let k = choose|k: int| 0 <= k < rs.len() && #[trigger] rs[k].0 <= x <= rs[k].1;
    let init = rs.drop_last();
    if k < rs.len() - 1 {
        assert(init[k] == rs[k]);
        lemma_inside(init, total, x);
    }
}

/// Hands the next word `t` on: where a fault is already known nothing
/// changes; otherwise `t`'s fault is recorded, or its range added to the tally.
fn take_word(
    t: &str,
    fault: &mut Option<SelectionError>,
    marks: &mut Vec<bool>,
    outside: &mut Option<usize>,
    total: usize,
    Ghost(done): Ghost<Seq<Seq<char>>>,
    Ghost(rs): Ghost<Seq<(int, int)>>,
) -> (rs2: Ghost<Seq<(int, int)>>)
    requires
        *old(fault) matches Some(e) ==> token_ranges(done) == Err::<Seq<(int, int)>, SelectionFault>(
            e@,
        ),
        *old(fault) is None ==> token_ranges(done) == Ok::<Seq<(int, int)>, SelectionFault>(rs)
            && tallied(old(marks)@, *old(outside), rs, total as int),
    ensures
        *final(fault) matches Some(e) ==> token_ranges(done.push(t@)) == Err::<
            Seq<(int, int)>,
            SelectionFault,
        >(e@),
        *final(fault) is None ==> token_ranges(done.push(t@)) == Ok::<
            Seq<(int, int)>,
            SelectionFault,
        >(rs2@) && tallied(final(marks)@, *final(outside), rs2@, total as int),
{
    let ghost done2 = done.push(t@);
    assert(done2.drop_last() =~= done);
    assert(done2.last() == t@);
    if fault.is_some() {
        return Ghost(rs);
    }
    match token_bounds(t) {
        Err(e) => {
            *fault = Some(e);
            Ghost(rs)
        },
        Ok((lo, hi)) => {
            add_range(marks, outside, lo, hi, total, Ghost(rs));
            Ghost(rs.push((lo as int, hi as int)))
        },
    }
}

/// Reads which of `total_hits` hits the text `input` chooses: tokens split by
/// blanks, each a 1-based position `n` or an inclusive range `a-b`. The result
/// holds the chosen zero-based indices once each, in ascending order. A token
/// with more than one `-`, or one that is no number, refuses the whole text;
/// only when every token reads is a position outside `1..=total_hits` refused.
/// An empty text chooses nothing.
pub fn parse_selection(input: &str, total_hits: usize) -> (r: Result<Vec<usize>, SelectionError>)
    ensures
        r matches Ok(v) ==> selection_of(input@, total_hits as int) == Ok::<
            Set<int>,
            SelectionFault,
        >(index_set(v@)) && strictly_ascending(v@),
        r matches Ok(v) ==> forall|k: int| 0 <= k < v@.len() ==> v@[k] < total_hits,
        r matches Err(e) ==> selection_of(input@, total_hits as int) == Err::<
            Set<int>,
            SelectionFault,
        >(e@),
{
    let n = input.unicode_len();
    let mut fault: Option<SelectionError> = None;
    let mut marks: Vec<bool> = Vec::new();
    let mut m: usize = 0;
    while m < total_hits
        invariant
            m <= total_hits,
            marks@.len() == m,
            forall|i: int| 0 <= i < m ==> !marks@[i],
        decreases total_hits - m,
    {
        marks.push(false);
        m = m + 1;
    }
    let mut outside: Option<usize> = None;
    let ghost mut done: Seq<Seq<char>> = Seq::empty();
    let ghost mut rs: Seq<(int, int)> = Seq::empty();
    let mut in_word = false;
    let mut start: usize = 0;
    let mut i: usize = 0;
    assert(input@.take(0) =~= Seq::<char>::empty());
    while i < n
        invariant
            i <= n,
            n == input@.len(),
            start <= i,
            in_word <==> (i > 0 && !is_blank(input@[i - 1])),
            in_word ==> start < i,
            words(input@.take(i as int)) == if in_word {
                done.push(input@.subrange(start as int, i as int))
            } else {
                done
            },
            fault matches Some(e) ==> token_ranges(done) == Err::<Seq<(int, int)>, SelectionFault>(
                e@,
            ),
            fault is None ==> token_ranges(done) == Ok::<Seq<(int, int)>, SelectionFault>(rs)
                && tallied(marks@, outside, rs, total_hits as int),
        decreases n - i,
    {
        let c = input.get_char(i);
        let ghost pre = input@.take(i as int);
        let ghost cur = input@.take(i + 1);
        proof {
            assert(cur.drop_last() =~= pre);
            assert(cur.last() == c);
            if i > 0 {
                assert(cur[i - 1] == input@[i - 1]);
            }
        }
        if blank(c) {
            if in_word {
                let t = input.substring_char(start, i);
                let got = take_word(
                    t,
                    &mut fault,
                    &mut marks,
                    &mut outside,
                    total_hits,
                    Ghost(done),
                    Ghost(rs),
                );
                proof {
                    done = done.push(t@);
                    rs = got@;
                }
                in_word = false;
            }
        } else {
            if in_word {
                proof {
                    let w = words(pre);
                    assert(w.len() == done.len() + 1);
                    assert(input@.subrange(start as int, i + 1) =~= input@.subrange(
                        start as int,
                        i as int,
                    ).push(c));
                    assert(words(cur) =~= done.push(input@.subrange(start as int, i + 1)));
                }
            } else {
                start = i;
                in_word = true;
                proof {
                    assert(input@.subrange(start as int, i + 1) =~= seq![c]);
                }
            }
        }
        i = i + 1;
    }
    assert(input@.take(n as int) =~= input@);
    if in_word {
        let t = input.substring_char(start, n);
        let got = take_word(
            t,
            &mut fault,
            &mut marks,
            &mut outside,
            total_hits,
            Ghost(done),
            Ghost(rs),
        );
        proof {
            done = done.push(t@);
            rs = got@;
        }
    }
    assert(words(input@) == done);
    if let Some(e) = fault {
        return Err(e);
    }
    if let Some(x) = outside {
        return Err(SelectionError::SelectionOutOfBounds(x, total_hits));
    }
    let mut chosen: Vec<usize> = Vec::new();
    let mut k: usize = 0;
    while k < total_hits
        invariant
            k <= total_hits,
            marks@.len() == total_hits,
            strictly_ascending(chosen@),
            forall|a: int| 0 <= a < chosen@.len() ==> chosen@[a] < k,
            forall|x: int|
                0 <= x < k ==> (marks@[x] <==> exists|a: int|
                    0 <= a < chosen@.len() && chosen@[a] as int == x),
            forall|a: int| 0 <= a < chosen@.len() ==> marks@[chosen@[a] as int],
        decreases total_hits - k,
    {
        if marks[k] {
            let ghost before = chosen@;
            chosen.push(k);
            proof {
                assert forall|x: int| 0 <= x < k + 1 implies (marks@[x] <==> exists|a: int|
                    0 <= a < chosen@.len() && chosen@[a] as int == x) by {
                    if x < k && marks@[x] {
                        let a = choose|a: int| 0 <= a < before.len() && before[a] as int == x;
                        assert(chosen@[a] == before[a]);
                    }
                    if x == k {
                        assert(chosen@[before.len() as int] == k);
                    }
                }
            }
        }
        k = k + 1;
    }
    proof {
        assert(index_set(chosen@) =~= Set::new(|j: int| covered(rs, j + 1))) by {
            assert forall|j: int| #[trigger] covered(rs, j + 1) implies index_set(chosen@).contains(
                j,
            ) by {
                lemma_ranges_positive(words(input@));
                lemma_inside(rs, total_hits as int, j + 1);
                assert(marks@[j]);
                assert(exists|a: int| 0 <= a < chosen@.len() && chosen@[a] as int == j);
            }
            assert forall|j: int| index_set(chosen@).contains(j) implies covered(rs, j + 1) by {
                let a = choose|a: int| 0 <= a < chosen@.len() && chosen@[a] as int == j;
                assert(marks@[chosen@[a] as int]);
            }
        }
    }
    Ok(chosen)
}

proof fn lemma_faults_name_tokens(toks: Seq<Seq<char>>)
    ensures
        token_ranges(toks) matches Err(f) ==> !(f is OutOfBounds),
    decreases toks.len(),
{
    if toks.len() > 0 {
        lemma_faults_name_tokens(toks.drop_last());
    }
}

/// Every range that the tokens name starts at a positive position.
proof fn lemma_ranges_positive(toks: Seq<Seq<char>>)
    ensures
        token_ranges(toks) matches Ok(rs) ==> forall|k: int|
            0 <= k < rs.len() ==> #[trigger] rs[k].0 >= 1,
    decreases toks.len(),
{
    if toks.len() > 0 {
        lemma_ranges_positive(toks.drop_last());
        if let Ok(rs) = token_ranges(toks) {
            let init = token_ranges(toks.drop_last())->Ok_0;
            assert(rs == init.push(token_range(toks.last())->Ok_0));
            assert forall|k: int| 0 <= k < rs.len() implies #[trigger] rs[k].0 >= 1 by {
                if k < init.len() {
                    assert(rs[k] == init[k]);
                }
            }
        }
    }
}

proof fn lemma_bad_token_refuses(toks: Seq<Seq<char>>, k: int)
    requires
        0 <= k < toks.len(),
        token_range(toks[k]) is Err,
    ensures
        token_ranges(toks) matches Err(f) && !(f is OutOfBounds),
    decreases toks.len(),
{
    lemma_faults_name_tokens(toks);
    if k < toks.len() - 1 {
        assert(toks.drop_last()[k] == toks[k]);
        lemma_bad_token_refuses(toks.drop_last(), k);
    }
}

/// A token holding a character that is neither a digit nor `-` cannot name a
/// range.
proof fn lemma_stray_character(t: Seq<char>, j: int)
    requires
        0 <= j < t.len(),
        !is_digit(t[j]),
        t[j] != '-',
    ensures
        token_range(t) is Err,
{
    if !(forall|i: int| 0 <= i < t.len() ==> t[i] != '-') && exists|k: int| is_only(t, '-', k) {
        let k = choose|k: int| is_only(t, '-', k);
        if j < k {
            assert(t.take(k)[j] == t[j]);
        } else {
            assert(t.skip(k + 1)[j - k - 1] == t[j]);
        }
    }
}

/// A selection with a token that holds a character other than a digit or `-`
/// (such as `1 abc`) is refused as a whole, for that token and not for a
/// position: nothing of it is chosen.
pub proof fn lemma_non_numeric_token_refused(s: Seq<char>, total: int, k: int, j: int)
    requires
        0 <= k < words(s).len(),
        0 <= j < words(s)[k].len(),
        !is_digit(words(s)[k][j]),
        words(s)[k][j] != '-',
    ensures
        selection_of(s, total) matches Err(f) && !(f is OutOfBounds),
{
    lemma_stray_character(words(s)[k], j);
    lemma_bad_token_refuses(words(s), k);
}

/// A selection with a token that does not read, because one of its parts is
/// no positive integer (such as `0`, `3-` or `1-0`) or because it holds more
/// than one `-`, is refused as a whole, for that token and not for a
/// position: nothing of it is chosen.
pub proof fn lemma_unreadable_token_refused(s: Seq<char>, total: int, k: int)
    requires
        0 <= k < words(s).len(),
        token_range(words(s)[k]) is Err,
    ensures
        selection_of(s, total) matches Err(f) && !(f is OutOfBounds),
{
    lemma_bad_token_refuses(words(s), k);
}

/// Where every token reads, a selection that names a position beyond the
/// number of hits is refused as out of bounds.
pub proof fn lemma_beyond_total_refused(s: Seq<char>, total: int, x: int)
    requires
        token_ranges(words(s)) is Ok,
        covered(token_ranges(words(s))->Ok_0, x),
        x > total,
    ensures
        selection_of(s, total) matches Err(SelectionFault::OutOfBounds(_, n)) && n == total,
{
    let rs = token_ranges(words(s))->Ok_0;
    lemma_ranges_positive(words(s));
    if first_outside(rs, total) is None {
        lemma_inside(rs, total, x);
    }
}

/// Against five hits or more, `1 2 3-5` chooses the first five.
pub proof fn lemma_one_two_three_to_five(total: int)
    requires
        total >= 5,
    ensures
        selection_of("1 2 3-5"@, total) == Ok::<Set<int>, SelectionFault>(set![0int, 1, 2, 3, 4]),
{
    reveal_strlit("1 2 3-5");
    let s = "1 2 3-5"@;
    let one = seq!['1'];
    let two = seq!['2'];
    let range = seq!['3', '-', '5'];
    assert(s.take(0).len() == 0);
    assert(words(s.take(0)) =~= Seq::<Seq<char>>::empty());
    assert(s.take(1).last() == '1');
    assert(s.take(1).drop_last() =~= s.take(0));
    assert(words(s.take(1)) =~= seq![one]);
    assert(s.take(2).drop_last() =~= s.take(1));
    assert(words(s.take(2)) =~= seq![one]);
    assert(s.take(3).drop_last() =~= s.take(2));
    assert(words(s.take(3)) =~= seq![one, two]);
    assert(s.take(4).drop_last() =~= s.take(3));
    assert(words(s.take(4)) =~= seq![one, two]);
    assert(s.take(5).drop_last() =~= s.take(4));
    assert(words(s.take(5)) =~= seq![one, two, seq!['3']]);
    assert(s.take(6).drop_last() =~= s.take(5));
    assert(s.take(6).last() == '-');
    assert(s.take(6)[4] == '3');
    assert(seq!['3'].push('-') =~= seq!['3', '-']);
    assert(words(s.take(6)) =~= seq![one, two, seq!['3', '-']]);
    assert(s.take(7).drop_last() =~= s.take(6));
    assert(s.take(7).last() == '5');
    assert(s.take(7)[5] == '-');
    assert(seq!['3', '-'].push('5') =~= range);
    assert(words(s.take(7)) =~= seq![one, two, range]);
    assert(s.take(7) =~= s);
    let toks = seq![one, two, range];
    assert(one.drop_last() =~= Seq::<char>::empty());
    assert(digits_value(one.drop_last()) == 0);
    assert(digits_value(one) == 1);
    assert(token_range(one) == Ok::<(int, int), SelectionFault>((1, 1)));
    assert(two.drop_last() =~= Seq::<char>::empty());
    assert(digits_value(two.drop_last()) == 0);
    assert(digits_value(two) == 2);
    assert(token_range(two) == Ok::<(int, int), SelectionFault>((2, 2)));
    assert(is_only(range, '-', 1));
    let c = choose|j: int| is_only(range, '-', j);
    assert(c == 1) by {
        if c != 1 {
            assert(range[c] != '-');
        }
    }
    assert(range.take(1) =~= seq!['3']);
    assert(range.skip(2) =~= seq!['5']);
    assert(seq!['3'].drop_last() =~= Seq::<char>::empty());
    assert(seq!['5'].drop_last() =~= Seq::<char>::empty());
    assert(digits_value(seq!['3'].drop_last()) == 0);
    assert(digits_value(seq!['3']) == 3);
    assert(digits_value(seq!['5'].drop_last()) == 0);
    assert(digits_value(seq!['5']) == 5);
    assert(token_range(range) == Ok::<(int, int), SelectionFault>((3, 5)));
    assert(toks.drop_last() =~= seq![one, two]);
    assert(seq![one, two].drop_last() =~= seq![one]);
    assert(seq![one].drop_last() =~= Seq::<Seq<char>>::empty());
    let rs = seq![(1int, 1int), (2int, 2int), (3int, 5int)];
    assert(token_ranges(Seq::<Seq<char>>::empty()) == Ok::<Seq<(int, int)>, SelectionFault>(
        Seq::empty(),
    ));
    assert(Seq::<(int, int)>::empty().push((1int, 1int)) =~= seq![(1int, 1int)]);
    assert(seq![(1int, 1int)].push((2int, 2int)) =~= seq![(1int, 1int), (2int, 2int)]);
    assert(seq![(1int, 1int), (2int, 2int)].push((3int, 5int)) =~= rs);
    assert(token_ranges(seq![one]) == Ok::<Seq<(int, int)>, SelectionFault>(seq![(1int, 1int)]));
    assert(token_ranges(seq![one, two]) == Ok::<Seq<(int, int)>, SelectionFault>(
        seq![(1int, 1int), (2int, 2int)],
    ));
    assert(token_ranges(toks) == Ok::<Seq<(int, int)>, SelectionFault>(rs));
    assert(rs.drop_last() =~= seq![(1int, 1int), (2int, 2int)]);
    assert(seq![(1int, 1int), (2int, 2int)].drop_last() =~= seq![(1int, 1int)]);
    assert(seq![(1int, 1int)].drop_last() =~= Seq::<(int, int)>::empty());
    assert(first_outside(Seq::<(int, int)>::empty(), total) is None);
    assert(first_outside(seq![(1int, 1int)], total) is None);
    assert(first_outside(seq![(1int, 1int), (2int, 2int)], total) is None);
    assert(first_outside(rs, total) is None);
    assert(Set::new(|i: int| covered(rs, i + 1)) =~= set![0int, 1, 2, 3, 4]) by {
        assert forall|i: int| #[trigger] covered(rs, i + 1) implies 0 <= i < 5 by {
            let k = choose|k: int| 0 <= k < rs.len() && #[trigger] rs[k].0 <= i + 1 <= rs[k].1;
        }
        assert(rs[0].0 <= 1 <= rs[0].1);
        assert(rs[1].0 <= 2 <= rs[1].1);
        assert(rs[2].0 <= 3 <= rs[2].1);
        assert(rs[2].0 <= 4 <= rs[2].1);
        assert(rs[2].0 <= 5 <= rs[2].1);
    }
}

} // verus!
