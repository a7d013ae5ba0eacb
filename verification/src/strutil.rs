//! Building strings from plain values: decimal rendering and character
//! sequences.

use vstd::prelude::*;
use vstd::string::{StringExecFns, StrSliceExecFns};

verus! {

/// The digit character for one decimal digit.
pub open spec fn dec_digit_char(d: int) -> char {
    if d == 0 {
        '0'
    } else if d == 1 {
        '1'
    } else if d == 2 {
        '2'
    } else if d == 3 {
        '3'
    } else if d == 4 {
        '4'
    } else if d == 5 {
        '5'
    } else if d == 6 {
        '6'
    } else if d == 7 {
        '7'
    } else if d == 8 {
        '8'
    } else {
        '9'
    }
}

/// The decimal rendering of a natural number, most significant digit
/// first.
pub open spec fn dec_str(n: nat) -> Seq<char>
    decreases n,
{
    if n < 10 {
        seq![dec_digit_char(n as int)]
    } else {
        dec_str(n / 10) + seq![dec_digit_char((n % 10) as int)]
    }
}

fn digit_str(d: u64) -> (r: &'static str)
    requires
        d < 10,
    ensures
        r@ == seq![dec_digit_char(d as int)],
{
    let r: &'static str = match d {
        0 => "0",
        1 => "1",
        2 => "2",
        3 => "3",
        4 => "4",
        5 => "5",
        6 => "6",
        7 => "7",
        8 => "8",
        _ => "9",
    };
    proof {
        reveal_strlit("0");
        reveal_strlit("1");
        reveal_strlit("2");
        reveal_strlit("3");
        reveal_strlit("4");
        reveal_strlit("5");
        reveal_strlit("6");
        reveal_strlit("7");
        reveal_strlit("8");
        reveal_strlit("9");
        assert(r@ =~= seq![dec_digit_char(d as int)]);
    }
    r
}

/// Render a number in decimal.
pub fn u64_to_string(n: u64) -> (r: String)
    ensures
        r@ == dec_str(n as nat),
    decreases n,
{
    if n < 10 {
        String::from_str(digit_str(n))
    } else {
        let mut s = u64_to_string(n / 10);
        s.append(digit_str(n % 10));
        s
    }
}

/// Whether two strings hold the same characters.
pub fn str_eq(a: &str, b: &str) -> (r: bool)
    ensures
        r == (a@ == b@),
{
    let la = a.unicode_len();
    let lb = b.unicode_len();
    if la != lb {
        return false;
    }
    let mut i: usize = 0;
    while i < la
        invariant
            i <= la,
            la == a@.len(),
            lb == b@.len(),
            la == lb,
            forall|j: int| 0 <= j < i ==> a@[j] == b@[j],
        decreases la - i,
    {
        if a.get_char(i) != b.get_char(i) {
            return false;
        }
        i = i + 1;
    }
    proof {
        assert(a@ =~= b@);
    }
    true
}

/// Relies on String::from for a single character.
#[verifier::external_body]
pub fn char_to_string(c: char) -> (r: String)
    ensures
        r@ == seq![c],
{
    String::from(c)
}

pub open spec fn is_space(c: char) -> bool {
    c == ' ' || c == '\t' || c == '\n' || c == '\r'
}

/// The characters left after stripping leading whitespace.
pub open spec fn trim_front(s: Seq<char>) -> Seq<char>
    decreases s.len(),
{
    if s.len() > 0 && is_space(s[0]) {
        trim_front(s.drop_first())
    } else {
        s
    }
}

/// The characters left after stripping trailing whitespace.
pub open spec fn trim_back(s: Seq<char>) -> Seq<char>
    decreases s.len(),
{
    if s.len() > 0 && is_space(s.last()) {
        trim_back(s.drop_last())
    } else {
        s
    }
}

/// The characters left after stripping whitespace from both ends.
pub open spec fn trim_spec(s: Seq<char>) -> Seq<char> {
    trim_back(trim_front(s))
}

proof fn lemma_trim_front_skip(s: Seq<char>, k: int)
    requires
        0 <= k <= s.len(),
        forall|j: int| 0 <= j < k ==> is_space(s[j]),
    ensures
        trim_front(s) == trim_front(s.skip(k)),
    decreases k,
{
    if k > 0 {
        assert(s.len() > 0 && is_space(s[0]));
        assert(s.drop_first() =~= s.skip(1));
        assert(s.skip(1).skip(k - 1) =~= s.skip(k));
        assert forall|j: int| 0 <= j < k - 1 implies is_space(#[trigger] s.skip(1)[j]) by {
            assert(s.skip(1)[j] == s[j + 1]);
        }
        lemma_trim_front_skip(s.skip(1), k - 1);
    } else {
        assert(s.skip(0) =~= s);
    }
}

/// Strip whitespace from both ends of a character buffer.
pub fn trim_chars(v: &Vec<char>) -> (r: Vec<char>)
    ensures
        r@ == trim_spec(v@),
{
    let n = v.len();
    let mut start: usize = 0;
    while start < n && (v[start] == ' ' || v[start] == '\t' || v[start] == '\n' || v[start]
        == '\r')
        invariant
            start <= n,
            n == v@.len(),
            forall|j: int| 0 <= j < start ==> is_space(v@[j]),
        decreases n - start,
    {
        start = start + 1;
    }
    proof {
        lemma_trim_front_skip(v@, start as int);
        if start < n {
            assert(v@.skip(start as int)[0] == v@[start as int]);
            assert(trim_front(v@.skip(start as int)) == v@.skip(start as int));
        } else {
            assert(v@.skip(start as int) =~= Seq::<char>::empty());
        }
    }
    let ghost w = v@.skip(start as int);
    proof {
        assert(w.take(n - start) =~= w);
    }
    let mut end: usize = n;
    while end > start && (v[end - 1] == ' ' || v[end - 1] == '\t' || v[end - 1] == '\n' || v[end
        - 1] == '\r')
        invariant
            start <= end <= n,
            n == v@.len(),
            w == v@.skip(start as int),
            trim_back(w) == trim_back(w.take(end - start)),
            trim_front(v@) == w,
        decreases end,
    {
        proof {
            let k = end - start;
            assert(w.take(k as int).last() == v@[end - 1]);
            assert(w.take(k as int).drop_last() =~= w.take(k - 1));
        }
        end = end - 1;
    }
    proof {
        let k = end - start;
        if end > start {
            assert(w.take(k as int).last() == v@[end - 1]);
            assert(!is_space(w.take(k as int).last()));
            assert(trim_back(w.take(k as int)) == w.take(k as int));
        } else {
            assert(w.take(0) =~= Seq::<char>::empty());
        }
    }
    let mut out: Vec<char> = Vec::new();
    let mut i: usize = start;
    while i < end
        invariant
            start <= i <= end <= n,
            n == v@.len(),
            out@ =~= v@.subrange(start as int, i as int),
        decreases end - i,
    {
        out.push(v[i]);
        i = i + 1;
    }
    proof {
        assert(out@ =~= w.take((end - start) as int));
    }
    out
}

/// The pieces of a character sequence cut at every comma; a sequence
/// with no comma is one piece, and each comma starts a new piece.
pub open spec fn split_commas(s: Seq<char>) -> Seq<Seq<char>>
    decreases s.len(),
{
    if s.len() == 0 {
        seq![Seq::<char>::empty()]
    } else if s[0] == ',' {
        seq![Seq::<char>::empty()] + split_commas(s.drop_first())
    } else {
        let rest = split_commas(s.drop_first());
        seq![seq![s[0]] + rest[0]] + rest.drop_first()
    }
}

proof fn lemma_split_commas_len(s: Seq<char>)
    ensures
        split_commas(s).len() >= 1,
    decreases s.len(),
{
    if s.len() > 0 {
        lemma_split_commas_len(s.drop_first());
    }
}

fn split_commas_from(v: &Vec<char>, i: usize) -> (r: Vec<Vec<char>>)
    requires
        i <= v@.len(),
    ensures
        r@.len() == split_commas(v@.skip(i as int)).len(),
        forall|j: int| 0 <= j < r@.len() ==> r@[j]@ == split_commas(v@.skip(i as int))[j],
    decreases v@.len() - i,
{
    proof {
        lemma_split_commas_len(v@.skip(i as int));
    }
    if i == v.len() {
        proof {
            assert(v@.skip(i as int) =~= Seq::<char>::empty());
        }
        let mut r: Vec<Vec<char>> = Vec::new();
        r.push(Vec::new());
        return r;
    }
    let mut rest = split_commas_from(v, i + 1);
    proof {
        assert(v@.skip(i as int).drop_first() =~= v@.skip(i + 1));
        assert(v@.skip(i as int)[0] == v@[i as int]);
        lemma_split_commas_len(v@.skip(i + 1));
    }
    if v[i] == ',' {
        rest.insert(0, Vec::new());
        rest
    } else {
        let mut first = rest.remove(0);
        first.insert(0, v[i]);
        rest.insert(0, first);
        rest
    }
}

/// The names a comma-separated entry stands for: each comma-cut piece,
/// trimmed, with the empty ones dropped, in entry order.
pub open spec fn names_of_pieces(pieces: Seq<Seq<char>>) -> Seq<Seq<char>>
    decreases pieces.len(),
{
    if pieces.len() == 0 {
        Seq::empty()
    } else {
        names_of_pieces(pieces.drop_last()) + if trim_spec(pieces.last()).len() > 0 {
            seq![trim_spec(pieces.last())]
        } else {
            Seq::<Seq<char>>::empty()
        }
    }
}

/// The usernames in a comma-separated entry.
pub open spec fn parse_names_spec(s: Seq<char>) -> Seq<Seq<char>> {
    names_of_pieces(split_commas(s))
}

/// Cut a comma-separated entry into trimmed, non-empty names.
pub fn parse_student_names(v: &Vec<char>) -> (r: Vec<String>)
    ensures
        r@.len() == parse_names_spec(v@).len(),
        forall|j: int| 0 <= j < r@.len() ==> r@[j]@ == parse_names_spec(v@)[j],
{
    let pieces = split_commas_from(v, 0);
    proof {
        assert(v@.skip(0) =~= v@);
    }
    let mut out: Vec<String> = Vec::new();
    let mut i: usize = 0;
    let ghost pieces_view = Seq::new(pieces@.len(), |j: int| pieces@[j]@);
    proof {
        assert forall|j: int| 0 <= j < pieces_view.len() implies pieces_view[j] == split_commas(
            v@,
        )[j] by {}
        assert(pieces_view =~= split_commas(v@));
    }
    while i < pieces.len()
        invariant
            i <= pieces@.len(),
            pieces_view.len() == pieces@.len(),
            forall|j: int| 0 <= j < pieces@.len() ==> pieces_view[j] == pieces@[j]@,
            pieces_view == split_commas(v@),
            out@.len() == names_of_pieces(pieces_view.take(i as int)).len(),
            forall|j: int| 0 <= j < out@.len() ==> out@[j]@ == names_of_pieces(
                pieces_view.take(i as int),
            )[j],
        decreases pieces@.len() - i,
    {
        proof {
            assert(pieces_view.take(i + 1).drop_last() =~= pieces_view.take(i as int));
            assert(pieces_view.take(i + 1).last() == pieces_view[i as int]);
        }
        let trimmed = trim_chars(&pieces[i]);
        if trimmed.len() > 0 {
            out.push(chars_to_string(&trimmed));
        }
        i = i + 1;
    }
    proof {
        assert(pieces_view.take(pieces_view.len() as int) =~= pieces_view);
    }
    out
}

/// Turn a buffer of characters into a string.
pub fn chars_to_string(v: &Vec<char>) -> (r: String)
    ensures
        r@ == v@,
{
    let mut s = String::new();
    let mut i: usize = 0;
    while i < v.len()
        invariant
            i <= v@.len(),
            s@ == v@.take(i as int),
        decreases v@.len() - i,
    {
        let cs = char_to_string(v[i]);
        s.append(cs.as_str());
        proof {
            assert(s@ =~= v@.take(i + 1));
        }
        i = i + 1;
    }
    proof {
        assert(v@.take(v@.len() as int) =~= v@);
    }
    s
}


/// Whether a character is a decimal digit.
pub open spec fn is_dec_digit(c: char) -> bool {
    ||| c == '0'
    ||| c == '1'
    ||| c == '2'
    ||| c == '3'
    ||| c == '4'
    ||| c == '5'
    ||| c == '6'
    ||| c == '7'
    ||| c == '8'
    ||| c == '9'
}

/// Every character of a decimal rendering is a digit.
pub proof fn lemma_dec_str_digits(n: nat)
    ensures
        forall|i: int| 0 <= i < dec_str(n).len() ==> is_dec_digit(#[trigger] dec_str(n)[i]),
    decreases n,
{
    if n >= 10 {
        lemma_dec_str_digits(n / 10);
        assert forall|i: int| 0 <= i < dec_str(n).len() implies is_dec_digit(
            #[trigger] dec_str(n)[i],
        ) by {
            if i < dec_str(n / 10).len() {
                assert(dec_str(n)[i] == dec_str(n / 10)[i]);
            } else {
                assert(dec_str(n)[i] == dec_digit_char((n % 10) as int));
            }
        }
    }
}

/// Two numbers with the same decimal rendering are the same number.
pub proof fn lemma_dec_str_injective(m: nat, n: nat)
    requires
        dec_str(m) == dec_str(n),
    ensures
        m == n,
    decreases m,
{
    if m < 10 && n < 10 {
        assert(dec_str(m)[0] == dec_digit_char(m as int));
        assert(dec_str(n)[0] == dec_digit_char(n as int));
    } else if m < 10 {
        assert(dec_str(n).len() == dec_str(n / 10).len() + 1);
        assert(dec_str(n / 10).len() >= 1) by {
            lemma_dec_str_nonempty(n / 10);
        }
    } else if n < 10 {
        assert(dec_str(m).len() == dec_str(m / 10).len() + 1);
        assert(dec_str(m / 10).len() >= 1) by {
            lemma_dec_str_nonempty(m / 10);
        }
    } else {
        assert(dec_str(m).last() == dec_digit_char((m % 10) as int));
        assert(dec_str(n).last() == dec_digit_char((n % 10) as int));
        assert(m % 10 == n % 10);
        assert(dec_str(m).drop_last() =~= dec_str(m / 10));
        assert(dec_str(n).drop_last() =~= dec_str(n / 10));
        lemma_dec_str_injective(m / 10, n / 10);
    }
}

proof fn lemma_dec_str_nonempty(n: nat)
    ensures
        dec_str(n).len() >= 1,
    decreases n,
{
    if n >= 10 {
        lemma_dec_str_nonempty(n / 10);
    }
}


/// The numeric value of a digit character; anything else counts as zero.
pub open spec fn dec_digit_val(c: char) -> nat {
    if c == '1' {
        1
    } else if c == '2' {
        2
    } else if c == '3' {
        3
    } else if c == '4' {
        4
    } else if c == '5' {
        5
    } else if c == '6' {
        6
    } else if c == '7' {
        7
    } else if c == '8' {
        8
    } else if c == '9' {
        9
    } else {
        0
    }
}

/// The number a digit run names, most significant digit first.
pub open spec fn fold_digits(s: Seq<char>) -> nat
    decreases s.len(),
{
    if s.len() == 0 {
        0
    } else {
        fold_digits(s.drop_last()) * 10 + dec_digit_val(s.last())
    }
}

/// Reading a decimal rendering back yields the number it renders.
pub proof fn lemma_fold_dec_str(n: nat)
    ensures
        fold_digits(dec_str(n)) == n,
    decreases n,
{
    if n < 10 {
        assert(dec_str(n).len() == 1);
        assert(dec_str(n).last() == dec_digit_char(n as int));
        assert(dec_str(n).drop_last() =~= Seq::<char>::empty());
        assert(dec_digit_val(dec_digit_char(n as int)) == n);
        assert(fold_digits(dec_str(n)) == fold_digits(dec_str(n).drop_last()) * 10
            + dec_digit_val(dec_str(n).last()));
        assert(fold_digits(Seq::<char>::empty()) == 0);
    } else {
        lemma_fold_dec_str(n / 10);
        assert(dec_str(n).drop_last() =~= dec_str(n / 10));
        assert(dec_str(n).last() == dec_digit_char((n % 10) as int));
        assert(dec_digit_val(dec_digit_char((n % 10) as int)) == n % 10);
        assert(dec_str(n).len() > 0);
        assert(fold_digits(dec_str(n)) == fold_digits(dec_str(n).drop_last()) * 10
            + dec_digit_val(dec_str(n).last()));
        vstd::arithmetic::div_mod::lemma_fundamental_div_mod(n as int, 10);
    }
}

/// A digit run's prefixes never name more than the whole run does.
pub proof fn lemma_fold_prefix_le(s: Seq<char>, k: int)
    requires
        0 <= k <= s.len(),
    ensures
        fold_digits(s.take(k)) <= fold_digits(s),
    decreases s.len() - k,
{
    if k < s.len() {
        lemma_fold_prefix_le(s, k + 1);
        assert(s.take(k + 1).drop_last() =~= s.take(k));
        assert(fold_digits(s.take(k + 1)) == fold_digits(s.take(k)) * 10 + dec_digit_val(
            s.take(k + 1).last(),
        ));
    } else {
        assert(s.take(k) =~= s);
    }
}

} // verus!
