//! Building blocks of a log line: runs of spaces, alignment in a field of fixed
//! width, and decimal numbers.
//!
//! Widths count characters, as the view of a string does.

use vstd::prelude::*;
use vstd::string::*;

verus! {

/// A run of `n` spaces.
pub open spec fn spaces(n: nat) -> Seq<char> {
    Seq::new(n, |i: int| ' ')
}

/// `s` aligned to the left of a field of `width` characters: spaces follow it
/// until the field is full. A text that is too long is kept as it is.
pub open spec fn padded_right(s: Seq<char>, width: nat) -> Seq<char> {
    if s.len() >= width {
        s
    } else {
        s + spaces((width - s.len()) as nat)
    }
}

/// `s` aligned to the right of a field of `width` characters: spaces come before
/// it until the field is full. A text that is too long is kept as it is.
pub open spec fn padded_left(s: Seq<char>, width: nat) -> Seq<char> {
    if s.len() >= width {
        s
    } else {
        spaces((width - s.len()) as nat) + s
    }
}

/// `at` gives, for each character of `part`, a place in `whole` where it
/// stands, and these places rise.
pub open spec fn embedding(part: Seq<char>, whole: Seq<char>, at: Seq<int>) -> bool {
    &&& at.len() == part.len()
    &&& forall|i: int|
        0 <= i < at.len() ==> 0 <= #[trigger] at[i] < whole.len() && whole[at[i]] == part[i]
    &&& forall|i: int, j: int| 0 <= i < j < at.len() ==> at[i] < at[j]
}

/// The characters of `part` all occur in `whole`, in their order: `whole` is
/// `part` with characters put in before, between or after.
pub open spec fn is_subsequence(part: Seq<char>, whole: Seq<char>) -> bool {
    exists|at: Seq<int>| embedding(part, whole, at)
}

/// Every text is a subsequence of itself.
pub proof fn lemma_subsequence_refl(a: Seq<char>)
    ensures
        is_subsequence(a, a),
{
    let at = Seq::new(a.len(), |i: int| i);
    assert(embedding(a, a, at));
}

/// The empty text is a subsequence of every text.
pub proof fn lemma_subsequence_empty(b: Seq<char>)
    ensures
        is_subsequence(Seq::<char>::empty(), b),
{
    assert(embedding(Seq::<char>::empty(), b, Seq::<int>::empty()));
}

/// A subsequence of a subsequence is a subsequence.
pub proof fn lemma_subsequence_trans(a: Seq<char>, b: Seq<char>, c: Seq<char>)
    requires
        is_subsequence(a, b),
        is_subsequence(b, c),
    ensures
        is_subsequence(a, c),
{
    let f = choose|at: Seq<int>| embedding(a, b, at);
    let g = choose|at: Seq<int>| embedding(b, c, at);
    let h = Seq::new(a.len(), |i: int| g[f[i]]);
    assert forall|i: int| 0 <= i < h.len() implies 0 <= #[trigger] h[i] < c.len() && c[h[i]]
        == a[i] by {
        assert(0 <= f[i] < b.len());
        assert(0 <= g[f[i]] < c.len());
    }
    assert forall|i: int, j: int| 0 <= i < j < h.len() implies h[i] < h[j] by {
        assert(0 <= f[i] < b.len());
        assert(0 <= f[j] < b.len());
        assert(f[i] < f[j]);
    }
    assert(embedding(a, c, h));
}

/// Subsequences of two texts, one after the other, form a subsequence of the
/// two texts, one after the other.
pub proof fn lemma_subsequence_concat(a1: Seq<char>, b1: Seq<char>, a2: Seq<char>, b2: Seq<char>)
    requires
        is_subsequence(a1, b1),
        is_subsequence(a2, b2),
    ensures
        is_subsequence(a1 + a2, b1 + b2),
{
    let f = choose|at: Seq<int>| embedding(a1, b1, at);
    let g = choose|at: Seq<int>| embedding(a2, b2, at);
    let a = a1 + a2;
    let b = b1 + b2;
    let h = Seq::new(
        a.len(),
        |i: int|
            if i < a1.len() {
                f[i]
            } else {
                b1.len() + g[i - a1.len()]
            },
    );
    assert forall|i: int| 0 <= i < h.len() implies 0 <= #[trigger] h[i] < b.len() && b[h[i]]
        == a[i] by {
        if i < a1.len() {
            assert(0 <= f[i] < b1.len());
        } else {
            assert(0 <= g[i - a1.len()] < b2.len());
        }
    }
    assert forall|i: int, j: int| 0 <= i < j < h.len() implies h[i] < h[j] by {
        if i < a1.len() {
            assert(0 <= f[i] < b1.len());
        } else {
            assert(0 <= g[i - a1.len()] < b2.len());
        }
        if j < a1.len() {
            assert(0 <= f[j] < b1.len());
        } else {
            assert(0 <= g[j - a1.len()] < b2.len());
        }
    }
    assert(embedding(a, b, h));
}

/// A subsequence stays one when characters are put before the whole.
pub proof fn lemma_subsequence_prepend(a: Seq<char>, b: Seq<char>, before: Seq<char>)
    requires
        is_subsequence(a, b),
    ensures
        is_subsequence(a, before + b),
{
    lemma_subsequence_empty(before);
    lemma_subsequence_concat(Seq::<char>::empty(), before, a, b);
    assert(Seq::<char>::empty() + a =~= a);
}

/// A subsequence stays one when characters are put after the whole.
pub proof fn lemma_subsequence_append(a: Seq<char>, b: Seq<char>, after: Seq<char>)
    requires
        is_subsequence(a, b),
    ensures
        is_subsequence(a, b + after),
{
    lemma_subsequence_empty(after);
    lemma_subsequence_concat(a, b, Seq::<char>::empty(), after);
    assert(a + Seq::<char>::empty() =~= a);
}

/// A text is a subsequence of itself in a field, on whichever side it is
/// aligned.
pub proof fn lemma_subsequence_padded(s: Seq<char>, width: nat)
    ensures
        is_subsequence(s, padded_right(s, width)),
        is_subsequence(s, padded_left(s, width)),
{
    lemma_subsequence_refl(s);
    if s.len() < width {
        let fill = spaces((width - s.len()) as nat);
        lemma_subsequence_append(s, s, fill);
        lemma_subsequence_prepend(s, s, fill);
    }
}

/// Appends `n` spaces to `out`.
pub fn push_spaces(out: &mut String, n: usize)
    ensures
        final(out)@ == old(out)@ + spaces(n as nat),
{
    let mut i: usize = 0;
    while i < n
        invariant
            i <= n,
            out@ == old(out)@ + spaces(i as nat),
        decreases n - i,
    {
        proof {
            reveal_strlit(" ");
            assert(spaces(i as nat) + " "@ =~= spaces((i + 1) as nat));
            assert((old(out)@ + spaces(i as nat)) + " "@ =~= old(out)@ + (spaces(i as nat) + " "@));
        }
        out.append(" ");
        i = i + 1;
    }
    proof {
        assert(old(out)@ + spaces(0) =~= old(out)@);
    }
}

/// `s` aligned to the left of a field of `width` characters.
pub fn pad_right(s: &str, width: usize) -> (out: String)
    ensures
        out@ == padded_right(s@, width as nat),
{
    let len: usize = s.unicode_len();
    let mut out: String = String::from_str(s);
    if len < width {
        push_spaces(&mut out, width - len);
    }
    out
}

/// `s` aligned to the right of a field of `width` characters.
pub fn pad_left(s: &str, width: usize) -> (out: String)
    ensures
        out@ == padded_left(s@, width as nat),
{
    let len: usize = s.unicode_len();
    let mut out: String = String::new();
    if len < width {
        push_spaces(&mut out, width - len);
    }
    out.append(s);
    proof {
        assert(Seq::<char>::empty() + s@ =~= s@);
        assert(Seq::<char>::empty() + spaces((width - len) as nat) =~= spaces((width - len) as nat));
    }
    out
}

/// The character of a decimal digit.
pub open spec fn digit_char(d: nat) -> char {
    if d == 0 {
        '0'
    } else if d == 1 {
        '1'
    } else if d == 2 {
        '2'
    } else if d == 3 {
        '3'
    } else if d == 4 {
        '4'
    } else if d == 5 {
        '5'
    } else if d == 6 {
        '6'
    } else if d == 7 {
        '7'
    } else if d == 8 {
        '8'
    } else {
        '9'
    }
}

/// `n` written in base ten, without sign and without leading zeros.
pub open spec fn decimal(n: nat) -> Seq<char>
    decreases n,
{
    if n < 10 {
        seq![digit_char(n)]
    } else {
        decimal(n / 10) + seq![digit_char(n % 10)]
    }
}

/// The text of one decimal digit.
fn digit_text(d: u32) -> (out: &'static str)
    requires
        d < 10,
    ensures
        out@ == seq![digit_char(d as nat)],
{
    proof {
        reveal_strlit("0");
        reveal_strlit("1");
        reveal_strlit("2");
        reveal_strlit("3");
        reveal_strlit("4");
        reveal_strlit("5");
        reveal_strlit("6");
        reveal_strlit("7");
        reveal_strlit("8");
        reveal_strlit("9");
    }
    let out: &'static str = if d == 0 {
        "0"
    } else if d == 1 {
        "1"
    } else if d == 2 {
        "2"
    } else if d == 3 {
        "3"
    } else if d == 4 {
        "4"
    } else if d == 5 {
        "5"
    } else if d == 6 {
        "6"
    } else if d == 7 {
        "7"
    } else if d == 8 {
        "8"
    } else {
        "9"
    };
    assert(out@ =~= seq![digit_char(d as nat)]);
    out
}

/// Appends `n`, written in base ten, to `out`.
pub fn push_decimal(out: &mut String, n: u32)
    ensures
        final(out)@ == old(out)@ + decimal(n as nat),
    decreases n,
{
    if n >= 10 {
        push_decimal(out, n / 10);
    }
    let digit: &'static str = digit_text(n % 10);
    out.append(digit);
    proof {
        let lead = decimal((n / 10) as nat);
        let last = seq![digit_char((n % 10) as nat)];
        if n >= 10 {
            assert((old(out)@ + lead) + last =~= old(out)@ + (lead + last));
        }
    }
}

} // verus!
