//! Character-sequence utilities used by the session core.
//!
//! The core works on `Vec<char>` so that every transformation it owns —
//! trimming, token splitting, newline translation, decimal formatting —
//! is stated over `Seq<char>` and proved.

use vstd::prelude::*;
use vstd::string::StrSliceExecFns;

verus! {

/// Whitespace as the shell's trimming understands it.
pub open spec fn is_space(c: char) -> bool {
    c == ' ' || c == '\t' || c == '\n' || c == '\r'
}

/// Executable twin of [`is_space`].
pub fn is_space_char(c: char) -> (r: bool)
    ensures
        r == is_space(c),
{
    c == ' ' || c == '\t' || c == '\n' || c == '\r'
}

/// Copies the characters of a string slice into a vector.
pub fn chars_of(s: &str) -> (r: Vec<char>)
    ensures
        r@ == s@,
{
    let len: usize = s.unicode_len();
    let mut r: Vec<char> = Vec::new();
    let mut i: usize = 0;
    while i < len
        invariant
            i <= len,
            len == s@.len(),
            r@ == s@.subrange(0, i as int),
        decreases len - i,
    {
        r.push(s.get_char(i));
        i = i + 1;
        proof {
            assert(r@ =~= s@.subrange(0, i as int));
        }
    }
    proof {
        assert(r@ =~= s@);
    }
    r
}

/// Appends the characters of `src` to `dst`.
pub fn append_text(dst: &mut Vec<char>, src: &Vec<char>)
    ensures
        final(dst)@ == old(dst)@ + src@,
{
    let mut i: usize = 0;
    while i < src.len()
        invariant
            i <= src.len(),
            dst@ == old(dst)@ + src@.subrange(0, i as int),
        decreases src.len() - i,
    {
        dst.push(src[i]);
        i = i + 1;
        proof {
            assert(dst@ =~= old(dst)@ + src@.subrange(0, i as int));
        }
    }
    proof {
        assert(dst@ =~= old(dst)@ + src@);
    }
}

/// Appends the characters of a string slice to `dst`.
pub fn append_str(dst: &mut Vec<char>, s: &str)
    ensures
        final(dst)@ == old(dst)@ + s@,
{
    let len: usize = s.unicode_len();
    let mut i: usize = 0;
    while i < len
        invariant
            i <= len,
            len == s@.len(),
            dst@ == old(dst)@ + s@.subrange(0, i as int),
        decreases len - i,
    {
        dst.push(s.get_char(i));
        i = i + 1;
        proof {
            assert(dst@ =~= old(dst)@ + s@.subrange(0, i as int));
        }
    }
    proof {
        assert(dst@ =~= old(dst)@ + s@);
    }
}

/// Compares a character vector with a string slice.
pub fn text_eq_str(v: &Vec<char>, s: &str) -> (r: bool)
    ensures
        r == (v@ == s@),
{
    let len: usize = s.unicode_len();
    if v.len() != len {
        proof {
            assert(v@ != s@) by {
                assert(v@.len() != s@.len());
            }
        }
        return false;
    }
    let mut i: usize = 0;
    while i < len
        invariant
            i <= len,
            len == s@.len(),
            v@.len() == len,
            forall|j: int| 0 <= j < i ==> v@[j] == s@[j],
        decreases len - i,
    {
        if v[i] != s.get_char(i) {
            proof {
                assert(v@ != s@) by {
                    assert(v@[i as int] != s@[i as int]);
                }
            }
            return false;
        }
        i = i + 1;
    }
    proof {
        assert(v@ =~= s@);
    }
    true
}

/// The sequence left after removing leading whitespace.
pub open spec fn trim_start_spec(s: Seq<char>) -> Seq<char>
    decreases s.len(),
{
    if s.len() > 0 && is_space(s[0]) {
        trim_start_spec(s.skip(1))
    } else {
        s
    }
}

/// The sequence left after removing trailing whitespace.
pub open spec fn trim_end_spec(s: Seq<char>) -> Seq<char>
    decreases s.len(),
{
    if s.len() > 0 && is_space(s[s.len() - 1]) {
        trim_end_spec(s.drop_last())
    } else {
        s
    }
}

/// A fresh copy of a character vector.
pub fn copy_text(v: &Vec<char>) -> (r: Vec<char>)
    ensures
        r@ == v@,
{
    let mut r: Vec<char> = Vec::new();
    append_text(&mut r, v);
    proof {
        assert(r@ =~= v@);
    }
    r
}

/// The sequence left after removing whitespace on both sides.
pub open spec fn trim_spec(s: Seq<char>) -> Seq<char> {
    trim_end_spec(trim_start_spec(s))
}

proof fn lemma_trim_start_skip(s: Seq<char>, k: int)
    requires
        0 <= k <= s.len(),
        forall|j: int| 0 <= j < k ==> is_space(s[j]),
    ensures
        trim_start_spec(s) == trim_start_spec(s.skip(k)),
    decreases k,
{
    if k > 0 {
        assert(is_space(s[0]));
        lemma_trim_start_skip(s.skip(1), k - 1);
        assert(s.skip(1).skip(k - 1) =~= s.skip(k));
    } else {
        assert(s.skip(0) =~= s);
    }
}

proof fn lemma_trim_start_fixed(s: Seq<char>)
    requires
        s.len() == 0 || !is_space(s[0]),
    ensures
        trim_start_spec(s) == s,
{
}

proof fn lemma_trim_end_take(s: Seq<char>, k: int)
    requires
        0 <= k <= s.len(),
        forall|j: int| k <= j < s.len() ==> is_space(s[j]),
        k == 0 || !is_space(s[k - 1]),
    ensures
        trim_end_spec(s) == s.take(k),
    decreases s.len(),
{
    if s.len() > k {
        assert(is_space(s[s.len() - 1]));
        lemma_trim_end_take(s.drop_last(), k);
        assert(s.drop_last().take(k) =~= s.take(k));
    } else {
        assert(s.take(k) =~= s);
    }
}

/// Removes whitespace from both ends of a line of text.
pub fn trim(v: &Vec<char>) -> (r: Vec<char>)
    ensures
        r@ == trim_spec(v@),
{
    let mut a: usize = 0;
    while a < v.len() && is_space_char(v[a])
        invariant
            a <= v.len(),
            forall|j: int| 0 <= j < a ==> is_space(v@[j]),
        decreases v.len() - a,
    {
        a = a + 1;
    }
    let mut b: usize = v.len();
    while b > a && is_space_char(v[b - 1])
        invariant
            a <= b <= v.len(),
            forall|j: int| b <= j < v.len() ==> is_space(v@[j]),
        decreases b,
    {
        b = b - 1;
    }
    let mut r: Vec<char> = Vec::new();
    let mut i: usize = a;
    while i < b
        invariant
            a <= i <= b <= v.len(),
            r@ == v@.subrange(a as int, i as int),
        decreases b - i,
    {
        r.push(v[i]);
        i = i + 1;
        proof {
            assert(r@ =~= v@.subrange(a as int, i as int));
        }
    }
    proof {
        lemma_trim_start_skip(v@, a as int);
        let t = v@.skip(a as int);
        assert(t.len() == 0 || !is_space(t[0]));
        lemma_trim_start_fixed(t);
        assert(forall|j: int| b - a <= j < t.len() ==> is_space(#[trigger] t[j]));
        lemma_trim_end_take(t, b - a);
        assert(t.take(b - a) =~= v@.subrange(a as int, b as int));
        assert(r@ =~= trim_spec(v@));
    }
    r
}

/// Whether the text, once leading whitespace is removed, starts with
/// the command prefix character.
pub open spec fn starts_with_dot(s: Seq<char>) -> bool {
    trim_start_spec(s).len() > 0 && trim_start_spec(s)[0] == '.'
}

/// Whether the text, once trailing whitespace is removed, ends with the
/// statement terminator.
pub open spec fn ends_with_semicolon(s: Seq<char>) -> bool {
    trim_end_spec(s).len() > 0 && trim_end_spec(s).last() == ';'
}

/// Decides [`starts_with_dot`] for a buffered line.
pub fn first_is_dot(v: &Vec<char>) -> (r: bool)
    ensures
        r == starts_with_dot(v@),
{
    let mut a: usize = 0;
    while a < v.len() && is_space_char(v[a])
        invariant
            a <= v.len(),
            forall|j: int| 0 <= j < a ==> is_space(v@[j]),
        decreases v.len() - a,
    {
        a = a + 1;
    }
    proof {
        lemma_trim_start_skip(v@, a as int);
        lemma_trim_start_fixed(v@.skip(a as int));
    }
    if a < v.len() {
        proof {
            assert(v@.skip(a as int)[0] == v@[a as int]);
        }
        v[a] == '.'
    } else {
        false
    }
}

/// Decides [`ends_with_semicolon`] for a buffered line.
pub fn last_is_semicolon(v: &Vec<char>) -> (r: bool)
    ensures
        r == ends_with_semicolon(v@),
{
    let mut b: usize = v.len();
    while b > 0 && is_space_char(v[b - 1])
        invariant
            b <= v.len(),
            forall|j: int| b <= j < v.len() ==> is_space(v@[j]),
        decreases b,
    {
        b = b - 1;
    }
    proof {
        lemma_trim_end_take(v@, b as int);
    }
    if b > 0 {
        proof {
            assert(v@.take(b as int).last() == v@[b as int - 1]);
        }
        v[b - 1] == ';'
    } else {
        false
    }
}

/// The index of the first plain space in `s`, or `s.len()` if none.
pub open spec fn first_space(s: Seq<char>) -> int
    decreases s.len(),
{
    if s.len() == 0 {
        0
    } else if s[0] == ' ' {
        0
    } else {
        1 + first_space(s.skip(1))
    }
}

proof fn lemma_first_space_bounds(s: Seq<char>)
    ensures
        0 <= first_space(s) <= s.len(),
        forall|j: int| 0 <= j < first_space(s) ==> s[j] != ' ',
        first_space(s) < s.len() ==> s[first_space(s)] == ' ',
    decreases s.len(),
{
    if s.len() > 0 && s[0] != ' ' {
        lemma_first_space_bounds(s.skip(1));
        assert forall|j: int| 0 <= j < first_space(s) implies s[j] != ' ' by {
            if j > 0 {
                assert(s.skip(1)[j - 1] == s[j]);
            }
        }
    }
}

proof fn lemma_first_space_at(s: Seq<char>, k: int)
    requires
        0 <= k <= s.len(),
        forall|j: int| 0 <= j < k ==> s[j] != ' ',
        k == s.len() || s[k] == ' ',
    ensures
        first_space(s) == k,
    decreases k,
{
    if k > 0 {
        lemma_first_space_at(s.skip(1), k - 1);
    }
}

/// The first space-delimited token of an already-trimmed line.
pub open spec fn cmd_of(t: Seq<char>) -> Seq<char> {
    t.take(first_space(t))
}

/// What stands after the first token of an already-trimmed line,
/// trimmed again.
pub open spec fn args_of(t: Seq<char>) -> Seq<char> {
    trim_spec(t.skip(first_space(t)))
}

/// Splits an already-trimmed line into its first token and the trimmed
/// remainder.
pub fn split_command(t: &Vec<char>) -> (r: (Vec<char>, Vec<char>))
    ensures
        r.0@ == cmd_of(t@),
        r.1@ == args_of(t@),
{
    let mut k: usize = 0;
    while k < t.len() && t[k] != ' '
        invariant
            k <= t.len(),
            forall|j: int| 0 <= j < k ==> t@[j] != ' ',
        decreases t.len() - k,
    {
        k = k + 1;
    }
    proof {
        lemma_first_space_at(t@, k as int);
    }
    let mut cmd: Vec<char> = Vec::new();
    let mut i: usize = 0;
    while i < k
        invariant
            i <= k <= t.len(),
            cmd@ == t@.subrange(0, i as int),
        decreases k - i,
    {
        cmd.push(t[i]);
        i = i + 1;
        proof {
            assert(cmd@ =~= t@.subrange(0, i as int));
        }
    }
    let mut rest: Vec<char> = Vec::new();
    let mut j: usize = k;
    while j < t.len()
        invariant
            k <= j <= t.len(),
            rest@ == t@.subrange(k as int, j as int),
        decreases t.len() - j,
    {
        rest.push(t[j]);
        j = j + 1;
        proof {
            assert(rest@ =~= t@.subrange(k as int, j as int));
        }
    }
    let args = trim(&rest);
    proof {
        assert(cmd@ =~= t@.take(first_space(t@)));
        assert(rest@ =~= t@.skip(first_space(t@)));
    }
    (cmd, args)
}

/// `s` with every line feed translated to the terminal's
/// carriage-return + line-feed convention.
pub open spec fn crlf_of(s: Seq<char>) -> Seq<char>
    decreases s.len(),
{
    if s.len() == 0 {
        Seq::empty()
    } else if s[0] == '\n' {
        seq!['\r', '\n'] + crlf_of(s.skip(1))
    } else {
        seq![s[0]] + crlf_of(s.skip(1))
    }
}

/// Translates embedded line feeds to carriage-return + line-feed pairs.
pub fn translate_newlines(v: &Vec<char>) -> (r: Vec<char>)
    ensures
        r@ == crlf_of(v@),
{
    let mut r: Vec<char> = Vec::new();
    let mut i: usize = 0;
    proof {
        assert(v@.skip(0) =~= v@);
        assert(Seq::<char>::empty() + crlf_of(v@) =~= crlf_of(v@));
    }
    while i < v.len()
        invariant
            i <= v.len(),
            r@ + crlf_of(v@.skip(i as int)) == crlf_of(v@),
        decreases v.len() - i,
    {
        proof {
            assert(v@.skip(i as int)[0] == v@[i as int]);
            assert(v@.skip(i as int).skip(1) =~= v@.skip(i as int + 1));
        }
        if v[i] == '\n' {
            r.push('\r');
            r.push('\n');
        } else {
            r.push(v[i]);
        }
        i = i + 1;
        proof {
            assert(r@ + crlf_of(v@.skip(i as int)) =~= crlf_of(v@));
        }
    }
    proof {
        assert(v@.skip(v@.len() as int) =~= Seq::<char>::empty());
        assert(r@ =~= crlf_of(v@));
    }
    r
}

/// The decimal digit character for `n < 10`.
pub open spec fn dec_digit(n: nat) -> char {
    if n == 0 {
        '0'
    } else if n == 1 {
        '1'
    } else if n == 2 {
        '2'
    } else if n == 3 {
        '3'
    } else if n == 4 {
        '4'
    } else if n == 5 {
        '5'
    } else if n == 6 {
        '6'
    } else if n == 7 {
        '7'
    } else if n == 8 {
        '8'
    } else {
        '9'
    }
}

/// The decimal representation of `n`, most significant digit first.
pub open spec fn dec_spec(n: nat) -> Seq<char>
    decreases n,
{
    if n < 10 {
        seq![dec_digit(n)]
    } else {
        dec_spec(n / 10).push(dec_digit(n % 10))
    }
}

fn dec_digit_char(n: u64) -> (r: char)
    requires
        n < 10,
    ensures
        r == dec_digit(n as nat),
{
    if n == 0 {
        '0'
    } else if n == 1 {
        '1'
    } else if n == 2 {
        '2'
    } else if n == 3 {
        '3'
    } else if n == 4 {
        '4'
    } else if n == 5 {
        '5'
    } else if n == 6 {
        '6'
    } else if n == 7 {
        '7'
    } else if n == 8 {
        '8'
    } else {
        '9'
    }
}

/// Writes `n` in decimal, most significant digit first.
pub fn u64_dec(n: u64) -> (r: Vec<char>)
    ensures
        r@ == dec_spec(n as nat),
{
    let mut low: Vec<char> = Vec::new();
    let mut m: u64 = n;
    while m >= 10
        invariant
            dec_spec(n as nat) == dec_spec(m as nat) + low@.reverse(),
        decreases m,
    {
        let d = dec_digit_char(m % 10);
        proof {
            assert(dec_spec(m as nat) == dec_spec((m as nat) / 10).push(dec_digit((m as nat) % 10)));
            assert((low@.push(d)).reverse() =~= seq![d] + low@.reverse());
            assert(dec_spec((m as nat) / 10) + (low@.push(d)).reverse() =~= dec_spec(m as nat)
                + low@.reverse());
        }
        low.push(d);
        m = m / 10;
    }
    let mut r: Vec<char> = Vec::new();
    r.push(dec_digit_char(m));
    proof {
        assert(r@ =~= dec_spec(m as nat));
    }
    let mut j: usize = low.len();
    while j > 0
        invariant
            j <= low.len(),
            r@ == dec_spec(m as nat) + low@.skip(j as int).reverse(),
        decreases j,
    {
        j = j - 1;
        r.push(low[j]);
        proof {
            assert(r@ =~= dec_spec(m as nat) + low@.skip(j as int).reverse());
        }
    }
    proof {
        assert(low@.skip(0) =~= low@);
        assert(r@ =~= dec_spec(n as nat));
    }
    r
}

/// `s` padded with spaces on the right up to `width` characters.
pub open spec fn pad_right_spec(s: Seq<char>, width: nat) -> Seq<char> {
    if s.len() >= width {
        s
    } else {
        s + Seq::new((width - s.len()) as nat, |i: int| ' ')
    }
}

/// Pads a name with spaces on the right up to `width` characters.
pub fn pad_right(v: &Vec<char>, width: usize) -> (r: Vec<char>)
    ensures
        r@ == pad_right_spec(v@, width as nat),
{
    let mut r: Vec<char> = Vec::new();
    append_text(&mut r, v);
    while r.len() < width
        invariant
            r@.len() >= v@.len(),
            r@.len() == v@.len() || (v@.len() < width && r@.len() <= width),
            r@.subrange(0, v@.len() as int) == v@,
            forall|j: int| v@.len() <= j < r@.len() ==> r@[j] == ' ',
        decreases width - r.len(),
    {
        r.push(' ');
        proof {
            assert(r@.subrange(0, v@.len() as int) =~= v@);
        }
    }
    proof {
        assert(r@ =~= pad_right_spec(v@, width as nat));
    }
    r
}

} // verus!

