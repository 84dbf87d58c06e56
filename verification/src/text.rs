//! Character and string helpers shared by the parsers and the HTML writers.
use vstd::prelude::*;

verus! {

/// Unicode `White_Space` property, the definition used by `char::is_whitespace`
/// and therefore by `str::trim`.
pub open spec fn is_white_space(c: char) -> bool {
    ||| ('\u{9}' <= c && c <= '\u{d}')
    ||| c == ' '
    ||| c == '\u{85}'
    ||| c == '\u{a0}'
    ||| c == '\u{1680}'
    ||| ('\u{2000}' <= c && c <= '\u{200a}')
    ||| c == '\u{2028}'
    ||| c == '\u{2029}'
    ||| c == '\u{202f}'
    ||| c == '\u{205f}'
    ||| c == '\u{3000}'
}

/// Executable `White_Space` test.
pub fn white_space(c: char) -> (b: bool)
    ensures
        b == is_white_space(c),
{
    ('\u{9}' <= c && c <= '\u{d}') || c == ' ' || c == '\u{85}' || c == '\u{a0}' || c
        == '\u{1680}' || ('\u{2000}' <= c && c <= '\u{200a}') || c == '\u{2028}' || c
        == '\u{2029}' || c == '\u{202f}' || c == '\u{205f}' || c == '\u{3000}'
}

/// `s` without its leading white space.
pub open spec fn trim_start(s: Seq<char>) -> Seq<char>
    decreases s.len(),
{
    if s.len() > 0 && is_white_space(s[0]) {
        trim_start(s.drop_first())
    } else {
        s
    }
}

/// `s` without its trailing white space.
pub open spec fn trim_end(s: Seq<char>) -> Seq<char>
    decreases s.len(),
{
    if s.len() > 0 && is_white_space(s.last()) {
        trim_end(s.drop_last())
    } else {
        s
    }
}

/// `s` without leading nor trailing white space, as `str::trim` returns it.
pub open spec fn trim(s: Seq<char>) -> Seq<char> {
    trim_end(trim_start(s))
}

/// ASCII upper case letters mapped to lower case, every other character unchanged.
pub open spec fn ascii_lower(c: char) -> char {
    if 'A' <= c && c <= 'Z' {
        ((c as u32) + 32) as char
    } else {
        c
    }
}

/// `s` equals the lower case word `word` once its ASCII letters are lowered.
pub open spec fn lowers_to(s: Seq<char>, word: Seq<char>) -> bool {
    &&& s.len() == word.len()
    &&& forall|i: int| 0 <= i < s.len() ==> #[trigger] ascii_lower(s[i]) == word[i]
}

proof fn lemma_trim_start_skip(s: Seq<char>, i: int)
    requires
        0 <= i <= s.len(),
        forall|j: int| 0 <= j < i ==> is_white_space(#[trigger] s[j]),
    ensures
        trim_start(s) == trim_start(s.subrange(i, s.len() as int)),
    decreases i,
{
    if i > 0 {
        assert(s.drop_first() == s.subrange(1, s.len() as int));
        lemma_trim_start_skip(s.drop_first(), i - 1);
        assert(s.drop_first().subrange(i - 1, s.drop_first().len() as int) == s.subrange(
            i,
            s.len() as int,
        ));
    } else {
        assert(s.subrange(0, s.len() as int) == s);
    }
}

proof fn lemma_trim_end_skip(s: Seq<char>, k: int)
    requires
        0 <= k <= s.len(),
        forall|j: int| k <= j < s.len() ==> is_white_space(#[trigger] s[j]),
    ensures
        trim_end(s) == trim_end(s.subrange(0, k)),
    decreases s.len() - k,
{
    if k < s.len() {
        assert(s.drop_last() == s.subrange(0, s.len() - 1));
        lemma_trim_end_skip(s.drop_last(), k);
        assert(s.drop_last().subrange(0, k) == s.subrange(0, k));
    } else {
        assert(s.subrange(0, k) == s);
    }
}

/// The characters of `s`, leading and trailing white space removed.
pub fn trimmed_chars(s: &str) -> (t: Vec<char>)
    ensures
        t@ == trim(s@),
{
    let n = s.unicode_len();
    let mut a: usize = 0;
    while a < n && white_space(s.get_char(a))
        invariant
            n == s@.len(),
            a <= n,
            forall|j: int| 0 <= j < a ==> is_white_space(#[trigger] s@[j]),
        decreases n - a,
    {
        a = a + 1;
    }
    proof {
        lemma_trim_start_skip(s@, a as int);
    }
    let ghost rest = s@.subrange(a as int, n as int);
    assert(trim_start(rest) == rest);
    let mut b: usize = n;
    while b > a && white_space(s.get_char(b - 1))
        invariant
            n == s@.len(),
            a <= b <= n,
            rest == s@.subrange(a as int, n as int),
            forall|j: int| b <= j < n ==> is_white_space(#[trigger] s@[j]),
        decreases b,
    {
        b = b - 1;
    }
    proof {
        assert forall|j: int| (b - a) <= j < rest.len() implies is_white_space(
            #[trigger] rest[j],
        ) by {
            assert(rest[j] == s@[j + a]);
        }
        lemma_trim_end_skip(rest, (b - a) as int);
        let core = rest.subrange(0, (b - a) as int);
        if core.len() > 0 {
            assert(core.last() == s@[b - 1]);
        }
        assert(trim_end(core) == core);
    }
    let mut t: Vec<char> = Vec::new();
    let mut i: usize = a;
    while i < b
        invariant
            n == s@.len(),
            a <= i <= b <= n,
            t@ == s@.subrange(a as int, i as int),
        decreases b - i,
    {
        t.push(s.get_char(i));
        i = i + 1;
    }
    proof {
        assert(s@.subrange(a as int, b as int) == rest.subrange(0, (b - a) as int));
    }
    t
}

/// Whether `s` equals the lower case word `word` once its ASCII letters are lowered.
pub fn lowers_to_word(s: &Vec<char>, word: &[char]) -> (b: bool)
    ensures
        b == lowers_to(s@, word@),
{
    if s.len() != word.len() {
        return false;
    }
    let mut i: usize = 0;
    while i < s.len()
        invariant
            s@.len() == word@.len(),
            i <= s@.len(),
            forall|j: int| 0 <= j < i ==> #[trigger] ascii_lower(s@[j]) == word@[j],
        decreases s@.len() - i,
    {
        let c = s[i];
        let l = if 'A' <= c && c <= 'Z' {
            char_from_lower_ascii(c)
        } else {
            c
        };
        assert(l == ascii_lower(s@[i as int]));
        if l != word[i] {
            assert(!(ascii_lower(s@[i as int]) == word@[i as int]));
            return false;
        }
        i = i + 1;
    }
    true
}

/// The lower case form of an ASCII upper case letter.
fn char_from_lower_ascii(c: char) -> (l: char)
    requires
        'A' <= c && c <= 'Z',
    ensures
        l == ascii_lower(c),
{
    let u: u32 = c as u32;
    let v: u8 = (u + 32) as u8;
    v as char
}

} // verus!

verus! {

/// How one character is written in HTML text: `&`, `<`, `>` and `"` become
/// entities, every other character stands as it is.
pub open spec fn html_escape_char(c: char) -> Seq<char> {
    if c == '&' {
        seq!['&', 'a', 'm', 'p', ';']
    } else if c == '<' {
        seq!['&', 'l', 't', ';']
    } else if c == '>' {
        seq!['&', 'g', 't', ';']
    } else if c == '"' {
        seq!['&', 'q', 'u', 'o', 't', ';']
    } else {
        seq![c]
    }
}

/// `s` written as HTML text, one character after the other.
pub open spec fn html_escape(s: Seq<char>) -> Seq<char>
    decreases s.len(),
{
    if s.len() == 0 {
        Seq::empty()
    } else {
        html_escape(s.drop_last()) + html_escape_char(s.last())
    }
}

/// Appends to `out` the HTML text of `s`.
pub fn push_html_escaped(out: &mut String, s: &str)
    ensures
        final(out)@ == old(out)@ + html_escape(s@),
{
    let n = s.unicode_len();
    let mut i: usize = 0;
    while i < n
        invariant
            n == s@.len(),
            i <= n,
            out@ == old(out)@ + html_escape(s@.subrange(0, i as int)),
        decreases n - i,
    {
        let c = s.get_char(i);
        let ghost before = out@;
        if c == '&' {
            out.append("&amp;");
            proof { reveal_strlit("&amp;"); }
        } else if c == '<' {
            out.append("&lt;");
            proof { reveal_strlit("&lt;"); }
        } else if c == '>' {
            out.append("&gt;");
            proof { reveal_strlit("&gt;"); }
        } else if c == '"' {
            out.append("&quot;");
            proof { reveal_strlit("&quot;"); }
        } else {
            push_char(out, c);
        }
        proof {
            let p = s@.subrange(0, i + 1);
            assert(p.drop_last() == s@.subrange(0, i as int));
            assert(p.last() == c);
            assert(out@ == before + html_escape_char(c));
        }
        i = i + 1;
    }
    proof {
        assert(s@.subrange(0, n as int) == s@);
    }
}

/// The HTML text of `s`.
pub fn html_escaped(s: &str) -> (r: String)
    ensures
        r@ == html_escape(s@),
{
    let mut r = String::new();
    push_html_escaped(&mut r, s);
    r
}

/// Appends one character to `out`.
#[verifier::external_body]
pub(crate) fn push_char(out: &mut String, c: char)
    ensures
        final(out)@ == old(out)@.push(c),
{
    out.push(c)
}

} // verus!

verus! {

/// The decimal digit of `d`, for `d < 10`.
pub open spec fn digit(d: nat) -> char {
    (('0' as u32) + d) as char
}

/// The decimal writing of `n`, without leading zeros.
pub open spec fn decimal(n: nat) -> Seq<char>
    decreases n,
{
    if n < 10 {
        seq![digit(n)]
    } else {
        decimal(n / 10).push(digit(n % 10))
    }
}

/// The decimal writing of `n`, as `usize::to_string` gives it.
pub fn decimal_string(n: usize) -> (s: String)
    ensures
        s@ == decimal(n as nat),
{
    // digits from the least significant one
    let mut digits: Vec<char> = Vec::new();
    let mut m: usize = n;
    while m >= 10
        invariant
            m <= n,
            decimal(n as nat) == decimal(m as nat) + digits@.reverse(),
        decreases m,
    {
        let c: char = digit_char((m % 10) as u32);
        proof {
            let r = digits@.reverse();
            assert(digits@.push(c).reverse() =~= seq![c] + r);
            assert(decimal(m as nat) == decimal((m / 10) as nat).push(c));
            assert(decimal((m / 10) as nat).push(c) + r =~= decimal((m / 10) as nat) + (seq![c]
                + r));
        }
        digits.push(c);
        m = m / 10;
    }
    let c: char = digit_char(m as u32);
    proof {
        let r = digits@.reverse();
        assert(digits@.push(c).reverse() =~= seq![c] + r);
        assert(decimal(m as nat) == seq![c]);
    }
    digits.push(c);
    let mut s = String::new();
    let mut k: usize = digits.len();
    while k > 0
        invariant
            k <= digits@.len(),
            s@ == digits@.subrange(k as int, digits@.len() as int).reverse(),
        decreases k,
    {
        k = k - 1;
        proof {
            let tail = digits@.subrange(k + 1, digits@.len() as int);
            assert(digits@.subrange(k as int, digits@.len() as int) =~= seq![digits@[k as int]]
                + tail);
            assert((seq![digits@[k as int]] + tail).reverse() =~= tail.reverse().push(
                digits@[k as int],
            ));
        }
        push_char(&mut s, digits[k]);
    }
    assert(digits@.subrange(0, digits@.len() as int) == digits@);
    s
}

/// The character of a decimal digit.
fn digit_char(d: u32) -> (c: char)
    requires
        d < 10,
    ensures
        c == digit(d as nat),
        '0' <= c <= '9',
{
    let b: u8 = (48 + d) as u8;
    b as char
}

/// The HTML table cell that shows `value` under the header `header`.
pub open spec fn cell_html(header: Seq<char>, value: Seq<char>) -> Seq<char> {
    "<th>"@ + header + "</th><td>"@ + value + "</td>"@
}

/// Whether `html` holds, somewhere, the cell that shows `value` under the
/// header `header`.
pub open spec fn shows_cell(html: Seq<char>, header: Seq<char>, value: Seq<char>) -> bool {
    exists|i: int|
        0 <= i && i + cell_html(header, value).len() <= html.len() && #[trigger] html.subrange(
            i,
            i + cell_html(header, value).len(),
        ) == cell_html(header, value)
}

/// Text placed around a cell keeps the cell in it.
pub proof fn lemma_shows_cell(x: Seq<char>, header: Seq<char>, value: Seq<char>, y: Seq<char>)
    ensures
        shows_cell(x + cell_html(header, value) + y, header, value),
{
    let c = cell_html(header, value);
    let html = x + c + y;
    assert(html.subrange(x.len() as int, (x.len() + c.len()) as int) =~= c);
}

/// A cell whose header opening ends `lit` and whose closing starts `post`
/// stands in `pre + lit + value + post`.
pub proof fn lemma_cell_between(
    pre: Seq<char>,
    lit: Seq<char>,
    header: Seq<char>,
    value: Seq<char>,
    post: Seq<char>,
)
    requires
        lit.len() >= ("<th>"@ + header + "</th><td>"@).len(),
        lit.subrange(lit.len() - ("<th>"@ + header + "</th><td>"@).len(), lit.len() as int) == "<th>"@
            + header + "</th><td>"@,
        post.len() >= 5,
        post.subrange(0, 5) == "</td>"@,
    ensures
        shows_cell(pre + lit + value + post, header, value),
{
    let h = "<th>"@ + header + "</th><td>"@;
    let l0 = lit.subrange(0, lit.len() - h.len());
    let y = post.subrange(5, post.len() as int);
    assert(lit =~= l0 + h);
    assert(post =~= "</td>"@ + y);
    let html = pre + lit + value + post;
    assert(html =~= (pre + l0) + cell_html(header, value) + y);
    lemma_shows_cell(pre + l0, header, value, y);
}

/// Text appended after a cell keeps the cell.
pub proof fn lemma_cell_extends(html: Seq<char>, y: Seq<char>, header: Seq<char>, value: Seq<char>)
    requires
        shows_cell(html, header, value),
    ensures
        shows_cell(html + y, header, value),
{
    let c = cell_html(header, value);
    let i = choose|i: int|
        0 <= i && i + c.len() <= html.len() && #[trigger] html.subrange(i, i + c.len()) == c;
    assert((html + y).subrange(i, i + c.len()) =~= html.subrange(i, i + c.len()));
}

} // verus!
