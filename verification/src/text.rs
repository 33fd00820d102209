//! Whitespace handling for line-oriented input: surround-trimming and
//! whitespace-delimited token extraction.

use vstd::prelude::*;

verus! {

/// The characters that trimming and token splitting treat as whitespace:
/// the Unicode `White_Space` set, as `char::is_whitespace` draws it.
pub open spec fn is_space(c: char) -> bool {
    ||| c == ' ' || c == '\t' || c == '\n' || c == '\r' || c == '\u{b}' || c == '\u{c}'
    ||| c == '\u{85}' || c == '\u{a0}' || c == '\u{1680}'
    ||| ('\u{2000}' <= c && c <= '\u{200a}')
    ||| c == '\u{2028}' || c == '\u{2029}' || c == '\u{202f}' || c == '\u{205f}'
    ||| c == '\u{3000}'
}

fn is_space_char(c: char) -> (r: bool)
    ensures
        r == is_space(c),
{
    c == ' ' || c == '\t' || c == '\n' || c == '\r' || c == '\u{b}' || c == '\u{c}'
        || c == '\u{85}' || c == '\u{a0}' || c == '\u{1680}'
        || ('\u{2000}' <= c && c <= '\u{200a}')
        || c == '\u{2028}' || c == '\u{2029}' || c == '\u{202f}' || c == '\u{205f}'
        || c == '\u{3000}'
}

/// `s` with its leading whitespace removed.
pub open spec fn trim_front(s: Seq<char>) -> Seq<char>
    decreases s.len(),
{
    if s.len() > 0 && is_space(s[0]) {
        trim_front(s.drop_first())
    } else {
        s
    }
}

/// `s` with its trailing whitespace removed.
pub open spec fn trim_back(s: Seq<char>) -> Seq<char>
    decreases s.len(),
{
    if s.len() > 0 && is_space(s.last()) {
        trim_back(s.drop_last())
    } else {
        s
    }
}

/// `s` with both leading and trailing whitespace removed.
pub open spec fn trim_spec(s: Seq<char>) -> Seq<char> {
    trim_back(trim_front(s))
}

fn trim_front_exec(s: &str) -> (r: String)
    ensures
        r@ == trim_front(s@),
    decreases s@.len(),
{
    let n: usize = s.unicode_len();
    if n > 0 && is_space_char(s.get_char(0)) {
        let rest = s.substring_char(1, n);
        proof {
            assert(rest@ =~= s@.drop_first());
        }
        trim_front_exec(rest)
    } else {
        s.to_owned()
    }
}

fn trim_back_exec(s: &str) -> (r: String)
    ensures
        r@ == trim_back(s@),
    decreases s@.len(),
{
    let n: usize = s.unicode_len();
    if n > 0 && is_space_char(s.get_char(n - 1)) {
        let rest = s.substring_char(0, n - 1);
        proof {
            assert(rest@ =~= s@.drop_last());
        }
        trim_back_exec(rest)
    } else {
        s.to_owned()
    }
}

/// Removes the surrounding whitespace of `s`.
pub fn trim(s: &str) -> (r: String)
    ensures
        r@ == trim_spec(s@),
{
    let front_trimmed = trim_front_exec(s);
    trim_back_exec(front_trimmed.as_str())
}

/// `s` carries no surrounding whitespace.
pub open spec fn is_trimmed(s: Seq<char>) -> bool {
    s.len() == 0 || (!is_space(s[0]) && !is_space(s.last()))
}

proof fn lemma_trim_front_no_leading_space(s: Seq<char>)
    ensures
        trim_front(s).len() == 0 || !is_space(trim_front(s)[0]),
        trim_front(s).len() <= s.len(),
    decreases s.len(),
{
    if s.len() > 0 && is_space(s[0]) {
        lemma_trim_front_no_leading_space(s.drop_first());
    }
}

proof fn lemma_trim_back_props(s: Seq<char>)
    ensures
        trim_back(s).len() == 0 || !is_space(trim_back(s).last()),
        trim_back(s).len() <= s.len(),
        trim_back(s).len() > 0 ==> trim_back(s)[0] == s[0],
    decreases s.len(),
{
    if s.len() > 0 && is_space(s.last()) {
        lemma_trim_back_props(s.drop_last());
    }
}

/// What trimming yields carries no surrounding whitespace.
pub proof fn lemma_trim_yields_trimmed(s: Seq<char>)
    ensures
        is_trimmed(trim_spec(s)),
{
    lemma_trim_front_no_leading_space(s);
    lemma_trim_back_props(trim_front(s));
}

/// Trimming a value that carries no surrounding whitespace gives it back:
/// re-trimming on every write never changes a stored value.
pub proof fn lemma_trimmed_fixed_point(s: Seq<char>)
    ensures
        is_trimmed(s) ==> trim_spec(s) == s,
{
}

/// The maximal whitespace-free prefix of `s`.
pub open spec fn take_token(s: Seq<char>) -> Seq<char>
    decreases s.len(),
{
    if s.len() > 0 && !is_space(s[0]) {
        seq![s[0]] + take_token(s.drop_first())
    } else {
        Seq::empty()
    }
}

/// What remains of `s` after its maximal whitespace-free prefix.
pub open spec fn drop_token(s: Seq<char>) -> Seq<char>
    decreases s.len(),
{
    if s.len() > 0 && !is_space(s[0]) {
        drop_token(s.drop_first())
    } else {
        s
    }
}

fn take_token_exec(s: &str) -> (r: String)
    ensures
        r@ == take_token(s@),
    decreases s@.len(),
{
    let n: usize = s.unicode_len();
    if n > 0 && !is_space_char(s.get_char(0)) {
        let mut r = s.substring_char(0, 1).to_owned();
        let rest = s.substring_char(1, n);
        proof {
            assert(rest@ =~= s@.drop_first());
        }
        let tail = take_token_exec(rest);
        r.append(tail.as_str());
        proof {
            assert(r@ =~= take_token(s@));
        }
        r
    } else {
        String::new()
    }
}

fn drop_token_exec(s: &str) -> (r: String)
    ensures
        r@ == drop_token(s@),
    decreases s@.len(),
{
    let n: usize = s.unicode_len();
    if n > 0 && !is_space_char(s.get_char(0)) {
        let rest = s.substring_char(1, n);
        proof {
            assert(rest@ =~= s@.drop_first());
        }
        drop_token_exec(rest)
    } else {
        s.to_owned()
    }
}

/// The first whitespace-delimited token of `line`; empty when the line is
/// blank.
pub open spec fn first_token_spec(line: Seq<char>) -> Seq<char> {
    take_token(trim_front(line))
}

/// The second whitespace-delimited token of `line`; empty when the line has
/// fewer than two tokens.
pub open spec fn second_token_spec(line: Seq<char>) -> Seq<char> {
    take_token(trim_front(drop_token(trim_front(line))))
}

/// Extracts the first whitespace-delimited token of `line`.
pub fn first_token(line: &str) -> (t: String)
    ensures
        t@ == first_token_spec(line@),
{
    let rest = trim_front_exec(line);
    take_token_exec(rest.as_str())
}

/// Extracts the second whitespace-delimited token of `line`.
pub fn second_token(line: &str) -> (t: String)
    ensures
        t@ == second_token_spec(line@),
{
    let rest = trim_front_exec(line);
    let after_first = drop_token_exec(rest.as_str());
    let rest2 = trim_front_exec(after_first.as_str());
    take_token_exec(rest2.as_str())
}

} // verus!
