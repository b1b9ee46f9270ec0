//! Whitespace tokenization of an input line, with a sequence model.
//!
//! A line is split on runs of whitespace; empty fragments are discarded.
//! The spec-level model [`tokens_of`] is a fold over the characters that
//! the executable [`tokenize`] is proved to implement.

use vstd::prelude::*;
use vstd::string::StrSliceExecFns;

verus! {

/// The characters the tokenizer treats as whitespace: the Unicode
/// White_Space set.
pub open spec fn is_space(c: char) -> bool {
    ||| c == ' '
    ||| ('\u{0009}' <= c && c <= '\u{000D}')
    ||| c == '\u{0085}'
    ||| c == '\u{00A0}'
    ||| c == '\u{1680}'
    ||| ('\u{2000}' <= c && c <= '\u{200A}')
    ||| c == '\u{2028}'
    ||| c == '\u{2029}'
    ||| c == '\u{202F}'
    ||| c == '\u{205F}'
    ||| c == '\u{3000}'
}

/// A pending token becomes one sequence element; an empty pending token
/// is discarded.
pub open spec fn emit(token: Seq<char>) -> Seq<Seq<char>> {
    if token.len() == 0 {
        Seq::empty()
    } else {
        seq![token]
    }
}

/// Folds over `s`, accumulating the current token in `cur` and emitting
/// it at each whitespace character and at the end of the input.
pub open spec fn tokens_go(s: Seq<char>, cur: Seq<char>) -> Seq<Seq<char>>
    decreases s.len(),
{
    if s.len() == 0 {
        emit(cur)
    } else if is_space(s[0]) {
        emit(cur) + tokens_go(s.skip(1), Seq::empty())
    } else {
        tokens_go(s.skip(1), cur.push(s[0]))
    }
}

/// The whitespace-separated tokens of `s`, in order, with no empty tokens.
pub open spec fn tokens_of(s: Seq<char>) -> Seq<Seq<char>> {
    tokens_go(s, Seq::empty())
}

/// The character sequences of a sequence of owned strings.
pub open spec fn token_views(tokens: Seq<String>) -> Seq<Seq<char>> {
    tokens.map_values(|t: String| t@)
}

/// A maximal non-whitespace run of length `k` at the front of `s`, joined
/// to the pending token `cur`, is emitted as one token; tokenization then
/// restarts after the run.
proof fn lemma_tokens_go_run(s: Seq<char>, cur: Seq<char>, k: int)
    requires
        0 <= k <= s.len(),
        forall|m: int| 0 <= m < k ==> !is_space(s[m]),
        k == s.len() || is_space(s[k]),
    ensures
        tokens_go(s, cur) == emit(cur + s.take(k)) + tokens_go(s.skip(k), Seq::empty()),
    decreases k,
{
    if k == 0 {
        assert(cur + s.take(0) =~= cur);
        if s.len() == 0 {
            assert(tokens_go(s.skip(0), Seq::empty()) =~= Seq::<Seq<char>>::empty());
            assert(tokens_go(s, cur) =~= emit(cur) + Seq::<Seq<char>>::empty());
        } else {
            assert(s.skip(0) =~= s);
        }
    } else {
        lemma_tokens_go_run(s.skip(1), cur.push(s[0]), k - 1);
        assert(cur.push(s[0]) + s.skip(1).take(k - 1) =~= cur + s.take(k));
        assert(s.skip(1).skip(k - 1) =~= s.skip(k));
    }
}

/// Checks one character for whitespace.
fn is_space_char(c: char) -> (r: bool)
    ensures
        r == is_space(c),
{
    let v = c as u32;
    v == 0x20 || (0x09 <= v && v <= 0x0D) || v == 0x85 || v == 0xA0 || v == 0x1680 || (0x2000 <= v
        && v <= 0x200A) || v == 0x2028 || v == 0x2029 || v == 0x202F || v == 0x205F || v == 0x3000
}

/// Splits `line` on whitespace, discarding empty fragments.
pub fn tokenize(line: &str) -> (tokens: Vec<String>)
    ensures
        token_views(tokens@) == tokens_of(line@),
{
    let n = line.unicode_len();
    let mut tokens: Vec<String> = Vec::new();
    let mut i: usize = 0;
    proof {
        assert(line@.skip(0) =~= line@);
        assert(token_views(tokens@) + tokens_go(line@, Seq::empty()) =~= tokens_go(
            line@,
            Seq::empty(),
        ));
    }
    while i < n
        invariant
            i <= n,
            n == line@.len(),
            tokens_of(line@) == token_views(tokens@) + tokens_go(
                line@.skip(i as int),
                Seq::empty(),
            ),
        decreases n - i,
    {
        let c = line.get_char(i);
        if is_space_char(c) {
            proof {
                assert(line@.skip(i as int).skip(1) =~= line@.skip(i + 1));
                assert(token_views(tokens@) + tokens_go(line@.skip(i as int), Seq::empty())
                    =~= token_views(tokens@) + tokens_go(line@.skip(i + 1), Seq::empty()));
            }
            i = i + 1;
        } else {
            let ghost suffix = line@.skip(i as int);
            let mut j: usize = i + 1;
            while j < n
                invariant
                    i < j <= n,
                    n == line@.len(),
                    forall|m: int| i <= m < j ==> !is_space(line@[m]),
                ensures
                    i < j <= n,
                    forall|m: int| i <= m < j ==> !is_space(line@[m]),
                    j == n || is_space(line@[j as int]),
                decreases n - j,
            {
                if is_space_char(line.get_char(j)) {
                    break;
                }
                j = j + 1;
            }
            let token = line.substring_char(i, j).to_owned();
            proof {
                let k = j - i;
                assert forall|m: int| 0 <= m < k implies !is_space(suffix[m]) by {
                    assert(suffix[m] == line@[i + m]);
                }
                lemma_tokens_go_run(suffix, Seq::empty(), k);
                assert(Seq::<char>::empty() + suffix.take(k) =~= line@.subrange(
                    i as int,
                    j as int,
                ));
                assert(suffix.skip(k) =~= line@.skip(j as int));
                assert(emit(line@.subrange(i as int, j as int)) =~= seq![token@]);
                assert(token_views(tokens@.push(token)) =~= token_views(tokens@) + seq![token@]);
                assert(token_views(tokens@) + tokens_go(suffix, Seq::empty())
                    =~= token_views(tokens@.push(token)) + tokens_go(
                    line@.skip(j as int),
                    Seq::empty(),
                ));
            }
            tokens.push(token);
            i = j;
        }
    }
    proof {
        assert(line@.skip(n as int) =~= Seq::<char>::empty());
        assert(tokens_go(Seq::<char>::empty(), Seq::<char>::empty()) =~= Seq::<Seq<char>>::empty());
        assert(token_views(tokens@) + Seq::<Seq<char>>::empty() =~= token_views(tokens@));
    }
    tokens
}

/// Compares two string slices character for character.
pub fn str_eq(a: &str, b: &str) -> (r: bool)
    ensures
        r == (a@ == b@),
{
    let x: String = a.to_owned();
    let y: String = b.to_owned();
    x == y
}

} // verus!
