//! Whitespace tokenization of command strings.
//!
//! A command string is split into tokens: maximal runs of characters that are
//! not white space. The first token names the program, the remaining tokens
//! are its arguments, passed verbatim. There is no quoting or escaping, so a
//! token containing white space cannot be expressed; that is a documented
//! limitation of the command-string form, not a defect.

use vstd::prelude::*;
use vstd::string::*;

verus! {

/// A character on which command strings are split: the Unicode white-space
/// characters, the same set that `char::is_whitespace` recognises.
pub open spec fn is_command_space(c: char) -> bool {
    let u = c as u32;
    ||| u == 0x20
    ||| (0x09 <= u && u <= 0x0d)
    ||| u == 0x85
    ||| u == 0xa0
    ||| u == 0x1680
    ||| (0x2000 <= u && u <= 0x200a)
    ||| u == 0x2028
    ||| u == 0x2029
    ||| u == 0x202f
    ||| u == 0x205f
    ||| u == 0x3000
}

/// The tokens that remain in `s`, given that `cur` is the (possibly empty)
/// partial token read just before `s` starts.
pub open spec fn split_tokens(s: Seq<char>, cur: Seq<char>) -> Seq<Seq<char>>
    decreases s.len(),
{
    if s.len() == 0 {
        if cur.len() == 0 {
            Seq::<Seq<char>>::empty()
        } else {
            seq![cur]
        }
    } else if is_command_space(s[0]) {
        if cur.len() == 0 {
            split_tokens(s.drop_first(), Seq::<char>::empty())
        } else {
            seq![cur] + split_tokens(s.drop_first(), Seq::<char>::empty())
        }
    } else {
        split_tokens(s.drop_first(), cur.push(s[0]))
    }
}

/// The white-space tokens of a command string: its maximal runs of
/// non-white-space characters, in order.
pub open spec fn tokens_of(s: Seq<char>) -> Seq<Seq<char>> {
    split_tokens(s, Seq::<char>::empty())
}

/// The character sequences held by a sequence of owned strings.
pub open spec fn token_views(v: Seq<String>) -> Seq<Seq<char>> {
    v.map_values(|t: String| t@)
}

/// Whether `c` is a character command strings are split on.
fn is_space_char(c: char) -> (b: bool)
    ensures
        b == is_command_space(c),
{
    let u = c as u32;
    u == 0x20 || (0x09 <= u && u <= 0x0d) || u == 0x85 || u == 0xa0 || u == 0x1680 || (0x2000 <= u
        && u <= 0x200a) || u == 0x2028 || u == 0x2029 || u == 0x202f || u == 0x205f || u == 0x3000
}

/// Reading a run of non-space characters advances `split_tokens` past the run,
/// appending the run to the partial token.
proof fn lemma_split_tokens_scan(s: Seq<char>, cur: Seq<char>, j: int)
    requires
        0 <= j <= s.len(),
        forall|k: int| 0 <= k < j ==> !is_command_space(s[k]),
    ensures
        split_tokens(s, cur) == split_tokens(s.skip(j), cur + s.take(j)),
    decreases j,
{
    if j == 0 {
        assert(s.skip(0) =~= s);
        assert(cur + s.take(0) =~= cur);
    } else {
        assert(!is_command_space(s[0]));
        assert(forall|k: int|
            0 <= k < j - 1 ==> !is_command_space(#[trigger] s.drop_first()[k])) by {
            assert(forall|k: int| 0 <= k < j - 1 ==> #[trigger] s.drop_first()[k] == s[k + 1]);
        }
        lemma_split_tokens_scan(s.drop_first(), cur.push(s[0]), j - 1);
        assert(s.drop_first().skip(j - 1) =~= s.skip(j));
        assert(cur.push(s[0]) + s.drop_first().take(j - 1) =~= cur + s.take(j));
    }
}

/// A maximal run of non-space characters starting at `start` and ending at
/// `end` contributes exactly one token, the run itself.
proof fn lemma_token_run(s: Seq<char>, start: int, end: int)
    requires
        0 <= start < end <= s.len(),
        forall|k: int| start <= k < end ==> !is_command_space(s[k]),
        end == s.len() || is_command_space(s[end]),
    ensures
        split_tokens(s.skip(start), Seq::<char>::empty()) == seq![s.subrange(start, end)]
            + split_tokens(s.skip(end), Seq::<char>::empty()),
{
    let run = s.subrange(start, end);
    assert(forall|k: int|
        0 <= k < end - start ==> !is_command_space(#[trigger] s.skip(start)[k])) by {
        assert(forall|k: int|
            0 <= k < end - start ==> #[trigger] s.skip(start)[k] == s[start + k]);
    }
    lemma_split_tokens_scan(s.skip(start), Seq::<char>::empty(), end - start);
    assert(s.skip(start).skip(end - start) =~= s.skip(end));
    assert(Seq::<char>::empty() + s.skip(start).take(end - start) =~= run);
    if end == s.len() {
        assert(s.skip(end) =~= Seq::<char>::empty());
        assert(split_tokens(s.skip(end), run) =~= seq![run]);
        assert(split_tokens(s.skip(end), Seq::<char>::empty())
            =~= Seq::<Seq<char>>::empty());
        assert(seq![run] + Seq::<Seq<char>>::empty() =~= seq![run]);
    } else {
        assert(s.skip(end)[0] == s[end]);
        assert(is_command_space(s.skip(end)[0]));
        assert(split_tokens(s.skip(end), run) == seq![run]
            + split_tokens(s.skip(end).drop_first(), Seq::<char>::empty()));
        assert(split_tokens(s.skip(end), Seq::<char>::empty())
            == split_tokens(s.skip(end).drop_first(), Seq::<char>::empty()));
    }
}

/// A string of white space alone holds no token.
proof fn lemma_space_only(s: Seq<char>)
    requires
        forall|i: int| 0 <= i < s.len() ==> is_command_space(s[i]),
    ensures
        tokens_of(s).len() == 0,
    decreases s.len(),
{
    if s.len() > 0 {
        assert(forall|i: int|
            0 <= i < s.drop_first().len() ==> is_command_space(#[trigger] s.drop_first()[i])) by {
            assert(forall|i: int|
                0 <= i < s.drop_first().len() ==> #[trigger] s.drop_first()[i] == s[i + 1]);
        }
        lemma_space_only(s.drop_first());
    }
}

/// A partial token already read, or any non-space character still to come,
/// yields at least one token.
proof fn lemma_split_tokens_nonempty(s: Seq<char>, cur: Seq<char>)
    requires
        cur.len() > 0 || exists|i: int| 0 <= i < s.len() && !is_command_space(s[i]),
    ensures
        split_tokens(s, cur).len() >= 1,
    decreases s.len(),
{
    if s.len() == 0 {
    } else if is_command_space(s[0]) {
        if cur.len() == 0 {
            let i: int = choose|i: int| 0 <= i < s.len() && !is_command_space(s[i]);
            assert(i != 0);
            assert(s.drop_first()[i - 1] == s[i]);
            lemma_split_tokens_nonempty(s.drop_first(), Seq::<char>::empty());
        }
    } else {
        lemma_split_tokens_nonempty(s.drop_first(), cur.push(s[0]));
    }
}

/// A command string holds no token exactly when it is empty or all white
/// space.
pub proof fn lemma_no_tokens_iff_all_space(s: Seq<char>)
    ensures
        tokens_of(s).len() == 0 <==> (forall|i: int| 0 <= i < s.len() ==> is_command_space(s[i])),
{
    if forall|i: int| 0 <= i < s.len() ==> is_command_space(s[i]) {
        lemma_space_only(s);
    } else {
        assert(exists|i: int| 0 <= i < s.len() && !is_command_space(s[i]));
        lemma_split_tokens_nonempty(s, Seq::<char>::empty());
    }
}

/// What a token is: a non-empty run of non-white-space characters.
pub open spec fn is_token(t: Seq<char>) -> bool {
    t.len() > 0 && forall|k: int| 0 <= k < t.len() ==> !is_command_space(t[k])
}

/// Every token that splitting yields is a token proper, provided the partial
/// token read so far holds no white space.
proof fn lemma_split_tokens_proper(s: Seq<char>, cur: Seq<char>)
    requires
        forall|k: int| 0 <= k < cur.len() ==> !is_command_space(cur[k]),
    ensures
        forall|i: int|
            0 <= i < split_tokens(s, cur).len() ==> is_token(#[trigger] split_tokens(s, cur)[i]),
    decreases s.len(),
{
    if s.len() == 0 {
        if cur.len() > 0 {
            assert(split_tokens(s, cur) == seq![cur]);
            assert(split_tokens(s, cur)[0] == cur);
        }
    } else if is_command_space(s[0]) {
        lemma_split_tokens_proper(s.drop_first(), Seq::<char>::empty());
        let rest = split_tokens(s.drop_first(), Seq::<char>::empty());
        if cur.len() == 0 {
            assert forall|i: int|
                0 <= i < split_tokens(s, cur).len() implies is_token(
                #[trigger] split_tokens(s, cur)[i],
            ) by {
                assert(split_tokens(s, cur)[i] == rest[i]);
            }
        } else {
            assert forall|i: int|
                0 <= i < split_tokens(s, cur).len() implies is_token(
                #[trigger] split_tokens(s, cur)[i],
            ) by {
                if i == 0 {
                    assert(split_tokens(s, cur)[0] == cur);
                } else {
                    assert(split_tokens(s, cur)[i] == rest[i - 1]);
                }
            }
        }
    } else {
        assert(forall|k: int|
            0 <= k < cur.push(s[0]).len() ==> !is_command_space(#[trigger] cur.push(s[0])[k]))
            by {
            assert(cur.push(s[0])[cur.len() as int] == s[0]);
        }
        lemma_split_tokens_proper(s.drop_first(), cur.push(s[0]));
        let rest = split_tokens(s.drop_first(), cur.push(s[0]));
        assert forall|i: int|
            0 <= i < split_tokens(s, cur).len() implies is_token(
            #[trigger] split_tokens(s, cur)[i],
        ) by {
            assert(split_tokens(s, cur)[i] == rest[i]);
        }
    }
}

/// Every token of a command string is a non-empty run of non-white-space
/// characters: white space only ever separates tokens, never enters one.
pub proof fn lemma_tokens_are_tokens(s: Seq<char>)
    ensures
        forall|i: int| 0 <= i < tokens_of(s).len() ==> is_token(#[trigger] tokens_of(s)[i]),
{
    lemma_split_tokens_proper(s, Seq::<char>::empty());
}

/// Finds the end of the run of non-space characters that starts at `start`.
fn scan_token_end(s: &str, start: usize, n: usize) -> (end: usize)
    requires
        n == s@.len(),
        start < n,
        !is_command_space(s@[start as int]),
    ensures
        start < end <= n,
        forall|k: int| start <= k < end ==> !is_command_space(s@[k]),
        end < n ==> is_command_space(s@[end as int]),
{
    let mut end: usize = start + 1;
    loop
        invariant
            n == s@.len(),
            start < end <= n,
            forall|k: int| start <= k < end ==> !is_command_space(s@[k]),
        ensures
            start < end <= n,
            forall|k: int| start <= k < end ==> !is_command_space(s@[k]),
            end < n ==> is_command_space(s@[end as int]),
        decreases n - end,
    {
        if end == n {
            break ;
        }
        let c = s.get_char(end);
        if is_space_char(c) {
            break ;
        }
        end = end + 1;
    }
    end
}

/// Splits a command string into its white-space tokens.
pub fn tokenize(s: &str) -> (tokens: Vec<String>)
    ensures
        token_views(tokens@) == tokens_of(s@),
{
    let n = s.unicode_len();
    let mut tokens: Vec<String> = Vec::new();
    let mut i: usize = 0;
    proof {
        assert(s@.skip(0) =~= s@);
        assert(token_views(tokens@) =~= Seq::<Seq<char>>::empty());
        assert(Seq::<Seq<char>>::empty() + split_tokens(s@, Seq::<char>::empty())
            =~= split_tokens(s@, Seq::<char>::empty()));
    }
    while i < n
        invariant
            n == s@.len(),
            i <= n,
            tokens_of(s@) == token_views(tokens@) + split_tokens(
                s@.skip(i as int),
                Seq::<char>::empty(),
            ),
        decreases n - i,
    {
        let c = s.get_char(i);
        if is_space_char(c) {
            proof {
                assert(s@.skip(i as int)[0] == s@[i as int]);
                assert(s@.skip(i as int).drop_first() =~= s@.skip(i + 1));
            }
            i = i + 1;
        } else {
            let start = i;
            i = scan_token_end(s, start, n);
            let run = s.substring_char(start, i);
            let token = String::from_str(run);
            proof {
                lemma_token_run(s@, start as int, i as int);
                assert(token_views(tokens@.push(token)) =~= token_views(tokens@)
                    + seq![token@]);
                assert(token_views(tokens@) + (seq![s@.subrange(start as int, i as int)]
                    + split_tokens(s@.skip(i as int), Seq::<char>::empty()))
                    =~= (token_views(tokens@) + seq![token@]) + split_tokens(
                    s@.skip(i as int),
                    Seq::<char>::empty(),
                ));
            }
            tokens.push(token);
        }
    }
    proof {
        assert(s@.skip(n as int) =~= Seq::<char>::empty());
        assert(token_views(tokens@) + split_tokens(Seq::<char>::empty(), Seq::<char>::empty())
            =~= token_views(tokens@));
    }
    tokens
}

} // verus!
