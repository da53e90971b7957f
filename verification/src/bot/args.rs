use vstd::prelude::*;
use vstd::string::*;

verus! {

/// Whether the character is white space, as Unicode defines it.
pub uninterp spec fn is_space(c: char) -> bool;

/// Calls `char::is_whitespace`, which tells whether the character has Unicode's property
/// White_Space.
#[verifier::external_body]
fn is_whitespace(c: char) -> (space: bool)
    ensures
        space == is_space(c),
{
    c.is_whitespace()
}

/// The first position at or after `from` that holds no white space, or the end.
pub open spec fn skip_spaces(s: Seq<char>, from: int) -> int
    decreases s.len() - from,
{
    if 0 <= from < s.len() && is_space(s[from]) {
        skip_spaces(s, from + 1)
    } else {
        from
    }
}

/// The first position at or after `from` that holds white space, or the end.
pub open spec fn token_end(s: Seq<char>, from: int) -> int
    decreases s.len() - from,
{
    if 0 <= from < s.len() && !is_space(s[from]) {
        token_end(s, from + 1)
    } else {
        from
    }
}

/// The first position at or after `from` that holds a double quote, or the end.
pub open spec fn next_quote(s: Seq<char>, from: int) -> int
    decreases s.len() - from,
{
    if 0 <= from < s.len() && s[from] != '"' {
        next_quote(s, from + 1)
    } else {
        from
    }
}

/// Whether a double quote stands at one of the positions from `from` up to `to`.
pub open spec fn has_quote(s: Seq<char>, from: int, to: int) -> bool {
    exists|k: int| from <= k < to && 0 <= k < s.len() && s[k] == '"'
}

/// `first` put before the arguments that follow, if the rest of the line is well formed.
pub open spec fn and_then(first: Seq<char>, rest: Option<Seq<Seq<char>>>) -> Option<
    Seq<Seq<char>>,
> {
    match rest {
        Some(args) => Some(seq![first] + args),
        None => None,
    }
}

/// The arguments that the line holds from position `from` on. An argument is what stands
/// between two double quotes, if that is one character or more, or else a stretch without
/// white space. White space between arguments counts for nothing. A stretch without white
/// space that holds a double quote anywhere but at its start makes the line malformed.
pub open spec fn args_from(s: Seq<char>, from: int) -> Option<Seq<Seq<char>>>
    decreases s.len() - from,
    via args_from_decreases
{
    let start = skip_spaces(s, from);
    if from < 0 || start >= s.len() {
        Some(Seq::empty())
    } else {
        let close = next_quote(s, start + 1);
        if s[start] == '"' && start + 1 < close < s.len() {
            and_then(s.subrange(start + 1, close), args_from(s, close + 1))
        } else {
            let end = token_end(s, start);
            if has_quote(s, start + 1, end) {
                None
            } else {
                and_then(s.subrange(start, end), args_from(s, end))
            }
        }
    }
}

#[via_fn]
proof fn args_from_decreases(s: Seq<char>, from: int) {
    lemma_skip_spaces(s, from);
    let start = skip_spaces(s, from);
    if from >= 0 && start < s.len() {
        lemma_token_end(s, start);
    }
}

/// The arguments that the line holds, or `None` where it is malformed.
pub open spec fn quoted_args(s: Seq<char>) -> Option<Seq<Seq<char>>> {
    args_from(s, 0)
}

proof fn lemma_skip_spaces(s: Seq<char>, from: int)
    ensures
        from <= skip_spaces(s, from),
        0 <= from <= s.len() ==> skip_spaces(s, from) <= s.len(),
        0 <= skip_spaces(s, from) < s.len() ==> !is_space(s[skip_spaces(s, from)]),
    decreases s.len() - from,
{
    if 0 <= from < s.len() && is_space(s[from]) {
        lemma_skip_spaces(s, from + 1);
    }
}

proof fn lemma_token_end(s: Seq<char>, from: int)
    ensures
        from <= token_end(s, from),
        0 <= from <= s.len() ==> token_end(s, from) <= s.len(),
        0 <= from < s.len() && !is_space(s[from]) ==> from < token_end(s, from),
    decreases s.len() - from,
{
    if 0 <= from < s.len() && !is_space(s[from]) {
        lemma_token_end(s, from + 1);
    }
}

/// The characters of `s`, one by one.
pub(crate) fn chars_of(s: &str) -> (chars: Vec<char>)
    ensures
        chars@ == s@,
{
    let mut chars: Vec<char> = Vec::new();
    for c in it: s.chars()
        invariant
            it.seq() == s@,
            chars@ == s@.take(it.index() as int),
    {
        assert(s@.take(it.index() + 1) == s@.take(it.index() as int).push(c));
        chars.push(c);
    }
    assert(s@.take(s@.len() as int) == s@);
    chars
}

/// Splits a line into its arguments. An argument is what stands between two double quotes,
/// white space included, or else a stretch without white space. A double quote that stands
/// inside or at the end of such a stretch makes the line malformed.
pub fn split_quoted_args(s: &str) -> (args: Option<Vec<String>>)
    ensures
        match quoted_args(s@) {
            Some(expected) => args is Some && args.unwrap()@.map_values(|a: String| a@)
                == expected,
            None => args is None,
        },
{
    let chars = chars_of(s);
    let n = chars.len();
    let mut args: Vec<String> = Vec::new();
    let mut i: usize = 0;
    proof {
        if let Some(all) = args_from(s@, 0) {
            assert(args@.map_values(|a: String| a@) + all == all);
        }
    }
    loop
        invariant
            chars@ == s@,
            n == chars.len(),
            i <= n,
            match args_from(s@, i as int) {
                Some(rest) => quoted_args(s@) == Some(args@.map_values(|a: String| a@) + rest),
                None => quoted_args(s@) is None,
            },
        decreases n - i,
    {
        let ghost from = i as int;
        let ghost found = args@.map_values(|a: String| a@);
        while i < n && is_whitespace(chars[i])
            invariant
                chars@ == s@,
                n == chars.len(),
                from <= i <= n,
                skip_spaces(s@, from) == skip_spaces(s@, i as int),
            decreases n - i,
        {
            i += 1;
        }
        if i >= n {
            assert(found + Seq::<Seq<char>>::empty() == found);
            return Some(args);
        }
        let start = i;
        let mut close = start + 1;
        while close < n && chars[close] != '"'
            invariant
                chars@ == s@,
                n == chars.len(),
                start < close <= n,
                next_quote(s@, start + 1) == next_quote(s@, close as int),
            decreases n - close,
        {
            close += 1;
        }
        if chars[start] == '"' && start + 1 < close && close < n {
            let arg = s.substring_char(start + 1, close).to_owned();
            proof {
                lemma_found_one(found, arg@, args_from(s@, close + 1));
            }
            args.push(arg);
            assert(args@.map_values(|a: String| a@) == found.push(arg@));
            i = close + 1;
        } else {
            let mut end = start;
            let mut quote = false;
            while end < n && !is_whitespace(chars[end])
                invariant
                    chars@ == s@,
                    n == chars.len(),
                    start <= end <= n,
                    token_end(s@, start as int) == token_end(s@, end as int),
                    quote == has_quote(s@, start + 1, end as int),
                decreases n - end,
            {
                let ghost before = quote;
                if end > start && chars[end] == '"' {
                    quote = true;
                }
                proof {
                    if before {
                        let k = choose|k: int|
                            start + 1 <= k < end && 0 <= k < s@.len() && s@[k] == '"';
                        assert(start + 1 <= k < end + 1 && s@[k] == '"');
                    }
                    if end > start && s@[end as int] == '"' {
                        assert(start + 1 <= end < end + 1 && s@[end as int] == '"');
                    }
                }
                end += 1;
            }
            if quote {
                return None;
            }
            proof {
                lemma_token_end(s@, start as int);
            }
            let arg = s.substring_char(start, end).to_owned();
            proof {
                lemma_found_one(found, arg@, args_from(s@, end as int));
            }
            args.push(arg);
            assert(args@.map_values(|a: String| a@) == found.push(arg@));
            i = end;
        }
    }
}

proof fn lemma_found_one(found: Seq<Seq<char>>, arg: Seq<char>, rest: Option<Seq<Seq<char>>>)
    ensures
        and_then(arg, rest) matches Some(args) ==> rest is Some && found + args == found.push(arg)
            + rest.unwrap(),
        and_then(arg, rest) is None ==> rest is None,
{
    if let Some(r) = rest {
        assert(found + (seq![arg] + r) == found.push(arg) + r);
    }
}

} // verus!
