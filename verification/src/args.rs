//! Splitting a message into a command name and its arguments, and reading
//! the arguments one by one.

use vstd::prelude::*;
use vstd::string::*;
use crate::text::{chars_of, is_space, is_space_char, parse_i32, parse_u64, parsed_i32, parsed_u64};

verus! {

/// `s` without the whitespace it starts with.
pub open spec fn trim_start(s: Seq<char>) -> Seq<char>
    decreases s.len(),
{
    if s.len() > 0 && is_space(s[0]) {
        trim_start(s.skip(1))
    } else {
        s
    }
}

/// The number of characters before the first whitespace of `s`.
pub open spec fn word_len(s: Seq<char>) -> int
    decreases s.len(),
{
    if s.len() > 0 && !is_space(s[0]) {
        1 + word_len(s.skip(1))
    } else {
        0
    }
}

/// The words of `s`: its longest runs of characters that are no whitespace.
pub open spec fn words(s: Seq<char>) -> Seq<Seq<char>>
    decreases s.len(),
    via words_decreases
{
    if s.len() == 0 {
        Seq::empty()
    } else if is_space(s[0]) {
        words(s.skip(1))
    } else {
        seq![s.take(word_len(s))] + words(s.skip(word_len(s)))
    }
}

#[via_fn]
proof fn words_decreases(s: Seq<char>) {
    lemma_word_len_bounds(s);
}

/// A word is no longer than the text it starts, and not empty where the text
/// starts with a character that is no whitespace.
pub proof fn lemma_word_len_bounds(s: Seq<char>)
    ensures
        0 <= word_len(s) <= s.len(),
        s.len() > 0 && !is_space(s[0]) ==> word_len(s) >= 1,
        word_len(s) < s.len() ==> is_space(s[word_len(s)]),
        forall|i: int| 0 <= i < word_len(s) ==> !is_space(#[trigger] s[i]),
    decreases s.len(),
{
    if s.len() > 0 && !is_space(s[0]) {
        lemma_word_len_bounds(s.skip(1));
        assert forall|i: int| 0 <= i < word_len(s) implies !is_space(#[trigger] s[i]) by {
            if i > 0 {
                assert(s[i] == s.skip(1)[i - 1]);
            }
        }
    }
}

/// The words of a text are the words of what follows its leading whitespace.
pub proof fn lemma_words_trim(s: Seq<char>)
    ensures
        words(s) == words(trim_start(s)),
        trim_start(s).len() > 0 ==> !is_space(trim_start(s)[0]),
        trim_start(s).len() <= s.len(),
    decreases s.len(),
{
    if s.len() > 0 && is_space(s[0]) {
        lemma_words_trim(s.skip(1));
    }
}

/// The index of the first double quote of `s` at or after `from`.
pub open spec fn quote_at(s: Seq<char>, from: int) -> Option<int>
    decreases s.len() - from,
{
    if from < 0 || from >= s.len() {
        None
    } else if s[from] == '"' {
        Some(from)
    } else {
        quote_at(s, from + 1)
    }
}

/// The next argument of `s` and the text that follows it. Leading whitespace
/// is passed over. With `quoting`, an argument that opens with a double quote
/// runs to the next double quote, spaces included, and the quotes are left
/// out; without a closing quote, and without `quoting`, the argument is the
/// next word. `None` where only whitespace is left.
pub open spec fn next_argument(s: Seq<char>, quoting: bool) -> Option<(Seq<char>, Seq<char>)> {
    let t = trim_start(s);
    if t.len() == 0 {
        None
    } else if quoting && t[0] == '"' && quote_at(t, 1).is_some() {
        let close = quote_at(t, 1).unwrap();
        Some((t.subrange(1, close), t.skip(close + 1)))
    } else {
        Some((t.take(word_len(t)), t.skip(word_len(t))))
    }
}

/// The views of a sequence of strings.
pub open spec fn texts(v: Seq<String>) -> Seq<Seq<char>> {
    v.map_values(|s: String| s@)
}

/// The index after the whitespace that starts at `from`.
fn skip_spaces(text: &Vec<char>, from: usize) -> (r: usize)
    requires
        from <= text@.len(),
    ensures
        from <= r <= text@.len(),
        text@.skip(r as int) == trim_start(text@.skip(from as int)),
{
    let mut i: usize = from;
    while i < text.len() && is_space_char(text[i])
        invariant
            from <= i <= text@.len(),
            trim_start(text@.skip(i as int)) == trim_start(text@.skip(from as int)),
        decreases text@.len() - i,
    {
        proof {
            assert(text@.skip(i as int).skip(1) =~= text@.skip(i + 1));
        }
        i += 1;
    }
    i
}

/// The index after the word that starts at `from`.
fn word_end(text: &Vec<char>, from: usize) -> (r: usize)
    requires
        from <= text@.len(),
    ensures
        from <= r <= text@.len(),
        r - from == word_len(text@.skip(from as int)),
{
    let mut i: usize = from;
    while i < text.len() && !is_space_char(text[i])
        invariant
            from <= i <= text@.len(),
            word_len(text@.skip(from as int)) == (i - from) + word_len(text@.skip(i as int)),
        decreases text@.len() - i,
    {
        proof {
            assert(text@.skip(i as int).skip(1) =~= text@.skip(i + 1));
        }
        i += 1;
    }
    i
}

/// The index of the first double quote at or after `from`.
fn find_quote(text: &Vec<char>, from: usize, base: usize) -> (r: Option<usize>)
    requires
        base <= from,
        base <= text@.len(),
    ensures
        match r {
            Some(i) => from <= i < text@.len() && quote_at(text@.skip(base as int), from - base)
                == Some(i - base),
            None => quote_at(text@.skip(base as int), from - base).is_none(),
        },
{
    let ghost t = text@.skip(base as int);
    let mut i: usize = from;
    while i < text.len()
        invariant
            from <= i,
            base <= from,
            base <= text@.len(),
            t == text@.skip(base as int),
            quote_at(t, from - base) == quote_at(t, i - base),
        decreases text@.len() - i,
    {
        if text[i] == '"' {
            return Some(i);
        }
        i += 1;
    }
    None
}

/// The characters of `text` from `from` up to `to`, as a string.
fn text_between(text: &Vec<char>, from: usize, to: usize) -> (r: String)
    requires
        from <= to <= text@.len(),
    ensures
        r@ == text@.subrange(from as int, to as int),
{
    let mut out = String::new();
    let mut i: usize = from;
    while i < to
        invariant
            from <= i <= to <= text@.len(),
            out@ == text@.subrange(from as int, i as int),
        decreases to - i,
    {
        out.push(text[i]);
        proof {
            assert(out@ =~= text@.subrange(from as int, i + 1));
        }
        i += 1;
    }
    out
}

/// The words of `input`, in order.
pub fn split_words(input: &str) -> (r: Vec<String>)
    ensures
        texts(r@) == words(input@),
{
    let text = chars_of(input);
    let mut out: Vec<String> = Vec::new();
    let mut i: usize = 0;
    proof {
        assert(text@.skip(0) =~= text@);
        assert(texts(out@) =~= Seq::<Seq<char>>::empty());
        assert(texts(out@) + words(text@) =~= words(text@));
    }
    loop
        invariant
            i <= text@.len(),
            text@ == input@,
            words(input@) == texts(out@) + words(text@.skip(i as int)),
        ensures
            texts(out@) == words(input@),
        decreases text@.len() - i,
    {
        let start = skip_spaces(&text, i);
        proof {
            lemma_words_trim(text@.skip(i as int));
        }
        if start >= text.len() {
            proof {
                assert(text@.skip(start as int).len() == 0);
                assert(texts(out@) + Seq::<Seq<char>>::empty() =~= texts(out@));
            }
            break ;
        }
        let end = word_end(&text, start);
        let word = text_between(&text, start, end);
        proof {
            let s = text@.skip(start as int);
            lemma_word_len_bounds(s);
            assert(s.take(end - start) =~= text@.subrange(start as int, end as int));
            assert(s.skip(end - start) =~= text@.skip(end as int));
            assert(texts(out@.push(word)) =~= texts(out@).push(word@));
            assert(texts(out@).push(word@) + words(text@.skip(end as int)) =~= texts(out@) + (
            seq![word@] + words(text@.skip(end as int))));
        }
        out.push(word);
        i = end;
    }
    out
}

/// The user that `token` names: a number, or a mention, which is `<@` or
/// `<@!`, the number, and one closing character.
pub open spec fn user_id_of(token: Seq<char>) -> Option<u64> {
    if token.len() >= 4 && token[0] == '<' && token[1] == '@' {
        if token[2] == '!' {
            parsed_u64(token.subrange(3, token.len() - 1))
        } else {
            parsed_u64(token.subrange(2, token.len() - 1))
        }
    } else {
        parsed_u64(token)
    }
}

/// Reads a user id from a number or a mention.
pub fn parse_user_id(token: &str) -> (r: Option<u64>)
    ensures
        r == user_id_of(token@),
{
    let chars = chars_of(token);
    let n = chars.len();
    if n >= 4 && chars[0] == '<' && chars[1] == '@' {
        let from: usize = if chars[2] == '!' {
            3
        } else {
            2
        };
        let inner = text_between(&chars, from, n - 1);
        parse_u64(inner.as_str())
    } else {
        parse_u64(token)
    }
}

/// A message taken apart: the command it names, the arguments given to the
/// command, and the text after the name as it was written.
#[derive(Clone, Debug, PartialEq, Eq)]
pub struct ParsedInvocation {
    pub name: String,
    pub args: Vec<String>,
    pub rest: String,
}

/// The command name of `content` under `prefix`, and the text after the name
/// without its leading whitespace. A message invokes a command where it
/// starts with the prefix and a name follows the prefix at once.
pub open spec fn invocation_of(content: Seq<char>, prefix: Seq<char>) -> Option<(Seq<char>, Seq<char>)> {
    if prefix.len() <= content.len() && content.take(prefix.len() as int) == prefix {
        let body = content.skip(prefix.len() as int);
        if word_len(body) > 0 {
            Some((body.take(word_len(body)), trim_start(body.skip(word_len(body)))))
        } else {
            None
        }
    } else {
        None
    }
}

/// Takes a message apart. `None` where the message invokes no command.
pub fn tokenize(content: &str, prefix: &str) -> (r: Option<ParsedInvocation>)
    ensures
        match r {
            Some(inv) => invocation_of(content@, prefix@) == Some((inv.name@, inv.rest@)) && texts(
                inv.args@,
            ) == words(inv.rest@),
            None => invocation_of(content@, prefix@).is_none(),
        },
{
    let text = chars_of(content);
    let pre = chars_of(prefix);
    if pre.len() > text.len() {
        return None;
    }
    let mut i: usize = 0;
    while i < pre.len()
        invariant
            i <= pre@.len() <= text@.len(),
            text@ == content@,
            pre@ == prefix@,
            text@.take(i as int) == pre@.take(i as int),
        decreases pre@.len() - i,
    {
        if text[i] != pre[i] {
            proof {
                assert(content@.take(prefix@.len() as int)[i as int] != prefix@[i as int]);
                assert(content@.take(prefix@.len() as int) != prefix@);
            }
            return None;
        }
        proof {
            assert(text@.take(i + 1) =~= text@.take(i as int).push(text@[i as int]));
            assert(pre@.take(i + 1) =~= pre@.take(i as int).push(pre@[i as int]));
        }
        i += 1;
    }
    proof {
        assert(pre@.take(pre@.len() as int) =~= pre@);
    }
    let start = pre.len();
    let end = word_end(&text, start);
    if end == start {
        return None;
    }
    let name = text_between(&text, start, end);
    let from = skip_spaces(&text, end);
    let rest = text_between(&text, from, text.len());
    proof {
        let body = text@.skip(start as int);
        lemma_word_len_bounds(body);
        assert(body.take(end - start) =~= text@.subrange(start as int, end as int));
        assert(body.skip(end - start) =~= text@.skip(end as int));
        assert(text@.subrange(from as int, text@.len() as int) =~= text@.skip(from as int));
    }
    let args = split_words(rest.as_str());
    Some(ParsedInvocation { name, args, rest })
}

/// Why an argument could not be read as what was asked for.
#[derive(Clone, Copy, Debug, PartialEq, Eq, Structural)]
pub enum ArgError {
    /// No argument is left.
    Missing,
    /// The next argument does not stand for a value of the kind asked for.
    Invalid,
}

/// The value that an argument stands for, or the error where it stands
/// for none.
pub open spec fn value_or_invalid<T>(value: Option<T>) -> Result<T, ArgError> {
    match value {
        Some(v) => Ok(v),
        None => Err(ArgError::Invalid),
    }
}

/// The arguments of a command, read from the front.
pub struct Args {
    text: Vec<char>,
    pos: usize,
    quoting: bool,
}

impl Args {
    /// The position lies within the text.
    #[verifier::type_invariant]
    spec fn wf(&self) -> bool {
        self.pos <= self.text@.len()
    }

    /// The text that has not been read yet.
    pub closed spec fn remaining(&self) -> Seq<char> {
        self.text@.skip(self.pos as int)
    }

    /// Whether quoted arguments are read as one.
    pub closed spec fn quoting(&self) -> bool {
        self.quoting
    }

    /// The arguments written in `input`, none of them read yet, quoting off.
    pub fn new(input: &str) -> (r: Args)
        ensures
            r.remaining() == input@,
            !r.quoting(),
    {
        let text = chars_of(input);
        proof {
            assert(text@.skip(0) =~= text@);
        }
        Args { text, pos: 0, quoting: false }
    }

    /// Turns quoting on: from now on a quoted argument is read as one.
    pub fn quoted(&mut self)
        ensures
            final(self).remaining() == old(self).remaining(),
            final(self).quoting(),
    {
        proof {
            use_type_invariant(&*self);
        }
        self.quoting = true;
    }

    /// Whether no argument is left.
    pub fn is_empty(&self) -> (r: bool)
        ensures
            r == (trim_start(self.remaining()).len() == 0),
    {
        proof {
            use_type_invariant(&*self);
        }
        let start = skip_spaces(&self.text, self.pos);
        start >= self.text.len()
    }

    /// All that is left, without its leading whitespace and otherwise as it
    /// was written; empty where nothing is left.
    pub fn rest(&self) -> (r: String)
        ensures
            r@ == trim_start(self.remaining()),
    {
        proof {
            use_type_invariant(&*self);
        }
        let start = skip_spaces(&self.text, self.pos);
        proof {
            assert(self.text@.subrange(start as int, self.text@.len() as int) =~= self.text@.skip(
                start as int,
            ));
        }
        text_between(&self.text, start, self.text.len())
    }

    /// The bounds of the next argument in the text, and the position after it.
    fn locate(&self) -> (r: Option<(usize, usize, usize)>)
        ensures
            match r {
                Some((from, to, after)) => from <= to <= after <= self.text@.len() && self.pos
                    <= after && next_argument(self.remaining(), self.quoting()) == Some(
                    (
                        self.text@.subrange(from as int, to as int),
                        self.text@.skip(after as int),
                    ),
                ),
                None => next_argument(self.remaining(), self.quoting()).is_none(),
            },
    {
        proof {
            use_type_invariant(&*self);
        }
        let start = skip_spaces(&self.text, self.pos);
        if start >= self.text.len() {
            return None;
        }
        let ghost t = self.text@.skip(start as int);
        if self.quoting && self.text[start] == '"' {
            match find_quote(&self.text, start + 1, start) {
                Some(close) => {
                    proof {
                        assert(t.subrange(1, close - start) =~= self.text@.subrange(
                            start + 1,
                            close as int,
                        ));
                        assert(t.skip(close - start + 1) =~= self.text@.skip(close + 1));
                    }
                    return Some((start + 1, close, close + 1));
                },
                None => {},
            }
        }
        let end = word_end(&self.text, start);
        proof {
            lemma_word_len_bounds(t);
            assert(t.take(end - start) =~= self.text@.subrange(start as int, end as int));
            assert(t.skip(end - start) =~= self.text@.skip(end as int));
        }
        Some((start, end, end))
    }

    /// Reads the next argument as text, and moves past it.
    pub fn single(&mut self) -> (r: Option<String>)
        ensures
            final(self).quoting() == old(self).quoting(),
            match next_argument(old(self).remaining(), old(self).quoting()) {
                Some((token, after)) => r.is_some() && r.unwrap()@ == token
                    && final(self).remaining() == after,
                None => r.is_none() && final(self).remaining() == old(self).remaining(),
            },
    {
        proof {
            use_type_invariant(&*self);
        }
        match self.locate() {
            Some((from, to, after)) => {
                let token = text_between(&self.text, from, to);
                self.pos = after;
                Some(token)
            },
            None => None,
        }
    }

    /// Reads the next argument as a signed number, and moves past it. Where
    /// no argument is left or the next one is no such number, nothing is
    /// read and the error says which.
    pub fn single_i32(&mut self) -> (r: Result<i32, ArgError>)
        ensures
            final(self).quoting() == old(self).quoting(),
            r == match next_argument(old(self).remaining(), old(self).quoting()) {
                Some((token, after)) => value_or_invalid(parsed_i32(token)),
                None => Err(ArgError::Missing),
            },
            final(self).remaining() == match next_argument(
                old(self).remaining(),
                old(self).quoting(),
            ) {
                Some((token, after)) => if parsed_i32(token).is_some() {
                    after
                } else {
                    old(self).remaining()
                },
                None => old(self).remaining(),
            },
    {
        proof {
            use_type_invariant(&*self);
        }
        match self.locate() {
            Some((from, to, after)) => {
                let token = text_between(&self.text, from, to);
                match parse_i32(token.as_str()) {
                    Some(v) => {
                        self.pos = after;
                        Ok(v)
                    },
                    None => Err(ArgError::Invalid),
                }
            },
            None => Err(ArgError::Missing),
        }
    }

    /// Reads the next argument as an unsigned number, and moves past it.
    /// Where no argument is left or the next one is no such number, nothing
    /// is read and the error says which.
    pub fn single_u64(&mut self) -> (r: Result<u64, ArgError>)
        ensures
            final(self).quoting() == old(self).quoting(),
            r == match next_argument(old(self).remaining(), old(self).quoting()) {
                Some((token, after)) => value_or_invalid(parsed_u64(token)),
                None => Err(ArgError::Missing),
            },
            final(self).remaining() == match next_argument(
                old(self).remaining(),
                old(self).quoting(),
            ) {
                Some((token, after)) => if parsed_u64(token).is_some() {
                    after
                } else {
                    old(self).remaining()
                },
                None => old(self).remaining(),
            },
    {
        proof {
            use_type_invariant(&*self);
        }
        match self.locate() {
            Some((from, to, after)) => {
                let token = text_between(&self.text, from, to);
                match parse_u64(token.as_str()) {
                    Some(v) => {
                        self.pos = after;
                        Ok(v)
                    },
                    None => Err(ArgError::Invalid),
                }
            },
            None => Err(ArgError::Missing),
        }
    }

    /// Reads the next argument as a user, and moves past it. Where no
    /// argument is left or the next one names no user, nothing is read and
    /// the error says which.
    pub fn single_user_id(&mut self) -> (r: Result<u64, ArgError>)
        ensures
            final(self).quoting() == old(self).quoting(),
            r == match next_argument(old(self).remaining(), old(self).quoting()) {
                Some((token, after)) => value_or_invalid(user_id_of(token)),
                None => Err(ArgError::Missing),
            },
            final(self).remaining() == match next_argument(
                old(self).remaining(),
                old(self).quoting(),
            ) {
                Some((token, after)) => if user_id_of(token).is_some() {
                    after
                } else {
                    old(self).remaining()
                },
                None => old(self).remaining(),
            },
    {
        proof {
            use_type_invariant(&*self);
        }
        match self.locate() {
            Some((from, to, after)) => {
                let token = text_between(&self.text, from, to);
                match parse_user_id(token.as_str()) {
                    Some(v) => {
                        self.pos = after;
                        Ok(v)
                    },
                    None => Err(ArgError::Invalid),
                }
            },
            None => Err(ArgError::Missing),
        }
    }
}

} // verus!
