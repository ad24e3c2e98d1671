//! Unix shell style patterns for paths.
//!
//! A pattern is read from left to right. `?` stands for one character and
//! `*` for any run of characters, neither of them for a `/`. `[...]` stands
//! for one character out of a class, `[!...]` for one that is not in it; a
//! class lists characters and ranges such as `a-z`. `**` stands for any run
//! of whole path components and has to be a component by itself. Every other
//! character stands for itself.

use vstd::prelude::*;

verus! {

/// One element of a pattern.
#[derive(Clone, Copy, Debug, PartialEq, Eq)]
pub enum Token {
    /// The character itself.
    Literal(char),
    /// `?`: one character that is not `/`.
    AnyChar,
    /// `*`: any run of characters that holds no `/`.
    AnySequence,
    /// `**` at the end of the pattern: whatever is left of the path.
    AnyRecursive,
    /// `**/`: nothing, or any run of characters that ends in `/`.
    RecursiveDir,
    /// `[...]` or `[!...]`: one character that is not `/` and is in the class,
    /// or is not in it where `negated`. The class is written in the pattern
    /// from position `start` up to `end`.
    Class { negated: bool, start: usize, end: usize },
}

/// Why a pattern cannot be read.
#[derive(Clone, Copy, Debug, PartialEq, Eq)]
pub enum PatternError {
    /// Three or more `*` in a row, the first of them at `at`.
    Wildcards { at: usize },
    /// `**` at `at` is not a path component by itself.
    RecursiveWildcards { at: usize },
    /// The class opened at `at` is never closed.
    UnclosedClass { at: usize },
}

/// How many `*` stand in a row from position `at` on.
pub open spec fn star_run(glob: Seq<char>, at: int) -> nat
    decreases glob.len() - at,
{
    if 0 <= at < glob.len() && glob[at] == '*' {
        1 + star_run(glob, at + 1)
    } else {
        0
    }
}

/// How many characters stand from position `from` on before the next `]`, or
/// before the end of the pattern if there is none.
pub open spec fn class_span(glob: Seq<char>, from: int) -> nat
    decreases glob.len() - from,
{
    if 0 <= from < glob.len() && glob[from] != ']' {
        1 + class_span(glob, from + 1)
    } else {
        0
    }
}

/// The token that starts at position `at`, and the position after it.
pub open spec fn token_at(glob: Seq<char>, at: int) -> Result<(Token, int), PatternError>
    recommends
        0 <= at < glob.len(),
{
    let c = glob[at];
    if c == '?' {
        Ok((Token::AnyChar, at + 1))
    } else if c == '*' {
        if star_run(glob, at) == 1 {
            Ok((Token::AnySequence, at + 1))
        } else if star_run(glob, at) == 2 {
            if at > 0 && glob[at - 1] != '/' {
                Err(PatternError::RecursiveWildcards { at: at as usize })
            } else if at + 2 == glob.len() {
                Ok((Token::AnyRecursive, at + 2))
            } else if glob[at + 2] == '/' {
                Ok((Token::RecursiveDir, at + 3))
            } else {
                Err(PatternError::RecursiveWildcards { at: at as usize })
            }
        } else {
            Err(PatternError::Wildcards { at: at as usize })
        }
    } else if c == '[' {
        let negated = at + 1 < glob.len() && glob[at + 1] == '!';
        let start = if negated {
            at + 2
        } else {
            at + 1
        };
        // A `]` right behind the opening is a member of the class.
        let end = start + 1 + class_span(glob, start + 1);
        if end >= glob.len() {
            Err(PatternError::UnclosedClass { at: at as usize })
        } else {
            Ok((Token::Class { negated, start: start as usize, end: end as usize }, end + 1))
        }
    } else {
        Ok((Token::Literal(c), at + 1))
    }
}

/// The tokens of the pattern from position `at` on, or the first error met
/// from there.
pub open spec fn tokens_from(glob: Seq<char>, at: int) -> Result<Seq<Token>, PatternError>
    decreases glob.len() - at,
    via tokens_from_decreases
{
    if at < 0 || at >= glob.len() {
        Ok(Seq::empty())
    } else {
        match token_at(glob, at) {
            Err(e) => Err(e),
            Ok((token, next)) => match tokens_from(glob, next) {
                Err(e) => Err(e),
                Ok(rest) => Ok(seq![token] + rest),
            },
        }
    }
}

#[via_fn]
proof fn tokens_from_decreases(glob: Seq<char>, at: int) {
    reveal_with_fuel(star_run, 3);
}

/// The tokens of a pattern, or why it cannot be read.
pub open spec fn parse(glob: Seq<char>) -> Result<Seq<Token>, PatternError> {
    tokens_from(glob, 0)
}

/// Whether the class written in `glob` from `from` up to `to` holds `c`.
pub open spec fn class_accepts(glob: Seq<char>, from: int, to: int, c: char) -> bool
    decreases to - from,
{
    if from >= to {
        false
    } else if from + 2 < to && glob[from + 1] == '-' {
        (glob[from] as u32 <= c as u32 && c as u32 <= glob[from + 2] as u32) || class_accepts(
            glob,
            from + 3,
            to,
            c,
        )
    } else {
        glob[from] == c || class_accepts(glob, from + 1, to, c)
    }
}

/// Whether `token` stands for the characters of `text` from `from` up to
/// `to`.
pub open spec fn token_accepts(
    glob: Seq<char>,
    token: Token,
    text: Seq<char>,
    from: int,
    to: int,
) -> bool {
    match token {
        Token::Literal(c) => to == from + 1 && text[from] == c,
        Token::AnyChar => to == from + 1 && text[from] != '/',
        Token::Class { negated, start, end } => to == from + 1 && text[from] != '/' && (
        class_accepts(glob, start as int, end as int, text[from]) != negated),
        Token::AnySequence => forall|i: int| from <= i < to ==> text[i] != '/',
        Token::AnyRecursive => true,
        Token::RecursiveDir => to == from || text[to - 1] == '/',
    }
}

/// Whether `token` stands for the piece of `text` from `xi` up to `k`.
pub open spec fn piece(glob: Seq<char>, token: Token, text: Seq<char>, xi: int, k: int) -> bool {
    xi <= k <= text.len() && token_accepts(glob, token, text, xi, k)
}

/// Whether the tokens from `ti` on stand for the text from `xi` on: the text
/// can be cut into one piece for each token, in order.
pub open spec fn matches_at(
    glob: Seq<char>,
    tokens: Seq<Token>,
    ti: int,
    text: Seq<char>,
    xi: int,
) -> bool
    decreases tokens.len() - ti,
{
    if ti < 0 || ti >= tokens.len() {
        xi == text.len()
    } else {
        exists|k: int| #[trigger]
            piece(glob, tokens[ti], text, xi, k) && matches_at(glob, tokens, ti + 1, text, k)
    }
}

/// Whether the pattern `glob` can be read and stands for the whole of `path`.
pub open spec fn glob_matches(glob: Seq<char>, path: Seq<char>) -> bool {
    match parse(glob) {
        Ok(tokens) => matches_at(glob, tokens, 0, path, 0),
        Err(_) => false,
    }
}

/// Every class among `tokens` is written inside `glob`.
pub open spec fn classes_inside(glob: Seq<char>, tokens: Seq<Token>) -> bool {
    forall|i: int|
        0 <= i < tokens.len() ==> match #[trigger] tokens[i] {
            Token::Class { start, end, .. } => start < end < glob.len(),
            _ => true,
        }
}

/// Whether the tokens behind the `**/` at `ti` stand for the text from `k`
/// on, where `k` lies behind `xi` and behind a `/`.
spec fn reaches(
    glob: Seq<char>,
    tokens: Seq<Token>,
    ti: int,
    text: Seq<char>,
    xi: int,
    k: int,
) -> bool {
    &&& xi < k <= text.len()
    &&& text[k - 1] == '/'
    &&& matches_at(glob, tokens, ti + 1, text, k)
}

/// Whether there is such a `k`.
spec fn reaches_some(
    glob: Seq<char>,
    tokens: Seq<Token>,
    ti: int,
    text: Seq<char>,
    xi: int,
) -> bool {
    exists|k: int| #[trigger] reaches(glob, tokens, ti, text, xi, k)
}

/// The position behind the first piece of one way to cut the text from `xi`
/// on for the tokens from `ti` on.
spec fn first_cut(glob: Seq<char>, tokens: Seq<Token>, ti: int, text: Seq<char>, xi: int) -> int {
    choose|k: int| #[trigger]
        piece(glob, tokens[ti], text, xi, k) && matches_at(glob, tokens, ti + 1, text, k)
}

/// A token that stands for one character takes the next character of the text.
proof fn lemma_one_char(glob: Seq<char>, tokens: Seq<Token>, ti: int, text: Seq<char>, xi: int)
    requires
        0 <= ti < tokens.len(),
        0 <= xi <= text.len(),
        tokens[ti] is Literal || tokens[ti] is AnyChar || tokens[ti] is Class,
    ensures
        matches_at(glob, tokens, ti, text, xi) == (xi < text.len() && token_accepts(
            glob,
            tokens[ti],
            text,
            xi,
            xi + 1,
        ) && matches_at(glob, tokens, ti + 1, text, xi + 1)),
{
    if matches_at(glob, tokens, ti, text, xi) {
        let k = first_cut(glob, tokens, ti, text, xi);
        assert(piece(glob, tokens[ti], text, xi, k));
        assert(k == xi + 1);
    }
    if xi < text.len() && token_accepts(glob, tokens[ti], text, xi, xi + 1) && matches_at(
        glob,
        tokens,
        ti + 1,
        text,
        xi + 1,
    ) {
        assert(piece(glob, tokens[ti], text, xi, xi + 1));
    }
}

/// `*` and a closing `**` take nothing, or one character and then go on.
proof fn lemma_run(glob: Seq<char>, tokens: Seq<Token>, ti: int, text: Seq<char>, xi: int)
    requires
        0 <= ti < tokens.len(),
        0 <= xi <= text.len(),
        tokens[ti] is AnySequence || tokens[ti] is AnyRecursive,
    ensures
        matches_at(glob, tokens, ti, text, xi) == (matches_at(glob, tokens, ti + 1, text, xi) || (xi
            < text.len() && (tokens[ti] is AnyRecursive || text[xi] != '/') && matches_at(
            glob,
            tokens,
            ti,
            text,
            xi + 1,
        ))),
{
    if matches_at(glob, tokens, ti, text, xi) {
        let k = first_cut(glob, tokens, ti, text, xi);
        assert(piece(glob, tokens[ti], text, xi, k));
        if k > xi {
            assert(piece(glob, tokens[ti], text, xi + 1, k));
            assert(matches_at(glob, tokens, ti, text, xi + 1));
        }
    }
    if matches_at(glob, tokens, ti + 1, text, xi) {
        assert(piece(glob, tokens[ti], text, xi, xi));
    }
    if xi < text.len() && (tokens[ti] is AnyRecursive || text[xi] != '/') && matches_at(
        glob,
        tokens,
        ti,
        text,
        xi + 1,
    ) {
        let k = first_cut(glob, tokens, ti, text, xi + 1);
        assert(piece(glob, tokens[ti], text, xi + 1, k));
        assert(piece(glob, tokens[ti], text, xi, k));
    }
}

/// `**/` takes nothing, or everything up to some `/` further on.
proof fn lemma_dir(glob: Seq<char>, tokens: Seq<Token>, ti: int, text: Seq<char>, xi: int)
    requires
        0 <= ti < tokens.len(),
        0 <= xi <= text.len(),
        tokens[ti] is RecursiveDir,
    ensures
        matches_at(glob, tokens, ti, text, xi) == (matches_at(glob, tokens, ti + 1, text, xi)
            || reaches_some(glob, tokens, ti, text, xi)),
        reaches_some(glob, tokens, ti, text, xi) == (xi < text.len() && ((text[xi] == '/'
            && matches_at(glob, tokens, ti + 1, text, xi + 1)) || reaches_some(
            glob,
            tokens,
            ti,
            text,
            xi + 1,
        ))),
{
    if matches_at(glob, tokens, ti, text, xi) {
        let k = first_cut(glob, tokens, ti, text, xi);
        assert(piece(glob, tokens[ti], text, xi, k));
        if k > xi {
            assert(reaches(glob, tokens, ti, text, xi, k));
        }
    }
    if matches_at(glob, tokens, ti + 1, text, xi) {
        assert(piece(glob, tokens[ti], text, xi, xi));
    }
    if reaches_some(glob, tokens, ti, text, xi) {
        let k = choose|k: int| #[trigger] reaches(glob, tokens, ti, text, xi, k);
        assert(piece(glob, tokens[ti], text, xi, k));
        if k > xi + 1 {
            assert(reaches(glob, tokens, ti, text, xi + 1, k));
        }
    }
    if xi < text.len() && text[xi] == '/' && matches_at(glob, tokens, ti + 1, text, xi + 1) {
        assert(reaches(glob, tokens, ti, text, xi, xi + 1));
    }
    if reaches_some(glob, tokens, ti, text, xi + 1) {
        let k = choose|k: int| #[trigger] reaches(glob, tokens, ti, text, xi + 1, k);
        assert(reaches(glob, tokens, ti, text, xi, k));
    }
}

/// Reads the token that starts at `at`.
fn read_token(source: &Vec<char>, at: usize) -> (r: Result<(Token, usize), PatternError>)
    requires
        at < source@.len(),
    ensures
        match r {
            Ok((token, next)) => token_at(source@, at as int) == Ok::<(Token, int), PatternError>(
                (token, next as int),
            ) && at < next <= source@.len() && (match token {
                Token::Class { start, end, .. } => start < end < source@.len(),
                _ => true,
            }),
            Err(e) => token_at(source@, at as int) == Err::<(Token, int), PatternError>(e),
        },
{
    let len = source.len();
    let c = source[at];
    if c == '?' {
        Ok((Token::AnyChar, at + 1))
    } else if c == '*' {
        proof {
            reveal_with_fuel(star_run, 4);
        }
        if len - at < 2 || source[at + 1] != '*' {
            Ok((Token::AnySequence, at + 1))
        } else if len - at > 2 && source[at + 2] == '*' {
            Err(PatternError::Wildcards { at })
        } else if at > 0 && source[at - 1] != '/' {
            Err(PatternError::RecursiveWildcards { at })
        } else if len - at == 2 {
            Ok((Token::AnyRecursive, at + 2))
        } else if source[at + 2] == '/' {
            Ok((Token::RecursiveDir, at + 3))
        } else {
            Err(PatternError::RecursiveWildcards { at })
        }
    } else if c == '[' {
        let negated = len - at > 1 && source[at + 1] == '!';
        let start: usize = if negated {
            at + 2
        } else {
            at + 1
        };
        if start >= len {
            return Err(PatternError::UnclosedClass { at });
        }
        let mut end: usize = start + 1;
        while end < len && source[end] != ']'
            invariant
                start < end <= len,
                len == source@.len(),
                start + 1 + class_span(source@, start + 1) == end + class_span(source@, end as int),
            decreases len - end,
        {
            end += 1;
        }
        if end >= len {
            Err(PatternError::UnclosedClass { at })
        } else {
            Ok((Token::Class { negated, start, end }, end + 1))
        }
    } else {
        Ok((Token::Literal(c), at + 1))
    }
}

/// Whether the class written in `source` from `start` up to `end` holds `c`.
fn class_contains(source: &Vec<char>, start: usize, end: usize, c: char) -> (r: bool)
    requires
        start <= end <= source@.len(),
    ensures
        r == class_accepts(source@, start as int, end as int, c),
{
    let mut i: usize = start;
    while i < end
        invariant
            start <= i <= end <= source@.len(),
            class_accepts(source@, start as int, end as int, c) == class_accepts(
                source@,
                i as int,
                end as int,
                c,
            ),
        decreases end - i,
    {
        if end - i > 2 && source[i + 1] == '-' {
            if source[i] as u32 <= c as u32 && c as u32 <= source[i + 2] as u32 {
                return true;
            }
            i += 3;
        } else {
            if source[i] == c {
                return true;
            }
            i += 1;
        }
    }
    false
}

/// A pattern that has been read.
#[derive(Debug, PartialEq, Eq)]
pub struct Pattern {
    source: Vec<char>,
    tokens: Vec<Token>,
}

impl View for Pattern {
    type V = Seq<char>;

    /// The pattern as it was written.
    closed spec fn view(&self) -> Seq<char> {
        self.source@
    }
}

impl Pattern {
    #[verifier::type_invariant]
    spec fn well_formed(self) -> bool {
        &&& parse(self.source@) == Ok::<Seq<Token>, PatternError>(self.tokens@)
        &&& classes_inside(self.source@, self.tokens@)
    }

    /// Reads a pattern. It fails on the first part, from the left, that
    /// cannot be read, and on nothing else.
    pub fn new(glob: &str) -> (r: Result<Pattern, PatternError>)
        ensures
            match r {
                Ok(pattern) => parse(glob@) is Ok && pattern@ == glob@,
                Err(e) => parse(glob@) == Err::<Seq<Token>, PatternError>(e),
            },
    {
        let source = chars_of(glob);
        let mut tokens: Vec<Token> = Vec::new();
        let mut at: usize = 0;
        assert(Seq::<Token>::empty() + tokens_from(source@, 0)->Ok_0 =~= tokens_from(
            source@,
            0,
        )->Ok_0);
        while at < source.len()
            invariant
                at <= source@.len(),
                source@ == glob@,
                classes_inside(source@, tokens@),
                parse(source@) == match tokens_from(source@, at as int) {
                    Ok(rest) => Ok::<Seq<Token>, PatternError>(tokens@ + rest),
                    Err(e) => Err(e),
                },
            decreases source@.len() - at,
        {
            let ghost before = tokens@;
            match read_token(&source, at) {
                Err(e) => {
                    return Err(e);
                },
                Ok((token, next)) => {
                    tokens.push(token);
                    proof {
                        match tokens_from(source@, next as int) {
                            Ok(rest) => {
                                assert(before + (seq![token] + rest) =~= tokens@ + rest);
                            },
                            Err(_) => {},
                        }
                    }
                    at = next;
                },
            }
        }
        assert(tokens@ + Seq::<Token>::empty() =~= tokens@);
        Ok(Pattern { source, tokens })
    }

    /// Whether the pattern stands for the whole of `path`.
    pub fn matches(&self, path: &str) -> (r: bool)
        ensures
            r == glob_matches(self@, path@),
    {
        proof {
            use_type_invariant(self);
        }
        let text = chars_of(path);
        let m = text.len();
        let ghost glob = self.source@;
        let ghost tokens = self.tokens@;
        // `row[x]` tells whether the tokens from `ti` on stand for the text
        // from `x` on, and `tail` tells the same for the empty rest of the text.
        let mut row: Vec<bool> = Vec::new();
        while row.len() < m
            invariant
                row@.len() <= m,
                m == text@.len(),
                forall|x: int| 0 <= x < row@.len() ==> !#[trigger] row@[x],
            decreases m - row@.len(),
        {
            row.push(false);
        }
        let mut tail = true;
        let mut ti: usize = self.tokens.len();
        while ti > 0
            invariant
                ti <= tokens.len(),
                tokens == self.tokens@,
                glob == self.source@,
                classes_inside(glob, tokens),
                text@ == path@,
                m == text@.len(),
                row@.len() == m,
                tail == matches_at(glob, tokens, ti as int, text@, m as int),
                forall|x: int|
                    0 <= x < m ==> #[trigger] row@[x] == matches_at(
                        glob,
                        tokens,
                        ti as int,
                        text@,
                        x,
                    ),
            decreases ti,
        {
            ti -= 1;
            let token = self.tokens[ti];
            // What holds at the position behind `xi`: for the tokens behind
            // this one, for the tokens from this one on, and for `**/`.
            let mut after_row = tail;
            let mut reach = false;
            proof {
                match token {
                    Token::AnySequence | Token::AnyRecursive => {
                        lemma_run(glob, tokens, ti as int, text@, m as int);
                    },
                    Token::RecursiveDir => {
                        lemma_dir(glob, tokens, ti as int, text@, m as int);
                    },
                    _ => {
                        lemma_one_char(glob, tokens, ti as int, text@, m as int);
                    },
                }
            }
            tail =
            match token {
                Token::AnySequence | Token::AnyRecursive | Token::RecursiveDir => tail,
                _ => false,
            };
            let mut after_cur = tail;
            let mut xi: usize = m;
            while xi > 0
                invariant
                    xi <= m,
                    0 <= ti < tokens.len(),
                    token == tokens[ti as int],
                    tokens == self.tokens@,
                    glob == self.source@,
                    classes_inside(glob, tokens),
                    m == text@.len(),
                    row@.len() == m,
                    tail == matches_at(glob, tokens, ti as int, text@, m as int),
                    after_row == matches_at(glob, tokens, ti + 1, text@, xi as int),
                    after_cur == matches_at(glob, tokens, ti as int, text@, xi as int),
                    token is RecursiveDir ==> reach == reaches_some(
                        glob,
                        tokens,
                        ti as int,
                        text@,
                        xi as int,
                    ),
                    forall|x: int|
                        0 <= x < xi ==> #[trigger] row@[x] == matches_at(
                            glob,
                            tokens,
                            ti + 1,
                            text@,
                            x,
                        ),
                    forall|x: int|
                        xi <= x < m ==> #[trigger] row@[x] == matches_at(
                            glob,
                            tokens,
                            ti as int,
                            text@,
                            x,
                        ),
                decreases xi,
            {
                xi -= 1;
                let c = text[xi];
                let here = row[xi];
                proof {
                    match token {
                        Token::AnySequence | Token::AnyRecursive => {
                            lemma_run(glob, tokens, ti as int, text@, xi as int);
                        },
                        Token::RecursiveDir => {
                            lemma_dir(glob, tokens, ti as int, text@, xi as int);
                        },
                        _ => {
                            lemma_one_char(glob, tokens, ti as int, text@, xi as int);
                        },
                    }
                }
                let value = match token {
                    Token::Literal(l) => c == l && after_row,
                    Token::AnyChar => c != '/' && after_row,
                    Token::Class { negated, start, end } => c != '/' && class_contains(
                        &self.source,
                        start,
                        end,
                        c,
                    ) != negated && after_row,
                    Token::AnySequence => here || (c != '/' && after_cur),
                    Token::AnyRecursive => here || after_cur,
                    Token::RecursiveDir => {
                        reach = (c == '/' && after_row) || reach;
                        here || reach
                    },
                };
                after_row = here;
                after_cur = value;
                row.set(xi, value);
            }
        }
        if m == 0 {
            tail
        } else {
            row[0]
        }
    }
}

/// The characters of a string.
pub fn chars_of(s: &str) -> (v: Vec<char>)
    ensures
        v@ == s@,
{
    let mut v: Vec<char> = Vec::new();
    for c in it: s.chars()
        invariant
            it.seq() == s@,
            v@ == it.seq().subrange(0, it.index() as int),
    {
        v.push(c);
    }
    v
}

} // verus!
