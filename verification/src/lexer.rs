use vstd::prelude::*;
use crate::error::{Error, Fault};
use crate::text::{chars_of, is_white, text_between, white};

verus! {

/// One token of source text.
#[derive(Debug, Clone, PartialEq)]
pub enum Token {
    /// A number, by the bits of its double-precision value.
    Number(u64),
    String(String),
    Symbol(String),
    LParen,
    RParen,
}

/// The mathematical value of a [`Token`].
pub enum Lexeme {
    Number(u64),
    Text(Seq<char>),
    Symbol(Seq<char>),
    LParen,
    RParen,
}

impl View for Token {
    type V = Lexeme;

    open spec fn view(&self) -> Lexeme {
        match self {
            Token::Number(n) => Lexeme::Number(*n),
            Token::String(s) => Lexeme::Text(s@),
            Token::Symbol(s) => Lexeme::Symbol(s@),
            Token::LParen => Lexeme::LParen,
            Token::RParen => Lexeme::RParen,
        }
    }
}

/// The values of a list of tokens, in order.
pub open spec fn lexemes(tokens: Seq<Token>) -> Seq<Lexeme> {
    Seq::new(tokens.len(), |i: int| tokens[i]@)
}

/// Whether `c` ends a word without being part of it.
pub open spec fn delimiter(c: char) -> bool {
    c == '(' || c == ')' || c == ';'
}

/// The first place from `pos` on that holds `c`; the input's length where none
/// does.
pub open spec fn find(input: Seq<char>, pos: int, c: char) -> int
    decreases input.len() - pos,
{
    if pos < 0 || pos >= input.len() {
        input.len() as int
    } else if input[pos] == c {
        pos
    } else {
        find(input, pos + 1, c)
    }
}

/// The first place from `pos` on that holds white space or a delimiter; the
/// input's length where none does.
pub open spec fn word_end(input: Seq<char>, pos: int) -> int
    decreases input.len() - pos,
{
    if pos < 0 || pos >= input.len() {
        input.len() as int
    } else if white(input[pos]) || delimiter(input[pos]) {
        pos
    } else {
        word_end(input, pos + 1)
    }
}

/// `tokens` in front of what `rest` holds; the fault of `rest` where it is one.
pub open spec fn after(tokens: Seq<Lexeme>, rest: Result<Seq<Lexeme>, Fault>) -> Result<
    Seq<Lexeme>,
    Fault,
> {
    match rest {
        Ok(more) => Ok(tokens + more),
        Err(e) => Err(e),
    }
}

/// The fault for a text that is opened and not closed.
pub open spec fn unclosed_text() -> Fault {
    Fault::Token("suspended string definition"@)
}

/// The tokens of the input from `pos` on, every word as a symbol.
///
/// Parentheses are tokens of their own. A double quote opens a text that runs to
/// the next double quote, with nothing escaped. A semicolon opens a comment that
/// runs to the end of the line. White space separates. Every other character
/// starts a word, which runs up to the next white space, parenthesis or
/// semicolon.
pub open spec fn scan_from(input: Seq<char>, pos: int) -> Result<Seq<Lexeme>, Fault>
    decreases input.len() - pos,
{
    if pos < 0 || pos >= input.len() {
        Ok(Seq::empty())
    } else {
        let c = input[pos];
        if c == '(' {
            after(seq![Lexeme::LParen], scan_from(input, pos + 1))
        } else if c == ')' {
            after(seq![Lexeme::RParen], scan_from(input, pos + 1))
        } else if c == '"' {
            let end = find(input, pos + 1, '"');
            if pos < end < input.len() {
                after(
                    seq![Lexeme::Text(input.subrange(pos + 1, end))],
                    scan_from(input, end + 1),
                )
            } else {
                Err(unclosed_text())
            }
        } else if c == ';' {
            let end = find(input, pos + 1, '\n');
            if pos < end <= input.len() {
                scan_from(input, end)
            } else {
                Ok(Seq::empty())
            }
        } else if white(c) {
            scan_from(input, pos + 1)
        } else {
            let end = word_end(input, pos + 1);
            if pos < end <= input.len() {
                after(seq![Lexeme::Symbol(input.subrange(pos, end))], scan_from(input, end))
            } else {
                Ok(Seq::empty())
            }
        }
    }
}

/// The tokens with each symbol that is given a number turned into that number:
/// `numbers[i]` belongs to `tokens[i]`, and a token without an entry stays.
pub open spec fn numbered(tokens: Seq<Lexeme>, numbers: Seq<Option<u64>>) -> Seq<Lexeme> {
    Seq::new(
        tokens.len(),
        |i: int|
            match tokens[i] {
                Lexeme::Symbol(w) => if i < numbers.len() && numbers[i] is Some {
                    Lexeme::Number(numbers[i]->Some_0)
                } else {
                    Lexeme::Symbol(w)
                },
                other => other,
            },
    )
}

/// The tokens of a source text, with `numbers[i]` saying which number the
/// `i`-th token of [`scan_from`] is, if it is one.
pub open spec fn tokens_of(input: Seq<char>, numbers: Seq<Option<u64>>) -> Result<
    Seq<Lexeme>,
    Fault,
> {
    match scan_from(input, 0) {
        Ok(tokens) => Ok(numbered(tokens, numbers)),
        Err(e) => Err(e),
    }
}

/// The first place from `pos` on that holds `c`.
fn find_char(input: &Vec<char>, pos: usize, c: char) -> (r: usize)
    requires
        pos <= input@.len(),
    ensures
        r == find(input@, pos as int, c),
        pos <= r <= input@.len(),
{
    let mut i: usize = pos;
    while i < input.len() && input[i] != c
        invariant
            pos <= i <= input@.len(),
            find(input@, pos as int, c) == find(input@, i as int, c),
        decreases input.len() - i,
    {
        i += 1;
    }
    i
}

/// The first place from `pos` on that ends a word.
fn find_word_end(input: &Vec<char>, pos: usize) -> (r: usize)
    requires
        pos <= input@.len(),
    ensures
        r == word_end(input@, pos as int),
        pos <= r <= input@.len(),
{
    let mut i: usize = pos;
    while i < input.len() && !(is_white(input[i]) || input[i] == '(' || input[i] == ')'
        || input[i] == ';')
        invariant
            pos <= i <= input@.len(),
            word_end(input@, pos as int) == word_end(input@, i as int),
        decreases input.len() - i,
    {
        i += 1;
    }
    i
}

/// Cuts a source text into tokens, every word as a symbol.
pub fn scan(input: &str) -> (r: Result<Vec<Token>, Error>)
    ensures
        match r {
            Ok(tokens) => scan_from(input@, 0) == Ok::<Seq<Lexeme>, Fault>(lexemes(tokens@)),
            Err(e) => scan_from(input@, 0) == Err::<Seq<Lexeme>, Fault>(e@),
        },
{
    let chars = chars_of(input);
    let mut tokens: Vec<Token> = Vec::new();
    let mut pos: usize = 0;
    proof {
        assert(after(lexemes(tokens@), scan_from(chars@, 0)) == scan_from(chars@, 0)) by {
            match scan_from(chars@, 0) {
                Ok(more) => {
                    assert(lexemes(tokens@) + more =~= more);
                },
                Err(_) => {},
            }
        }
    }
    while pos < chars.len()
        invariant
            chars@ == input@,
            pos <= chars@.len(),
            scan_from(input@, 0) == after(lexemes(tokens@), scan_from(chars@, pos as int)),
        decreases chars.len() - pos,
    {
        let c = chars[pos];
        let ghost before = lexemes(tokens@);
        if c == '(' || c == ')' {
            let token = if c == '(' {
                Token::LParen
            } else {
                Token::RParen
            };
            tokens.push(token);
            proof {
                lemma_after_push(before, token@, scan_from(chars@, pos + 1));
                assert(lexemes(tokens@) =~= before.push(token@));
            }
            pos += 1;
        } else if c == '"' {
            let end = find_char(&chars, pos + 1, '"');
            if end < chars.len() {
                let token = Token::String(text_between(&chars, pos + 1, end));
                tokens.push(token);
                proof {
                    lemma_after_push(before, token@, scan_from(chars@, end + 1));
                    assert(lexemes(tokens@) =~= before.push(token@));
                }
                pos = end + 1;
            } else {
                return Err(Error::Token("suspended string definition".to_string()));
            }
        } else if c == ';' {
            pos = find_char(&chars, pos + 1, '\n');
        } else if is_white(c) {
            pos += 1;
        } else {
            let end = find_word_end(&chars, pos + 1);
            let token = Token::Symbol(text_between(&chars, pos, end));
            tokens.push(token);
            proof {
                lemma_after_push(before, token@, scan_from(chars@, end as int));
                assert(lexemes(tokens@) =~= before.push(token@));
            }
            pos = end;
        }
    }
    proof {
        assert(lexemes(tokens@) + Seq::<Lexeme>::empty() =~= lexemes(tokens@));
    }
    Ok(tokens)
}

/// Putting a token in front of the rest is the same as taking it to what came
/// before.
pub proof fn lemma_after_push(
    before: Seq<Lexeme>,
    token: Lexeme,
    rest: Result<Seq<Lexeme>, Fault>,
)
    ensures
        after(before, after(seq![token], rest)) == after(before.push(token), rest),
{
    match rest {
        Ok(more) => {
            assert(before + (seq![token] + more) =~= before.push(token) + more);
        },
        Err(_) => {},
    }
}

/// Turns each symbol that is given a number into that number: `numbers[i]`
/// belongs to `tokens[i]`.
pub fn with_numbers(tokens: Vec<Token>, numbers: &Vec<Option<u64>>) -> (r: Vec<Token>)
    ensures
        lexemes(r@) == numbered(lexemes(tokens@), numbers@),
{
    let mut out: Vec<Token> = Vec::new();
    let mut i: usize = 0;
    while i < tokens.len()
        invariant
            i <= tokens@.len(),
            out@.len() == i,
            forall|j: int| 0 <= j < i ==> out@[j]@ == numbered(lexemes(tokens@), numbers@)[j],
        decreases tokens.len() - i,
    {
        let token = match &tokens[i] {
            Token::Symbol(w) => {
                if i < numbers.len() {
                    match numbers[i] {
                        Some(n) => Token::Number(n),
                        None => Token::Symbol(w.clone()),
                    }
                } else {
                    Token::Symbol(w.clone())
                }
            },
            Token::Number(n) => Token::Number(*n),
            Token::String(s) => Token::String(s.clone()),
            Token::LParen => Token::LParen,
            Token::RParen => Token::RParen,
        };
        out.push(token);
        i += 1;
    }
    assert(lexemes(out@) =~= numbered(lexemes(tokens@), numbers@));
    out
}

/// Cuts a source text into tokens. `numbers[i]` says which number the `i`-th
/// token of [`scan`] is, if it is one: a word is a number where it reads as a
/// floating-point literal, and a symbol otherwise.
pub fn tokenize(input: &str, numbers: &Vec<Option<u64>>) -> (r: Result<Vec<Token>, Error>)
    ensures
        match r {
            Ok(tokens) => tokens_of(input@, numbers@) == Ok::<Seq<Lexeme>, Fault>(
                lexemes(tokens@),
            ),
            Err(e) => tokens_of(input@, numbers@) == Err::<Seq<Lexeme>, Fault>(e@),
        },
{
    match scan(input) {
        Ok(tokens) => Ok(with_numbers(tokens, numbers)),
        Err(e) => Err(e),
    }
}

} // verus!
