use vstd::prelude::*;
use vstd::string::StringExecFns;
use crate::error::{Error, Fault};
use crate::expression::{list_of, terms, Expression, Term};
use crate::lexer::{lexemes, tokenize, tokens_of, Lexeme, Token};

verus! {

/// The fault for a list that is opened and not closed.
pub open spec fn missing_close() -> Fault {
    Fault::Parse("could not find closing ')'"@)
}

/// The fault for a closing parenthesis that closes nothing.
pub open spec fn stray_close() -> Fault {
    Fault::Parse("unexpected ')'"@)
}

/// The expression that a token other than a parenthesis stands for.
pub open spec fn atom(token: Lexeme) -> Term {
    match token {
        Lexeme::Number(n) => Term::Number(n),
        Lexeme::Text(s) => Term::Text(s),
        Lexeme::Symbol(s) => Term::Symbol(s),
        _ => Term::Void,
    }
}

/// `items` in front of what `rest` holds; the fault of `rest` where it is one.
pub open spec fn preceded(items: Seq<Term>, rest: Result<(Seq<Term>, int), Fault>) -> Result<
    (Seq<Term>, int),
    Fault,
> {
    match rest {
        Ok((more, end)) => Ok((items + more, end)),
        Err(e) => Err(e),
    }
}

/// The expressions that stand from `pos` on, and the place behind them.
///
/// Inside a list (`nested`) they run up to the closing parenthesis, which is
/// taken too; at the top they run to the end of the tokens. An opening
/// parenthesis starts a list of its own.
pub open spec fn parse_items(tokens: Seq<Lexeme>, pos: int, nested: bool) -> Result<
    (Seq<Term>, int),
    Fault,
>
    decreases tokens.len() - pos,
{
    if pos < 0 || pos >= tokens.len() {
        if nested {
            Err(missing_close())
        } else {
            Ok((Seq::empty(), pos))
        }
    } else {
        match tokens[pos] {
            Lexeme::LParen => match parse_items(tokens, pos + 1, true) {
                Ok((inner, next)) => if pos < next <= tokens.len() {
                    preceded(seq![Term::List(inner)], parse_items(tokens, next, nested))
                } else {
                    Err(missing_close())
                },
                Err(e) => Err(e),
            },
            Lexeme::RParen => if nested {
                Ok((Seq::empty(), pos + 1))
            } else {
                Err(stray_close())
            },
            token => preceded(seq![atom(token)], parse_items(tokens, pos + 1, nested)),
        }
    }
}

/// The list of the expressions that the tokens spell.
pub open spec fn parsed(tokens: Seq<Lexeme>) -> Result<Term, Fault> {
    match parse_items(tokens, 0, false) {
        Ok((items, end)) => Ok(Term::List(items)),
        Err(e) => Err(e),
    }
}

/// The list of the expressions that a source text spells, with `numbers`
/// saying which of its words are numbers.
pub open spec fn parsed_text(input: Seq<char>, numbers: Seq<Option<u64>>) -> Result<Term, Fault> {
    match tokens_of(input, numbers) {
        Ok(tokens) => parsed(tokens),
        Err(e) => Err(e),
    }
}

/// Taking an item to what came before is the same as putting it in front of the
/// rest.
pub proof fn lemma_preceded_push(
    before: Seq<Term>,
    item: Term,
    rest: Result<(Seq<Term>, int), Fault>,
)
    ensures
        preceded(before, preceded(seq![item], rest)) == preceded(before.push(item), rest),
{
    match rest {
        Ok((more, end)) => {
            assert(before + (seq![item] + more) =~= before.push(item) + more);
        },
        Err(_) => {},
    }
}

/// Reads the expressions that stand from `pos` on.
fn read_items(tokens: &Vec<Token>, pos: usize, nested: bool) -> (r: Result<
    (Vec<Expression>, usize),
    Error,
>)
    requires
        pos <= tokens@.len(),
    ensures
        match r {
            Ok((items, end)) => parse_items(lexemes(tokens@), pos as int, nested) == Ok::<
                (Seq<Term>, int),
                Fault,
            >((terms(items@), end as int)) && pos <= end <= tokens@.len() && (nested ==> pos
                < end),
            Err(e) => parse_items(lexemes(tokens@), pos as int, nested) == Err::<
                (Seq<Term>, int),
                Fault,
            >(e@),
        },
    decreases tokens@.len() - pos,
{
    let ghost all = lexemes(tokens@);
    let mut items: Vec<Expression> = Vec::new();
    let mut at: usize = pos;
    proof {
        match parse_items(all, pos as int, nested) {
            Ok((more, end)) => {
                assert(terms(items@) + more =~= more);
            },
            Err(_) => {},
        }
    }
    while at < tokens.len()
        invariant
            all == lexemes(tokens@),
            pos <= at <= tokens@.len(),
            parse_items(all, pos as int, nested) == preceded(
                terms(items@),
                parse_items(all, at as int, nested),
            ),
        decreases tokens@.len() - at,
    {
        let ghost before = terms(items@);
        assert(all[at as int] == tokens@[at as int]@);
        match &tokens[at] {
            Token::LParen => {
                match read_items(tokens, at + 1, true) {
                    Ok((inner, next)) => {
                        let item = list_of(inner);
                        proof {
                            lemma_preceded_push(
                                before,
                                item@,
                                parse_items(all, next as int, nested),
                            );
                        }
                        items.push(item);
                        proof {
                            assert(terms(items@) =~= before.push(item@));
                        }
                        at = next;
                    },
                    Err(e) => {
                        return Err(e);
                    },
                }
            },
            Token::RParen => {
                if nested {
                    proof {
                        assert(before + Seq::<Term>::empty() =~= before);
                    }
                    return Ok((items, at + 1));
                } else {
                    return Err(Error::Parse(String::from_str("unexpected ')'")));
                }
            },
            Token::Number(n) => {
                let item = Expression::Number(*n);
                proof {
                    lemma_preceded_push(before, item@, parse_items(all, at + 1, nested));
                }
                items.push(item);
                proof {
                    assert(terms(items@) =~= before.push(item@));
                }
                at += 1;
            },
            Token::String(s) => {
                let item = Expression::String(s.clone());
                proof {
                    lemma_preceded_push(before, item@, parse_items(all, at + 1, nested));
                }
                items.push(item);
                proof {
                    assert(terms(items@) =~= before.push(item@));
                }
                at += 1;
            },
            Token::Symbol(s) => {
                let item = Expression::Symbol(s.clone());
                proof {
                    lemma_preceded_push(before, item@, parse_items(all, at + 1, nested));
                }
                items.push(item);
                proof {
                    assert(terms(items@) =~= before.push(item@));
                }
                at += 1;
            },
        }
    }
    if nested {
        Err(Error::Parse(String::from_str("could not find closing ')'")))
    } else {
        proof {
            assert(terms(items@) + Seq::<Term>::empty() =~= terms(items@));
        }
        Ok((items, at))
    }
}

/// Reads tokens into the list of the expressions that they spell. A list that
/// is not closed and a closing parenthesis that closes nothing are refused.
pub fn parse_tokens(tokens: &Vec<Token>) -> (r: Result<Expression, Error>)
    ensures
        crate::expression::agrees(r, parsed(lexemes(tokens@))),
{
    match read_items(tokens, 0, false) {
        Ok((items, end)) => Ok(list_of(items)),
        Err(e) => Err(e),
    }
}

/// Reads a source text into the list of the expressions that it spells.
/// `numbers[i]` says which number the `i`-th token of the text is, if it is one.
pub fn parse(program: &str, numbers: &Vec<Option<u64>>) -> (r: Result<Expression, Error>)
    ensures
        crate::expression::agrees(r, parsed_text(program@, numbers@)),
{
    match tokenize(program, numbers) {
        Ok(tokens) => parse_tokens(&tokens),
        Err(e) => Err(e),
    }
}

} // verus!
