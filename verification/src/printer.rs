use vstd::prelude::*;
use vstd::string::StringExecFns;
use crate::expression::{lemma_function_term, lemma_list_term, terms, texts, Expression, Term};

verus! {

/// A part of a printed value: a text to print as it stands, or a number, which
/// is printed in decimal.
#[derive(Debug, Clone, PartialEq)]
pub enum Piece {
    Text(String),
    Number(u64),
}

/// The mathematical value of a [`Piece`].
pub enum Part {
    Text(Seq<char>),
    Number(u64),
}

impl View for Piece {
    type V = Part;

    open spec fn view(&self) -> Part {
        match self {
            Piece::Text(s) => Part::Text(s@),
            Piece::Number(n) => Part::Number(*n),
        }
    }
}

/// The values of a list of pieces, in order.
pub open spec fn parts(pieces: Seq<Piece>) -> Seq<Part> {
    Seq::new(pieces.len(), |i: int| pieces[i]@)
}

/// The first `count` names, with `, ` between them.
pub open spec fn joined_names(names: Seq<Seq<char>>, count: nat) -> Seq<char>
    decreases count,
{
    if count == 0 || count > names.len() {
        Seq::empty()
    } else if count == 1 {
        names[0]
    } else {
        joined_names(names, (count - 1) as nat) + ", "@ + names[count - 1]
    }
}

/// The printed form of the first `count` items, with a blank between them.
pub open spec fn printed_items(items: Seq<Term>, count: nat) -> Seq<Part>
    decreases items, count,
{
    if count == 0 || count > items.len() {
        Seq::empty()
    } else if count == 1 {
        printed(items[0])
    } else {
        printed_items(items, (count - 1) as nat) + seq![Part::Text(" "@)] + printed(
            items[count - 1],
        )
    }
}

/// The printed form of a value: `nil` for nothing, `true` and `false`, a number
/// in decimal, a text and a symbol as they stand, a list in parentheses with
/// blanks between its items, a function as `fn(` and its parameters and `)`, and
/// an object as `class `.
pub open spec fn printed(t: Term) -> Seq<Part>
    decreases t, 0nat,
{
    match t {
        Term::Void => seq![Part::Text("nil"@)],
        Term::Boolean(b) => seq![Part::Text(if b { "true"@ } else { "false"@ })],
        Term::Number(n) => seq![Part::Number(n)],
        Term::Text(s) => seq![Part::Text(s)],
        Term::Symbol(s) => seq![Part::Text(s)],
        Term::List(items) => seq![Part::Text("("@)] + printed_items(items, items.len()) + seq![
            Part::Text(")"@),
        ],
        Term::Function(params, body, env) => seq![
            Part::Text("fn("@ + joined_names(params, params.len()) + ")"@),
        ],
        Term::Object(o) => seq![Part::Text("class "@)],
    }
}

/// The names with `, ` between them.
pub fn join_names(names: &Vec<String>) -> (r: String)
    ensures
        r@ == joined_names(texts(names@), names@.len()),
{
    let mut out = String::new();
    let mut i: usize = 0;
    while i < names.len()
        invariant
            i <= names@.len(),
            out@ == joined_names(texts(names@), i as nat),
        decreases names.len() - i,
    {
        if i > 0 {
            out.append(", ");
        }
        proof {
            assert(Seq::<char>::empty() + names@[i as int]@ =~= names@[i as int]@);
        }
        out.append(names[i].as_str());
        i += 1;
    }
    out
}

/// Puts the printed forms of the items, with a blank between them, behind what
/// `out` holds.
pub fn print_items(items: &Vec<Expression>, out: &mut Vec<Piece>)
    ensures
        parts(final(out)@) == parts(old(out)@) + printed_items(terms(items@), items@.len()),
    decreases items,
{
    let ghost opened = parts(out@);
    let mut i: usize = 0;
    assert(opened + printed_items(terms(items@), 0) =~= opened);
    while i < items.len()
        invariant
            i <= items@.len(),
            parts(out@) == opened + printed_items(terms(items@), i as nat),
        decreases items.len() - i,
    {
        let ghost so_far = parts(out@);
        if i > 0 {
            out.push(Piece::Text(String::from_str(" ")));
            assert(parts(out@) =~= so_far + seq![Part::Text(" "@)]);
        }
        let ghost spaced = parts(out@);
        items[i].print_into(out);
        proof {
            let item = printed(terms(items@)[i as int]);
            if i == 0 {
                assert(spaced + item =~= opened + item);
            } else {
                assert(spaced + item =~= opened + (printed_items(terms(items@), i as nat)
                    + seq![Part::Text(" "@)] + item));
            }
        }
        i += 1;
    }
}

impl Expression {
    /// Puts the printed form of this value behind what `out` holds.
    pub fn print_into(&self, out: &mut Vec<Piece>)
        ensures
            parts(final(out)@) == parts(old(out)@) + printed(self@),
        decreases self,
    {
        let ghost before = parts(out@);
        match self {
            Expression::Void => {
                out.push(Piece::Text(String::from_str("nil")));
                assert(parts(out@) =~= before + printed(self@));
            },
            Expression::Boolean(b) => {
                out.push(Piece::Text(String::from_str(if *b { "true" } else { "false" })));
                assert(parts(out@) =~= before + printed(self@));
            },
            Expression::Number(n) => {
                out.push(Piece::Number(*n));
                assert(parts(out@) =~= before + printed(self@));
            },
            Expression::String(s) => {
                out.push(Piece::Text(s.clone()));
                assert(parts(out@) =~= before + printed(self@));
            },
            Expression::Symbol(s) => {
                out.push(Piece::Text(s.clone()));
                assert(parts(out@) =~= before + printed(self@));
            },
            Expression::List(items) => {
                proof {
                    lemma_list_term(*items);
                }
                out.push(Piece::Text(String::from_str("(")));
                let ghost opened = parts(out@);
                assert(opened =~= before + seq![Part::Text("("@)]);
                print_items(items, out);
                let ghost listed = parts(out@);
                out.push(Piece::Text(String::from_str(")")));
                assert(parts(out@) =~= before + printed(self@)) by {
                    assert(parts(out@) =~= listed + seq![Part::Text(")"@)]);
                }
            },
            Expression::Function(params, body, env) => {
                proof {
                    lemma_function_term(*params, *body, *env);
                }
                let text = String::from_str("fn(").concat(join_names(params).as_str()).concat(")");
                out.push(Piece::Text(text));
                assert(parts(out@) =~= before + printed(self@));
            },
            Expression::Object(o) => {
                out.push(Piece::Text(String::from_str("class ")));
                assert(parts(out@) =~= before + printed(self@));
            },
        }
    }

    /// The printed form of this value, in pieces.
    pub fn pieces(&self) -> (r: Vec<Piece>)
        ensures
            parts(r@) == printed(self@),
    {
        let mut out: Vec<Piece> = Vec::new();
        assert(parts(out@) =~= Seq::<Part>::empty());
        self.print_into(&mut out);
        assert(Seq::<Part>::empty() + printed(self@) =~= printed(self@));
        out
    }
}

} // verus!
