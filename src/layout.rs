//! The output of a struct-like or tuple-like value as a sequence of pieces:
//! texts laid out here, and places where the caller writes one of its own
//! values.
use vstd::prelude::*;

use crate::text::{indent, indented};

verus! {

/// A piece of output: a text, or the value of the caller's that stands at
/// the given position among its values.
#[derive(Debug, PartialEq, Eq)]
pub enum Piece {
    Text(String),
    Value(usize),
}

/// What a piece stands for.
pub enum Chunk {
    Text(Seq<char>),
    Value(usize),
}

impl View for Piece {
    type V = Chunk;

    open spec fn view(&self) -> Chunk {
        match self {
            Piece::Text(s) => Chunk::Text(s@),
            Piece::Value(i) => Chunk::Value(*i),
        }
    }
}

/// A named field and what is shown for it.
#[derive(Debug, PartialEq, Eq)]
pub struct Field {
    pub name: String,
    pub content: Piece,
}

/// What a sequence of pieces stands for.
pub open spec fn chunks(pieces: Seq<Piece>) -> Seq<Chunk> {
    pieces.map_values(|p: Piece| p@)
}

/// How content is shown inside a structure: a text is indented in alternate
/// mode; a value stays a value (its text is finished by `pad`).
pub open spec fn shown(content: Chunk, alternate: bool) -> Chunk {
    match content {
        Chunk::Text(t) => Chunk::Text(
            if alternate {
                indented(t)
            } else {
                t
            },
        ),
        Chunk::Value(i) => Chunk::Value(i),
    }
}

/// The pieces of one named field; `first` tells whether a separator goes
/// before it on one line.
pub open spec fn struct_entry(field: Field, first: bool, alternate: bool) -> Seq<Chunk> {
    let body = seq![Chunk::Text(field.name@), Chunk::Text(": "@), shown(field.content@, alternate)];
    if alternate {
        seq![Chunk::Text("\n    "@)] + body + seq![Chunk::Text(","@)]
    } else if first {
        body
    } else {
        seq![Chunk::Text(", "@)] + body
    }
}

/// The pieces of all the named fields, in order.
pub open spec fn struct_entries(fields: Seq<Field>, alternate: bool) -> Seq<Chunk>
    decreases fields.len(),
{
    if fields.len() == 0 {
        Seq::empty()
    } else {
        struct_entries(fields.drop_last(), alternate) + struct_entry(
            fields.last(),
            fields.len() == 1,
            alternate,
        )
    }
}

/// The output of a value named `name` with named fields: the name alone
/// when no field is shown, else `Name { a: 1, b: 2 }`, or in alternate mode
/// one field per line, each indented and followed by a comma.
pub open spec fn struct_layout(name: Seq<char>, fields: Seq<Field>, alternate: bool) -> Seq<
    Chunk,
> {
    if fields.len() == 0 {
        seq![Chunk::Text(name)]
    } else if alternate {
        seq![Chunk::Text(name), Chunk::Text(" {"@)] + struct_entries(fields, true) + seq![
            Chunk::Text("\n}"@),
        ]
    } else {
        seq![Chunk::Text(name), Chunk::Text(" { "@)] + struct_entries(fields, false) + seq![
            Chunk::Text(" }"@),
        ]
    }
}

/// The pieces of one unnamed field.
pub open spec fn tuple_entry(content: Chunk, first: bool, alternate: bool) -> Seq<Chunk> {
    if alternate {
        seq![Chunk::Text("\n    "@), shown(content, true), Chunk::Text(","@)]
    } else if first {
        seq![shown(content, false)]
    } else {
        seq![Chunk::Text(", "@), shown(content, false)]
    }
}

/// The pieces of all the unnamed fields, in order.
pub open spec fn tuple_entries(contents: Seq<Chunk>, alternate: bool) -> Seq<Chunk>
    decreases contents.len(),
{
    if contents.len() == 0 {
        Seq::empty()
    } else {
        tuple_entries(contents.drop_last(), alternate) + tuple_entry(
            contents.last(),
            contents.len() == 1,
            alternate,
        )
    }
}

/// The output of a value named `name` with unnamed fields: the name alone
/// when no field is shown, else `Name(1, 2)`, or in alternate mode one
/// field per line, each indented and followed by a comma.
pub open spec fn tuple_layout(name: Seq<char>, contents: Seq<Chunk>, alternate: bool) -> Seq<
    Chunk,
> {
    if contents.len() == 0 {
        seq![Chunk::Text(name)]
    } else if alternate {
        seq![Chunk::Text(name), Chunk::Text("("@)] + tuple_entries(contents, true) + seq![
            Chunk::Text("\n)"@),
        ]
    } else {
        seq![Chunk::Text(name), Chunk::Text("("@)] + tuple_entries(contents, false) + seq![
            Chunk::Text(")"@),
        ]
    }
}

fn text(s: &str) -> (p: Piece)
    ensures
        p@ == Chunk::Text(s@),
{
    Piece::Text(s.to_owned())
}

fn push_piece(pieces: &mut Vec<Piece>, p: Piece)
    ensures
        chunks(final(pieces)@) == chunks(old(pieces)@).push(p@),
{
    let ghost before = chunks(pieces@);
    let ghost added = p@;
    pieces.push(p);
    assert(chunks(pieces@) =~= before.push(added));
}

/// The piece that shows `content` inside a structure.
fn show(content: &Piece, alternate: bool) -> (p: Piece)
    ensures
        p@ == shown(content@, alternate),
{
    match content {
        Piece::Text(t) => {
            if alternate {
                Piece::Text(indent(t.as_str()))
            } else {
                Piece::Text(t.clone())
            }
        },
        Piece::Value(i) => Piece::Value(*i),
    }
}

/// The pieces to write for a value named `name` with the named `fields`.
pub fn struct_pieces(name: &str, fields: &Vec<Field>, alternate: bool) -> (r: Vec<Piece>)
    ensures
        chunks(r@) == struct_layout(name@, fields@, alternate),
{
    let mut r: Vec<Piece> = Vec::new();
    push_piece(&mut r, text(name));
    if fields.len() == 0 {
        return r;
    }
    if alternate {
        push_piece(&mut r, text(" {"));
    } else {
        push_piece(&mut r, text(" { "));
    }
    let ghost opening = chunks(r@);
    let mut i: usize = 0;
    while i < fields.len()
        invariant
            i <= fields@.len(),
            chunks(r@) == opening + struct_entries(fields@.take(i as int), alternate),
        decreases fields@.len() - i,
    {
        let ghost prev = chunks(r@);
        let field = &fields[i];
        if alternate {
            push_piece(&mut r, text("\n    "));
        } else if i > 0 {
            push_piece(&mut r, text(", "));
        }
        push_piece(&mut r, text(field.name.as_str()));
        push_piece(&mut r, text(": "));
        push_piece(&mut r, show(&field.content, alternate));
        if alternate {
            push_piece(&mut r, text(","));
        }
        proof {
            let next = fields@.take(i + 1);
            assert(next.drop_last() == fields@.take(i as int));
            assert(next.last() == fields@[i as int]);
            assert(chunks(r@) =~= prev + struct_entry(fields@[i as int], i == 0, alternate));
        }
        i = i + 1;
    }
    if alternate {
        push_piece(&mut r, text("\n}"));
    } else {
        push_piece(&mut r, text(" }"));
    }
    assert(fields@.take(fields@.len() as int) == fields@);
    r
}

/// The pieces to write for a value named `name` with the unnamed fields
/// `contents`.
pub fn tuple_pieces(name: &str, contents: &Vec<Piece>, alternate: bool) -> (r: Vec<Piece>)
    ensures
        chunks(r@) == tuple_layout(name@, chunks(contents@), alternate),
{
    let mut r: Vec<Piece> = Vec::new();
    push_piece(&mut r, text(name));
    if contents.len() == 0 {
        return r;
    }
    push_piece(&mut r, text("("));
    let ghost opening = chunks(r@);
    let ghost all = chunks(contents@);
    let mut i: usize = 0;
    while i < contents.len()
        invariant
            i <= contents@.len(),
            all == chunks(contents@),
            chunks(r@) == opening + tuple_entries(all.take(i as int), alternate),
        decreases contents@.len() - i,
    {
        let ghost prev = chunks(r@);
        if alternate {
            push_piece(&mut r, text("\n    "));
        } else if i > 0 {
            push_piece(&mut r, text(", "));
        }
        push_piece(&mut r, show(&contents[i], alternate));
        if alternate {
            push_piece(&mut r, text(","));
        }
        proof {
            let next = all.take(i + 1);
            assert(next.drop_last() == all.take(i as int));
            assert(next.last() == contents@[i as int]@);
            assert(chunks(r@) =~= prev + tuple_entry(contents@[i as int]@, i == 0, alternate));
        }
        i = i + 1;
    }
    if alternate {
        push_piece(&mut r, text("\n)"));
    } else {
        push_piece(&mut r, text(")"));
    }
    assert(all.take(all.len() as int) == all);
    r
}

} // verus!
