//! Writing a token stream from left to right, groups included.

use crate::tokens::{
    copy_stream, empty_stream, ident_tok, is_punct, is_word, new_ident, push_group, push_ident,
    push_punct, push_stream, push_text, stream_toks, Delim, Tok,
};
use proc_macro2::{Ident, Span, TokenStream};
use vstd::prelude::*;

verus! {

/// A token of a fixed piece of source text.
#[derive(Clone, Copy)]
pub enum Piece {
    /// An identifier or a keyword.
    Word(&'static str),
    /// A punctuation character that the next one continues.
    Joint(char),
    /// A punctuation character that ends its operator.
    Alone(char),
    /// A string literal that denotes this text.
    Quoted(&'static str),
    /// The start of a group.
    Open(Delim),
    /// The end of a group.
    Close,
}

/// The token that a piece stands for, resolved at `span`.
pub open spec fn piece_tok(piece: Piece, span: Span) -> Tok {
    match piece {
        Piece::Word(text) => Tok::Ident(text@, span),
        Piece::Joint(c) => Tok::Punct(c, true, span),
        Piece::Alone(c) => Tok::Punct(c, false, span),
        Piece::Quoted(text) => Tok::Text(text@, span),
        Piece::Open(delim) => Tok::Open(delim, span),
        Piece::Close => Tok::Close,
    }
}

/// The tokens that pieces stand for, resolved at `span`.
#[verifier::opaque]
pub open spec fn spell(pieces: Seq<Piece>, span: Span) -> Seq<Tok> {
    Seq::new(pieces.len(), |i: int| piece_tok(pieces[i], span))
}

/// A piece whose characters can be a token.
pub open spec fn is_piece(piece: Piece) -> bool {
    match piece {
        Piece::Word(text) => is_word(text@),
        Piece::Joint(c) => is_punct(c),
        Piece::Alone(c) => is_punct(c),
        _ => true,
    }
}

/// How many groups are open after a piece, where `depth` were before it.
pub open spec fn depth_past(piece: Piece, depth: int) -> int {
    match piece {
        Piece::Open(_) => depth + 1,
        Piece::Close => depth - 1,
        _ => depth,
    }
}

/// How many groups are open after the first `n` pieces, where `depth` were before them; negative
/// from the piece on that ends a group where none is open.
pub open spec fn depth_after(pieces: Seq<Piece>, n: nat, depth: int) -> int
    decreases n,
{
    if n == 0 {
        depth
    } else {
        let before = depth_after(pieces, (n - 1) as nat, depth);
        if before < 0 {
            before
        } else {
            depth_past(pieces[n - 1], before)
        }
    }
}

/// The tokens written so far, where `done[i]` was written before the group that `delims[i]` opens
/// at `spans[i]`.
spec fn written(done: Seq<TokenStream>, delims: Seq<Delim>, spans: Seq<Span>) -> Seq<Tok>
    decreases done.len(),
{
    if done.len() == 0 {
        Seq::empty()
    } else {
        (written(done.drop_last(), delims.drop_last(), spans.drop_last()) + stream_toks(
            done.last(),
        )).push(Tok::Open(delims.last(), spans.last()))
    }
}

/// A stream that is being written. The groups that are open are kept apart, each with what was
/// written before it.
pub struct Builder {
    done: Vec<TokenStream>,
    delims: Vec<Delim>,
    spans: Vec<Span>,
    rest: TokenStream,
}

impl View for Builder {
    type V = Seq<Tok>;

    closed spec fn view(&self) -> Seq<Tok> {
        written(self.done@, self.delims@, self.spans@) + stream_toks(self.rest)
    }
}

impl Builder {
    /// Every open group has the stream it stands in and its place.
    pub closed spec fn wf(self) -> bool {
        self.done@.len() == self.delims@.len() && self.done@.len() == self.spans@.len()
    }

    /// How many groups are open.
    pub closed spec fn depth(self) -> nat {
        self.done@.len()
    }

    /// A stream with nothing written.
    pub fn new() -> (builder: Builder)
        ensures
            builder.wf(),
            builder.depth() == 0,
            builder@ == Seq::<Tok>::empty(),
    {
        Builder {
            done: Vec::new(),
            delims: Vec::new(),
            spans: Vec::new(),
            rest: empty_stream(),
        }
    }

    /// Writes one identifier.
    pub fn ident(&mut self, ident: &Ident)
        requires
            old(self).wf(),
        ensures
            final(self).wf(),
            final(self).depth() == old(self).depth(),
            final(self)@ == old(self)@ + seq![ident_tok(*ident)],
    {
        push_ident(&mut self.rest, ident);
    }

    /// Writes a string literal, resolved at `span`.
    pub fn text(&mut self, text: &str, span: Span)
        requires
            old(self).wf(),
        ensures
            final(self).wf(),
            final(self).depth() == old(self).depth(),
            final(self)@ == old(self)@ + seq![Tok::Text(text@, span)],
    {
        push_text(&mut self.rest, text, span);
    }

    /// Writes the tokens of a stream.
    pub fn stream(&mut self, stream: &TokenStream)
        requires
            old(self).wf(),
        ensures
            final(self).wf(),
            final(self).depth() == old(self).depth(),
            final(self)@ == old(self)@ + stream_toks(*stream),
    {
        push_stream(&mut self.rest, copy_stream(stream));
    }

    /// Opens a group, resolved at `span`.
    pub fn open(&mut self, delim: Delim, span: Span)
        requires
            old(self).wf(),
        ensures
            final(self).wf(),
            final(self).depth() == old(self).depth() + 1,
            final(self)@ == old(self)@ + seq![Tok::Open(delim, span)],
    {
        let mut before = empty_stream();
        std::mem::swap(&mut before, &mut self.rest);
        self.done.push(before);
        self.delims.push(delim);
        self.spans.push(span);
        assert(self.done@.drop_last() == old(self).done@);
        assert(self.delims@.drop_last() == old(self).delims@);
        assert(self.spans@.drop_last() == old(self).spans@);
    }

    /// Ends the innermost group.
    fn close(&mut self)
        requires
            old(self).wf(),
            old(self).depth() > 0,
        ensures
            final(self).wf(),
            final(self).depth() == old(self).depth() - 1,
            final(self)@ == old(self)@.push(Tok::Close),
    {
        let mut outer = self.done.pop().unwrap();
        let delim = self.delims.pop().unwrap();
        let span = self.spans.pop().unwrap();
        std::mem::swap(&mut outer, &mut self.rest);
        push_group(&mut self.rest, delim, outer, span);
        assert(self.done@ == old(self).done@.drop_last());
        assert(self.delims@ == old(self).delims@.drop_last());
        assert(self.spans@ == old(self).spans@.drop_last());
        assert(self@ =~= old(self)@.push(Tok::Close));
    }

    /// Writes one token, resolved at `span`.
    pub fn piece(&mut self, piece: Piece, span: Span)
        requires
            old(self).wf(),
            is_piece(piece),
            piece is Close ==> old(self).depth() > 0,
        ensures
            final(self).wf(),
            final(self).depth() == depth_past(piece, old(self).depth() as int),
            final(self)@ == old(self)@ + spell(seq![piece], span),
    {
        match piece {
            Piece::Word(text) => {
                let ident = new_ident(text, span);
                self.ident(&ident);
            },
            Piece::Joint(c) => {
                push_punct(&mut self.rest, c, true, span);
            },
            Piece::Alone(c) => {
                push_punct(&mut self.rest, c, false, span);
            },
            Piece::Quoted(text) => {
                self.text(text, span);
            },
            Piece::Open(delim) => {
                self.open(delim, span);
            },
            Piece::Close => {
                self.close();
            },
        }
        reveal(spell);
        assert(self@ =~= old(self)@ + spell(seq![piece], span));
    }

    /// Writes a fixed piece of source text, resolved at `span`.
    pub fn pieces(&mut self, pieces: &[Piece], span: Span)
        requires
            old(self).wf(),
            forall|i: int| 0 <= i < pieces@.len() ==> is_piece(#[trigger] pieces@[i]),
            depth_after(pieces@, pieces@.len(), old(self).depth() as int) >= 0,
        ensures
            final(self).wf(),
            final(self).depth() == depth_after(pieces@, pieces@.len(), old(self).depth() as int),
            final(self)@ == old(self)@ + spell(pieces@, span),
    {
        let mut i: usize = 0;
        let ghost spelled = spell(pieces@, span);
        reveal(spell);
        assert(self@ =~= self@ + spelled.take(0));
        while i < pieces.len()
            invariant
                i <= pieces@.len(),
                spelled == spell(pieces@, span),
                self.wf(),
                forall|j: int| 0 <= j < pieces@.len() ==> is_piece(#[trigger] pieces@[j]),
                depth_after(pieces@, pieces@.len(), old(self).depth() as int) >= 0,
                self.depth() == depth_after(pieces@, i as nat, old(self).depth() as int),
                self@ == old(self)@ + spelled.take(i as int),
            decreases pieces@.len() - i,
        {
            reveal(spell);
            let ghost before = *self;
            proof {
                lemma_depth_stays_negative(
                    pieces@,
                    (i + 1) as nat,
                    pieces@.len(),
                    old(self).depth() as int,
                );
                assert(is_piece(pieces@[i as int]));
            }
            self.piece(pieces[i], span);
            assert(self@ =~= before@.push(spelled[i as int]));
            assert(spelled.take(i + 1) =~= spelled.take(i as int).push(spelled[i as int]));
            i = i + 1;
            assert(self@ =~= old(self)@ + spelled.take(i as int));
        }
        assert(spelled.take(i as int) =~= spelled);
    }

    /// The stream, once every group has ended.
    pub fn finish(self) -> (stream: TokenStream)
        requires
            self.wf(),
            self.depth() == 0,
        ensures
            stream_toks(stream) == self@,
    {
        self.rest
    }
}

/// What has been written is followed by `toks`, and the groups that are open are the same.
pub open spec fn wrote(before: Builder, after: Builder, toks: Seq<Tok>) -> bool {
    &&& after.wf()
    &&& after.depth() == before.depth()
    &&& after@ =~= before@ + toks
}

/// Once a group has ended where none was open, the count stays negative.
proof fn lemma_depth_stays_negative(pieces: Seq<Piece>, n: nat, m: nat, depth: int)
    requires
        n <= m,
        depth_after(pieces, m, depth) >= 0,
    ensures
        depth_after(pieces, n, depth) >= 0,
    decreases m - n,
{
    if n < m {
        lemma_depth_stays_negative(pieces, n + 1, m, depth);
    }
}

} // verus!
