//! Weaving an aspect into a function that `syn` has parsed.

use crate::codegen::{generate_aspect_wrapper, generate_async_aspect_wrapper};
use crate::reading::{read_item, syn_item};
use crate::syntax::AspectInfo;
use crate::templates::{aspect_wrapper, async_aspect_wrapper};
use crate::tokens::{ident_text, is_call_site, is_plain, stream_toks, text_of};
use proc_macro2::{Ident, Span, TokenStream};
use vstd::prelude::*;
use vstd::string::*;

verus! {

/// Whether an identifier can be part of another one.
pub fn is_plain_ident(ident: &Ident) -> (plain: bool)
    ensures
        plain == is_plain(ident_text(*ident)),
{
    let text = text_of(ident);
    let count = text.as_str().unicode_len();
    let mut i: usize = 0;
    while i < count
        invariant
            text@ == ident_text(*ident),
            count == text@.len(),
            i <= count,
            forall|j: int| 0 <= j < i ==> #[trigger] text@[j] != '#' && text@[j] != '$',
        decreases count - i,
    {
        let c = text.as_str().get_char(i);
        if c == '#' || c == '$' {
            assert(text@.contains(c));
            return false;
        }
        i = i + 1;
    }
    true
}

/// Weaves an aspect into a function. Nothing comes out where no name can be made for the function
/// behind the wrapper, which is where the function has a raw name.
pub fn weave_aspect(aspect: &AspectInfo, func: &syn::ItemFn) -> (tokens: Option<TokenStream>)
    ensures
        tokens is Some == is_plain(syn_item(*func).sig.ident.text),
        tokens matches Some(tokens) ==> exists|at: Span|
            is_call_site(at) && stream_toks(tokens) == #[trigger] aspect_wrapper(
                aspect@,
                syn_item(*func),
                at,
            ),
{
    let item = read_item(func);
    if is_plain_ident(&item.sig.ident) {
        Some(generate_aspect_wrapper(aspect, &item))
    } else {
        None
    }
}

/// Weaves an asynchronous aspect into a function. Nothing comes out where no name can be made for
/// the function behind the wrapper, which is where the function has a raw name.
pub fn weave_async_aspect(aspect: &AspectInfo, func: &syn::ItemFn) -> (tokens: Option<
    TokenStream,
>)
    ensures
        tokens is Some == is_plain(syn_item(*func).sig.ident.text),
        tokens matches Some(tokens) ==> exists|at: Span|
            is_call_site(at) && stream_toks(tokens) == #[trigger] async_aspect_wrapper(
                aspect@,
                syn_item(*func),
                at,
            ),
{
    let item = read_item(func);
    if is_plain_ident(&item.sig.ident) {
        Some(generate_async_aspect_wrapper(aspect, &item))
    } else {
        None
    }
}

} // verus!
