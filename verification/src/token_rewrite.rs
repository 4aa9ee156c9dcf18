//! Span-preserving token rewrites for the provider types generated for a
//! reflected trait.

use vstd::prelude::*;

use crate::ir::TokenTreeIr;
use crate::substitution::copy_token;
use crate::substitution::lemma_tokens_view_index;
use crate::substitution::lemma_tokens_view_push;
use crate::substitution::token_view;
use crate::substitution::tokens_view;
use crate::substitution::TokenView;
use crate::text::str_eq;

verus! {

/// The tokens with every identifier `Self` replaced by the owner's name at
/// the same span, inside groups too.
pub open spec fn owner_substituted(tokens: Seq<TokenView>, owner: Seq<char>) -> Seq<TokenView>
    decreases tokens,
{
    if tokens.len() == 0 {
        Seq::empty()
    } else {
        seq![
            match tokens[0] {
                TokenView::Ident(name, span) => if name == "Self"@ {
                    TokenView::Ident(owner, span)
                } else {
                    TokenView::Ident(name, span)
                },
                TokenView::Group(delimiter, inner, span) => TokenView::Group(
                    delimiter,
                    owner_substituted(inner, owner),
                    span,
                ),
                other => other,
            },
        ] + owner_substituted(tokens.drop_first(), owner)
    }
}

/// Replaces `Self` with an explicit owner while keeping grouping and spans.
pub fn replace_self_with_owner(tokens: &Vec<TokenTreeIr>, owner: &str) -> (rewritten: Vec<TokenTreeIr>)
    ensures
        tokens_view(rewritten@) == owner_substituted(tokens_view(tokens@), owner@),
    decreases tokens,
{
    let ghost whole = tokens_view(tokens@);
    let mut rewritten: Vec<TokenTreeIr> = Vec::new();
    let mut index: usize = 0;
    proof {
        lemma_tokens_view_index(tokens@);
        reveal_strlit("Self");
        assert(tokens_view(rewritten@) =~= Seq::<TokenView>::empty());
        assert(whole.skip(0) =~= whole);
        assert(Seq::<TokenView>::empty() + owner_substituted(whole, owner@) =~= owner_substituted(whole, owner@));
    }
    while index < tokens.len()
        invariant
            index <= tokens@.len(),
            whole == tokens_view(tokens@),
            whole.len() == tokens@.len(),
            forall|i: int| 0 <= i < tokens@.len() ==> #[trigger] whole[i] == token_view(tokens@[i]),
            tokens_view(rewritten@) + owner_substituted(whole.skip(index as int), owner@) == owner_substituted(
                whole,
                owner@,
            ),
        decreases tokens.len() - index,
    {
        let ghost rest = whole.skip(index as int);
        let ghost prior = rewritten@;
        assert(rest[0] == whole[index as int]);
        let token = match &tokens[index] {
            TokenTreeIr::Ident { name, span } => {
                if str_eq(name.as_str(), "Self") {
                    TokenTreeIr::Ident { name: owner.to_string(), span: *span }
                } else {
                    TokenTreeIr::Ident { name: name.clone(), span: *span }
                }
            },
            TokenTreeIr::Group { delimiter, tokens: inner, span } => TokenTreeIr::Group {
                delimiter: *delimiter,
                tokens: replace_self_with_owner(inner, owner),
                span: *span,
            },
            other => copy_token(other),
        };
        let ghost expected = match rest[0] {
            TokenView::Ident(name, span) => if name == "Self"@ {
                TokenView::Ident(owner@, span)
            } else {
                TokenView::Ident(name, span)
            },
            TokenView::Group(delimiter, inner, span) => TokenView::Group(
                delimiter,
                owner_substituted(inner, owner@),
                span,
            ),
            other => other,
        };
        assert(token_view(token) == expected);
        rewritten.push(token);
        proof {
            lemma_tokens_view_push(prior, token);
            assert(rest.drop_first() =~= whole.skip(index + 1));
            assert(tokens_view(rewritten@) + owner_substituted(whole.skip(index + 1), owner@) =~= tokens_view(prior)
                + owner_substituted(rest, owner@));
        }
        index += 1;
    }
    assert(whole.skip(index as int) =~= Seq::<TokenView>::empty());
    assert(tokens_view(rewritten@) + Seq::<TokenView>::empty() =~= tokens_view(rewritten@));
    rewritten
}

/// Whether an identifier `Self` occurs in the tokens, inside groups too.
pub open spec fn mentions_self(tokens: Seq<TokenView>) -> bool
    decreases tokens,
{
    if tokens.len() == 0 {
        false
    } else {
        ||| (tokens[0] matches TokenView::Ident(name, _) && name == "Self"@)
        ||| (match tokens[0] {
            TokenView::Group(_, inner, _) => mentions_self(inner),
            _ => false,
        })
        ||| mentions_self(tokens.drop_first())
    }
}

/// After the rewrite no `Self` is left: every one names the owner, unless
/// the owner is itself spelled `Self`.
pub proof fn law_owner_replaces_every_self(tokens: Seq<TokenView>, owner: Seq<char>)
    requires
        owner != "Self"@,
    ensures
        !mentions_self(owner_substituted(tokens, owner)),
    decreases tokens,
{
    if tokens.len() > 0 {
        let out = owner_substituted(tokens, owner);
        law_owner_replaces_every_self(tokens.drop_first(), owner);
        match tokens[0] {
            TokenView::Group(_, inner, _) => law_owner_replaces_every_self(inner, owner),
            _ => {},
        }
        assert(out.drop_first() =~= owner_substituted(tokens.drop_first(), owner));
    }
}

} // verus!
