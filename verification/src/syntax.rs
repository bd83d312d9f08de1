//! Reading configuration blocks and interface declarations from Rust syntax.
//!
//! The syntax is parsed by `syn`. What the parser returns is opaque to the
//! verifier; the functions of this module take it apart through small
//! accessors and rebuild it as values of this library's own types.
//!
//! The parser is built without its link to the compiler's token streams, so
//! that a text is read in the same way wherever the library runs, and on a
//! lexer that produces no kind of literal that the parser does not know: a
//! text that the parser cannot read is an error, never a panic.

use vstd::prelude::*;
use vstd::string::*;
use quote::{ToTokens, TokenStreamExt};
use syn::parse::Parser;
use crate::config::{Fragment, FragmentView, Literal};
use crate::interface::{
    Arg, Declaration, DeclarationView, Item, ItemView, Param, Signature, SignatureView,
};
use crate::util::lemma_take_all;

verus! {

/// `syn::ItemTrait`: a parsed trait.
#[verifier::external_type_specification]
#[verifier::external_body]
pub struct ExItemTrait(syn::ItemTrait);

/// `syn::TraitItemMethod`: a parsed method of a trait.
#[verifier::external_type_specification]
#[verifier::external_body]
pub struct ExTraitItemMethod(syn::TraitItemMethod);

/// `syn::NestedMeta`: a parsed element of an attribute's argument list.
#[verifier::external_type_specification]
#[verifier::external_body]
pub struct ExNestedMeta(syn::NestedMeta);

/// `syn::Error`: what the parser returns for a text that it refuses.
#[verifier::external_type_specification]
#[verifier::external_body]
pub struct ExSyntaxError(syn::Error);

/// A text that is not of the expected syntax, with the parser's message.
#[derive(Clone, Debug, PartialEq, Eq)]
pub struct SyntaxError {
    pub message: String,
}

/// The message that a parser's error carries.
pub uninterp spec fn error_text(e: syn::Error) -> Seq<char>;

/// What parsing a text as a configuration block gives: its fragments in
/// order, or the parser's message.
pub uninterp spec fn attribute_syntax(text: Seq<char>) -> Result<Seq<FragmentView>, Seq<char>>;

/// The fragment that a parsed element of a configuration block holds: its
/// key, if it has one, and its value.
pub uninterp spec fn meta_fragment(item: syn::NestedMeta) -> FragmentView;

/// The fragments that parsed elements hold, in order.
pub open spec fn meta_fragments(items: Seq<syn::NestedMeta>) -> Seq<FragmentView> {
    Seq::new(items.len(), |i: int| meta_fragment(items[i]))
}

/// What parsing a text as a trait gives: the declaration that the trait
/// holds, or the parser's message.
pub uninterp spec fn trait_syntax(text: Seq<char>) -> Result<DeclarationView, Seq<char>>;

/// The declaration that a parsed trait holds: what stands before `trait`,
/// its identifier, what stands between the identifier and the body, and its
/// items.
pub uninterp spec fn trait_declaration(t: syn::ItemTrait) -> DeclarationView;

/// The signature that a parsed method holds: what stands before `fn`, its
/// identifier, its generic parameters, its inputs, its output, its `where`
/// clause and its default body.
pub uninterp spec fn method_signature(m: syn::TraitItemMethod) -> SignatureView;

/// Whether a text is one identifier, as the parser reads identifiers: a
/// keyword and `_` are none.
pub uninterp spec fn identifier_syntax(text: Seq<char>) -> bool;

/// `syn::parse_str` at `Ident`: whether the whole text is one identifier.
#[verifier::external_body]
pub(crate) fn is_identifier(text: &str) -> (r: bool)
    ensures
        r == identifier_syntax(text@),
{
    syn::parse_str::<syn::Ident>(text).is_ok()
}

/// `Error::to_string`: the message of a parser's error.
#[verifier::external_body]
fn error_message(e: &syn::Error) -> (r: String)
    ensures
        r@ == error_text(*e),
{
    e.to_string()
}

/// `Punctuated::<NestedMeta, Comma>::parse_terminated`, run on a text by
/// `Parser::parse_str`: a list of elements with commas between them, each a
/// literal or a path, which may be followed by `= literal` or by a list in
/// parentheses.
#[verifier::external_body]
fn parse_attributes(text: &str) -> (r: Result<Vec<syn::NestedMeta>, syn::Error>)
    ensures
        match r {
            Ok(items) => attribute_syntax(text@) == Ok::<Seq<FragmentView>, Seq<char>>(
                meta_fragments(items@),
            ),
            Err(e) => attribute_syntax(text@) == Err::<Seq<FragmentView>, Seq<char>>(
                error_text(e),
            ),
        },
{
    let parser = syn::punctuated::Punctuated::<syn::NestedMeta, syn::token::Comma>::parse_terminated;
    Ok(parser.parse_str(text)?.into_iter().collect())
}

/// The key of an element: its path as it prints (`Meta::path`), or none for
/// a literal that stands alone (`NestedMeta::Lit`).
#[verifier::external_body]
fn meta_key(item: &syn::NestedMeta) -> (r: Option<String>)
    ensures
        r.deep_view() == meta_fragment(*item).key,
{
    match item {
        syn::NestedMeta::Meta(meta) => Some(meta.path().to_token_stream().to_string()),
        syn::NestedMeta::Lit(_) => None,
    }
}

/// The value of an element: the literal that stands alone or behind `=`, a
/// string by its content (`LitStr::value`) and a boolean by its value; any
/// other literal, and a path without `= literal`, is of no known type.
#[verifier::external_body]
fn meta_value(item: &syn::NestedMeta) -> (r: Literal)
    ensures
        r.deep_view() == meta_fragment(*item).value,
{
    let literal = match item {
        syn::NestedMeta::Meta(syn::Meta::NameValue(pair)) => Some(&pair.lit),
        syn::NestedMeta::Meta(_) => None,
        syn::NestedMeta::Lit(literal) => Some(literal),
    };
    match literal {
        Some(syn::Lit::Str(text)) => Literal::Str(text.value()),
        Some(syn::Lit::Bool(flag)) => Literal::Bool(flag.value),
        _ => Literal::Other,
    }
}

/// `syn::parse_str` at `ItemTrait`.
#[verifier::external_body]
fn parse_trait(text: &str) -> (r: Result<syn::ItemTrait, syn::Error>)
    ensures
        match r {
            Ok(t) => trait_syntax(text@) == Ok::<DeclarationView, Seq<char>>(
                trait_declaration(t),
            ),
            Err(e) => trait_syntax(text@) == Err::<DeclarationView, Seq<char>>(error_text(e)),
        },
{
    syn::parse_str::<syn::ItemTrait>(text)
}

/// What stands before `trait`, as its tokens print: the attributes, the
/// visibility, `unsafe` and `auto` (`ItemTrait::attrs`, `vis`, `unsafety`,
/// `auto_token`).
#[verifier::external_body]
fn trait_qualifiers(t: &syn::ItemTrait) -> (r: String)
    ensures
        r@ == trait_declaration(*t).qualifiers,
{
    let mut tokens = proc_macro2::TokenStream::new();
    tokens.append_all(&t.attrs);
    t.vis.to_tokens(&mut tokens);
    t.unsafety.to_tokens(&mut tokens);
    t.auto_token.to_tokens(&mut tokens);
    tokens.to_string()
}

/// What stands between a trait's identifier and its body, as its tokens
/// print: the generic parameters, the colon with the supertraits, and the
/// `where` clause (`ItemTrait::generics`, `colon_token`, `supertraits`).
#[verifier::external_body]
fn trait_bounds(t: &syn::ItemTrait) -> (r: String)
    ensures
        r@ == trait_declaration(*t).bounds,
{
    let mut tokens = proc_macro2::TokenStream::new();
    t.generics.to_tokens(&mut tokens);
    t.colon_token.to_tokens(&mut tokens);
    t.supertraits.to_tokens(&mut tokens);
    t.generics.where_clause.to_tokens(&mut tokens);
    tokens.to_string()
}

/// The identifier of a trait (`ItemTrait::ident`), as text.
#[verifier::external_body]
fn trait_name(t: &syn::ItemTrait) -> (r: String)
    ensures
        r@ == trait_declaration(*t).name,
{
    t.ident.to_string()
}

/// The number of items in a trait's body (`ItemTrait::items`).
#[verifier::external_body]
fn trait_item_count(t: &syn::ItemTrait) -> (r: usize)
    ensures
        r == trait_declaration(*t).items.len(),
{
    t.items.len()
}

/// The item at a position of a trait's body, if it is a method
/// (`TraitItem::Method`).
#[verifier::external_body]
fn trait_method(t: &syn::ItemTrait, i: usize) -> (r: Option<syn::TraitItemMethod>)
    requires
        i < trait_declaration(*t).items.len(),
    ensures
        match r {
            Some(m) => trait_declaration(*t).items[i as int] == ItemView::Method(
                method_signature(m),
            ),
            None => trait_declaration(*t).items[i as int] is Other,
        },
{
    match &t.items[i] {
        syn::TraitItem::Method(m) => Some(m.clone()),
        _ => None,
    }
}

/// The item at a position of a trait's body, as its tokens print.
#[verifier::external_body]
fn trait_item_text(t: &syn::ItemTrait, i: usize) -> (r: String)
    requires
        i < trait_declaration(*t).items.len(),
    ensures
        trait_declaration(*t).items[i as int] matches ItemView::Other(text) ==> r@ == text,
{
    t.items[i].to_token_stream().to_string()
}

/// What stands before `fn`, as its tokens print: the attributes, `const`,
/// `async`, `unsafe` and the ABI (`TraitItemMethod::attrs`,
/// `Signature::constness`, `asyncness`, `unsafety`, `abi`).
#[verifier::external_body]
fn method_qualifiers(m: &syn::TraitItemMethod) -> (r: String)
    ensures
        r@ == method_signature(*m).qualifiers,
{
    let mut tokens = proc_macro2::TokenStream::new();
    tokens.append_all(&m.attrs);
    m.sig.constness.to_tokens(&mut tokens);
    m.sig.asyncness.to_tokens(&mut tokens);
    m.sig.unsafety.to_tokens(&mut tokens);
    m.sig.abi.to_tokens(&mut tokens);
    tokens.to_string()
}

/// The generic parameters of a method (`Signature::generics`), as their
/// tokens print; empty where it has none.
#[verifier::external_body]
fn method_generics(m: &syn::TraitItemMethod) -> (r: String)
    ensures
        r@ == method_signature(*m).generics,
{
    m.sig.generics.to_token_stream().to_string()
}

/// The `where` clause of a method (`Generics::where_clause`), as its tokens
/// print; empty where it has none.
#[verifier::external_body]
fn method_bounds(m: &syn::TraitItemMethod) -> (r: String)
    ensures
        r@ == method_signature(*m).bounds,
{
    m.sig.generics.where_clause.to_token_stream().to_string()
}

/// The default body of a method (`TraitItemMethod::default`), as its tokens
/// print; none where the declaration ends in a semicolon.
#[verifier::external_body]
fn method_body(m: &syn::TraitItemMethod) -> (r: Option<String>)
    ensures
        r.deep_view() == method_signature(*m).body,
{
    match &m.default {
        Some(block) => Some(block.to_token_stream().to_string()),
        None => None,
    }
}

/// The identifier of a method (`Signature::ident`), as text.
#[verifier::external_body]
fn method_name(m: &syn::TraitItemMethod) -> (r: String)
    ensures
        r@ == method_signature(*m).name,
{
    m.sig.ident.to_string()
}

/// The number of a method's inputs (`Signature::inputs`).
#[verifier::external_body]
fn method_arg_count(m: &syn::TraitItemMethod) -> (r: usize)
    ensures
        r == method_signature(*m).args.len(),
{
    m.sig.inputs.len()
}

/// The input at a position of a method's signature: a receiver as its
/// tokens print, with whether it is marked `mut` (`FnArg::Receiver`), or a
/// pattern and a type as their tokens print (`FnArg::Typed`).
#[verifier::external_body]
fn method_arg(m: &syn::TraitItemMethod, i: usize) -> (r: Arg)
    requires
        i < method_signature(*m).args.len(),
    ensures
        r.deep_view() == method_signature(*m).args[i as int],
{
    match &m.sig.inputs[i] {
        syn::FnArg::Receiver(receiver) => Arg::Receiver {
            mutable: receiver.mutability.is_some(),
            text: receiver.to_token_stream().to_string(),
        },
        syn::FnArg::Typed(typed) => Arg::Typed(Param {
            name: typed.pat.to_token_stream().to_string(),
            ty: typed.ty.to_token_stream().to_string(),
        }),
    }
}

/// The declared return type of a method (`Signature::output`), as its
/// tokens print; none where the signature has no `->`.
#[verifier::external_body]
fn method_output(m: &syn::TraitItemMethod) -> (r: Option<String>)
    ensures
        r.deep_view() == method_signature(*m).ret,
{
    match &m.sig.output {
        syn::ReturnType::Default => None,
        syn::ReturnType::Type(_, ty) => Some(ty.to_token_stream().to_string()),
    }
}

/// Rebuilds the signature of a parsed method.
fn read_signature(m: &syn::TraitItemMethod) -> (r: Signature)
    ensures
        r.deep_view() == method_signature(*m),
{
    let count = method_arg_count(m);
    let mut args: Vec<Arg> = Vec::new();
    let mut i: usize = 0;
    while i < count
        invariant
            count == method_signature(*m).args.len(),
            i <= count,
            args.deep_view() == method_signature(*m).args.take(i as int),
        decreases count - i,
    {
        let ghost before = args.deep_view();
        let arg = method_arg(m, i);
        args.push(arg);
        assert(args.deep_view() =~= before.push(method_signature(*m).args[i as int]));
        assert(before.push(method_signature(*m).args[i as int]) =~= method_signature(
            *m,
        ).args.take(i + 1));
        i += 1;
    }
    proof {
        lemma_take_all(method_signature(*m).args);
    }
    Signature {
        qualifiers: method_qualifiers(m),
        name: method_name(m),
        generics: method_generics(m),
        args,
        ret: method_output(m),
        bounds: method_bounds(m),
        body: method_body(m),
    }
}

/// Reads a configuration block: values with commas between them, each
/// written as `key = value`, or alone where it is positional.
pub fn read_fragments(text: &str) -> (r: Result<Vec<Fragment>, SyntaxError>)
    ensures
        match r {
            Ok(fragments) => attribute_syntax(text@) == Ok::<Seq<FragmentView>, Seq<char>>(
                fragments.deep_view(),
            ),
            Err(e) => attribute_syntax(text@) == Err::<Seq<FragmentView>, Seq<char>>(e.message@),
        },
{
    match parse_attributes(text) {
        Err(e) => Err(SyntaxError { message: error_message(&e) }),
        Ok(items) => {
            let mut fragments: Vec<Fragment> = Vec::new();
            let mut i: usize = 0;
            while i < items.len()
                invariant
                    i <= items.len(),
                    fragments.deep_view() == meta_fragments(items@).take(i as int),
                decreases items.len() - i,
            {
                let ghost before = fragments.deep_view();
                let fragment = Fragment { key: meta_key(&items[i]), value: meta_value(&items[i]) };
                fragments.push(fragment);
                assert(fragments.deep_view() =~= before.push(meta_fragment(items@[i as int])));
                assert(before.push(meta_fragment(items@[i as int])) =~= meta_fragments(
                    items@,
                ).take(i + 1));
                i += 1;
            }
            proof {
                lemma_take_all(meta_fragments(items@));
            }
            Ok(fragments)
        },
    }
}

/// Reads an interface declaration, written as a trait.
pub fn read_declaration(text: &str) -> (r: Result<Declaration, SyntaxError>)
    ensures
        match r {
            Ok(d) => trait_syntax(text@) == Ok::<DeclarationView, Seq<char>>(d.deep_view()),
            Err(e) => trait_syntax(text@) == Err::<DeclarationView, Seq<char>>(e.message@),
        },
{
    match parse_trait(text) {
        Err(e) => Err(SyntaxError { message: error_message(&e) }),
        Ok(t) => {
            let count = trait_item_count(&t);
            let mut items: Vec<Item> = Vec::new();
            let mut i: usize = 0;
            while i < count
                invariant
                    count == trait_declaration(t).items.len(),
                    i <= count,
                    items.deep_view() == trait_declaration(t).items.take(i as int),
                decreases count - i,
            {
                let ghost before = items.deep_view();
                let item = match trait_method(&t, i) {
                    Some(m) => Item::Method(read_signature(&m)),
                    None => Item::Other(trait_item_text(&t, i)),
                };
                items.push(item);
                assert(items.deep_view() =~= before.push(trait_declaration(t).items[i as int]));
                assert(before.push(trait_declaration(t).items[i as int]) =~= trait_declaration(
                    t,
                ).items.take(i + 1));
                i += 1;
            }
            proof {
                lemma_take_all(trait_declaration(t).items);
            }
            Ok(
                Declaration {
                    qualifiers: trait_qualifiers(&t),
                    name: trait_name(&t),
                    bounds: trait_bounds(&t),
                    items,
                },
            )
        },
    }
}

} // verus!
