//! The text that all four kinds of interface share: the request union, the
//! interface definition, and the per-method pieces of bindings and stubs.
//!
//! No generated operation aborts on what the codec returns. Every `serve`
//! and every operation of a stub returns a `servant::ServantResult`, which
//! is taken to be a `Result` with the error `servant::ServantError`. Bytes
//! that do not decode become `servant::ServantError::MalformedMessage`, and
//! a value that does not encode becomes
//! `servant::ServantError::Serialization`, each with the codec's message. An
//! error of the transport is passed on as it is.

use vstd::prelude::*;
use vstd::string::*;
use crate::interface::{
    Kind, Method, MethodView, Param, ParamView, TraitContext, TraitContextView,
};
use crate::util::{lemma_take_all, lemma_take_step};

verus! {

/// Which sides of the protocol to generate code for.
#[derive(Clone, Copy, Debug, PartialEq, Eq, Structural)]
pub struct Sides {
    pub server: bool,
    pub client: bool,
}

/// One parameter as a named field: `name: type, `.
pub open spec fn field_text(p: ParamView) -> Seq<char> {
    p.name + ": "@ + p.ty + ", "@
}

/// The parameters as named fields, in order.
pub open spec fn fields_text(params: Seq<ParamView>) -> Seq<char>
    decreases params.len(),
{
    if params.len() == 0 {
        Seq::empty()
    } else {
        fields_text(params.drop_last()) + field_text(params.last())
    }
}

/// One parameter as an argument: `name, `.
pub open spec fn argument_text(p: ParamView) -> Seq<char> {
    p.name + ", "@
}

/// The parameters as arguments, in order.
pub open spec fn arguments_text(params: Seq<ParamView>) -> Seq<char>
    decreases params.len(),
{
    if params.len() == 0 {
        Seq::empty()
    } else {
        arguments_text(params.drop_last()) + argument_text(params.last())
    }
}

/// The variant of the request union that stands for one method.
pub open spec fn variant_text(m: MethodView) -> Seq<char> {
    "    "@ + m.tag + " { "@ + fields_text(m.params) + "},\n"@
}

/// The variants of the request union, one per method, in order.
pub open spec fn variants_text(methods: Seq<MethodView>) -> Seq<char>
    decreases methods.len(),
{
    if methods.len() == 0 {
        Seq::empty()
    } else {
        variants_text(methods.drop_last()) + variant_text(methods.last())
    }
}

/// The request union: one variant per method, labelled by the method's tag
/// and carrying its parameters as named fields.
pub open spec fn request_text(ir: TraitContextView) -> Seq<char> {
    "#[derive(serde::Serialize, serde::Deserialize)]\nenum "@ + ir.request_name + " {\n"@
        + variants_text(ir.methods) + "}\n"@
}

/// A text that may be empty, with a space behind it where it is not.
pub open spec fn spaced(text: Seq<char>) -> Seq<char> {
    if text.len() == 0 {
        Seq::empty()
    } else {
        text + " "@
    }
}

/// What closes the declaration of a method: its `where` clause if it has
/// one, then its default body, or a semicolon where it has none.
pub open spec fn trailer_text(m: MethodView) -> Seq<char> {
    let clause = if m.bounds.len() == 0 {
        Seq::empty()
    } else {
        " "@ + m.bounds
    };
    match m.body {
        Some(body) => clause + " "@ + body,
        None => clause + ";"@,
    }
}

/// What is inserted after the receiver where a method takes the call context.
pub open spec fn context_text(with_context: bool) -> Seq<char> {
    if with_context {
        "ctx: Option<servant::Context>, "@
    } else {
        Seq::empty()
    }
}

/// The declaration of one method in the interface definition: as it is
/// written, but for the call context, which follows the receiver where it is
/// asked for, and the return type, which is always spelt out.
pub open spec fn declaration_text(m: MethodView, with_context: bool) -> Seq<char> {
    "    "@ + spaced(m.qualifiers) + "fn "@ + m.name + m.generics + "("@ + m.receiver + ", "@
        + context_text(with_context) + fields_text(m.params) + ") -> "@ + m.ret + trailer_text(m)
        + "\n"@
}

/// The declarations of the methods, in order.
pub open spec fn declarations_text(methods: Seq<MethodView>, with_context: bool) -> Seq<char>
    decreases methods.len(),
{
    if methods.len() == 0 {
        Seq::empty()
    } else {
        declarations_text(methods.drop_last(), with_context) + declaration_text(
            methods.last(),
            with_context,
        )
    }
}

/// One item that is no method, on a line of its own.
pub open spec fn other_text(t: Seq<char>) -> Seq<char> {
    "    "@ + t + "\n"@
}

/// The items that are no methods, in order.
pub open spec fn others_text(others: Seq<Seq<char>>) -> Seq<char>
    decreases others.len(),
{
    if others.len() == 0 {
        Seq::empty()
    } else {
        others_text(others.drop_last()) + other_text(others.last())
    }
}

/// The interface definition: the header as it is written, the items that
/// are no methods, untouched, then the methods, each with the call context
/// after its receiver where asked.
pub open spec fn trait_text(ir: TraitContextView, with_context: bool) -> Seq<char> {
    spaced(ir.qualifiers) + "trait "@ + ir.name + " "@ + spaced(ir.bounds) + "{\n"@
        + others_text(ir.others) + declarations_text(ir.methods, with_context) + "}\n"@
}

/// Writes the parameters as named fields.
pub fn fields(params: &Vec<Param>) -> (r: String)
    ensures
        r@ == fields_text(params.deep_view()),
{
    let mut out = String::new();
    let mut i: usize = 0;
    while i < params.len()
        invariant
            i <= params.len(),
            out@ == fields_text(params.deep_view().take(i as int)),
        decreases params.len() - i,
    {
        proof {
            lemma_take_step(params.deep_view(), i as int);
        }
        let mut piece = params[i].name.clone();
        piece.append(": ");
        piece.append(params[i].ty.as_str());
        piece.append(", ");
        out.append(piece.as_str());
        i += 1;
    }
    proof {
        lemma_take_all(params.deep_view());
    }
    out
}

/// Writes the parameters as arguments.
pub fn arguments(params: &Vec<Param>) -> (r: String)
    ensures
        r@ == arguments_text(params.deep_view()),
{
    let mut out = String::new();
    let mut i: usize = 0;
    while i < params.len()
        invariant
            i <= params.len(),
            out@ == arguments_text(params.deep_view().take(i as int)),
        decreases params.len() - i,
    {
        proof {
            lemma_take_step(params.deep_view(), i as int);
        }
        let mut piece = params[i].name.clone();
        piece.append(", ");
        out.append(piece.as_str());
        i += 1;
    }
    proof {
        lemma_take_all(params.deep_view());
    }
    out
}

/// Writes the variant of the request union that stands for one method.
fn variant(m: &Method) -> (r: String)
    ensures
        r@ == variant_text(m.deep_view()),
{
    let mut out = String::from_str("    ");
    out.append(m.tag.as_str());
    out.append(" { ");
    out.append(fields(&m.params).as_str());
    out.append("},\n");
    out
}

/// Writes the request union.
pub fn request(ir: &TraitContext) -> (r: String)
    ensures
        r@ == request_text(ir.deep_view()),
{
    let mut variants = String::new();
    let mut i: usize = 0;
    while i < ir.methods.len()
        invariant
            i <= ir.methods.len(),
            variants@ == variants_text(ir.methods.deep_view().take(i as int)),
        decreases ir.methods.len() - i,
    {
        proof {
            lemma_take_step(ir.methods.deep_view(), i as int);
        }
        variants.append(variant(&ir.methods[i]).as_str());
        i += 1;
    }
    proof {
        lemma_take_all(ir.methods.deep_view());
    }
    let mut out = String::from_str("#[derive(serde::Serialize, serde::Deserialize)]\nenum ");
    out.append(ir.request_name.as_str());
    out.append(" {\n");
    out.append(variants.as_str());
    out.append("}\n");
    out
}

/// Writes a text that may be empty, with a space behind it where it is not.
fn write_spaced(text: &str) -> (r: String)
    ensures
        r@ == spaced(text@),
{
    if text.is_empty() {
        String::new()
    } else {
        let mut out = String::from_str(text);
        out.append(" ");
        out
    }
}

/// Writes what closes the declaration of a method.
fn trailer(m: &Method) -> (r: String)
    ensures
        r@ == trailer_text(m.deep_view()),
{
    let mut out = if m.bounds.as_str().is_empty() {
        String::new()
    } else {
        let mut clause = String::from_str(" ");
        clause.append(m.bounds.as_str());
        clause
    };
    match &m.body {
        Some(body) => {
            out.append(" ");
            out.append(body.as_str());
        },
        None => {
            out.append(";");
        },
    }
    out
}

/// Writes the declaration of one method.
fn declaration(m: &Method, with_context: bool) -> (r: String)
    ensures
        r@ == declaration_text(m.deep_view(), with_context),
{
    let mut out = String::from_str("    ");
    out.append(write_spaced(m.qualifiers.as_str()).as_str());
    out.append("fn ");
    out.append(m.name.as_str());
    out.append(m.generics.as_str());
    out.append("(");
    out.append(m.receiver.as_str());
    out.append(", ");
    if with_context {
        out.append("ctx: Option<servant::Context>, ");
    } else {
        assert(out@ + Seq::<char>::empty() =~= out@);
    }
    out.append(fields(&m.params).as_str());
    out.append(") -> ");
    out.append(m.ret.as_str());
    out.append(trailer(m).as_str());
    out.append("\n");
    out
}

/// Writes the interface definition.
pub fn interface_definition(ir: &TraitContext, with_context: bool) -> (r: String)
    ensures
        r@ == trait_text(ir.deep_view(), with_context),
{
    let mut others = String::new();
    let mut k: usize = 0;
    while k < ir.others.len()
        invariant
            k <= ir.others.len(),
            others@ == others_text(ir.others.deep_view().take(k as int)),
        decreases ir.others.len() - k,
    {
        proof {
            lemma_take_step(ir.others.deep_view(), k as int);
        }
        let mut piece = String::from_str("    ");
        piece.append(ir.others[k].as_str());
        piece.append("\n");
        others.append(piece.as_str());
        k += 1;
    }
    let mut declarations = String::new();
    let mut i: usize = 0;
    while i < ir.methods.len()
        invariant
            i <= ir.methods.len(),
            declarations@ == declarations_text(
                ir.methods.deep_view().take(i as int),
                with_context,
            ),
        decreases ir.methods.len() - i,
    {
        proof {
            lemma_take_step(ir.methods.deep_view(), i as int);
        }
        declarations.append(declaration(&ir.methods[i], with_context).as_str());
        i += 1;
    }
    proof {
        lemma_take_all(ir.others.deep_view());
        lemma_take_all(ir.methods.deep_view());
    }
    let mut out = write_spaced(ir.qualifiers.as_str());
    out.append("trait ");
    out.append(ir.name.as_str());
    out.append(" ");
    out.append(write_spaced(ir.bounds.as_str()).as_str());
    out.append("{\n");
    out.append(others.as_str());
    out.append(declarations.as_str());
    out.append("}\n");
    out
}

/// The request value of one method, as a pattern and as an expression: the
/// variant with its fields bound to the parameters' names.
pub open spec fn pattern_text(request: Seq<char>, m: MethodView) -> Seq<char> {
    request + "::"@ + m.tag + " { "@ + arguments_text(m.params) + "}"@
}

/// What a binding does with a decoded request of one method: it calls the
/// method on its object, with the call context first in an invoke interface,
/// and encodes what the method returns unless the interface is one-way.
pub open spec fn reply_text(kind: Kind, m: MethodView) -> Seq<char> {
    match kind {
        Kind::Invoke => "bincode::serialize(&self.entity."@ + m.name + "(ctx, "@ + arguments_text(
            m.params,
        ) + "))"@,
        Kind::Watch => "bincode::serialize(&self.entity."@ + m.name + "("@ + arguments_text(
            m.params,
        ) + "))"@,
        Kind::Report | Kind::Notify => "self.entity."@ + m.name + "("@ + arguments_text(m.params)
            + ")"@,
    }
}

/// The arm of a binding's dispatch that serves one method.
pub open spec fn arm_text(kind: Kind, request: Seq<char>, m: MethodView) -> Seq<char> {
    "            "@ + pattern_text(request, m) + " => "@ + reply_text(kind, m) + ",\n"@
}

/// The arms of a binding's dispatch, one per method, in order.
pub open spec fn arms_text(kind: Kind, request: Seq<char>, methods: Seq<MethodView>) -> Seq<char>
    decreases methods.len(),
{
    if methods.len() == 0 {
        Seq::empty()
    } else {
        arms_text(kind, request, methods.drop_last()) + arm_text(kind, request, methods.last())
    }
}

/// The head of a stub's operation for one method: the method's own name and
/// parameters. The operation returns a result: the method's return type
/// where the interface answers, and no value where it is one-way.
pub open spec fn call_head_text(kind: Kind, m: MethodView) -> Seq<char> {
    match kind {
        Kind::Invoke | Kind::Watch => "    pub async fn "@ + m.name + "(&mut self, "@
            + fields_text(m.params) + ") -> servant::ServantResult<"@ + m.ret + "> {\n"@,
        Kind::Report => "    pub async fn "@ + m.name + "(&mut self, "@ + fields_text(m.params)
            + ") -> servant::ServantResult<()> {\n"@,
        Kind::Notify => "    pub async fn "@ + m.name + "(&self, "@ + fields_text(m.params)
            + ") -> servant::ServantResult<()> {\n"@,
    }
}

/// How a stub's operation encodes the request, hands it to the transport
/// and decodes the answer. A request that does not encode and an answer that
/// does not decode are errors of the operation; so is an error of the
/// transport, unchanged.
pub open spec fn transport_text(kind: Kind) -> Seq<char> {
    match kind {
        Kind::Invoke =>
            "        let bytes = bincode::serialize(&request)\n            .map_err(|e| servant::ServantError::Serialization(e.to_string()))?;\n        let response = self.2.invoke(Some(self.0.clone()), Some(self.1.clone()), bytes).await?;\n        bincode::deserialize(&response)\n            .map_err(|e| servant::ServantError::MalformedMessage(e.to_string()))\n"@,
        Kind::Watch =>
            "        let bytes = bincode::serialize(&request)\n            .map_err(|e| servant::ServantError::Serialization(e.to_string()))?;\n        let response = self.0.invoke(None, None, bytes).await?;\n        bincode::deserialize(&response)\n            .map_err(|e| servant::ServantError::MalformedMessage(e.to_string()))\n"@,
        Kind::Report =>
            "        let bytes = bincode::serialize(&request)\n            .map_err(|e| servant::ServantError::Serialization(e.to_string()))?;\n        self.1.report(self.0.clone(), bytes).await\n"@,
        Kind::Notify => "        let bytes = bincode::serialize(&request)\n            .map_err(|e| servant::ServantError::Serialization(e.to_string()))?;\n        self.0.send(bytes).await;\n        Ok(())\n"@,
    }
}

/// The operation of a stub for one method.
pub open spec fn call_text(kind: Kind, request: Seq<char>, m: MethodView) -> Seq<char> {
    call_head_text(kind, m) + "        let request = "@ + pattern_text(request, m) + ";\n"@
        + transport_text(kind) + "    }\n"@
}

/// The operations of a stub, one per method, in order.
pub open spec fn calls_text(kind: Kind, request: Seq<char>, methods: Seq<MethodView>) -> Seq<
    char,
>
    decreases methods.len(),
{
    if methods.len() == 0 {
        Seq::empty()
    } else {
        calls_text(kind, request, methods.drop_last()) + call_text(kind, request, methods.last())
    }
}

/// The second operation that a proxy offers for one method where callbacks
/// are asked for: named after the method with `_with_callback` behind it,
/// with a completion handler as its last parameter. The handler's name is
/// one that no parameter of a method is likely to have. The handler is
/// given the decoded answer, or the error of the transport, or the error of
/// an answer that does not decode.
pub open spec fn callback_text(request: Seq<char>, m: MethodView) -> Seq<char> {
    "    pub async fn "@ + m.name + "_with_callback<F>(&mut self, "@ + fields_text(m.params)
        + "f_f_f_f_f_20101008_f: F) -> servant::ServantResult<()>\n    where\n        F: 'static + Fn(servant::ServantResult<"@
        + m.ret + ">) + Send,\n    {\n        let request = "@ + pattern_text(request, m)
        + ";\n        let bytes = bincode::serialize(&request)\n            .map_err(|e| servant::ServantError::Serialization(e.to_string()))?;\n        self.2.invoke_with_callback(Some(self.0.clone()), Some(self.1.clone()), bytes, move |oid, v| {\n            f_f_f_f_f_20101008_f(v.and_then(|x| {\n                bincode::deserialize(&x)\n                    .map_err(|e| servant::ServantError::MalformedMessage(e.to_string()))\n            }));\n        }).await\n    }\n"@
}

/// The operations with a callback, one per method, in order.
pub open spec fn callbacks_text(request: Seq<char>, methods: Seq<MethodView>) -> Seq<char>
    decreases methods.len(),
{
    if methods.len() == 0 {
        Seq::empty()
    } else {
        callbacks_text(request, methods.drop_last()) + callback_text(request, methods.last())
    }
}

/// Writes the request value of one method.
fn pattern(request: &str, m: &Method) -> (r: String)
    ensures
        r@ == pattern_text(request@, m.deep_view()),
{
    let mut out = String::from_str(request);
    out.append("::");
    out.append(m.tag.as_str());
    out.append(" { ");
    out.append(arguments(&m.params).as_str());
    out.append("}");
    out
}

/// Writes what a binding does with a decoded request of one method.
fn reply(kind: Kind, m: &Method) -> (r: String)
    ensures
        r@ == reply_text(kind, m.deep_view()),
{
    match kind {
        Kind::Invoke => {
            let mut out = String::from_str("bincode::serialize(&self.entity.");
            out.append(m.name.as_str());
            out.append("(ctx, ");
            out.append(arguments(&m.params).as_str());
            out.append("))");
            out
        },
        Kind::Watch => {
            let mut out = String::from_str("bincode::serialize(&self.entity.");
            out.append(m.name.as_str());
            out.append("(");
            out.append(arguments(&m.params).as_str());
            out.append("))");
            out
        },
        Kind::Report | Kind::Notify => {
            let mut out = String::from_str("self.entity.");
            out.append(m.name.as_str());
            out.append("(");
            out.append(arguments(&m.params).as_str());
            out.append(")");
            out
        },
    }
}

/// Writes the arms of a binding's dispatch.
pub fn arms(kind: Kind, ir: &TraitContext) -> (r: String)
    ensures
        r@ == arms_text(kind, ir.request_name@, ir.methods.deep_view()),
{
    let mut out = String::new();
    let mut i: usize = 0;
    while i < ir.methods.len()
        invariant
            i <= ir.methods.len(),
            out@ == arms_text(kind, ir.request_name@, ir.methods.deep_view().take(i as int)),
        decreases ir.methods.len() - i,
    {
        proof {
            lemma_take_step(ir.methods.deep_view(), i as int);
        }
        let mut arm = String::from_str("            ");
        arm.append(pattern(ir.request_name.as_str(), &ir.methods[i]).as_str());
        arm.append(" => ");
        arm.append(reply(kind, &ir.methods[i]).as_str());
        arm.append(",\n");
        out.append(arm.as_str());
        i += 1;
    }
    proof {
        lemma_take_all(ir.methods.deep_view());
    }
    out
}

/// Writes the head of a stub's operation for one method.
fn call_head(kind: Kind, m: &Method) -> (r: String)
    ensures
        r@ == call_head_text(kind, m.deep_view()),
{
    let mut out = String::from_str("    pub async fn ");
    out.append(m.name.as_str());
    match kind {
        Kind::Invoke | Kind::Watch => {
            out.append("(&mut self, ");
            out.append(fields(&m.params).as_str());
            out.append(") -> servant::ServantResult<");
            out.append(m.ret.as_str());
            out.append("> {\n");
        },
        Kind::Report => {
            out.append("(&mut self, ");
            out.append(fields(&m.params).as_str());
            out.append(") -> servant::ServantResult<()> {\n");
        },
        Kind::Notify => {
            out.append("(&self, ");
            out.append(fields(&m.params).as_str());
            out.append(") -> servant::ServantResult<()> {\n");
        },
    }
    out
}

/// Writes how a stub's operation uses the transport.
fn transport(kind: Kind) -> (r: &'static str)
    ensures
        r@ == transport_text(kind),
{
    match kind {
        Kind::Invoke =>
            "        let bytes = bincode::serialize(&request)\n            .map_err(|e| servant::ServantError::Serialization(e.to_string()))?;\n        let response = self.2.invoke(Some(self.0.clone()), Some(self.1.clone()), bytes).await?;\n        bincode::deserialize(&response)\n            .map_err(|e| servant::ServantError::MalformedMessage(e.to_string()))\n",
        Kind::Watch =>
            "        let bytes = bincode::serialize(&request)\n            .map_err(|e| servant::ServantError::Serialization(e.to_string()))?;\n        let response = self.0.invoke(None, None, bytes).await?;\n        bincode::deserialize(&response)\n            .map_err(|e| servant::ServantError::MalformedMessage(e.to_string()))\n",
        Kind::Report =>
            "        let bytes = bincode::serialize(&request)\n            .map_err(|e| servant::ServantError::Serialization(e.to_string()))?;\n        self.1.report(self.0.clone(), bytes).await\n",
        Kind::Notify => "        let bytes = bincode::serialize(&request)\n            .map_err(|e| servant::ServantError::Serialization(e.to_string()))?;\n        self.0.send(bytes).await;\n        Ok(())\n",
    }
}

/// Writes the operations of a stub.
pub fn calls(kind: Kind, ir: &TraitContext) -> (r: String)
    ensures
        r@ == calls_text(kind, ir.request_name@, ir.methods.deep_view()),
{
    let mut out = String::new();
    let mut i: usize = 0;
    while i < ir.methods.len()
        invariant
            i <= ir.methods.len(),
            out@ == calls_text(kind, ir.request_name@, ir.methods.deep_view().take(i as int)),
        decreases ir.methods.len() - i,
    {
        proof {
            lemma_take_step(ir.methods.deep_view(), i as int);
        }
        let mut call = call_head(kind, &ir.methods[i]);
        call.append("        let request = ");
        call.append(pattern(ir.request_name.as_str(), &ir.methods[i]).as_str());
        call.append(";\n");
        call.append(transport(kind));
        call.append("    }\n");
        out.append(call.as_str());
        i += 1;
    }
    proof {
        lemma_take_all(ir.methods.deep_view());
    }
    out
}

/// Writes the operations with a callback.
pub fn callbacks(ir: &TraitContext) -> (r: String)
    ensures
        r@ == callbacks_text(ir.request_name@, ir.methods.deep_view()),
{
    let mut out = String::new();
    let mut i: usize = 0;
    while i < ir.methods.len()
        invariant
            i <= ir.methods.len(),
            out@ == callbacks_text(ir.request_name@, ir.methods.deep_view().take(i as int)),
        decreases ir.methods.len() - i,
    {
        proof {
            lemma_take_step(ir.methods.deep_view(), i as int);
        }
        let m = &ir.methods[i];
        let mut call = String::from_str("    pub async fn ");
        call.append(m.name.as_str());
        call.append("_with_callback<F>(&mut self, ");
        call.append(fields(&m.params).as_str());
        call.append(
            "f_f_f_f_f_20101008_f: F) -> servant::ServantResult<()>\n    where\n        F: 'static + Fn(servant::ServantResult<",
        );
        call.append(m.ret.as_str());
        call.append(">) + Send,\n    {\n        let request = ");
        call.append(pattern(ir.request_name.as_str(), m).as_str());
        call.append(
            ";\n        let bytes = bincode::serialize(&request)\n            .map_err(|e| servant::ServantError::Serialization(e.to_string()))?;\n        self.2.invoke_with_callback(Some(self.0.clone()), Some(self.1.clone()), bytes, move |oid, v| {\n            f_f_f_f_f_20101008_f(v.and_then(|x| {\n                bincode::deserialize(&x)\n                    .map_err(|e| servant::ServantError::MalformedMessage(e.to_string()))\n            }));\n        }).await\n    }\n",
        );
        out.append(call.as_str());
        i += 1;
    }
    proof {
        lemma_take_all(ir.methods.deep_view());
    }
    out
}

/// The type that holds the implementation object, with its constructor. The
/// binding of an invoke or report interface is registered under a name and
/// holds it; every binding but a receiver tells its category, which is the
/// interface's name.
pub open spec fn holder_text(kind: Kind, binding: Seq<char>, interface: Seq<char>) -> Seq<char> {
    match kind {
        Kind::Invoke | Kind::Report => "pub struct "@ + binding
            + "<S> {\n    name: String,\n    entity: S,\n}\nimpl<S> "@ + binding
            + "<S> {\n    pub fn new(name: &str, entity: S) -> Self {\n        Self { name: name.to_string(), entity }\n    }\n    pub fn category() -> &'static str {\n        \""@
            + interface + "\"\n    }\n}\n"@,
        Kind::Watch => "pub struct "@ + binding + "<S> {\n    entity: S,\n}\nimpl<S> "@ + binding
            + "<S> {\n    pub fn new(entity: S) -> Self {\n        Self { entity }\n    }\n    pub fn category() -> &'static str {\n        \""@
            + interface + "\"\n    }\n}\n"@,
        Kind::Notify => "pub struct "@ + binding + "<S> {\n    entity: S,\n}\nimpl<S> "@ + binding
            + "<S> {\n    pub fn new(entity: S) -> Self {\n        Self { entity }\n    }\n}\n"@,
    }
}

/// The collaborator's trait that a binding of the given kind implements.
pub open spec fn service_trait_text(kind: Kind) -> Seq<char> {
    match kind {
        Kind::Invoke => "servant::Servant"@,
        Kind::Watch => "servant::WatchServant"@,
        Kind::Report => "servant::ReportServant"@,
        Kind::Notify => "servant::NotifyServant"@,
    }
}

/// What a binding asks of the implementation type: the interface itself, to
/// be serialisable where the binding can dump it, and to be sendable where
/// it receives notifications.
pub open spec fn bound_text(kind: Kind, interface: Seq<char>, persistent: bool) -> Seq<char> {
    match kind {
        Kind::Invoke => if persistent {
            "serde::Serialize + "@ + interface + " + 'static"@
        } else {
            interface + " + 'static"@
        },
        Kind::Watch | Kind::Report => interface + " + 'static"@,
        Kind::Notify => interface + " + 'static + Send"@,
    }
}

/// The operations of a binding besides `serve`: its name where it is
/// registered under one, and `dump` where an invoke interface is persistent.
/// An object that does not encode is an error of `dump`.
pub open spec fn extras_text(kind: Kind, persistent: bool) -> Seq<char> {
    match kind {
        Kind::Invoke => if persistent {
            "    fn name(&self) -> &str {\n        &self.name\n    }\n    fn dump(&self) -> servant::ServantResult<Vec<u8>> {\n        bincode::serialize(&self.entity)\n            .map_err(|e| servant::ServantError::Serialization(e.to_string()))\n    }\n"@
        } else {
            "    fn name(&self) -> &str {\n        &self.name\n    }\n"@
        },
        Kind::Report => "    fn name(&self) -> &str {\n        &self.name\n    }\n"@,
        Kind::Watch | Kind::Notify => Seq::empty(),
    }
}

/// The `serve` operation of a binding: it decodes the request union and
/// dispatches on its variant. Bytes that do not decode are returned as a
/// `MalformedMessage` error before any method is called. An invoke binding
/// also takes the call context; a binding that answers returns the encoded
/// answer, or an error where the answer does not encode; a one-way binding
/// returns no value.
pub open spec fn serve_text(kind: Kind, ir: TraitContextView) -> Seq<char> {
    match kind {
        Kind::Invoke =>
            "    fn serve(&mut self, ctx: Option<servant::Context>, req: Vec<u8>) -> servant::ServantResult<Vec<u8>> {\n        let req: "@
            + ir.request_name
            + " = bincode::deserialize(&req)\n            .map_err(|e| servant::ServantError::MalformedMessage(e.to_string()))?;\n        let reps: bincode::Result<Vec<u8>> = match req {\n"@
            + arms_text(kind, ir.request_name, ir.methods)
            + "        };\n        reps.map_err(|e| servant::ServantError::Serialization(e.to_string()))\n    }\n"@,
        Kind::Watch => "    fn serve(&mut self, req: Vec<u8>) -> servant::ServantResult<Vec<u8>> {\n        let req: "@
            + ir.request_name
            + " = bincode::deserialize(&req)\n            .map_err(|e| servant::ServantError::MalformedMessage(e.to_string()))?;\n        let reps: bincode::Result<Vec<u8>> = match req {\n"@
            + arms_text(kind, ir.request_name, ir.methods)
            + "        };\n        reps.map_err(|e| servant::ServantError::Serialization(e.to_string()))\n    }\n"@,
        Kind::Report | Kind::Notify =>
            "    fn serve(&mut self, req: Vec<u8>) -> servant::ServantResult<()> {\n        let req: "@ + ir.request_name
            + " = bincode::deserialize(&req)\n            .map_err(|e| servant::ServantError::MalformedMessage(e.to_string()))?;\n        match req {\n"@ + arms_text(
            kind,
            ir.request_name,
            ir.methods,
        ) + "        }\n        Ok(())\n    }\n"@,
    }
}

/// The binding of an interface: the wrapper around an implementation object
/// and its implementation of the collaborator's trait.
pub open spec fn binding_text(
    kind: Kind,
    binding: Seq<char>,
    ir: TraitContextView,
    persistent: bool,
) -> Seq<char> {
    holder_text(kind, binding, ir.name) + "impl<S> "@ + service_trait_text(kind) + " for "@
        + binding + "<S>\nwhere\n    S: "@ + bound_text(kind, ir.name, persistent) + ",\n{\n"@
        + extras_text(kind, persistent) + serve_text(kind, ir) + "}\n"@
}

/// The type of a stub and what it offers besides its operations: what it
/// holds of context, object identity and transport, its constructor, and,
/// but for a notifier, its category.
pub open spec fn stub_head_text(kind: Kind, stub: Seq<char>, interface: Seq<char>) -> Seq<char> {
    match kind {
        Kind::Invoke => "#[derive(Clone)]\npub struct "@ + stub
            + "(servant::Context, servant::Oid, servant::Terminal);\n\nimpl "@ + stub
            + " {\n    pub fn new(ctx: servant::Context, name: &str, t: &servant::Terminal) -> Self {\n        let oid = servant::Oid::new(name, Self::category());\n        Self(ctx, oid, t.clone())\n    }\n    pub fn category() -> &'static str {\n        \""@
            + interface
            + "\"\n    }\n    pub fn context_mut(&mut self) -> &mut servant::Context {\n        &mut self.0\n    }\n    pub fn terminal(&self) -> servant::Terminal {\n        self.2.clone()\n    }\n"@,
        Kind::Watch => "#[derive(Clone)]\npub struct "@ + stub
            + "(servant::Terminal);\n\nimpl "@ + stub
            + " {\n    pub fn new(t: &servant::Terminal) -> Self {\n        Self(t.clone())\n    }\n    pub fn category() -> &'static str {\n        \""@
            + interface + "\"\n    }\n"@,
        Kind::Report => "#[derive(Clone)]\npub struct "@ + stub
            + "(servant::Oid, servant::Terminal);\n\nimpl "@ + stub
            + " {\n    pub fn new(name: &str, t: &servant::Terminal) -> Self {\n        let oid = servant::Oid::new(name, Self::category());\n        Self(oid, t.clone())\n    }\n    pub fn category() -> &'static str {\n        \""@
            + interface + "\"\n    }\n"@,
        Kind::Notify => "#[derive(Clone)]\npub struct "@ + stub
            + "(servant::AdapterRegister);\n\nimpl "@ + stub
            + " {\n    pub fn new(ar: servant::AdapterRegister) -> Self {\n        Self(ar)\n    }\n"@,
    }
}

/// The operations with a callback of a stub: those of an invoke interface
/// where they are asked for, none otherwise.
pub open spec fn optional_callbacks_text(
    kind: Kind,
    ir: TraitContextView,
    with_callbacks: bool,
) -> Seq<char> {
    if kind is Invoke && with_callbacks {
        callbacks_text(ir.request_name, ir.methods)
    } else {
        Seq::empty()
    }
}

/// The stub of an interface: for every method an operation of the same name
/// and parameters that builds the request and drives it through the
/// transport.
pub open spec fn stub_text(kind: Kind, stub: Seq<char>, ir: TraitContextView, with_callbacks: bool)
    -> Seq<char> {
    stub_head_text(kind, stub, ir.name) + calls_text(kind, ir.request_name, ir.methods)
        + optional_callbacks_text(kind, ir, with_callbacks) + "}\n"@
}

/// Writes the type that holds the implementation object.
fn holder(kind: Kind, binding: &str, interface: &str) -> (r: String)
    ensures
        r@ == holder_text(kind, binding@, interface@),
{
    let mut out = String::from_str("pub struct ");
    out.append(binding);
    match kind {
        Kind::Invoke | Kind::Report => {
            out.append("<S> {\n    name: String,\n    entity: S,\n}\nimpl<S> ");
            out.append(binding);
            out.append(
                "<S> {\n    pub fn new(name: &str, entity: S) -> Self {\n        Self { name: name.to_string(), entity }\n    }\n    pub fn category() -> &'static str {\n        \"",
            );
            out.append(interface);
            out.append("\"\n    }\n}\n");
        },
        Kind::Watch => {
            out.append("<S> {\n    entity: S,\n}\nimpl<S> ");
            out.append(binding);
            out.append(
                "<S> {\n    pub fn new(entity: S) -> Self {\n        Self { entity }\n    }\n    pub fn category() -> &'static str {\n        \"",
            );
            out.append(interface);
            out.append("\"\n    }\n}\n");
        },
        Kind::Notify => {
            out.append("<S> {\n    entity: S,\n}\nimpl<S> ");
            out.append(binding);
            out.append(
                "<S> {\n    pub fn new(entity: S) -> Self {\n        Self { entity }\n    }\n}\n",
            );
        },
    }
    out
}

/// Writes the collaborator's trait that a binding implements.
fn service_trait(kind: Kind) -> (r: &'static str)
    ensures
        r@ == service_trait_text(kind),
{
    match kind {
        Kind::Invoke => "servant::Servant",
        Kind::Watch => "servant::WatchServant",
        Kind::Report => "servant::ReportServant",
        Kind::Notify => "servant::NotifyServant",
    }
}

/// Writes what a binding asks of the implementation type.
fn bound(kind: Kind, interface: &str, persistent: bool) -> (r: String)
    ensures
        r@ == bound_text(kind, interface@, persistent),
{
    match kind {
        Kind::Invoke => if persistent {
            let mut out = String::from_str("serde::Serialize + ");
            out.append(interface);
            out.append(" + 'static");
            out
        } else {
            let mut out = String::from_str(interface);
            out.append(" + 'static");
            out
        },
        Kind::Watch | Kind::Report => {
            let mut out = String::from_str(interface);
            out.append(" + 'static");
            out
        },
        Kind::Notify => {
            let mut out = String::from_str(interface);
            out.append(" + 'static + Send");
            out
        },
    }
}

/// Writes the operations of a binding besides `serve`.
fn extras(kind: Kind, persistent: bool) -> (r: &'static str)
    ensures
        r@ == extras_text(kind, persistent),
{
    match kind {
        Kind::Invoke => if persistent {
            "    fn name(&self) -> &str {\n        &self.name\n    }\n    fn dump(&self) -> servant::ServantResult<Vec<u8>> {\n        bincode::serialize(&self.entity)\n            .map_err(|e| servant::ServantError::Serialization(e.to_string()))\n    }\n"
        } else {
            "    fn name(&self) -> &str {\n        &self.name\n    }\n"
        },
        Kind::Report => "    fn name(&self) -> &str {\n        &self.name\n    }\n",
        Kind::Watch | Kind::Notify => {
            proof {
                reveal_strlit("");
                assert(""@ =~= Seq::<char>::empty());
            }
            ""
        },
    }
}

/// Writes the `serve` operation of a binding.
fn serve(kind: Kind, ir: &TraitContext) -> (r: String)
    ensures
        r@ == serve_text(kind, ir.deep_view()),
{
    match kind {
        Kind::Invoke => {
            let mut out = String::from_str(
                "    fn serve(&mut self, ctx: Option<servant::Context>, req: Vec<u8>) -> servant::ServantResult<Vec<u8>> {\n        let req: ",
            );
            out.append(ir.request_name.as_str());
            out.append(
                " = bincode::deserialize(&req)\n            .map_err(|e| servant::ServantError::MalformedMessage(e.to_string()))?;\n        let reps: bincode::Result<Vec<u8>> = match req {\n",
            );
            out.append(arms(kind, ir).as_str());
            out.append("        };\n        reps.map_err(|e| servant::ServantError::Serialization(e.to_string()))\n    }\n");
            out
        },
        Kind::Watch => {
            let mut out = String::from_str(
                "    fn serve(&mut self, req: Vec<u8>) -> servant::ServantResult<Vec<u8>> {\n        let req: ",
            );
            out.append(ir.request_name.as_str());
            out.append(
                " = bincode::deserialize(&req)\n            .map_err(|e| servant::ServantError::MalformedMessage(e.to_string()))?;\n        let reps: bincode::Result<Vec<u8>> = match req {\n",
            );
            out.append(arms(kind, ir).as_str());
            out.append("        };\n        reps.map_err(|e| servant::ServantError::Serialization(e.to_string()))\n    }\n");
            out
        },
        Kind::Report | Kind::Notify => {
            let mut out = String::from_str(
                "    fn serve(&mut self, req: Vec<u8>) -> servant::ServantResult<()> {\n        let req: ",
            );
            out.append(ir.request_name.as_str());
            out.append(" = bincode::deserialize(&req)\n            .map_err(|e| servant::ServantError::MalformedMessage(e.to_string()))?;\n        match req {\n");
            out.append(arms(kind, ir).as_str());
            out.append("        }\n        Ok(())\n    }\n");
            out
        },
    }
}

/// Writes the binding of an interface.
pub fn binding(kind: Kind, name: &str, ir: &TraitContext, persistent: bool) -> (r: String)
    ensures
        r@ == binding_text(kind, name@, ir.deep_view(), persistent),
{
    let mut out = holder(kind, name, ir.name.as_str());
    out.append("impl<S> ");
    out.append(service_trait(kind));
    out.append(" for ");
    out.append(name);
    out.append("<S>\nwhere\n    S: ");
    out.append(bound(kind, ir.name.as_str(), persistent).as_str());
    out.append(",\n{\n");
    out.append(extras(kind, persistent));
    out.append(serve(kind, ir).as_str());
    out.append("}\n");
    out
}

/// Writes the type of a stub and what it offers besides its operations.
fn stub_head(kind: Kind, stub: &str, interface: &str) -> (r: String)
    ensures
        r@ == stub_head_text(kind, stub@, interface@),
{
    let mut out = String::from_str("#[derive(Clone)]\npub struct ");
    out.append(stub);
    match kind {
        Kind::Invoke => {
            out.append("(servant::Context, servant::Oid, servant::Terminal);\n\nimpl ");
            out.append(stub);
            out.append(
                " {\n    pub fn new(ctx: servant::Context, name: &str, t: &servant::Terminal) -> Self {\n        let oid = servant::Oid::new(name, Self::category());\n        Self(ctx, oid, t.clone())\n    }\n    pub fn category() -> &'static str {\n        \"",
            );
            out.append(interface);
            out.append(
                "\"\n    }\n    pub fn context_mut(&mut self) -> &mut servant::Context {\n        &mut self.0\n    }\n    pub fn terminal(&self) -> servant::Terminal {\n        self.2.clone()\n    }\n",
            );
        },
        Kind::Watch => {
            out.append("(servant::Terminal);\n\nimpl ");
            out.append(stub);
            out.append(
                " {\n    pub fn new(t: &servant::Terminal) -> Self {\n        Self(t.clone())\n    }\n    pub fn category() -> &'static str {\n        \"",
            );
            out.append(interface);
            out.append("\"\n    }\n");
        },
        Kind::Report => {
            out.append("(servant::Oid, servant::Terminal);\n\nimpl ");
            out.append(stub);
            out.append(
                " {\n    pub fn new(name: &str, t: &servant::Terminal) -> Self {\n        let oid = servant::Oid::new(name, Self::category());\n        Self(oid, t.clone())\n    }\n    pub fn category() -> &'static str {\n        \"",
            );
            out.append(interface);
            out.append("\"\n    }\n");
        },
        Kind::Notify => {
            out.append("(servant::AdapterRegister);\n\nimpl ");
            out.append(stub);
            out.append(
                " {\n    pub fn new(ar: servant::AdapterRegister) -> Self {\n        Self(ar)\n    }\n",
            );
        },
    }
    out
}

/// Writes the stub of an interface.
pub fn stub(kind: Kind, name: &str, ir: &TraitContext, with_callbacks: bool) -> (r: String)
    ensures
        r@ == stub_text(kind, name@, ir.deep_view(), with_callbacks),
{
    let mut out = stub_head(kind, name, ir.name.as_str());
    out.append(calls(kind, ir).as_str());
    let wanted = match kind {
        Kind::Invoke => with_callbacks,
        _ => false,
    };
    if wanted {
        out.append(callbacks(ir).as_str());
    } else {
        assert(out@ + Seq::<char>::empty() =~= out@);
    }
    out.append("}\n");
    out
}

} // verus!
