//! The interface model: a raw declaration as it is written, and the normalised
//! form that the renderers consume.

use vstd::prelude::*;
use vstd::string::*;
use crate::naming::{camelize, snake_to_camel};
use crate::util::{deep_result, lemma_take_all, lemma_take_step, same_text};

verus! {

/// The four kinds of interface.
#[derive(Clone, Copy, Debug, PartialEq, Eq, Structural)]
pub enum Kind {
    /// Request/response; many per server.
    Invoke,
    /// Request/response for introspection; one per server.
    Watch,
    /// One-way, from client to server.
    Report,
    /// One-way, from server to every client.
    Notify,
}

impl Kind {
    /// One-way kinds carry no reply, so their methods must return the unit type.
    pub open spec fn one_way(self) -> bool {
        self is Report || self is Notify
    }

    /// Whether this kind is one-way.
    pub fn is_one_way(self) -> (r: bool)
        ensures
            r == self.one_way(),
    {
        match self {
            Kind::Invoke => false,
            Kind::Watch => false,
            Kind::Report => true,
            Kind::Notify => true,
        }
    }
}

/// A named, typed parameter.
#[derive(Clone, Debug, PartialEq, Eq)]
pub struct Param {
    pub name: String,
    pub ty: String,
}

/// The mathematical value of a [`Param`].
pub struct ParamView {
    pub name: Seq<char>,
    pub ty: Seq<char>,
}

impl DeepView for Param {
    type V = ParamView;

    open spec fn deep_view(&self) -> ParamView {
        ParamView { name: self.name@, ty: self.ty@ }
    }
}

/// One argument of a method as it is written.
#[derive(Clone, Debug, PartialEq, Eq)]
pub enum Arg {
    /// The receiver, as it is written, and whether it is marked `mut`.
    Receiver { mutable: bool, text: String },
    /// A parameter with a pattern and a type.
    Typed(Param),
}

/// The mathematical value of an [`Arg`].
pub enum ArgView {
    Receiver { mutable: bool, text: Seq<char> },
    Typed(ParamView),
}

impl DeepView for Arg {
    type V = ArgView;

    open spec fn deep_view(&self) -> ArgView {
        match self {
            Arg::Receiver { mutable, text } => ArgView::Receiver {
                mutable: *mutable,
                text: text@,
            },
            Arg::Typed(p) => ArgView::Typed(p.deep_view()),
        }
    }
}

/// A method signature as it is written: its name, its arguments with the
/// receiver among them, and its return type if it declares one. What the
/// compiler does not look into is kept as text.
#[derive(Clone, Debug, PartialEq, Eq)]
pub struct Signature {
    /// What stands before `fn`: attributes and qualifiers. May be empty.
    pub qualifiers: String,
    pub name: String,
    /// The generic parameters behind the name. May be empty.
    pub generics: String,
    pub args: Vec<Arg>,
    pub ret: Option<String>,
    /// The `where` clause. May be empty.
    pub bounds: String,
    /// The default body, if the method has one.
    pub body: Option<String>,
}

/// The mathematical value of a [`Signature`].
pub struct SignatureView {
    pub qualifiers: Seq<char>,
    pub name: Seq<char>,
    pub generics: Seq<char>,
    pub args: Seq<ArgView>,
    pub ret: Option<Seq<char>>,
    pub bounds: Seq<char>,
    pub body: Option<Seq<char>>,
}

impl DeepView for Signature {
    type V = SignatureView;

    open spec fn deep_view(&self) -> SignatureView {
        SignatureView {
            qualifiers: self.qualifiers@,
            name: self.name@,
            generics: self.generics@,
            args: self.args.deep_view(),
            ret: self.ret.deep_view(),
            bounds: self.bounds@,
            body: self.body.deep_view(),
        }
    }
}

/// One item of an interface body.
#[derive(Clone, Debug, PartialEq, Eq)]
pub enum Item {
    /// A method.
    Method(Signature),
    /// Anything else (an associated type, a constant), kept as its text.
    Other(String),
}

/// The mathematical value of an [`Item`].
pub enum ItemView {
    Method(SignatureView),
    Other(Seq<char>),
}

impl DeepView for Item {
    type V = ItemView;

    open spec fn deep_view(&self) -> ItemView {
        match self {
            Item::Method(s) => ItemView::Method(s.deep_view()),
            Item::Other(t) => ItemView::Other(t@),
        }
    }
}

/// An interface declaration as it is written.
#[derive(Clone, Debug, PartialEq, Eq)]
pub struct Declaration {
    /// What stands before `trait`: attributes, visibility, `unsafe`, `auto`.
    /// May be empty.
    pub qualifiers: String,
    pub name: String,
    /// What stands between the name and the body: generic parameters,
    /// supertraits, `where` clause. May be empty.
    pub bounds: String,
    pub items: Vec<Item>,
}

/// The mathematical value of a [`Declaration`].
pub struct DeclarationView {
    pub qualifiers: Seq<char>,
    pub name: Seq<char>,
    pub bounds: Seq<char>,
    pub items: Seq<ItemView>,
}

impl DeepView for Declaration {
    type V = DeclarationView;

    open spec fn deep_view(&self) -> DeclarationView {
        DeclarationView {
            qualifiers: self.qualifiers@,
            name: self.name@,
            bounds: self.bounds@,
            items: self.items.deep_view(),
        }
    }
}

/// One operation of a normalised interface.
#[derive(Clone, Debug, PartialEq, Eq)]
pub struct Method {
    /// What stands before `fn` in the declaration, as it is written.
    pub qualifiers: String,
    /// The name as declared, in snake case.
    pub name: String,
    /// The label of this method's variant in the request union.
    pub tag: String,
    /// The generic parameters, as they are written.
    pub generics: String,
    /// The receiver, as it is written.
    pub receiver: String,
    /// Whether the method needs exclusive access to the serving object.
    pub mutable: bool,
    /// The parameters, without the receiver.
    pub params: Vec<Param>,
    /// The return type; `()` when the declaration names none.
    pub ret: String,
    /// The `where` clause, as it is written.
    pub bounds: String,
    /// The default body, if the declaration gives one.
    pub body: Option<String>,
}

/// The mathematical value of a [`Method`].
pub struct MethodView {
    pub qualifiers: Seq<char>,
    pub name: Seq<char>,
    pub tag: Seq<char>,
    pub generics: Seq<char>,
    pub receiver: Seq<char>,
    pub mutable: bool,
    pub params: Seq<ParamView>,
    pub ret: Seq<char>,
    pub bounds: Seq<char>,
    pub body: Option<Seq<char>>,
}

impl DeepView for Method {
    type V = MethodView;

    open spec fn deep_view(&self) -> MethodView {
        MethodView {
            qualifiers: self.qualifiers@,
            name: self.name@,
            tag: self.tag@,
            generics: self.generics@,
            receiver: self.receiver@,
            mutable: self.mutable,
            params: self.params.deep_view(),
            ret: self.ret@,
            bounds: self.bounds@,
            body: self.body.deep_view(),
        }
    }
}

/// Why a declaration is not an interface of the requested kind.
#[derive(Clone, Debug, PartialEq, Eq)]
pub enum InterfaceError {
    /// The method's first argument is not a receiver.
    MissingReceiver { method: String },
    /// A method of a one-way interface returns something other than `()`.
    NonUnitReturn { method: String },
    /// Two methods would share one variant of the request union.
    TagCollision { first: String, second: String },
}

/// The mathematical value of an [`InterfaceError`].
pub enum InterfaceErrorView {
    MissingReceiver { method: Seq<char> },
    NonUnitReturn { method: Seq<char> },
    TagCollision { first: Seq<char>, second: Seq<char> },
}

impl DeepView for InterfaceError {
    type V = InterfaceErrorView;

    open spec fn deep_view(&self) -> InterfaceErrorView {
        match self {
            InterfaceError::MissingReceiver { method } => InterfaceErrorView::MissingReceiver {
                method: method@,
            },
            InterfaceError::NonUnitReturn { method } => InterfaceErrorView::NonUnitReturn {
                method: method@,
            },
            InterfaceError::TagCollision { first, second } => InterfaceErrorView::TagCollision {
                first: first@,
                second: second@,
            },
        }
    }
}

/// A normalised interface: what the renderers consume.
#[derive(Clone, Debug, PartialEq, Eq)]
pub struct TraitContext {
    /// What stands before `trait` in the declaration, as it is written.
    pub qualifiers: String,
    /// The declared name; also the category under which objects register.
    pub name: String,
    /// What stands between the name and the body, as it is written.
    pub bounds: String,
    pub kind: Kind,
    /// The methods, in declaration order.
    pub methods: Vec<Method>,
    /// The name of the request union.
    pub request_name: String,
    /// The items of the body that are no methods, as text, in declaration order.
    pub others: Vec<String>,
}

/// The mathematical value of a [`TraitContext`].
pub struct TraitContextView {
    pub qualifiers: Seq<char>,
    pub name: Seq<char>,
    pub bounds: Seq<char>,
    pub kind: Kind,
    pub methods: Seq<MethodView>,
    pub request_name: Seq<char>,
    pub others: Seq<Seq<char>>,
}

impl DeepView for TraitContext {
    type V = TraitContextView;

    open spec fn deep_view(&self) -> TraitContextView {
        TraitContextView {
            qualifiers: self.qualifiers@,
            name: self.name@,
            bounds: self.bounds@,
            kind: self.kind,
            methods: self.methods.deep_view(),
            request_name: self.request_name@,
            others: self.others.deep_view(),
        }
    }
}

/// The text of the unit type.
pub const UNIT: &'static str = "()";

/// What is appended to an interface's name to name its request union.
pub const REQUEST_SUFFIX: &'static str = "Request";

/// Whether the first argument of a signature is a receiver.
pub open spec fn has_receiver(sig: SignatureView) -> bool {
    sig.args.len() > 0 && sig.args[0] is Receiver
}

/// The typed arguments of an argument list, in order.
pub open spec fn typed_args(args: Seq<ArgView>) -> Seq<ParamView>
    decreases args.len(),
{
    if args.len() == 0 {
        Seq::empty()
    } else {
        match args.last() {
            ArgView::Typed(p) => typed_args(args.drop_last()).push(p),
            ArgView::Receiver { .. } => typed_args(args.drop_last()),
        }
    }
}

/// The return type of a signature: the declared one, or the unit type.
pub open spec fn return_type(ret: Option<Seq<char>>) -> Seq<char> {
    match ret {
        Some(t) => t,
        None => UNIT@,
    }
}

/// The method that a signature declares.
pub open spec fn method_of(sig: SignatureView) -> MethodView {
    MethodView {
        qualifiers: sig.qualifiers,
        name: sig.name,
        tag: camelize(sig.name),
        generics: sig.generics,
        receiver: if has_receiver(sig) {
            sig.args[0]->text
        } else {
            Seq::empty()
        },
        mutable: has_receiver(sig) && sig.args[0]->mutable,
        params: typed_args(sig.args),
        ret: return_type(sig.ret),
        bounds: sig.bounds,
        body: sig.body,
    }
}

/// What is wrong with one signature in an interface of the given kind, if
/// anything: a missing receiver comes before a return type that a one-way
/// interface cannot have.
pub open spec fn signature_error(sig: SignatureView, kind: Kind) -> Option<InterfaceErrorView> {
    if !has_receiver(sig) {
        Some(InterfaceErrorView::MissingReceiver { method: sig.name })
    } else if kind.one_way() && return_type(sig.ret) != UNIT@ {
        Some(InterfaceErrorView::NonUnitReturn { method: sig.name })
    } else {
        None
    }
}

/// What is wrong with one item, if anything. Items that are no methods are
/// never wrong.
pub open spec fn item_error(item: ItemView, kind: Kind) -> Option<InterfaceErrorView> {
    match item {
        ItemView::Method(sig) => signature_error(sig, kind),
        ItemView::Other(_) => None,
    }
}

/// The error of the first item that has one.
pub open spec fn first_item_error(items: Seq<ItemView>, kind: Kind) -> Option<InterfaceErrorView>
    decreases items.len(),
{
    if items.len() == 0 {
        None
    } else {
        match first_item_error(items.drop_last(), kind) {
            Some(e) => Some(e),
            None => item_error(items.last(), kind),
        }
    }
}

/// The methods that the items declare, in order.
pub open spec fn methods_of(items: Seq<ItemView>) -> Seq<MethodView>
    decreases items.len(),
{
    if items.len() == 0 {
        Seq::empty()
    } else {
        match items.last() {
            ItemView::Method(sig) => methods_of(items.drop_last()).push(method_of(sig)),
            ItemView::Other(_) => methods_of(items.drop_last()),
        }
    }
}

/// The items that are no methods, in order.
pub open spec fn others_of(items: Seq<ItemView>) -> Seq<Seq<char>>
    decreases items.len(),
{
    if items.len() == 0 {
        Seq::empty()
    } else {
        match items.last() {
            ItemView::Method(_) => others_of(items.drop_last()),
            ItemView::Other(t) => others_of(items.drop_last()).push(t),
        }
    }
}

/// The position of the first method that carries the given tag.
pub open spec fn first_with_tag(methods: Seq<MethodView>, tag: Seq<char>) -> Option<int>
    decreases methods.len(),
{
    if methods.len() == 0 {
        None
    } else {
        match first_with_tag(methods.drop_last(), tag) {
            Some(i) => Some(i),
            None => if methods.last().tag == tag {
                Some(methods.len() - 1)
            } else {
                None
            },
        }
    }
}

/// The first pair of methods that share a tag: the earliest method that has
/// a predecessor with its tag, together with the first such predecessor.
pub open spec fn first_collision(methods: Seq<MethodView>) -> Option<(int, int)>
    decreases methods.len(),
{
    if methods.len() == 0 {
        None
    } else {
        match first_collision(methods.drop_last()) {
            Some(p) => Some(p),
            None => match first_with_tag(methods.drop_last(), methods.last().tag) {
                Some(i) => Some((i, methods.len() - 1)),
                None => None,
            },
        }
    }
}

/// The interface of the given kind that a declaration denotes, or the reason
/// why it denotes none.
pub open spec fn normalize(decl: DeclarationView, kind: Kind) -> Result<
    TraitContextView,
    InterfaceErrorView,
> {
    let methods = methods_of(decl.items);
    match first_item_error(decl.items, kind) {
        Some(e) => Err(e),
        None => match first_collision(methods) {
            Some((i, j)) => Err(
                InterfaceErrorView::TagCollision {
                    first: methods[i].name,
                    second: methods[j].name,
                },
            ),
            None => Ok(
                TraitContextView {
                    qualifiers: decl.qualifiers,
                    name: decl.name,
                    bounds: decl.bounds,
                    kind,
                    methods,
                    request_name: decl.name + REQUEST_SUFFIX@,
                    others: others_of(decl.items),
                },
            ),
        },
    }
}

impl TraitContextView {
    /// The invariant of a normalised interface: the request union is named
    /// after the interface, every tag is the camel-case form of its method's
    /// name, no two methods share a tag, and a one-way interface returns
    /// nothing.
    pub open spec fn wf(self) -> bool {
        &&& self.request_name == self.name + REQUEST_SUFFIX@
        &&& forall|i: int|
            0 <= i < self.methods.len() ==> (#[trigger] self.methods[i]).tag == camelize(
                self.methods[i].name,
            )
        &&& forall|i: int, j: int|
            0 <= i < j < self.methods.len() ==> (#[trigger] self.methods[i]).tag != (
            #[trigger] self.methods[j]).tag
        &&& self.kind.one_way() ==> forall|i: int|
            0 <= i < self.methods.len() ==> (#[trigger] self.methods[i]).ret == UNIT@
    }
}

impl Method {
    /// The method that a signature declares.
    pub fn from_signature(sig: &Signature) -> (m: Method)
        ensures
            m.deep_view() == method_of(sig.deep_view()),
    {
        let mut params: Vec<Param> = Vec::new();
        let mut i: usize = 0;
        while i < sig.args.len()
            invariant
                i <= sig.args.len(),
                params.deep_view() == typed_args(sig.args.deep_view().take(i as int)),
            decreases sig.args.len() - i,
        {
            proof {
                lemma_take_step(sig.args.deep_view(), i as int);
            }
            let ghost before = params.deep_view();
            match &sig.args[i] {
                Arg::Typed(p) => {
                    params.push(p.clone_param());
                    assert(params.deep_view() =~= before.push(p.deep_view()));
                },
                Arg::Receiver { .. } => {},
            }
            i += 1;
        }
        proof {
            lemma_take_all(sig.args.deep_view());
        }
        let (receiver, mutable) = if sig.args.len() > 0 {
            match &sig.args[0] {
                Arg::Receiver { mutable, text } => (text.clone(), *mutable),
                Arg::Typed(_) => (String::new(), false),
            }
        } else {
            (String::new(), false)
        };
        let ret = match &sig.ret {
            Some(t) => t.clone(),
            None => String::from_str(UNIT),
        };
        let body = match &sig.body {
            Some(b) => Some(b.clone()),
            None => None,
        };
        Method {
            qualifiers: sig.qualifiers.clone(),
            name: sig.name.clone(),
            tag: snake_to_camel(sig.name.as_str()),
            generics: sig.generics.clone(),
            receiver,
            mutable,
            params,
            ret,
            bounds: sig.bounds.clone(),
            body,
        }
    }
}

impl Param {
    /// A copy of this parameter.
    pub fn clone_param(&self) -> (p: Param)
        ensures
            p.deep_view() == self.deep_view(),
    {
        Param { name: self.name.clone(), ty: self.ty.clone() }
    }
}

/// What is wrong with one signature in an interface of the given kind.
fn check_signature(sig: &Signature, kind: Kind) -> (r: Option<InterfaceError>)
    ensures
        r.deep_view() == signature_error(sig.deep_view(), kind),
{
    let receiver = sig.args.len() > 0 && match &sig.args[0] {
        Arg::Receiver { .. } => true,
        Arg::Typed(_) => false,
    };
    if !receiver {
        return Some(InterfaceError::MissingReceiver { method: sig.name.clone() });
    }
    let unit = match &sig.ret {
        Some(t) => same_text(t.as_str(), UNIT),
        None => true,
    };
    if kind.is_one_way() && !unit {
        Some(InterfaceError::NonUnitReturn { method: sig.name.clone() })
    } else {
        None
    }
}

/// The position of the first of the leading `n` methods that carries the tag.
fn find_with_tag(methods: &Vec<Method>, n: usize, tag: &str) -> (r: Option<usize>)
    requires
        n <= methods.len(),
    ensures
        match r {
            Some(i) => first_with_tag(methods.deep_view().take(n as int), tag@) == Some(i as int),
            None => first_with_tag(methods.deep_view().take(n as int), tag@) is None,
        },
{
    let mut found: Option<usize> = None;
    let mut i: usize = 0;
    while i < n
        invariant
            i <= n <= methods.len(),
            match found {
                Some(k) => first_with_tag(methods.deep_view().take(i as int), tag@) == Some(
                    k as int,
                ),
                None => first_with_tag(methods.deep_view().take(i as int), tag@) is None,
            },
        decreases n - i,
    {
        proof {
            lemma_take_step(methods.deep_view(), i as int);
            lemma_take_step(methods.deep_view().take(n as int), i as int);
            assert(methods.deep_view().take(n as int).take(i as int) =~= methods.deep_view().take(
                i as int,
            ));
        }
        if found.is_none() && same_text(methods[i].tag.as_str(), tag) {
            found = Some(i);
        }
        i += 1;
    }
    found
}

/// The first pair of methods that share a tag.
fn find_collision(methods: &Vec<Method>) -> (r: Option<(usize, usize)>)
    ensures
        match r {
            Some(p) => first_collision(methods.deep_view()) == Some((p.0 as int, p.1 as int))
                && p.0 < p.1 < methods.len(),
            None => first_collision(methods.deep_view()) is None,
        },
{
    let mut found: Option<(usize, usize)> = None;
    let mut j: usize = 0;
    while j < methods.len()
        invariant
            j <= methods.len(),
            match found {
                Some(p) => first_collision(methods.deep_view().take(j as int)) == Some(
                    (p.0 as int, p.1 as int),
                ) && p.0 < p.1 < j,
                None => first_collision(methods.deep_view().take(j as int)) is None,
            },
        decreases methods.len() - j,
    {
        proof {
            lemma_take_step(methods.deep_view(), j as int);
        }
        if found.is_none() {
            match find_with_tag(methods, j, methods[j].tag.as_str()) {
                Some(i) => {
                    proof {
                        lemma_first_with_tag_bound(
                            methods.deep_view().take(j as int),
                            methods[j as int].tag@,
                        );
                    }
                    found = Some((i, j));
                },
                None => {},
            }
        }
        j += 1;
    }
    proof {
        lemma_take_all(methods.deep_view());
    }
    found
}

/// A position that `first_with_tag` reports lies in the sequence and carries
/// the tag, and no earlier position does.
pub proof fn lemma_first_with_tag_bound(methods: Seq<MethodView>, tag: Seq<char>)
    ensures
        match first_with_tag(methods, tag) {
            Some(i) => 0 <= i < methods.len() && methods[i].tag == tag && forall|k: int|
                0 <= k < i ==> (#[trigger] methods[k]).tag != tag,
            None => forall|k: int| 0 <= k < methods.len() ==> (#[trigger] methods[k]).tag != tag,
        },
    decreases methods.len(),
{
    if methods.len() > 0 {
        lemma_first_with_tag_bound(methods.drop_last(), tag);
        assert(forall|k: int|
            0 <= k < methods.len() - 1 ==> methods.drop_last()[k] == #[trigger] methods[k]);
    }
}

/// Every method that a list of items declares carries the camel-case form of
/// its name as its tag.
pub proof fn lemma_methods_tagged(items: Seq<ItemView>)
    ensures
        forall|i: int|
            0 <= i < methods_of(items).len() ==> (#[trigger] methods_of(items)[i]).tag
                == camelize(methods_of(items)[i].name),
    decreases items.len(),
{
    if items.len() > 0 {
        lemma_methods_tagged(items.drop_last());
        let shorter = methods_of(items.drop_last());
        assert forall|i: int| 0 <= i < methods_of(items).len() implies (#[trigger] methods_of(
            items,
        )[i]).tag == camelize(methods_of(items)[i].name) by {
            if i < shorter.len() {
                assert(methods_of(items)[i] == shorter[i]);
            }
        }
    }
}

/// Where no item is in error, every method has a receiver, and in a one-way
/// interface every method returns the unit type.
pub proof fn lemma_accepted_methods(items: Seq<ItemView>, kind: Kind)
    requires
        first_item_error(items, kind) is None,
    ensures
        forall|k: int|
            0 <= k < items.len() ==> item_error(#[trigger] items[k], kind) is None,
        kind.one_way() ==> forall|i: int|
            0 <= i < methods_of(items).len() ==> (#[trigger] methods_of(items)[i]).ret == UNIT@,
    decreases items.len(),
{
    if items.len() > 0 {
        lemma_accepted_methods(items.drop_last(), kind);
        assert(forall|k: int|
            0 <= k < items.len() - 1 ==> items.drop_last()[k] == #[trigger] items[k]);
        let shorter = methods_of(items.drop_last());
        if kind.one_way() {
            assert forall|i: int| 0 <= i < methods_of(items).len() implies (#[trigger] methods_of(
                items,
            )[i]).ret == UNIT@ by {
                if i < shorter.len() {
                    assert(methods_of(items)[i] == shorter[i]);
                }
            }
        }
    }
}

/// A reported collision names two different methods with one tag, the first
/// before the second.
pub proof fn lemma_first_collision_bound(methods: Seq<MethodView>)
    ensures
        match first_collision(methods) {
            Some((i, j)) => 0 <= i < j < methods.len() && methods[i].tag == methods[j].tag,
            None => forall|i: int, j: int|
                0 <= i < j < methods.len() ==> (#[trigger] methods[i]).tag != (
                #[trigger] methods[j]).tag,
        },
    decreases methods.len(),
{
    if methods.len() > 0 {
        let shorter = methods.drop_last();
        lemma_first_collision_bound(shorter);
        lemma_first_with_tag_bound(shorter, methods.last().tag);
        assert(forall|k: int| 0 <= k < methods.len() - 1 ==> shorter[k] == #[trigger] methods[k]);
    }
}

/// Whatever normalisation accepts satisfies the invariant of a normalised
/// interface.
pub proof fn lemma_normalize_wf(decl: DeclarationView, kind: Kind)
    ensures
        normalize(decl, kind) matches Ok(ir) ==> ir.wf() && ir.kind == kind && ir.name
            == decl.name && ir.qualifiers == decl.qualifiers && ir.bounds == decl.bounds,
{
    if normalize(decl, kind) is Ok {
        lemma_methods_tagged(decl.items);
        lemma_accepted_methods(decl.items, kind);
        lemma_first_collision_bound(methods_of(decl.items));
    }
}

impl TraitContext {
    /// Normalises a declaration into an interface of the given kind.
    ///
    /// Items that are no methods contribute no method; they are kept as text.
    /// The declaration is refused when a method does not begin with a
    /// receiver, when a method of a one-way interface returns something other
    /// than `()`, or when two methods would share a tag.
    pub fn parse(decl: &Declaration, kind: Kind) -> (r: Result<TraitContext, InterfaceError>)
        ensures
            deep_result(r) == normalize(decl.deep_view(), kind),
            r matches Ok(ir) ==> ir.deep_view().wf(),
    {
        let mut methods: Vec<Method> = Vec::new();
        let mut others: Vec<String> = Vec::new();
        let mut failure: Option<InterfaceError> = None;
        let mut i: usize = 0;
        while i < decl.items.len()
            invariant
                i <= decl.items.len(),
                methods.deep_view() == methods_of(decl.items.deep_view().take(i as int)),
                others.deep_view() == others_of(decl.items.deep_view().take(i as int)),
                failure.deep_view() == first_item_error(
                    decl.items.deep_view().take(i as int),
                    kind,
                ),
            decreases decl.items.len() - i,
        {
            proof {
                lemma_take_step(decl.items.deep_view(), i as int);
            }
            let ghost methods_before = methods.deep_view();
            let ghost others_before = others.deep_view();
            match &decl.items[i] {
                Item::Method(sig) => {
                    if failure.is_none() {
                        failure = check_signature(sig, kind);
                    }
                    let method = Method::from_signature(sig);
                    methods.push(method);
                    assert(methods.deep_view() =~= methods_before.push(
                        method_of(sig.deep_view()),
                    ));
                },
                Item::Other(text) => {
                    others.push(text.clone());
                    assert(others.deep_view() =~= others_before.push(text@));
                },
            }
            i += 1;
        }
        proof {
            lemma_take_all(decl.items.deep_view());
            lemma_normalize_wf(decl.deep_view(), kind);
        }
        if let Some(e) = failure {
            return Err(e);
        }
        match find_collision(&methods) {
            Some((first, second)) => Err(
                InterfaceError::TagCollision {
                    first: methods[first].name.clone(),
                    second: methods[second].name.clone(),
                },
            ),
            None => {
                let mut request_name = decl.name.clone();
                request_name.append(REQUEST_SUFFIX);
                Ok(
                    TraitContext {
                        qualifiers: decl.qualifiers.clone(),
                        name: decl.name.clone(),
                        bounds: decl.bounds.clone(),
                        kind,
                        methods,
                        request_name,
                        others,
                    },
                )
            },
        }
    }
}

/// An item that is in error makes the whole list be in error.
pub proof fn lemma_item_error_found(items: Seq<ItemView>, kind: Kind, i: int)
    requires
        0 <= i < items.len(),
        item_error(items[i], kind) is Some,
    ensures
        first_item_error(items, kind) is Some,
    decreases items.len(),
{
    if i < items.len() - 1 {
        assert(items.drop_last()[i] == items[i]);
        lemma_item_error_found(items.drop_last(), kind, i);
    }
}

/// The error that is reported is that of the first item in error.
pub proof fn lemma_first_item_error(items: Seq<ItemView>, kind: Kind)
    ensures
        first_item_error(items, kind) matches Some(e) ==> exists|i: int|
            0 <= i < items.len() && item_error(#[trigger] items[i], kind) == Some(e)
                && first_item_error(items.take(i), kind) is None,
    decreases items.len(),
{
    if items.len() > 0 {
        let shorter = items.drop_last();
        lemma_first_item_error(shorter, kind);
        match first_item_error(shorter, kind) {
            Some(e) => {
                let i = choose|i: int|
                    0 <= i < shorter.len() && item_error(#[trigger] shorter[i], kind) == Some(e)
                        && first_item_error(shorter.take(i), kind) is None;
                assert(shorter[i] == items[i]);
                assert(shorter.take(i) =~= items.take(i));
            },
            None => {
                assert(items.take(items.len() - 1) =~= shorter);
            },
        }
    }
}

/// A one-way interface with a method that returns something other than the
/// unit type is refused.
pub proof fn lemma_one_way_returns_nothing(decl: DeclarationView, kind: Kind, i: int)
    requires
        kind.one_way(),
        0 <= i < decl.items.len(),
        decl.items[i] matches ItemView::Method(sig) && return_type(sig.ret) != UNIT@,
    ensures
        normalize(decl, kind) is Err,
{
    lemma_item_error_found(decl.items, kind, i);
}

/// A method whose first argument is no receiver makes the interface be
/// refused, whatever its kind.
pub proof fn lemma_receiver_needed(decl: DeclarationView, kind: Kind, i: int)
    requires
        0 <= i < decl.items.len(),
        decl.items[i] matches ItemView::Method(sig) && !has_receiver(sig),
    ensures
        normalize(decl, kind) is Err,
{
    lemma_item_error_found(decl.items, kind, i);
}

/// Two methods that would share a tag make the interface be refused: tags
/// are never merged.
pub proof fn lemma_collision_refused(decl: DeclarationView, kind: Kind, i: int, j: int)
    requires
        0 <= i < j < methods_of(decl.items).len(),
        methods_of(decl.items)[i].tag == methods_of(decl.items)[j].tag,
    ensures
        normalize(decl, kind) is Err,
{
    lemma_first_collision_bound(methods_of(decl.items));
}

impl InterfaceErrorView {
    /// The diagnostic, in words.
    pub open spec fn message(self) -> Seq<char> {
        match self {
            InterfaceErrorView::MissingReceiver { method } => "method '"@ + method
                + "' must take `&self` or `&mut self` as its first argument."@,
            InterfaceErrorView::NonUnitReturn { method } => "method '"@ + method
                + "' of a one-way interface must not return a value."@,
            InterfaceErrorView::TagCollision { first, second } => "methods '"@ + first
                + "' and '"@ + second + "' would share one variant of the request union."@,
        }
    }
}

impl InterfaceError {
    /// The diagnostic, in words.
    pub fn message(&self) -> (r: String)
        ensures
            r@ == self.deep_view().message(),
    {
        match self {
            InterfaceError::MissingReceiver { method } => {
                let mut out = String::from_str("method '");
                out.append(method.as_str());
                out.append("' must take `&self` or `&mut self` as its first argument.");
                out
            },
            InterfaceError::NonUnitReturn { method } => {
                let mut out = String::from_str("method '");
                out.append(method.as_str());
                out.append("' of a one-way interface must not return a value.");
                out
            },
            InterfaceError::TagCollision { first, second } => {
                let mut out = String::from_str("methods '");
                out.append(first.as_str());
                out.append("' and '");
                out.append(second.as_str());
                out.append("' would share one variant of the request union.");
                out
            },
        }
    }
}

} // verus!
