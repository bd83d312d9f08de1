//! From a configuration block and an interface declaration to generated
//! source, for any of the four kinds.

use vstd::prelude::*;
use vstd::string::*;
use crate::config::{
    configuration, ConfigError, ConfigErrorView, Configuration, ConfigurationView, Fragment,
    FragmentView,
};
use crate::generate::{
    invoke_artifacts, notify_artifacts, report_artifacts, watch_artifacts, Artifacts,
    ArtifactsView,
};
use crate::interface::{
    normalize, Declaration, DeclarationView, InterfaceError, InterfaceErrorView, Kind,
    TraitContext, TraitContextView,
};
use crate::render::Sides;
use crate::syntax::{attribute_syntax, read_declaration, read_fragments, trait_syntax};
use crate::util::deep_result;

verus! {

/// What an interface is rendered to under the options of its kind.
pub open spec fn artifacts(ir: TraitContextView, config: ConfigurationView, sides: Sides)
    -> ArtifactsView {
    match config {
        ConfigurationView::Invoke(a) => invoke_artifacts(ir, a, sides),
        ConfigurationView::Watch(a) => watch_artifacts(ir, a, sides),
        ConfigurationView::Report(a) => report_artifacts(ir, a, sides),
        ConfigurationView::Notify(a) => notify_artifacts(ir, a, sides),
    }
}

impl TraitContext {
    /// Renders this interface with the renderer of its kind.
    pub fn render(&self, config: &Configuration, sides: Sides) -> (r: Artifacts)
        requires
            self.deep_view().wf(),
            self.kind == config.deep_view().kind(),
            config.deep_view().names_valid(),
        ensures
            r.deep_view() == artifacts(self.deep_view(), config.deep_view(), sides),
    {
        match config {
            Configuration::Invoke(a) => self.render_invoke_interface(a, sides),
            Configuration::Watch(a) => self.render_watch_interface(a, sides),
            Configuration::Report(a) => self.render_report_interface(a, sides),
            Configuration::Notify(a) => self.render_notify_interface(a, sides),
        }
    }
}

/// Why nothing was generated.
#[derive(Clone, Debug, PartialEq, Eq)]
pub enum CompileError {
    /// A text is not of the syntax it should have; with the parser's message.
    Syntax(String),
    /// The configuration block is refused.
    Config(ConfigError),
    /// The declaration is not an interface of the requested kind.
    Interface(InterfaceError),
}

/// The mathematical value of a [`CompileError`].
pub enum CompileErrorView {
    Syntax(Seq<char>),
    Config(ConfigErrorView),
    Interface(InterfaceErrorView),
}

impl DeepView for CompileError {
    type V = CompileErrorView;

    open spec fn deep_view(&self) -> CompileErrorView {
        match self {
            CompileError::Syntax(m) => CompileErrorView::Syntax(m@),
            CompileError::Config(e) => CompileErrorView::Config(e.deep_view()),
            CompileError::Interface(e) => CompileErrorView::Interface(e.deep_view()),
        }
    }
}

impl CompileErrorView {
    /// The diagnostic, in words.
    pub open spec fn message(self) -> Seq<char> {
        match self {
            CompileErrorView::Syntax(m) => m,
            CompileErrorView::Config(e) => e.message(),
            CompileErrorView::Interface(e) => e.message(),
        }
    }
}

impl CompileError {
    /// The diagnostic, in words.
    pub fn message(&self) -> (r: String)
        ensures
            r@ == self.deep_view().message(),
    {
        match self {
            CompileError::Syntax(m) => m.clone(),
            CompileError::Config(e) => e.message(),
            CompileError::Interface(e) => e.message(),
        }
    }
}

/// What a configuration block and a declaration compile to: the
/// configuration is read first, then the declaration is normalised, then the
/// configured names are checked, then the interface is rendered.
pub open spec fn compiled(
    kind: Kind,
    fragments: Seq<FragmentView>,
    decl: DeclarationView,
    sides: Sides,
) -> Result<ArtifactsView, CompileErrorView> {
    match configuration(kind, fragments) {
        Err(e) => Err(CompileErrorView::Config(e)),
        Ok(config) => match normalize(decl, kind) {
            Err(e) => Err(CompileErrorView::Interface(e)),
            Ok(ir) => match config.invalid_name() {
                Some(e) => Err(CompileErrorView::Config(e)),
                None => Ok(artifacts(ir, config, sides)),
            },
        },
    }
}

/// What the results of the two parsers compile to: the source as one text.
/// An error in the configuration block, of syntax or of content, comes
/// before any in the declaration.
pub open spec fn compiled_source(
    kind: Kind,
    attributes: Result<Seq<FragmentView>, Seq<char>>,
    declaration: Result<DeclarationView, Seq<char>>,
    sides: Sides,
) -> Result<Seq<char>, CompileErrorView> {
    match attributes {
        Err(m) => Err(CompileErrorView::Syntax(m)),
        Ok(fragments) => match configuration(kind, fragments) {
            Err(e) => Err(CompileErrorView::Config(e)),
            Ok(config) => match declaration {
                Err(m) => Err(CompileErrorView::Syntax(m)),
                Ok(decl) => match normalize(decl, kind) {
                    Err(e) => Err(CompileErrorView::Interface(e)),
                    Ok(ir) => match config.invalid_name() {
                        Some(e) => Err(CompileErrorView::Config(e)),
                        None => Ok(artifacts(ir, config, sides).source()),
                    },
                },
            },
        },
    }
}

/// The result of compiling, with the source by its characters.
pub open spec fn source_result(r: Result<String, CompileError>) -> Result<
    Seq<char>,
    CompileErrorView,
> {
    match r {
        Ok(s) => Ok(s@),
        Err(e) => Err(e.deep_view()),
    }
}

/// Compiles an interface of the given kind from the fragments of its
/// configuration block and its declaration.
pub fn compile(kind: Kind, fragments: &Vec<Fragment>, decl: &Declaration, sides: Sides) -> (r:
    Result<Artifacts, CompileError>)
    ensures
        deep_result(r) == compiled(kind, fragments.deep_view(), decl.deep_view(), sides),
{
    let config = match Configuration::parse(kind, fragments) {
        Ok(c) => c,
        Err(e) => {
            return Err(CompileError::Config(e));
        },
    };
    let ir = match TraitContext::parse(decl, kind) {
        Ok(ir) => ir,
        Err(e) => {
            return Err(CompileError::Interface(e));
        },
    };
    match config.check_names() {
        Some(e) => Err(CompileError::Config(e)),
        None => Ok(ir.render(&config, sides)),
    }
}

/// Compiles an interface of the given kind from the text of its
/// configuration block and the text of its declaration.
pub fn compile_source(kind: Kind, attr: &str, input: &str, sides: Sides) -> (r: Result<
    String,
    CompileError,
>)
    ensures
        source_result(r) == compiled_source(
            kind,
            attribute_syntax(attr@),
            trait_syntax(input@),
            sides,
        ),
{
    let fragments = match read_fragments(attr) {
        Ok(f) => f,
        Err(e) => {
            return Err(CompileError::Syntax(e.message));
        },
    };
    let config = match Configuration::parse(kind, &fragments) {
        Ok(c) => c,
        Err(e) => {
            return Err(CompileError::Config(e));
        },
    };
    let decl = match read_declaration(input) {
        Ok(d) => d,
        Err(e) => {
            return Err(CompileError::Syntax(e.message));
        },
    };
    let ir = match TraitContext::parse(&decl, kind) {
        Ok(ir) => ir,
        Err(e) => {
            return Err(CompileError::Interface(e));
        },
    };
    match config.check_names() {
        Some(e) => Err(CompileError::Config(e)),
        None => Ok(ir.render(&config, sides).source()),
    }
}

} // verus!
