//! The four renderers: from a normalised interface and its options to the
//! request union, the interface definition, the binding and the stub.

use vstd::prelude::*;
use vstd::string::*;
use crate::config::{
    InvokeAttributesView, InvokeInterfaceAttributes, NotifyAttributesView,
    NotifyInterfaceAttributes, ReportAttributesView, ReportInterfaceAttributes,
    WatchAttributesView, WatchInterfaceAttributes,
};
use crate::interface::{Kind, TraitContext, TraitContextView};
use crate::render::{
    binding, binding_text, interface_definition, request, request_text, stub, stub_text,
    trait_text, Sides,
};

verus! {

/// What a renderer produces. A text is empty where the side it belongs to
/// was not asked for.
#[derive(Clone, Debug, PartialEq, Eq)]
pub struct Artifacts {
    /// The interface's name, under which its objects are looked up.
    pub category: String,
    /// The name of the request union.
    pub request_name: String,
    /// The name of the binding: servant, officer or receiver.
    pub binding_name: String,
    /// The name of the stub: proxy, staff or notifier.
    pub stub_name: String,
    /// The request union.
    pub request: String,
    /// The interface definition, which goes with the binding.
    pub interface: String,
    /// The wrapper that binds an implementation object to the request union.
    pub binding: String,
    /// The type that marshals calls into the request union.
    pub stub: String,
}

/// The mathematical value of [`Artifacts`].
pub struct ArtifactsView {
    pub category: Seq<char>,
    pub request_name: Seq<char>,
    pub binding_name: Seq<char>,
    pub stub_name: Seq<char>,
    pub request: Seq<char>,
    pub interface: Seq<char>,
    pub binding: Seq<char>,
    pub stub: Seq<char>,
}

impl DeepView for Artifacts {
    type V = ArtifactsView;

    open spec fn deep_view(&self) -> ArtifactsView {
        ArtifactsView {
            category: self.category@,
            request_name: self.request_name@,
            binding_name: self.binding_name@,
            stub_name: self.stub_name@,
            request: self.request@,
            interface: self.interface@,
            binding: self.binding@,
            stub: self.stub@,
        }
    }
}

impl ArtifactsView {
    /// The generated source as one text: the request union, the interface
    /// definition, the binding and the stub, in this order.
    pub open spec fn source(self) -> Seq<char> {
        self.request + self.interface + self.binding + self.stub
    }
}

impl Artifacts {
    /// The generated source as one text.
    pub fn source(&self) -> (r: String)
        ensures
            r@ == self.deep_view().source(),
    {
        let mut out = self.request.clone();
        out.append(self.interface.as_str());
        out.append(self.binding.as_str());
        out.append(self.stub.as_str());
        out
    }
}

/// A text where it is wanted, and nothing where it is not.
pub open spec fn when(wanted: bool, text: Seq<char>) -> Seq<char> {
    if wanted {
        text
    } else {
        Seq::empty()
    }
}

/// What an invoke interface is rendered to: on the server side the interface
/// definition, whose methods take the call context, and the servant, which
/// can dump its object where the interface is persistent; on the client side
/// the proxy, with a second operation per method where callbacks are asked for.
pub open spec fn invoke_artifacts(
    ir: TraitContextView,
    attributes: InvokeAttributesView,
    sides: Sides,
) -> ArtifactsView {
    let binding = attributes.servant_name(ir.name);
    let stub = attributes.proxy_name(ir.name);
    ArtifactsView {
        category: ir.name,
        request_name: ir.request_name,
        binding_name: binding,
        stub_name: stub,
        request: when(sides.server || sides.client, request_text(ir)),
        interface: when(sides.server, trait_text(ir, true)),
        binding: when(
            sides.server,
            binding_text(Kind::Invoke, binding, ir, attributes.persistent()),
        ),
        stub: when(sides.client, stub_text(Kind::Invoke, stub, ir, attributes.with_callbacks())),
    }
}

impl TraitContext {
    /// Renders an invoke interface.
    pub fn render_invoke_interface(
        &self,
        attributes: &InvokeInterfaceAttributes,
        sides: Sides,
    ) -> (r: Artifacts)
        requires
            self.deep_view().wf(),
            self.kind == Kind::Invoke,
            attributes.deep_view().names_valid(),
        ensures
            r.deep_view() == invoke_artifacts(self.deep_view(), attributes.deep_view(), sides),
    {
        let binding_name = attributes.servant_name(self.name.as_str());
        let stub_name = attributes.proxy_name(self.name.as_str());
        let request = if sides.server || sides.client {
            request(self)
        } else {
            String::new()
        };
        let (interface, binding) = if sides.server {
            (
                interface_definition(self, true),
                binding(Kind::Invoke, binding_name.as_str(), self, attributes.persistent()),
            )
        } else {
            (String::new(), String::new())
        };
        let stub = if sides.client {
            stub(Kind::Invoke, stub_name.as_str(), self, attributes.with_callbacks())
        } else {
            String::new()
        };
        Artifacts {
            category: self.name.clone(),
            request_name: self.request_name.clone(),
            binding_name,
            stub_name,
            request,
            interface,
            binding,
            stub,
        }
    }
}

/// What a watch interface is rendered to: like an invoke interface, without
/// call context, persistency and callbacks.
pub open spec fn watch_artifacts(
    ir: TraitContextView,
    attributes: WatchAttributesView,
    sides: Sides,
) -> ArtifactsView {
    let binding = attributes.servant_name(ir.name);
    let stub = attributes.proxy_name(ir.name);
    ArtifactsView {
        category: ir.name,
        request_name: ir.request_name,
        binding_name: binding,
        stub_name: stub,
        request: when(sides.server || sides.client, request_text(ir)),
        interface: when(sides.server, trait_text(ir, false)),
        binding: when(sides.server, binding_text(Kind::Watch, binding, ir, false)),
        stub: when(sides.client, stub_text(Kind::Watch, stub, ir, false)),
    }
}

impl TraitContext {
    /// Renders a watch interface.
    pub fn render_watch_interface(
        &self,
        attributes: &WatchInterfaceAttributes,
        sides: Sides,
    ) -> (r: Artifacts)
        requires
            self.deep_view().wf(),
            self.kind == Kind::Watch,
            attributes.deep_view().names_valid(),
        ensures
            r.deep_view() == watch_artifacts(self.deep_view(), attributes.deep_view(), sides),
    {
        let binding_name = attributes.servant_name(self.name.as_str());
        let stub_name = attributes.proxy_name(self.name.as_str());
        let request = if sides.server || sides.client {
            request(self)
        } else {
            String::new()
        };
        let (interface, binding) = if sides.server {
            (
                interface_definition(self, false),
                binding(Kind::Watch, binding_name.as_str(), self, false),
            )
        } else {
            (String::new(), String::new())
        };
        let stub = if sides.client {
            stub(Kind::Watch, stub_name.as_str(), self, false)
        } else {
            String::new()
        };
        Artifacts {
            category: self.name.clone(),
            request_name: self.request_name.clone(),
            binding_name,
            stub_name,
            request,
            interface,
            binding,
            stub,
        }
    }
}

/// What a report interface is rendered to: on the server side the interface
/// definition and the officer, whose `serve` returns nothing; on the client
/// side the staff, whose operations return no value.
pub open spec fn report_artifacts(
    ir: TraitContextView,
    attributes: ReportAttributesView,
    sides: Sides,
) -> ArtifactsView {
    let binding = attributes.servant_name(ir.name);
    let stub = attributes.proxy_name(ir.name);
    ArtifactsView {
        category: ir.name,
        request_name: ir.request_name,
        binding_name: binding,
        stub_name: stub,
        request: when(sides.server || sides.client, request_text(ir)),
        interface: when(sides.server, trait_text(ir, false)),
        binding: when(sides.server, binding_text(Kind::Report, binding, ir, false)),
        stub: when(sides.client, stub_text(Kind::Report, stub, ir, false)),
    }
}

impl TraitContext {
    /// Renders a report interface.
    pub fn render_report_interface(
        &self,
        attributes: &ReportInterfaceAttributes,
        sides: Sides,
    ) -> (r: Artifacts)
        requires
            self.deep_view().wf(),
            self.kind == Kind::Report,
            attributes.deep_view().names_valid(),
        ensures
            r.deep_view() == report_artifacts(self.deep_view(), attributes.deep_view(), sides),
    {
        let binding_name = attributes.servant_name(self.name.as_str());
        let stub_name = attributes.proxy_name(self.name.as_str());
        let request = if sides.server || sides.client {
            request(self)
        } else {
            String::new()
        };
        let (interface, binding) = if sides.server {
            (
                interface_definition(self, false),
                binding(Kind::Report, binding_name.as_str(), self, false),
            )
        } else {
            (String::new(), String::new())
        };
        let stub = if sides.client {
            stub(Kind::Report, stub_name.as_str(), self, false)
        } else {
            String::new()
        };
        Artifacts {
            category: self.name.clone(),
            request_name: self.request_name.clone(),
            binding_name,
            stub_name,
            request,
            interface,
            binding,
            stub,
        }
    }
}

/// What a notify interface is rendered to: on the client side the interface
/// definition, which the client implements, and the receiver, which
/// dispatches what is pushed; on the server side the notifier.
pub open spec fn notify_artifacts(
    ir: TraitContextView,
    attributes: NotifyAttributesView,
    sides: Sides,
) -> ArtifactsView {
    let binding = attributes.receiver_name(ir.name);
    let stub = attributes.notifier_name(ir.name);
    ArtifactsView {
        category: ir.name,
        request_name: ir.request_name,
        binding_name: binding,
        stub_name: stub,
        request: when(sides.server || sides.client, request_text(ir)),
        interface: when(sides.client, trait_text(ir, false)),
        binding: when(sides.client, binding_text(Kind::Notify, binding, ir, false)),
        stub: when(sides.server, stub_text(Kind::Notify, stub, ir, false)),
    }
}

impl TraitContext {
    /// Renders a notify interface.
    pub fn render_notify_interface(
        &self,
        attributes: &NotifyInterfaceAttributes,
        sides: Sides,
    ) -> (r: Artifacts)
        requires
            self.deep_view().wf(),
            self.kind == Kind::Notify,
            attributes.deep_view().names_valid(),
        ensures
            r.deep_view() == notify_artifacts(self.deep_view(), attributes.deep_view(), sides),
    {
        let binding_name = attributes.receiver_name(self.name.as_str());
        let stub_name = attributes.notifier_name(self.name.as_str());
        let request = if sides.server || sides.client {
            request(self)
        } else {
            String::new()
        };
        let (interface, binding) = if sides.client {
            (
                interface_definition(self, false),
                binding(Kind::Notify, binding_name.as_str(), self, false),
            )
        } else {
            (String::new(), String::new())
        };
        let stub = if sides.server {
            stub(Kind::Notify, stub_name.as_str(), self, false)
        } else {
            String::new()
        };
        Artifacts {
            category: self.name.clone(),
            request_name: self.request_name.clone(),
            binding_name,
            stub_name,
            request,
            interface,
            binding,
            stub,
        }
    }
}

} // verus!
