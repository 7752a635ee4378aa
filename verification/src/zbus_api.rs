//! The boundary to zbus: the introspection-document parser and the
//! wire-format signature value. Parsing the XML text is delegated to
//! zbus and taken on trust through the narrow wrappers below; the
//! document a given text parses to is a function of the text alone and
//! is given the name [`parsed_doc`], so the conversion of the parsed
//! tree into the library's own model — verified here — yields exactly
//! that named document, and everything downstream of it is verified.

use vstd::prelude::*;

use crate::model::ArgModel;
use crate::model::Argument;
use crate::model::Document;
use crate::model::DocumentModel;
use crate::model::InterfaceDecl;
use crate::model::InterfaceModel;
use crate::model::MethodDecl;
use crate::model::MethodModel;
use crate::model::ResolveError;
use crate::model::SignalDecl;
use crate::model::SignalModel;
use crate::model::opt_str_view;

verus! {

#[verifier::external_type_specification]
#[verifier::external_body]
pub struct ExXmlNode(zbus::xml::Node);

#[verifier::external_type_specification]
#[verifier::external_body]
pub struct ExXmlInterface(zbus::xml::Interface);

#[verifier::external_type_specification]
#[verifier::external_body]
pub struct ExXmlMethod(zbus::xml::Method);

#[verifier::external_type_specification]
#[verifier::external_body]
pub struct ExXmlSignal(zbus::xml::Signal);

#[verifier::external_type_specification]
#[verifier::external_body]
pub struct ExXmlArg(zbus::xml::Arg);

#[verifier::external_type_specification]
#[verifier::external_body]
pub struct ExZbusError(zbus::Error);

#[verifier::external_type_specification]
#[verifier::external_body]
pub struct ExSignature<'a>(zbus::zvariant::Signature<'a>);

/// The text a signature value holds.
pub uninterp spec fn signature_chars(sig: zbus::zvariant::Signature) -> Seq<char>;

/// The introspection content a parsed node holds: its interfaces, in
/// declaration order, as the library's document model.
pub uninterp spec fn node_model(n: zbus::xml::Node) -> DocumentModel;

/// The content an interface node holds: its name and its methods and
/// signals, in declaration order.
pub uninterp spec fn interface_model(i: zbus::xml::Interface) -> InterfaceModel;

/// The content a method node holds: its name and its arguments, in
/// declaration order.
pub uninterp spec fn method_model(m: zbus::xml::Method) -> MethodModel;

/// The content a signal node holds: its name and its arguments, in
/// declaration order.
pub uninterp spec fn signal_model(s: zbus::xml::Signal) -> SignalModel;

/// The content an argument node holds: its optional name, its optional
/// direction tag, and its type string.
pub uninterp spec fn arg_model(a: zbus::xml::Arg) -> ArgModel;

/// The document a given introspection XML text parses to, or the
/// parse failure for text the parser rejects.
pub uninterp spec fn parsed_doc(xml: Seq<char>) -> Result<DocumentModel, ResolveError>;

/// Relies on zvariant::Signature::from_string_unchecked: it stores the
/// given string verbatim as the signature's text, without validating
/// it.
#[verifier::external_body]
pub(crate) fn signature_from_string(s: String) -> (r: zbus::zvariant::Signature<'static>)
    ensures
        signature_chars(r) == s@,
{
    zbus::zvariant::Signature::from_string_unchecked(s)
}

/// Relies on zbus::xml::Node::from_str: it parses one introspection
/// XML document into a tree of interfaces, members and arguments, and
/// the tree a given text yields depends on the text alone.
#[verifier::external_body]
fn parse_node(xml: &str) -> (r: Result<zbus::xml::Node, zbus::Error>)
    ensures
        parsed_doc(xml@) == (match r {
            Ok(n) => Ok::<DocumentModel, ResolveError>(node_model(n)),
            Err(_) => Err::<DocumentModel, ResolveError>(ResolveError::DocumentParseFailure),
        }),
{
    <zbus::xml::Node as std::str::FromStr>::from_str(xml)
}

/// Relies on zbus::xml::Node::interfaces: it returns the interfaces of
/// the document, in declaration order.
#[verifier::external_body]
fn node_interfaces<'a>(node: &'a zbus::xml::Node) -> (r: Vec<&'a zbus::xml::Interface>)
    ensures
        r@.len() == node_model(*node).interfaces.len(),
        forall|k: int|
            0 <= k < r@.len() ==> interface_model(*#[trigger] r@[k]) == node_model(
                *node,
            ).interfaces[k],
{
    node.interfaces()
}

/// Relies on zbus::xml::Interface::name: it returns the interface
/// name.
#[verifier::external_body]
fn interface_name(iface: &zbus::xml::Interface) -> (r: String)
    ensures
        r@ == interface_model(*iface).name,
{
    iface.name().to_owned()
}

/// Relies on zbus::xml::Interface::methods: it returns the interface's
/// methods, in declaration order.
#[verifier::external_body]
fn interface_methods<'a>(iface: &'a zbus::xml::Interface) -> (r: Vec<&'a zbus::xml::Method>)
    ensures
        r@.len() == interface_model(*iface).methods.len(),
        forall|k: int|
            0 <= k < r@.len() ==> method_model(*#[trigger] r@[k]) == interface_model(
                *iface,
            ).methods[k],
{
    iface.methods()
}

/// Relies on zbus::xml::Interface::signals: it returns the interface's
/// signals, in declaration order.
#[verifier::external_body]
fn interface_signals<'a>(iface: &'a zbus::xml::Interface) -> (r: Vec<&'a zbus::xml::Signal>)
    ensures
        r@.len() == interface_model(*iface).signals.len(),
        forall|k: int|
            0 <= k < r@.len() ==> signal_model(*#[trigger] r@[k]) == interface_model(
                *iface,
            ).signals[k],
{
    iface.signals()
}

/// Relies on zbus::xml::Method::name: it returns the method name.
#[verifier::external_body]
fn method_name(m: &zbus::xml::Method) -> (r: String)
    ensures
        r@ == method_model(*m).name,
{
    m.name().to_owned()
}

/// Relies on zbus::xml::Method::args: it returns the method's
/// arguments, in declaration order.
#[verifier::external_body]
fn method_args<'a>(m: &'a zbus::xml::Method) -> (r: Vec<&'a zbus::xml::Arg>)
    ensures
        r@.len() == method_model(*m).args.len(),
        forall|k: int|
            0 <= k < r@.len() ==> arg_model(*#[trigger] r@[k]) == method_model(*m).args[k],
{
    m.args()
}

/// Relies on zbus::xml::Signal::name: it returns the signal name.
#[verifier::external_body]
fn signal_name(s: &zbus::xml::Signal) -> (r: String)
    ensures
        r@ == signal_model(*s).name,
{
    s.name().to_owned()
}

/// Relies on zbus::xml::Signal::args: it returns the signal's
/// arguments, in declaration order.
#[verifier::external_body]
fn signal_args<'a>(s: &'a zbus::xml::Signal) -> (r: Vec<&'a zbus::xml::Arg>)
    ensures
        r@.len() == signal_model(*s).args.len(),
        forall|k: int|
            0 <= k < r@.len() ==> arg_model(*#[trigger] r@[k]) == signal_model(*s).args[k],
{
    s.args()
}

/// Relies on zbus::xml::Arg::name: it returns the argument name, if
/// any.
#[verifier::external_body]
fn arg_name(a: &zbus::xml::Arg) -> (r: Option<String>)
    ensures
        opt_str_view(r) == arg_model(*a).name,
{
    a.name().map(|s| s.to_owned())
}

/// Relies on zbus::xml::Arg::direction: it returns the argument's
/// direction tag, if any.
#[verifier::external_body]
fn arg_direction(a: &zbus::xml::Arg) -> (r: Option<String>)
    ensures
        opt_str_view(r) == arg_model(*a).direction,
{
    a.direction().map(|s| s.to_owned())
}

/// Relies on zbus::xml::Arg::ty: it returns the argument's type
/// string.
#[verifier::external_body]
fn arg_ty(a: &zbus::xml::Arg) -> (r: String)
    ensures
        r@ == arg_model(*a).ty,
{
    a.ty().to_owned()
}

fn convert_args(args: Vec<&zbus::xml::Arg>) -> (out: Vec<Argument>)
    ensures
        out@.len() == args@.len(),
        forall|k: int| 0 <= k < args@.len() ==> (#[trigger] out@[k])@ == arg_model(*args@[k]),
{
    let mut out: Vec<Argument> = Vec::new();
    let n = args.len();
    let mut i: usize = 0;
    while i < n
        invariant
            i <= n,
            n == args@.len(),
            out@.len() == i,
            forall|k: int| 0 <= k < i ==> (#[trigger] out@[k])@ == arg_model(*args@[k]),
        decreases n - i,
    {
        let a = args[i];
        let converted = Argument { name: arg_name(a), direction: arg_direction(a), ty: arg_ty(a) };
        proof {
            assert(converted@ =~= arg_model(*args@[i as int]));
        }
        out.push(converted);
        i = i + 1;
    }
    out
}

fn convert_method(m: &zbus::xml::Method) -> (out: MethodDecl)
    ensures
        out@ == method_model(*m),
{
    let zargs = method_args(m);
    let ghost zargs_view = zargs@;
    let out = MethodDecl { name: method_name(m), args: convert_args(zargs) };
    proof {
        assert(out@.args =~= method_model(*m).args);
        assert(out@ =~= method_model(*m));
    }
    out
}

fn convert_signal(s: &zbus::xml::Signal) -> (out: SignalDecl)
    ensures
        out@ == signal_model(*s),
{
    let zargs = signal_args(s);
    let ghost zargs_view = zargs@;
    let out = SignalDecl { name: signal_name(s), args: convert_args(zargs) };
    proof {
        assert(out@.args =~= signal_model(*s).args);
        assert(out@ =~= signal_model(*s));
    }
    out
}

fn convert_interface(iface: &zbus::xml::Interface) -> (out: InterfaceDecl)
    ensures
        out@ == interface_model(*iface),
{
    let zmethods = interface_methods(iface);
    let mut methods: Vec<MethodDecl> = Vec::new();
    let n = zmethods.len();
    let mut i: usize = 0;
    while i < n
        invariant
            i <= n,
            n == zmethods@.len(),
            zmethods@.len() == interface_model(*iface).methods.len(),
            forall|k: int|
                0 <= k < zmethods@.len() ==> method_model(*#[trigger] zmethods@[k])
                    == interface_model(*iface).methods[k],
            methods@.len() == i,
            forall|k: int|
                0 <= k < i ==> (#[trigger] methods@[k])@ == interface_model(*iface).methods[k],
        decreases n - i,
    {
        let m = zmethods[i];
        methods.push(convert_method(m));
        i = i + 1;
    }
    let zsignals = interface_signals(iface);
    let mut signals: Vec<SignalDecl> = Vec::new();
    let z = zsignals.len();
    let mut j: usize = 0;
    while j < z
        invariant
            j <= z,
            z == zsignals@.len(),
            zsignals@.len() == interface_model(*iface).signals.len(),
            forall|k: int|
                0 <= k < zsignals@.len() ==> signal_model(*#[trigger] zsignals@[k])
                    == interface_model(*iface).signals[k],
            signals@.len() == j,
            forall|k: int|
                0 <= k < j ==> (#[trigger] signals@[k])@ == interface_model(*iface).signals[k],
        decreases z - j,
    {
        let s = zsignals[j];
        signals.push(convert_signal(s));
        j = j + 1;
    }
    let out = InterfaceDecl { name: interface_name(iface), methods, signals };
    proof {
        assert(out@.methods =~= interface_model(*iface).methods);
        assert(out@.signals =~= interface_model(*iface).signals);
        assert(out@ =~= interface_model(*iface));
    }
    out
}

/// Parses one introspection XML document into the library's model:
/// exactly the document the text parses to, as [`parsed_doc`] names
/// it, or `DocumentParseFailure` for text that zbus rejects — the
/// parser's rejection is never swallowed, and no partial document is
/// returned.
pub fn parse_document(xml: &str) -> (r: Result<Document, ResolveError>)
    ensures
        match r {
            Ok(d) => parsed_doc(xml@) == Ok::<DocumentModel, ResolveError>(d@),
            Err(e) => e == ResolveError::DocumentParseFailure && parsed_doc(xml@) == Err::<
                DocumentModel,
                ResolveError,
            >(ResolveError::DocumentParseFailure),
        },
{
    let node = match parse_node(xml) {
        Ok(n) => n,
        Err(_) => {
            return Err(ResolveError::DocumentParseFailure);
        },
    };
    let zifaces = node_interfaces(&node);
    let mut interfaces: Vec<InterfaceDecl> = Vec::new();
    let n = zifaces.len();
    let mut i: usize = 0;
    while i < n
        invariant
            i <= n,
            n == zifaces@.len(),
            parsed_doc(xml@) == Ok::<DocumentModel, ResolveError>(node_model(node)),
            zifaces@.len() == node_model(node).interfaces.len(),
            forall|k: int|
                0 <= k < zifaces@.len() ==> interface_model(*#[trigger] zifaces@[k]) == node_model(
                    node,
                ).interfaces[k],
            interfaces@.len() == i,
            forall|k: int|
                0 <= k < i ==> (#[trigger] interfaces@[k])@ == node_model(node).interfaces[k],
        decreases n - i,
    {
        let iface = zifaces[i];
        interfaces.push(convert_interface(iface));
        i = i + 1;
    }
    let doc = Document { interfaces };
    proof {
        assert(doc@.interfaces =~= node_model(node).interfaces);
        assert(doc@ =~= node_model(node));
    }
    Ok(doc)
}

} // verus!
