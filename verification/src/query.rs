//! The three entry points, sharing one pipeline: locate the interface
//! by name, locate the member by name within it, select or aggregate
//! the argument type strings, and materialize the result as a
//! wire-format signature value.

use vstd::prelude::*;

use crate::lookup::find_interface;
use crate::lookup::find_method;
use crate::lookup::find_signal;
use crate::lookup::spec_find_interface;
use crate::lookup::spec_find_method;
use crate::lookup::spec_find_signal;
use crate::model::Document;
use crate::model::DocumentModel;
use crate::model::ResolveError;
use crate::resolve::event_body_signature;
use crate::resolve::method_return_signature;
use crate::resolve::req_view;
use crate::resolve::signal_arg_signature;
use crate::resolve::spec_event_body;
use crate::resolve::spec_find_arg_named;
use crate::resolve::spec_find_out_arg;
use crate::zbus_api::parse_document;
use crate::zbus_api::parsed_doc;
use crate::zbus_api::signature_chars;
use crate::zbus_api::signature_from_string;

verus! {

/// The signature of one named argument of a signal, or the error that
/// the request earns: the declared type string of the first argument
/// of the first signal named `member` of the first interface named
/// `iface` whose name equals `requested`.
pub open spec fn spec_signal_body_type(
    doc: DocumentModel,
    iface: Seq<char>,
    member: Seq<char>,
    requested: Option<Seq<char>>,
) -> Result<Seq<char>, ResolveError> {
    match spec_find_interface(doc.interfaces, iface) {
        None => Err(ResolveError::InterfaceNotFound),
        Some(i) => match spec_find_signal(i.signals, member) {
            None => Err(ResolveError::MemberNotFound),
            Some(s) => match spec_find_arg_named(s.args, requested) {
                None => Err(ResolveError::ArgumentNotFound),
                Some(a) => Ok(a.ty),
            },
        },
    }
}

/// The signature of a method's return value, or the error that the
/// request earns: the declared type string of the first
/// `out`-direction argument of the first method named `member` of the
/// first interface named `iface`.
pub open spec fn spec_method_return_type(
    doc: DocumentModel,
    iface: Seq<char>,
    member: Seq<char>,
) -> Result<Seq<char>, ResolveError> {
    match spec_find_interface(doc.interfaces, iface) {
        None => Err(ResolveError::InterfaceNotFound),
        Some(i) => match spec_find_method(i.methods, member) {
            None => Err(ResolveError::MemberNotFound),
            Some(m) => match spec_find_out_arg(m.args) {
                None => Err(ResolveError::NoOutputArgument),
                Some(a) => Ok(a.ty),
            },
        },
    }
}

/// The composite signature of a signal's whole event payload, or the
/// error that the request earns: the type strings of all arguments of
/// the first signal named `member` of the first interface named
/// `iface`, concatenated in declaration order and wrapped in one
/// parenthesized aggregate.
pub open spec fn spec_event_body_type(
    doc: DocumentModel,
    iface: Seq<char>,
    member: Seq<char>,
) -> Result<Seq<char>, ResolveError> {
    match spec_find_interface(doc.interfaces, iface) {
        None => Err(ResolveError::InterfaceNotFound),
        Some(i) => match spec_find_signal(i.signals, member) {
            None => Err(ResolveError::MemberNotFound),
            Some(s) => Ok(spec_event_body(s.args)),
        },
    }
}

/// Resolves the declared type signature of the signal argument named
/// `requested` within the signal `member_name` of the interface
/// `interface_name` of `doc`.
pub fn resolve_signal_body_type(
    doc: &Document,
    interface_name: &str,
    member_name: &str,
    requested: Option<&str>,
) -> (r: Result<zbus::zvariant::Signature<'static>, ResolveError>)
    ensures
        match r {
            Ok(sig) => spec_signal_body_type(
                doc@,
                interface_name@,
                member_name@,
                req_view(requested),
            ) == Ok::<Seq<char>, ResolveError>(signature_chars(sig)),
            Err(e) => spec_signal_body_type(
                doc@,
                interface_name@,
                member_name@,
                req_view(requested),
            ) == Err::<Seq<char>, ResolveError>(e),
        },
{
    let iface = match find_interface(doc, interface_name) {
        Ok(i) => i,
        Err(e) => {
            return Err(e);
        },
    };
    let sig = match find_signal(iface, member_name) {
        Ok(s) => s,
        Err(e) => {
            return Err(e);
        },
    };
    let ty = match signal_arg_signature(sig, requested) {
        Ok(t) => t,
        Err(e) => {
            return Err(e);
        },
    };
    Ok(signature_from_string(ty))
}

/// Resolves the declared type signature of the return value of the
/// method `member_name` of the interface `interface_name` of `doc`.
pub fn resolve_method_return_type(doc: &Document, interface_name: &str, member_name: &str) -> (r:
    Result<zbus::zvariant::Signature<'static>, ResolveError>)
    ensures
        match r {
            Ok(sig) => spec_method_return_type(doc@, interface_name@, member_name@) == Ok::<
                Seq<char>,
                ResolveError,
            >(signature_chars(sig)),
            Err(e) => spec_method_return_type(doc@, interface_name@, member_name@) == Err::<
                Seq<char>,
                ResolveError,
            >(e),
        },
{
    let iface = match find_interface(doc, interface_name) {
        Ok(i) => i,
        Err(e) => {
            return Err(e);
        },
    };
    let method = match find_method(iface, member_name) {
        Ok(m) => m,
        Err(e) => {
            return Err(e);
        },
    };
    let ty = match method_return_signature(method) {
        Ok(t) => t,
        Err(e) => {
            return Err(e);
        },
    };
    Ok(signature_from_string(ty))
}

/// Resolves the composite signature of the whole event payload of the
/// signal `member_name` of the interface `interface_name` of `doc`.
pub fn resolve_event_body_type(doc: &Document, interface_name: &str, member_name: &str) -> (r:
    Result<zbus::zvariant::Signature<'static>, ResolveError>)
    ensures
        match r {
            Ok(sig) => spec_event_body_type(doc@, interface_name@, member_name@) == Ok::<
                Seq<char>,
                ResolveError,
            >(signature_chars(sig)),
            Err(e) => spec_event_body_type(doc@, interface_name@, member_name@) == Err::<
                Seq<char>,
                ResolveError,
            >(e),
        },
{
    let iface = match find_interface(doc, interface_name) {
        Ok(i) => i,
        Err(e) => {
            return Err(e);
        },
    };
    let sig = match find_signal(iface, member_name) {
        Ok(s) => s,
        Err(e) => {
            return Err(e);
        },
    };
    let body = event_body_signature(sig);
    Ok(signature_from_string(body))
}

/// Parses `xml` and resolves a signal-argument signature in it: the
/// result is exactly the resolution of the document the text parses
/// to, as [`parsed_doc`] names it, and text the parser rejects earns
/// `DocumentParseFailure` — never a success and never a silent empty
/// result.
pub fn signal_body_type_from_xml(
    xml: &str,
    interface_name: &str,
    member_name: &str,
    requested: Option<&str>,
) -> (r: Result<zbus::zvariant::Signature<'static>, ResolveError>)
    ensures
        match r {
            Ok(sig) => parsed_doc(xml@) matches Ok(d) && spec_signal_body_type(
                d,
                interface_name@,
                member_name@,
                req_view(requested),
            ) == Ok::<Seq<char>, ResolveError>(signature_chars(sig)),
            Err(e) => match parsed_doc(xml@) {
                Ok(d) => spec_signal_body_type(
                    d,
                    interface_name@,
                    member_name@,
                    req_view(requested),
                ) == Err::<Seq<char>, ResolveError>(e),
                Err(pe) => e == pe,
            },
        },
{
    let doc = match parse_document(xml) {
        Ok(d) => d,
        Err(e) => {
            return Err(e);
        },
    };
    resolve_signal_body_type(&doc, interface_name, member_name, requested)
}

/// Parses `xml` and resolves a method-return signature in it: the
/// result is exactly the resolution of the document the text parses
/// to, as [`parsed_doc`] names it, and text the parser rejects earns
/// `DocumentParseFailure`.
pub fn method_return_type_from_xml(xml: &str, interface_name: &str, member_name: &str) -> (r:
    Result<zbus::zvariant::Signature<'static>, ResolveError>)
    ensures
        match r {
            Ok(sig) => parsed_doc(xml@) matches Ok(d) && spec_method_return_type(
                d,
                interface_name@,
                member_name@,
            ) == Ok::<Seq<char>, ResolveError>(signature_chars(sig)),
            Err(e) => match parsed_doc(xml@) {
                Ok(d) => spec_method_return_type(d, interface_name@, member_name@) == Err::<
                    Seq<char>,
                    ResolveError,
                >(e),
                Err(pe) => e == pe,
            },
        },
{
    let doc = match parse_document(xml) {
        Ok(d) => d,
        Err(e) => {
            return Err(e);
        },
    };
    resolve_method_return_type(&doc, interface_name, member_name)
}

/// Parses `xml` and composes an event-body signature from it: the
/// result is exactly the resolution of the document the text parses
/// to, as [`parsed_doc`] names it, and text the parser rejects earns
/// `DocumentParseFailure`.
pub fn event_body_type_from_xml(xml: &str, interface_name: &str, member_name: &str) -> (r: Result<
    zbus::zvariant::Signature<'static>,
    ResolveError,
>)
    ensures
        match r {
            Ok(sig) => parsed_doc(xml@) matches Ok(d) && spec_event_body_type(
                d,
                interface_name@,
                member_name@,
            ) == Ok::<Seq<char>, ResolveError>(signature_chars(sig)),
            Err(e) => match parsed_doc(xml@) {
                Ok(d) => spec_event_body_type(d, interface_name@, member_name@) == Err::<
                    Seq<char>,
                    ResolveError,
                >(e),
                Err(pe) => e == pe,
            },
        },
{
    let doc = match parse_document(xml) {
        Ok(d) => d,
        Err(e) => {
            return Err(e);
        },
    };
    resolve_event_body_type(&doc, interface_name, member_name)
}

} // verus!
