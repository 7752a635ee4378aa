//! The data model of an introspection document: a tree of interfaces,
//! each owning methods and signals, whose arguments carry the
//! wire-format type strings that the resolvers read.

use vstd::prelude::*;

verus! {

/// One argument of a method or signal: an optional name, an optional
/// direction tag (`"in"` or `"out"`; signals carry none), and the
/// mandatory wire-format type string.
pub struct Argument {
    pub name: Option<String>,
    pub direction: Option<String>,
    pub ty: String,
}

/// The mathematical value of an [`Argument`].
#[verifier::ext_equal]
pub ghost struct ArgModel {
    pub name: Option<Seq<char>>,
    pub direction: Option<Seq<char>>,
    pub ty: Seq<char>,
}

/// The mathematical value of an optional string.
pub open spec fn opt_str_view(o: Option<String>) -> Option<Seq<char>> {
    match o {
        Some(s) => Some(s@),
        None => None,
    }
}

impl View for Argument {
    type V = ArgModel;

    open spec fn view(&self) -> ArgModel {
        ArgModel {
            name: opt_str_view(self.name),
            direction: opt_str_view(self.direction),
            ty: self.ty@,
        }
    }
}

/// A request/response member of an interface; its arguments are tagged
/// `in` or `out`.
pub struct MethodDecl {
    pub name: String,
    pub args: Vec<Argument>,
}

/// The mathematical value of a [`MethodDecl`].
#[verifier::ext_equal]
pub ghost struct MethodModel {
    pub name: Seq<char>,
    pub args: Seq<ArgModel>,
}

impl View for MethodDecl {
    type V = MethodModel;

    open spec fn view(&self) -> MethodModel {
        MethodModel { name: self.name@, args: self.args@.map_values(|a: Argument| a@) }
    }
}

/// A one-way member of an interface; its arguments carry no direction
/// tag, but may carry a name used as a discriminator.
pub struct SignalDecl {
    pub name: String,
    pub args: Vec<Argument>,
}

/// The mathematical value of a [`SignalDecl`].
#[verifier::ext_equal]
pub ghost struct SignalModel {
    pub name: Seq<char>,
    pub args: Seq<ArgModel>,
}

impl View for SignalDecl {
    type V = SignalModel;

    open spec fn view(&self) -> SignalModel {
        SignalModel { name: self.name@, args: self.args@.map_values(|a: Argument| a@) }
    }
}

/// A named interface with its methods and signals in declaration order.
pub struct InterfaceDecl {
    pub name: String,
    pub methods: Vec<MethodDecl>,
    pub signals: Vec<SignalDecl>,
}

/// The mathematical value of an [`InterfaceDecl`].
#[verifier::ext_equal]
pub ghost struct InterfaceModel {
    pub name: Seq<char>,
    pub methods: Seq<MethodModel>,
    pub signals: Seq<SignalModel>,
}

impl View for InterfaceDecl {
    type V = InterfaceModel;

    open spec fn view(&self) -> InterfaceModel {
        InterfaceModel {
            name: self.name@,
            methods: self.methods@.map_values(|m: MethodDecl| m@),
            signals: self.signals@.map_values(|s: SignalDecl| s@),
        }
    }
}

/// An introspection document: the interfaces read from one XML source.
pub struct Document {
    pub interfaces: Vec<InterfaceDecl>,
}

/// The mathematical value of a [`Document`].
#[verifier::ext_equal]
pub ghost struct DocumentModel {
    pub interfaces: Seq<InterfaceModel>,
}

impl View for Document {
    type V = DocumentModel;

    open spec fn view(&self) -> DocumentModel {
        DocumentModel { interfaces: self.interfaces@.map_values(|i: InterfaceDecl| i@) }
    }
}

/// Why a resolution failed. Every failure surfaces as one of these;
/// none is swallowed or defaulted.
#[derive(Clone, Copy, Debug, PartialEq, Eq, Structural)]
pub enum ResolveError {
    /// The document file could not be read.
    DocumentReadFailure,
    /// The document text is not a well-formed introspection document.
    DocumentParseFailure,
    /// No interface in the document has the requested name.
    InterfaceNotFound,
    /// No member of the requested kind in the interface has the
    /// requested name.
    MemberNotFound,
    /// No argument of the signal has the requested name. The variant
    /// is deliberately fieldless, so results compare by value; a
    /// caller that wants a diagnostic — the signal and the set of
    /// argument names it does declare — reads them from the
    /// `SignalDecl` it resolved against, which is plain data.
    ArgumentNotFound,
    /// No argument of the method is tagged with the `out` direction.
    NoOutputArgument,
}

} // verus!
