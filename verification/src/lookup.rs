//! Interface and member lookup: linear scans that return the first
//! element, in declaration order, whose name equals the requested one
//! (case-sensitive, full string match).

use vstd::prelude::*;

use crate::model::Document;
use crate::model::InterfaceDecl;
use crate::model::InterfaceModel;
use crate::model::MethodDecl;
use crate::model::MethodModel;
use crate::model::ResolveError;
use crate::model::SignalDecl;
use crate::model::SignalModel;

verus! {

/// The first interface in `ifaces` named `name`, if any.
pub open spec fn spec_find_interface(ifaces: Seq<InterfaceModel>, name: Seq<char>) -> Option<
    InterfaceModel,
>
    decreases ifaces.len(),
{
    if ifaces.len() == 0 {
        None
    } else if ifaces[0].name == name {
        Some(ifaces[0])
    } else {
        spec_find_interface(ifaces.drop_first(), name)
    }
}

/// The first method in `methods` named `name`, if any.
pub open spec fn spec_find_method(methods: Seq<MethodModel>, name: Seq<char>) -> Option<
    MethodModel,
>
    decreases methods.len(),
{
    if methods.len() == 0 {
        None
    } else if methods[0].name == name {
        Some(methods[0])
    } else {
        spec_find_method(methods.drop_first(), name)
    }
}

/// The first signal in `signals` named `name`, if any.
pub open spec fn spec_find_signal(signals: Seq<SignalModel>, name: Seq<char>) -> Option<
    SignalModel,
>
    decreases signals.len(),
{
    if signals.len() == 0 {
        None
    } else if signals[0].name == name {
        Some(signals[0])
    } else {
        spec_find_signal(signals.drop_first(), name)
    }
}

/// Interface lookup succeeds exactly when some interface bears the
/// requested name, and what it returns is the first such interface.
pub proof fn lemma_find_interface_characterization(ifaces: Seq<InterfaceModel>, name: Seq<char>)
    ensures
        (spec_find_interface(ifaces, name) is Some) <==> (exists|k: int|
            0 <= k < ifaces.len() && ifaces[k].name == name),
        spec_find_interface(ifaces, name) matches Some(f) ==> exists|k: int|
            0 <= k < ifaces.len() && ifaces[k] == f && f.name == name && (forall|j: int|
                0 <= j < k ==> ifaces[j].name != name),
    decreases ifaces.len(),
{
    if ifaces.len() != 0 && ifaces[0].name != name {
        lemma_find_interface_characterization(ifaces.drop_first(), name);
        let tail = ifaces.drop_first();
        if spec_find_interface(ifaces, name) is Some {
            let f = spec_find_interface(ifaces, name)->Some_0;
            let k = choose|k: int|
                0 <= k < tail.len() && tail[k] == f && f.name == name && (forall|j: int|
                    0 <= j < k ==> tail[j].name != name);
            assert(ifaces[k + 1] == f);
            assert forall|j: int| 0 <= j < k + 1 implies ifaces[j].name != name by {
                if j >= 1 {
                    assert(tail[j - 1] == ifaces[j]);
                }
            }
        }
        if exists|k: int| 0 <= k < ifaces.len() && ifaces[k].name == name {
            let k = choose|k: int| 0 <= k < ifaces.len() && ifaces[k].name == name;
            assert(k >= 1 && tail[k - 1].name == name);
        }
    }
}

/// Returns the first interface of `doc` named `name`, or
/// `InterfaceNotFound` if no interface has that exact name.
pub fn find_interface<'a>(doc: &'a Document, name: &str) -> (r: Result<&'a InterfaceDecl, ResolveError>)
    ensures
        match r {
            Ok(iface) => spec_find_interface(doc@.interfaces, name@) == Some(iface@),
            Err(e) => e == ResolveError::InterfaceNotFound && spec_find_interface(
                doc@.interfaces,
                name@,
            ) is None,
        },
{
    let requested: String = name.to_owned();
    let n = doc.interfaces.len();
    let mut i: usize = 0;
    proof {
        assert(doc@.interfaces.skip(0) =~= doc@.interfaces);
    }
    while i < n
        invariant
            i <= n,
            n == doc.interfaces@.len(),
            requested@ == name@,
            spec_find_interface(doc@.interfaces.skip(i as int), name@) == spec_find_interface(
                doc@.interfaces,
                name@,
            ),
            forall|j: int| 0 <= j < i ==> doc@.interfaces[j].name != name@,
        decreases n - i,
    {
        let ghost ifaces = doc@.interfaces;
        assert(ifaces.skip(i as int)[0] == ifaces[i as int]);
        if doc.interfaces[i].name == requested {
            return Ok(&doc.interfaces[i]);
        }
        proof {
            assert(ifaces.skip(i as int).drop_first() =~= ifaces.skip(i as int + 1));
        }
        i = i + 1;
    }
    proof {
        assert(doc@.interfaces.skip(n as int) =~= Seq::<InterfaceModel>::empty());
    }
    Err(ResolveError::InterfaceNotFound)
}

/// Returns the first method of `iface` named `name`, or
/// `MemberNotFound` if no method has that exact name. Lookup is scoped
/// to the interface's own method list: a signal sharing the name does
/// not match.
pub fn find_method<'a>(iface: &'a InterfaceDecl, name: &str) -> (r: Result<&'a MethodDecl, ResolveError>)
    ensures
        match r {
            Ok(m) => spec_find_method(iface@.methods, name@) == Some(m@),
            Err(e) => e == ResolveError::MemberNotFound && spec_find_method(
                iface@.methods,
                name@,
            ) is None,
        },
{
    let requested: String = name.to_owned();
    let n = iface.methods.len();
    let mut i: usize = 0;
    proof {
        assert(iface@.methods.skip(0) =~= iface@.methods);
    }
    while i < n
        invariant
            i <= n,
            n == iface.methods@.len(),
            requested@ == name@,
            spec_find_method(iface@.methods.skip(i as int), name@) == spec_find_method(
                iface@.methods,
                name@,
            ),
        decreases n - i,
    {
        let ghost methods = iface@.methods;
        assert(methods.skip(i as int)[0] == methods[i as int]);
        if iface.methods[i].name == requested {
            return Ok(&iface.methods[i]);
        }
        proof {
            assert(methods.skip(i as int).drop_first() =~= methods.skip(i as int + 1));
        }
        i = i + 1;
    }
    proof {
        assert(iface@.methods.skip(n as int) =~= Seq::<MethodModel>::empty());
    }
    Err(ResolveError::MemberNotFound)
}

/// Returns the first signal of `iface` named `name`, or
/// `MemberNotFound` if no signal has that exact name. Lookup is scoped
/// to the interface's own signal list: a method sharing the name does
/// not match.
pub fn find_signal<'a>(iface: &'a InterfaceDecl, name: &str) -> (r: Result<&'a SignalDecl, ResolveError>)
    ensures
        match r {
            Ok(s) => spec_find_signal(iface@.signals, name@) == Some(s@),
            Err(e) => e == ResolveError::MemberNotFound && spec_find_signal(
                iface@.signals,
                name@,
            ) is None,
        },
{
    let requested: String = name.to_owned();
    let n = iface.signals.len();
    let mut i: usize = 0;
    proof {
        assert(iface@.signals.skip(0) =~= iface@.signals);
    }
    while i < n
        invariant
            i <= n,
            n == iface.signals@.len(),
            requested@ == name@,
            spec_find_signal(iface@.signals.skip(i as int), name@) == spec_find_signal(
                iface@.signals,
                name@,
            ),
        decreases n - i,
    {
        let ghost signals = iface@.signals;
        assert(signals.skip(i as int)[0] == signals[i as int]);
        if iface.signals[i].name == requested {
            return Ok(&iface.signals[i]);
        }
        proof {
            assert(signals.skip(i as int).drop_first() =~= signals.skip(i as int + 1));
        }
        i = i + 1;
    }
    proof {
        assert(iface@.signals.skip(n as int) =~= Seq::<SignalModel>::empty());
    }
    Err(ResolveError::MemberNotFound)
}

} // verus!
