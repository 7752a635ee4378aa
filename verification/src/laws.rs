//! Laws of the resolvers, stated and proved over the same spec
//! functions that the executable functions' contracts use.

use vstd::prelude::*;

use crate::lookup::lemma_find_interface_characterization;
use crate::lookup::spec_find_interface;
use crate::lookup::spec_find_method;
use crate::lookup::spec_find_signal;
use crate::model::ArgModel;
use crate::model::DocumentModel;
use crate::model::InterfaceModel;
use crate::model::MethodModel;
use crate::model::ResolveError;
use crate::model::SignalModel;
use crate::query::spec_event_body_type;
use crate::query::spec_method_return_type;
use crate::query::spec_signal_body_type;
use crate::resolve::spec_concat_types;
use crate::resolve::spec_event_body;
use crate::resolve::spec_find_arg_named;
use crate::resolve::spec_find_out_arg;
use crate::resolve::spec_is_out;

verus! {

/// `find_interface` followed by `find_method` is deterministic: two
/// lookups with identical inputs yield identical results, there being
/// no hidden state. Any two results that meet the lookup contracts —
/// the interface found in the document, then the method found within
/// it — coincide.
pub proof fn lemma_method_lookup_deterministic(
    doc: DocumentModel,
    iface_name: Seq<char>,
    member_name: Seq<char>,
    first: Option<InterfaceModel>,
    second: Option<InterfaceModel>,
    first_member: Option<MethodModel>,
    second_member: Option<MethodModel>,
)
    requires
        first == spec_find_interface(doc.interfaces, iface_name),
        second == spec_find_interface(doc.interfaces, iface_name),
        first matches Some(i) ==> first_member == spec_find_method(i.methods, member_name),
        first is None ==> first_member is None,
        second matches Some(i) ==> second_member == spec_find_method(i.methods, member_name),
        second is None ==> second_member is None,
    ensures
        first == second,
        first_member == second_member,
{
}

/// `find_interface` followed by `find_signal` is deterministic: two
/// lookups with identical inputs yield identical results, there being
/// no hidden state.
pub proof fn lemma_signal_lookup_deterministic(
    doc: DocumentModel,
    iface_name: Seq<char>,
    member_name: Seq<char>,
    first: Option<InterfaceModel>,
    second: Option<InterfaceModel>,
    first_member: Option<SignalModel>,
    second_member: Option<SignalModel>,
)
    requires
        first == spec_find_interface(doc.interfaces, iface_name),
        second == spec_find_interface(doc.interfaces, iface_name),
        first matches Some(i) ==> first_member == spec_find_signal(i.signals, member_name),
        first is None ==> first_member is None,
        second matches Some(i) ==> second_member == spec_find_signal(i.signals, member_name),
        second is None ==> second_member is None,
    ensures
        first == second,
        first_member == second_member,
{
}

/// Resolving the same (document, interface, member, argument) tuple
/// twice yields byte-identical signatures: each resolution equals a
/// function of that tuple alone, as the resolvers' contracts state, so
/// any two results of the same request coincide.
pub proof fn lemma_resolution_idempotent(
    doc: DocumentModel,
    iface_name: Seq<char>,
    member_name: Seq<char>,
    requested: Option<Seq<char>>,
    first_signal_arg: Result<Seq<char>, ResolveError>,
    second_signal_arg: Result<Seq<char>, ResolveError>,
    first_return: Result<Seq<char>, ResolveError>,
    second_return: Result<Seq<char>, ResolveError>,
    first_event: Result<Seq<char>, ResolveError>,
    second_event: Result<Seq<char>, ResolveError>,
)
    requires
        first_signal_arg == spec_signal_body_type(doc, iface_name, member_name, requested),
        second_signal_arg == spec_signal_body_type(doc, iface_name, member_name, requested),
        first_return == spec_method_return_type(doc, iface_name, member_name),
        second_return == spec_method_return_type(doc, iface_name, member_name),
        first_event == spec_event_body_type(doc, iface_name, member_name),
        second_event == spec_event_body_type(doc, iface_name, member_name),
    ensures
        first_signal_arg == second_signal_arg,
        first_return == second_return,
        first_event == second_event,
{
}

/// Signal-argument matching is name-exact: a found argument bears
/// exactly the requested name, and when no argument bears it the
/// lookup finds nothing. A request therefore never matches a
/// differently-cased name.
pub proof fn lemma_signal_arg_match_exact(args: Seq<ArgModel>, requested: Option<Seq<char>>)
    ensures
        spec_find_arg_named(args, requested) matches Some(a) ==> a.name == requested,
        (spec_find_arg_named(args, requested) is None) <==> (forall|k: int|
            0 <= k < args.len() ==> args[k].name != requested),
    decreases args.len(),
{
    if args.len() != 0 && args[0].name != requested {
        lemma_signal_arg_match_exact(args.drop_first(), requested);
        let tail = args.drop_first();
        assert(forall|k: int| 0 <= k < tail.len() ==> tail[k] == args[k + 1]);
        if spec_find_arg_named(args, requested) is None {
            assert forall|k: int| 0 <= k < args.len() implies args[k].name != requested by {
                if k >= 1 {
                    assert(args[k] == tail[k - 1]);
                }
            }
        }
    }
}

/// Method-return resolution selects the first `out`-direction argument
/// in declaration order; a method with no `out` argument (one with
/// only `in` arguments among them) resolves to nothing.
pub proof fn lemma_method_return_selects_first_out(args: Seq<ArgModel>)
    ensures
        spec_find_out_arg(args) matches Some(a) ==> exists|k: int|
            0 <= k < args.len() && args[k] == a && spec_is_out(a) && (forall|j: int|
                0 <= j < k ==> !spec_is_out(args[j])),
        (spec_find_out_arg(args) is None) <==> (forall|k: int|
            0 <= k < args.len() ==> !spec_is_out(args[k])),
    decreases args.len(),
{
    if args.len() != 0 && !spec_is_out(args[0]) {
        lemma_method_return_selects_first_out(args.drop_first());
        let tail = args.drop_first();
        assert(forall|k: int| 0 <= k < tail.len() ==> tail[k] == args[k + 1]);
        if spec_find_out_arg(args) is None {
            assert forall|k: int| 0 <= k < args.len() implies !spec_is_out(args[k]) by {
                if k >= 1 {
                    assert(args[k] == tail[k - 1]);
                }
            }
        }
        if spec_find_out_arg(args) is Some {
            let a = spec_find_out_arg(args)->Some_0;
            let k = choose|k: int|
                0 <= k < tail.len() && tail[k] == a && spec_is_out(a) && (forall|j: int|
                    0 <= j < k ==> !spec_is_out(tail[j]));
            assert(args[k + 1] == a);
            assert forall|j: int| 0 <= j < k + 1 implies !spec_is_out(args[j]) by {
                if j >= 1 {
                    assert(tail[j - 1] == args[j]);
                }
            }
        }
    }
}

/// Event-body composition depends on the argument type strings alone:
/// two argument lists with the same type strings in the same order
/// compose to the same signature, whatever their names and directions.
pub proof fn lemma_event_body_ignores_names(first: Seq<ArgModel>, second: Seq<ArgModel>)
    requires
        first.len() == second.len(),
        forall|k: int| 0 <= k < first.len() ==> first[k].ty == second[k].ty,
    ensures
        spec_concat_types(first) == spec_concat_types(second),
        spec_event_body(first) == spec_event_body(second),
    decreases first.len(),
{
    if first.len() != 0 {
        let ft = first.drop_first();
        let st = second.drop_first();
        assert(forall|k: int| 0 <= k < ft.len() ==> ft[k] == first[k + 1] && st[k] == second[k
            + 1]);
        lemma_event_body_ignores_names(ft, st);
        assert(first[0].ty == second[0].ty);
        assert(spec_concat_types(first) == first[0].ty + spec_concat_types(ft));
        assert(spec_concat_types(second) == second[0].ty + spec_concat_types(st));
        assert(spec_concat_types(first) == spec_concat_types(second));
    } else {
        assert(spec_concat_types(first) == spec_concat_types(second));
    }
}

/// A signal without arguments composes to the empty aggregate `()`.
pub proof fn lemma_event_body_empty()
    ensures
        spec_event_body(Seq::<ArgModel>::empty()) == "()"@,
{
    reveal_strlit("()");
    assert(spec_event_body(Seq::<ArgModel>::empty()) =~= "()"@);
}

/// A request naming an interface that no interface of the document
/// bears resolves to `InterfaceNotFound` in each of the three
/// resolvers — never to a silent empty result.
pub proof fn lemma_unknown_interface(
    doc: DocumentModel,
    iface_name: Seq<char>,
    member_name: Seq<char>,
    requested: Option<Seq<char>>,
)
    requires
        forall|k: int| 0 <= k < doc.interfaces.len() ==> doc.interfaces[k].name != iface_name,
    ensures
        spec_signal_body_type(doc, iface_name, member_name, requested) == Err::<
            Seq<char>,
            ResolveError,
        >(ResolveError::InterfaceNotFound),
        spec_method_return_type(doc, iface_name, member_name) == Err::<Seq<char>, ResolveError>(
            ResolveError::InterfaceNotFound,
        ),
        spec_event_body_type(doc, iface_name, member_name) == Err::<Seq<char>, ResolveError>(
            ResolveError::InterfaceNotFound,
        ),
{
    lemma_find_interface_characterization(doc.interfaces, iface_name);
}

} // verus!

