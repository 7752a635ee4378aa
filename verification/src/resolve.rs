//! Argument selection and signature materialization: the signal-argument
//! resolver, the method-return resolver, and the event-body composer.

use vstd::prelude::*;
use vstd::string::StringExecFns;

use crate::model::ArgModel;
use crate::model::MethodDecl;
use crate::model::ResolveError;
use crate::model::SignalDecl;
use crate::model::opt_str_view;

verus! {

/// The first argument whose (optional) name equals the requested one,
/// if any. A request for `None` selects the first unnamed argument.
pub open spec fn spec_find_arg_named(args: Seq<ArgModel>, requested: Option<Seq<char>>) -> Option<
    ArgModel,
>
    decreases args.len(),
{
    if args.len() == 0 {
        None
    } else if args[0].name == requested {
        Some(args[0])
    } else {
        spec_find_arg_named(args.drop_first(), requested)
    }
}

/// Whether an argument's direction tag is exactly `out`.
pub open spec fn spec_is_out(a: ArgModel) -> bool {
    a.direction == Some("out"@)
}

/// The first argument tagged with the `out` direction, if any.
pub open spec fn spec_find_out_arg(args: Seq<ArgModel>) -> Option<ArgModel>
    decreases args.len(),
{
    if args.len() == 0 {
        None
    } else if spec_is_out(args[0]) {
        Some(args[0])
    } else {
        spec_find_out_arg(args.drop_first())
    }
}

/// The type strings of `args`, concatenated in declaration order.
pub open spec fn spec_concat_types(args: Seq<ArgModel>) -> Seq<char>
    decreases args.len(),
{
    if args.len() == 0 {
        Seq::empty()
    } else {
        args[0].ty + spec_concat_types(args.drop_first())
    }
}

/// The composite signature of a signal's whole payload: the
/// concatenated argument type strings wrapped in one parenthesized
/// aggregate. Zero arguments yield the empty aggregate `()`.
pub open spec fn spec_event_body(args: Seq<ArgModel>) -> Seq<char> {
    seq!['('] + spec_concat_types(args) + seq![')']
}

/// Concatenation over one more argument appends that argument's type
/// string.
pub proof fn lemma_concat_types_push(args: Seq<ArgModel>, a: ArgModel)
    ensures
        spec_concat_types(args.push(a)) == spec_concat_types(args) + a.ty,
    decreases args.len(),
{
    if args.len() == 0 {
        assert(args.push(a).drop_first() =~= Seq::<ArgModel>::empty());
        assert(a.ty + spec_concat_types(Seq::empty()) =~= a.ty);
        assert(spec_concat_types(args) + a.ty =~= a.ty);
    } else {
        assert(args.push(a).drop_first() =~= args.drop_first().push(a));
        lemma_concat_types_push(args.drop_first(), a);
        assert(args[0].ty + (spec_concat_types(args.drop_first()) + a.ty) =~= (args[0].ty
            + spec_concat_types(args.drop_first())) + a.ty);
    }
}

/// Returns the type signature of the first argument of `sig` whose
/// name equals `requested` (case-sensitive, full string match), or
/// `ArgumentNotFound` if no argument has that name.
pub fn signal_arg_signature(sig: &SignalDecl, requested: Option<&str>) -> (r: Result<
    String,
    ResolveError,
>)
    ensures
        match r {
            Ok(t) => spec_find_arg_named(sig@.args, req_view(requested)) matches Some(a) && t@
                == a.ty,
            Err(e) => e == ResolveError::ArgumentNotFound && spec_find_arg_named(
                sig@.args,
                req_view(requested),
            ) is None,
        },
{
    let req: Option<String> = match requested {
        Some(s) => Some(s.to_owned()),
        None => None,
    };
    let n = sig.args.len();
    let mut i: usize = 0;
    proof {
        assert(sig@.args.skip(0) =~= sig@.args);
    }
    while i < n
        invariant
            i <= n,
            n == sig.args@.len(),
            opt_str_view(req) == req_view(requested),
            spec_find_arg_named(sig@.args.skip(i as int), req_view(requested))
                == spec_find_arg_named(sig@.args, req_view(requested)),
        decreases n - i,
    {
        let ghost args = sig@.args;
        assert(args.skip(i as int)[0] == args[i as int]);
        let a = &sig.args[i];
        proof {
            assert(args[i as int] == sig.args@[i as int]@);
        }
        let matched: bool = match (&a.name, &req) {
            (Some(have), Some(want)) => *have == *want,
            (None, None) => true,
            _ => false,
        };
        proof {
            assert(matched == (args[i as int].name == opt_str_view(req)));
        }
        if matched {
            return Ok(a.ty.clone());
        }
        proof {
            assert(args.skip(i as int).drop_first() =~= args.skip(i as int + 1));
        }
        i = i + 1;
    }
    proof {
        assert(sig@.args.skip(n as int) =~= Seq::<ArgModel>::empty());
    }
    Err(ResolveError::ArgumentNotFound)
}

/// The mathematical value of an optional requested argument name.
pub open spec fn req_view(requested: Option<&str>) -> Option<Seq<char>> {
    match requested {
        Some(s) => Some(s@),
        None => None,
    }
}

/// Returns the type signature of the first `out`-direction argument of
/// `m`, in declaration order, or `NoOutputArgument` if every argument
/// lacks the `out` tag. If a method declares several `out` arguments,
/// only the first is used: at most one meaningful return value is
/// modeled.
pub fn method_return_signature(m: &MethodDecl) -> (r: Result<String, ResolveError>)
    ensures
        match r {
            Ok(t) => spec_find_out_arg(m@.args) matches Some(a) && t@ == a.ty,
            Err(e) => e == ResolveError::NoOutputArgument && spec_find_out_arg(m@.args) is None,
        },
{
    let out_tag: String = "out".to_owned();
    let n = m.args.len();
    let mut i: usize = 0;
    proof {
        assert(m@.args.skip(0) =~= m@.args);
    }
    while i < n
        invariant
            i <= n,
            n == m.args@.len(),
            out_tag@ == "out"@,
            spec_find_out_arg(m@.args.skip(i as int)) == spec_find_out_arg(m@.args),
        decreases n - i,
    {
        let ghost args = m@.args;
        assert(args.skip(i as int)[0] == args[i as int]);
        let is_out: bool = match &m.args[i].direction {
            Some(d) => *d == out_tag,
            None => false,
        };
        if is_out {
            return Ok(m.args[i].ty.clone());
        }
        proof {
            assert(args.skip(i as int).drop_first() =~= args.skip(i as int + 1));
        }
        i = i + 1;
    }
    proof {
        assert(m@.args.skip(n as int) =~= Seq::<ArgModel>::empty());
    }
    Err(ResolveError::NoOutputArgument)
}

/// Composes the signature of the whole event payload of `sig`: every
/// argument's type string, in declaration order and regardless of
/// argument names, concatenated and wrapped in one parenthesized
/// aggregate. A signal without arguments yields `()`. Type strings are
/// never validated here: an ill-formed string from the document is
/// propagated verbatim.
pub fn event_body_signature(sig: &SignalDecl) -> (r: String)
    ensures
        r@ == spec_event_body(sig@.args),
{
    let mut out = String::new();
    out.append("(");
    proof {
        reveal_strlit("(");
        assert("("@ =~= seq!['(']);
        assert(sig@.args.take(0) =~= Seq::<ArgModel>::empty());
        assert(out@ =~= seq!['('] + spec_concat_types(sig@.args.take(0)));
    }
    let n = sig.args.len();
    let mut i: usize = 0;
    while i < n
        invariant
            i <= n,
            n == sig.args@.len(),
            out@ == seq!['('] + spec_concat_types(sig@.args.take(i as int)),
        decreases n - i,
    {
        let ghost args = sig@.args;
        out.append(sig.args[i].ty.as_str());
        proof {
            assert(args.take(i as int + 1) =~= args.take(i as int).push(args[i as int]));
            lemma_concat_types_push(args.take(i as int), args[i as int]);
            assert(out@ =~= seq!['('] + spec_concat_types(args.take(i as int + 1)));
        }
        i = i + 1;
    }
    out.append(")");
    proof {
        reveal_strlit(")");
        assert(")"@ =~= seq![')']);
        assert(sig@.args.take(n as int) =~= sig@.args);
        assert(out@ =~= spec_event_body(sig@.args));
    }
    out
}

} // verus!
