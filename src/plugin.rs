//! The plan of the declarations that stand in for a plugin function.
use vstd::prelude::*;

use crate::generics::{
    generic_param_to_phantom_type,
    phantoms_of,
    GenericParamError,
    PhantomType,
};
use crate::shape::{GenericParamShape, SignatureShape, WherePredicateShape};
use crate::signature::{arg_ident, is_signature_valid, typed_fn_arg_ident, valid_signature};

verus! {

/// Why a function cannot become a plugin.
pub enum PluginError {
    /// The signature is not `fn name(arg: &mut App)`.
    InvalidSignature,
    /// A generic parameter cannot be bound in an owned type.
    Param(GenericParamError),
}

/// What to emit for a plugin function.
///
/// Without generics the plugin is a unit struct that derives `Default`.
/// With generics it holds one `PhantomData` field over the tuple of
/// `markers`, and `Default` is written by hand so that no parameter needs a
/// `Default` bound. Either way its `build` method takes the application as
/// `app_arg`, or as `_` when that is `None`, and runs the function's body.
pub struct PluginPlan {
    pub markers: Option<Vec<PhantomType>>,
    pub app_arg: Option<String>,
}

/// `plan` binds exactly the generic parameters whose markers are `markers`.
pub open spec fn plan_markers_are(plan: PluginPlan, markers: Seq<PhantomType>) -> bool {
    if markers.len() == 0 {
        plan.markers is None
    } else {
        plan.markers matches Some(v) && v@ == markers
    }
}

/// An error on a prefix of the parameters is the error of the whole list.
proof fn lemma_prefix_error(
    params: Seq<GenericParamShape>,
    where_clause: Option<Vec<WherePredicateShape>>,
    i: int,
)
    requires
        0 <= i <= params.len(),
        phantoms_of(params.take(i), where_clause) is Err,
    ensures
        phantoms_of(params, where_clause) == phantoms_of(params.take(i), where_clause),
    decreases params.len() - i,
{
    if i < params.len() {
        let next = params.take(i + 1);
        assert(next.drop_last() =~= params.take(i));
        lemma_prefix_error(params, where_clause, i + 1);
    } else {
        assert(params.take(i) =~= params);
    }
}

/// The markers of all generic parameters, in order, or the error of the
/// first parameter that has none.
pub fn phantom_types(
    params: &Vec<GenericParamShape>,
    where_clause: &Option<Vec<WherePredicateShape>>,
) -> (r: Result<Vec<PhantomType>, GenericParamError>)
    ensures
        match r {
            Ok(v) => phantoms_of(params@, *where_clause) == Ok::<_, GenericParamError>(v@),
            Err(e) => phantoms_of(params@, *where_clause) == Err::<Seq<PhantomType>, _>(e),
        },
{
    let mut out: Vec<PhantomType> = Vec::new();
    let mut i: usize = 0;
    assert(params@.take(0) =~= Seq::<GenericParamShape>::empty());
    while i < params.len()
        invariant
            i <= params@.len(),
            phantoms_of(params@.take(i as int), *where_clause) == Ok::<_, GenericParamError>(
                out@,
            ),
        decreases params@.len() - i,
    {
        let p = generic_param_to_phantom_type(&params[i], where_clause);
        proof {
            let next = params@.take(i + 1);
            assert(next.drop_last() =~= params@.take(i as int));
            assert(next.last() == params@[i as int]);
        }
        match p {
            Ok(marker) => {
                out.push(marker);
            },
            Err(e) => {
                proof {
                    lemma_prefix_error(params@, *where_clause, i + 1);
                }
                return Err(e);
            },
        }
        i = i + 1;
    }
    assert(params@.take(i as int) =~= params@);
    Ok(out)
}

/// Checks a plugin function and plans the declarations that replace it.
///
/// Fails with `InvalidSignature` unless the function takes exactly one
/// argument of type `&mut ..::App` and returns nothing; otherwise
/// with the error of the first generic parameter that cannot be bound.
pub fn plugin_plan(sig: &SignatureShape) -> (r: Result<PluginPlan, PluginError>)
    ensures
        match r {
            Ok(plan) => {
                &&& valid_signature(*sig)
                &&& phantoms_of(sig.generics@, sig.where_clause) matches Ok(m)
                    && plan_markers_are(plan, m)
                &&& plan.app_arg == arg_ident(sig.inputs@[0])
            },
            Err(PluginError::InvalidSignature) => !valid_signature(*sig),
            Err(PluginError::Param(e)) => {
                &&& valid_signature(*sig)
                &&& phantoms_of(sig.generics@, sig.where_clause) == Err::<
                    Seq<PhantomType>,
                    _,
                >(e)
            },
        },
{
    if !is_signature_valid(sig) {
        return Err(PluginError::InvalidSignature);
    }
    let markers = if sig.generics.len() == 0 {
        assert(sig.generics@ =~= Seq::<GenericParamShape>::empty());
        None
    } else {
        match phantom_types(&sig.generics, &sig.where_clause) {
            Ok(v) => Some(v),
            Err(e) => return Err(PluginError::Param(e)),
        }
    };
    let app_arg = match typed_fn_arg_ident(&sig.inputs[0]) {
        Some(name) => Some(name.clone()),
        None => None,
    };
    Ok(PluginPlan { markers, app_arg })
}

} // verus!
