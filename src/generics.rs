//! How each generic parameter of the function is bound in the plugin type.
use vstd::prelude::*;

use crate::shape::{GenericParamShape, WherePredicateShape};

verus! {

/// The marker type that binds one generic parameter inside the plugin
/// type's phantom tuple.
pub enum PhantomType {
    /// `&'lifetime ()`.
    StaticRef { lifetime: String },
    /// `fn() -> T`: binds `T` without owning one, so it adds no bound.
    FnReturning { ident: String },
    /// `fn() -> &'static [(); N]`.
    StaticArray { ident: String },
}

/// Why a generic parameter cannot be part of a plugin type.
pub enum GenericParamError {
    /// A lifetime parameter that is not bounded by `'static`; plugins are
    /// owned types.
    NonStaticLifetime { name: String },
    /// A type parameter with no bound, neither its own nor in the `where`
    /// clause, so not known to be `'static`.
    UnboundedType { ident: String },
}

/// One of `bounds` is `'static`.
pub open spec fn has_static_bound(bounds: Seq<String>) -> bool {
    exists|j: int| 0 <= j < bounds.len() && #[trigger] bounds[j]@ == "static"@
}

/// A `where` predicate that bounds lifetime `name` by `'static`.
pub open spec fn bounds_by_static(pred: WherePredicateShape, name: Seq<char>) -> bool {
    match pred {
        WherePredicateShape::Lifetime { name: n, bounds } => n@ == name && has_static_bound(
            bounds@,
        ),
        _ => false,
    }
}

/// Lifetime `name`, declared with `bounds`, is bounded by `'static`, there or
/// in the `where` clause.
pub open spec fn lifetime_is_static(
    name: Seq<char>,
    bounds: Seq<String>,
    where_clause: Option<Vec<WherePredicateShape>>,
) -> bool {
    ||| has_static_bound(bounds)
    ||| where_clause matches Some(preds) && exists|j: int|
        0 <= j < preds@.len() && #[trigger] bounds_by_static(preds@[j], name)
}

/// A `where` predicate whose left-hand side is the type parameter `ident`.
pub open spec fn bounds_type(pred: WherePredicateShape, ident: Seq<char>) -> bool {
    pred matches WherePredicateShape::Type { ident: Some(n) } && n@ == ident
}

/// Type parameter `ident` is bounded: by a bound of its own, or by a
/// predicate on it in the `where` clause.
pub open spec fn type_param_bounded(
    ident: Seq<char>,
    bounds: Seq<String>,
    where_clause: Option<Vec<WherePredicateShape>>,
) -> bool {
    ||| bounds.len() > 0
    ||| where_clause matches Some(preds) && exists|j: int|
        0 <= j < preds@.len() && #[trigger] bounds_type(preds@[j], ident)
}

/// The marker for `param`, or why it has none.
pub open spec fn phantom_of(
    param: GenericParamShape,
    where_clause: Option<Vec<WherePredicateShape>>,
) -> Result<PhantomType, GenericParamError> {
    match param {
        GenericParamShape::Lifetime { name, bounds } => {
            if lifetime_is_static(name@, bounds@, where_clause) {
                Ok(PhantomType::StaticRef { lifetime: name })
            } else {
                Err(GenericParamError::NonStaticLifetime { name })
            }
        },
        GenericParamShape::Type { ident, bounds } => {
            if type_param_bounded(ident@, bounds@, where_clause) {
                Ok(PhantomType::FnReturning { ident })
            } else {
                Err(GenericParamError::UnboundedType { ident })
            }
        },
        GenericParamShape::Const { ident } => Ok(PhantomType::StaticArray { ident }),
    }
}

/// The markers of `params` in order, or the error of the first parameter
/// that has none.
pub open spec fn phantoms_of(
    params: Seq<GenericParamShape>,
    where_clause: Option<Vec<WherePredicateShape>>,
) -> Result<Seq<PhantomType>, GenericParamError>
    decreases params.len(),
{
    if params.len() == 0 {
        Ok(Seq::empty())
    } else {
        match phantoms_of(params.drop_last(), where_clause) {
            Err(e) => Err(e),
            Ok(prefix) => match phantom_of(params.last(), where_clause) {
                Ok(p) => Ok(prefix.push(p)),
                Err(e) => Err(e),
            },
        }
    }
}

/// Whether one of `bounds` is `'static`.
fn any_static(bounds: &Vec<String>) -> (r: bool)
    ensures
        r == has_static_bound(bounds@),
{
    let st = "static".to_owned();
    proof {
        reveal_strlit("static");
    }
    let mut i: usize = 0;
    while i < bounds.len()
        invariant
            st@ == "static"@,
            i <= bounds@.len(),
            forall|j: int| 0 <= j < i ==> bounds@[j]@ != "static"@,
        decreases bounds@.len() - i,
    {
        if bounds[i] == st {
            assert(bounds@[i as int]@ == "static"@);
            return true;
        }
        i = i + 1;
    }
    false
}

/// Whether a predicate of `preds` bounds lifetime `name` by `'static`.
fn where_bounds_static(name: &String, preds: &Vec<WherePredicateShape>) -> (r: bool)
    ensures
        r == exists|j: int| 0 <= j < preds@.len() && #[trigger] bounds_by_static(preds@[j], name@),
{
    let mut i: usize = 0;
    while i < preds.len()
        invariant
            i <= preds@.len(),
            forall|j: int| 0 <= j < i ==> !bounds_by_static(#[trigger] preds@[j], name@),
        decreases preds@.len() - i,
    {
        match &preds[i] {
            WherePredicateShape::Lifetime { name: n, bounds } => {
                if *n == *name && any_static(bounds) {
                    assert(bounds_by_static(preds@[i as int], name@));
                    return true;
                }
            },
            _ => {},
        }
        i = i + 1;
    }
    false
}

/// Whether a predicate of `preds` has type parameter `ident` on its left.
fn where_bounds_type(ident: &String, preds: &Vec<WherePredicateShape>) -> (r: bool)
    ensures
        r == exists|j: int| 0 <= j < preds@.len() && #[trigger] bounds_type(preds@[j], ident@),
{
    let mut i: usize = 0;
    while i < preds.len()
        invariant
            i <= preds@.len(),
            forall|j: int| 0 <= j < i ==> !bounds_type(#[trigger] preds@[j], ident@),
        decreases preds@.len() - i,
    {
        match &preds[i] {
            WherePredicateShape::Type { ident: Some(n) } => {
                if *n == *ident {
                    assert(bounds_type(preds@[i as int], ident@));
                    return true;
                }
            },
            _ => {},
        }
        i = i + 1;
    }
    false
}

/// The marker that binds `param` in the plugin type, or why `param` cannot
/// be a parameter of a plugin: a lifetime must be bounded by `'static`, and a
/// type parameter must carry a bound of its own or in the `where` clause.
pub fn generic_param_to_phantom_type(
    param: &GenericParamShape,
    where_clause: &Option<Vec<WherePredicateShape>>,
) -> (r: Result<PhantomType, GenericParamError>)
    ensures
        r == phantom_of(*param, *where_clause),
{
    match param {
        GenericParamShape::Lifetime { name, bounds } => {
            let has_static = any_static(bounds) || match where_clause {
                Some(preds) => where_bounds_static(name, preds),
                None => false,
            };
            if has_static {
                Ok(PhantomType::StaticRef { lifetime: name.clone() })
            } else {
                Err(GenericParamError::NonStaticLifetime { name: name.clone() })
            }
        },
        GenericParamShape::Type { ident, bounds } => {
            let has_bounds = bounds.len() > 0 || match where_clause {
                Some(preds) => where_bounds_type(ident, preds),
                None => false,
            };
            if has_bounds {
                Ok(PhantomType::FnReturning { ident: ident.clone() })
            } else {
                Err(GenericParamError::UnboundedType { ident: ident.clone() })
            }
        },
        GenericParamShape::Const { ident } => Ok(PhantomType::StaticArray { ident: ident.clone() }),
    }
}

} // verus!
