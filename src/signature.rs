//! Which function signatures can become a plugin.
use vstd::prelude::*;

use crate::shape::{FnArgShape, ReturnShape, SignatureShape, TypeShape};

verus! {

/// The referenced type of an argument declared as `pat: &mut T`.
pub open spec fn mut_ref_elem(arg: FnArgShape) -> Option<TypeShape> {
    match arg {
        FnArgShape::Typed { ty: TypeShape::Reference { mutable, elem }, .. } => {
            if mutable {
                Some(*elem)
            } else {
                None
            }
        },
        _ => None,
    }
}

/// The name bound by an argument whose pattern is a plain identifier.
pub open spec fn arg_ident(arg: FnArgShape) -> Option<String> {
    match arg {
        FnArgShape::Typed { ident, .. } => ident,
        FnArgShape::Receiver => None,
    }
}

/// A path whose last segment is `App`.
pub open spec fn names_app(ty: TypeShape) -> bool {
    match ty {
        TypeShape::Path { segments } => segments@.len() > 0 && segments@.last()@ == "App"@,
        _ => false,
    }
}

/// One argument of type `&mut ..::App`, and no return value: either no
/// return type or `-> ()`.
pub open spec fn valid_signature(sig: SignatureShape) -> bool {
    &&& sig.inputs@.len() == 1
    &&& mut_ref_elem(sig.inputs@[0]) matches Some(ty) && names_app(ty)
    &&& !(sig.output is Other)
}

/// The referenced type of `fn_arg` when it is declared as `pat: &mut T`.
pub fn fn_arg_as_mut_ref_type(fn_arg: &FnArgShape) -> (r: Option<&TypeShape>)
    ensures
        match r {
            Some(t) => mut_ref_elem(*fn_arg) == Some(*t),
            None => mut_ref_elem(*fn_arg) is None,
        },
{
    match fn_arg {
        FnArgShape::Typed { ty, .. } => match ty {
            TypeShape::Reference { mutable, elem } => {
                if *mutable {
                    Some(&**elem)
                } else {
                    None
                }
            },
            _ => None,
        },
        FnArgShape::Receiver => None,
    }
}

/// The name bound by `fn_arg` when its pattern is a plain identifier.
pub fn typed_fn_arg_ident(fn_arg: &FnArgShape) -> (r: Option<&String>)
    ensures
        match r {
            Some(s) => arg_ident(*fn_arg) == Some(*s),
            None => arg_ident(*fn_arg) is None,
        },
{
    match fn_arg {
        FnArgShape::Typed { ident, .. } => match ident {
            Some(s) => Some(s),
            None => None,
        },
        FnArgShape::Receiver => None,
    }
}

/// Whether `sig` takes exactly one argument of type `&mut ..::App` and
/// returns nothing (no return type, or `()`).
pub fn is_signature_valid(sig: &SignatureShape) -> (r: bool)
    ensures
        r == valid_signature(*sig),
{
    if sig.inputs.len() != 1 {
        return false;
    }
    let at_mut_app = match fn_arg_as_mut_ref_type(&sig.inputs[0]) {
        Some(t) => t,
        None => return false,
    };
    let segments = match at_mut_app {
        TypeShape::Path { segments } => segments,
        _ => return false,
    };
    if segments.len() == 0 {
        return false;
    }
    let app = "App".to_owned();
    proof {
        reveal_strlit("App");
    }
    if segments[segments.len() - 1] != app {
        return false;
    }
    match sig.output {
        ReturnShape::Other => false,
        _ => true,
    }
}

} // verus!
