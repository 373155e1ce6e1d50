//! TypeRewriter: rewrites a surviving field's declared type when it names
//! another record of the same batch; leaves any other bare name alone;
//! rejects every composite shape as unsupported.

use vstd::prelude::*;
use crate::mapper::{lookup, NameMapping};
use crate::model::{EngineError, TypeRef, TypeView};

verus! {

/// What rewriting does to a declared type under a mapping: a bare name
/// the mapping knows is replaced by its slim counterpart, a bare name it
/// does not know passes through unchanged, and any other shape is an
/// unsupported type.
pub open spec fn rewrite_view(ty: TypeView, pairs: Seq<(Seq<char>, Seq<char>)>) -> Result<
    TypeView,
    EngineError,
> {
    match ty {
        TypeView::Name(n) => match lookup(pairs, n) {
            Some(s) => Ok(TypeView::Name(s)),
            None => Ok(TypeView::Name(n)),
        },
        TypeView::Composite(_) => Err(EngineError::UnsupportedType),
    }
}

/// Rewrites one declared type as [`rewrite_view`] says.
pub fn rewrite_type(ty: &TypeRef, mapping: &NameMapping) -> (r: Result<TypeRef, EngineError>)
    ensures
        match rewrite_view(ty.deep_view(), mapping@) {
            Ok(t) => r matches Ok(x) && x.deep_view() == t,
            Err(e) => r matches Err(x) && x == e,
        },
{
    match ty {
        TypeRef::Name(n) => match mapping.slim_of(n) {
            Some(s) => Ok(TypeRef::Name(s)),
            None => Ok(TypeRef::Name(n.clone())),
        },
        TypeRef::Composite(_) => Err(EngineError::UnsupportedType),
    }
}

} // verus!
