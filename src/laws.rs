use vstd::prelude::*;
use crate::decl::{
    bounds_on, Bound, field_names, field_types, type_param_count, type_param_names, Contract,
    DeriveError, GenericParam, Predicate, TypeDecl,
};
use crate::derive::{
    added_bounds, checksum_impl_of, checksum_refusal, fold_order, packed_impl_of, packed_refusal,
    ImplBlock,
};
use crate::layout::{attrs_have, ReprItem};

verus! {

/// There is one type-parameter name per type parameter.
pub proof fn lemma_type_param_names_len(ps: Seq<GenericParam>)
    ensures
        type_param_names(ps).len() == type_param_count(ps),
    decreases ps.len(),
{
    if ps.len() > 0 {
        lemma_type_param_names_len(ps.drop_last());
    }
}

/// The checksum derivation accepts every record, and the implementation it
/// gives folds the fields in the order in which they are declared.
pub proof fn lemma_checksum_accepts_records(d: TypeDecl, b: ImplBlock)
    requires
        d.body is Record,
    ensures
        checksum_refusal(d) is None,
        checksum_impl_of(d, b) ==> fold_order(b.body) == field_names(d.body->Record_0@),
{
}

/// Field order is significant: two records whose fields are named in a
/// different order get checksum implementations that fold in a different order.
pub proof fn lemma_checksum_field_order_significant(
    d1: TypeDecl,
    d2: TypeDecl,
    b1: ImplBlock,
    b2: ImplBlock,
)
    requires
        checksum_impl_of(d1, b1),
        checksum_impl_of(d2, b2),
        field_names(d1.body->Record_0@) != field_names(d2.body->Record_0@),
    ensures
        fold_order(b1.body) != fold_order(b2.body),
{
}

/// Neither derivation accepts an enumeration or a union; both report the
/// unsupported shape.
pub proof fn lemma_non_records_refused(d: TypeDecl)
    requires
        !(d.body is Record),
    ensures
        checksum_refusal(d) == Some(DeriveError::UnsupportedShape(Contract::Checksum)),
        packed_refusal(d) == Some(DeriveError::UnsupportedShape(Contract::Packed)),
{
}

/// A record with no `repr(packed)` layout attribute gets no packed marker; the
/// error names the type.
pub proof fn lemma_packed_needs_attribute(d: TypeDecl)
    requires
        d.body is Record,
        !attrs_have(d.attrs@, ReprItem::Unpadded),
        !attrs_have(d.attrs@, ReprItem::AlignedPacking),
    ensures
        packed_refusal(d) == Some(DeriveError::MissingPackedAttribute(d.name)),
{
}

/// A record with a `repr(packed(N))` attribute, `N > 1`, gets no packed marker.
pub proof fn lemma_packed_refuses_alignment(d: TypeDecl)
    requires
        d.body is Record,
        attrs_have(d.attrs@, ReprItem::AlignedPacking),
    ensures
        packed_refusal(d) == Some(DeriveError::UnsupportedPackedAlignment),
{
}

/// A record with a `repr(packed)` (or `packed(1)`) attribute, and no wider
/// packing, gets a packed marker with exactly one added bound per field, on
/// that field's declared type.
pub proof fn lemma_packed_bounds_per_field(d: TypeDecl, b: ImplBlock)
    requires
        d.body is Record,
        attrs_have(d.attrs@, ReprItem::Unpadded),
        !attrs_have(d.attrs@, ReprItem::AlignedPacking),
    ensures
        packed_refusal(d) is None,
        packed_impl_of(d, b) ==> added_bounds(d, b) == bounds_on(
            field_types(d.body->Record_0@),
            Contract::Packed,
        ),
        packed_impl_of(d, b) ==> added_bounds(d, b).len() == d.body->Record_0@.len(),
{
    if packed_impl_of(d, b) {
        assert(added_bounds(d, b) =~= bounds_on(field_types(d.body->Record_0@), Contract::Packed));
    }
}

/// The checksum implementation adds exactly one bound per type parameter, used
/// by a field or not, and none for lifetimes or fields.
pub proof fn lemma_checksum_bounds_per_type_param(d: TypeDecl, b: ImplBlock)
    requires
        checksum_impl_of(d, b),
    ensures
        added_bounds(d, b) == bounds_on(type_param_names(d.generics.params@), Contract::Checksum),
        added_bounds(d, b).len() == type_param_count(d.generics.params@),
        forall|i: int|
            0 <= i < added_bounds(d, b).len() ==> #[trigger] added_bounds(d, b)[i] == (Predicate {
                bounded_ty: type_param_names(d.generics.params@)[i],
                bound: Bound::Contract(Contract::Checksum),
            }),
{
    assert(added_bounds(d, b) =~= bounds_on(
        type_param_names(d.generics.params@),
        Contract::Checksum,
    ));
    lemma_type_param_names_len(d.generics.params@);
}

} // verus!
