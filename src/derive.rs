use vstd::prelude::*;
use crate::bounds::{make_generic_bounds, make_where_clause_for_fields};
use crate::decl::{
    bounds_on, field_names, field_types, type_param_names, Body, Contract, DeriveError, Field,
    Generics, Predicate, TypeDecl,
};
use crate::layout::{attrs_have, has_repr_packed, ReprItem};

verus! {

/// The body of a generated implementation.
#[derive(Debug)]
pub enum ImplBody {
    /// `fn crc(&self, state)` calling `crc(state)` on each named field, in order.
    Fold(Vec<String>),
    /// No items: the implementation only affirms a property of the type, and is
    /// emitted as an `unsafe impl`.
    Marker,
}

/// A generated `impl <generics> <contract> for <self_ty><params> where ... { body }`.
#[derive(Debug)]
pub struct ImplBlock {
    pub contract: Contract,
    pub self_ty: String,
    pub generics: Generics,
    pub body: ImplBody,
}

/// The outcome of one derivation request.
#[derive(Debug)]
pub enum Artifact {
    Impl(ImplBlock),
    /// A message to be raised as a compile-time error at the request.
    Diagnostic(String),
}

/// The fields whose checksums the body folds, in order.
pub open spec fn fold_order(b: ImplBody) -> Seq<String> {
    match b {
        ImplBody::Fold(v) => v@,
        ImplBody::Marker => Seq::empty(),
    }
}

/// The where-predicates that `b` adds to those the declaration `d` already has.
pub open spec fn added_bounds(d: TypeDecl, b: ImplBlock) -> Seq<Predicate> {
    b.generics.predicates@.subrange(
        d.generics.predicates@.len() as int,
        b.generics.predicates@.len() as int,
    )
}

/// `b` is the checksum implementation derived for `d`: every type parameter is
/// bounded by the checksum contract and the body folds every field in order.
pub open spec fn checksum_impl_of(d: TypeDecl, b: ImplBlock) -> bool {
    &&& d.body is Record
    &&& b.contract == Contract::Checksum
    &&& b.self_ty == d.name
    &&& b.generics.params@ == d.generics.params@
    &&& b.generics.predicates@ == d.generics.predicates@ + bounds_on(
        type_param_names(d.generics.params@),
        Contract::Checksum,
    )
    &&& b.body is Fold
    &&& fold_order(b.body) == field_names(d.body->Record_0@)
}

/// `b` is the packed-layout marker implementation derived for `d`: the
/// declared type of every field is bounded by the marker contract.
pub open spec fn packed_impl_of(d: TypeDecl, b: ImplBlock) -> bool {
    &&& d.body is Record
    &&& b.contract == Contract::Packed
    &&& b.self_ty == d.name
    &&& b.generics.params@ == d.generics.params@
    &&& b.generics.predicates@ == d.generics.predicates@ + bounds_on(
        field_types(d.body->Record_0@),
        Contract::Packed,
    )
    &&& b.body is Marker
}

/// Why the checksum derivation refuses `d`, if it does.
pub open spec fn checksum_refusal(d: TypeDecl) -> Option<DeriveError> {
    if d.body is Record {
        None
    } else {
        Some(DeriveError::UnsupportedShape(Contract::Checksum))
    }
}

/// Why the packed derivation refuses `d`, if it does: the shape is checked
/// first, then an alignment above one, then the presence of `packed`.
pub open spec fn packed_refusal(d: TypeDecl) -> Option<DeriveError> {
    if !(d.body is Record) {
        Some(DeriveError::UnsupportedShape(Contract::Packed))
    } else if attrs_have(d.attrs@, ReprItem::AlignedPacking) {
        Some(DeriveError::UnsupportedPackedAlignment)
    } else if !attrs_have(d.attrs@, ReprItem::Unpadded) {
        Some(DeriveError::MissingPackedAttribute(d.name))
    } else {
        None
    }
}

/// `r` is what the checksum derivation owes for `d`.
pub open spec fn checksum_result(d: TypeDecl, r: Result<ImplBlock, DeriveError>) -> bool {
    match checksum_refusal(d) {
        None => r matches Ok(b) && checksum_impl_of(d, b),
        Some(e) => r matches Err(x) && x == e,
    }
}

/// `r` is what the packed derivation owes for `d`.
pub open spec fn packed_result(d: TypeDecl, r: Result<ImplBlock, DeriveError>) -> bool {
    match packed_refusal(d) {
        None => r matches Ok(b) && packed_impl_of(d, b),
        Some(e) => r matches Err(x) && x == e,
    }
}

/// The text of the diagnostic for `e`.
pub open spec fn message_of(e: DeriveError) -> Seq<char> {
    match e {
        DeriveError::UnsupportedShape(Contract::Checksum) =>
            "derive Crc for enum or union is not supported"@,
        DeriveError::UnsupportedShape(Contract::Packed) =>
            "derive Packed for enum or union is not supported"@,
        DeriveError::MissingPackedAttribute(name) => "missing repr(packed) for struct "@ + name@,
        DeriveError::UnsupportedPackedAlignment =>
            "repr(packed(N > 1)) is not supported because of trailing padding"@,
    }
}

/// The artifact for a derivation whose result is `r`.
pub open spec fn artifact_of(r: Result<ImplBlock, DeriveError>, a: Artifact) -> bool {
    match r {
        Ok(b) => a == Artifact::Impl(b),
        Err(e) => a matches Artifact::Diagnostic(m) && m@ == message_of(e),
    }
}

impl DeriveError {
    /// The human-readable text of the error.
    pub fn message(&self) -> (r: String)
        ensures
            r@ == message_of(*self),
    {
        match self {
            DeriveError::UnsupportedShape(Contract::Checksum) => String::from_str(
                "derive Crc for enum or union is not supported",
            ),
            DeriveError::UnsupportedShape(Contract::Packed) => String::from_str(
                "derive Packed for enum or union is not supported",
            ),
            DeriveError::MissingPackedAttribute(name) => {
                let mut m = String::from_str("missing repr(packed) for struct ");
                m.append(name.as_str());
                m
            },
            DeriveError::UnsupportedPackedAlignment => String::from_str(
                "repr(packed(N > 1)) is not supported because of trailing padding",
            ),
        }
    }
}

/// The fields of a record; an enumeration or a union is refused for `target`.
pub fn analyze(decl: &TypeDecl, target: Contract) -> (r: Result<&Vec<Field>, DeriveError>)
    ensures
        r is Ok <==> decl.body is Record,
        r matches Ok(fs) ==> decl.body == Body::Record(*fs),
        r matches Err(e) ==> e == DeriveError::UnsupportedShape(target),
{
    match &decl.body {
        Body::Record(fields) => Ok(fields),
        _ => Err(DeriveError::UnsupportedShape(target)),
    }
}

/// A body that folds the checksum of every field into the state, in order.
pub fn make_crc_fn_body_for_struct(fields: &Vec<Field>) -> (r: ImplBody)
    ensures
        r is Fold,
        fold_order(r) == field_names(fields@),
{
    let mut names: Vec<String> = Vec::new();
    let mut i: usize = 0;
    while i < fields.len()
        invariant
            i <= fields@.len(),
            names@ == field_names(fields@.subrange(0, i as int)),
        decreases fields@.len() - i,
    {
        names.push(fields[i].name.clone());
        proof {
            assert(field_names(fields@.subrange(0, i + 1)) =~= field_names(
                fields@.subrange(0, i as int),
            ).push(fields@[i as int].name));
        }
        i = i + 1;
    }
    assert(fields@.subrange(0, i as int) =~= fields@);
    ImplBody::Fold(names)
}

/// The body of the checksum implementation for `decl`.
pub fn make_impl_crc_body(decl: &TypeDecl) -> (r: Result<ImplBody, DeriveError>)
    ensures
        r is Ok <==> decl.body is Record,
        r matches Ok(b) ==> b is Fold && fold_order(b) == field_names(decl.body->Record_0@),
        r matches Err(e) ==> e == DeriveError::UnsupportedShape(Contract::Checksum),
{
    match analyze(decl, Contract::Checksum) {
        Ok(fields) => Ok(make_crc_fn_body_for_struct(fields)),
        Err(e) => Err(e),
    }
}

/// The checksum implementation for `decl`, with every type parameter bounded
/// by the checksum contract.
pub fn make_impl_crc_trait(decl: &TypeDecl) -> (r: Result<ImplBlock, DeriveError>)
    ensures
        checksum_result(*decl, r),
{
    let body = match make_impl_crc_body(decl) {
        Ok(b) => b,
        Err(e) => {
            return Err(e);
        },
    };
    let generics = make_generic_bounds(&decl.generics, Contract::Checksum);
    Ok(ImplBlock { contract: Contract::Checksum, self_ty: decl.name.clone(), generics, body })
}

/// The packed-layout marker implementation for `decl`, with the declared type
/// of every field bounded by the marker contract.
pub fn make_impl_packed(decl: &TypeDecl) -> (r: Result<ImplBlock, DeriveError>)
    ensures
        packed_result(*decl, r),
{
    if let Err(e) = analyze(decl, Contract::Packed) {
        return Err(e);
    }
    match has_repr_packed(&decl.attrs) {
        Err(e) => {
            return Err(e);
        },
        Ok(false) => {
            return Err(DeriveError::MissingPackedAttribute(decl.name.clone()));
        },
        Ok(true) => {},
    }
    let generics = match make_where_clause_for_fields(&decl.body, &decl.generics, Contract::Packed) {
        Some(g) => g,
        None => {
            return Err(DeriveError::UnsupportedShape(Contract::Packed));
        },
    };
    Ok(
        ImplBlock {
            contract: Contract::Packed,
            self_ty: decl.name.clone(),
            generics,
            body: ImplBody::Marker,
        },
    )
}

/// The artifact for a derivation result: the implementation, or a diagnostic
/// carrying the error's message.
pub fn report(r: Result<ImplBlock, DeriveError>) -> (a: Artifact)
    ensures
        artifact_of(r, a),
{
    match r {
        Ok(b) => Artifact::Impl(b),
        Err(e) => Artifact::Diagnostic(e.message()),
    }
}

/// Derives the checksum implementation for `decl`, or a diagnostic.
pub fn derive_crc(decl: &TypeDecl) -> (a: Artifact)
    ensures
        match checksum_refusal(*decl) {
            None => a matches Artifact::Impl(b) && checksum_impl_of(*decl, b),
            Some(e) => a matches Artifact::Diagnostic(m) && m@ == message_of(e),
        },
{
    let r = make_impl_crc_trait(decl);
    report(r)
}

/// Derives the packed-layout marker implementation for `decl`, or a diagnostic.
pub fn derive_packed(decl: &TypeDecl) -> (a: Artifact)
    ensures
        match packed_refusal(*decl) {
            None => a matches Artifact::Impl(b) && packed_impl_of(*decl, b),
            Some(e) => a matches Artifact::Diagnostic(m) && m@ == message_of(e),
        },
{
    let r = make_impl_packed(decl);
    report(r)
}

} // verus!
