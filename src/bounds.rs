use vstd::prelude::*;
use crate::decl::{
    bounds_on, field_types, type_param_count, type_param_names, Body, Contract, Field,
    GenericParam, Generics, Predicate, Bound,
};

verus! {

/// The predicate `bounded_ty: bound`.
pub fn make_where_predicate_type(bounded_ty: String, bound: Contract) -> (r: Predicate)
    ensures
        r == (Predicate { bounded_ty, bound: Bound::Contract(bound) }),
{
    Predicate { bounded_ty, bound: Bound::Contract(bound) }
}

/// `generics` with one predicate `t: contract` appended for each target `t`,
/// in order; the parameters and the existing predicates are kept.
pub fn synthesize_bounds(generics: &Generics, targets: &Vec<String>, contract: Contract) -> (r:
    Generics)
    ensures
        r.params@ == generics.params@,
        r.predicates@ == generics.predicates@ + bounds_on(targets@, contract),
{
    let mut ret = generics.duplicate();
    let ghost base = ret.predicates@;
    let mut i: usize = 0;
    while i < targets.len()
        invariant
            i <= targets@.len(),
            ret.params@ == generics.params@,
            base == generics.predicates@,
            ret.predicates@ == base + bounds_on(targets@.subrange(0, i as int), contract),
        decreases targets@.len() - i,
    {
        let p = make_where_predicate_type(targets[i].clone(), contract);
        ret.predicates.push(p);
        proof {
            assert(bounds_on(targets@.subrange(0, i + 1), contract) =~= bounds_on(
                targets@.subrange(0, i as int),
                contract,
            ).push(p));
        }
        i = i + 1;
    }
    assert(targets@.subrange(0, i as int) =~= targets@);
    ret
}

/// The names of the type parameters of `generics`, in order.
pub fn type_param_targets(generics: &Generics) -> (r: Vec<String>)
    ensures
        r@ == type_param_names(generics.params@),
        r@.len() == type_param_count(generics.params@),
{
    let mut r: Vec<String> = Vec::new();
    let mut i: usize = 0;
    while i < generics.params.len()
        invariant
            i <= generics.params@.len(),
            r@ == type_param_names(generics.params@.subrange(0, i as int)),
            r@.len() == type_param_count(generics.params@.subrange(0, i as int)),
        decreases generics.params@.len() - i,
    {
        proof {
            assert(generics.params@.subrange(0, i + 1).drop_last() =~= generics.params@.subrange(
                0,
                i as int,
            ));
        }
        match &generics.params[i] {
            GenericParam::Type(n) => r.push(n.clone()),
            GenericParam::Lifetime(_) => {},
        }
        i = i + 1;
    }
    assert(generics.params@.subrange(0, i as int) =~= generics.params@);
    r
}

/// The declared types of `fields`, in order.
pub fn field_type_targets(fields: &Vec<Field>) -> (r: Vec<String>)
    ensures
        r@ == field_types(fields@),
{
    let mut r: Vec<String> = Vec::new();
    let mut i: usize = 0;
    while i < fields.len()
        invariant
            i <= fields@.len(),
            r@ == field_types(fields@.subrange(0, i as int)),
        decreases fields@.len() - i,
    {
        r.push(fields[i].ty.clone());
        proof {
            assert(field_types(fields@.subrange(0, i + 1)) =~= field_types(
                fields@.subrange(0, i as int),
            ).push(fields@[i as int].ty));
        }
        i = i + 1;
    }
    assert(fields@.subrange(0, i as int) =~= fields@);
    r
}

/// `generics` with every type parameter bounded by `contract`, whether or not
/// a field uses it.
pub fn make_generic_bounds(generics: &Generics, contract: Contract) -> (r: Generics)
    ensures
        r.params@ == generics.params@,
        r.predicates@ == generics.predicates@ + bounds_on(
            type_param_names(generics.params@),
            contract,
        ),
{
    let targets = type_param_targets(generics);
    synthesize_bounds(generics, &targets, contract)
}

/// `generics` with the declared type of every field of a record bounded by
/// `contract`; a body that is not a record is refused.
pub fn make_where_clause_for_fields(body: &Body, generics: &Generics, contract: Contract) -> (r:
    Option<Generics>)
    ensures
        r is Some <==> body is Record,
        r matches Some(g) ==> g.params@ == generics.params@ && g.predicates@
            == generics.predicates@ + bounds_on(field_types(body->Record_0@), contract),
{
    match body {
        Body::Record(fields) => {
            let targets = field_type_targets(fields);
            Some(synthesize_bounds(generics, &targets, contract))
        },
        _ => None,
    }
}

} // verus!
