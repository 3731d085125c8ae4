use vstd::prelude::*;

verus! {

/// An interface whose implementation can be derived.
#[derive(PartialEq, Eq, Structural, Clone, Copy, Debug)]
pub enum Contract {
    /// The checksum contract (`qsp::Crc`).
    Checksum,
    /// The packed-layout marker contract (`qsp::Packed`).
    Packed,
}

/// One generic parameter of a declaration, by name.
#[derive(Debug)]
pub enum GenericParam {
    Type(String),
    Lifetime(String),
}

/// The right-hand side of a where-predicate.
#[derive(Debug)]
pub enum Bound {
    /// A single bound on one of the derivable contracts.
    Contract(Contract),
    /// Bounds written in the declaration itself, as text (`Copy + 'a`).
    Written(String),
}

/// A where-predicate `bounded_ty: bound`.
#[derive(Debug)]
pub struct Predicate {
    pub bounded_ty: String,
    pub bound: Bound,
}

/// The generic parameters of a declaration and its where-clause.
#[derive(Debug)]
pub struct Generics {
    pub params: Vec<GenericParam>,
    pub predicates: Vec<Predicate>,
}

/// A named field and the text of its declared type.
#[derive(Debug)]
pub struct Field {
    pub name: String,
    pub ty: String,
}

/// The body of a declaration.
#[derive(Debug)]
pub enum Body {
    /// A struct with named fields (a tuple struct lists its fields by index).
    Record(Vec<Field>),
    Enumeration,
    Union,
}

/// A declaration-level attribute: its path and, for a list attribute such as
/// `repr(C, packed)`, the text of each comma-separated item.
#[derive(Debug)]
pub struct Attribute {
    pub path: String,
    pub args: Option<Vec<String>>,
}

/// A type declaration, as handed to a derivation.
#[derive(Debug)]
pub struct TypeDecl {
    pub name: String,
    pub generics: Generics,
    pub attrs: Vec<Attribute>,
    pub body: Body,
}

/// Why a derivation was refused.
#[derive(Debug)]
pub enum DeriveError {
    /// The declaration is an enumeration or a union; carries the contract
    /// whose derivation was asked for.
    UnsupportedShape(Contract),
    /// A packed-layout marker was asked for a type, named here, that has no
    /// `repr(packed)` attribute.
    MissingPackedAttribute(String),
    /// A `repr(packed(N))` with `N > 1` may leave trailing padding.
    UnsupportedPackedAlignment,
}

/// The names of the type parameters, in declaration order; lifetimes are left out.
pub open spec fn type_param_names(ps: Seq<GenericParam>) -> Seq<String>
    decreases ps.len(),
{
    if ps.len() == 0 {
        Seq::empty()
    } else {
        let rest = type_param_names(ps.drop_last());
        match ps.last() {
            GenericParam::Type(n) => rest.push(n),
            GenericParam::Lifetime(_) => rest,
        }
    }
}

/// The number of type parameters among `ps`.
pub open spec fn type_param_count(ps: Seq<GenericParam>) -> nat
    decreases ps.len(),
{
    if ps.len() == 0 {
        0
    } else {
        type_param_count(ps.drop_last()) + if ps.last() is Type {
            1nat
        } else {
            0nat
        }
    }
}

/// The names of the fields, in declaration order.
pub open spec fn field_names(fs: Seq<Field>) -> Seq<String> {
    fs.map_values(|f: Field| f.name)
}

/// The declared types of the fields, in declaration order.
pub open spec fn field_types(fs: Seq<Field>) -> Seq<String> {
    fs.map_values(|f: Field| f.ty)
}

/// One predicate `t: c` for each target `t`, in order.
pub open spec fn bounds_on(targets: Seq<String>, c: Contract) -> Seq<Predicate> {
    targets.map_values(|t: String| Predicate { bounded_ty: t, bound: Bound::Contract(c) })
}

impl GenericParam {
    pub fn duplicate(&self) -> (r: GenericParam)
        ensures
            r == *self,
    {
        match self {
            GenericParam::Type(n) => GenericParam::Type(n.clone()),
            GenericParam::Lifetime(n) => GenericParam::Lifetime(n.clone()),
        }
    }
}

impl Predicate {
    pub fn duplicate(&self) -> (r: Predicate)
        ensures
            r == *self,
    {
        let bound = match &self.bound {
            Bound::Contract(c) => Bound::Contract(*c),
            Bound::Written(t) => Bound::Written(t.clone()),
        };
        Predicate { bounded_ty: self.bounded_ty.clone(), bound }
    }
}

impl Generics {
    /// A copy of the parameters and predicates.
    pub fn duplicate(&self) -> (r: Generics)
        ensures
            r.params@ == self.params@,
            r.predicates@ == self.predicates@,
    {
        let mut params: Vec<GenericParam> = Vec::new();
        let mut i: usize = 0;
        while i < self.params.len()
            invariant
                i <= self.params@.len(),
                params@ == self.params@.subrange(0, i as int),
            decreases self.params@.len() - i,
        {
            params.push(self.params[i].duplicate());
            i = i + 1;
        }
        let mut predicates: Vec<Predicate> = Vec::new();
        let mut j: usize = 0;
        while j < self.predicates.len()
            invariant
                j <= self.predicates@.len(),
                predicates@ == self.predicates@.subrange(0, j as int),
            decreases self.predicates@.len() - j,
        {
            predicates.push(self.predicates[j].duplicate());
            j = j + 1;
        }
        assert(params@ =~= self.params@);
        assert(predicates@ =~= self.predicates@);
        Generics { params, predicates }
    }
}

} // verus!
