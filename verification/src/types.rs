use vstd::prelude::*;
use lightningcss::visitor::VisitTypes;

verus! {

/// lightningcss's `VisitTypes`, a set of bit flags, held opaque; what it
/// holds is named by [`visit_flags`].
#[verifier::external_type_specification]
#[verifier::external_body]
pub struct ExVisitTypes(VisitTypes);

/// What a `VisitTypes` set holds: the flag bits that are set in it, each as
/// its value (`1 << n` for the flag at position `n`).
pub uninterp spec fn visit_flags(types: VisitTypes) -> Set<u32>;

/// The kinds of CSS node that a visitor may ask to visit, one for each flag
/// of `VisitTypes`.
#[derive(PartialEq, Eq, Structural, Clone, Copy, Debug)]
pub enum VisitKind {
    Rules,
    Properties,
    Urls,
    Colors,
    Images,
    Lengths,
    Angles,
    Ratios,
    Resolutions,
    Times,
    CustomIdents,
    DashedIdents,
    Variables,
    EnvironmentVariables,
    MediaQueries,
    SupportsConditions,
    Selectors,
    Functions,
    Tokens,
}

/// The bit of the `VisitTypes` flag for `kind`, as the flags are declared.
pub open spec fn kind_bit(kind: VisitKind) -> u32 {
    match kind {
        VisitKind::Rules => 0x1,
        VisitKind::Properties => 0x2,
        VisitKind::Urls => 0x4,
        VisitKind::Colors => 0x8,
        VisitKind::Images => 0x10,
        VisitKind::Lengths => 0x20,
        VisitKind::Angles => 0x40,
        VisitKind::Ratios => 0x80,
        VisitKind::Resolutions => 0x100,
        VisitKind::Times => 0x200,
        VisitKind::CustomIdents => 0x400,
        VisitKind::DashedIdents => 0x800,
        VisitKind::Variables => 0x1000,
        VisitKind::EnvironmentVariables => 0x2000,
        VisitKind::MediaQueries => 0x4000,
        VisitKind::SupportsConditions => 0x8000,
        VisitKind::Selectors => 0x10000,
        VisitKind::Functions => 0x20000,
        VisitKind::Tokens => 0x40000,
    }
}

/// `VisitTypes::empty`: the set with no flag.
#[verifier::external_body]
pub(crate) fn no_visit_types() -> (types: VisitTypes)
    ensures
        visit_flags(types) == Set::<u32>::empty(),
{
    VisitTypes::empty()
}

/// Whether `bits` is the bit of one `VisitTypes` flag.
pub open spec fn is_flag_bit(bits: u32) -> bool {
    exists|kind: VisitKind| kind_bit(kind) == bits
}

/// `VisitTypes::from_bits_truncate` on the bit of one declared flag: the set
/// that holds that flag alone.
#[verifier::external_body]
pub(crate) fn visit_types_from_flag_bit(bits: u32) -> (types: VisitTypes)
    requires
        is_flag_bit(bits),
    ensures
        visit_flags(types) == set![bits],
{
    VisitTypes::from_bits_truncate(bits)
}

/// The bit of the flag for `kind`.
pub fn flag_bit(kind: VisitKind) -> (bits: u32)
    ensures
        bits == kind_bit(kind),
{
    match kind {
        VisitKind::Rules => 0x1,
        VisitKind::Properties => 0x2,
        VisitKind::Urls => 0x4,
        VisitKind::Colors => 0x8,
        VisitKind::Images => 0x10,
        VisitKind::Lengths => 0x20,
        VisitKind::Angles => 0x40,
        VisitKind::Ratios => 0x80,
        VisitKind::Resolutions => 0x100,
        VisitKind::Times => 0x200,
        VisitKind::CustomIdents => 0x400,
        VisitKind::DashedIdents => 0x800,
        VisitKind::Variables => 0x1000,
        VisitKind::EnvironmentVariables => 0x2000,
        VisitKind::MediaQueries => 0x4000,
        VisitKind::SupportsConditions => 0x8000,
        VisitKind::Selectors => 0x10000,
        VisitKind::Functions => 0x20000,
        VisitKind::Tokens => 0x40000,
    }
}

/// The `VisitTypes` constant for `kind` (such as `VisitTypes::RULES`): the set
/// that holds that flag alone.
pub fn visit_type(kind: VisitKind) -> (types: VisitTypes)
    ensures
        visit_flags(types) == set![kind_bit(kind)],
{
    let bits = flag_bit(kind);
    visit_types_from_flag_bit(bits)
}

/// `VisitTypes::union` (the `|` operator): the flags of both sets.
#[verifier::external_body]
pub(crate) fn union_visit_types(a: VisitTypes, b: VisitTypes) -> (types: VisitTypes)
    ensures
        visit_flags(types) == visit_flags(a) + visit_flags(b),
{
    a | b
}

/// `VisitTypes::contains`: whether every flag of `b` is set in `a`.
#[verifier::external_body]
pub(crate) fn contains_visit_types(a: &VisitTypes, b: VisitTypes) -> (res: bool)
    ensures
        res == visit_flags(b).subset_of(visit_flags(*a)),
{
    a.contains(b)
}

/// Whether `types` asks to visit nodes of `kind`.
pub fn visits_kind(types: &VisitTypes, kind: VisitKind) -> (res: bool)
    ensures
        res == visit_flags(*types).contains(kind_bit(kind)),
{
    let flag = visit_type(kind);
    let res = contains_visit_types(types, flag);
    proof {
        assert(set![kind_bit(kind)].subset_of(visit_flags(*types)) == visit_flags(*types).contains(kind_bit(kind)));
    }
    res
}

} // verus!
