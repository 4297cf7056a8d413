//! The mathematical model of the pass: what a well-formed tree is,
//! when a tree and a set of bindings fit together, and what the
//! rewrite produces.
//!
//! Every function here is ghost. The executable reader is proved to
//! compute exactly `spec_fold_program` / `spec_fold_declaration`, and
//! the global laws are proved of these functions.

use vstd::prelude::*;

use crate::ast::{
    SpecDeclarationConstant, SpecExpression, SpecExpressionInner, SpecIdentifier,
    SpecIdentifierOrExpression, SpecProgram, SpecSymbolDeclaration, SpecType,
};

verus! {

/// The constant bindings, mathematically: a read-only map from
/// canonical constant name to an already-evaluated expression value.
pub type SpecBindings = Map<Seq<char>, SpecExpression>;

/// The six expression-variant families of the typed tree.
pub enum TypeFamily {
    FieldElement,
    Boolean,
    Uint,
    Array,
    Tuple,
    Struct,
}

/// The family a static type belongs to.
pub open spec fn family_of(t: SpecType) -> TypeFamily {
    match t {
        SpecType::FieldElement => TypeFamily::FieldElement,
        SpecType::Boolean => TypeFamily::Boolean,
        SpecType::Uint(_) => TypeFamily::Uint,
        SpecType::Array(_, _) => TypeFamily::Array,
        SpecType::Tuple(_) => TypeFamily::Tuple,
        SpecType::Struct(_, _) => TypeFamily::Struct,
    }
}

/// A constant is declared once and never reassigned, so an identifier
/// of the constant kind must carry version 0.
pub open spec fn identifier_wf(id: SpecIdentifier) -> bool {
    id.kind is Constant ==> id.version == 0
}

/// Well-formedness of a node, as upstream type-checking guarantees
/// it: a literal inner form belongs to the family of the node's
/// static type, constant identifiers carry version 0, and every child
/// is well formed in turn.
pub open spec fn expression_wf(e: SpecExpression) -> bool
    decreases e,
{
    match e.inner {
        SpecExpressionInner::FieldValue(_) => family_of(e.ty) is FieldElement,
        SpecExpressionInner::BooleanValue(_) => family_of(e.ty) is Boolean,
        SpecExpressionInner::UintValue(_) => family_of(e.ty) is Uint,
        SpecExpressionInner::ArrayValue(es) => family_of(e.ty) is Array && expressions_wf(es),
        SpecExpressionInner::TupleValue(es) => family_of(e.ty) is Tuple && expressions_wf(es),
        SpecExpressionInner::StructValue(es) => family_of(e.ty) is Struct && expressions_wf(es),
        SpecExpressionInner::Identifier(id) => identifier_wf(id),
        SpecExpressionInner::Operation(_, es) => expressions_wf(es),
    }
}

/// Every expression of the sequence is well formed.
pub open spec fn expressions_wf(s: Seq<SpecExpression>) -> bool
    decreases s,
{
    forall|i: int| 0 <= i < s.len() ==> expression_wf(#[trigger] s[i])
}

/// Every bound value is a well-formed expression.
pub open spec fn bindings_wf(m: SpecBindings) -> bool {
    forall|n: Seq<char>| #[trigger] m.dom().contains(n) ==> expression_wf(m[n])
}

/// A symbolic size whose name is bound can only be backed by an
/// unsigned-integer literal; any other bound value there is a defect
/// of an earlier phase, which the pass treats as fatal.
pub open spec fn constant_compatible(c: SpecDeclarationConstant, m: SpecBindings) -> bool {
    match c {
        SpecDeclarationConstant::Constant(n) => m.dom().contains(n) ==> (m[n].ty is Uint
            && m[n].inner is UintValue),
        _ => true,
    }
}

/// Every symbolic size inside the type that resolves, resolves to an
/// unsigned-integer literal.
pub open spec fn type_compatible(t: SpecType, m: SpecBindings) -> bool
    decreases t,
{
    match t {
        SpecType::Array(el, size) => type_compatible(*el, m) && constant_compatible(size, m),
        SpecType::Tuple(ts) => types_compatible(ts, m),
        SpecType::Struct(_, ts) => types_compatible(ts, m),
        _ => true,
    }
}

/// Every type of the sequence is compatible with the bindings.
pub open spec fn types_compatible(s: Seq<SpecType>, m: SpecBindings) -> bool
    decreases s,
{
    forall|i: int| 0 <= i < s.len() ==> type_compatible(#[trigger] s[i], m)
}

/// At an identifier occurrence whose name is bound, the bound value
/// must belong to the expression family expected at the occurrence;
/// upstream type-checking is presumed to guarantee this.
pub open spec fn identifier_compatible(
    ty: SpecType,
    id: SpecIdentifier,
    m: SpecBindings,
) -> bool {
    id.kind is Constant && m.dom().contains(id.name) ==> family_of(m[id.name].ty) == family_of(ty)
}

/// The tree and the bindings fit together: every resolvable
/// identifier occurrence is backed by a value of the expected family,
/// and every resolvable type-level size by an unsigned-integer
/// literal.
pub open spec fn expression_compatible(e: SpecExpression, m: SpecBindings) -> bool
    decreases e,
{
    &&& type_compatible(e.ty, m)
    &&& match e.inner {
        SpecExpressionInner::Identifier(id) => identifier_compatible(e.ty, id, m),
        SpecExpressionInner::ArrayValue(es) => expressions_compatible(es, m),
        SpecExpressionInner::TupleValue(es) => expressions_compatible(es, m),
        SpecExpressionInner::StructValue(es) => expressions_compatible(es, m),
        SpecExpressionInner::Operation(_, es) => expressions_compatible(es, m),
        _ => true,
    }
}

/// Every expression of the sequence is compatible with the bindings.
pub open spec fn expressions_compatible(s: Seq<SpecExpression>, m: SpecBindings) -> bool
    decreases s,
{
    forall|i: int| 0 <= i < s.len() ==> expression_compatible(#[trigger] s[i], m)
}

/// Every expression the declaration holds is well formed.
pub open spec fn declaration_wf(d: SpecSymbolDeclaration) -> bool {
    expressions_wf(d.expressions)
}

/// The declaration and the bindings fit together.
pub open spec fn declaration_compatible(d: SpecSymbolDeclaration, m: SpecBindings) -> bool {
    types_compatible(d.types, m) && expressions_compatible(d.expressions, m)
}

/// Every declaration of the program is well formed.
pub open spec fn program_wf(p: SpecProgram) -> bool {
    forall|i: int| 0 <= i < p.declarations.len() ==> declaration_wf(#[trigger] p.declarations[i])
}

/// The program and the bindings fit together.
pub open spec fn program_compatible(p: SpecProgram, m: SpecBindings) -> bool {
    forall|i: int| 0 <= i < p.declarations.len() ==> declaration_compatible(
        #[trigger] p.declarations[i],
        m,
    )
}

/// The numeric payload of an unsigned-integer literal, coerced to a
/// concrete 32-bit size the way the pass coerces it: reduced modulo
/// 2^32.
pub open spec fn concrete_size_of(e: SpecExpression) -> u32 {
    ((e.inner->UintValue_0) % 0x1_0000_0000) as u32
}

/// How the pass rewrites one declaration constant: a symbolic
/// constant whose name is bound becomes the concrete numeric payload
/// of the bound unsigned-integer literal; a symbolic constant whose
/// name is absent survives unchanged; every other form is already
/// concrete for this pass's purposes and survives unchanged.
pub open spec fn spec_fold_declaration_constant(
    c: SpecDeclarationConstant,
    m: SpecBindings,
) -> SpecDeclarationConstant {
    match c {
        SpecDeclarationConstant::Constant(n) => if m.dom().contains(n) {
            SpecDeclarationConstant::Concrete(concrete_size_of(m[n]))
        } else {
            SpecDeclarationConstant::Constant(n)
        },
        _ => c,
    }
}

/// How the pass rewrites one identifier occurrence: an identifier of
/// the constant kind whose name is bound becomes the bound value's
/// inner form; every other identifier is re-emitted structurally
/// unchanged.
pub open spec fn spec_fold_identifier_expression(
    id: SpecIdentifier,
    m: SpecBindings,
) -> SpecIdentifierOrExpression {
    if id.kind is Constant && m.dom().contains(id.name) {
        SpecIdentifierOrExpression::Expression(m[id.name].inner)
    } else {
        SpecIdentifierOrExpression::Identifier(id)
    }
}

/// How the pass rewrites a type: every size parameter it carries is
/// rewritten, and nothing else changes.
pub open spec fn spec_fold_type(t: SpecType, m: SpecBindings) -> SpecType
    decreases t,
{
    match t {
        SpecType::Array(el, size) => SpecType::Array(
            Box::new(spec_fold_type(*el, m)),
            spec_fold_declaration_constant(size, m),
        ),
        SpecType::Tuple(ts) => SpecType::Tuple(spec_fold_types(ts, m)),
        SpecType::Struct(n, ts) => SpecType::Struct(n, spec_fold_types(ts, m)),
        _ => t,
    }
}

/// Pointwise rewrite of a sequence of types.
pub open spec fn spec_fold_types(s: Seq<SpecType>, m: SpecBindings) -> Seq<SpecType>
    decreases s,
{
    Seq::new(
        s.len(),
        |i: int|
            if 0 <= i < s.len() {
                spec_fold_type(s[i], m)
            } else {
                SpecType::FieldElement
            },
    )
}

/// How the pass rewrites an inner form: identifier occurrences go
/// through the identifier hook, literals survive unchanged, and
/// composite forms are rebuilt from their rewritten children.
pub open spec fn spec_fold_inner(i: SpecExpressionInner, m: SpecBindings) -> SpecExpressionInner
    decreases i,
{
    match i {
        SpecExpressionInner::Identifier(id) => match spec_fold_identifier_expression(id, m) {
            SpecIdentifierOrExpression::Identifier(id2) => SpecExpressionInner::Identifier(id2),
            SpecIdentifierOrExpression::Expression(inner) => inner,
        },
        SpecExpressionInner::ArrayValue(es) => SpecExpressionInner::ArrayValue(
            spec_fold_expressions(es, m),
        ),
        SpecExpressionInner::TupleValue(es) => SpecExpressionInner::TupleValue(
            spec_fold_expressions(es, m),
        ),
        SpecExpressionInner::StructValue(es) => SpecExpressionInner::StructValue(
            spec_fold_expressions(es, m),
        ),
        SpecExpressionInner::Operation(op, es) => SpecExpressionInner::Operation(
            op,
            spec_fold_expressions(es, m),
        ),
        _ => i,
    }
}

/// How the pass rewrites one node: its type and its inner form.
pub open spec fn spec_fold_expression(e: SpecExpression, m: SpecBindings) -> SpecExpression
    decreases e,
{
    SpecExpression { ty: spec_fold_type(e.ty, m), inner: spec_fold_inner(e.inner, m) }
}

/// Pointwise rewrite of a sequence of expressions.
pub open spec fn spec_fold_expressions(
    s: Seq<SpecExpression>,
    m: SpecBindings,
) -> Seq<SpecExpression>
    decreases s,
{
    Seq::new(
        s.len(),
        |i: int|
            if 0 <= i < s.len() {
                spec_fold_expression(s[i], m)
            } else {
                SpecExpression {
                    ty: SpecType::FieldElement,
                    inner: SpecExpressionInner::BooleanValue(false),
                }
            },
    )
}

/// How the pass rewrites one top-level declaration.
pub open spec fn spec_fold_declaration(
    d: SpecSymbolDeclaration,
    m: SpecBindings,
) -> SpecSymbolDeclaration {
    SpecSymbolDeclaration {
        id: d.id,
        types: spec_fold_types(d.types, m),
        expressions: spec_fold_expressions(d.expressions, m),
    }
}

/// How the pass rewrites a whole program: every declaration, in
/// order.
pub open spec fn spec_fold_program(p: SpecProgram, m: SpecBindings) -> SpecProgram {
    SpecProgram {
        declarations: Seq::new(
            p.declarations.len(),
            |i: int| spec_fold_declaration(p.declarations[i], m),
        ),
    }
}

/// The declaration constant mentions no bound name.
pub open spec fn constant_mentions_no_binding(
    c: SpecDeclarationConstant,
    m: SpecBindings,
) -> bool {
    match c {
        SpecDeclarationConstant::Constant(n) => !m.dom().contains(n),
        _ => true,
    }
}

/// No size parameter inside the type names a bound constant.
pub open spec fn type_mentions_no_binding(t: SpecType, m: SpecBindings) -> bool
    decreases t,
{
    match t {
        SpecType::Array(el, size) => type_mentions_no_binding(*el, m)
            && constant_mentions_no_binding(size, m),
        SpecType::Tuple(ts) => types_mention_no_binding(ts, m),
        SpecType::Struct(_, ts) => types_mention_no_binding(ts, m),
        _ => true,
    }
}

/// No type of the sequence mentions a bound name.
pub open spec fn types_mention_no_binding(s: Seq<SpecType>, m: SpecBindings) -> bool
    decreases s,
{
    forall|i: int| 0 <= i < s.len() ==> type_mentions_no_binding(#[trigger] s[i], m)
}

/// The identifier does not name a bound constant.
pub open spec fn identifier_mentions_no_binding(id: SpecIdentifier, m: SpecBindings) -> bool {
    id.kind is Constant ==> !m.dom().contains(id.name)
}

/// No constant identifier and no symbolic size anywhere in the inner
/// form names a bound constant.
pub open spec fn inner_mentions_no_binding(i: SpecExpressionInner, m: SpecBindings) -> bool
    decreases i,
{
    match i {
        SpecExpressionInner::Identifier(id) => identifier_mentions_no_binding(id, m),
        SpecExpressionInner::ArrayValue(es) => expressions_mention_no_binding(es, m),
        SpecExpressionInner::TupleValue(es) => expressions_mention_no_binding(es, m),
        SpecExpressionInner::StructValue(es) => expressions_mention_no_binding(es, m),
        SpecExpressionInner::Operation(_, es) => expressions_mention_no_binding(es, m),
        _ => true,
    }
}

/// No constant identifier and no symbolic size anywhere in the node
/// names a bound constant.
pub open spec fn expression_mentions_no_binding(e: SpecExpression, m: SpecBindings) -> bool
    decreases e,
{
    type_mentions_no_binding(e.ty, m) && inner_mentions_no_binding(e.inner, m)
}

/// No expression of the sequence mentions a bound name.
pub open spec fn expressions_mention_no_binding(s: Seq<SpecExpression>, m: SpecBindings) -> bool
    decreases s,
{
    forall|i: int| 0 <= i < s.len() ==> expression_mentions_no_binding(#[trigger] s[i], m)
}

/// The declaration mentions no bound name.
pub open spec fn declaration_mentions_no_binding(
    d: SpecSymbolDeclaration,
    m: SpecBindings,
) -> bool {
    types_mention_no_binding(d.types, m) && expressions_mention_no_binding(d.expressions, m)
}

/// The program mentions no bound name.
pub open spec fn program_mentions_no_binding(p: SpecProgram, m: SpecBindings) -> bool {
    forall|i: int| 0 <= i < p.declarations.len() ==> declaration_mentions_no_binding(
        #[trigger] p.declarations[i],
        m,
    )
}

/// The bindings are already evaluated: no bound value mentions a name
/// that is itself bound, so substituting a value can never create a
/// new resolvable occurrence.
pub open spec fn bindings_evaluated(m: SpecBindings) -> bool {
    forall|n: Seq<char>| #[trigger] m.dom().contains(n) ==> inner_mentions_no_binding(m[n].inner, m)
}

} // verus!
