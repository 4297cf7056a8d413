//! The global laws of the pass, proved of the mathematical model:
//!
//! * a tree that mentions no bound name folds to itself, so a
//!   constant absent from the bindings always survives unchanged;
//! * with empty bindings the pass is the identity transform;
//! * after one pass no bound name survives anywhere in the output;
//! * hence the pass is idempotent: folding twice with the same
//!   bindings is folding once;
//! * the pass never introduces a type error: well-formedness is
//!   preserved.

use vstd::prelude::*;

use crate::ast::{
    SpecDeclarationConstant, SpecExpression, SpecExpressionInner, SpecProgram,
    SpecSymbolDeclaration, SpecType,
};
use crate::model::{
    bindings_evaluated, bindings_wf, constant_mentions_no_binding, declaration_compatible,
    declaration_mentions_no_binding, declaration_wf, expression_compatible,
    expression_mentions_no_binding, expression_wf, expressions_compatible,
    expressions_mention_no_binding, expressions_wf, family_of, inner_mentions_no_binding,
    program_compatible, program_mentions_no_binding, program_wf, spec_fold_declaration,
    spec_fold_declaration_constant, spec_fold_expression, spec_fold_expressions, spec_fold_inner,
    spec_fold_program, spec_fold_type, spec_fold_types, type_mentions_no_binding,
    types_mention_no_binding, SpecBindings,
};

verus! {

/// A type that mentions no bound name folds to itself.
proof fn lemma_fold_type_untouched(t: SpecType, m: SpecBindings)
    requires
        type_mentions_no_binding(t, m),
    ensures
        spec_fold_type(t, m) == t,
    decreases t,
{
    match t {
        SpecType::Array(el, size) => {
            lemma_fold_type_untouched(*el, m);
        },
        SpecType::Tuple(ts) => {
            lemma_fold_types_untouched(ts, m);
        },
        SpecType::Struct(_, ts) => {
            lemma_fold_types_untouched(ts, m);
        },
        _ => {},
    }
}

/// Types that mention no bound name fold to themselves.
proof fn lemma_fold_types_untouched(s: Seq<SpecType>, m: SpecBindings)
    requires
        types_mention_no_binding(s, m),
    ensures
        spec_fold_types(s, m) == s,
    decreases s,
{
    assert forall|i: int| 0 <= i < s.len() implies spec_fold_types(s, m)[i] == s[i] by {
        lemma_fold_type_untouched(s[i], m);
    }
    assert(spec_fold_types(s, m) =~= s);
}

/// An inner form that mentions no bound name folds to itself.
proof fn lemma_fold_inner_untouched(i: SpecExpressionInner, m: SpecBindings)
    requires
        inner_mentions_no_binding(i, m),
    ensures
        spec_fold_inner(i, m) == i,
    decreases i,
{
    match i {
        SpecExpressionInner::ArrayValue(es) => {
            lemma_fold_expressions_untouched(es, m);
        },
        SpecExpressionInner::TupleValue(es) => {
            lemma_fold_expressions_untouched(es, m);
        },
        SpecExpressionInner::StructValue(es) => {
            lemma_fold_expressions_untouched(es, m);
        },
        SpecExpressionInner::Operation(_, es) => {
            lemma_fold_expressions_untouched(es, m);
        },
        _ => {},
    }
}

/// An expression that mentions no bound name folds to itself: a
/// constant identifier absent from the bindings survives structurally
/// unchanged, and so does every subtree around it.
pub proof fn lemma_fold_expression_untouched(e: SpecExpression, m: SpecBindings)
    requires
        expression_mentions_no_binding(e, m),
    ensures
        spec_fold_expression(e, m) == e,
    decreases e,
{
    lemma_fold_type_untouched(e.ty, m);
    lemma_fold_inner_untouched(e.inner, m);
}

/// Expressions that mention no bound name fold to themselves.
proof fn lemma_fold_expressions_untouched(s: Seq<SpecExpression>, m: SpecBindings)
    requires
        expressions_mention_no_binding(s, m),
    ensures
        spec_fold_expressions(s, m) == s,
    decreases s,
{
    assert forall|i: int| 0 <= i < s.len() implies spec_fold_expressions(s, m)[i] == s[i] by {
        lemma_fold_expression_untouched(s[i], m);
    }
    assert(spec_fold_expressions(s, m) =~= s);
}

/// A declaration that mentions no bound name folds to itself.
proof fn lemma_fold_declaration_untouched(d: SpecSymbolDeclaration, m: SpecBindings)
    requires
        declaration_mentions_no_binding(d, m),
    ensures
        spec_fold_declaration(d, m) == d,
{
    lemma_fold_types_untouched(d.types, m);
    lemma_fold_expressions_untouched(d.expressions, m);
}

/// A program that mentions no bound name folds to itself: every
/// constant identifier absent from the bindings survives in the
/// output, structurally unchanged, with every other subtree
/// untouched.
pub proof fn lemma_fold_program_untouched(p: SpecProgram, m: SpecBindings)
    requires
        program_mentions_no_binding(p, m),
    ensures
        spec_fold_program(p, m) == p,
{
    assert forall|i: int| 0 <= i < p.declarations.len() implies spec_fold_program(
        p,
        m,
    ).declarations[i] == p.declarations[i] by {
        lemma_fold_declaration_untouched(p.declarations[i], m);
    }
    assert(spec_fold_program(p, m).declarations =~= p.declarations);
}

/// Empty bindings contain no name at all.
proof fn lemma_not_in_empty(m: SpecBindings, n: Seq<char>)
    requires
        m.dom() == Set::<Seq<char>>::empty(),
    ensures
        !m.dom().contains(n),
{
    assert(!Set::<Seq<char>>::empty().contains(n));
}

/// With no binding in scope, nothing in a type is mentioned.
proof fn lemma_type_mentions_none_of_empty(t: SpecType, m: SpecBindings)
    requires
        m.dom() == Set::<Seq<char>>::empty(),
    ensures
        type_mentions_no_binding(t, m),
    decreases t,
{
    match t {
        SpecType::Array(el, size) => {
            lemma_type_mentions_none_of_empty(*el, m);
            match size {
                SpecDeclarationConstant::Constant(n) => {
                    lemma_not_in_empty(m, n);
                },
                _ => {},
            }
        },
        SpecType::Tuple(ts) => {
            assert forall|i: int| 0 <= i < ts.len() implies type_mentions_no_binding(
                #[trigger] ts[i],
                m,
            ) by {
                lemma_type_mentions_none_of_empty(ts[i], m);
            }
            assert(types_mention_no_binding(ts, m));
        },
        SpecType::Struct(_, ts) => {
            assert forall|i: int| 0 <= i < ts.len() implies type_mentions_no_binding(
                #[trigger] ts[i],
                m,
            ) by {
                lemma_type_mentions_none_of_empty(ts[i], m);
            }
            assert(types_mention_no_binding(ts, m));
        },
        _ => {},
    }
}

/// With no binding in scope, nothing in an expression is mentioned.
proof fn lemma_expression_mentions_none_of_empty(e: SpecExpression, m: SpecBindings)
    requires
        m.dom() == Set::<Seq<char>>::empty(),
    ensures
        expression_mentions_no_binding(e, m),
    decreases e,
{
    lemma_type_mentions_none_of_empty(e.ty, m);
    match e.inner {
        SpecExpressionInner::ArrayValue(es) => {
            lemma_expressions_mention_none_of_empty(es, m);
        },
        SpecExpressionInner::TupleValue(es) => {
            lemma_expressions_mention_none_of_empty(es, m);
        },
        SpecExpressionInner::StructValue(es) => {
            lemma_expressions_mention_none_of_empty(es, m);
        },
        SpecExpressionInner::Operation(_, es) => {
            lemma_expressions_mention_none_of_empty(es, m);
        },
        SpecExpressionInner::Identifier(id) => {
            lemma_not_in_empty(m, id.name);
        },
        _ => {},
    }
}

/// With no binding in scope, nothing in a sequence of expressions is
/// mentioned.
proof fn lemma_expressions_mention_none_of_empty(s: Seq<SpecExpression>, m: SpecBindings)
    requires
        m.dom() == Set::<Seq<char>>::empty(),
    ensures
        expressions_mention_no_binding(s, m),
    decreases s,
{
    assert forall|i: int| 0 <= i < s.len() implies expression_mentions_no_binding(
        #[trigger] s[i],
        m,
    ) by {
        lemma_expression_mentions_none_of_empty(s[i], m);
    }
    assert(expressions_mention_no_binding(s, m));
}

/// With empty bindings the pass is the identity transform on any
/// expression.
pub proof fn lemma_fold_expression_empty_identity(e: SpecExpression, m: SpecBindings)
    requires
        m.dom() == Set::<Seq<char>>::empty(),
    ensures
        spec_fold_expression(e, m) == e,
{
    lemma_expression_mentions_none_of_empty(e, m);
    lemma_fold_expression_untouched(e, m);
}

/// With empty bindings the pass is the identity transform: any input
/// program folds to a program structurally identical to itself.
pub proof fn lemma_fold_program_empty_identity(p: SpecProgram, m: SpecBindings)
    requires
        m.dom() == Set::<Seq<char>>::empty(),
    ensures
        spec_fold_program(p, m) == p,
{
    assert forall|i: int| 0 <= i < p.declarations.len() implies declaration_mentions_no_binding(
        #[trigger] p.declarations[i],
        m,
    ) by {
        let d = p.declarations[i];
        assert forall|j: int| 0 <= j < d.types.len() implies type_mentions_no_binding(
            #[trigger] d.types[j],
            m,
        ) by {
            lemma_type_mentions_none_of_empty(d.types[j], m);
        }
        lemma_expressions_mention_none_of_empty(d.expressions, m);
    }
    lemma_fold_program_untouched(p, m);
}

/// A folded type mentions no bound name: every symbolic size either
/// became concrete or was unbound to begin with.
proof fn lemma_fold_type_resolves(t: SpecType, m: SpecBindings)
    ensures
        type_mentions_no_binding(spec_fold_type(t, m), m),
    decreases t,
{
    match t {
        SpecType::Array(el, size) => {
            lemma_fold_type_resolves(*el, m);
            assert(constant_mentions_no_binding(spec_fold_declaration_constant(size, m), m));
        },
        SpecType::Tuple(ts) => {
            lemma_fold_types_resolve(ts, m);
        },
        SpecType::Struct(_, ts) => {
            lemma_fold_types_resolve(ts, m);
        },
        _ => {},
    }
}

/// Folded types mention no bound name.
proof fn lemma_fold_types_resolve(s: Seq<SpecType>, m: SpecBindings)
    ensures
        types_mention_no_binding(spec_fold_types(s, m), m),
    decreases s,
{
    let sf = spec_fold_types(s, m);
    assert forall|i: int| 0 <= i < sf.len() implies type_mentions_no_binding(
        #[trigger] sf[i],
        m,
    ) by {
        lemma_fold_type_resolves(s[i], m);
    }
}

/// A folded inner form mentions no bound name, provided the bindings
/// are already evaluated.
proof fn lemma_fold_inner_resolves(i: SpecExpressionInner, m: SpecBindings)
    requires
        bindings_evaluated(m),
    ensures
        inner_mentions_no_binding(spec_fold_inner(i, m), m),
    decreases i,
{
    match i {
        SpecExpressionInner::ArrayValue(es) => {
            lemma_fold_expressions_resolve(es, m);
        },
        SpecExpressionInner::TupleValue(es) => {
            lemma_fold_expressions_resolve(es, m);
        },
        SpecExpressionInner::StructValue(es) => {
            lemma_fold_expressions_resolve(es, m);
        },
        SpecExpressionInner::Operation(_, es) => {
            lemma_fold_expressions_resolve(es, m);
        },
        SpecExpressionInner::Identifier(id) => {
            if id.kind is Constant && m.dom().contains(id.name) {
                assert(inner_mentions_no_binding(m[id.name].inner, m));
            }
        },
        _ => {},
    }
}

/// After one pass no bound name survives anywhere in the expression:
/// every occurrence of a bound constant was replaced by the bound
/// value's literal form, and nothing else changed.
pub proof fn lemma_fold_expression_resolves(e: SpecExpression, m: SpecBindings)
    requires
        bindings_evaluated(m),
    ensures
        expression_mentions_no_binding(spec_fold_expression(e, m), m),
    decreases e,
{
    lemma_fold_type_resolves(e.ty, m);
    lemma_fold_inner_resolves(e.inner, m);
}

/// Folded expressions mention no bound name.
proof fn lemma_fold_expressions_resolve(s: Seq<SpecExpression>, m: SpecBindings)
    requires
        bindings_evaluated(m),
    ensures
        expressions_mention_no_binding(spec_fold_expressions(s, m), m),
    decreases s,
{
    let sf = spec_fold_expressions(s, m);
    assert forall|i: int| 0 <= i < sf.len() implies expression_mentions_no_binding(
        #[trigger] sf[i],
        m,
    ) by {
        lemma_fold_expression_resolves(s[i], m);
    }
}

/// After one pass no bound name survives anywhere in the program.
pub proof fn lemma_fold_program_resolves(p: SpecProgram, m: SpecBindings)
    requires
        bindings_evaluated(m),
    ensures
        program_mentions_no_binding(spec_fold_program(p, m), m),
{
    let pf = spec_fold_program(p, m);
    assert forall|i: int| 0 <= i < pf.declarations.len() implies declaration_mentions_no_binding(
        #[trigger] pf.declarations[i],
        m,
    ) by {
        lemma_fold_types_resolve(p.declarations[i].types, m);
        lemma_fold_expressions_resolve(p.declarations[i].expressions, m);
    }
}

/// Folding an expression twice with the same, already evaluated
/// bindings is folding it once: after the first pass no matching
/// constant occurrence remains, so the second pass has nothing to do.
pub proof fn lemma_fold_expression_idempotent(e: SpecExpression, m: SpecBindings)
    requires
        bindings_evaluated(m),
    ensures
        spec_fold_expression(spec_fold_expression(e, m), m) == spec_fold_expression(e, m),
{
    lemma_fold_expression_resolves(e, m);
    lemma_fold_expression_untouched(spec_fold_expression(e, m), m);
}

/// Folding one declaration twice with the same, already evaluated
/// bindings is folding it once: the program-level idempotence scoped
/// to a single top-level item.
pub proof fn lemma_fold_declaration_idempotent(d: SpecSymbolDeclaration, m: SpecBindings)
    requires
        bindings_evaluated(m),
    ensures
        spec_fold_declaration(spec_fold_declaration(d, m), m) == spec_fold_declaration(d, m),
{
    lemma_fold_types_resolve(d.types, m);
    lemma_fold_expressions_resolve(d.expressions, m);
    lemma_fold_declaration_untouched(spec_fold_declaration(d, m), m);
}

/// Folding a program twice with the same, already evaluated bindings
/// is folding it once.
pub proof fn lemma_fold_program_idempotent(p: SpecProgram, m: SpecBindings)
    requires
        bindings_evaluated(m),
    ensures
        spec_fold_program(spec_fold_program(p, m), m) == spec_fold_program(p, m),
{
    lemma_fold_program_resolves(p, m);
    lemma_fold_program_untouched(spec_fold_program(p, m), m);
}

/// Folding keeps a type in its expression family.
proof fn lemma_fold_type_family(t: SpecType, m: SpecBindings)
    ensures
        family_of(spec_fold_type(t, m)) == family_of(t),
{
}

/// Folding a well-formed expression over compatible, well-formed
/// bindings yields a well-formed expression: the pass never
/// introduces a type error.
pub proof fn lemma_fold_expression_wf(e: SpecExpression, m: SpecBindings)
    requires
        expression_wf(e),
        expression_compatible(e, m),
        bindings_wf(m),
    ensures
        expression_wf(spec_fold_expression(e, m)),
    decreases e,
{
    lemma_fold_type_family(e.ty, m);
    match e.inner {
        SpecExpressionInner::ArrayValue(es) => {
            lemma_fold_expressions_wf(es, m);
        },
        SpecExpressionInner::TupleValue(es) => {
            lemma_fold_expressions_wf(es, m);
        },
        SpecExpressionInner::StructValue(es) => {
            lemma_fold_expressions_wf(es, m);
        },
        SpecExpressionInner::Operation(_, es) => {
            lemma_fold_expressions_wf(es, m);
        },
        SpecExpressionInner::Identifier(id) => {
            if id.kind is Constant && m.dom().contains(id.name) {
                assert(expression_wf(m[id.name]));
                assert(family_of(m[id.name].ty) == family_of(e.ty));
            }
        },
        _ => {},
    }
}

/// Folded expressions are well formed.
proof fn lemma_fold_expressions_wf(s: Seq<SpecExpression>, m: SpecBindings)
    requires
        expressions_wf(s),
        expressions_compatible(s, m),
        bindings_wf(m),
    ensures
        expressions_wf(spec_fold_expressions(s, m)),
    decreases s,
{
    let sf = spec_fold_expressions(s, m);
    assert forall|i: int| 0 <= i < sf.len() implies expression_wf(#[trigger] sf[i]) by {
        assert(expression_wf(s[i]));
        assert(expression_compatible(s[i], m));
        lemma_fold_expression_wf(s[i], m);
    }
}

/// Folding a well-formed program over compatible, well-formed
/// bindings yields a well-formed program: the output has identical
/// node kinds and types to the input except that resolved constant
/// occurrences became literals.
pub proof fn lemma_fold_program_wf(p: SpecProgram, m: SpecBindings)
    requires
        program_wf(p),
        program_compatible(p, m),
        bindings_wf(m),
    ensures
        program_wf(spec_fold_program(p, m)),
{
    let pf = spec_fold_program(p, m);
    assert forall|i: int| 0 <= i < pf.declarations.len() implies declaration_wf(
        #[trigger] pf.declarations[i],
    ) by {
        assert(declaration_wf(p.declarations[i]));
        assert(declaration_compatible(p.declarations[i], m));
        lemma_fold_expressions_wf(p.declarations[i].expressions, m);
    }
}

} // verus!
