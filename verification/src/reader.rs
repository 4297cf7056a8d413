//! The executable pass: given a read-only reference to the constant
//! bindings, rewrite a typed program (or one declaration) into a
//! freshly owned tree in which every resolvable constant occurrence
//! has become a literal.
//!
//! The traversal rebuilds every node from its rewritten children; two
//! hook points decide substitution: [`ConstantsReader::fold_identifier_expression`]
//! for identifier expressions and
//! [`ConstantsReader::fold_declaration_constant`] for type-level size
//! parameters. Every function is proved to compute exactly the
//! corresponding `spec_fold` function of the model.

use vstd::prelude::*;

use crate::ast::{
    clone_declaration_constant, clone_identifier, clone_inner, expression_view, expressions_view,
    type_view, types_view, DeclarationConstant, ExpressionInner, Identifier, IdentifierKind,
    IdentifierOrExpression, Type, TypedExpression, TypedProgram, TypedSymbolDeclaration,
};
use crate::bindings::ConstantDefinitions;
use crate::model::{
    constant_compatible, declaration_compatible, declaration_wf, expression_compatible,
    expression_wf, expressions_compatible, expressions_wf, identifier_compatible, identifier_wf,
    program_compatible, program_wf, spec_fold_declaration, spec_fold_declaration_constant,
    spec_fold_expression, spec_fold_expressions, spec_fold_identifier_expression,
    spec_fold_program, spec_fold_type, spec_fold_types, type_compatible, types_compatible,
    SpecBindings,
};

verus! {

/// The constant-substitution pass. It holds only a borrowed reference
/// to the bindings and keeps no state of its own: each application is
/// a pure function from tree and bindings to a new, equivalently
/// shaped tree.
pub struct ConstantsReader<'a> {
    constants: &'a ConstantDefinitions,
}

impl<'a> ConstantsReader<'a> {
    /// The bindings the reader substitutes from.
    pub closed spec fn bindings(self) -> SpecBindings {
        self.constants@
    }

    /// A reader over the given bindings.
    pub fn with_constants(constants: &'a ConstantDefinitions) -> (r: Self)
        ensures
            r.bindings() == constants@,
    {
        ConstantsReader { constants }
    }

    /// Rewrite one type-level size parameter: a symbolic constant
    /// whose name is bound becomes the concrete numeric payload of
    /// the bound unsigned-integer literal; every other form survives
    /// unchanged. A bound value of any other shape is a defect of an
    /// earlier phase, excluded by precondition, never a recoverable
    /// error.
    pub fn fold_declaration_constant(&self, c: DeclarationConstant) -> (r: DeclarationConstant)
        requires
            constant_compatible(c@, self.bindings()),
        ensures
            r@ == spec_fold_declaration_constant(c@, self.bindings()),
    {
        match c {
            DeclarationConstant::Constant(name) => {
                match self.constants.get(&name) {
                    Some(e) => {
                        match (&e.ty, &e.inner) {
                            (Type::Uint(_), ExpressionInner::UintValue(v)) => {
                                DeclarationConstant::Concrete(((*v) % 0x1_0000_0000) as u32)
                            },
                            _ => unreached(),
                        }
                    },
                    None => DeclarationConstant::Constant(name),
                }
            },
            other => other,
        }
    }

    /// Rewrite one identifier occurrence of the expression family
    /// expected at `ty`: an identifier of the constant kind whose
    /// name is bound becomes the bound value's inner form; a constant
    /// identifier whose name is absent is re-emitted, structurally
    /// equal to the input, so it survives for a later resolution
    /// attempt; any other identifier falls through unchanged.
    pub fn fold_identifier_expression(&self, ty: &Type, e: Identifier) -> (r:
        IdentifierOrExpression)
        requires
            identifier_wf(e@),
            identifier_compatible(ty@, e@, self.bindings()),
        ensures
            r@ == spec_fold_identifier_expression(e@, self.bindings()),
    {
        match e.kind {
            IdentifierKind::Constant => {
                match self.constants.get(&e.name) {
                    Some(v) => IdentifierOrExpression::Expression(clone_inner(&v.inner)),
                    None => IdentifierOrExpression::Identifier(
                        Identifier { name: e.name, kind: IdentifierKind::Constant, version: 0 },
                    ),
                }
            },
            _ => IdentifierOrExpression::Identifier(e),
        }
    }

    /// Rewrite a type: every size parameter it carries goes through
    /// the declaration-constant hook; topology and every other
    /// component survive unchanged.
    pub fn fold_type(&self, t: &Type) -> (r: Type)
        requires
            type_compatible(t@, self.bindings()),
        ensures
            r@ == spec_fold_type(t@, self.bindings()),
        decreases t,
    {
        match t {
            Type::FieldElement => Type::FieldElement,
            Type::Boolean => Type::Boolean,
            Type::Uint(w) => Type::Uint(*w),
            Type::Array(el, size) => Type::Array(
                Box::new(self.fold_type(&**el)),
                self.fold_declaration_constant(clone_declaration_constant(size)),
            ),
            Type::Tuple(ts) => Type::Tuple(self.fold_types(ts)),
            Type::Struct(name, ts) => Type::Struct(name.clone(), self.fold_types(ts)),
        }
    }

    /// Rewrite every type of a sequence, in order.
    fn fold_types(&self, ts: &Vec<Type>) -> (r: Vec<Type>)
        requires
            types_compatible(types_view(ts@), self.bindings()),
        ensures
            types_view(r@) == spec_fold_types(types_view(ts@), self.bindings()),
        decreases ts,
    {
        let n = ts.len();
        let mut r: Vec<Type> = Vec::new();
        let mut i: usize = 0;
        while i < n
            invariant
                i <= n,
                n == ts@.len(),
                r@.len() == i,
                types_compatible(types_view(ts@), self.bindings()),
                forall|j: int|
                    0 <= j < i ==> #[trigger] type_view(r@[j]) == spec_fold_type(
                        type_view(ts@[j]),
                        self.bindings(),
                    ),
            decreases n - i,
        {
            proof {
                assert(types_view(ts@)[i as int] == type_view(ts@[i as int]));
            }
            let c = self.fold_type(&ts[i]);
            r.push(c);
            i = i + 1;
        }
        proof {
            let m = self.bindings();
            assert forall|j: int| 0 <= j < ts@.len() implies types_view(r@)[j] == spec_fold_types(
                types_view(ts@),
                m,
            )[j] by {
                assert(types_view(r@)[j] == type_view(r@[j]));
                assert(types_view(ts@)[j] == type_view(ts@[j]));
            }
            assert(types_view(r@) =~= spec_fold_types(types_view(ts@), m));
        }
        r
    }

    /// Rewrite one expression node: its type through the type
    /// traversal, its inner form through the identifier hook where it
    /// is an identifier, and its children structurally otherwise.
    pub fn fold_expression(&self, e: &TypedExpression) -> (r: TypedExpression)
        requires
            expression_wf(e@),
            expression_compatible(e@, self.bindings()),
        ensures
            r@ == spec_fold_expression(e@, self.bindings()),
        decreases e,
    {
        let ty = self.fold_type(&e.ty);
        let inner = match &e.inner {
            ExpressionInner::FieldValue(v) => ExpressionInner::FieldValue(*v),
            ExpressionInner::BooleanValue(b) => ExpressionInner::BooleanValue(*b),
            ExpressionInner::UintValue(v) => ExpressionInner::UintValue(*v),
            ExpressionInner::ArrayValue(es) => ExpressionInner::ArrayValue(
                self.fold_expressions(es),
            ),
            ExpressionInner::TupleValue(es) => ExpressionInner::TupleValue(
                self.fold_expressions(es),
            ),
            ExpressionInner::StructValue(es) => ExpressionInner::StructValue(
                self.fold_expressions(es),
            ),
            ExpressionInner::Identifier(id) => {
                match self.fold_identifier_expression(&e.ty, clone_identifier(id)) {
                    IdentifierOrExpression::Identifier(id2) => ExpressionInner::Identifier(id2),
                    IdentifierOrExpression::Expression(inner) => inner,
                }
            },
            ExpressionInner::Operation(op, es) => ExpressionInner::Operation(
                *op,
                self.fold_expressions(es),
            ),
        };
        TypedExpression { ty, inner }
    }

    /// Rewrite every expression of a sequence, in order.
    fn fold_expressions(&self, es: &Vec<TypedExpression>) -> (r: Vec<TypedExpression>)
        requires
            expressions_wf(expressions_view(es@)),
            expressions_compatible(expressions_view(es@), self.bindings()),
        ensures
            expressions_view(r@) == spec_fold_expressions(
                expressions_view(es@),
                self.bindings(),
            ),
        decreases es,
    {
        let n = es.len();
        let mut r: Vec<TypedExpression> = Vec::new();
        let mut i: usize = 0;
        while i < n
            invariant
                i <= n,
                n == es@.len(),
                r@.len() == i,
                expressions_wf(expressions_view(es@)),
                expressions_compatible(expressions_view(es@), self.bindings()),
                forall|j: int|
                    0 <= j < i ==> #[trigger] expression_view(r@[j]) == spec_fold_expression(
                        expression_view(es@[j]),
                        self.bindings(),
                    ),
            decreases n - i,
        {
            proof {
                assert(expressions_view(es@)[i as int] == expression_view(es@[i as int]));
            }
            let c = self.fold_expression(&es[i]);
            r.push(c);
            i = i + 1;
        }
        proof {
            let m = self.bindings();
            assert forall|j: int| 0 <= j < es@.len() implies expressions_view(r@)[j]
                == spec_fold_expressions(expressions_view(es@), m)[j] by {
                assert(expressions_view(r@)[j] == expression_view(r@[j]));
                assert(expressions_view(es@)[j] == expression_view(es@[j]));
            }
            assert(expressions_view(r@) =~= spec_fold_expressions(expressions_view(es@), m));
        }
        r
    }

    /// Rewrite one top-level declaration into a freshly owned one.
    fn fold_symbol_declaration(&self, d: &TypedSymbolDeclaration) -> (r: TypedSymbolDeclaration)
        requires
            declaration_wf(d@),
            declaration_compatible(d@, self.bindings()),
        ensures
            r@ == spec_fold_declaration(d@, self.bindings()),
    {
        TypedSymbolDeclaration {
            id: d.id.clone(),
            types: self.fold_types(&d.types),
            expressions: self.fold_expressions(&d.expressions),
        }
    }

    /// Rewrite every declaration of a program, in order.
    fn fold_program(&self, p: &TypedProgram) -> (r: TypedProgram)
        requires
            program_wf(p@),
            program_compatible(p@, self.bindings()),
        ensures
            r@ == spec_fold_program(p@, self.bindings()),
    {
        let n = p.declarations.len();
        let mut out: Vec<TypedSymbolDeclaration> = Vec::new();
        let mut i: usize = 0;
        while i < n
            invariant
                i <= n,
                n == p.declarations@.len(),
                out@.len() == i,
                program_wf(p@),
                program_compatible(p@, self.bindings()),
                forall|j: int|
                    0 <= j < i ==> #[trigger] out@[j]@ == spec_fold_declaration(
                        p.declarations@[j]@,
                        self.bindings(),
                    ),
            decreases n - i,
        {
            proof {
                assert(p@.declarations[i as int] == p.declarations@[i as int]@);
            }
            let c = self.fold_symbol_declaration(&p.declarations[i]);
            out.push(c);
            i = i + 1;
        }
        let r = TypedProgram { declarations: out };
        proof {
            let m = self.bindings();
            assert forall|j: int| 0 <= j < n implies r@.declarations[j] == spec_fold_program(
                p@,
                m,
            ).declarations[j] by {
                assert(r@.declarations[j] == r.declarations@[j]@);
                assert(p@.declarations[j] == p.declarations@[j]@);
            }
            assert(r@.declarations =~= spec_fold_program(p@, m).declarations);
        }
        r
    }

    /// Apply the pass to a whole program: a full-tree rewrite that
    /// produces a freshly owned, equivalently shaped program in which
    /// every resolvable constant occurrence has become a literal.
    pub fn read_into_program(&mut self, p: TypedProgram) -> (r: TypedProgram)
        requires
            program_wf(p@),
            program_compatible(p@, old(self).bindings()),
        ensures
            r@ == spec_fold_program(p@, old(self).bindings()),
            *final(self) == *old(self),
    {
        self.fold_program(&p)
    }

    /// Apply the pass to a single top-level declaration, for
    /// incremental, pipelined use; the contract is the program-level
    /// one scoped to one item.
    pub fn read_into_symbol_declaration(&mut self, d: TypedSymbolDeclaration) -> (r:
        TypedSymbolDeclaration)
        requires
            declaration_wf(d@),
            declaration_compatible(d@, old(self).bindings()),
        ensures
            r@ == spec_fold_declaration(d@, old(self).bindings()),
            *final(self) == *old(self),
    {
        self.fold_symbol_declaration(&d)
    }
}

} // verus!
