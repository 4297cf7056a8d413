//! The typed tree that the pass rewrites, together with its
//! mathematical image.
//!
//! Every executable node kind has a ghost counterpart (`Spec...`) in
//! which owned strings become sequences of characters and vectors
//! become sequences, so that contracts can speak of structural
//! equality. The `view` of a node is its ghost counterpart.
//!
//! The expression-variant families (field element, boolean, unsigned
//! integer, array, tuple, struct) are represented by the type tag
//! every node carries, so a single identifier hook applies uniformly
//! to an identifier occurrence of any family.

use vstd::prelude::*;

verus! {

/// Whether a name denotes a compile-time constant or an ordinary
/// source-level binding.
#[derive(Clone, Copy, PartialEq, Eq, Debug)]
pub enum IdentifierKind {
    /// The name denotes a compile-time constant. Constants are never
    /// reassigned, so the version of such an identifier is always 0.
    Constant,
    /// Any other identifier.
    Source,
}

/// A name paired with a version number disambiguating reassignment
/// within a scope.
#[derive(PartialEq, Eq, Debug)]
pub struct Identifier {
    pub name: String,
    pub kind: IdentifierKind,
    pub version: u32,
}

/// Ghost image of an [`Identifier`].
pub struct SpecIdentifier {
    pub name: Seq<char>,
    pub kind: IdentifierKind,
    pub version: u32,
}

impl View for Identifier {
    type V = SpecIdentifier;

    open spec fn view(&self) -> SpecIdentifier {
        SpecIdentifier { name: self.name@, kind: self.kind, version: self.version }
    }
}

/// A type-level numeric parameter, used wherever a type carries a
/// compile-time size (an array length): either already concrete, or a
/// named constant awaiting resolution, or a generic parameter that a
/// different pass resolves.
#[derive(PartialEq, Eq, Debug)]
pub enum DeclarationConstant {
    /// An already-resolved, closed numeral.
    Concrete(u32),
    /// A symbolic reference to a named constant.
    Constant(String),
    /// A generic parameter, out of this pass's reach.
    Generic(String),
}

/// Ghost image of a [`DeclarationConstant`].
pub enum SpecDeclarationConstant {
    Concrete(u32),
    Constant(Seq<char>),
    Generic(Seq<char>),
}

impl View for DeclarationConstant {
    type V = SpecDeclarationConstant;

    open spec fn view(&self) -> SpecDeclarationConstant {
        match *self {
            DeclarationConstant::Concrete(v) => SpecDeclarationConstant::Concrete(v),
            DeclarationConstant::Constant(ref n) => SpecDeclarationConstant::Constant(n@),
            DeclarationConstant::Generic(ref g) => SpecDeclarationConstant::Generic(g@),
        }
    }
}

/// The static type carried by every expression node.
#[derive(PartialEq, Eq, Debug)]
pub enum Type {
    FieldElement,
    Boolean,
    /// A fixed-width unsigned integer type of the given bitwidth.
    Uint(u32),
    /// An array of the element type, whose length is a declaration
    /// constant and may still be symbolic.
    Array(Box<Type>, DeclarationConstant),
    Tuple(Vec<Type>),
    /// A named structure with its member types.
    Struct(String, Vec<Type>),
}

/// Ghost image of a [`Type`].
pub enum SpecType {
    FieldElement,
    Boolean,
    Uint(u32),
    Array(Box<SpecType>, SpecDeclarationConstant),
    Tuple(Seq<SpecType>),
    Struct(Seq<char>, Seq<SpecType>),
}

/// Ghost image of a [`Type`], structurally.
pub open spec fn type_view(t: Type) -> SpecType
    decreases t,
{
    match t {
        Type::FieldElement => SpecType::FieldElement,
        Type::Boolean => SpecType::Boolean,
        Type::Uint(w) => SpecType::Uint(w),
        Type::Array(el, size) => SpecType::Array(Box::new(type_view(*el)), size@),
        Type::Tuple(ts) => SpecType::Tuple(types_view(ts@)),
        Type::Struct(name, ts) => SpecType::Struct(name@, types_view(ts@)),
    }
}

/// Pointwise ghost image of a sequence of types.
pub open spec fn types_view(s: Seq<Type>) -> Seq<SpecType>
    decreases s,
{
    Seq::new(
        s.len(),
        |i: int|
            if 0 <= i < s.len() {
                type_view(s[i])
            } else {
                SpecType::FieldElement
            },
    )
}

impl View for Type {
    type V = SpecType;

    open spec fn view(&self) -> SpecType {
        type_view(*self)
    }
}

/// The operator of a composite expression. The pass treats every
/// operator uniformly, rebuilding the node from its rewritten
/// children.
#[derive(Clone, Copy, PartialEq, Eq, Debug)]
pub enum OperatorKind {
    Add,
    Sub,
    Mult,
    Div,
    And,
    Or,
    Not,
    Eq,
    Lt,
    Select,
}

/// The inner form of an expression node: a literal value of one of
/// the expression families, an identifier reference, or a composite
/// operator application.
#[derive(PartialEq, Eq, Debug)]
pub enum ExpressionInner {
    /// A field-element literal, carried through opaquely.
    FieldValue(u128),
    /// A boolean literal.
    BooleanValue(bool),
    /// A fixed-width unsigned-integer literal.
    UintValue(u128),
    /// An array literal with its element expressions.
    ArrayValue(Vec<TypedExpression>),
    /// A tuple literal with its component expressions.
    TupleValue(Vec<TypedExpression>),
    /// A struct literal with its member expressions.
    StructValue(Vec<TypedExpression>),
    /// A reference to a named value.
    Identifier(Identifier),
    /// A composite operator application over child expressions.
    Operation(OperatorKind, Vec<TypedExpression>),
}

/// One node of the typed tree: a statically known type paired with an
/// inner form.
#[derive(PartialEq, Eq, Debug)]
pub struct TypedExpression {
    pub ty: Type,
    pub inner: ExpressionInner,
}

/// Ghost image of an [`ExpressionInner`].
pub enum SpecExpressionInner {
    FieldValue(u128),
    BooleanValue(bool),
    UintValue(u128),
    ArrayValue(Seq<SpecExpression>),
    TupleValue(Seq<SpecExpression>),
    StructValue(Seq<SpecExpression>),
    Identifier(SpecIdentifier),
    Operation(OperatorKind, Seq<SpecExpression>),
}

/// Ghost image of a [`TypedExpression`].
pub struct SpecExpression {
    pub ty: SpecType,
    pub inner: SpecExpressionInner,
}

/// Ghost image of an [`ExpressionInner`], structurally.
pub open spec fn inner_view(i: ExpressionInner) -> SpecExpressionInner
    decreases i,
{
    match i {
        ExpressionInner::FieldValue(v) => SpecExpressionInner::FieldValue(v),
        ExpressionInner::BooleanValue(b) => SpecExpressionInner::BooleanValue(b),
        ExpressionInner::UintValue(v) => SpecExpressionInner::UintValue(v),
        ExpressionInner::ArrayValue(es) => SpecExpressionInner::ArrayValue(expressions_view(es@)),
        ExpressionInner::TupleValue(es) => SpecExpressionInner::TupleValue(expressions_view(es@)),
        ExpressionInner::StructValue(es) => SpecExpressionInner::StructValue(expressions_view(es@)),
        ExpressionInner::Identifier(id) => SpecExpressionInner::Identifier(id@),
        ExpressionInner::Operation(op, es) => SpecExpressionInner::Operation(
            op,
            expressions_view(es@),
        ),
    }
}

/// Ghost image of a [`TypedExpression`], structurally.
pub open spec fn expression_view(e: TypedExpression) -> SpecExpression
    decreases e,
{
    SpecExpression { ty: type_view(e.ty), inner: inner_view(e.inner) }
}

/// Pointwise ghost image of a sequence of expressions.
pub open spec fn expressions_view(s: Seq<TypedExpression>) -> Seq<SpecExpression>
    decreases s,
{
    Seq::new(
        s.len(),
        |i: int|
            if 0 <= i < s.len() {
                expression_view(s[i])
            } else {
                SpecExpression {
                    ty: SpecType::FieldElement,
                    inner: SpecExpressionInner::BooleanValue(false),
                }
            },
    )
}

impl View for ExpressionInner {
    type V = SpecExpressionInner;

    open spec fn view(&self) -> SpecExpressionInner {
        inner_view(*self)
    }
}

impl View for TypedExpression {
    type V = SpecExpression;

    open spec fn view(&self) -> SpecExpression {
        expression_view(*self)
    }
}

/// The outcome of the identifier hook: either a re-emitted identifier
/// expression or the inner form of a substituted value.
#[derive(PartialEq, Eq, Debug)]
pub enum IdentifierOrExpression {
    Identifier(Identifier),
    Expression(ExpressionInner),
}

/// Ghost image of an [`IdentifierOrExpression`].
pub enum SpecIdentifierOrExpression {
    Identifier(SpecIdentifier),
    Expression(SpecExpressionInner),
}

impl View for IdentifierOrExpression {
    type V = SpecIdentifierOrExpression;

    open spec fn view(&self) -> SpecIdentifierOrExpression {
        match *self {
            IdentifierOrExpression::Identifier(ref id) => SpecIdentifierOrExpression::Identifier(
                id@,
            ),
            IdentifierOrExpression::Expression(ref i) => SpecIdentifierOrExpression::Expression(
                inner_view(*i),
            ),
        }
    }
}

/// One named top-level item of a typed program, exposed as an
/// independent unit of rewriting: the types it declares (which may
/// carry symbolic sizes) and the expressions it holds.
#[derive(PartialEq, Eq, Debug)]
pub struct TypedSymbolDeclaration {
    pub id: String,
    pub types: Vec<Type>,
    pub expressions: Vec<TypedExpression>,
}

/// Ghost image of a [`TypedSymbolDeclaration`].
pub struct SpecSymbolDeclaration {
    pub id: Seq<char>,
    pub types: Seq<SpecType>,
    pub expressions: Seq<SpecExpression>,
}

impl View for TypedSymbolDeclaration {
    type V = SpecSymbolDeclaration;

    open spec fn view(&self) -> SpecSymbolDeclaration {
        SpecSymbolDeclaration {
            id: self.id@,
            types: types_view(self.types@),
            expressions: expressions_view(self.expressions@),
        }
    }
}

/// A whole typed program: an ordered collection of top-level
/// declarations, already type-checked.
#[derive(PartialEq, Eq, Debug)]
pub struct TypedProgram {
    pub declarations: Vec<TypedSymbolDeclaration>,
}

/// Ghost image of a [`TypedProgram`].
pub struct SpecProgram {
    pub declarations: Seq<SpecSymbolDeclaration>,
}

/// Pointwise ghost image of a sequence of declarations.
pub open spec fn declarations_view(s: Seq<TypedSymbolDeclaration>) -> Seq<SpecSymbolDeclaration> {
    Seq::new(s.len(), |i: int| s[i]@)
}

impl View for TypedProgram {
    type V = SpecProgram;

    open spec fn view(&self) -> SpecProgram {
        SpecProgram { declarations: declarations_view(self.declarations@) }
    }
}

/// A fresh identifier, structurally equal to the given one.
pub fn clone_identifier(id: &Identifier) -> (r: Identifier)
    ensures
        r@ == id@,
{
    Identifier { name: id.name.clone(), kind: id.kind, version: id.version }
}

/// A fresh declaration constant, structurally equal to the given one.
pub fn clone_declaration_constant(c: &DeclarationConstant) -> (r: DeclarationConstant)
    ensures
        r@ == c@,
{
    match c {
        DeclarationConstant::Concrete(v) => DeclarationConstant::Concrete(*v),
        DeclarationConstant::Constant(n) => DeclarationConstant::Constant(n.clone()),
        DeclarationConstant::Generic(g) => DeclarationConstant::Generic(g.clone()),
    }
}

/// A fresh type, structurally equal to the given one.
pub fn clone_type(t: &Type) -> (r: Type)
    ensures
        r@ == t@,
    decreases t,
{
    match t {
        Type::FieldElement => Type::FieldElement,
        Type::Boolean => Type::Boolean,
        Type::Uint(w) => Type::Uint(*w),
        Type::Array(el, size) => Type::Array(
            Box::new(clone_type(&**el)),
            clone_declaration_constant(size),
        ),
        Type::Tuple(ts) => Type::Tuple(clone_types(ts)),
        Type::Struct(name, ts) => Type::Struct(name.clone(), clone_types(ts)),
    }
}

/// Fresh types, pointwise structurally equal to the given ones.
pub fn clone_types(ts: &Vec<Type>) -> (r: Vec<Type>)
    ensures
        types_view(r@) == types_view(ts@),
    decreases ts,
{
    let n = ts.len();
    let mut r: Vec<Type> = Vec::new();
    let mut i: usize = 0;
    while i < n
        invariant
            i <= n,
            n == ts@.len(),
            r@.len() == i,
            forall|j: int| 0 <= j < i ==> #[trigger] type_view(r@[j]) == type_view(ts@[j]),
        decreases n - i,
    {
        let c = clone_type(&ts[i]);
        r.push(c);
        i = i + 1;
    }
    proof {
        assert forall|j: int| 0 <= j < ts@.len() implies types_view(r@)[j] == types_view(
            ts@,
        )[j] by {
            assert(types_view(r@)[j] == type_view(r@[j]));
            assert(types_view(ts@)[j] == type_view(ts@[j]));
        }
        assert(types_view(r@) =~= types_view(ts@));
    }
    r
}

/// A fresh inner form, structurally equal to the given one.
pub fn clone_inner(i: &ExpressionInner) -> (r: ExpressionInner)
    ensures
        inner_view(r) == inner_view(*i),
    decreases i,
{
    match i {
        ExpressionInner::FieldValue(v) => ExpressionInner::FieldValue(*v),
        ExpressionInner::BooleanValue(b) => ExpressionInner::BooleanValue(*b),
        ExpressionInner::UintValue(v) => ExpressionInner::UintValue(*v),
        ExpressionInner::ArrayValue(es) => ExpressionInner::ArrayValue(clone_expressions(es)),
        ExpressionInner::TupleValue(es) => ExpressionInner::TupleValue(clone_expressions(es)),
        ExpressionInner::StructValue(es) => ExpressionInner::StructValue(clone_expressions(es)),
        ExpressionInner::Identifier(id) => ExpressionInner::Identifier(clone_identifier(id)),
        ExpressionInner::Operation(op, es) => ExpressionInner::Operation(
            *op,
            clone_expressions(es),
        ),
    }
}

/// A fresh expression, structurally equal to the given one.
pub fn clone_expression(e: &TypedExpression) -> (r: TypedExpression)
    ensures
        r@ == e@,
    decreases e,
{
    TypedExpression { ty: clone_type(&e.ty), inner: clone_inner(&e.inner) }
}

/// Fresh expressions, pointwise structurally equal to the given ones.
pub fn clone_expressions(es: &Vec<TypedExpression>) -> (r: Vec<TypedExpression>)
    ensures
        expressions_view(r@) == expressions_view(es@),
    decreases es,
{
    let n = es.len();
    let mut r: Vec<TypedExpression> = Vec::new();
    let mut i: usize = 0;
    while i < n
        invariant
            i <= n,
            n == es@.len(),
            r@.len() == i,
            forall|j: int|
                0 <= j < i ==> #[trigger] expression_view(r@[j]) == expression_view(es@[j]),
        decreases n - i,
    {
        let c = clone_expression(&es[i]);
        r.push(c);
        i = i + 1;
    }
    proof {
        assert forall|j: int| 0 <= j < es@.len() implies expressions_view(r@)[j]
            == expressions_view(es@)[j] by {
            assert(expressions_view(r@)[j] == expression_view(r@[j]));
            assert(expressions_view(es@)[j] == expression_view(es@[j]));
        }
        assert(expressions_view(r@) =~= expressions_view(es@));
    }
    r
}

} // verus!
