use constants_reader::ast::{
    DeclarationConstant, ExpressionInner, Identifier, IdentifierKind, IdentifierOrExpression,
    OperatorKind, Type, TypedExpression, TypedProgram, TypedSymbolDeclaration,
};
use constants_reader::bindings::ConstantDefinitions;
use constants_reader::reader::ConstantsReader;

fn constant_identifier(name: &str) -> Identifier {
    Identifier { name: name.to_string(), kind: IdentifierKind::Constant, version: 0 }
}

fn source_identifier(name: &str, version: u32) -> Identifier {
    Identifier { name: name.to_string(), kind: IdentifierKind::Source, version }
}

fn uint_literal(v: u128) -> TypedExpression {
    TypedExpression { ty: Type::Uint(32), inner: ExpressionInner::UintValue(v) }
}

fn uint_constant_reference(name: &str) -> TypedExpression {
    TypedExpression {
        ty: Type::Uint(32),
        inner: ExpressionInner::Identifier(constant_identifier(name)),
    }
}

fn declaration(id: &str, types: Vec<Type>, expressions: Vec<TypedExpression>) -> TypedSymbolDeclaration {
    TypedSymbolDeclaration { id: id.to_string(), types, expressions }
}

#[test]
fn array_length_and_expression_resolve() {
    // bindings = {"N" -> unsigned-integer literal 5}; a declaration
    // holds an array type parameterized by "N" and an integer-typed
    // expression referencing "N": the length becomes concrete 5 and
    // the expression becomes the literal 5.
    let mut defs = ConstantDefinitions::new();
    defs.insert("N".to_string(), uint_literal(5));
    let mut reader = ConstantsReader::with_constants(&defs);

    let d = declaration(
        "main",
        vec![Type::Array(
            Box::new(Type::FieldElement),
            DeclarationConstant::Constant("N".to_string()),
        )],
        vec![uint_constant_reference("N")],
    );
    let out = reader.read_into_symbol_declaration(d);

    let expected = declaration(
        "main",
        vec![Type::Array(Box::new(Type::FieldElement), DeclarationConstant::Concrete(5))],
        vec![uint_literal(5)],
    );
    assert_eq!(out, expected);
}

#[test]
fn empty_bindings_is_identity() {
    // bindings = {}: any input tree folds to a structurally identical
    // tree.
    let defs = ConstantDefinitions::new();
    let mut reader = ConstantsReader::with_constants(&defs);

    let build = || TypedProgram {
        declarations: vec![declaration(
            "main",
            vec![
                Type::Array(
                    Box::new(Type::Boolean),
                    DeclarationConstant::Constant("N".to_string()),
                ),
                Type::Struct("Point".to_string(), vec![Type::FieldElement, Type::Uint(8)]),
            ],
            vec![
                uint_constant_reference("N"),
                TypedExpression {
                    ty: Type::Boolean,
                    inner: ExpressionInner::Operation(
                        OperatorKind::And,
                        vec![
                            TypedExpression {
                                ty: Type::Boolean,
                                inner: ExpressionInner::BooleanValue(true),
                            },
                            TypedExpression {
                                ty: Type::Boolean,
                                inner: ExpressionInner::Identifier(source_identifier("b", 2)),
                            },
                        ],
                    ),
                },
            ],
        )],
    };
    let out = reader.read_into_program(build());
    assert_eq!(out, build());
}

#[test]
fn bound_name_resolves_and_unbound_name_survives() {
    // bindings = {"B" -> literal 7}; a declaration references both
    // "A" and "B": "B" resolves to 7, "A" remains symbolic.
    let mut defs = ConstantDefinitions::new();
    defs.insert("B".to_string(), uint_literal(7));
    let mut reader = ConstantsReader::with_constants(&defs);

    let d = declaration(
        "main",
        vec![
            Type::Array(Box::new(Type::Boolean), DeclarationConstant::Constant("A".to_string())),
            Type::Array(Box::new(Type::Boolean), DeclarationConstant::Constant("B".to_string())),
        ],
        vec![uint_constant_reference("A"), uint_constant_reference("B")],
    );
    let out = reader.read_into_symbol_declaration(d);

    let expected = declaration(
        "main",
        vec![
            Type::Array(Box::new(Type::Boolean), DeclarationConstant::Constant("A".to_string())),
            Type::Array(Box::new(Type::Boolean), DeclarationConstant::Concrete(7)),
        ],
        vec![uint_constant_reference("A"), uint_literal(7)],
    );
    assert_eq!(out, expected);
}

#[test]
fn declaration_constant_coerces_to_concrete_length() {
    // binding "N" to the unsigned-integer literal 4 makes the
    // symbolic array length "N" the concrete length 4.
    let mut defs = ConstantDefinitions::new();
    defs.insert("N".to_string(), uint_literal(4));
    let reader = ConstantsReader::with_constants(&defs);

    let c = reader.fold_declaration_constant(DeclarationConstant::Constant("N".to_string()));
    assert_eq!(c, DeclarationConstant::Concrete(4));

    let t = reader.fold_type(&Type::Array(
        Box::new(Type::FieldElement),
        DeclarationConstant::Constant("N".to_string()),
    ));
    assert_eq!(t, Type::Array(Box::new(Type::FieldElement), DeclarationConstant::Concrete(4)));
}

#[test]
fn declaration_constant_payload_is_reduced_modulo_two_to_the_thirty_two() {
    // the size payload is a 32-bit value: a wider literal is reduced
    // exactly as the unchecked narrowing of the payload would do.
    let mut defs = ConstantDefinitions::new();
    defs.insert("N".to_string(), uint_literal(0x1_0000_0004));
    let reader = ConstantsReader::with_constants(&defs);

    let c = reader.fold_declaration_constant(DeclarationConstant::Constant("N".to_string()));
    assert_eq!(c, DeclarationConstant::Concrete(4));
}

#[test]
fn concrete_and_generic_sizes_survive() {
    let mut defs = ConstantDefinitions::new();
    defs.insert("N".to_string(), uint_literal(9));
    let reader = ConstantsReader::with_constants(&defs);

    let c = reader.fold_declaration_constant(DeclarationConstant::Concrete(11));
    assert_eq!(c, DeclarationConstant::Concrete(11));
    let g = reader.fold_declaration_constant(DeclarationConstant::Generic("P".to_string()));
    assert_eq!(g, DeclarationConstant::Generic("P".to_string()));
}

#[test]
fn folding_twice_equals_folding_once() {
    // idempotence on a concrete tree: the resolved output contains no
    // further matching constant identifier, so a second pass is a
    // no-op.
    let mut defs = ConstantDefinitions::new();
    defs.insert("N".to_string(), uint_literal(5));
    defs.insert(
        "F".to_string(),
        TypedExpression { ty: Type::FieldElement, inner: ExpressionInner::FieldValue(42) },
    );
    let mut reader = ConstantsReader::with_constants(&defs);

    let build = || TypedProgram {
        declarations: vec![declaration(
            "main",
            vec![Type::Array(
                Box::new(Type::FieldElement),
                DeclarationConstant::Constant("N".to_string()),
            )],
            vec![
                uint_constant_reference("N"),
                TypedExpression {
                    ty: Type::FieldElement,
                    inner: ExpressionInner::Identifier(constant_identifier("F")),
                },
                uint_constant_reference("M"),
            ],
        )],
    };
    let once = reader.read_into_program(build());
    let twice = reader.read_into_program(copy_program(&once));
    assert_eq!(twice, once);
}

// rebuild an owned program equal to the given one, for feeding the
// pass a second time
fn copy_program(p: &TypedProgram) -> TypedProgram {
    TypedProgram {
        declarations: p
            .declarations
            .iter()
            .map(|d| TypedSymbolDeclaration {
                id: d.id.clone(),
                types: d.types.iter().map(copy_type).collect(),
                expressions: d.expressions.iter().map(copy_expression).collect(),
            })
            .collect(),
    }
}

fn copy_type(t: &Type) -> Type {
    match t {
        Type::FieldElement => Type::FieldElement,
        Type::Boolean => Type::Boolean,
        Type::Uint(w) => Type::Uint(*w),
        Type::Array(el, c) => Type::Array(Box::new(copy_type(el)), copy_declaration_constant(c)),
        Type::Tuple(ts) => Type::Tuple(ts.iter().map(copy_type).collect()),
        Type::Struct(n, ts) => Type::Struct(n.clone(), ts.iter().map(copy_type).collect()),
    }
}

fn copy_declaration_constant(c: &DeclarationConstant) -> DeclarationConstant {
    match c {
        DeclarationConstant::Concrete(v) => DeclarationConstant::Concrete(*v),
        DeclarationConstant::Constant(n) => DeclarationConstant::Constant(n.clone()),
        DeclarationConstant::Generic(g) => DeclarationConstant::Generic(g.clone()),
    }
}

fn copy_expression(e: &TypedExpression) -> TypedExpression {
    let inner = match &e.inner {
        ExpressionInner::FieldValue(v) => ExpressionInner::FieldValue(*v),
        ExpressionInner::BooleanValue(b) => ExpressionInner::BooleanValue(*b),
        ExpressionInner::UintValue(v) => ExpressionInner::UintValue(*v),
        ExpressionInner::ArrayValue(es) => {
            ExpressionInner::ArrayValue(es.iter().map(copy_expression).collect())
        }
        ExpressionInner::TupleValue(es) => {
            ExpressionInner::TupleValue(es.iter().map(copy_expression).collect())
        }
        ExpressionInner::StructValue(es) => {
            ExpressionInner::StructValue(es.iter().map(copy_expression).collect())
        }
        ExpressionInner::Identifier(id) => ExpressionInner::Identifier(Identifier {
            name: id.name.clone(),
            kind: id.kind,
            version: id.version,
        }),
        ExpressionInner::Operation(op, es) => {
            ExpressionInner::Operation(*op, es.iter().map(copy_expression).collect())
        }
    };
    TypedExpression { ty: copy_type(&e.ty), inner }
}

#[test]
fn substitution_reaches_nested_subtrees_and_touches_nothing_else() {
    // "N" bound to a boolean literal of the boolean family: every
    // occurrence of "N", however deep, becomes that literal; every
    // unrelated subtree is unchanged.
    let mut defs = ConstantDefinitions::new();
    defs.insert(
        "N".to_string(),
        TypedExpression { ty: Type::Boolean, inner: ExpressionInner::BooleanValue(true) },
    );
    let mut reader = ConstantsReader::with_constants(&defs);

    let reference = TypedExpression {
        ty: Type::Boolean,
        inner: ExpressionInner::Identifier(constant_identifier("N")),
    };
    let unrelated = TypedExpression {
        ty: Type::Boolean,
        inner: ExpressionInner::Identifier(source_identifier("N", 3)),
    };
    let d = declaration(
        "main",
        vec![],
        vec![TypedExpression {
            ty: Type::Tuple(vec![Type::Boolean, Type::Boolean]),
            inner: ExpressionInner::TupleValue(vec![
                TypedExpression {
                    ty: Type::Boolean,
                    inner: ExpressionInner::Operation(
                        OperatorKind::Or,
                        vec![reference, copy_expression(&unrelated)],
                    ),
                },
                TypedExpression {
                    ty: Type::Boolean,
                    inner: ExpressionInner::BooleanValue(false),
                },
            ]),
        }],
    );
    let out = reader.read_into_symbol_declaration(d);

    let substituted = TypedExpression {
        ty: Type::Boolean,
        inner: ExpressionInner::BooleanValue(true),
    };
    let expected = declaration(
        "main",
        vec![],
        vec![TypedExpression {
            ty: Type::Tuple(vec![Type::Boolean, Type::Boolean]),
            inner: ExpressionInner::TupleValue(vec![
                TypedExpression {
                    ty: Type::Boolean,
                    inner: ExpressionInner::Operation(
                        OperatorKind::Or,
                        vec![substituted, unrelated],
                    ),
                },
                TypedExpression {
                    ty: Type::Boolean,
                    inner: ExpressionInner::BooleanValue(false),
                },
            ]),
        }],
    );
    assert_eq!(out, expected);
}

#[test]
fn source_identifier_with_bound_name_falls_through() {
    // only identifiers of the constant kind are substituted: a
    // source identifier that happens to share a bound name survives.
    let mut defs = ConstantDefinitions::new();
    defs.insert("x".to_string(), uint_literal(1));
    let mut reader = ConstantsReader::with_constants(&defs);

    let build = || TypedExpression {
        ty: Type::Uint(32),
        inner: ExpressionInner::Identifier(source_identifier("x", 4)),
    };
    let d = declaration("main", vec![], vec![build()]);
    let out = reader.read_into_symbol_declaration(d);
    assert_eq!(out, declaration("main", vec![], vec![build()]));
}

#[test]
fn composite_bound_value_substitutes_whole_inner_form() {
    // a bound array value replaces an array-typed reference with the
    // whole literal inner form, keeping the reference's static type.
    let bound = TypedExpression {
        ty: Type::Array(Box::new(Type::Uint(32)), DeclarationConstant::Concrete(2)),
        inner: ExpressionInner::ArrayValue(vec![uint_literal(1), uint_literal(2)]),
    };
    let mut defs = ConstantDefinitions::new();
    defs.insert("A".to_string(), bound);
    let mut reader = ConstantsReader::with_constants(&defs);

    let site = TypedExpression {
        ty: Type::Array(Box::new(Type::Uint(32)), DeclarationConstant::Concrete(2)),
        inner: ExpressionInner::Identifier(constant_identifier("A")),
    };
    let d = declaration("main", vec![], vec![site]);
    let out = reader.read_into_symbol_declaration(d);

    let expected = declaration(
        "main",
        vec![],
        vec![TypedExpression {
            ty: Type::Array(Box::new(Type::Uint(32)), DeclarationConstant::Concrete(2)),
            inner: ExpressionInner::ArrayValue(vec![uint_literal(1), uint_literal(2)]),
        }],
    );
    assert_eq!(out, expected);
}

#[test]
fn nested_sizes_resolve_inside_composite_types() {
    let mut defs = ConstantDefinitions::new();
    defs.insert("N".to_string(), uint_literal(3));
    let reader = ConstantsReader::with_constants(&defs);

    let t = Type::Struct(
        "S".to_string(),
        vec![Type::Tuple(vec![Type::Array(
            Box::new(Type::Array(
                Box::new(Type::FieldElement),
                DeclarationConstant::Constant("N".to_string()),
            )),
            DeclarationConstant::Concrete(2),
        )])],
    );
    let out = reader.fold_type(&t);

    let expected = Type::Struct(
        "S".to_string(),
        vec![Type::Tuple(vec![Type::Array(
            Box::new(Type::Array(Box::new(Type::FieldElement), DeclarationConstant::Concrete(3))),
            DeclarationConstant::Concrete(2),
        )])],
    );
    assert_eq!(out, expected);
}

#[test]
fn literals_survive_with_bindings_present() {
    let mut defs = ConstantDefinitions::new();
    defs.insert("N".to_string(), uint_literal(5));
    let mut reader = ConstantsReader::with_constants(&defs);

    let build = || declaration(
        "main",
        vec![Type::Uint(64)],
        vec![
            TypedExpression { ty: Type::FieldElement, inner: ExpressionInner::FieldValue(99) },
            TypedExpression { ty: Type::Boolean, inner: ExpressionInner::BooleanValue(false) },
            TypedExpression { ty: Type::Uint(64), inner: ExpressionInner::UintValue(123) },
        ],
    );
    let out = reader.read_into_symbol_declaration(build());
    assert_eq!(out, build());
}

#[test]
fn bitwidth_of_reference_site_is_kept() {
    // the substituted node keeps the static type of the occurrence
    let mut defs = ConstantDefinitions::new();
    defs.insert(
        "N".to_string(),
        TypedExpression { ty: Type::Uint(8), inner: ExpressionInner::UintValue(200) },
    );
    let mut reader = ConstantsReader::with_constants(&defs);

    let site = TypedExpression {
        ty: Type::Uint(8),
        inner: ExpressionInner::Identifier(constant_identifier("N")),
    };
    let d = declaration("main", vec![], vec![site]);
    let out = reader.read_into_symbol_declaration(d);
    assert_eq!(
        out,
        declaration(
            "main",
            vec![],
            vec![TypedExpression { ty: Type::Uint(8), inner: ExpressionInner::UintValue(200) }],
        )
    );
}

#[test]
fn later_binding_shadows_earlier_one() {
    let mut defs = ConstantDefinitions::new();
    defs.insert("N".to_string(), uint_literal(5));
    defs.insert("N".to_string(), uint_literal(7));
    let reader = ConstantsReader::with_constants(&defs);

    let c = reader.fold_declaration_constant(DeclarationConstant::Constant("N".to_string()));
    assert_eq!(c, DeclarationConstant::Concrete(7));
}

#[test]
fn identifier_hook_resolves_and_reemits() {
    let mut defs = ConstantDefinitions::new();
    defs.insert("N".to_string(), uint_literal(5));
    let reader = ConstantsReader::with_constants(&defs);

    let hit = reader.fold_identifier_expression(&Type::Uint(32), constant_identifier("N"));
    assert_eq!(hit, IdentifierOrExpression::Expression(ExpressionInner::UintValue(5)));

    let miss = reader.fold_identifier_expression(&Type::Uint(32), constant_identifier("M"));
    assert_eq!(miss, IdentifierOrExpression::Identifier(constant_identifier("M")));

    let other = reader.fold_identifier_expression(&Type::Uint(32), source_identifier("N", 1));
    assert_eq!(other, IdentifierOrExpression::Identifier(source_identifier("N", 1)));
}
