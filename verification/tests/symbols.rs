use lsp_engine::ast::{
    Arg, CustomType, Definition, Function, Import, ModuleConstant, RecordConstructor,
    RecordConstructorArg, TypeAlias, TypedModule,
};
use lsp_engine::line_numbers::LineNumbers;
use lsp_engine::protocol::{DocumentSymbol, Position, Range, SymbolKind, SymbolTag};
use lsp_engine::span::SrcSpan;
use lsp_engine::symbols::{
    custom_type_symbol, document_symbols, get_function_type, make_deprecated_symbol_tag,
};
use lsp_engine::type_::{Deprecation, Publicity, Type};
use std::sync::Arc;

fn span(start: u32, end: u32) -> SrcSpan {
    SrcSpan { start, end }
}

fn range(start: (u32, u32), end: (u32, u32)) -> Range {
    Range {
        start: Position { line: start.0, character: start.1 },
        end: Position { line: end.0, character: end.1 },
    }
}

fn named(name: &str) -> Arc<Type> {
    Arc::new(Type::Named {
        package: "".to_string(),
        module: "gleam".to_string(),
        name: name.to_string(),
        args: vec![],
    })
}

fn render(type_: &Type) -> String {
    match type_ {
        Type::Named { name, .. } => name.clone(),
        Type::Fn { args, retrn } => {
            let args: Vec<String> = args.iter().map(|arg| render(arg)).collect();
            format!("fn({}) -> {}", args.join(", "), render(retrn))
        }
        Type::Var { id } => format!("t{}", id),
        Type::Tuple { elems } => {
            let elems: Vec<String> = elems.iter().map(|elem| render(elem)).collect();
            format!("#({})", elems.join(", "))
        }
    }
}

const SHAPES: &str = "/// A shape\npub type Shape {\n  Circle(radius: Int)\n  Dot\n}\n";

// The custom type of `SHAPES`: two constructors, the first with a labelled field.
fn shape() -> CustomType {
    CustomType {
        location: span(12, 26),
        end_position: 58,
        name: "Shape".to_string(),
        name_location: span(21, 26),
        constructors: vec![
            RecordConstructor {
                location: span(31, 37),
                name: "Circle".to_string(),
                arguments: vec![RecordConstructorArg {
                    label: Some("radius".to_string()),
                    label_location: Some(span(38, 44)),
                    location: span(38, 49),
                    type_: named("Int"),
                    doc_position: None,
                }],
                documentation: None,
                doc_position: None,
            },
            RecordConstructor {
                location: span(53, 56),
                name: "Dot".to_string(),
                arguments: vec![],
                documentation: None,
                doc_position: None,
            },
        ],
        publicity: Publicity::Public,
        deprecation: Deprecation::NotDeprecated,
        documentation: Some(" A shape".to_string()),
        doc_position: Some(0),
        nodes: vec![],
    }
}

#[test]
fn custom_type_with_two_constructors_and_one_labelled_field() {
    let ast = TypedModule {
        name: "shapes".to_string(),
        definitions: vec![Definition::CustomType(shape())],
        unused_imports: vec![],
    };
    let lines = LineNumbers::new(SHAPES);
    let symbols = document_symbols(&ast, &lines, &render);
    assert_eq!(symbols.len(), 1);
    let root = &symbols[0];
    assert_eq!(root.name, "Shape");
    assert_eq!(root.kind, SymbolKind::Class);
    assert_eq!(root.detail, None);
    assert_eq!(root.tags, None);
    assert_eq!(root.range, range((0, 0), (4, 1)));
    assert_eq!(root.selection_range, range((1, 9), (1, 14)));
    let constructors = root.children.as_ref().expect("constructors");
    assert_eq!(constructors.len(), 2);
    assert_eq!(constructors[0].name, "Circle");
    assert_eq!(constructors[0].kind, SymbolKind::Constructor);
    assert_eq!(constructors[0].detail, None);
    assert_eq!(constructors[0].range, range((2, 2), (2, 21)));
    assert_eq!(constructors[0].selection_range, range((2, 2), (2, 8)));
    let fields = constructors[0].children.as_ref().expect("fields");
    assert_eq!(
        fields,
        &vec![DocumentSymbol {
            name: "radius".to_string(),
            detail: Some("Int".to_string()),
            kind: SymbolKind::Field,
            tags: None,
            range: range((2, 9), (2, 20)),
            selection_range: range((2, 9), (2, 15)),
            children: None,
        }]
    );
    assert_eq!(constructors[1].name, "Dot");
    assert_eq!(constructors[1].kind, SymbolKind::EnumMember);
    assert_eq!(constructors[1].range, range((3, 2), (3, 5)));
    assert_eq!(constructors[1].selection_range, range((3, 2), (3, 5)));
    assert_eq!(constructors[1].children, Some(vec![]));
}

#[test]
fn unlabelled_arguments_get_no_field_symbol() {
    let mut type_ = shape();
    type_.constructors[0].arguments.insert(
        0,
        RecordConstructorArg {
            label: None,
            label_location: None,
            location: span(38, 41),
            type_: named("Int"),
            doc_position: None,
        },
    );
    type_.constructors[0].arguments.push(RecordConstructorArg {
        label: Some("name".to_string()),
        label_location: None,
        location: span(45, 49),
        type_: named("String"),
        doc_position: Some(43),
    });
    let lines = LineNumbers::new(SHAPES);
    let symbol = custom_type_symbol(&type_, &lines, &render);
    let constructors = symbol.children.expect("constructors");
    let fields = constructors[0].children.as_ref().expect("fields");
    assert_eq!(fields.len(), 2);
    assert_eq!(fields[0].name, "radius");
    assert_eq!(fields[1].name, "name");
    assert_eq!(fields[1].detail, Some("String".to_string()));
    // Without a place for the label the whole argument is selected, and the
    // documentation is taken into the range.
    assert_eq!(fields[1].selection_range, range((2, 16), (2, 20)));
    assert_eq!(fields[1].range, range((2, 14), (2, 20)));
}

#[test]
fn deprecated_custom_type_carries_the_tag() {
    let mut type_ = shape();
    type_.deprecation = Deprecation::Deprecated { message: "use Figure".to_string() };
    let lines = LineNumbers::new(SHAPES);
    let symbol = custom_type_symbol(&type_, &lines, &render);
    assert_eq!(symbol.tags, Some(vec![SymbolTag::Deprecated]));
}

#[test]
fn deprecation_tag() {
    assert_eq!(make_deprecated_symbol_tag(&Deprecation::NotDeprecated), None);
    assert_eq!(
        make_deprecated_symbol_tag(&Deprecation::Deprecated { message: "".to_string() }),
        Some(vec![SymbolTag::Deprecated])
    );
}

const SOURCE: &str =
    "import gleam/io\n\n/// Adds\npub fn add(a: Int, b: Int) -> Int {\n  a + b\n}\n\npub type Id =\n  Int\n\nconst max = 10\n";

fn add_function() -> Function {
    Function {
        location: span(26, 59),
        end_position: 71,
        name: "add".to_string(),
        name_location: Some(span(33, 36)),
        arguments: vec![
            Arg { location: span(37, 43), type_: named("Int") },
            Arg { location: span(45, 51), type_: named("Int") },
        ],
        return_type: named("Int"),
        publicity: Publicity::Public,
        deprecation: Deprecation::Deprecated { message: "use sum".to_string() },
        documentation: Some(" Adds".to_string()),
        doc_position: Some(17),
        nodes: vec![],
    }
}

fn source_module() -> TypedModule {
    TypedModule {
        name: "app".to_string(),
        definitions: vec![
            Definition::Import(Import {
                location: span(0, 15),
                module: "gleam/io".to_string(),
                package: "gleam_stdlib".to_string(),
                nodes: vec![],
            }),
            Definition::Function(add_function()),
            Definition::TypeAlias(TypeAlias {
                location: span(73, 92),
                alias: "Id".to_string(),
                alias_location: span(82, 84),
                type_: named("Int"),
                publicity: Publicity::Public,
                deprecation: Deprecation::NotDeprecated,
                documentation: None,
                doc_position: None,
                nodes: vec![],
            }),
            Definition::ModuleConstant(ModuleConstant {
                location: span(100, 103),
                name: "max".to_string(),
                value_location: span(106, 108),
                type_: named("Int"),
                publicity: Publicity::Private,
                deprecation: Deprecation::NotDeprecated,
                documentation: None,
                doc_position: None,
                nodes: vec![],
            }),
        ],
        unused_imports: vec![],
    }
}

#[test]
fn outline_lists_definitions_in_order_and_skips_imports() {
    let lines = LineNumbers::new(SOURCE);
    let symbols = document_symbols(&source_module(), &lines, &render);
    let names: Vec<&str> = symbols.iter().map(|symbol| symbol.name.as_str()).collect();
    assert_eq!(names, vec!["add", "Id", "max"]);
}

#[test]
fn function_symbol_spans_documentation_and_body() {
    let lines = LineNumbers::new(SOURCE);
    let symbols = document_symbols(&source_module(), &lines, &render);
    assert_eq!(
        symbols[0],
        DocumentSymbol {
            name: "add".to_string(),
            detail: Some("fn(Int, Int) -> Int".to_string()),
            kind: SymbolKind::Function,
            tags: Some(vec![SymbolTag::Deprecated]),
            range: range((2, 0), (5, 1)),
            selection_range: range((3, 7), (3, 10)),
            children: None,
        }
    );
}

#[test]
fn function_without_name_location_selects_its_head() {
    let mut function = add_function();
    function.name_location = None;
    function.doc_position = None;
    let ast = TypedModule {
        name: "app".to_string(),
        definitions: vec![Definition::Function(function)],
        unused_imports: vec![],
    };
    let lines = LineNumbers::new(SOURCE);
    let symbols = document_symbols(&ast, &lines, &render);
    assert_eq!(symbols[0].selection_range, range((3, 0), (3, 33)));
    assert_eq!(symbols[0].range, range((3, 0), (5, 1)));
}

#[test]
fn alias_and_constant_symbols() {
    let lines = LineNumbers::new(SOURCE);
    let symbols = document_symbols(&source_module(), &lines, &render);
    assert_eq!(
        symbols[1],
        DocumentSymbol {
            name: "Id".to_string(),
            detail: Some("Int".to_string()),
            kind: SymbolKind::Class,
            tags: None,
            range: range((7, 0), (8, 5)),
            selection_range: range((7, 9), (7, 11)),
            children: None,
        }
    );
    assert_eq!(
        symbols[2],
        DocumentSymbol {
            name: "max".to_string(),
            detail: Some("Int".to_string()),
            kind: SymbolKind::Constant,
            tags: None,
            range: range((10, 6), (10, 14)),
            selection_range: range((10, 6), (10, 9)),
            children: None,
        }
    );
}

#[test]
fn module_without_definitions_has_an_empty_outline() {
    let ast = TypedModule { name: "app".to_string(), definitions: vec![], unused_imports: vec![] };
    let lines = LineNumbers::new("");
    assert!(document_symbols(&ast, &lines, &render).is_empty());
}

#[test]
fn function_type_is_made_of_argument_types_and_return_type() {
    let mut function = add_function();
    function.arguments[1].type_ = named("Float");
    function.return_type = named("Bool");
    assert_eq!(
        get_function_type(&function),
        Type::Fn { args: vec![named("Int"), named("Float")], retrn: named("Bool") }
    );
    function.arguments.clear();
    assert_eq!(get_function_type(&function), Type::Fn { args: vec![], retrn: named("Bool") });
}

#[test]
fn constructor_range_ends_one_past_its_last_argument_even_at_the_largest_offset() {
    let mut type_ = shape();
    type_.constructors[0].arguments[0].location = span(38, u32::MAX);
    let lines = LineNumbers::new(SHAPES);
    let symbol = custom_type_symbol(&type_, &lines, &render);
    let constructors = symbol.children.expect("constructors");
    assert_eq!(constructors[0].range, range((2, 2), (5, 0)));
}

#[test]
fn custom_type_ends_with_the_last_argument_of_its_last_constructor() {
    let mut type_ = shape();
    // The last constructor carries an argument, and the closing brace comes
    // later than that argument ends.
    type_.constructors.swap(0, 1);
    let lines = LineNumbers::new(SHAPES);
    let symbol = custom_type_symbol(&type_, &lines, &render);
    assert_eq!(symbol.range, range((0, 0), (2, 20)));
    assert_eq!(symbol.selection_range, range((1, 9), (1, 14)));
    // Without an argument, or without a constructor, the type ends where
    // its definition ends.
    type_.constructors.pop();
    let symbol = custom_type_symbol(&type_, &lines, &render);
    assert_eq!(symbol.range, range((0, 0), (4, 1)));
    type_.constructors.clear();
    let symbol = custom_type_symbol(&type_, &lines, &render);
    assert_eq!(symbol.range, range((0, 0), (4, 1)));
}
