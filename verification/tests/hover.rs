use lsp_engine::ast::{
    Arg, Definition, Function, Import, ModuleConstant, ModuleValueConstructor, TypedExpr,
    TypedModule, TypedPattern,
};
use lsp_engine::hover::{
    contains_name, format_hexdocs_link_section, get_expr_qualified_name,
    get_hexdocs_link_section, hover_for_annotation, hover_for_expression,
    hover_for_function_argument, hover_for_function_head, hover_for_imported_type,
    hover_for_imported_value,
    hover_for_module_constant, hover_for_pattern,
};
use lsp_engine::line_numbers::LineNumbers;
use lsp_engine::module::Module;
use lsp_engine::protocol::{Hover, Position, Range};
use lsp_engine::span::SrcSpan;
use lsp_engine::type_::{
    Deprecation, Exports, ModuleInterface, Publicity, Type, TypeConstructor, ValueConstructor,
    ValueConstructorVariant,
};
use std::sync::Arc;

fn span(start: u32, end: u32) -> SrcSpan {
    SrcSpan { start, end }
}

fn range(start: (u32, u32), end: (u32, u32)) -> Range {
    Range {
        start: Position { line: start.0, character: start.1 },
        end: Position { line: end.0, character: end.1 },
    }
}

fn named(name: &str) -> Arc<Type> {
    Arc::new(Type::Named {
        package: "".to_string(),
        module: "gleam".to_string(),
        name: name.to_string(),
        args: vec![],
    })
}

fn render(type_: &Type) -> String {
    match type_ {
        Type::Named { name, .. } => name.clone(),
        Type::Fn { args, retrn } => {
            let args: Vec<String> = args.iter().map(|arg| render(arg)).collect();
            format!("fn({}) -> {}", args.join(", "), render(retrn))
        }
        Type::Var { id } => format!("t{}", id),
        Type::Tuple { .. } => "#()".to_string(),
    }
}

const CODE: &str = "import hex_pkg\n\npub fn main() {\n  hex_pkg.some_fn()\n}\n";

fn lines() -> LineNumbers {
    LineNumbers::new(CODE)
}

fn module_importing(package: &str) -> Module {
    Module::new(
        "app".to_string(),
        "src/app.gleam".to_string(),
        CODE,
        TypedModule {
            name: "app".to_string(),
            definitions: vec![Definition::Import(Import {
                location: span(0, 14),
                module: "hex_pkg".to_string(),
                package: package.to_string(),
                nodes: vec![],
            })],
            unused_imports: vec![],
        },
    )
}

fn qualified_call() -> TypedExpr {
    TypedExpr::ModuleSelect {
        location: span(34, 49),
        type_: Arc::new(Type::Fn { args: vec![], retrn: named("Int") }),
        label: "some_fn".to_string(),
        module_name: "hex_pkg".to_string(),
        constructor: ModuleValueConstructor {
            documentation: Some("Does something.".to_string()),
            location: span(0, 10),
        },
    }
}

#[test]
fn link_section_has_the_exact_form() {
    assert_eq!(
        format_hexdocs_link_section("gleam_stdlib", "gleam/list", "map"),
        "\nView on [HexDocs](https://hexdocs.pm/gleam_stdlib/gleam/list.html#map)"
    );
    assert_eq!(
        format_hexdocs_link_section("", "", ""),
        "\nView on [HexDocs](https://hexdocs.pm//.html#)"
    );
}

#[test]
fn hover_on_a_call_into_a_registry_package_ends_with_the_link() {
    let module = module_importing("hex_pkg");
    let hex_deps = vec!["gleam_stdlib".to_string(), "hex_pkg".to_string()];
    let hover =
        hover_for_expression(&qualified_call(), &lines(), Some(&module), &hex_deps, &render);
    assert_eq!(
        hover,
        Hover {
            contents: "```gleam\nfn() -> Int\n```\nDoes something.\nView on [HexDocs](https://hexdocs.pm/hex_pkg/hex_pkg.html#some_fn)"
                .to_string(),
            range: Some(range((3, 2), (3, 17))),
        }
    );
}

#[test]
fn hover_on_a_call_into_a_repository_package_has_no_link() {
    let module = module_importing("hex_pkg");
    // The package is not among those of the registry.
    let hex_deps = vec!["gleam_stdlib".to_string()];
    let hover =
        hover_for_expression(&qualified_call(), &lines(), Some(&module), &hex_deps, &render);
    assert_eq!(hover.contents, "```gleam\nfn() -> Int\n```\nDoes something.");
    assert_eq!(hover.range, Some(range((3, 2), (3, 17))));
}

#[test]
fn hover_on_an_expression_has_no_link_without_the_module_or_the_import() {
    let hex_deps = vec!["hex_pkg".to_string()];
    let hover = hover_for_expression(&qualified_call(), &lines(), None, &hex_deps, &render);
    assert_eq!(hover.contents, "```gleam\nfn() -> Int\n```\nDoes something.");
    let other = Module::new(
        "app".to_string(),
        "src/app.gleam".to_string(),
        CODE,
        TypedModule { name: "app".to_string(), definitions: vec![], unused_imports: vec![] },
    );
    let hover =
        hover_for_expression(&qualified_call(), &lines(), Some(&other), &hex_deps, &render);
    assert_eq!(hover.contents, "```gleam\nfn() -> Int\n```\nDoes something.");
}

#[test]
fn the_link_names_the_package_of_the_import_in_the_referring_module() {
    let module = module_importing("other_package");
    let hex_deps = vec!["other_package".to_string()];
    let hover =
        hover_for_expression(&qualified_call(), &lines(), Some(&module), &hex_deps, &render);
    assert!(hover
        .contents
        .ends_with("\nView on [HexDocs](https://hexdocs.pm/other_package/hex_pkg.html#some_fn)"));
}

#[test]
fn hover_on_a_plain_expression_shows_its_type() {
    let expression = TypedExpr::Other { location: span(0, 6), type_: named("String") };
    let hover = hover_for_expression(&expression, &lines(), None, &vec![], &render);
    assert_eq!(
        hover,
        Hover { contents: "```gleam\nString\n```\n".to_string(), range: Some(range((0, 0), (0, 6))) }
    );
}

fn variable(publicity: Publicity, variant: ValueConstructorVariant) -> TypedExpr {
    TypedExpr::Var {
        location: span(1, 2),
        name: "value".to_string(),
        constructor: ValueConstructor { publicity, variant, type_: named("Int") },
    }
}

#[test]
fn qualified_name_of_expressions() {
    let function = variable(
        Publicity::Public,
        ValueConstructorVariant::ModuleFn {
            documentation: None,
            location: span(0, 1),
            module: "mod_a".to_string(),
        },
    );
    assert_eq!(
        get_expr_qualified_name(&function),
        Some((&"mod_a".to_string(), &"value".to_string()))
    );
    let constant = variable(
        Publicity::Internal,
        ValueConstructorVariant::ModuleConstant {
            documentation: None,
            location: span(0, 1),
            module: "mod_b".to_string(),
        },
    );
    assert_eq!(
        get_expr_qualified_name(&constant),
        Some((&"mod_b".to_string(), &"value".to_string()))
    );
    let private = variable(
        Publicity::Private,
        ValueConstructorVariant::ModuleFn {
            documentation: None,
            location: span(0, 1),
            module: "mod_a".to_string(),
        },
    );
    assert_eq!(get_expr_qualified_name(&private), None);
    let local =
        variable(Publicity::Public, ValueConstructorVariant::LocalVariable { location: span(0, 1) });
    assert_eq!(get_expr_qualified_name(&local), None);
    let record = variable(
        Publicity::Public,
        ValueConstructorVariant::Record {
            documentation: None,
            location: span(0, 1),
            module: "mod_a".to_string(),
        },
    );
    assert_eq!(get_expr_qualified_name(&record), None);
    assert_eq!(
        get_expr_qualified_name(&qualified_call()),
        Some((&"hex_pkg".to_string(), &"some_fn".to_string()))
    );
    let plain = TypedExpr::Other { location: span(0, 1), type_: named("Int") };
    assert_eq!(get_expr_qualified_name(&plain), None);
}

#[test]
fn link_section_needs_an_import_from_the_registry() {
    let module = module_importing("hex_pkg");
    let name = "some_fn".to_string();
    let hex = vec!["hex_pkg".to_string()];
    assert_eq!(
        get_hexdocs_link_section(&"hex_pkg".to_string(), &name, &module.ast, &hex),
        Some("\nView on [HexDocs](https://hexdocs.pm/hex_pkg/hex_pkg.html#some_fn)".to_string())
    );
    assert_eq!(get_hexdocs_link_section(&"hex_pkg".to_string(), &name, &module.ast, &vec![]), None);
    assert_eq!(get_hexdocs_link_section(&"other".to_string(), &name, &module.ast, &hex), None);
}

#[test]
fn the_first_import_from_the_registry_gives_the_package() {
    let import = |package: &str| {
        Definition::Import(Import {
            location: span(0, 1),
            module: "shared".to_string(),
            package: package.to_string(),
            nodes: vec![],
        })
    };
    let ast = TypedModule {
        name: "app".to_string(),
        definitions: vec![import("local_package"), import("first"), import("second")],
        unused_imports: vec![],
    };
    let hex = vec!["second".to_string(), "first".to_string()];
    assert_eq!(
        get_hexdocs_link_section(&"shared".to_string(), &"f".to_string(), &ast, &hex),
        Some("\nView on [HexDocs](https://hexdocs.pm/first/shared.html#f)".to_string())
    );
}

#[test]
fn names_are_found_among_names() {
    let names = vec!["a".to_string(), "bc".to_string()];
    assert!(contains_name(&names, &"bc".to_string()));
    assert!(!contains_name(&names, &"b".to_string()));
    assert!(!contains_name(&vec![], &"a".to_string()));
}

#[test]
fn hover_on_a_pattern() {
    let pattern = TypedPattern {
        location: span(15, 19),
        type_: named("Option"),
        documentation: Some("Some value".to_string()),
        definition: None,
    };
    assert_eq!(
        hover_for_pattern(&pattern, &lines(), &render),
        Hover {
            contents: "```gleam\nOption\n```\nSome value".to_string(),
            range: Some(range((1, 0), (2, 3))),
        }
    );
}

#[test]
fn hover_on_a_function_head() {
    let function = Function {
        location: span(16, 29),
        end_position: 53,
        name: "main".to_string(),
        name_location: Some(span(23, 27)),
        arguments: vec![Arg { location: span(0, 0), type_: named("String") }],
        return_type: named("Nil"),
        publicity: Publicity::Public,
        deprecation: Deprecation::NotDeprecated,
        documentation: None,
        doc_position: None,
        nodes: vec![],
    };
    assert_eq!(
        hover_for_function_head(&function, &lines(), &render),
        Hover {
            contents: "```gleam\nfn(String) -> Nil\n```\n".to_string(),
            range: Some(range((2, 0), (2, 13))),
        }
    );
}

#[test]
fn hover_on_an_argument_shows_nothing_but_the_type() {
    let argument = Arg { location: span(3, 5), type_: named("Float") };
    assert_eq!(
        hover_for_function_argument(&argument, &lines(), &render),
        Hover { contents: "```gleam\nFloat\n```".to_string(), range: Some(range((0, 3), (0, 5))) }
    );
}

#[test]
fn hover_on_an_annotation_shows_the_documentation_of_the_type() {
    let constructor = TypeConstructor {
        origin: span(0, 1),
        typ: named("Shape"),
        documentation: Some("A shape".to_string()),
    };
    let hover = hover_for_annotation(span(0, 5), &named("Shape"), Some(&constructor), &lines(), &render);
    assert_eq!(hover.contents, "```gleam\nShape\n```\nA shape");
    assert_eq!(hover.range, Some(range((0, 0), (0, 5))));
    let hover = hover_for_annotation(span(0, 5), &named("Shape"), None, &lines(), &render);
    assert_eq!(hover.contents, "```gleam\nShape\n```\n");
}

#[test]
fn hover_on_a_module_constant() {
    let constant = ModuleConstant {
        location: span(3, 6),
        name: "max".to_string(),
        value_location: span(9, 11),
        type_: named("Int"),
        publicity: Publicity::Public,
        deprecation: Deprecation::NotDeprecated,
        documentation: Some("The limit".to_string()),
        doc_position: None,
        nodes: vec![],
    };
    assert_eq!(
        hover_for_module_constant(&constant, &lines(), &render),
        Hover {
            contents: "```gleam\nInt\n```\nThe limit".to_string(),
            range: Some(range((0, 3), (0, 6))),
        }
    );
}

#[test]
fn hover_on_an_imported_value() {
    let value = ValueConstructor {
        publicity: Publicity::Public,
        variant: ValueConstructorVariant::ModuleFn {
            documentation: Some("Maps".to_string()),
            location: span(0, 1),
            module: "gleam/list".to_string(),
        },
        type_: named("Int"),
    };
    let interface = ModuleInterface {
        name: "gleam/list".to_string(),
        package: "gleam_stdlib".to_string(),
        types: Exports::new(),
        values: Exports::new(),
    };
    let name = "map".to_string();
    let hover =
        hover_for_imported_value(&value, &span(7, 10), &lines(), Some(&interface), &name, &render);
    assert_eq!(
        hover.contents,
        "```gleam\nInt\n```\nMaps\nView on [HexDocs](https://hexdocs.pm/gleam_stdlib/gleam/list.html#map)"
    );
    assert_eq!(hover.range, Some(range((0, 7), (0, 10))));
    let hover = hover_for_imported_value(&value, &span(7, 10), &lines(), None, &name, &render);
    assert_eq!(hover.contents, "```gleam\nInt\n```\nMaps");
}

#[test]
fn hover_on_an_imported_type() {
    let constructor = TypeConstructor {
        origin: span(0, 1),
        typ: named("Shape"),
        documentation: Some("A shape".to_string()),
    };
    let interface = ModuleInterface {
        name: "shapes".to_string(),
        package: "geometry".to_string(),
        types: Exports::new(),
        values: Exports::new(),
    };
    let name = "Shape".to_string();
    let hover = hover_for_imported_type(
        &constructor,
        &span(7, 12),
        &lines(),
        Some(&interface),
        &name,
        &render,
    );
    assert_eq!(
        hover.contents,
        "```gleam\nShape\n```\nA shape\nView on [HexDocs](https://hexdocs.pm/geometry/shapes.html#Shape)"
    );
    assert_eq!(hover.range, Some(range((0, 7), (0, 12))));
    let hover = hover_for_imported_type(&constructor, &span(7, 12), &lines(), None, &name, &render);
    assert_eq!(hover.contents, "```gleam\nShape\n```\nA shape");
}
