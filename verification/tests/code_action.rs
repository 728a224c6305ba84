use lsp_engine::ast::TypedModule;
use lsp_engine::code_action::{code_action_unused_imports, delete_line, overlaps};
use lsp_engine::line_numbers::LineNumbers;
use lsp_engine::module::Module;
use lsp_engine::protocol::{
    CodeAction, CodeActionKind, CodeActionParams, Position, Range, TextEdit,
};
use lsp_engine::span::SrcSpan;

fn span(start: u32, end: u32) -> SrcSpan {
    SrcSpan { start, end }
}

fn range(start: (u32, u32), end: (u32, u32)) -> Range {
    Range {
        start: Position { line: start.0, character: start.1 },
        end: Position { line: end.0, character: end.1 },
    }
}

fn module(code: &str, unused_imports: Vec<SrcSpan>) -> Module {
    Module::new(
        "app".to_string(),
        "src/app.gleam".to_string(),
        code,
        TypedModule { name: "app".to_string(), definitions: vec![], unused_imports },
    )
}

fn request(cursor: Range) -> CodeActionParams {
    CodeActionParams { uri: "file:///project/src/app.gleam".to_string(), range: cursor }
}

fn deletion(range: Range) -> TextEdit {
    TextEdit { range, new_text: "".to_string() }
}

fn removal(edits: Vec<TextEdit>) -> CodeAction {
    CodeAction {
        title: "Remove unused imports".to_string(),
        kind: CodeActionKind::QuickFix,
        uri: "file:///project/src/app.gleam".to_string(),
        edits,
        is_preferred: true,
    }
}

#[test]
fn unused_import_on_its_own_line_is_deleted_with_the_line() {
    let code = "import gleam/list as list\n\npub fn main() {\n  Nil\n}\n";
    let module = module(code, vec![span(0, 25)]);
    let mut actions = vec![];
    code_action_unused_imports(&module, &request(range((0, 3), (0, 3))), &mut actions);
    assert_eq!(actions, vec![removal(vec![deletion(range((0, 0), (1, 0)))])]);
    assert!(actions[0].is_preferred);
}

#[test]
fn no_action_without_unused_imports() {
    let module = module("import gleam/list\n", vec![]);
    let mut actions = vec![];
    code_action_unused_imports(&module, &request(range((0, 0), (0, 5))), &mut actions);
    assert!(actions.is_empty());
}

#[test]
fn no_action_when_the_cursor_is_elsewhere() {
    let code = "import gleam/list\n\npub fn main() {\n  Nil\n}\n";
    let module = module(code, vec![span(0, 17)]);
    let mut actions = vec![];
    code_action_unused_imports(&module, &request(range((2, 0), (2, 5))), &mut actions);
    assert!(actions.is_empty());
}

#[test]
fn earlier_actions_are_kept() {
    let module = module("import gleam/list\n", vec![span(0, 17)]);
    let earlier = CodeAction {
        title: "Other".to_string(),
        kind: CodeActionKind::QuickFix,
        uri: "file:///x".to_string(),
        edits: vec![],
        is_preferred: false,
    };
    let mut actions = vec![earlier.clone()];
    code_action_unused_imports(&module, &request(range((0, 0), (0, 0))), &mut actions);
    assert_eq!(actions, vec![earlier.clone(), removal(vec![deletion(range((0, 0), (1, 0)))])]);
    let mut actions = vec![earlier.clone()];
    code_action_unused_imports(&module, &request(range((5, 0), (5, 0))), &mut actions);
    assert_eq!(actions, vec![earlier]);
}

#[test]
fn all_unused_imports_are_removed_when_one_is_under_the_cursor() {
    let code = "import a\nimport b\nimport c\n";
    let module = module(code, vec![span(0, 8), span(18, 26)]);
    let mut actions = vec![];
    code_action_unused_imports(&module, &request(range((2, 1), (2, 2))), &mut actions);
    assert_eq!(
        actions,
        vec![removal(vec![
            deletion(range((0, 0), (1, 0))),
            deletion(range((2, 0), (3, 0))),
        ])]
    );
}

#[test]
fn edits_are_sorted_by_their_start() {
    let code = "import a\nimport b\nimport c\n";
    let module = module(code, vec![span(18, 26), span(0, 8), span(9, 17)]);
    let mut actions = vec![];
    code_action_unused_imports(&module, &request(range((0, 0), (0, 1))), &mut actions);
    assert_eq!(
        actions,
        vec![removal(vec![
            deletion(range((0, 0), (1, 0))),
            deletion(range((1, 0), (2, 0))),
            deletion(range((2, 0), (3, 0))),
        ])]
    );
}

#[test]
fn unused_alias_inside_a_line_is_deleted_alone() {
    // Only ` as list` is unused: the rest of the line stays.
    let code = "import gleam/list as list\n";
    let module = module(code, vec![span(17, 25)]);
    let mut actions = vec![];
    code_action_unused_imports(&module, &request(range((0, 20), (0, 20))), &mut actions);
    assert_eq!(actions, vec![removal(vec![deletion(range((0, 17), (0, 25)))])]);
}

#[test]
fn import_on_the_last_line_without_line_feed_is_deleted_alone() {
    let code = "pub fn main() { Nil }\nimport gleam/list";
    let module = module(code, vec![span(22, 39)]);
    let mut actions = vec![];
    code_action_unused_imports(&module, &request(range((1, 0), (1, 0))), &mut actions);
    assert_eq!(actions, vec![removal(vec![deletion(range((1, 0), (1, 17)))])]);
}

#[test]
fn import_followed_by_blanks_is_deleted_alone() {
    let code = "import gleam/list  \nconst x = 1\n";
    let module = module(code, vec![span(0, 17)]);
    let mut actions = vec![];
    code_action_unused_imports(&module, &request(range((0, 0), (0, 0))), &mut actions);
    assert_eq!(actions, vec![removal(vec![deletion(range((0, 0), (0, 17)))])]);
}

#[test]
fn whole_line_rule() {
    let lines = LineNumbers::new("import a\n  import b\nimport c");
    assert!(delete_line(&span(0, 8), &lines));
    // Does not begin at the start of a line.
    assert!(!delete_line(&span(11, 19), &lines));
    // No line begins after it.
    assert!(!delete_line(&span(20, 28), &lines));
    // Ends before the end of the line.
    assert!(!delete_line(&span(0, 6), &lines));
    assert!(!delete_line(&span(0, u32::MAX), &lines));
}

#[test]
fn ranges_overlap_when_an_end_of_one_lies_in_the_other() {
    let a = range((1, 0), (1, 10));
    assert!(overlaps(a, range((1, 5), (1, 6))));
    assert!(overlaps(range((1, 5), (1, 6)), a));
    assert!(overlaps(a, range((0, 0), (1, 1))));
    assert!(overlaps(a, range((1, 9), (2, 0))));
    assert!(overlaps(a, a));
    // A cursor at the start is inside, one at the end is outside.
    assert!(overlaps(a, range((1, 0), (1, 0))));
    assert!(!overlaps(a, range((1, 10), (1, 10))));
    // Beginning where the other ends counts too: that end lies in the range.
    assert!(overlaps(a, range((1, 10), (1, 12))));
    assert!(!overlaps(a, range((1, 11), (1, 12))));
    assert!(!overlaps(a, range((0, 0), (0, 50))));
    // Ending where the other begins counts: the end lies in the other range.
    assert!(overlaps(a, range((0, 0), (1, 0))));
    // Two empty ranges never overlap.
    assert!(!overlaps(range((1, 3), (1, 3)), range((1, 3), (1, 3))));
}

#[test]
fn deletions_of_neighbouring_imports_do_not_overlap() {
    let code = "import a\nimport b as c\nimport d\nconst x = 1\n";
    // Two whole imports on neighbouring lines, and an alias inside a line.
    let unused = vec![span(0, 8), span(17, 22), span(23, 31)];
    let module = module(code, unused);
    let mut actions = vec![];
    code_action_unused_imports(&module, &request(range((0, 0), (0, 0))), &mut actions);
    let edits = &actions[0].edits;
    assert_eq!(
        edits,
        &vec![
            deletion(range((0, 0), (1, 0))),
            deletion(range((1, 8), (1, 13))),
            deletion(range((2, 0), (3, 0))),
        ]
    );
    for pair in edits.windows(2) {
        assert!(!pair[1].range.start.is_before(&pair[0].range.end));
    }
}
