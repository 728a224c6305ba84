//! Which completions to offer at a place in a document.
//!
//! On a line that is an import, only what can be imported is offered.
//! Elsewhere the kind of the node under the cursor decides between values and
//! types.

use crate::ast::Definition;
use crate::line_numbers::{byte_index_of, LineNumbers};
use crate::module::{interface_index, Located};
use crate::protocol::Position;
use crate::type_::ModuleInterface;
use vstd::prelude::*;
use vstd::string::*;
use vstd::utf8::*;

verus! {

/// The completions that are offered at a place.
#[derive(Debug, Clone, PartialEq, Eq)]
pub enum Completions {
    /// The modules that can be imported.
    Modules,
    /// The values and types that the module `module` exports, to be imported
    /// without qualifier.
    Unqualified { module: String },
    /// The values in scope.
    Values,
    /// The types in scope.
    Types,
}

/// A space or a tab.
pub open spec fn is_blank(byte: u8) -> bool {
    byte == 32 || byte == 9
}

/// The first offset from `from` on, before `to`, that holds no blank.
pub open spec fn skip_blanks(text: Seq<u8>, from: int, to: int) -> int
    decreases to - from,
{
    if from < 0 || from >= to || from >= text.len() || !is_blank(text[from]) {
        from
    } else {
        skip_blanks(text, from + 1, to)
    }
}

/// The end of `text[from..to]` without the blanks that it ends with.
pub open spec fn drop_blanks(text: Seq<u8>, from: int, to: int) -> int
    decreases to - from,
{
    if to <= from || to > text.len() || !is_blank(text[to - 1]) {
        to
    } else {
        drop_blanks(text, from, to - 1)
    }
}

/// The first offset from `from` on, before `to`, that holds a dot, or `to`.
pub open spec fn first_dot(text: Seq<u8>, from: int, to: int) -> int
    decreases to - from,
{
    if from < 0 || from >= to || from >= text.len() || text[from] == 46 {
        from
    } else {
        first_dot(text, from + 1, to)
    }
}

/// The word `import`.
pub open spec fn import_keyword() -> Seq<u8> {
    seq![105u8, 109u8, 112u8, 111u8, 114u8, 116u8]
}

/// Where the line `line` begins and where the next one begins.
pub open spec fn line_bounds(text: Seq<u8>, line: int) -> (int, int) {
    (byte_index_of(text, line, 0), byte_index_of(text, line + 1, 0))
}

/// Where the word `import` ends on the line `from..to`, if the line begins
/// with it after blanks.
pub open spec fn import_keyword_end(text: Seq<u8>, from: int, to: int) -> Option<int> {
    let word = skip_blanks(text, from, to);
    if 0 <= word && word + 6 <= to && to <= text.len() && text.subrange(word, word + 6)
        == import_keyword() {
        Some(word + 6)
    } else {
        None
    }
}

/// The index of the first module from `from` on whose name is written in
/// `text[start..end]`, or the number of modules where there is none.
pub open spec fn module_written(
    modules: Seq<ModuleInterface>,
    text: Seq<u8>,
    start: int,
    end: int,
    from: int,
) -> int
    decreases modules.len() - from,
{
    if from < 0 || from >= modules.len() {
        modules.len() as int
    } else if encode_utf8(modules[from].name@) == text.subrange(start, end) {
        from
    } else {
        module_written(modules, text, start, end, from + 1)
    }
}

/// What is offered on the line of `position` because it is an import: the
/// modules, as long as the line holds no dot; the exports of the module
/// written before the dot, if that module is known. Nothing on another line.
pub open spec fn import_completions_of(
    text: Seq<u8>,
    line: int,
    modules: Seq<ModuleInterface>,
) -> Option<Completions> {
    let (from, to) = line_bounds(text, line);
    match import_keyword_end(text, from, to) {
        None => None,
        Some(after) => {
            let dot = first_dot(text, after, to);
            if dot >= to {
                Some(Completions::Modules)
            } else {
                let start = skip_blanks(text, after, dot);
                let end = drop_blanks(text, start, dot);
                let index = module_written(modules, text, start, end, 0);
                if 0 <= index < modules.len() {
                    Some(Completions::Unqualified { module: modules[index].name })
                } else {
                    None
                }
            }
        },
    }
}

/// What is offered for the node under the cursor: values in code, types
/// where a type is written or a definition begins, the exports of the
/// imported module on an import. Nothing on a pattern, an argument, a
/// constant or a name that is already imported.
pub open spec fn completions_of(found: Located, modules: Seq<ModuleInterface>) -> Option<
    Completions,
> {
    match found {
        Located::Pattern(_) => None,
        Located::Statement(_) => Some(Completions::Values),
        Located::Expression(_) => Some(Completions::Values),
        Located::FunctionBody(_) => Some(Completions::Values),
        Located::ModuleStatement(definition) => match *definition {
            Definition::Function(_) => Some(Completions::Types),
            Definition::TypeAlias(_) => Some(Completions::Types),
            Definition::CustomType(_) => Some(Completions::Types),
            Definition::Import(import) => {
                let index = interface_index(modules, import.module@, 0);
                if 0 <= index < modules.len() {
                    Some(Completions::Unqualified { module: modules[index].name })
                } else {
                    None
                }
            },
            Definition::ModuleConstant(_) => None,
        },
        Located::UnqualifiedImport(_) => None,
        Located::Arg(_) => None,
        Located::Annotation(_, _) => Some(Completions::Types),
    }
}

/// The two plans offer the same.
pub open spec fn same_completions(left: Option<Completions>, right: Option<Completions>) -> bool {
    match (left, right) {
        (None, None) => true,
        (Some(Completions::Modules), Some(Completions::Modules)) => true,
        (Some(Completions::Values), Some(Completions::Values)) => true,
        (Some(Completions::Types), Some(Completions::Types)) => true,
        (
            Some(Completions::Unqualified { module: left }),
            Some(Completions::Unqualified { module: right }),
        ) => left@ == right@,
        _ => false,
    }
}

/// Whether `text[start..end]` holds the bytes of `name`.
fn is_written(name: &String, text: &Vec<u8>, start: usize, end: usize) -> (written: bool)
    requires
        start <= end <= text@.len(),
    ensures
        written == (encode_utf8(name@) == text@.subrange(start as int, end as int)),
{
    let bytes = name.as_str().as_bytes();
    if bytes.len() != end - start {
        return false;
    }
    let mut at: usize = 0;
    while at < bytes.len()
        invariant
            at <= bytes@.len(),
            bytes@ == encode_utf8(name@),
            bytes@.len() == end - start,
            start <= end <= text@.len(),
            forall|k: int| 0 <= k < at ==> bytes@[k] == text@[start + k],
        decreases bytes@.len() - at,
    {
        if bytes[at] != text[start + at] {
            assert(bytes@[at as int] != text@.subrange(start as int, end as int)[at as int]);
            return false;
        }
        at += 1;
    }
    assert(bytes@ =~= text@.subrange(start as int, end as int));
    true
}

/// What is offered because the line of the cursor is an import.
pub fn import_completions(
    src: &LineNumbers,
    position: Position,
    modules: &Vec<ModuleInterface>,
) -> (offered: Option<Completions>)
    ensures
        same_completions(offered, import_completions_of(src@, position.line as int, modules@)),
{
    let text = src.text();
    let length: u32 = src.length();
    let from: usize = src.byte_index(position.line, 0) as usize;
    let to: usize = if position.line < u32::MAX {
        src.byte_index(position.line + 1, 0) as usize
    } else {
        proof {
            crate::line_numbers::lemma_line_starts_upto(src@, src@.len() as int);
        }
        length as usize
    };
    if to > text.len() || from > to {
        proof {
            crate::line_numbers::lemma_byte_index_in_text(src@, position.line as int, 0);
            crate::line_numbers::lemma_byte_index_in_text(src@, position.line as int + 1, 0);
        }
        return None;
    }
    let mut word: usize = from;
    while word < to && (text[word] == 32 || text[word] == 9)
        invariant
            from <= word <= to <= text@.len(),
            skip_blanks(text@, word as int, to as int) == skip_blanks(text@, from as int, to as int),
        decreases to - word,
    {
        word += 1;
    }
    if to - word < 6 {
        return None;
    }
    if !(text[word] == 105 && text[word + 1] == 109 && text[word + 2] == 112 && text[word + 3]
        == 111 && text[word + 4] == 114 && text[word + 5] == 116) {
        assert(text@.subrange(word as int, word + 6)[0] == text@[word as int]);
        assert(text@.subrange(word as int, word + 6)[1] == text@[word + 1]);
        assert(text@.subrange(word as int, word + 6)[2] == text@[word + 2]);
        assert(text@.subrange(word as int, word + 6)[3] == text@[word + 3]);
        assert(text@.subrange(word as int, word + 6)[4] == text@[word + 4]);
        assert(text@.subrange(word as int, word + 6)[5] == text@[word + 5]);
        return None;
    }
    assert(text@.subrange(word as int, word + 6) =~= import_keyword());
    let after: usize = word + 6;
    let mut dot: usize = after;
    while dot < to && text[dot] != 46
        invariant
            after <= dot <= to <= text@.len(),
            first_dot(text@, dot as int, to as int) == first_dot(text@, after as int, to as int),
        decreases to - dot,
    {
        dot += 1;
    }
    if dot >= to {
        return Some(Completions::Modules);
    }
    let mut start: usize = after;
    while start < dot && (text[start] == 32 || text[start] == 9)
        invariant
            after <= start <= dot <= text@.len(),
            skip_blanks(text@, start as int, dot as int) == skip_blanks(
                text@,
                after as int,
                dot as int,
            ),
        decreases dot - start,
    {
        start += 1;
    }
    let mut end: usize = dot;
    while end > start && (text[end - 1] == 32 || text[end - 1] == 9)
        invariant
            start <= end <= dot <= text@.len(),
            drop_blanks(text@, start as int, end as int) == drop_blanks(
                text@,
                start as int,
                dot as int,
            ),
        decreases end - start,
    {
        end -= 1;
    }
    let mut at: usize = 0;
    let mut index: usize = modules.len();
    while at < modules.len() && index == modules.len()
        invariant
            at <= modules@.len(),
            index <= modules@.len(),
            start <= end <= text@.len(),
            index == modules@.len() ==> module_written(
                modules@,
                text@,
                start as int,
                end as int,
                at as int,
            ) == module_written(modules@, text@, start as int, end as int, 0),
            index < modules@.len() ==> index == module_written(
                modules@,
                text@,
                start as int,
                end as int,
                0,
            ),
        decreases modules@.len() - at,
    {
        if is_written(&modules[at].name, text, start, end) {
            index = at;
        }
        at += 1;
    }
    if index < modules.len() {
        Some(Completions::Unqualified { module: modules[index].name.clone() })
    } else {
        None
    }
}

/// What is offered for the node under the cursor.
pub fn completions_for(found: &Located, modules: &Vec<ModuleInterface>) -> (offered: Option<
    Completions,
>)
    ensures
        same_completions(offered, completions_of(*found, modules@)),
{
    match found {
        Located::Pattern(_) => None,
        Located::Statement(_) => Some(Completions::Values),
        Located::Expression(_) => Some(Completions::Values),
        Located::FunctionBody(_) => Some(Completions::Values),
        Located::ModuleStatement(definition) => match definition {
            Definition::Function(_) => Some(Completions::Types),
            Definition::TypeAlias(_) => Some(Completions::Types),
            Definition::CustomType(_) => Some(Completions::Types),
            Definition::Import(import) => match crate::module::find_interface(
                modules,
                &import.module,
            ) {
                Some(interface) => Some(Completions::Unqualified { module: interface.name.clone() }),
                None => None,
            },
            Definition::ModuleConstant(_) => None,
        },
        Located::UnqualifiedImport(_) => None,
        Located::Arg(_) => None,
        Located::Annotation(_, _) => Some(Completions::Types),
    }
}

} // verus!
