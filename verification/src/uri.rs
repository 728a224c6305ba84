//! Documents are named by URIs. This module finds the name of the module
//! that a URI stands for and makes the URI of a source file.

use itertools::Itertools;
use lsp_types::Url;
use std::path::Path;
use vstd::prelude::*;
use vstd::string::*;

verus! {

/// The text of the URL that `Url::parse` makes of `input`, or nothing where
/// it refuses `input`.
pub uninterp spec fn parsed_url(input: Seq<char>) -> Option<Seq<char>>;

/// `Url::parse`, with the URL handed back as its text (`Url::as_str`). The
/// result is the one named `parsed_url`: the parser reads nothing but its
/// input. There is no URL where the parser refuses `input`.
#[verifier::external_body]
fn parse_url(input: &str) -> (parsed: Option<String>)
    ensures
        match parsed {
            Some(text) => parsed_url(input@) == Some(text@),
            None => parsed_url(input@) is None,
        },
{
    match Url::parse(input) {
        Ok(url) => Some(url.as_str().to_string()),
        Err(_) => None,
    }
}

/// The path of the file that the URL with the text `url` names, as
/// `Url::to_file_path` gives it, or nothing where it gives none.
pub uninterp spec fn file_path_of_url(url: Seq<char>) -> Option<Seq<char>>;

/// `Url::to_file_path` on the URL whose text is `url`, with the path handed
/// back as a text. The result is the one named `file_path_of_url`: the
/// conversion reads nothing but the URL. There is no path where the URL
/// names no local file.
#[verifier::external_body]
fn url_to_file_path(url: &str) -> (path: Option<String>)
    ensures
        match path {
            Some(text) => file_path_of_url(url@) == Some(text@),
            None => file_path_of_url(url@) is None,
        },
{
    match Url::parse(url) {
        Ok(url) => match url.to_file_path() {
            Ok(path) => Some(path.to_string_lossy().into_owned()),
            Err(_) => None,
        },
        Err(_) => None,
    }
}

/// `path` without the leading `prefix`, as `Path::strip_prefix` gives it, or
/// nothing where `path` does not begin with `prefix`.
pub uninterp spec fn path_without_prefix(path: Seq<char>, prefix: Seq<char>) -> Option<Seq<char>>;

/// `Path::strip_prefix`, on texts. The result is the one named
/// `path_without_prefix`: the function reads nothing but the two paths.
#[verifier::external_body]
fn strip_prefix(path: &str, prefix: &str) -> (rest: Option<String>)
    ensures
        match rest {
            Some(text) => path_without_prefix(path@, prefix@) == Some(text@),
            None => path_without_prefix(path@, prefix@) is None,
        },
{
    match Path::new(path).strip_prefix(prefix) {
        Ok(rest) => Some(rest.to_string_lossy().into_owned()),
        Err(_) => None,
    }
}

/// The parts of `path`, as `Path::components` gives them.
pub uninterp spec fn path_parts(path: Seq<char>) -> Seq<Seq<char>>;

/// `Path::components`, with each part handed back as a text. The result is
/// the one named `path_parts`: the function reads nothing but the path.
#[verifier::external_body]
fn path_components(path: &str) -> (components: Vec<String>)
    ensures
        texts(components@) == path_parts(path@),
{
    Path::new(path).components().map(|part| part.as_os_str().to_string_lossy().into_owned()).collect()
}

/// The texts of `items`.
pub open spec fn texts(items: Seq<String>) -> Seq<Seq<char>> {
    items.map_values(|item: String| item@)
}

/// `items` with `separator` put between each two neighbours.
pub open spec fn interspersed(items: Seq<Seq<char>>, separator: Seq<char>) -> Seq<Seq<char>> {
    Seq::new(
        if items.len() == 0 {
            0
        } else {
            (2 * items.len() - 1) as nat
        },
        |k: int|
            if k % 2 == 0 {
                items[k / 2]
            } else {
                separator
            },
    )
}

/// `Itertools::intersperse`: the items in their order, with a copy of
/// `separator` between each two neighbours.
#[verifier::external_body]
fn intersperse(items: Vec<String>, separator: String) -> (mixed: Vec<String>)
    ensures
        texts(mixed@) == interspersed(texts(items@), separator@),
{
    Itertools::intersperse(items.into_iter(), separator).collect()
}

/// All of `pieces`, one after the other.
pub open spec fn concat(pieces: Seq<Seq<char>>) -> Seq<char>
    decreases pieces.len(),
{
    if pieces.len() == 0 {
        Seq::empty()
    } else {
        concat(pieces.drop_last()) + pieces.last()
    }
}

/// `name` without the ending `.gleam`, if it ends so.
pub open spec fn without_extension(name: Seq<char>) -> Option<Seq<char>> {
    if name.len() >= 6 && name.subrange(name.len() - 6, name.len() as int) == ".gleam"@ {
        Some(name.subrange(0, name.len() - 6))
    } else {
        None
    }
}

/// The name of the module whose source file has the path `components`
/// below the root of the project: the parts after the first one, which names
/// the source directory, joined by `/`, without the ending `.gleam`. No
/// module where the path does not end so.
pub open spec fn module_name_of(components: Seq<Seq<char>>) -> Option<Seq<char>> {
    without_extension(concat(interspersed(after_first(components), "/"@)))
}

/// `items` without the first one.
pub open spec fn after_first(items: Seq<Seq<char>>) -> Seq<Seq<char>> {
    if items.len() == 0 {
        items
    } else {
        items.subrange(1, items.len() as int)
    }
}

/// The text of the URI of the source file at `path`.
pub open spec fn file_url_text(path: Seq<char>) -> Seq<char> {
    "file:///"@ + path
}

/// The URI of the source file at `path`, as `Url::parse` writes it.
pub open spec fn file_uri_of(path: Seq<char>) -> Option<Seq<char>> {
    parsed_url(file_url_text(path))
}

/// The URI of the source file at `path`. None where the path makes no URL.
pub fn file_uri(path: &String) -> (uri: Option<String>)
    ensures
        uri.is_some() == file_uri_of(path@).is_some(),
        uri matches Some(text) ==> Some(text@) == file_uri_of(path@),
{
    let mut text = String::from_str("file:///");
    text.append(path.as_str());
    parse_url(text.as_str())
}

/// The name of the module whose source file has the path `components` below
/// the root of the project.
pub fn module_name_from_components(components: Vec<String>) -> (name: Option<String>)
    ensures
        name.is_some() == module_name_of(texts(components@)).is_some(),
        name matches Some(text) ==> Some(text@) == module_name_of(texts(components@)),
{
    let mut rest: Vec<String> = Vec::new();
    let mut at: usize = 1;
    while at < components.len()
        invariant
            1 <= at,
            at <= components@.len() || components@.len() == 0,
            components@.len() == 0 ==> rest@.len() == 0,
            components@.len() > 0 ==> rest@.len() == at - 1,
            forall|k: int| 0 <= k < rest@.len() ==> rest@[k]@ == components@[k + 1]@,
        decreases components@.len() - at,
    {
        rest.push(components[at].clone());
        at += 1;
    }
    assert(texts(rest@) =~= after_first(texts(components@)));
    let mixed = intersperse(rest, String::from_str("/"));
    let mut joined = String::new();
    let mut at: usize = 0;
    while at < mixed.len()
        invariant
            at <= mixed@.len(),
            joined@ == concat(texts(mixed@).subrange(0, at as int)),
        decreases mixed@.len() - at,
    {
        proof {
            let next = texts(mixed@).subrange(0, at as int + 1);
            assert(next.drop_last() == texts(mixed@).subrange(0, at as int));
            assert(next.last() == mixed@[at as int]@);
        }
        joined.append(mixed[at].as_str());
        at += 1;
    }
    assert(texts(mixed@).subrange(0, mixed@.len() as int) == texts(mixed@));
    let length: usize = joined.as_str().unicode_len();
    if length < 6 {
        return None;
    }
    let ending = joined.as_str().substring_char(length - 6, length).to_owned();
    if ending == String::from_str(".gleam") {
        Some(joined.as_str().substring_char(0, length - 6).to_owned())
    } else {
        None
    }
}

/// The parts of the path of the file that the URI names, below the
/// directory `root`: the URI is read as a URL, the URL names a file, and the
/// path of the file begins with `root`. Nothing where one of the three fails.
pub open spec fn components_of_uri(uri: Seq<char>, root: Seq<char>) -> Option<Seq<Seq<char>>> {
    match parsed_url(uri) {
        Some(url) => match file_path_of_url(url) {
            Some(path) => match path_without_prefix(path, root) {
                Some(rest) => Some(path_parts(rest)),
                None => None,
            },
            None => None,
        },
        None => None,
    }
}

/// The name of the module whose source file the URI names, in the project
/// in the directory `root`.
pub open spec fn module_name_of_uri(uri: Seq<char>, root: Seq<char>) -> Option<Seq<char>> {
    match components_of_uri(uri, root) {
        Some(components) => module_name_of(components),
        None => None,
    }
}

/// The parts of the path of the file that `uri` names, below `root`. None
/// where `uri` names no file below `root`.
pub fn components_below_root(uri: &str, root: &str) -> (components: Option<Vec<String>>)
    ensures
        components.is_some() == components_of_uri(uri@, root@).is_some(),
        components matches Some(parts) ==> Some(texts(parts@)) == components_of_uri(uri@, root@),
{
    match parse_url(uri) {
        Some(url) => match url_to_file_path(url.as_str()) {
            Some(path) => match strip_prefix(path.as_str(), root) {
                Some(rest) => Some(path_components(rest.as_str())),
                None => None,
            },
            None => None,
        },
        None => None,
    }
}

} // verus!
