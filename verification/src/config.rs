//! Loading the catalog from its source: a TOML document whose tables are
//! the categories and whose entries map a program's name to the path of
//! its script.

use crate::catalog::{Catalog, Category, CategoryView, Program, ProgramView};
use vstd::prelude::*;

verus! {

/// `toml::map::Map`, the table type of the `toml` crate.
#[verifier::external_type_specification]
#[verifier::external_body]
#[verifier::reject_recursive_types(K)]
#[verifier::reject_recursive_types(V)]
pub struct ExTomlMap<K, V>(toml::map::Map<K, V>);

/// `toml::Value`, a value of a TOML document.
#[verifier::external_type_specification]
#[verifier::external_body]
pub struct ExTomlValue(toml::Value);

/// `toml::de::Error`, the error of the `toml` parser.
#[verifier::external_type_specification]
#[verifier::external_body]
pub struct ExTomlError(toml::de::Error);

/// A value of a TOML document, as far as the catalog reads it.
pub enum TomlNode {
    /// A string.
    Text(Seq<char>),
    /// A table: its keys with their values, in the table's order.
    Table(Seq<(Seq<char>, TomlNode)>),
    /// Anything else: a number, a boolean, a date, an array.
    Other,
}

/// What a table holds: its keys with their values, in the order in which
/// the table hands them out.
pub uninterp spec fn table_entries(table: toml::map::Map<String, toml::Value>) -> Seq<
    (Seq<char>, TomlNode),
>;

/// What a value is: a string with its text, a table with its entries, or
/// something else.
pub uninterp spec fn value_node(value: toml::Value) -> TomlNode;

/// The top-level table that `toml::from_str` reads from a text, or `None`
/// where the text is no TOML document.
pub uninterp spec fn toml_document(text: Seq<char>) -> Option<Seq<(Seq<char>, TomlNode)>>;

/// `toml::from_str` with a table as its target: parses a document into its
/// top-level table, or fails. The result depends on the text alone.
#[verifier::external_body]
fn parse_document(text: &str) -> (r: Result<toml::map::Map<String, toml::Value>, toml::de::Error>)
    ensures
        match r {
            Ok(table) => toml_document(text@) == Some(table_entries(table)),
            Err(_) => toml_document(text@).is_none(),
        },
{
    toml::from_str::<toml::map::Map<String, toml::Value>>(text)
}

/// `Map::len`: the number of entries of a table.
#[verifier::external_body]
fn table_length(table: &toml::map::Map<String, toml::Value>) -> (n: usize)
    ensures
        n == table_entries(*table).len(),
{
    table.len()
}

/// `Map::iter`, taken to its entry number `i`: the key and the value at
/// that place, or `None` where the table has fewer entries.
#[verifier::external_body]
fn table_entry<'a>(table: &'a toml::map::Map<String, toml::Value>, i: usize) -> (r: Option<
    (&'a String, &'a toml::Value),
>)
    ensures
        match r {
            Some((key, value)) => i < table_entries(*table).len() && table_entries(
                *table,
            )[i as int] == (key@, value_node(*value)),
            None => i >= table_entries(*table).len(),
        },
{
    table.iter().nth(i)
}

/// `Value::as_str`: the text of a string value, `None` for every other.
#[verifier::external_body]
fn value_text<'a>(value: &'a toml::Value) -> (r: Option<&'a str>)
    ensures
        match r {
            Some(text) => value_node(*value) == TomlNode::Text(text@),
            None => !(value_node(*value) is Text),
        },
{
    value.as_str()
}

/// `Value::as_table`: the table of a table value, `None` for every other.
#[verifier::external_body]
fn value_table<'a>(value: &'a toml::Value) -> (r: Option<
    &'a toml::map::Map<String, toml::Value>,
>)
    ensures
        match r {
            Some(table) => value_node(*value) == TomlNode::Table(table_entries(*table)),
            None => !(value_node(*value) is Table),
        },
{
    value.as_table()
}

/// `to_string` on `toml::de::Error`: the parser's description of its
/// error. Nothing is claimed of the text.
#[verifier::external_body]
fn error_text(error: &toml::de::Error) -> String {
    error.to_string()
}

/// Why a catalog could not be loaded.
#[derive(Clone, Debug, PartialEq, Eq)]
pub enum ConfigError {
    /// The text is no TOML document; the parser's message is kept.
    Malformed(String),
    /// The value under this top-level key is no table.
    NotATable(String),
    /// In this category, the value under this program name is no string.
    NotAString(String, String),
}

/// A `ConfigError` without the parser's message.
pub enum ConfigErrorView {
    Malformed,
    NotATable(Seq<char>),
    NotAString(Seq<char>, Seq<char>),
}

impl View for ConfigError {
    type V = ConfigErrorView;

    open spec fn view(&self) -> ConfigErrorView {
        match self {
            ConfigError::Malformed(_) => ConfigErrorView::Malformed,
            ConfigError::NotATable(category) => ConfigErrorView::NotATable(category@),
            ConfigError::NotAString(category, program) => ConfigErrorView::NotAString(
                category@,
                program@,
            ),
        }
    }
}

/// The path `path` as seen from the directory `dir`: `path` itself where it
/// starts at the root or where `dir` is empty, else `dir`, a slash unless
/// `dir` ends in one, and `path`.
pub open spec fn joined(dir: Seq<char>, path: Seq<char>) -> Seq<char> {
    if path.len() > 0 && path[0] == '/' {
        path
    } else if dir.len() == 0 {
        path
    } else if dir.last() == '/' {
        dir + path
    } else {
        dir + seq!['/'] + path
    }
}

/// The programs that the entries of one category's table stand for, in
/// their order; the first entry whose value is no string is the error.
pub open spec fn programs_of(
    entries: Seq<(Seq<char>, TomlNode)>,
    category: Seq<char>,
    dir: Seq<char>,
) -> Result<Seq<ProgramView>, ConfigErrorView>
    decreases entries.len(),
{
    if entries.len() == 0 {
        Ok(Seq::empty())
    } else {
        match programs_of(entries.drop_last(), category, dir) {
            Err(error) => Err(error),
            Ok(programs) => match entries.last().1 {
                TomlNode::Text(path) => Ok(
                    programs.push(
                        ProgramView {
                            name: entries.last().0,
                            script: joined(dir, path),
                            is_favorite: false,
                        },
                    ),
                ),
                _ => Err(ConfigErrorView::NotAString(category, entries.last().0)),
            },
        }
    }
}

/// The categories that the entries of a document stand for, in their
/// order; the first entry that cannot be read is the error.
pub open spec fn categories_of(entries: Seq<(Seq<char>, TomlNode)>, dir: Seq<char>) -> Result<
    Seq<CategoryView>,
    ConfigErrorView,
>
    decreases entries.len(),
{
    if entries.len() == 0 {
        Ok(Seq::empty())
    } else {
        match categories_of(entries.drop_last(), dir) {
            Err(error) => Err(error),
            Ok(categories) => match entries.last().1 {
                TomlNode::Table(programs) => match programs_of(programs, entries.last().0, dir) {
                    Ok(programs) => Ok(
                        categories.push(CategoryView { name: entries.last().0, programs }),
                    ),
                    Err(error) => Err(error),
                },
                _ => Err(ConfigErrorView::NotATable(entries.last().0)),
            },
        }
    }
}

/// The catalog that a text stands for.
pub open spec fn catalog_of(text: Seq<char>, dir: Seq<char>) -> Result<
    Seq<CategoryView>,
    ConfigErrorView,
> {
    match toml_document(text) {
        None => Err(ConfigErrorView::Malformed),
        Some(entries) => categories_of(entries, dir),
    }
}

/// A loaded catalog or the error, as plain values.
pub open spec fn loaded_view(r: Result<Catalog, ConfigError>) -> Result<
    Seq<CategoryView>,
    ConfigErrorView,
> {
    match r {
        Ok(catalog) => Ok(catalog@),
        Err(error) => Err(error@),
    }
}

/// Joins a path to the directory it is relative to.
pub fn join_path(dir: &str, path: &str) -> (r: String)
    ensures
        r@ == joined(dir@, path@),
{
    let dir_len = dir.unicode_len();
    let path_len = path.unicode_len();
    if path_len > 0 && path.get_char(0) == '/' {
        String::from_str(path)
    } else if dir_len == 0 {
        String::from_str(path)
    } else if dir.get_char(dir_len - 1) == '/' {
        let mut r = String::from_str(dir);
        r.append(path);
        r
    } else {
        let mut r = String::from_str(dir);
        r.push('/');
        r.append(path);
        assert(r@ =~= dir@ + seq!['/'] + path@);
        r
    }
}

fn build_programs(
    table: &toml::map::Map<String, toml::Value>,
    category: &str,
    config_dir: &str,
) -> (r: Result<Vec<Program>, ConfigError>)
    ensures
        match r {
            Ok(programs) => programs_of(table_entries(*table), category@, config_dir@) == Ok::<
                Seq<ProgramView>,
                ConfigErrorView,
            >(programs@.map_values(|p: Program| p@)),
            Err(error) => programs_of(table_entries(*table), category@, config_dir@) == Err::<
                Seq<ProgramView>,
                ConfigErrorView,
            >(error@),
        },
{
    let ghost entries = table_entries(*table);
    let count = table_length(table);
    let mut programs: Vec<Program> = Vec::new();
    let mut i: usize = 0;
    assert(programs@.map_values(|p: Program| p@) =~= Seq::empty());
    while i < count
        invariant
            entries == table_entries(*table),
            count == entries.len(),
            i <= count,
            programs_of(entries.take(i as int), category@, config_dir@) == Ok::<
                Seq<ProgramView>,
                ConfigErrorView,
            >(programs@.map_values(|p: Program| p@)),
        decreases count - i,
    {
        let (name, value) = table_entry(table, i).unwrap();
        let ghost before = programs@.map_values(|p: Program| p@);
        assert(entries.take(i as int + 1).drop_last() =~= entries.take(i as int));
        match value_text(value) {
            Some(path) => {
                let program = Program::new(name.clone(), join_path(config_dir, path));
                programs.push(program);
                assert(programs@.map_values(|p: Program| p@) =~= before.push(program@));
            },
            None => {
                proof {
                    lemma_programs_error_stays(entries, i as int + 1, category@, config_dir@);
                }
                return Err(ConfigError::NotAString(String::from_str(category), name.clone()));
            },
        }
        i += 1;
    }
    assert(entries.take(i as int) =~= entries);
    Ok(programs)
}

/// Builds the catalog from a parsed document: each top-level table is a
/// category, each of its string entries a program whose script is the
/// entry's path as seen from `config_dir`. No program is a favourite.
pub fn build_catalog(table: &toml::map::Map<String, toml::Value>, config_dir: &str) -> (r: Result<
    Catalog,
    ConfigError,
>)
    ensures
        loaded_view(r) == categories_of(table_entries(*table), config_dir@),
{
    let ghost entries = table_entries(*table);
    let count = table_length(table);
    let mut categories: Vec<Category> = Vec::new();
    let mut i: usize = 0;
    assert(categories@.map_values(|c: Category| c@) =~= Seq::empty());
    while i < count
        invariant
            entries == table_entries(*table),
            count == entries.len(),
            i <= count,
            categories_of(entries.take(i as int), config_dir@) == Ok::<
                Seq<CategoryView>,
                ConfigErrorView,
            >(categories@.map_values(|c: Category| c@)),
        decreases count - i,
    {
        let (name, value) = table_entry(table, i).unwrap();
        let ghost before = categories@.map_values(|c: Category| c@);
        assert(entries.take(i as int + 1).drop_last() =~= entries.take(i as int));
        match value_table(value) {
            Some(section) => match build_programs(section, name.as_str(), config_dir) {
                Ok(programs) => {
                    let category = Category::new(name.clone(), programs);
                    categories.push(category);
                    assert(categories@.map_values(|c: Category| c@) =~= before.push(category@));
                },
                Err(error) => {
                    proof {
                        lemma_categories_error_stays(entries, i as int + 1, config_dir@);
                    }
                    return Err(error);
                },
            },
            None => {
                proof {
                    lemma_categories_error_stays(entries, i as int + 1, config_dir@);
                }
                return Err(ConfigError::NotATable(name.clone()));
            },
        }
        i += 1;
    }
    assert(entries.take(i as int) =~= entries);
    Ok(Catalog::new(categories))
}

/// Loads the catalog from the text of its source. Fails where the text is
/// no TOML document, where a top-level value is no table, and where the
/// value of a program is no string; what comes first in the document
/// decides.
pub fn load_config(text: &str, config_dir: &str) -> (r: Result<Catalog, ConfigError>)
    ensures
        loaded_view(r) == catalog_of(text@, config_dir@),
{
    match parse_document(text) {
        Ok(table) => build_catalog(&table, config_dir),
        Err(error) => Err(ConfigError::Malformed(error_text(&error))),
    }
}

/// What a category's table is read as, said entry by entry: where it is
/// read at all, every entry is a string, and the programs are these
/// entries in their order, each with its key as the name, its path as seen
/// from the directory as the script, and no favourite flag.
pub proof fn lemma_programs_follow_entries(
    entries: Seq<(Seq<char>, TomlNode)>,
    category: Seq<char>,
    dir: Seq<char>,
)
    ensures
        match programs_of(entries, category, dir) {
            Ok(programs) => {
                &&& programs.len() == entries.len()
                &&& forall|i: int|
                    0 <= i < entries.len() ==> ((#[trigger] entries[i]).1 matches TomlNode::Text(
                        path,
                    ) && programs[i] == (ProgramView {
                        name: entries[i].0,
                        script: joined(dir, path),
                        is_favorite: false,
                    }))
            },
            Err(error) => exists|i: int|
                0 <= i < entries.len() && !((#[trigger] entries[i]).1 is Text) && error
                    == ConfigErrorView::NotAString(category, entries[i].0),
        },
    decreases entries.len(),
{
    if entries.len() > 0 {
        let head = entries.drop_last();
        lemma_programs_follow_entries(head, category, dir);
        match programs_of(head, category, dir) {
            Ok(programs) => {
                if !(entries.last().1 is Text) {
                    assert(entries[entries.len() - 1] == entries.last());
                } else {
                    assert forall|i: int| 0 <= i < head.len() implies head[i] == entries[i] by {}
                }
            },
            Err(error) => {
                let i = choose|i: int|
                    0 <= i < head.len() && !((#[trigger] head[i]).1 is Text) && error
                        == ConfigErrorView::NotAString(category, head[i].0);
                assert(entries[i] == head[i]);
            },
        }
    }
}

/// What a document is read as, said entry by entry: where it is read at
/// all, every top-level entry is a table, and the categories are these
/// entries in their order, each with its key as the name and its table read
/// as its programs.
pub proof fn lemma_categories_follow_entries(entries: Seq<(Seq<char>, TomlNode)>, dir: Seq<char>)
    ensures
        categories_of(entries, dir) matches Ok(categories) ==> {
            &&& categories.len() == entries.len()
            &&& forall|i: int|
                0 <= i < entries.len() ==> ((#[trigger] entries[i]).1 matches TomlNode::Table(
                    table,
                ) && categories[i].name == entries[i].0 && programs_of(table, entries[i].0, dir)
                    == Ok::<Seq<ProgramView>, ConfigErrorView>(categories[i].programs))
        },
    decreases entries.len(),
{
    if entries.len() > 0 {
        let head = entries.drop_last();
        lemma_categories_follow_entries(head, dir);
        if categories_of(entries, dir) is Ok {
            assert forall|i: int| 0 <= i < head.len() implies head[i] == entries[i] by {}
        }
    }
}

/// An error among the first `n` entries of a category is the error of the
/// whole category.
proof fn lemma_programs_error_stays(
    entries: Seq<(Seq<char>, TomlNode)>,
    n: int,
    category: Seq<char>,
    dir: Seq<char>,
)
    requires
        0 <= n <= entries.len(),
        programs_of(entries.take(n), category, dir) is Err,
    ensures
        programs_of(entries, category, dir) == programs_of(entries.take(n), category, dir),
    decreases entries.len() - n,
{
    if n < entries.len() {
        assert(entries.take(n + 1).drop_last() =~= entries.take(n));
        lemma_programs_error_stays(entries, n + 1, category, dir);
    } else {
        assert(entries.take(n) =~= entries);
    }
}

/// An error among the first `n` entries of a document is the error of the
/// whole document.
proof fn lemma_categories_error_stays(entries: Seq<(Seq<char>, TomlNode)>, n: int, dir: Seq<char>)
    requires
        0 <= n <= entries.len(),
        categories_of(entries.take(n), dir) is Err,
    ensures
        categories_of(entries, dir) == categories_of(entries.take(n), dir),
    decreases entries.len() - n,
{
    if n < entries.len() {
        assert(entries.take(n + 1).drop_last() =~= entries.take(n));
        lemma_categories_error_stays(entries, n + 1, dir);
    } else {
        assert(entries.take(n) =~= entries);
    }
}

} // verus!
