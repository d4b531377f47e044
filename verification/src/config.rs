//! The project descriptor: the record it is read into, the record that
//! stands in for a missing descriptor, and the reading itself.

use crate::document::{
    find_entry, parse_document, parsed_document, table_entries, table_get, table_list, value_item,
    Item,
};
use crate::text::{extended, pair, single};
use vstd::prelude::*;
use vstd::string::*;

verus! {

/// Key of the section that names the package.
pub const PACKAGE_KEY: &'static str = "package";

/// Key of the section that lists the dependencies.
pub const DEPENDENCIES_KEY: &'static str = "dependencies";

/// Key of a name, of the package or of a dependency.
pub const NAME_KEY: &'static str = "name";

/// Key of a version, of the package or of a dependency.
pub const VERSION_KEY: &'static str = "version";

/// Key of the package's edition.
pub const EDITION_KEY: &'static str = "edition";

/// The identity of a package.
#[derive(Clone, Debug, PartialEq, Eq)]
pub struct Package {
    pub name: String,
    pub version: String,
    pub edition: String,
}

/// One dependency of a package.
#[derive(Clone, Debug, PartialEq, Eq)]
pub struct Dependency {
    pub name: String,
    pub version: String,
}

/// A dependency under the key that the descriptor lists it by.
#[derive(Clone, Debug, PartialEq, Eq)]
pub struct DependencyEntry {
    pub key: String,
    pub dependency: Dependency,
}

/// What a project descriptor says.
#[derive(Clone, Debug, PartialEq, Eq)]
pub struct Config {
    pub package: Package,
    /// The dependencies in the order of the descriptor's table, each key
    /// once.
    pub dependencies: Vec<DependencyEntry>,
}

/// Why a descriptor could not be read.
#[derive(Clone, Debug, PartialEq, Eq)]
pub enum ConfigError {
    /// The text is not a TOML document; `message` says why.
    Syntax { message: String },
    /// Nothing stands at `path`, where the descriptor must hold a value.
    Missing { path: Vec<String> },
    /// The value at `path` is not of the kind that the descriptor must hold
    /// there: a table for a section or a dependency, a string for a field.
    Mistyped { path: Vec<String> },
}

/// The mathematical value of a `Package`.
pub struct PackageView {
    pub name: Seq<char>,
    pub version: Seq<char>,
    pub edition: Seq<char>,
}

/// The mathematical value of a `Dependency`.
pub struct DependencyView {
    pub name: Seq<char>,
    pub version: Seq<char>,
}

/// The mathematical value of a `Config`.
pub struct ConfigView {
    pub package: PackageView,
    pub dependencies: Seq<(Seq<char>, DependencyView)>,
}

/// The mathematical value of a `ConfigError`.
pub enum ConfigErrorView {
    Syntax { message: Seq<char> },
    Missing { path: Seq<Seq<char>> },
    Mistyped { path: Seq<Seq<char>> },
}

impl View for Package {
    type V = PackageView;

    open spec fn view(&self) -> PackageView {
        PackageView { name: self.name@, version: self.version@, edition: self.edition@ }
    }
}

impl View for Dependency {
    type V = DependencyView;

    open spec fn view(&self) -> DependencyView {
        DependencyView { name: self.name@, version: self.version@ }
    }
}

impl View for DependencyEntry {
    type V = (Seq<char>, DependencyView);

    open spec fn view(&self) -> (Seq<char>, DependencyView) {
        (self.key@, self.dependency@)
    }
}

/// The values of a list of entries, in the same order.
pub open spec fn entry_views(entries: Seq<DependencyEntry>) -> Seq<(Seq<char>, DependencyView)> {
    Seq::new(entries.len(), |i: int| entries[i]@)
}

impl View for Config {
    type V = ConfigView;

    open spec fn view(&self) -> ConfigView {
        ConfigView { package: self.package@, dependencies: entry_views(self.dependencies@) }
    }
}

impl View for ConfigError {
    type V = ConfigErrorView;

    open spec fn view(&self) -> ConfigErrorView {
        match self {
            ConfigError::Syntax { message } => ConfigErrorView::Syntax { message: message@ },
            ConfigError::Missing { path } => ConfigErrorView::Missing { path: path.deep_view() },
            ConfigError::Mistyped { path } => ConfigErrorView::Mistyped { path: path.deep_view() },
        }
    }
}

impl ConfigView {
    /// The record that stands in for a missing descriptor.
    pub open spec fn fallback() -> ConfigView {
        ConfigView {
            package: PackageView { name: "default"@, version: "0.1.0"@, edition: "2021"@ },
            dependencies: Seq::empty(),
        }
    }

    /// No dependency key occurs twice.
    pub open spec fn well_formed(self) -> bool {
        forall|i: int, j: int|
            0 <= i < j < self.dependencies.len() ==> self.dependencies[i].0
                != self.dependencies[j].0
    }
}

/// The value of the outcome of a reading.
pub open spec fn outcome_view(outcome: Result<Config, ConfigError>) -> Result<
    ConfigView,
    ConfigErrorView,
> {
    match outcome {
        Ok(config) => Ok(config@),
        Err(error) => Err(error@),
    }
}

impl Default for Config {
    /// The record that stands in for a missing descriptor: a package called
    /// `default`, version `0.1.0`, edition `2021`, without dependencies.
    fn default() -> (config: Config)
        ensures
            config@ == ConfigView::fallback(),
            config@.well_formed(),
    {
        let config = Config {
            package: Package {
                name: String::from_str("default"),
                version: String::from_str("0.1.0"),
                edition: String::from_str("2021"),
            },
            dependencies: Vec::new(),
        };
        assert(config@.dependencies =~= Seq::empty());
        config
    }
}

/// The string under `key` in the table with these `entries`, which stands at
/// `at` in the descriptor.
pub open spec fn text_field(
    entries: Seq<(Seq<char>, Item)>,
    at: Seq<Seq<char>>,
    key: Seq<char>,
) -> Result<Seq<char>, ConfigErrorView> {
    match find_entry(entries, key) {
        None => Err(ConfigErrorView::Missing { path: at.push(key) }),
        Some(Item::Text(text)) => Ok(text),
        Some(_) => Err(ConfigErrorView::Mistyped { path: at.push(key) }),
    }
}

/// The entries of the table under `key` in the table with these `entries`,
/// which stands at `at` in the descriptor.
pub open spec fn table_field(
    entries: Seq<(Seq<char>, Item)>,
    at: Seq<Seq<char>>,
    key: Seq<char>,
) -> Result<Seq<(Seq<char>, Item)>, ConfigErrorView> {
    match find_entry(entries, key) {
        None => Err(ConfigErrorView::Missing { path: at.push(key) }),
        Some(Item::Table(fields)) => Ok(fields),
        Some(_) => Err(ConfigErrorView::Mistyped { path: at.push(key) }),
    }
}

/// The package that the section with these `fields` names: its name, its
/// version and its edition, looked for in this order.
pub open spec fn package_of(fields: Seq<(Seq<char>, Item)>) -> Result<
    PackageView,
    ConfigErrorView,
> {
    let at = seq![PACKAGE_KEY@];
    match text_field(fields, at, NAME_KEY@) {
        Err(error) => Err(error),
        Ok(name) => match text_field(fields, at, VERSION_KEY@) {
            Err(error) => Err(error),
            Ok(version) => match text_field(fields, at, EDITION_KEY@) {
                Err(error) => Err(error),
                Ok(edition) => Ok(PackageView { name, version, edition }),
            },
        },
    }
}

/// The dependency that `item` describes under `key`: a table with a name and
/// a version, looked for in this order.
pub open spec fn dependency_of(key: Seq<char>, item: Item) -> Result<
    DependencyView,
    ConfigErrorView,
> {
    let at = seq![DEPENDENCIES_KEY@, key];
    match item {
        Item::Table(fields) => match text_field(fields, at, NAME_KEY@) {
            Err(error) => Err(error),
            Ok(name) => match text_field(fields, at, VERSION_KEY@) {
                Err(error) => Err(error),
                Ok(version) => Ok(DependencyView { name, version }),
            },
        },
        _ => Err(ConfigErrorView::Mistyped { path: at }),
    }
}

/// The dependencies that `entries` describe, in their order. Where several
/// entries are at fault, the error is that of the first.
pub open spec fn dependencies_of(entries: Seq<(Seq<char>, Item)>) -> Result<
    Seq<(Seq<char>, DependencyView)>,
    ConfigErrorView,
>
    decreases entries.len(),
{
    if entries.len() == 0 {
        Ok(Seq::empty())
    } else {
        match dependencies_of(entries.drop_last()) {
            Err(error) => Err(error),
            Ok(list) => match dependency_of(entries.last().0, entries.last().1) {
                Err(error) => Err(error),
                Ok(dependency) => Ok(list.push((entries.last().0, dependency))),
            },
        }
    }
}

/// What the document with these entries says as a descriptor: the package
/// first, then the dependencies.
pub open spec fn config_of(document: Seq<(Seq<char>, Item)>) -> Result<
    ConfigView,
    ConfigErrorView,
> {
    match table_field(document, Seq::empty(), PACKAGE_KEY@) {
        Err(error) => Err(error),
        Ok(fields) => match package_of(fields) {
            Err(error) => Err(error),
            Ok(package) => match table_field(document, Seq::empty(), DEPENDENCIES_KEY@) {
                Err(error) => Err(error),
                Ok(entries) => match dependencies_of(entries) {
                    Err(error) => Err(error),
                    Ok(dependencies) => Ok(ConfigView { package, dependencies }),
                },
            },
        },
    }
}

/// What `load` returns: the fallback record without a descriptor, and with
/// one what its text says, or why it says nothing.
pub open spec fn loaded(content: Option<Seq<char>>) -> Result<ConfigView, ConfigErrorView> {
    match content {
        None => Ok(ConfigView::fallback()),
        Some(text) => match parsed_document(text) {
            Err(message) => Err(ConfigErrorView::Syntax { message }),
            Ok(document) => config_of(document),
        },
    }
}

/// Reads the string under `key` from `table`, which stands at `at`.
fn read_text(table: &toml::Table, at: &Vec<String>, key: &str) -> (field: Result<
    String,
    ConfigError,
>)
    ensures
        match field {
            Ok(text) => text_field(table_entries(*table), at.deep_view(), key@) == Ok::<
                Seq<char>,
                ConfigErrorView,
            >(text@),
            Err(error) => text_field(table_entries(*table), at.deep_view(), key@) == Err::<
                Seq<char>,
                ConfigErrorView,
            >(error@),
        },
{
    match table_get(table, key) {
        None => Err(ConfigError::Missing { path: extended(at, key) }),
        Some(value) => match value.as_str() {
            Some(text) => Ok(String::from_str(text)),
            None => Err(ConfigError::Mistyped { path: extended(at, key) }),
        },
    }
}

/// Reads the table under `key` from `table`, which stands at `at`.
fn read_table<'a>(table: &'a toml::Table, at: &Vec<String>, key: &str) -> (field: Result<
    &'a toml::Table,
    ConfigError,
>)
    ensures
        match field {
            Ok(inner) => table_field(table_entries(*table), at.deep_view(), key@) == Ok::<
                Seq<(Seq<char>, Item)>,
                ConfigErrorView,
            >(table_entries(*inner)),
            Err(error) => table_field(table_entries(*table), at.deep_view(), key@) == Err::<
                Seq<(Seq<char>, Item)>,
                ConfigErrorView,
            >(error@),
        },
{
    match table_get(table, key) {
        None => Err(ConfigError::Missing { path: extended(at, key) }),
        Some(value) => match value.as_table() {
            Some(inner) => Ok(inner),
            None => Err(ConfigError::Mistyped { path: extended(at, key) }),
        },
    }
}

/// Reads the package that the section `fields` names.
fn read_package(fields: &toml::Table) -> (package: Result<Package, ConfigError>)
    ensures
        match package {
            Ok(p) => package_of(table_entries(*fields)) == Ok::<PackageView, ConfigErrorView>(p@),
            Err(error) => package_of(table_entries(*fields)) == Err::<
                PackageView,
                ConfigErrorView,
            >(error@),
        },
{
    let at = single(PACKAGE_KEY);
    let name = match read_text(fields, &at, NAME_KEY) {
        Ok(text) => text,
        Err(error) => {
            return Err(error);
        },
    };
    let version = match read_text(fields, &at, VERSION_KEY) {
        Ok(text) => text,
        Err(error) => {
            return Err(error);
        },
    };
    let edition = match read_text(fields, &at, EDITION_KEY) {
        Ok(text) => text,
        Err(error) => {
            return Err(error);
        },
    };
    Ok(Package { name, version, edition })
}

/// Reads the dependency that `value` describes under `key`.
fn read_dependency(key: &str, value: &toml::Value) -> (dependency: Result<
    Dependency,
    ConfigError,
>)
    ensures
        match dependency {
            Ok(d) => dependency_of(key@, value_item(*value)) == Ok::<
                DependencyView,
                ConfigErrorView,
            >(d@),
            Err(error) => dependency_of(key@, value_item(*value)) == Err::<
                DependencyView,
                ConfigErrorView,
            >(error@),
        },
{
    let at = pair(DEPENDENCIES_KEY, key);
    let fields = match value.as_table() {
        Some(fields) => fields,
        None => {
            return Err(ConfigError::Mistyped { path: at });
        },
    };
    let name = match read_text(fields, &at, NAME_KEY) {
        Ok(text) => text,
        Err(error) => {
            return Err(error);
        },
    };
    let version = match read_text(fields, &at, VERSION_KEY) {
        Ok(text) => text,
        Err(error) => {
            return Err(error);
        },
    };
    Ok(Dependency { name, version })
}

/// Reads the dependencies that the section `section` lists.
fn read_dependencies(section: &toml::Table) -> (list: Result<Vec<DependencyEntry>, ConfigError>)
    ensures
        match list {
            Ok(entries) => dependencies_of(table_entries(*section)) == Ok::<
                Seq<(Seq<char>, DependencyView)>,
                ConfigErrorView,
            >(entry_views(entries@)) && entries@.len() == table_entries(*section).len()
                && forall|i: int, j: int|
                0 <= i < j < entries@.len() ==> entries@[i].key@ != entries@[j].key@,
            Err(error) => dependencies_of(table_entries(*section)) == Err::<
                Seq<(Seq<char>, DependencyView)>,
                ConfigErrorView,
            >(error@),
        },
{
    let listed = table_list(section);
    let ghost entries = table_entries(*section);
    let mut list: Vec<DependencyEntry> = Vec::new();
    let mut i: usize = 0;
    assert(entries.take(0) =~= Seq::empty());
    assert(entry_views(list@) =~= Seq::empty());
    while i < listed.len()
        invariant
            i <= listed.len(),
            entries == table_entries(*section),
            listed@.len() == entries.len(),
            forall|k: int|
                0 <= k < listed@.len() ==> (#[trigger] listed@[k]).0@ == entries[k].0
                    && value_item(*listed@[k].1) == entries[k].1,
            forall|k: int, l: int|
                0 <= k < l < listed@.len() ==> (#[trigger] listed@[k]).0@ != (
                #[trigger] listed@[l]).0@,
            list@.len() == i,
            forall|k: int| 0 <= k < i ==> (#[trigger] list@[k]).key@ == entries[k].0,
            dependencies_of(entries.take(i as int)) == Ok::<
                Seq<(Seq<char>, DependencyView)>,
                ConfigErrorView,
            >(entry_views(list@)),
        decreases listed.len() - i,
    {
        let key = &listed[i].0;
        let value = listed[i].1;
        proof {
            let next = entries.take(i + 1);
            assert(next.drop_last() =~= entries.take(i as int));
            assert(next.last() == entries[i as int]);
        }
        match read_dependency(key.as_str(), value) {
            Err(error) => {
                proof {
                    lemma_fault_stays(entries, i + 1);
                }
                return Err(error);
            },
            Ok(dependency) => {
                let ghost before = entry_views(list@);
                list.push(DependencyEntry { key: key.clone(), dependency });
                assert(entry_views(list@) =~= before.push((entries[i as int].0, dependency@)));
            },
        }
        i += 1;
    }
    assert(entries.take(i as int) =~= entries);
    assert forall|k: int, l: int| 0 <= k < l < list@.len() implies list@[k].key@
        != list@[l].key@ by {
        assert(listed@[k].0@ != listed@[l].0@);
    }
    Ok(list)
}

/// A fault among the first `count` entries is the fault of the whole list.
proof fn lemma_fault_stays(entries: Seq<(Seq<char>, Item)>, count: int)
    requires
        0 <= count <= entries.len(),
        dependencies_of(entries.take(count)) is Err,
    ensures
        dependencies_of(entries) == dependencies_of(entries.take(count)),
    decreases entries.len() - count,
{
    if count < entries.len() {
        let next = entries.take(count + 1);
        assert(next.drop_last() =~= entries.take(count));
        lemma_fault_stays(entries, count + 1);
    } else {
        assert(entries.take(count) =~= entries);
    }
}

/// Reads a descriptor from a parsed document.
///
/// The section `package` must be a table with the strings `name`, `version`
/// and `edition`; the section `dependencies` must be a table whose entries
/// are tables with the strings `name` and `version`. Other keys are passed
/// over. The record holds exactly the strings found; the first value that is
/// absent or of the wrong kind is reported with its path.
pub fn config_from_table(table: &toml::Table) -> (outcome: Result<Config, ConfigError>)
    ensures
        outcome_view(outcome) == config_of(table_entries(*table)),
        outcome matches Ok(config) ==> config@.well_formed(),
{
    let top: Vec<String> = Vec::new();
    assert(top.deep_view() =~= Seq::empty());
    let fields = match read_table(table, &top, PACKAGE_KEY) {
        Ok(fields) => fields,
        Err(error) => {
            return Err(error);
        },
    };
    let package = match read_package(fields) {
        Ok(package) => package,
        Err(error) => {
            return Err(error);
        },
    };
    let section = match read_table(table, &top, DEPENDENCIES_KEY) {
        Ok(section) => section,
        Err(error) => {
            return Err(error);
        },
    };
    let dependencies = match read_dependencies(section) {
        Ok(dependencies) => dependencies,
        Err(error) => {
            return Err(error);
        },
    };
    Ok(Config { package, dependencies })
}

/// Loads the project descriptor.
///
/// `content` is the text of the descriptor file, or `None` where there is no
/// such file. Without a file the fallback record is returned, which is no
/// error. With one, the record holds what the text says; a text that is not
/// TOML, or that lacks a required value, is an error.
pub fn load(content: Option<&str>) -> (outcome: Result<Config, ConfigError>)
    ensures
        outcome_view(outcome) == loaded(
            match content {
                Some(text) => Some(text@),
                None => None,
            },
        ),
        outcome matches Ok(config) ==> config@.well_formed(),
{
    match content {
        None => Ok(Config::default()),
        Some(text) => match parse_document(text) {
            Err(error) => Err(ConfigError::Syntax { message: String::from_str(error.message()) }),
            Ok(table) => config_from_table(&table),
        },
    }
}

/// The table with these `entries` holds a string under `key`.
pub open spec fn has_text(entries: Seq<(Seq<char>, Item)>, key: Seq<char>) -> bool {
    find_entry(entries, key) matches Some(Item::Text(_))
}

/// The string under `key`, where there is one.
pub open spec fn text_under(entries: Seq<(Seq<char>, Item)>, key: Seq<char>) -> Seq<char> {
    match find_entry(entries, key) {
        Some(Item::Text(text)) => text,
        _ => Seq::empty(),
    }
}

/// The table with these `entries` holds a table under `key`.
pub open spec fn has_table(entries: Seq<(Seq<char>, Item)>, key: Seq<char>) -> bool {
    find_entry(entries, key) matches Some(Item::Table(_))
}

/// The entries of the table under `key`, where there is one.
pub open spec fn table_under(entries: Seq<(Seq<char>, Item)>, key: Seq<char>) -> Seq<
    (Seq<char>, Item),
> {
    match find_entry(entries, key) {
        Some(Item::Table(fields)) => fields,
        _ => Seq::empty(),
    }
}

/// `item` describes a dependency: it is a table with a name and a version.
pub open spec fn describes_dependency(item: Item) -> bool {
    item matches Item::Table(fields) && has_text(fields, NAME_KEY@) && has_text(
        fields,
        VERSION_KEY@,
    )
}

/// The dependency that `item` describes, where it describes one.
pub open spec fn dependency_in(item: Item) -> DependencyView {
    match item {
        Item::Table(fields) => DependencyView {
            name: text_under(fields, NAME_KEY@),
            version: text_under(fields, VERSION_KEY@),
        },
        _ => DependencyView { name: Seq::empty(), version: Seq::empty() },
    }
}

/// The document with these entries is a descriptor: its package section
/// names a package in full, and every entry of its dependency section
/// describes a dependency.
pub open spec fn valid_descriptor(document: Seq<(Seq<char>, Item)>) -> bool {
    let package = table_under(document, PACKAGE_KEY@);
    let dependencies = table_under(document, DEPENDENCIES_KEY@);
    &&& has_table(document, PACKAGE_KEY@)
    &&& has_text(package, NAME_KEY@)
    &&& has_text(package, VERSION_KEY@)
    &&& has_text(package, EDITION_KEY@)
    &&& has_table(document, DEPENDENCIES_KEY@)
    &&& forall|i: int|
        0 <= i < dependencies.len() ==> describes_dependency((#[trigger] dependencies[i]).1)
}

/// The list of dependencies is read exactly when every entry describes one,
/// and then it holds one dependency for each entry, in order, under the
/// entry's key and with the entry's strings.
pub proof fn lemma_dependencies_read(entries: Seq<(Seq<char>, Item)>)
    ensures
        dependencies_of(entries) is Ok <==> forall|i: int|
            0 <= i < entries.len() ==> describes_dependency((#[trigger] entries[i]).1),
        dependencies_of(entries) matches Ok(list) ==> list.len() == entries.len() && forall|
            i: int,
        |
            0 <= i < entries.len() ==> (#[trigger] list[i]) == (
                entries[i].0,
                dependency_in(entries[i].1),
            ),
    decreases entries.len(),
{
    if entries.len() > 0 {
        let front = entries.drop_last();
        lemma_dependencies_read(front);
        assert forall|i: int| 0 <= i < front.len() implies front[i] == entries[i] by {}
        if dependencies_of(entries) is Ok {
            assert forall|i: int| 0 <= i < entries.len() implies describes_dependency(
                (#[trigger] entries[i]).1,
            ) by {
                if i < front.len() {
                    assert(describes_dependency(front[i].1));
                }
            }
        }
        if forall|i: int|
            0 <= i < entries.len() ==> describes_dependency((#[trigger] entries[i]).1) {
            assert forall|i: int| 0 <= i < front.len() implies describes_dependency(
                (#[trigger] front[i]).1,
            ) by {
                assert(describes_dependency(entries[i].1));
            }
            assert(describes_dependency(entries[entries.len() - 1].1));
        }
    }
}

/// Loading succeeds on exactly the valid descriptors, and the record then
/// holds the strings of the descriptor, field by field: the package's name,
/// version and edition, and for each entry of the dependency section, in
/// order, its key, its name and its version.
pub proof fn lemma_valid_descriptor_loads(text: Seq<char>, document: Seq<(Seq<char>, Item)>)
    requires
        parsed_document(text) == Ok::<Seq<(Seq<char>, Item)>, Seq<char>>(document),
    ensures
        loaded(Some(text)) is Ok <==> valid_descriptor(document),
        loaded(Some(text)) matches Ok(config) ==> {
            let package = table_under(document, PACKAGE_KEY@);
            let dependencies = table_under(document, DEPENDENCIES_KEY@);
            &&& config.package.name == text_under(package, NAME_KEY@)
            &&& config.package.version == text_under(package, VERSION_KEY@)
            &&& config.package.edition == text_under(package, EDITION_KEY@)
            &&& config.dependencies.len() == dependencies.len()
            &&& forall|i: int|
                0 <= i < dependencies.len() ==> (#[trigger] config.dependencies[i]) == (
                    dependencies[i].0,
                    dependency_in(dependencies[i].1),
                )
        },
{
    lemma_dependencies_read(table_under(document, DEPENDENCIES_KEY@));
}

/// Without a descriptor file, loading gives the fallback record.
pub proof fn lemma_missing_descriptor_loads_fallback()
    ensures
        loaded(None) == Ok::<ConfigView, ConfigErrorView>(ConfigView::fallback()),
        ConfigView::fallback().package.name == "default"@,
        ConfigView::fallback().package.version == "0.1.0"@,
        ConfigView::fallback().package.edition == "2021"@,
        ConfigView::fallback().dependencies.len() == 0,
{
}

} // verus!
