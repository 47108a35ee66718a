use std::collections::HashMap;
use vstd::prelude::*;

verus! {

/// The request to create a managed table, as the catalog sends it.
///
/// `source` stays `None` only while the data source is still to be read from
/// the session's configuration; a request is sent with a source.
#[derive(Debug, Clone, PartialEq)]
pub struct CreateTable<D> {
    pub table_name: String,
    pub path: Option<String>,
    pub source: Option<String>,
    pub description: Option<String>,
    pub schema: Option<D>,
    pub options: HashMap<String, String>,
}

/// The request to create an external table over the data at `path`.
#[derive(Debug, Clone, PartialEq)]
pub struct CreateExternalTable<D> {
    pub table_name: String,
    pub path: Option<String>,
    pub source: Option<String>,
    pub schema: Option<D>,
    pub options: HashMap<String, String>,
}

/// One catalog request, with its arguments; `D` is the type of a table
/// schema and `L` that of a storage level.
#[derive(Debug, Clone, PartialEq)]
pub enum CatType<D, L> {
    CurrentDatabase,
    SetCurrentDatabase { db_name: String },
    ListDatabases { pattern: Option<String> },
    ListTables { db_name: Option<String>, pattern: Option<String> },
    ListFunctions { db_name: Option<String>, pattern: Option<String> },
    ListColumns { table_name: String, db_name: Option<String> },
    GetDatabase { db_name: String },
    GetTable { table_name: String, db_name: Option<String> },
    GetFunction { function_name: String, db_name: Option<String> },
    DatabaseExists { db_name: String },
    TableExists { table_name: String, db_name: Option<String> },
    FunctionExists { function_name: String, db_name: Option<String> },
    CreateExternalTable(CreateExternalTable<D>),
    CreateTable(CreateTable<D>),
    DropTempView { view_name: String },
    DropGlobalTempView { view_name: String },
    RecoverPartitions { table_name: String },
    IsCached { table_name: String },
    CacheTable { table_name: String, storage_level: Option<L> },
    UncacheTable { table_name: String },
    ClearCache,
    RefreshTable { table_name: String },
    RefreshByPath { path: String },
    CurrentCatalog,
    SetCurrentCatalog { catalog_name: String },
    ListCatalogs { pattern: Option<String> },
}

/// A relation that reads the catalog: the request it carries.
#[derive(Debug, Clone, PartialEq)]
pub struct CatalogRelation<D, L> {
    pub cat_type: Option<CatType<D, L>>,
}

/// How the reply to a request is read.
#[derive(Debug, Clone, Copy, PartialEq, Eq, Structural)]
pub enum Reply {
    /// The first value of the reply, as a string.
    FirstValue,
    /// The request is run as a command; nothing is read back.
    Execute,
    /// The reply's record batch as it comes.
    Batch,
    /// The reply's record batch, read as one boolean (see `arrow_to_bool`).
    Flag,
    /// The reply's record batch is dropped, and the table just created is
    /// read back by its name.
    CreatedTable,
}

/// A request that the session sends, and how its reply is read.
#[derive(Debug, Clone, PartialEq)]
pub struct CatalogRequest<D, L> {
    pub relation: CatalogRelation<D, L>,
    pub reply: Reply,
}

/// The value of a `CreateTable` request, strings taken by their characters.
pub struct CreateTableModel<D> {
    pub table_name: Seq<char>,
    pub path: Option<Seq<char>>,
    pub source: Option<Seq<char>>,
    pub description: Option<Seq<char>>,
    pub schema: Option<D>,
    pub options: Map<String, String>,
}

/// The value of a `CreateExternalTable` request.
pub struct CreateExternalTableModel<D> {
    pub table_name: Seq<char>,
    pub path: Option<Seq<char>>,
    pub source: Option<Seq<char>>,
    pub schema: Option<D>,
    pub options: Map<String, String>,
}

/// The value of a catalog request, strings taken by their characters.
pub enum CatalogCommand<D, L> {
    CurrentDatabase,
    SetCurrentDatabase { db_name: Seq<char> },
    ListDatabases { pattern: Option<Seq<char>> },
    ListTables { db_name: Option<Seq<char>>, pattern: Option<Seq<char>> },
    ListFunctions { db_name: Option<Seq<char>>, pattern: Option<Seq<char>> },
    ListColumns { table_name: Seq<char>, db_name: Option<Seq<char>> },
    GetDatabase { db_name: Seq<char> },
    GetTable { table_name: Seq<char>, db_name: Option<Seq<char>> },
    GetFunction { function_name: Seq<char>, db_name: Option<Seq<char>> },
    DatabaseExists { db_name: Seq<char> },
    TableExists { table_name: Seq<char>, db_name: Option<Seq<char>> },
    FunctionExists { function_name: Seq<char>, db_name: Option<Seq<char>> },
    CreateExternalTable(CreateExternalTableModel<D>),
    CreateTable(CreateTableModel<D>),
    DropTempView { view_name: Seq<char> },
    DropGlobalTempView { view_name: Seq<char> },
    RecoverPartitions { table_name: Seq<char> },
    IsCached { table_name: Seq<char> },
    CacheTable { table_name: Seq<char>, storage_level: Option<L> },
    UncacheTable { table_name: Seq<char> },
    ClearCache,
    RefreshTable { table_name: Seq<char> },
    RefreshByPath { path: Seq<char> },
    CurrentCatalog,
    SetCurrentCatalog { catalog_name: Seq<char> },
    ListCatalogs { pattern: Option<Seq<char>> },
}

impl<D> View for CreateTable<D> {
    type V = CreateTableModel<D>;

    open spec fn view(&self) -> CreateTableModel<D> {
        CreateTableModel {
            table_name: self.table_name@,
            path: self.path.deep_view(),
            source: self.source.deep_view(),
            description: self.description.deep_view(),
            schema: self.schema,
            options: self.options@,
        }
    }
}

impl<D> View for CreateExternalTable<D> {
    type V = CreateExternalTableModel<D>;

    open spec fn view(&self) -> CreateExternalTableModel<D> {
        CreateExternalTableModel {
            table_name: self.table_name@,
            path: self.path.deep_view(),
            source: self.source.deep_view(),
            schema: self.schema,
            options: self.options@,
        }
    }
}

impl<D, L> View for CatType<D, L> {
    type V = CatalogCommand<D, L>;

    open spec fn view(&self) -> CatalogCommand<D, L> {
        match self {
            CatType::CurrentDatabase => CatalogCommand::CurrentDatabase,
            CatType::SetCurrentDatabase { db_name } => CatalogCommand::SetCurrentDatabase { db_name: db_name@ },
            CatType::ListDatabases { pattern } => CatalogCommand::ListDatabases { pattern: pattern.deep_view() },
            CatType::ListTables { db_name, pattern } => CatalogCommand::ListTables {
                db_name: db_name.deep_view(),
                pattern: pattern.deep_view(),
            },
            CatType::ListFunctions { db_name, pattern } => CatalogCommand::ListFunctions {
                db_name: db_name.deep_view(),
                pattern: pattern.deep_view(),
            },
            CatType::ListColumns { table_name, db_name } => CatalogCommand::ListColumns {
                table_name: table_name@,
                db_name: db_name.deep_view(),
            },
            CatType::GetDatabase { db_name } => CatalogCommand::GetDatabase { db_name: db_name@ },
            CatType::GetTable { table_name, db_name } => CatalogCommand::GetTable {
                table_name: table_name@,
                db_name: db_name.deep_view(),
            },
            CatType::GetFunction { function_name, db_name } => CatalogCommand::GetFunction {
                function_name: function_name@,
                db_name: db_name.deep_view(),
            },
            CatType::DatabaseExists { db_name } => CatalogCommand::DatabaseExists { db_name: db_name@ },
            CatType::TableExists { table_name, db_name } => CatalogCommand::TableExists {
                table_name: table_name@,
                db_name: db_name.deep_view(),
            },
            CatType::FunctionExists { function_name, db_name } => CatalogCommand::FunctionExists {
                function_name: function_name@,
                db_name: db_name.deep_view(),
            },
            CatType::CreateExternalTable(t) => CatalogCommand::CreateExternalTable(t@),
            CatType::CreateTable(t) => CatalogCommand::CreateTable(t@),
            CatType::DropTempView { view_name } => CatalogCommand::DropTempView { view_name: view_name@ },
            CatType::DropGlobalTempView { view_name } => CatalogCommand::DropGlobalTempView {
                view_name: view_name@,
            },
            CatType::RecoverPartitions { table_name } => CatalogCommand::RecoverPartitions {
                table_name: table_name@,
            },
            CatType::IsCached { table_name } => CatalogCommand::IsCached { table_name: table_name@ },
            CatType::CacheTable { table_name, storage_level } => CatalogCommand::CacheTable {
                table_name: table_name@,
                storage_level: *storage_level,
            },
            CatType::UncacheTable { table_name } => CatalogCommand::UncacheTable { table_name: table_name@ },
            CatType::ClearCache => CatalogCommand::ClearCache,
            CatType::RefreshTable { table_name } => CatalogCommand::RefreshTable { table_name: table_name@ },
            CatType::RefreshByPath { path } => CatalogCommand::RefreshByPath { path: path@ },
            CatType::CurrentCatalog => CatalogCommand::CurrentCatalog,
            CatType::SetCurrentCatalog { catalog_name } => CatalogCommand::SetCurrentCatalog {
                catalog_name: catalog_name@,
            },
            CatType::ListCatalogs { pattern } => CatalogCommand::ListCatalogs { pattern: pattern.deep_view() },
        }
    }
}

impl<D, L> View for CatalogRelation<D, L> {
    type V = Option<CatalogCommand<D, L>>;

    open spec fn view(&self) -> Option<CatalogCommand<D, L>> {
        match self.cat_type {
            Some(c) => Some(c@),
            None => None,
        }
    }
}

/// An owned copy of an optional string argument.
pub(crate) fn owned(s: Option<&str>) -> (r: Option<String>)
    ensures
        r.deep_view() == s.deep_view(),
{
    match s {
        Some(s) => Some(s.to_owned()),
        None => None,
    }
}

} // verus!
