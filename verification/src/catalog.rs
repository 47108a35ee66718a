use std::collections::HashMap;
use vstd::prelude::*;

use crate::command::{
    owned, CatType, CatalogCommand, CatalogRelation, CatalogRequest, CreateExternalTable,
    CreateExternalTableModel, CreateTable, CreateTableModel, Reply,
};

verus! {

/// The request that carries `cat_type`, read back as `reply` says.
fn request<D, L>(cat_type: CatType<D, L>, reply: Reply) -> (r: CatalogRequest<D, L>)
    ensures
        r.relation@ == Some::<CatalogCommand<D, L>>(cat_type@),
        r.reply == reply,
{
    CatalogRequest { relation: CatalogRelation { cat_type: Some(cat_type) }, reply }
}

/// A description that is given and not empty; an empty one counts as none.
pub open spec fn kept_description(description: Option<Seq<char>>) -> Option<Seq<char>> {
    match description {
        Some(d) => if d.len() == 0 { None } else { Some(d) },
        None => None,
    }
}

/// The options a table is created with: those given, or none at all.
pub open spec fn given_options(options: Option<HashMap<String, String>>) -> Map<String, String> {
    match options {
        Some(o) => o@,
        None => Map::empty(),
    }
}

fn options_or_empty(options: Option<HashMap<String, String>>) -> (r: HashMap<String, String>)
    ensures
        r@ == given_options(options),
{
    match options {
        Some(o) => o,
        None => HashMap::new(),
    }
}

/// The configuration key whose value is the data source of a table that is
/// created without one.
pub const DEFAULT_SOURCE_CONF: &'static str = "spark.sql.sources.default";

/// The request that `create_table` builds, before any default source is
/// filled in.
pub open spec fn create_table_model<D>(
    table_name: Seq<char>,
    source: Option<Seq<char>>,
    schema: Option<D>,
    description: Option<Seq<char>>,
    options: Map<String, String>,
) -> CreateTableModel<D> {
    CreateTableModel {
        table_name,
        path: None,
        source,
        description: kept_description(description),
        schema,
        options,
    }
}

/// The request that `create_external_table` builds, before any default
/// source is filled in.
pub open spec fn create_external_table_model<D>(
    table_name: Seq<char>,
    path: Seq<char>,
    source: Option<Seq<char>>,
    schema: Option<D>,
    options: Map<String, String>,
) -> CreateExternalTableModel<D> {
    CreateExternalTableModel { table_name, path: Some(path), source, schema, options }
}

/// A source that was given, or else the default one.
pub open spec fn source_or(source: Option<Seq<char>>, default_source: Seq<char>) -> Option<Seq<char>> {
    match source {
        Some(s) => Some(s),
        None => Some(default_source),
    }
}

/// The configuration key to read before the request can be sent: the key
/// of the default source where no source was given.
pub open spec fn source_lookup_key(source: Option<Seq<char>>) -> Option<Seq<char>> {
    match source {
        Some(_) => None,
        None => Some(DEFAULT_SOURCE_CONF@),
    }
}

impl<D> CreateTable<D> {
    /// The configuration value to read before this request can be sent: the
    /// session's default data source, where the caller named no source.
    pub fn source_lookup(&self) -> (key: Option<&'static str>)
        ensures
            key.deep_view() == source_lookup_key(self@.source),
    {
        match &self.source {
            Some(_) => None,
            None => Some(DEFAULT_SOURCE_CONF),
        }
    }

    /// Fills in the session's default data source where no source was named.
    pub fn with_default_source(self, default_source: String) -> (t: Self)
        ensures
            t@ == (CreateTableModel { source: source_or(self@.source, default_source@), ..self@ }),
            self@.source is None ==> t@.source == Some(default_source@),
            self@.source is Some ==> t@ == self@,
    {
        let CreateTable { table_name, path, source, description, schema, options } = self;
        let source = match source {
            Some(s) => Some(s),
            None => Some(default_source),
        };
        CreateTable { table_name, path, source, description, schema, options }
    }

    /// The request to send once the source is known; its reply is dropped
    /// and the new table read back by its name.
    pub fn into_request<L>(self) -> (r: CatalogRequest<D, L>)
        requires
            self.source is Some,
        ensures
            r.relation@ == Some(CatalogCommand::<D, L>::CreateTable(self@)),
            r.reply == Reply::CreatedTable,
    {
        request(CatType::CreateTable(self), Reply::CreatedTable)
    }
}

impl<D> CreateExternalTable<D> {
    /// The configuration value to read before this request can be sent: the
    /// session's default data source, where the caller named no source.
    pub fn source_lookup(&self) -> (key: Option<&'static str>)
        ensures
            key.deep_view() == source_lookup_key(self@.source),
    {
        match &self.source {
            Some(_) => None,
            None => Some(DEFAULT_SOURCE_CONF),
        }
    }

    /// Fills in the session's default data source where no source was named.
    pub fn with_default_source(self, default_source: String) -> (t: Self)
        ensures
            t@ == (CreateExternalTableModel {
                source: source_or(self@.source, default_source@),
                ..self@
            }),
            self@.source is None ==> t@.source == Some(default_source@),
            self@.source is Some ==> t@ == self@,
    {
        let CreateExternalTable { table_name, path, source, schema, options } = self;
        let source = match source {
            Some(s) => Some(s),
            None => Some(default_source),
        };
        CreateExternalTable { table_name, path, source, schema, options }
    }

    /// The request to send once the source is known; its reply is dropped
    /// and the new table read back by its name.
    pub fn into_request<L>(self) -> (r: CatalogRequest<D, L>)
        requires
            self.source is Some,
        ensures
            r.relation@ == Some(CatalogCommand::<D, L>::CreateExternalTable(self@)),
            r.reply == Reply::CreatedTable,
    {
        request(CatType::CreateExternalTable(self), Reply::CreatedTable)
    }
}

/// The catalog of one session: every request it builds is sent through the
/// session it was made from.
#[derive(Debug, Clone)]
pub struct Catalog<S> {
    spark_session: S,
}

impl<S> Catalog<S> {
    /// The session that this catalog sends its requests through.
    pub closed spec fn session(&self) -> S {
        self.spark_session
    }

    pub fn new(spark_session: S) -> (catalog: Self)
        ensures
            catalog.session() == spark_session,
    {
        Self { spark_session }
    }

    /// Borrows the session that this catalog was made from.
    pub fn spark_session(&self) -> (session: &S)
        ensures
            *session == self.session(),
    {
        &self.spark_session
    }

    /// Returns the current default catalog in this session.
    pub fn current_catalog<D, L>(&self) -> (r: CatalogRequest<D, L>)
        ensures
            r.relation@ == Some::<CatalogCommand<D, L>>(CatalogCommand::CurrentCatalog),
            r.reply == Reply::FirstValue,
    {
        request(CatType::CurrentCatalog, Reply::FirstValue)
    }

    /// Sets the current default catalog of this session.
    pub fn set_current_catalog<D, L>(&self, catalog_name: &str) -> (r: CatalogRequest<D, L>)
        ensures
            r.relation@ == Some::<CatalogCommand<D, L>>(CatalogCommand::SetCurrentCatalog { catalog_name: catalog_name@ }),
            r.reply == Reply::Execute,
    {
        request(CatType::SetCurrentCatalog { catalog_name: catalog_name.to_owned() }, Reply::Execute)
    }

    /// Returns a list of catalogs in this session.
    pub fn list_catalogs<D, L>(&self, pattern: Option<&str>) -> (r: CatalogRequest<D, L>)
        ensures
            r.relation@ == Some::<CatalogCommand<D, L>>(CatalogCommand::ListCatalogs { pattern: pattern.deep_view() }),
            r.reply == Reply::Batch,
    {
        request(CatType::ListCatalogs { pattern: owned(pattern) }, Reply::Batch)
    }

    /// Returns the current default database in this session.
    pub fn current_database<D, L>(&self) -> (r: CatalogRequest<D, L>)
        ensures
            r.relation@ == Some::<CatalogCommand<D, L>>(CatalogCommand::CurrentDatabase),
            r.reply == Reply::FirstValue,
    {
        request(CatType::CurrentDatabase, Reply::FirstValue)
    }

    /// Sets the current default database of this session.
    pub fn set_current_database<D, L>(&self, db_name: &str) -> (r: CatalogRequest<D, L>)
        ensures
            r.relation@ == Some::<CatalogCommand<D, L>>(CatalogCommand::SetCurrentDatabase { db_name: db_name@ }),
            r.reply == Reply::Execute,
    {
        request(CatType::SetCurrentDatabase { db_name: db_name.to_owned() }, Reply::Execute)
    }

    /// Returns a list of databases in this session.
    pub fn list_databases<D, L>(&self, pattern: Option<&str>) -> (r: CatalogRequest<D, L>)
        ensures
            r.relation@ == Some::<CatalogCommand<D, L>>(CatalogCommand::ListDatabases { pattern: pattern.deep_view() }),
            r.reply == Reply::Batch,
    {
        request(CatType::ListDatabases { pattern: owned(pattern) }, Reply::Batch)
    }

    /// Returns the database of the given name.
    pub fn get_database<D, L>(&self, db_name: &str) -> (r: CatalogRequest<D, L>)
        ensures
            r.relation@ == Some::<CatalogCommand<D, L>>(CatalogCommand::GetDatabase { db_name: db_name@ }),
            r.reply == Reply::Batch,
    {
        request(CatType::GetDatabase { db_name: db_name.to_owned() }, Reply::Batch)
    }

    /// Whether a database of the given name exists.
    pub fn database_exists<D, L>(&self, db_name: &str) -> (r: CatalogRequest<D, L>)
        ensures
            r.relation@ == Some::<CatalogCommand<D, L>>(CatalogCommand::DatabaseExists { db_name: db_name@ }),
            r.reply == Reply::Flag,
    {
        request(CatType::DatabaseExists { db_name: db_name.to_owned() }, Reply::Flag)
    }

    /// Returns a list of tables/views in the specific database.
    pub fn list_tables<D, L>(&self, pattern: Option<&str>, db_name: Option<&str>) -> (r: CatalogRequest<D, L>)
        ensures
            r.relation@ == Some::<CatalogCommand<D, L>>(CatalogCommand::ListTables { pattern: pattern.deep_view(), db_name: db_name.deep_view() }),
            r.reply == Reply::Batch,
    {
        request(CatType::ListTables { pattern: owned(pattern), db_name: owned(db_name) }, Reply::Batch)
    }

    /// Returns a list of functions in the specific database.
    pub fn list_functions<D, L>(&self, db_name: Option<&str>, pattern: Option<&str>) -> (r: CatalogRequest<D, L>)
        ensures
            r.relation@ == Some::<CatalogCommand<D, L>>(CatalogCommand::ListFunctions { db_name: db_name.deep_view(), pattern: pattern.deep_view() }),
            r.reply == Reply::Batch,
    {
        request(CatType::ListFunctions { db_name: owned(db_name), pattern: owned(pattern) }, Reply::Batch)
    }

    /// Whether a function of the given name exists.
    pub fn function_exists<D, L>(&self, function_name: &str, db_name: Option<&str>) -> (r: CatalogRequest<D, L>)
        ensures
            r.relation@ == Some::<CatalogCommand<D, L>>(CatalogCommand::FunctionExists { function_name: function_name@, db_name: db_name.deep_view() }),
            r.reply == Reply::Flag,
    {
        request(CatType::FunctionExists { function_name: function_name.to_owned(), db_name: owned(db_name) }, Reply::Flag)
    }

    /// Returns a list of columns for the given tables/views in the specific database.
    pub fn list_columns<D, L>(&self, table_name: &str, db_name: Option<&str>) -> (r: CatalogRequest<D, L>)
        ensures
            r.relation@ == Some::<CatalogCommand<D, L>>(CatalogCommand::ListColumns { table_name: table_name@, db_name: db_name.deep_view() }),
            r.reply == Reply::Batch,
    {
        request(CatType::ListColumns { table_name: table_name.to_owned(), db_name: owned(db_name) }, Reply::Batch)
    }

    /// Whether a table or view of the given name exists.
    pub fn table_exists<D, L>(&self, table_name: &str, db_name: Option<&str>) -> (r: CatalogRequest<D, L>)
        ensures
            r.relation@ == Some::<CatalogCommand<D, L>>(CatalogCommand::TableExists { table_name: table_name@, db_name: db_name.deep_view() }),
            r.reply == Reply::Flag,
    {
        request(CatType::TableExists { table_name: table_name.to_owned(), db_name: owned(db_name) }, Reply::Flag)
    }

    /// Drops the local temporary view of the given name; the reply says whether it was dropped.
    pub fn drop_temp_view<D, L>(&self, view_name: &str) -> (r: CatalogRequest<D, L>)
        ensures
            r.relation@ == Some::<CatalogCommand<D, L>>(CatalogCommand::DropTempView { view_name: view_name@ }),
            r.reply == Reply::Flag,
    {
        request(CatType::DropTempView { view_name: view_name.to_owned() }, Reply::Flag)
    }

    /// Drops the global temporary view of the given name; the reply says whether it was dropped.
    pub fn drop_global_temp_view<D, L>(&self, view_name: &str) -> (r: CatalogRequest<D, L>)
        ensures
            r.relation@ == Some::<CatalogCommand<D, L>>(CatalogCommand::DropGlobalTempView { view_name: view_name@ }),
            r.reply == Reply::Flag,
    {
        request(CatType::DropGlobalTempView { view_name: view_name.to_owned() }, Reply::Flag)
    }

    /// Whether the table is cached in memory.
    pub fn is_cached<D, L>(&self, table_name: &str) -> (r: CatalogRequest<D, L>)
        ensures
            r.relation@ == Some::<CatalogCommand<D, L>>(CatalogCommand::IsCached { table_name: table_name@ }),
            r.reply == Reply::Flag,
    {
        request(CatType::IsCached { table_name: table_name.to_owned() }, Reply::Flag)
    }

    /// Removes the table from the in-memory cache.
    pub fn uncache_table<D, L>(&self, table_name: &str) -> (r: CatalogRequest<D, L>)
        ensures
            r.relation@ == Some::<CatalogCommand<D, L>>(CatalogCommand::UncacheTable { table_name: table_name@ }),
            r.reply == Reply::Execute,
    {
        request(CatType::UncacheTable { table_name: table_name.to_owned() }, Reply::Execute)
    }

    /// Removes all cached tables from the in-memory cache.
    pub fn clear_cache<D, L>(&self) -> (r: CatalogRequest<D, L>)
        ensures
            r.relation@ == Some::<CatalogCommand<D, L>>(CatalogCommand::ClearCache),
            r.reply == Reply::Execute,
    {
        request(CatType::ClearCache, Reply::Execute)
    }

    /// Invalidates and refreshes the cached data and metadata of the table.
    pub fn refresh_table<D, L>(&self, table_name: &str) -> (r: CatalogRequest<D, L>)
        ensures
            r.relation@ == Some::<CatalogCommand<D, L>>(CatalogCommand::RefreshTable { table_name: table_name@ }),
            r.reply == Reply::Execute,
    {
        request(CatType::RefreshTable { table_name: table_name.to_owned() }, Reply::Execute)
    }

    /// Recovers all the partitions of the table and updates the catalog.
    pub fn recover_partitions<D, L>(&self, table_name: &str) -> (r: CatalogRequest<D, L>)
        ensures
            r.relation@ == Some::<CatalogCommand<D, L>>(CatalogCommand::RecoverPartitions { table_name: table_name@ }),
            r.reply == Reply::Execute,
    {
        request(CatType::RecoverPartitions { table_name: table_name.to_owned() }, Reply::Execute)
    }

    /// Invalidates and refreshes the cached data of every table over the path.
    pub fn refresh_by_path<D, L>(&self, path: &str) -> (r: CatalogRequest<D, L>)
        ensures
            r.relation@ == Some::<CatalogCommand<D, L>>(CatalogCommand::RefreshByPath { path: path@ }),
            r.reply == Reply::Execute,
    {
        request(CatType::RefreshByPath { path: path.to_owned() }, Reply::Execute)
    }

    /// Creates a managed table from the data source given, or else the
    /// session's default one (see `CreateTable::source_lookup`). An empty
    /// description counts as none.
    pub fn create_table<D>(
        &self,
        table_name: &str,
        source: Option<&str>,
        schema: Option<D>,
        description: Option<&str>,
        options: Option<HashMap<String, String>>,
    ) -> (t: CreateTable<D>)
        ensures
            t@ == create_table_model(
                table_name@,
                source.deep_view(),
                schema,
                description.deep_view(),
                given_options(options),
            ),
            t@.table_name == table_name@,
            t@.path is None,
            t@.source == source.deep_view(),
            t@.schema == schema,
            description is Some && description->0@.len() > 0 ==> t@.description
                == description.deep_view(),
            description is None || description->0@.len() == 0 ==> t@.description is None,
            options matches Some(o) ==> t@.options == o@,
            options is None ==> t@.options == Map::<String, String>::empty(),
    {
        let description = match description {
            Some(d) => if d.is_empty() {
                None
            } else {
                Some(d.to_owned())
            },
            None => None,
        };
        CreateTable {
            table_name: table_name.to_owned(),
            source: owned(source),
            schema,
            description,
            options: options_or_empty(options),
            path: None,
        }
    }

    /// Creates an external table over the data at `path`, read with the data
    /// source given, or else the session's default one.
    pub fn create_external_table<D>(
        &self,
        table_name: &str,
        path: &str,
        source: Option<&str>,
        schema: Option<D>,
        options: Option<HashMap<String, String>>,
    ) -> (t: CreateExternalTable<D>)
        ensures
            t@ == create_external_table_model(
                table_name@,
                path@,
                source.deep_view(),
                schema,
                given_options(options),
            ),
            t@.table_name == table_name@,
            t@.path == Some(path@),
            t@.source == source.deep_view(),
            t@.schema == schema,
            options matches Some(o) ==> t@.options == o@,
            options is None ==> t@.options == Map::<String, String>::empty(),
    {
        CreateExternalTable {
            table_name: table_name.to_owned(),
            path: Some(path.to_owned()),
            source: owned(source),
            schema,
            options: options_or_empty(options),
        }
    }

    /// Returns the table of the given name.
    pub fn get_table<D, L>(&self, table_name: &str) -> (r: CatalogRequest<D, L>)
        ensures
            r.relation@ == Some::<CatalogCommand<D, L>>(
                CatalogCommand::GetTable { table_name: table_name@, db_name: None },
            ),
            r.reply == Reply::Batch,
    {
        request(CatType::GetTable { table_name: table_name.to_owned(), db_name: None }, Reply::Batch)
    }

    /// Returns the function of the given name.
    pub fn get_function<D, L>(&self, function_name: &str) -> (r: CatalogRequest<D, L>)
        ensures
            r.relation@ == Some::<CatalogCommand<D, L>>(
                CatalogCommand::GetFunction { function_name: function_name@, db_name: None },
            ),
            r.reply == Reply::Batch,
    {
        request(
            CatType::GetFunction { function_name: function_name.to_owned(), db_name: None },
            Reply::Batch,
        )
    }

    /// Caches the table in memory, at the storage level given or else the
    /// server's default.
    pub fn cache_table<D, L>(&self, table_name: &str, storage_level: Option<L>) -> (r: CatalogRequest<D, L>)
        ensures
            r.relation@ == Some::<CatalogCommand<D, L>>(
                CatalogCommand::CacheTable { table_name: table_name@, storage_level },
            ),
            r.reply == Reply::Execute,
    {
        request(
            CatType::CacheTable { table_name: table_name.to_owned(), storage_level },
            Reply::Execute,
        )
    }
}

} // verus!
