use vstd::prelude::*;

use std::collections::HashMap;

use crate::catalog::{
    create_external_table_model, create_table_model, given_options, kept_description,
    source_lookup_key, source_or, DEFAULT_SOURCE_CONF,
};
use crate::command::{
    CatType, CatalogCommand, CatalogRelation, CreateExternalTable, CreateExternalTableModel,
    CreateTable, CreateTableModel,
};

verus! {

/// A table created with an empty description is created as one with no
/// description at all.
pub proof fn law_empty_description_is_none<D>(
    table_name: Seq<char>,
    source: Option<Seq<char>>,
    schema: Option<D>,
    options: Map<String, String>,
)
    ensures
        create_table_model(table_name, source, schema, Some(Seq::<char>::empty()), options)
            == create_table_model(table_name, source, schema, None, options),
{
}

/// A description that is not empty is sent as it was given.
pub proof fn law_description_kept(description: Seq<char>)
    requires
        description.len() > 0,
    ensures
        kept_description(Some(description)) == Some(description),
{
}

/// The session's default source is read exactly when the caller names no
/// source, and once it is filled in nothing more is to be read.
pub proof fn law_default_source_read_once(source: Option<Seq<char>>, default_source: Seq<char>)
    ensures
        source_lookup_key(source) is Some <==> source is None,
        source_or(source, default_source) is Some,
        source_lookup_key(source_or(source, default_source)) is None,
{
}

/// A source that the caller names is never replaced by the default one,
/// and filling in the default twice changes nothing the second time.
pub proof fn law_given_source_wins<D>(
    table: CreateTableModel<D>,
    external: CreateExternalTableModel<D>,
    default_source: Seq<char>,
    other_default: Seq<char>,
)
    ensures
        table.source is Some ==> (CreateTableModel {
            source: source_or(table.source, default_source),
            ..table
        }) == table,
        external.source is Some ==> (CreateExternalTableModel {
            source: source_or(external.source, default_source),
            ..external
        }) == external,
        source_or(source_or(table.source, default_source), other_default) == source_or(
            table.source,
            default_source,
        ),
{
}

/// Filling in the default source of a request that names none sends exactly
/// the value read from the session's configuration; a named source is sent
/// as it was named.
pub proof fn law_default_source_is_the_value_read(
    named: Seq<char>,
    default_source: Seq<char>,
)
    ensures
        source_or(None, default_source) == Some(default_source),
        source_or(Some(named), default_source) == Some(named),
{
}

/// Before a table is created, the one value read is the session's
/// `spark.sql.sources.default`, and only when no source is named.
pub proof fn law_lookup_names_the_default_source_key(named: Seq<char>)
    ensures
        source_lookup_key(None) == Some(DEFAULT_SOURCE_CONF@),
        source_lookup_key(Some(named)) is None,
{
}

/// A managed table is created with the name, source, schema and options it
/// was given, at no path, whatever the source; its description is the one
/// given when that is not empty, and none otherwise.
pub proof fn law_create_table_keeps_its_arguments<D>(
    table_name: Seq<char>,
    source: Option<Seq<char>>,
    schema: Option<D>,
    description: Option<Seq<char>>,
    options: Map<String, String>,
)
    ensures
        ({
            let t = create_table_model(table_name, source, schema, description, options);
            &&& t.table_name == table_name
            &&& t.path is None
            &&& t.source == source
            &&& t.schema == schema
            &&& t.options == options
            &&& description is Some && description->0.len() > 0 ==> t.description == description
            &&& description is None || description->0.len() == 0 ==> t.description is None
        }),
{
}

/// An external table is created with the name, path, source, schema and
/// options it was given, whatever the source.
pub proof fn law_create_external_table_keeps_its_arguments<D>(
    table_name: Seq<char>,
    path: Seq<char>,
    source: Option<Seq<char>>,
    schema: Option<D>,
    options: Map<String, String>,
)
    ensures
        ({
            let t = create_external_table_model(table_name, path, source, schema, options);
            &&& t.table_name == table_name
            &&& t.path == Some(path)
            &&& t.source == source
            &&& t.schema == schema
            &&& t.options == options
        }),
{
}

/// The options a table is created with are those given, or none at all.
pub proof fn law_options_given_or_empty(options: HashMap<String, String>)
    ensures
        given_options(Some(options)) == options@,
        given_options(None) == Map::<String, String>::empty(),
{
}

/// The model of a request on databases holds, under each field's own
/// name, the characters of that field: no argument is dropped, altered or
/// moved to another field.
pub proof fn law_databases_requests_keep_fields<D, L>(
    set_current_database_db_name: String,
    list_databases_pattern: Option<String>,
    get_database_db_name: String,
    database_exists_db_name: String,
)
    ensures
        (CatType::<D, L>::SetCurrentDatabase { db_name: set_current_database_db_name })@ == (CatalogCommand::<D, L>::SetCurrentDatabase {
            db_name: set_current_database_db_name@,
        }),
        (CatType::<D, L>::ListDatabases { pattern: list_databases_pattern })@ == (CatalogCommand::<D, L>::ListDatabases {
            pattern: list_databases_pattern.deep_view(),
        }),
        (CatType::<D, L>::GetDatabase { db_name: get_database_db_name })@ == (CatalogCommand::<D, L>::GetDatabase {
            db_name: get_database_db_name@,
        }),
        (CatType::<D, L>::DatabaseExists { db_name: database_exists_db_name })@ == (CatalogCommand::<D, L>::DatabaseExists {
            db_name: database_exists_db_name@,
        }),
{
}

/// The model of a request on tables holds, under each field's own
/// name, the characters of that field: no argument is dropped, altered or
/// moved to another field.
pub proof fn law_tables_requests_keep_fields<D, L>(
    list_tables_db_name: Option<String>,
    list_tables_pattern: Option<String>,
    list_columns_table_name: String,
    list_columns_db_name: Option<String>,
    get_table_table_name: String,
    get_table_db_name: Option<String>,
    table_exists_table_name: String,
    table_exists_db_name: Option<String>,
)
    ensures
        (CatType::<D, L>::ListTables { db_name: list_tables_db_name, pattern: list_tables_pattern })@ == (CatalogCommand::<D, L>::ListTables {
            db_name: list_tables_db_name.deep_view(), pattern: list_tables_pattern.deep_view(),
        }),
        (CatType::<D, L>::ListColumns { table_name: list_columns_table_name, db_name: list_columns_db_name })@ == (CatalogCommand::<D, L>::ListColumns {
            table_name: list_columns_table_name@, db_name: list_columns_db_name.deep_view(),
        }),
        (CatType::<D, L>::GetTable { table_name: get_table_table_name, db_name: get_table_db_name })@ == (CatalogCommand::<D, L>::GetTable {
            table_name: get_table_table_name@, db_name: get_table_db_name.deep_view(),
        }),
        (CatType::<D, L>::TableExists { table_name: table_exists_table_name, db_name: table_exists_db_name })@ == (CatalogCommand::<D, L>::TableExists {
            table_name: table_exists_table_name@, db_name: table_exists_db_name.deep_view(),
        }),
{
}

/// The model of a request on functions holds, under each field's own
/// name, the characters of that field: no argument is dropped, altered or
/// moved to another field.
pub proof fn law_functions_requests_keep_fields<D, L>(
    list_functions_db_name: Option<String>,
    list_functions_pattern: Option<String>,
    get_function_function_name: String,
    get_function_db_name: Option<String>,
    function_exists_function_name: String,
    function_exists_db_name: Option<String>,
)
    ensures
        (CatType::<D, L>::ListFunctions { db_name: list_functions_db_name, pattern: list_functions_pattern })@ == (CatalogCommand::<D, L>::ListFunctions {
            db_name: list_functions_db_name.deep_view(), pattern: list_functions_pattern.deep_view(),
        }),
        (CatType::<D, L>::GetFunction { function_name: get_function_function_name, db_name: get_function_db_name })@ == (CatalogCommand::<D, L>::GetFunction {
            function_name: get_function_function_name@, db_name: get_function_db_name.deep_view(),
        }),
        (CatType::<D, L>::FunctionExists { function_name: function_exists_function_name, db_name: function_exists_db_name })@ == (CatalogCommand::<D, L>::FunctionExists {
            function_name: function_exists_function_name@, db_name: function_exists_db_name.deep_view(),
        }),
{
}

/// The model of a request on views and cache holds, under each field's own
/// name, the characters of that field: no argument is dropped, altered or
/// moved to another field.
pub proof fn law_views_and_cache_requests_keep_fields<D, L>(
    drop_temp_view_view_name: String,
    drop_global_temp_view_view_name: String,
    recover_partitions_table_name: String,
    is_cached_table_name: String,
    cache_table_table_name: String,
    cache_table_storage_level: Option<L>,
    uncache_table_table_name: String,
    refresh_table_table_name: String,
    refresh_by_path_path: String,
)
    ensures
        (CatType::<D, L>::DropTempView { view_name: drop_temp_view_view_name })@ == (CatalogCommand::<D, L>::DropTempView {
            view_name: drop_temp_view_view_name@,
        }),
        (CatType::<D, L>::DropGlobalTempView { view_name: drop_global_temp_view_view_name })@ == (CatalogCommand::<D, L>::DropGlobalTempView {
            view_name: drop_global_temp_view_view_name@,
        }),
        (CatType::<D, L>::RecoverPartitions { table_name: recover_partitions_table_name })@ == (CatalogCommand::<D, L>::RecoverPartitions {
            table_name: recover_partitions_table_name@,
        }),
        (CatType::<D, L>::IsCached { table_name: is_cached_table_name })@ == (CatalogCommand::<D, L>::IsCached {
            table_name: is_cached_table_name@,
        }),
        (CatType::<D, L>::CacheTable { table_name: cache_table_table_name, storage_level: cache_table_storage_level })@ == (CatalogCommand::<D, L>::CacheTable {
            table_name: cache_table_table_name@, storage_level: cache_table_storage_level,
        }),
        (CatType::<D, L>::UncacheTable { table_name: uncache_table_table_name })@ == (CatalogCommand::<D, L>::UncacheTable {
            table_name: uncache_table_table_name@,
        }),
        (CatType::<D, L>::RefreshTable { table_name: refresh_table_table_name })@ == (CatalogCommand::<D, L>::RefreshTable {
            table_name: refresh_table_table_name@,
        }),
        (CatType::<D, L>::RefreshByPath { path: refresh_by_path_path })@ == (CatalogCommand::<D, L>::RefreshByPath {
            path: refresh_by_path_path@,
        }),
{
}

/// The model of a request on catalogs holds, under each field's own
/// name, the characters of that field: no argument is dropped, altered or
/// moved to another field.
pub proof fn law_catalogs_requests_keep_fields<D, L>(
    set_current_catalog_catalog_name: String,
    list_catalogs_pattern: Option<String>,
)
    ensures
        (CatType::<D, L>::SetCurrentCatalog { catalog_name: set_current_catalog_catalog_name })@ == (CatalogCommand::<D, L>::SetCurrentCatalog {
            catalog_name: set_current_catalog_catalog_name@,
        }),
        (CatType::<D, L>::ListCatalogs { pattern: list_catalogs_pattern })@ == (CatalogCommand::<D, L>::ListCatalogs {
            pattern: list_catalogs_pattern.deep_view(),
        }),
{
}

/// The model of a table-creation request holds the characters of each of
/// its fields under the same name, and a relation's model is that of the
/// request it carries.
pub proof fn law_create_models_keep_fields<D, L>(
    table: CreateTable<D>,
    external: CreateExternalTable<D>,
    relation: CatalogRelation<D, L>,
)
    ensures
        table@ == (CreateTableModel {
            table_name: table.table_name@,
            path: table.path.deep_view(),
            source: table.source.deep_view(),
            description: table.description.deep_view(),
            schema: table.schema,
            options: table.options@,
        }),
        external@ == (CreateExternalTableModel {
            table_name: external.table_name@,
            path: external.path.deep_view(),
            source: external.source.deep_view(),
            schema: external.schema,
            options: external.options@,
        }),
        (CatType::<D, L>::CreateTable(table))@ == CatalogCommand::<D, L>::CreateTable(table@),
        (CatType::<D, L>::CreateExternalTable(external))@
            == CatalogCommand::<D, L>::CreateExternalTable(external@),
        relation.cat_type is None ==> relation@ is None,
        relation.cat_type is Some ==> relation@ == Some(relation.cat_type->0@),
{
}

} // verus!
