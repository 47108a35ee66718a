use std::collections::HashMap;

use spark_catalog::catalog::DEFAULT_SOURCE_CONF;
use spark_catalog::{CatType, Catalog, CatalogRequest, CreateExternalTable, CreateTable, Reply};

type Request = CatalogRequest<String, u8>;

fn catalog() -> Catalog<&'static str> {
    Catalog::new("sc://127.0.0.1:15002/;user_id=rust_catalog")
}

fn command(request: Request) -> CatType<String, u8> {
    request.relation.cat_type.expect("a catalog request carries a command")
}

#[test]
fn new_keeps_the_session() {
    let catalog = Catalog::new(42u32);
    assert_eq!(*catalog.spark_session(), 42);
}

#[test]
fn current_catalog_request() {
    let r: Request = catalog().current_catalog();
    assert_eq!(r.reply, Reply::FirstValue);
    assert_eq!(command(r), CatType::CurrentCatalog);
}

#[test]
fn set_current_catalog_request() {
    let r: Request = catalog().set_current_catalog("spark_catalog");
    assert_eq!(r.reply, Reply::Execute);
    assert_eq!(
        command(r),
        CatType::SetCurrentCatalog { catalog_name: "spark_catalog".to_string() }
    );
}

#[test]
fn list_catalogs_request() {
    let r: Request = catalog().list_catalogs(None);
    assert_eq!(r.reply, Reply::Batch);
    assert_eq!(command(r), CatType::ListCatalogs { pattern: None });
    let r: Request = catalog().list_catalogs(Some("spark*"));
    assert_eq!(command(r), CatType::ListCatalogs { pattern: Some("spark*".to_string()) });
}

#[test]
fn current_database_request() {
    let r: Request = catalog().current_database();
    assert_eq!(r.reply, Reply::FirstValue);
    assert_eq!(command(r), CatType::CurrentDatabase);
}

#[test]
fn set_current_database_request() {
    let r: Request = catalog().set_current_database("current_db");
    assert_eq!(r.reply, Reply::Execute);
    assert_eq!(command(r), CatType::SetCurrentDatabase { db_name: "current_db".to_string() });
}

#[test]
fn list_databases_request() {
    let r: Request = catalog().list_databases(Some("def*"));
    assert_eq!(r.reply, Reply::Batch);
    assert_eq!(command(r), CatType::ListDatabases { pattern: Some("def*".to_string()) });
}

#[test]
fn get_database_request() {
    let r: Request = catalog().get_database("get_db");
    assert_eq!(r.reply, Reply::Batch);
    assert_eq!(command(r), CatType::GetDatabase { db_name: "get_db".to_string() });
}

#[test]
fn database_exists_request() {
    let r: Request = catalog().database_exists("default");
    assert_eq!(r.reply, Reply::Flag);
    assert_eq!(command(r), CatType::DatabaseExists { db_name: "default".to_string() });
}

#[test]
fn list_tables_request() {
    let r: Request = catalog().list_tables(Some("test_create_table"), None);
    assert_eq!(r.reply, Reply::Batch);
    assert_eq!(
        command(r),
        CatType::ListTables { db_name: None, pattern: Some("test_create_table".to_string()) }
    );
    let r: Request = catalog().list_tables(None, Some("default"));
    assert_eq!(
        command(r),
        CatType::ListTables { db_name: Some("default".to_string()), pattern: None }
    );
}

#[test]
fn get_table_request_names_no_database() {
    let r: Request = catalog().get_table("tmp_table");
    assert_eq!(r.reply, Reply::Batch);
    assert_eq!(
        command(r),
        CatType::GetTable { table_name: "tmp_table".to_string(), db_name: None }
    );
}

#[test]
fn list_functions_request() {
    let r: Request = catalog().list_functions(Some("default"), Some("len*"));
    assert_eq!(r.reply, Reply::Batch);
    assert_eq!(
        command(r),
        CatType::ListFunctions {
            db_name: Some("default".to_string()),
            pattern: Some("len*".to_string())
        }
    );
}

#[test]
fn function_exists_request() {
    let r: Request = catalog().function_exists("len", None);
    assert_eq!(r.reply, Reply::Flag);
    assert_eq!(
        command(r),
        CatType::FunctionExists { function_name: "len".to_string(), db_name: None }
    );
}

#[test]
fn get_function_request_names_no_database() {
    let r: Request = catalog().get_function("len");
    assert_eq!(r.reply, Reply::Batch);
    assert_eq!(
        command(r),
        CatType::GetFunction { function_name: "len".to_string(), db_name: None }
    );
}

#[test]
fn list_columns_request() {
    let r: Request = catalog().list_columns("tmp_table", Some("default"));
    assert_eq!(r.reply, Reply::Batch);
    assert_eq!(
        command(r),
        CatType::ListColumns {
            table_name: "tmp_table".to_string(),
            db_name: Some("default".to_string())
        }
    );
}

#[test]
fn table_exists_request() {
    let r: Request = catalog().table_exists("tmp_table", None);
    assert_eq!(r.reply, Reply::Flag);
    assert_eq!(
        command(r),
        CatType::TableExists { table_name: "tmp_table".to_string(), db_name: None }
    );
}

#[test]
fn drop_view_requests() {
    let r: Request = catalog().drop_temp_view("tmp_view");
    assert_eq!(r.reply, Reply::Flag);
    assert_eq!(command(r), CatType::DropTempView { view_name: "tmp_view".to_string() });
    let r: Request = catalog().drop_global_temp_view("tmp_view");
    assert_eq!(r.reply, Reply::Flag);
    assert_eq!(command(r), CatType::DropGlobalTempView { view_name: "tmp_view".to_string() });
}

#[test]
fn cache_requests() {
    let r: Request = catalog().cache_table("cache_table", None);
    assert_eq!(r.reply, Reply::Execute);
    assert_eq!(
        command(r),
        CatType::CacheTable { table_name: "cache_table".to_string(), storage_level: None }
    );
    let r: Request = catalog().cache_table("cache_table", Some(3));
    assert_eq!(
        command(r),
        CatType::CacheTable { table_name: "cache_table".to_string(), storage_level: Some(3) }
    );
    let r: Request = catalog().is_cached("cache_table");
    assert_eq!(r.reply, Reply::Flag);
    assert_eq!(command(r), CatType::IsCached { table_name: "cache_table".to_string() });
    let r: Request = catalog().uncache_table("cache_table");
    assert_eq!(r.reply, Reply::Execute);
    assert_eq!(command(r), CatType::UncacheTable { table_name: "cache_table".to_string() });
    let r: Request = catalog().clear_cache();
    assert_eq!(r.reply, Reply::Execute);
    assert_eq!(command(r), CatType::ClearCache);
}

#[test]
fn refresh_requests() {
    let r: Request = catalog().refresh_table("cache_table");
    assert_eq!(r.reply, Reply::Execute);
    assert_eq!(command(r), CatType::RefreshTable { table_name: "cache_table".to_string() });
    let r: Request = catalog().recover_partitions("cache_table");
    assert_eq!(r.reply, Reply::Execute);
    assert_eq!(command(r), CatType::RecoverPartitions { table_name: "cache_table".to_string() });
    let r: Request = catalog().refresh_by_path("/opt/spark/work-dir/datasets");
    assert_eq!(r.reply, Reply::Execute);
    assert_eq!(
        command(r),
        CatType::RefreshByPath { path: "/opt/spark/work-dir/datasets".to_string() }
    );
}

fn snappy() -> HashMap<String, String> {
    let mut options = HashMap::new();
    options.insert("compression".to_string(), "snappy".to_string());
    options
}

#[test]
fn create_table_with_named_source() {
    let t = catalog().create_table(
        "test_create_table",
        Some("parquet"),
        Some("name STRING".to_string()),
        Some("Test table description"),
        Some(snappy()),
    );
    assert_eq!(t.source_lookup(), None);
    let expected = CreateTable {
        table_name: "test_create_table".to_string(),
        path: None,
        source: Some("parquet".to_string()),
        description: Some("Test table description".to_string()),
        schema: Some("name STRING".to_string()),
        options: snappy(),
    };
    assert_eq!(t, expected);
    let t = t.with_default_source("orc".to_string());
    assert_eq!(t, expected);
    let r: Request = t.into_request();
    assert_eq!(r.reply, Reply::CreatedTable);
    assert_eq!(command(r), CatType::CreateTable(expected));
}

#[test]
fn create_table_reads_the_default_source() {
    let t = catalog().create_table::<String>("t", None, None, None, None);
    assert_eq!(t.source_lookup(), Some("spark.sql.sources.default"));
    assert_eq!(t.source_lookup(), Some(DEFAULT_SOURCE_CONF));
    assert_eq!(t.source, None);
    assert!(t.options.is_empty());
    let t = t.with_default_source("parquet".to_string());
    assert_eq!(t.source, Some("parquet".to_string()));
    assert_eq!(t.source_lookup(), None);
}

#[test]
fn create_table_empty_description_is_none() {
    let with_empty = catalog().create_table::<String>("t", Some("csv"), None, Some(""), None);
    let with_none = catalog().create_table::<String>("t", Some("csv"), None, None, None);
    assert_eq!(with_empty.description, None);
    assert_eq!(with_empty, with_none);
}

#[test]
fn create_external_table_request() {
    let t = catalog().create_external_table(
        "test_create_external_table",
        "/opt/spark/work-dir/datasets/users.parquet",
        None,
        Some("name STRING".to_string()),
        Some(snappy()),
    );
    assert_eq!(t.source_lookup(), Some("spark.sql.sources.default"));
    let t = t.with_default_source("parquet".to_string());
    let expected = CreateExternalTable {
        table_name: "test_create_external_table".to_string(),
        path: Some("/opt/spark/work-dir/datasets/users.parquet".to_string()),
        source: Some("parquet".to_string()),
        schema: Some("name STRING".to_string()),
        options: snappy(),
    };
    assert_eq!(t, expected);
    let r: Request = t.into_request();
    assert_eq!(r.reply, Reply::CreatedTable);
    assert_eq!(command(r), CatType::CreateExternalTable(expected));
}

#[test]
fn create_external_table_keeps_named_source() {
    let t = catalog().create_external_table::<String>("t", "/data", Some("json"), None, None);
    assert_eq!(t.source_lookup(), None);
    let t = t.with_default_source("parquet".to_string());
    assert_eq!(t.source, Some("json".to_string()));
}
