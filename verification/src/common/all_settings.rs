//! The catalog of the engine's settings: for each its name, its default
//! value, its type, whether it holds for the whole database or for one
//! connection, and what it does.

use vstd::prelude::*;
use vstd::string::*;

use crate::common::duckdb_setting::{catalog_row, DuckDbSetting, SettingRow};

verus! {

/// The number of settings in the catalog.
pub const CATALOG_LEN: usize = 120;

/// The catalog entries from position 0 up to 20.
pub open spec fn catalog_part_0(i: int) -> SettingRow {
    if i == 0 {
        catalog_row("access_mode"@, "automatic"@, "VARCHAR"@, "GLOBAL"@, "Access mode of the database (AUTOMATIC, READ_ONLY or READ_WRITE)"@)
    } else if i == 1 {
        catalog_row("allocator_background_threads"@, "false"@, "BOOLEAN"@, "GLOBAL"@, "Whether to enable the allocator background thread."@)
    } else if i == 2 {
        catalog_row("allocator_bulk_deallocation_flush_threshold"@, "512.0 MiB"@, "VARCHAR"@, "GLOBAL"@, "If a bulk deallocation larger than this occurs, flush outstanding allocations."@)
    } else if i == 3 {
        catalog_row("allocator_flush_threshold"@, "128.0 MiB"@, "VARCHAR"@, "GLOBAL"@, "Peak allocation threshold at which to flush the allocator after completing a task."@)
    } else if i == 4 {
        catalog_row("allow_community_extensions"@, "true"@, "BOOLEAN"@, "GLOBAL"@, "Allow to load community built extensions"@)
    } else if i == 5 {
        catalog_row("allow_extensions_metadata_mismatch"@, "false"@, "BOOLEAN"@, "GLOBAL"@, "Allow to load extensions with not compatible metadata"@)
    } else if i == 6 {
        catalog_row("allow_persistent_secrets"@, "true"@, "BOOLEAN"@, "GLOBAL"@, "Allow the creation of persistent secrets, that are stored and loaded on restarts"@)
    } else if i == 7 {
        catalog_row("allow_unredacted_secrets"@, "false"@, "BOOLEAN"@, "GLOBAL"@, "Allow printing unredacted secrets"@)
    } else if i == 8 {
        catalog_row("allow_unsigned_extensions"@, "false"@, "BOOLEAN"@, "GLOBAL"@, "Allow to load extensions with invalid or missing signatures"@)
    } else if i == 9 {
        catalog_row("allowed_directories"@, "[]"@, "VARCHAR[]"@, "GLOBAL"@, "List of directories/prefixes that are ALWAYS allowed to be queried - even when enable_external_access is false"@)
    } else if i == 10 {
        catalog_row("allowed_paths"@, "[]"@, "VARCHAR[]"@, "GLOBAL"@, "List of files that are ALWAYS allowed to be queried - even when enable_external_access is false"@)
    } else if i == 11 {
        catalog_row("arrow_large_buffer_size"@, "false"@, "BOOLEAN"@, "GLOBAL"@, "Whether Arrow buffers for strings, blobs, uuids and bits should be exported using large buffers"@)
    } else if i == 12 {
        catalog_row("arrow_lossless_conversion"@, "false"@, "BOOLEAN"@, "GLOBAL"@, "Whenever a DuckDB type does not have a clear native or canonical extension match in Arrow, export the types with a duckdb.type_name extension name."@)
    } else if i == 13 {
        catalog_row("arrow_output_list_view"@, "false"@, "BOOLEAN"@, "GLOBAL"@, "Whether export to Arrow format should use ListView as the physical layout for LIST columns"@)
    } else if i == 14 {
        catalog_row("asof_loop_join_threshold"@, "64"@, "UBIGINT"@, "LOCAL"@, "The maximum number of rows we need on the left side of an ASOF join to use a nested loop join"@)
    } else if i == 15 {
        catalog_row("autoinstall_extension_repository"@, ""@, "VARCHAR"@, "GLOBAL"@, "Overrides the custom endpoint for extension installation on autoloading"@)
    } else if i == 16 {
        catalog_row("autoinstall_known_extensions"@, "false"@, "BOOLEAN"@, "GLOBAL"@, "Whether known extensions are allowed to be automatically installed when a query depends on them"@)
    } else if i == 17 {
        catalog_row("autoload_known_extensions"@, "false"@, "BOOLEAN"@, "GLOBAL"@, "Whether known extensions are allowed to be automatically loaded when a query depends on them"@)
    } else if i == 18 {
        catalog_row("binary_as_string"@, ""@, "BOOLEAN"@, "GLOBAL"@, "In Parquet files, interpret binary data as a string."@)
    } else {
        catalog_row("Calendar"@, "gregorian"@, "VARCHAR"@, "GLOBAL"@, "The current calendar"@)
    }
}

/// The catalog entries from position 20 up to 40.
pub open spec fn catalog_part_1(i: int) -> SettingRow {
    if i == 20 {
        catalog_row("catalog_error_max_schemas"@, "100"@, "UBIGINT"@, "GLOBAL"@, "The maximum number of schemas the system will scan for \"did you mean...\" style errors in the catalog"@)
    } else if i == 21 {
        catalog_row("checkpoint_threshold"@, "16.0 MiB"@, "VARCHAR"@, "GLOBAL"@, "The WAL size threshold at which to automatically trigger a checkpoint (e.g. 1GB)"@)
    } else if i == 22 {
        catalog_row("custom_extension_repository"@, ""@, "VARCHAR"@, "GLOBAL"@, "Overrides the custom endpoint for remote extension installation"@)
    } else if i == 23 {
        catalog_row("custom_profiling_settings"@, "{\"QUERY_NAME\": \"true\", \"BLOCKED_THREAD_TIME\": \"true\", \"CPU_TIME\": \"true\", \"EXTRA_INFO\": \"true\", \"CUMULATIVE_CARDINALITY\": \"true\", \"OPERATOR_TYPE\": \"true\", \"OPERATOR_NAME\": \"true\", \"OPERATOR_CARDINALI"@, "VARCHAR"@, "LOCAL"@, "Accepts a JSON enabling custom metrics"@)
    } else if i == 24 {
        catalog_row("custom_user_agent"@, ""@, "VARCHAR"@, "GLOBAL"@, "Metadata from DuckDB callers"@)
    } else if i == 25 {
        catalog_row("debug_asof_iejoin"@, "false"@, "BOOLEAN"@, "LOCAL"@, "DEBUG SETTING: force use of IEJoin to implement AsOf joins"@)
    } else if i == 26 {
        catalog_row("debug_checkpoint_abort"@, "none"@, "VARCHAR"@, "GLOBAL"@, "DEBUG SETTING: trigger an abort while checkpointing for testing purposes"@)
    } else if i == 27 {
        catalog_row("debug_force_external"@, "false"@, "BOOLEAN"@, "LOCAL"@, "DEBUG SETTING: force out-of-core computation for operators that support it, used for testing"@)
    } else if i == 28 {
        catalog_row("debug_force_no_cross_product"@, "false"@, "BOOLEAN"@, "LOCAL"@, "DEBUG SETTING: Force disable cross product generation when hyper graph isn't connected, used for testing"@)
    } else if i == 29 {
        catalog_row("debug_skip_checkpoint_on_commit"@, "false"@, "BOOLEAN"@, "GLOBAL"@, "DEBUG SETTING: skip checkpointing on commit"@)
    } else if i == 30 {
        catalog_row("debug_window_mode"@, "window"@, "VARCHAR"@, "GLOBAL"@, "DEBUG SETTING: switch window mode to use"@)
    } else if i == 31 {
        catalog_row("default_block_size"@, "262144"@, "UBIGINT"@, "GLOBAL"@, "The default block size for new duckdb database files (new as-in, they do not yet exist)."@)
    } else if i == 32 {
        catalog_row("default_collation"@, ""@, "VARCHAR"@, "GLOBAL"@, "The collation setting used when none is specified"@)
    } else if i == 33 {
        catalog_row("default_null_order"@, "nulls_last"@, "VARCHAR"@, "GLOBAL"@, "NULL ordering used when none is specified (NULLS_FIRST or NULLS_LAST)"@)
    } else if i == 34 {
        catalog_row("default_order"@, "asc"@, "VARCHAR"@, "GLOBAL"@, "The order type used when none is specified (ASC or DESC)"@)
    } else if i == 35 {
        catalog_row("default_secret_storage"@, "local_file"@, "VARCHAR"@, "GLOBAL"@, "Allows switching the default storage for secrets"@)
    } else if i == 36 {
        catalog_row("disable_parquet_prefetching"@, "false"@, "BOOLEAN"@, "GLOBAL"@, "Disable the prefetching mechanism in Parquet"@)
    } else if i == 37 {
        catalog_row("disabled_compression_methods"@, ""@, "VARCHAR"@, "GLOBAL"@, "Disable a specific set of compression methods (comma separated)"@)
    } else if i == 38 {
        catalog_row("disabled_filesystems"@, ""@, "VARCHAR"@, "GLOBAL"@, "Disable specific file systems preventing access (e.g. LocalFileSystem)"@)
    } else {
        catalog_row("disabled_log_types"@, ""@, "VARCHAR"@, "GLOBAL"@, "Sets the list of disabled loggers"@)
    }
}

/// The catalog entries from position 40 up to 60.
pub open spec fn catalog_part_2(i: int) -> SettingRow {
    if i == 40 {
        catalog_row("disabled_optimizers"@, ""@, "VARCHAR"@, "GLOBAL"@, "DEBUG SETTING: disable a specific set of optimizers (comma separated)"@)
    } else if i == 41 {
        catalog_row("duckdb_api"@, "odbc"@, "VARCHAR"@, "GLOBAL"@, "DuckDB API surface"@)
    } else if i == 42 {
        catalog_row("dynamic_or_filter_threshold"@, "50"@, "UBIGINT"@, "LOCAL"@, "The maximum amount of OR filters we generate dynamically from a hash join"@)
    } else if i == 43 {
        catalog_row("enable_external_access"@, "true"@, "BOOLEAN"@, "GLOBAL"@, "Allow the database to access external state (through e.g. loading/installing modules, COPY TO/FROM, CSV readers, pandas replacement scans, etc)"@)
    } else if i == 44 {
        catalog_row("enable_fsst_vectors"@, "false"@, "BOOLEAN"@, "GLOBAL"@, "Allow scans on FSST compressed segments to emit compressed vectors to utilize late decompression"@)
    } else if i == 45 {
        catalog_row("enable_geoparquet_conversion"@, "true"@, "BOOLEAN"@, "GLOBAL"@, "Attempt to decode/encode geometry data in/as GeoParquet files if the spatial extension is present."@)
    } else if i == 46 {
        catalog_row("enable_http_logging"@, "false"@, "BOOLEAN"@, "LOCAL"@, "Enables HTTP logging"@)
    } else if i == 47 {
        catalog_row("enable_http_metadata_cache"@, "false"@, "BOOLEAN"@, "GLOBAL"@, "Whether or not the global http metadata is used to cache HTTP metadata"@)
    } else if i == 48 {
        catalog_row("enable_logging"@, "0"@, "BOOLEAN"@, "GLOBAL"@, "Enables the logger"@)
    } else if i == 49 {
        catalog_row("enable_macro_dependencies"@, "false"@, "BOOLEAN"@, "GLOBAL"@, "Enable created MACROs to create dependencies on the referenced objects (such as tables)"@)
    } else if i == 50 {
        catalog_row("enable_object_cache"@, "NULL"@, "BOOLEAN"@, "GLOBAL"@, "[PLACEHOLDER] Legacy setting - does nothing"@)
    } else if i == 51 {
        catalog_row("enable_profiling"@, "NULL"@, "VARCHAR"@, "LOCAL"@, "Enables profiling, and sets the output format (JSON, QUERY_TREE, QUERY_TREE_OPTIMIZER)"@)
    } else if i == 52 {
        catalog_row("enable_progress_bar"@, "false"@, "BOOLEAN"@, "LOCAL"@, "Enables the progress bar, printing progress to the terminal for long queries"@)
    } else if i == 53 {
        catalog_row("enable_progress_bar_print"@, "true"@, "BOOLEAN"@, "LOCAL"@, "Controls the printing of the progress bar, when 'enable_progress_bar' is true"@)
    } else if i == 54 {
        catalog_row("enable_view_dependencies"@, "false"@, "BOOLEAN"@, "GLOBAL"@, "Enable created VIEWs to create dependencies on the referenced objects (such as tables)"@)
    } else if i == 55 {
        catalog_row("enabled_log_types"@, ""@, "VARCHAR"@, "GLOBAL"@, "Sets the list of enabled loggers"@)
    } else if i == 56 {
        catalog_row("errors_as_json"@, "false"@, "BOOLEAN"@, "LOCAL"@, "Output error messages as structured JSON instead of as a raw string"@)
    } else if i == 57 {
        catalog_row("explain_output"@, "physical_only"@, "VARCHAR"@, "LOCAL"@, "Output of EXPLAIN statements (ALL, OPTIMIZED_ONLY, PHYSICAL_ONLY)"@)
    } else if i == 58 {
        catalog_row("extension_directory"@, ""@, "VARCHAR"@, "GLOBAL"@, "Set the directory to store extensions in"@)
    } else {
        catalog_row("external_threads"@, "1"@, "UBIGINT"@, "GLOBAL"@, "The number of external threads that work on DuckDB tasks."@)
    }
}

/// The catalog entries from position 60 up to 80.
pub open spec fn catalog_part_3(i: int) -> SettingRow {
    if i == 60 {
        catalog_row("file_search_path"@, ""@, "VARCHAR"@, "LOCAL"@, "A comma separated list of directories to search for input files"@)
    } else if i == 61 {
        catalog_row("force_bitpacking_mode"@, "auto"@, "VARCHAR"@, "GLOBAL"@, "DEBUG SETTING: forces a specific bitpacking mode"@)
    } else if i == 62 {
        catalog_row("force_compression"@, "Auto"@, "VARCHAR"@, "GLOBAL"@, "DEBUG SETTING: forces a specific compression method to be used"@)
    } else if i == 63 {
        catalog_row("home_directory"@, ""@, "VARCHAR"@, "LOCAL"@, "Sets the home directory used by the system"@)
    } else if i == 64 {
        catalog_row("http_logging_output"@, ""@, "VARCHAR"@, "LOCAL"@, "The file to which HTTP logging output should be saved, or empty to print to the terminal"@)
    } else if i == 65 {
        catalog_row("http_proxy"@, ""@, "VARCHAR"@, "GLOBAL"@, "HTTP proxy host"@)
    } else if i == 66 {
        catalog_row("http_proxy_password"@, ""@, "VARCHAR"@, "GLOBAL"@, "Password for HTTP proxy"@)
    } else if i == 67 {
        catalog_row("http_proxy_username"@, ""@, "VARCHAR"@, "GLOBAL"@, "Username for HTTP proxy"@)
    } else if i == 68 {
        catalog_row("ieee_floating_point_ops"@, "true"@, "BOOLEAN"@, "LOCAL"@, "Use IEE754-compliant floating point operations (returning NAN instead of errors/NULL)."@)
    } else if i == 69 {
        catalog_row("immediate_transaction_mode"@, "false"@, "BOOLEAN"@, "GLOBAL"@, "Whether transactions should be started lazily when needed, or immediately when BEGIN TRANSACTION is called"@)
    } else if i == 70 {
        catalog_row("index_scan_max_count"@, "2048"@, "UBIGINT"@, "GLOBAL"@, "The maximum index scan count sets a threshold for index scans. If fewer than MAX(index_scan_max_count, index_scan_percentage * total_row_count) rows match, we perform an index scan instead of a table"@)
    } else if i == 71 {
        catalog_row("index_scan_percentage"@, "0.001"@, "DOUBLE"@, "GLOBAL"@, "The index scan percentage sets a threshold for index scans. If fewer than MAX(index_scan_max_count, index_scan_percentage * total_row_count) rows match, we perform an index scan instead of a table sc"@)
    } else if i == 72 {
        catalog_row("integer_division"@, "false"@, "BOOLEAN"@, "LOCAL"@, "Whether or not the / operator defaults to integer division, or to floating point division"@)
    } else if i == 73 {
        catalog_row("late_materialization_max_rows"@, "50"@, "UBIGINT"@, "LOCAL"@, "The maximum amount of rows in the LIMIT/SAMPLE for which we trigger late materialization"@)
    } else if i == 74 {
        catalog_row("lock_configuration"@, "false"@, "BOOLEAN"@, "GLOBAL"@, "Whether or not the configuration can be altered"@)
    } else if i == 75 {
        catalog_row("log_query_path"@, "NULL"@, "VARCHAR"@, "LOCAL"@, "Specifies the path to which queries should be logged (default: NULL, queries are not logged)"@)
    } else if i == 76 {
        catalog_row("logging_level"@, "INFO"@, "VARCHAR"@, "GLOBAL"@, "The log level which will be recorded in the log"@)
    } else if i == 77 {
        catalog_row("logging_mode"@, "LEVEL_ONLY"@, "VARCHAR"@, "GLOBAL"@, "Enables the logger"@)
    } else if i == 78 {
        catalog_row("logging_storage"@, "memory"@, "VARCHAR"@, "GLOBAL"@, "Set the logging storage (memory/stdout/file)"@)
    } else {
        catalog_row("max_expression_depth"@, "1000"@, "UBIGINT"@, "LOCAL"@, "The maximum expression depth limit in the parser. WARNING: increasing this setting and using very deep expressions might lead to stack overflow errors."@)
    }
}

/// The catalog entries from position 80 up to 100.
pub open spec fn catalog_part_4(i: int) -> SettingRow {
    if i == 80 {
        catalog_row("max_memory"@, "6.3 GiB"@, "VARCHAR"@, "GLOBAL"@, "The maximum memory of the system (e.g. 1GB)"@)
    } else if i == 81 {
        catalog_row("max_temp_directory_size"@, "90% of available disk space"@, "VARCHAR"@, "GLOBAL"@, "The maximum amount of data stored inside the 'temp_directory' (when set) (e.g. 1GB)"@)
    } else if i == 82 {
        catalog_row("max_vacuum_tasks"@, "100"@, "UBIGINT"@, "GLOBAL"@, "The maximum vacuum tasks to schedule during a checkpoint."@)
    } else if i == 83 {
        catalog_row("memory_limit"@, "6.3 GiB"@, "VARCHAR"@, "GLOBAL"@, "The maximum memory of the system (e.g. 1GB)"@)
    } else if i == 84 {
        catalog_row("merge_join_threshold"@, "1000"@, "UBIGINT"@, "LOCAL"@, "The number of rows we need on either table to choose a merge join"@)
    } else if i == 85 {
        catalog_row("nested_loop_join_threshold"@, "5"@, "UBIGINT"@, "LOCAL"@, "The number of rows we need on either table to choose a nested loop join"@)
    } else if i == 86 {
        catalog_row("null_order"@, "nulls_last"@, "VARCHAR"@, "GLOBAL"@, "NULL ordering used when none is specified (NULLS_FIRST or NULLS_LAST)"@)
    } else if i == 87 {
        catalog_row("old_implicit_casting"@, "false"@, "BOOLEAN"@, "GLOBAL"@, "Allow implicit casting to/from VARCHAR"@)
    } else if i == 88 {
        catalog_row("order_by_non_integer_literal"@, "false"@, "BOOLEAN"@, "LOCAL"@, "Allow ordering by non-integer literals - ordering by such literals has no effect."@)
    } else if i == 89 {
        catalog_row("ordered_aggregate_threshold"@, "262144"@, "UBIGINT"@, "LOCAL"@, "The number of rows to accumulate before sorting, used for tuning"@)
    } else if i == 90 {
        catalog_row("parquet_metadata_cache"@, "false"@, "BOOLEAN"@, "GLOBAL"@, "Cache Parquet metadata - useful when reading the same files multiple times"@)
    } else if i == 91 {
        catalog_row("partitioned_write_flush_threshold"@, "524288"@, "UBIGINT"@, "LOCAL"@, "The threshold in number of rows after which we flush a thread state when writing using PARTITION_BY"@)
    } else if i == 92 {
        catalog_row("partitioned_write_max_open_files"@, "100"@, "UBIGINT"@, "LOCAL"@, "The maximum amount of files the system can keep open before flushing to disk when writing using PARTITION_BY"@)
    } else if i == 93 {
        catalog_row("password"@, "NULL"@, "VARCHAR"@, "GLOBAL"@, "The password to use. Ignored for legacy compatibility."@)
    } else if i == 94 {
        catalog_row("perfect_ht_threshold"@, "12"@, "UBIGINT"@, "LOCAL"@, "Threshold in bytes for when to use a perfect hash table"@)
    } else if i == 95 {
        catalog_row("pivot_filter_threshold"@, "20"@, "UBIGINT"@, "LOCAL"@, "The threshold to switch from using filtered aggregates to LIST with a dedicated pivot operator"@)
    } else if i == 96 {
        catalog_row("pivot_limit"@, "100000"@, "UBIGINT"@, "LOCAL"@, "The maximum number of pivot columns in a pivot statement"@)
    } else if i == 97 {
        catalog_row("prefer_range_joins"@, "false"@, "BOOLEAN"@, "LOCAL"@, "Force use of range joins with mixed predicates"@)
    } else if i == 98 {
        catalog_row("prefetch_all_parquet_files"@, "false"@, "BOOLEAN"@, "GLOBAL"@, "Use the prefetching mechanism for all types of parquet files"@)
    } else {
        catalog_row("preserve_identifier_case"@, "true"@, "BOOLEAN"@, "LOCAL"@, "Whether or not to preserve the identifier case, instead of always lowercasing all non-quoted identifiers"@)
    }
}

/// The catalog entries from position 100 up to 120.
pub open spec fn catalog_part_5(i: int) -> SettingRow {
    if i == 100 {
        catalog_row("preserve_insertion_order"@, "true"@, "BOOLEAN"@, "GLOBAL"@, "Whether or not to preserve insertion order. If set to false the system is allowed to re-order any results that do not contain ORDER BY clauses."@)
    } else if i == 101 {
        catalog_row("produce_arrow_string_view"@, "false"@, "BOOLEAN"@, "GLOBAL"@, "Whether strings should be produced by DuckDB in Utf8View format instead of Utf8"@)
    } else if i == 102 {
        catalog_row("profile_output"@, ""@, "VARCHAR"@, "LOCAL"@, "The file to which profile output should be saved, or empty to print to the terminal"@)
    } else if i == 103 {
        catalog_row("profiling_mode"@, "NULL"@, "VARCHAR"@, "LOCAL"@, "The profiling mode (STANDARD or DETAILED)"@)
    } else if i == 104 {
        catalog_row("profiling_output"@, ""@, "VARCHAR"@, "LOCAL"@, "The file to which profile output should be saved, or empty to print to the terminal"@)
    } else if i == 105 {
        catalog_row("progress_bar_time"@, "2000"@, "BIGINT"@, "LOCAL"@, "Sets the time (in milliseconds) how long a query needs to take before we start printing a progress bar"@)
    } else if i == 106 {
        catalog_row("scalar_subquery_error_on_multiple_rows"@, "true"@, "BOOLEAN"@, "LOCAL"@, "When a scalar subquery returns multiple rows - return a random row instead of returning an error."@)
    } else if i == 107 {
        catalog_row("schema"@, "main"@, "VARCHAR"@, "LOCAL"@, "Sets the default search schema. Equivalent to setting search_path to a single value."@)
    } else if i == 108 {
        catalog_row("search_path"@, ""@, "VARCHAR"@, "LOCAL"@, "Sets the default catalog search path as a comma-separated list of values"@)
    } else if i == 109 {
        catalog_row("secret_directory"@, "C:\\Users\\alexk\\.duckdb\\stored_secrets"@, "VARCHAR"@, "GLOBAL"@, "Set the directory to which persistent secrets are stored"@)
    } else if i == 110 {
        catalog_row("storage_compatibility_version"@, "v0.10.2"@, "VARCHAR"@, "GLOBAL"@, "Serialize on checkpoint with compatibility for a given duckdb version"@)
    } else if i == 111 {
        catalog_row("streaming_buffer_size"@, "976.5 KiB"@, "VARCHAR"@, "LOCAL"@, "The maximum memory to buffer between fetching from a streaming result (e.g. 1GB)"@)
    } else if i == 112 {
        catalog_row("temp_directory"@, ".tmp"@, "VARCHAR"@, "GLOBAL"@, "Set the directory to which to write temp files"@)
    } else if i == 113 {
        catalog_row("threads"@, "4"@, "BIGINT"@, "GLOBAL"@, "The number of total threads used by the system."@)
    } else if i == 114 {
        catalog_row("TimeZone"@, "Europe/Dublin"@, "VARCHAR"@, "GLOBAL"@, "The current time zone"@)
    } else if i == 115 {
        catalog_row("user"@, "NULL"@, "VARCHAR"@, "GLOBAL"@, "The username to use. Ignored for legacy compatibility."@)
    } else if i == 116 {
        catalog_row("username"@, "NULL"@, "VARCHAR"@, "GLOBAL"@, "The username to use. Ignored for legacy compatibility."@)
    } else if i == 117 {
        catalog_row("wal_autocheckpoint"@, "16.0 MiB"@, "VARCHAR"@, "GLOBAL"@, "The WAL size threshold at which to automatically trigger a checkpoint (e.g. 1GB)"@)
    } else if i == 118 {
        catalog_row("worker_threads"@, "4"@, "BIGINT"@, "GLOBAL"@, "The number of total threads used by the system."@)
    } else {
        catalog_row("zstd_min_string_length"@, "4096"@, "UBIGINT"@, "GLOBAL"@, "The (average) length at which to enable ZSTD compression, defaults to 4096"@)
    }
}

/// The catalog entry at position `i`, for `0 <= i < CATALOG_LEN`.
pub open spec fn catalog_entry(i: int) -> SettingRow {
    if i < 20 {
        catalog_part_0(i)
    } else if i < 40 {
        catalog_part_1(i)
    } else if i < 60 {
        catalog_part_2(i)
    } else if i < 80 {
        catalog_part_3(i)
    } else if i < 100 {
        catalog_part_4(i)
    } else {
        catalog_part_5(i)
    }
}

/// The whole catalog, in its own order.
pub open spec fn catalog() -> Seq<SettingRow> {
    Seq::new(CATALOG_LEN as nat, |i: int| catalog_entry(i))
}

/// Appends the catalog entries from position 0 up to 20.
fn push_part_0(settings: &mut Vec<DuckDbSetting>)
    requires
        old(settings)@.len() == 0,
    ensures
        final(settings)@.len() == 20,
        forall|i: int| 0 <= i < 0 ==> final(settings)@[i] == old(settings)@[i],
        forall|i: int| 0 <= i < 20 ==> (#[trigger] final(settings)@[i])@ == catalog_entry(i),
{
    settings.push(DuckDbSetting::new("access_mode", "automatic", "VARCHAR", "GLOBAL", "Access mode of the database (AUTOMATIC, READ_ONLY or READ_WRITE)"));
    settings.push(DuckDbSetting::new("allocator_background_threads", "false", "BOOLEAN", "GLOBAL", "Whether to enable the allocator background thread."));
    settings.push(DuckDbSetting::new("allocator_bulk_deallocation_flush_threshold", "512.0 MiB", "VARCHAR", "GLOBAL", "If a bulk deallocation larger than this occurs, flush outstanding allocations."));
    settings.push(DuckDbSetting::new("allocator_flush_threshold", "128.0 MiB", "VARCHAR", "GLOBAL", "Peak allocation threshold at which to flush the allocator after completing a task."));
    settings.push(DuckDbSetting::new("allow_community_extensions", "true", "BOOLEAN", "GLOBAL", "Allow to load community built extensions"));
    settings.push(DuckDbSetting::new("allow_extensions_metadata_mismatch", "false", "BOOLEAN", "GLOBAL", "Allow to load extensions with not compatible metadata"));
    settings.push(DuckDbSetting::new("allow_persistent_secrets", "true", "BOOLEAN", "GLOBAL", "Allow the creation of persistent secrets, that are stored and loaded on restarts"));
    settings.push(DuckDbSetting::new("allow_unredacted_secrets", "false", "BOOLEAN", "GLOBAL", "Allow printing unredacted secrets"));
    settings.push(DuckDbSetting::new("allow_unsigned_extensions", "false", "BOOLEAN", "GLOBAL", "Allow to load extensions with invalid or missing signatures"));
    settings.push(DuckDbSetting::new("allowed_directories", "[]", "VARCHAR[]", "GLOBAL", "List of directories/prefixes that are ALWAYS allowed to be queried - even when enable_external_access is false"));
    settings.push(DuckDbSetting::new("allowed_paths", "[]", "VARCHAR[]", "GLOBAL", "List of files that are ALWAYS allowed to be queried - even when enable_external_access is false"));
    settings.push(DuckDbSetting::new("arrow_large_buffer_size", "false", "BOOLEAN", "GLOBAL", "Whether Arrow buffers for strings, blobs, uuids and bits should be exported using large buffers"));
    settings.push(DuckDbSetting::new("arrow_lossless_conversion", "false", "BOOLEAN", "GLOBAL", "Whenever a DuckDB type does not have a clear native or canonical extension match in Arrow, export the types with a duckdb.type_name extension name."));
    settings.push(DuckDbSetting::new("arrow_output_list_view", "false", "BOOLEAN", "GLOBAL", "Whether export to Arrow format should use ListView as the physical layout for LIST columns"));
    settings.push(DuckDbSetting::new("asof_loop_join_threshold", "64", "UBIGINT", "LOCAL", "The maximum number of rows we need on the left side of an ASOF join to use a nested loop join"));
    settings.push(DuckDbSetting::new("autoinstall_extension_repository", "", "VARCHAR", "GLOBAL", "Overrides the custom endpoint for extension installation on autoloading"));
    settings.push(DuckDbSetting::new("autoinstall_known_extensions", "false", "BOOLEAN", "GLOBAL", "Whether known extensions are allowed to be automatically installed when a query depends on them"));
    settings.push(DuckDbSetting::new("autoload_known_extensions", "false", "BOOLEAN", "GLOBAL", "Whether known extensions are allowed to be automatically loaded when a query depends on them"));
    settings.push(DuckDbSetting::new("binary_as_string", "", "BOOLEAN", "GLOBAL", "In Parquet files, interpret binary data as a string."));
    settings.push(DuckDbSetting::new("Calendar", "gregorian", "VARCHAR", "GLOBAL", "The current calendar"));
}

/// Appends the catalog entries from position 20 up to 40.
fn push_part_1(settings: &mut Vec<DuckDbSetting>)
    requires
        old(settings)@.len() == 20,
    ensures
        final(settings)@.len() == 40,
        forall|i: int| 0 <= i < 20 ==> final(settings)@[i] == old(settings)@[i],
        forall|i: int| 20 <= i < 40 ==> (#[trigger] final(settings)@[i])@ == catalog_entry(i),
{
    settings.push(DuckDbSetting::new("catalog_error_max_schemas", "100", "UBIGINT", "GLOBAL", "The maximum number of schemas the system will scan for \"did you mean...\" style errors in the catalog"));
    settings.push(DuckDbSetting::new("checkpoint_threshold", "16.0 MiB", "VARCHAR", "GLOBAL", "The WAL size threshold at which to automatically trigger a checkpoint (e.g. 1GB)"));
    settings.push(DuckDbSetting::new("custom_extension_repository", "", "VARCHAR", "GLOBAL", "Overrides the custom endpoint for remote extension installation"));
    settings.push(DuckDbSetting::new("custom_profiling_settings", "{\"QUERY_NAME\": \"true\", \"BLOCKED_THREAD_TIME\": \"true\", \"CPU_TIME\": \"true\", \"EXTRA_INFO\": \"true\", \"CUMULATIVE_CARDINALITY\": \"true\", \"OPERATOR_TYPE\": \"true\", \"OPERATOR_NAME\": \"true\", \"OPERATOR_CARDINALI", "VARCHAR", "LOCAL", "Accepts a JSON enabling custom metrics"));
    settings.push(DuckDbSetting::new("custom_user_agent", "", "VARCHAR", "GLOBAL", "Metadata from DuckDB callers"));
    settings.push(DuckDbSetting::new("debug_asof_iejoin", "false", "BOOLEAN", "LOCAL", "DEBUG SETTING: force use of IEJoin to implement AsOf joins"));
    settings.push(DuckDbSetting::new("debug_checkpoint_abort", "none", "VARCHAR", "GLOBAL", "DEBUG SETTING: trigger an abort while checkpointing for testing purposes"));
    settings.push(DuckDbSetting::new("debug_force_external", "false", "BOOLEAN", "LOCAL", "DEBUG SETTING: force out-of-core computation for operators that support it, used for testing"));
    settings.push(DuckDbSetting::new("debug_force_no_cross_product", "false", "BOOLEAN", "LOCAL", "DEBUG SETTING: Force disable cross product generation when hyper graph isn't connected, used for testing"));
    settings.push(DuckDbSetting::new("debug_skip_checkpoint_on_commit", "false", "BOOLEAN", "GLOBAL", "DEBUG SETTING: skip checkpointing on commit"));
    settings.push(DuckDbSetting::new("debug_window_mode", "window", "VARCHAR", "GLOBAL", "DEBUG SETTING: switch window mode to use"));
    settings.push(DuckDbSetting::new("default_block_size", "262144", "UBIGINT", "GLOBAL", "The default block size for new duckdb database files (new as-in, they do not yet exist)."));
    settings.push(DuckDbSetting::new("default_collation", "", "VARCHAR", "GLOBAL", "The collation setting used when none is specified"));
    settings.push(DuckDbSetting::new("default_null_order", "nulls_last", "VARCHAR", "GLOBAL", "NULL ordering used when none is specified (NULLS_FIRST or NULLS_LAST)"));
    settings.push(DuckDbSetting::new("default_order", "asc", "VARCHAR", "GLOBAL", "The order type used when none is specified (ASC or DESC)"));
    settings.push(DuckDbSetting::new("default_secret_storage", "local_file", "VARCHAR", "GLOBAL", "Allows switching the default storage for secrets"));
    settings.push(DuckDbSetting::new("disable_parquet_prefetching", "false", "BOOLEAN", "GLOBAL", "Disable the prefetching mechanism in Parquet"));
    settings.push(DuckDbSetting::new("disabled_compression_methods", "", "VARCHAR", "GLOBAL", "Disable a specific set of compression methods (comma separated)"));
    settings.push(DuckDbSetting::new("disabled_filesystems", "", "VARCHAR", "GLOBAL", "Disable specific file systems preventing access (e.g. LocalFileSystem)"));
    settings.push(DuckDbSetting::new("disabled_log_types", "", "VARCHAR", "GLOBAL", "Sets the list of disabled loggers"));
}

/// Appends the catalog entries from position 40 up to 60.
fn push_part_2(settings: &mut Vec<DuckDbSetting>)
    requires
        old(settings)@.len() == 40,
    ensures
        final(settings)@.len() == 60,
        forall|i: int| 0 <= i < 40 ==> final(settings)@[i] == old(settings)@[i],
        forall|i: int| 40 <= i < 60 ==> (#[trigger] final(settings)@[i])@ == catalog_entry(i),
{
    settings.push(DuckDbSetting::new("disabled_optimizers", "", "VARCHAR", "GLOBAL", "DEBUG SETTING: disable a specific set of optimizers (comma separated)"));
    settings.push(DuckDbSetting::new("duckdb_api", "odbc", "VARCHAR", "GLOBAL", "DuckDB API surface"));
    settings.push(DuckDbSetting::new("dynamic_or_filter_threshold", "50", "UBIGINT", "LOCAL", "The maximum amount of OR filters we generate dynamically from a hash join"));
    settings.push(DuckDbSetting::new("enable_external_access", "true", "BOOLEAN", "GLOBAL", "Allow the database to access external state (through e.g. loading/installing modules, COPY TO/FROM, CSV readers, pandas replacement scans, etc)"));
    settings.push(DuckDbSetting::new("enable_fsst_vectors", "false", "BOOLEAN", "GLOBAL", "Allow scans on FSST compressed segments to emit compressed vectors to utilize late decompression"));
    settings.push(DuckDbSetting::new("enable_geoparquet_conversion", "true", "BOOLEAN", "GLOBAL", "Attempt to decode/encode geometry data in/as GeoParquet files if the spatial extension is present."));
    settings.push(DuckDbSetting::new("enable_http_logging", "false", "BOOLEAN", "LOCAL", "Enables HTTP logging"));
    settings.push(DuckDbSetting::new("enable_http_metadata_cache", "false", "BOOLEAN", "GLOBAL", "Whether or not the global http metadata is used to cache HTTP metadata"));
    settings.push(DuckDbSetting::new("enable_logging", "0", "BOOLEAN", "GLOBAL", "Enables the logger"));
    settings.push(DuckDbSetting::new("enable_macro_dependencies", "false", "BOOLEAN", "GLOBAL", "Enable created MACROs to create dependencies on the referenced objects (such as tables)"));
    settings.push(DuckDbSetting::new("enable_object_cache", "NULL", "BOOLEAN", "GLOBAL", "[PLACEHOLDER] Legacy setting - does nothing"));
    settings.push(DuckDbSetting::new("enable_profiling", "NULL", "VARCHAR", "LOCAL", "Enables profiling, and sets the output format (JSON, QUERY_TREE, QUERY_TREE_OPTIMIZER)"));
    settings.push(DuckDbSetting::new("enable_progress_bar", "false", "BOOLEAN", "LOCAL", "Enables the progress bar, printing progress to the terminal for long queries"));
    settings.push(DuckDbSetting::new("enable_progress_bar_print", "true", "BOOLEAN", "LOCAL", "Controls the printing of the progress bar, when 'enable_progress_bar' is true"));
    settings.push(DuckDbSetting::new("enable_view_dependencies", "false", "BOOLEAN", "GLOBAL", "Enable created VIEWs to create dependencies on the referenced objects (such as tables)"));
    settings.push(DuckDbSetting::new("enabled_log_types", "", "VARCHAR", "GLOBAL", "Sets the list of enabled loggers"));
    settings.push(DuckDbSetting::new("errors_as_json", "false", "BOOLEAN", "LOCAL", "Output error messages as structured JSON instead of as a raw string"));
    settings.push(DuckDbSetting::new("explain_output", "physical_only", "VARCHAR", "LOCAL", "Output of EXPLAIN statements (ALL, OPTIMIZED_ONLY, PHYSICAL_ONLY)"));
    settings.push(DuckDbSetting::new("extension_directory", "", "VARCHAR", "GLOBAL", "Set the directory to store extensions in"));
    settings.push(DuckDbSetting::new("external_threads", "1", "UBIGINT", "GLOBAL", "The number of external threads that work on DuckDB tasks."));
}

/// Appends the catalog entries from position 60 up to 80.
fn push_part_3(settings: &mut Vec<DuckDbSetting>)
    requires
        old(settings)@.len() == 60,
    ensures
        final(settings)@.len() == 80,
        forall|i: int| 0 <= i < 60 ==> final(settings)@[i] == old(settings)@[i],
        forall|i: int| 60 <= i < 80 ==> (#[trigger] final(settings)@[i])@ == catalog_entry(i),
{
    settings.push(DuckDbSetting::new("file_search_path", "", "VARCHAR", "LOCAL", "A comma separated list of directories to search for input files"));
    settings.push(DuckDbSetting::new("force_bitpacking_mode", "auto", "VARCHAR", "GLOBAL", "DEBUG SETTING: forces a specific bitpacking mode"));
    settings.push(DuckDbSetting::new("force_compression", "Auto", "VARCHAR", "GLOBAL", "DEBUG SETTING: forces a specific compression method to be used"));
    settings.push(DuckDbSetting::new("home_directory", "", "VARCHAR", "LOCAL", "Sets the home directory used by the system"));
    settings.push(DuckDbSetting::new("http_logging_output", "", "VARCHAR", "LOCAL", "The file to which HTTP logging output should be saved, or empty to print to the terminal"));
    settings.push(DuckDbSetting::new("http_proxy", "", "VARCHAR", "GLOBAL", "HTTP proxy host"));
    settings.push(DuckDbSetting::new("http_proxy_password", "", "VARCHAR", "GLOBAL", "Password for HTTP proxy"));
    settings.push(DuckDbSetting::new("http_proxy_username", "", "VARCHAR", "GLOBAL", "Username for HTTP proxy"));
    settings.push(DuckDbSetting::new("ieee_floating_point_ops", "true", "BOOLEAN", "LOCAL", "Use IEE754-compliant floating point operations (returning NAN instead of errors/NULL)."));
    settings.push(DuckDbSetting::new("immediate_transaction_mode", "false", "BOOLEAN", "GLOBAL", "Whether transactions should be started lazily when needed, or immediately when BEGIN TRANSACTION is called"));
    settings.push(DuckDbSetting::new("index_scan_max_count", "2048", "UBIGINT", "GLOBAL", "The maximum index scan count sets a threshold for index scans. If fewer than MAX(index_scan_max_count, index_scan_percentage * total_row_count) rows match, we perform an index scan instead of a table"));
    settings.push(DuckDbSetting::new("index_scan_percentage", "0.001", "DOUBLE", "GLOBAL", "The index scan percentage sets a threshold for index scans. If fewer than MAX(index_scan_max_count, index_scan_percentage * total_row_count) rows match, we perform an index scan instead of a table sc"));
    settings.push(DuckDbSetting::new("integer_division", "false", "BOOLEAN", "LOCAL", "Whether or not the / operator defaults to integer division, or to floating point division"));
    settings.push(DuckDbSetting::new("late_materialization_max_rows", "50", "UBIGINT", "LOCAL", "The maximum amount of rows in the LIMIT/SAMPLE for which we trigger late materialization"));
    settings.push(DuckDbSetting::new("lock_configuration", "false", "BOOLEAN", "GLOBAL", "Whether or not the configuration can be altered"));
    settings.push(DuckDbSetting::new("log_query_path", "NULL", "VARCHAR", "LOCAL", "Specifies the path to which queries should be logged (default: NULL, queries are not logged)"));
    settings.push(DuckDbSetting::new("logging_level", "INFO", "VARCHAR", "GLOBAL", "The log level which will be recorded in the log"));
    settings.push(DuckDbSetting::new("logging_mode", "LEVEL_ONLY", "VARCHAR", "GLOBAL", "Enables the logger"));
    settings.push(DuckDbSetting::new("logging_storage", "memory", "VARCHAR", "GLOBAL", "Set the logging storage (memory/stdout/file)"));
    settings.push(DuckDbSetting::new("max_expression_depth", "1000", "UBIGINT", "LOCAL", "The maximum expression depth limit in the parser. WARNING: increasing this setting and using very deep expressions might lead to stack overflow errors."));
}

/// Appends the catalog entries from position 80 up to 100.
fn push_part_4(settings: &mut Vec<DuckDbSetting>)
    requires
        old(settings)@.len() == 80,
    ensures
        final(settings)@.len() == 100,
        forall|i: int| 0 <= i < 80 ==> final(settings)@[i] == old(settings)@[i],
        forall|i: int| 80 <= i < 100 ==> (#[trigger] final(settings)@[i])@ == catalog_entry(i),
{
    settings.push(DuckDbSetting::new("max_memory", "6.3 GiB", "VARCHAR", "GLOBAL", "The maximum memory of the system (e.g. 1GB)"));
    settings.push(DuckDbSetting::new("max_temp_directory_size", "90% of available disk space", "VARCHAR", "GLOBAL", "The maximum amount of data stored inside the 'temp_directory' (when set) (e.g. 1GB)"));
    settings.push(DuckDbSetting::new("max_vacuum_tasks", "100", "UBIGINT", "GLOBAL", "The maximum vacuum tasks to schedule during a checkpoint."));
    settings.push(DuckDbSetting::new("memory_limit", "6.3 GiB", "VARCHAR", "GLOBAL", "The maximum memory of the system (e.g. 1GB)"));
    settings.push(DuckDbSetting::new("merge_join_threshold", "1000", "UBIGINT", "LOCAL", "The number of rows we need on either table to choose a merge join"));
    settings.push(DuckDbSetting::new("nested_loop_join_threshold", "5", "UBIGINT", "LOCAL", "The number of rows we need on either table to choose a nested loop join"));
    settings.push(DuckDbSetting::new("null_order", "nulls_last", "VARCHAR", "GLOBAL", "NULL ordering used when none is specified (NULLS_FIRST or NULLS_LAST)"));
    settings.push(DuckDbSetting::new("old_implicit_casting", "false", "BOOLEAN", "GLOBAL", "Allow implicit casting to/from VARCHAR"));
    settings.push(DuckDbSetting::new("order_by_non_integer_literal", "false", "BOOLEAN", "LOCAL", "Allow ordering by non-integer literals - ordering by such literals has no effect."));
    settings.push(DuckDbSetting::new("ordered_aggregate_threshold", "262144", "UBIGINT", "LOCAL", "The number of rows to accumulate before sorting, used for tuning"));
    settings.push(DuckDbSetting::new("parquet_metadata_cache", "false", "BOOLEAN", "GLOBAL", "Cache Parquet metadata - useful when reading the same files multiple times"));
    settings.push(DuckDbSetting::new("partitioned_write_flush_threshold", "524288", "UBIGINT", "LOCAL", "The threshold in number of rows after which we flush a thread state when writing using PARTITION_BY"));
    settings.push(DuckDbSetting::new("partitioned_write_max_open_files", "100", "UBIGINT", "LOCAL", "The maximum amount of files the system can keep open before flushing to disk when writing using PARTITION_BY"));
    settings.push(DuckDbSetting::new("password", "NULL", "VARCHAR", "GLOBAL", "The password to use. Ignored for legacy compatibility."));
    settings.push(DuckDbSetting::new("perfect_ht_threshold", "12", "UBIGINT", "LOCAL", "Threshold in bytes for when to use a perfect hash table"));
    settings.push(DuckDbSetting::new("pivot_filter_threshold", "20", "UBIGINT", "LOCAL", "The threshold to switch from using filtered aggregates to LIST with a dedicated pivot operator"));
    settings.push(DuckDbSetting::new("pivot_limit", "100000", "UBIGINT", "LOCAL", "The maximum number of pivot columns in a pivot statement"));
    settings.push(DuckDbSetting::new("prefer_range_joins", "false", "BOOLEAN", "LOCAL", "Force use of range joins with mixed predicates"));
    settings.push(DuckDbSetting::new("prefetch_all_parquet_files", "false", "BOOLEAN", "GLOBAL", "Use the prefetching mechanism for all types of parquet files"));
    settings.push(DuckDbSetting::new("preserve_identifier_case", "true", "BOOLEAN", "LOCAL", "Whether or not to preserve the identifier case, instead of always lowercasing all non-quoted identifiers"));
}

/// Appends the catalog entries from position 100 up to 120.
fn push_part_5(settings: &mut Vec<DuckDbSetting>)
    requires
        old(settings)@.len() == 100,
    ensures
        final(settings)@.len() == 120,
        forall|i: int| 0 <= i < 100 ==> final(settings)@[i] == old(settings)@[i],
        forall|i: int| 100 <= i < 120 ==> (#[trigger] final(settings)@[i])@ == catalog_entry(i),
{
    settings.push(DuckDbSetting::new("preserve_insertion_order", "true", "BOOLEAN", "GLOBAL", "Whether or not to preserve insertion order. If set to false the system is allowed to re-order any results that do not contain ORDER BY clauses."));
    settings.push(DuckDbSetting::new("produce_arrow_string_view", "false", "BOOLEAN", "GLOBAL", "Whether strings should be produced by DuckDB in Utf8View format instead of Utf8"));
    settings.push(DuckDbSetting::new("profile_output", "", "VARCHAR", "LOCAL", "The file to which profile output should be saved, or empty to print to the terminal"));
    settings.push(DuckDbSetting::new("profiling_mode", "NULL", "VARCHAR", "LOCAL", "The profiling mode (STANDARD or DETAILED)"));
    settings.push(DuckDbSetting::new("profiling_output", "", "VARCHAR", "LOCAL", "The file to which profile output should be saved, or empty to print to the terminal"));
    settings.push(DuckDbSetting::new("progress_bar_time", "2000", "BIGINT", "LOCAL", "Sets the time (in milliseconds) how long a query needs to take before we start printing a progress bar"));
    settings.push(DuckDbSetting::new("scalar_subquery_error_on_multiple_rows", "true", "BOOLEAN", "LOCAL", "When a scalar subquery returns multiple rows - return a random row instead of returning an error."));
    settings.push(DuckDbSetting::new("schema", "main", "VARCHAR", "LOCAL", "Sets the default search schema. Equivalent to setting search_path to a single value."));
    settings.push(DuckDbSetting::new("search_path", "", "VARCHAR", "LOCAL", "Sets the default catalog search path as a comma-separated list of values"));
    settings.push(DuckDbSetting::new("secret_directory", "C:\\Users\\alexk\\.duckdb\\stored_secrets", "VARCHAR", "GLOBAL", "Set the directory to which persistent secrets are stored"));
    settings.push(DuckDbSetting::new("storage_compatibility_version", "v0.10.2", "VARCHAR", "GLOBAL", "Serialize on checkpoint with compatibility for a given duckdb version"));
    settings.push(DuckDbSetting::new("streaming_buffer_size", "976.5 KiB", "VARCHAR", "LOCAL", "The maximum memory to buffer between fetching from a streaming result (e.g. 1GB)"));
    settings.push(DuckDbSetting::new("temp_directory", ".tmp", "VARCHAR", "GLOBAL", "Set the directory to which to write temp files"));
    settings.push(DuckDbSetting::new("threads", "4", "BIGINT", "GLOBAL", "The number of total threads used by the system."));
    settings.push(DuckDbSetting::new("TimeZone", "Europe/Dublin", "VARCHAR", "GLOBAL", "The current time zone"));
    settings.push(DuckDbSetting::new("user", "NULL", "VARCHAR", "GLOBAL", "The username to use. Ignored for legacy compatibility."));
    settings.push(DuckDbSetting::new("username", "NULL", "VARCHAR", "GLOBAL", "The username to use. Ignored for legacy compatibility."));
    settings.push(DuckDbSetting::new("wal_autocheckpoint", "16.0 MiB", "VARCHAR", "GLOBAL", "The WAL size threshold at which to automatically trigger a checkpoint (e.g. 1GB)"));
    settings.push(DuckDbSetting::new("worker_threads", "4", "BIGINT", "GLOBAL", "The number of total threads used by the system."));
    settings.push(DuckDbSetting::new("zstd_min_string_length", "4096", "UBIGINT", "GLOBAL", "The (average) length at which to enable ZSTD compression, defaults to 4096"));
}

/// The catalog of the engine's settings, each with its default value and
/// with no value of a data source.
pub fn all_settings() -> (settings: Vec<DuckDbSetting>)
    ensures
        settings.len() == CATALOG_LEN,
        settings.deep_view() == catalog(),
{
    let mut settings: Vec<DuckDbSetting> = Vec::new();
    push_part_0(&mut settings);
    push_part_1(&mut settings);
    push_part_2(&mut settings);
    push_part_3(&mut settings);
    push_part_4(&mut settings);
    push_part_5(&mut settings);
    assert(settings.deep_view() =~= catalog());
    settings
}

} // verus!
