//! The DuckDB offline store: SQL for point-in-time correct historical
//! retrieval (ASOF joins) and for pulling a feature view's rows in a time
//! range. The store builds the SQL; running it is up to the caller.
use vstd::prelude::*;

use crate::errors::OfsError;
use crate::source::debug_list;
use crate::strings::{
    concat_str, decimal, ends_with, has_prefix, has_suffix, join_spec, join_strings, replace_char,
    replace_char_spec, u64_to_decimal, views,
};
use crate::time::{format_ymd_hms, ymd_hms, UtcDateTime};
use crate::types::{DataSourceOptions, FeatureView, FeatureViewWithProjection};

verus! {

/// A retrieval to run: its SQL and the names of the columns it yields.
#[derive(Debug, Clone)]
pub struct RetrievalJob {
    pub query: String,
    pub schema_fields: Vec<String>,
}

/// The entity rows of a historical retrieval: their columns, their data in
/// Arrow form, their count, the event time column and the entity key
/// columns.
#[derive(Debug, Clone)]
pub struct EntityDataFrame {
    pub columns: Vec<String>,
    pub arrow_data: Vec<u8>,
    pub num_rows: usize,
    pub timestamp_column: String,
    pub entity_key_columns: Vec<String>,
}

/// An identifier in double quotes.
pub open spec fn quoted(s: Seq<char>) -> Seq<char> {
    "\""@ + s + "\""@
}

/// The condition that joins the entity table to the feature table aliased
/// `alias` on one key column.
pub open spec fn key_part(entity: Seq<char>, alias: Seq<char>, key: Seq<char>) -> Seq<char> {
    quoted(entity) + "."@ + quoted(key) + " = "@ + quoted(alias) + "."@ + quoted(key)
}

/// The join condition on all key columns, against the feature table
/// aliased `alias`.
pub open spec fn key_condition(entity: Seq<char>, alias: Seq<char>, keys: Seq<Seq<char>>) -> Seq<char> {
    join_spec(keys.map_values(|k: Seq<char>| key_part(entity, alias, k)), " AND "@)
}

/// The name of the output column of a feature: the projection's alias (or
/// else the feature view's name), two underscores, and the feature's name.
pub open spec fn output_column(fvp: FeatureViewWithProjection, feature: Seq<char>) -> Seq<char> {
    let prefix = match fvp.projection.feature_view_name_alias {
        Some(a) => a@,
        None => fvp.feature_view.name@,
    };
    prefix + "__"@ + feature
}

/// The alias of the `i`-th feature view's table.
pub open spec fn table_alias(i: nat) -> Seq<char> {
    "fv_"@ + decimal(i)
}

/// The select items of the `i`-th feature view: each feature of its view,
/// taken from its table, under its output column name.
pub open spec fn fv_selects(i: nat, fvp: FeatureViewWithProjection) -> Seq<Seq<char>> {
    fvp.feature_view.features@.map_values(
        |f: crate::types::Feature|
            quoted(table_alias(i)) + "."@ + quoted(f.name@) + " AS "@ + quoted(output_column(fvp, f.name@)),
    )
}

/// All select items: every column of the entity table, then the features
/// of each view in order.
pub open spec fn selects_spec(entity: Seq<char>, fvs: Seq<FeatureViewWithProjection>) -> Seq<Seq<char>>
    decreases fvs.len(),
{
    if fvs.len() == 0 {
        seq![quoted(entity) + ".*"@]
    } else {
        selects_spec(entity, fvs.drop_last()) + fv_selects((fvs.len() - 1) as nat, fvs.last())
    }
}

/// The file path of a feature view's batch source, with each `'` doubled
/// for use in an SQL literal; none unless the source is a file source.
pub open spec fn batch_path(fv: FeatureView) -> Option<Seq<char>> {
    match fv.batch_source {
        Some(ds) => match ds.options {
            DataSourceOptions::File { path, .. } => Some(replace_char_spec(path@, '\'', "''"@)),
            _ => None,
        },
        None => None,
    }
}

/// The table expression that reads a feature view's rows: `read_csv_auto`
/// for a `.csv` file, `read_parquet` for any other file, and an empty
/// one-column table, named after the first key, when there is no file.
pub open spec fn data_source_sql(fv: FeatureView, keys: Seq<Seq<char>>) -> Seq<char> {
    match batch_path(fv) {
        Some(p) => if has_suffix(p, ".parquet"@) {
            "read_parquet('"@ + p + "')"@
        } else if has_suffix(p, ".csv"@) {
            "read_csv_auto('"@ + p + "')"@
        } else {
            "read_parquet('"@ + p + "')"@
        },
        None => "(SELECT * FROM (VALUES(NULL::VARCHAR)) AS t("@ + (if keys.len() > 0 {
            quoted(keys[0]) + " VARCHAR"@
        } else {
            "\"key\" VARCHAR"@
        }) + ") WHERE 1=0)"@,
    }
}

/// The ASOF join of the `i`-th feature view, aliased `fv_{i}`: on every key
/// column of the entity table equal to the same column of the feature table,
/// and on the entity's event time not being earlier than the feature row's.
pub open spec fn join_clause(
    i: nat,
    fvp: FeatureViewWithProjection,
    entity: Seq<char>,
    ts: Seq<char>,
    keys: Seq<Seq<char>>,
) -> Seq<char> {
    "ASOF LEFT JOIN "@ + data_source_sql(fvp.feature_view, keys) + " AS "@ + quoted(table_alias(i))
        + "\n                 ON "@ + key_condition(entity, table_alias(i), keys)
        + "\n                 AND "@ + quoted(entity) + "."@ + quoted(ts) + " >= "@ + quoted(
        table_alias(i),
    ) + ".\"event_timestamp\""@
}

/// The ASOF joins of all feature views, in order.
pub open spec fn joins_spec(
    entity: Seq<char>,
    ts: Seq<char>,
    keys: Seq<Seq<char>>,
    fvs: Seq<FeatureViewWithProjection>,
) -> Seq<Seq<char>> {
    Seq::new(fvs.len(), |i: int| join_clause(i as nat, fvs[i], entity, ts, keys))
}

/// The point-in-time query: the select items, from the entity table, with
/// one ASOF join per feature view.
pub open spec fn asof_query_spec(
    entity: Seq<char>,
    ts: Seq<char>,
    keys: Seq<Seq<char>>,
    fvs: Seq<FeatureViewWithProjection>,
) -> Seq<char> {
    "SELECT "@ + join_spec(selects_spec(entity, fvs), ",\n"@) + " FROM "@ + quoted(entity) + " "@
        + join_spec(joins_spec(entity, ts, keys, fvs), "\n"@)
}

/// An identifier in double quotes.
fn quote(s: &str) -> (r: String)
    ensures
        r@ == quoted(s@),
{
    let mut r = String::from_str("\"");
    r.append(s);
    r.append("\"");
    proof {
        reveal_strlit("\"");
    }
    r
}

/// The join condition on all key columns against the table aliased `alias`.
fn build_key_condition(entity: &str, alias: &str, keys: &Vec<String>) -> (r: String)
    ensures
        r@ == key_condition(entity@, alias@, views(keys@)),
{
    let mut parts: Vec<String> = Vec::new();
    let n = keys.len();
    let mut i: usize = 0;
    while i < n
        invariant
            n == keys@.len(),
            i <= n,
            views(parts@) == views(keys@).take(i as int).map_values(|k: Seq<char>| key_part(entity@, alias@, k)),
        decreases n - i,
    {
        let k = keys[i].as_str();
        let mut part = quote(entity);
        part.append(".");
        part.append(quote(k).as_str());
        part.append(" = ");
        part.append(quote(alias).as_str());
        part.append(".");
        part.append(quote(k).as_str());
        let ghost before = parts@;
        parts.push(part);
        i = i + 1;
        proof {
            assert(views(parts@) =~= views(before).push(part@));
            assert(views(keys@).take(i as int).map_values(|k: Seq<char>| key_part(entity@, alias@, k))
                =~= views(keys@).take(i - 1).map_values(|k: Seq<char>| key_part(entity@, alias@, k)).push(
                key_part(entity@, alias@, keys@[i - 1]@),
            ));
        }
    }
    proof {
        assert(views(keys@).take(n as int) =~= views(keys@));
    }
    join_strings(&parts, " AND ")
}

/// The output column name of a feature.
fn build_output_column(fvp: &FeatureViewWithProjection, feature: &str) -> (r: String)
    ensures
        r@ == output_column(*fvp, feature@),
{
    let mut r = match &fvp.projection.feature_view_name_alias {
        Some(a) => a.clone(),
        None => fvp.feature_view.name.clone(),
    };
    r.append("__");
    r.append(feature);
    r
}

/// The table expression that reads a feature view's rows.
fn build_data_source_sql(fv: &FeatureView, keys: &Vec<String>) -> (r: String)
    ensures
        r@ == data_source_sql(*fv, views(keys@)),
{
    let path: Option<String> = match &fv.batch_source {
        Some(ds) => match &ds.options {
            DataSourceOptions::File { path, .. } => Some(replace_char(path.as_str(), '\'', "''")),
            _ => None,
        },
        None => None,
    };
    match path {
        Some(p) => {
            let mut r = if ends_with(p.as_str(), ".parquet") {
                String::from_str("read_parquet('")
            } else if ends_with(p.as_str(), ".csv") {
                String::from_str("read_csv_auto('")
            } else {
                String::from_str("read_parquet('")
            };
            r.append(p.as_str());
            r.append("')");
            r
        },
        None => {
            let mut r = String::from_str("(SELECT * FROM (VALUES(NULL::VARCHAR)) AS t(");
            if keys.len() > 0 {
                r.append(quote(keys[0].as_str()).as_str());
                r.append(" VARCHAR");
            } else {
                r.append("\"key\" VARCHAR");
            }
            r.append(") WHERE 1=0)");
            r
        },
    }
}

/// The DuckDB offline store.
pub struct DuckDbOfflineStore;

impl DuckDbOfflineStore {
    /// Builds the ASOF LEFT JOIN query for point-in-time correct retrieval of
    /// the features of `features` for the rows of `entity_table`.
    pub fn build_asof_query(
        entity_table: &str,
        entity_ts_col: &str,
        entity_key_cols: &Vec<String>,
        features: &Vec<FeatureViewWithProjection>,
    ) -> (r: String)
        ensures
            r@ == asof_query_spec(entity_table@, entity_ts_col@, views(entity_key_cols@), features@),
    {
        let ghost keys = views(entity_key_cols@);
        let mut selects: Vec<String> = Vec::new();
        let mut head = quote(entity_table);
        head.append(".*");
        selects.push(head);
        let mut joins: Vec<String> = Vec::new();
        let n = features.len();
        let mut i: usize = 0;
        proof {
            assert(views(selects@) =~= selects_spec(entity_table@, features@.take(0)));
            assert(views(joins@) =~= joins_spec(entity_table@, entity_ts_col@, keys, features@.take(0)));
        }
        while i < n
            invariant
                n == features@.len(),
                i <= n,
                keys == views(entity_key_cols@),
                views(selects@) == selects_spec(entity_table@, features@.take(i as int)),
                views(joins@) == joins_spec(entity_table@, entity_ts_col@, keys, features@.take(i as int)),
            decreases n - i,
        {
            let fvp = &features[i];
            let idx = u64_to_decimal(i as u64);
            let mut alias = String::from_str("fv_");
            alias.append(idx.as_str());
            let qalias = quote(alias.as_str());
            let m = fvp.feature_view.features.len();
            let mut j: usize = 0;
            let ghost base = views(selects@);
            let ghost fsel = fv_selects(i as nat, *fvp);
            while j < m
                invariant
                    m == fvp.feature_view.features@.len(),
                    j <= m,
                    fsel == fv_selects(i as nat, *fvp),
                    qalias@ == quoted(table_alias(i as nat)),
                    views(selects@) == base + fsel.take(j as int),
                decreases m - j,
            {
                let fname = fvp.feature_view.features[j].name.as_str();
                let mut item = qalias.clone();
                item.append(".");
                item.append(quote(fname).as_str());
                item.append(" AS ");
                let col = build_output_column(fvp, fname);
                item.append(quote(col.as_str()).as_str());
                let ghost before = selects@;
                selects.push(item);
                j = j + 1;
                proof {
                    assert(views(selects@) =~= views(before).push(item@));
                    assert(fsel.take(j as int) =~= fsel.take(j - 1).push(fsel[j - 1]));
                }
            }
            let data = build_data_source_sql(&fvp.feature_view, entity_key_cols);
            let key_cond = build_key_condition(entity_table, alias.as_str(), entity_key_cols);
            let mut clause = String::from_str("ASOF LEFT JOIN ");
            clause.append(data.as_str());
            clause.append(" AS ");
            clause.append(qalias.as_str());
            clause.append("\n                 ON ");
            clause.append(key_cond.as_str());
            clause.append("\n                 AND ");
            clause.append(quote(entity_table).as_str());
            clause.append(".");
            clause.append(quote(entity_ts_col).as_str());
            clause.append(" >= ");
            clause.append(qalias.as_str());
            clause.append(".\"event_timestamp\"");
            let ghost jbefore = joins@;
            joins.push(clause);
            proof {
                assert(fsel.take(m as int) =~= fsel);
                assert(features@.take(i + 1).drop_last() =~= features@.take(i as int));
                assert(features@.take(i + 1).last() == *fvp);
                assert(views(joins@) =~= views(jbefore).push(clause@));
                assert(views(joins@) =~= joins_spec(
                    entity_table@,
                    entity_ts_col@,
                    keys,
                    features@.take(i + 1),
                ));
            }
            i = i + 1;
        }
        proof {
            assert(features@.take(n as int) =~= features@);
        }
        let mut q = String::from_str("SELECT ");
        q.append(join_strings(&selects, ",\n").as_str());
        q.append(" FROM ");
        q.append(quote(entity_table).as_str());
        q.append(" ");
        q.append(join_strings(&joins, "\n").as_str());
        q
    }
}

/// The comment and placeholder entity table that head the full query.
pub open spec fn full_query_spec(df: EntityDataFrame, fvs: Seq<FeatureViewWithProjection>) -> Seq<char> {
    "-- Entity data should be registered as a view named \"entity_df\"\n-- with columns: "@
        + join_spec(views(df.columns@), ", "@) + "\n-- timestamp_column: "@ + df.timestamp_column@
        + ", entity_key_columns: "@ + crate::source::debug_list_spec(views(df.entity_key_columns@))
        + "\n\nWITH \"entity_df\" AS (\n-- Replace this CTE with your actual entity dataframe\n-- Register via: conn.execute_batch(\"CREATE VIEW entity_df AS SELECT ...\")\nSELECT * FROM (VALUES(NULL::VARCHAR)) AS t(key) WHERE 1=0\n)\n"@
        + asof_query_spec(
        "entity_df"@,
        df.timestamp_column@,
        views(df.entity_key_columns@),
        fvs,
    ) + "\n"@
}

/// The output columns of a historical retrieval: the entity columns, then
/// the output column of each feature of each view.
pub open spec fn schema_spec(columns: Seq<Seq<char>>, fvs: Seq<FeatureViewWithProjection>) -> Seq<Seq<char>>
    decreases fvs.len(),
{
    if fvs.len() == 0 {
        columns
    } else {
        schema_spec(columns, fvs.drop_last()) + fvs.last().feature_view.features@.map_values(
            |f: crate::types::Feature| output_column(fvs.last(), f.name@),
        )
    }
}

/// The rows of a feature view between two instants: from its file source
/// (`read_parquet` for `.parquet`, `read_csv_auto` for `.csv`, the path
/// itself otherwise), from `start` included to `end` excluded.
pub open spec fn pull_query_spec(fv: FeatureView, start: UtcDateTime, end: UtcDateTime) -> Seq<char> {
    let path = match batch_path(fv) {
        Some(p) => p,
        None => Seq::empty(),
    };
    let from = if has_suffix(path, ".parquet"@) {
        "read_parquet('"@ + path + "')"@
    } else if has_suffix(path, ".csv"@) {
        "read_csv_auto('"@ + path + "')"@
    } else {
        "'"@ + path + "'"@
    };
    "SELECT * FROM "@ + from + " WHERE event_timestamp >= '"@ + ymd_hms(start)
        + "' AND event_timestamp < '"@ + ymd_hms(end) + "'"@
}

impl DuckDbOfflineStore {
    /// The full query of a historical retrieval: a comment describing the
    /// entity view to register, a placeholder `entity_df` table, and the
    /// ASOF query.
    pub fn build_full_query(entity_df: &EntityDataFrame, features: &Vec<FeatureViewWithProjection>) -> (r:
        String)
        ensures
            r@ == full_query_spec(*entity_df, features@),
    {
        let asof = Self::build_asof_query(
            "entity_df",
            entity_df.timestamp_column.as_str(),
            &entity_df.entity_key_columns,
            features,
        );
        let mut q = String::from_str(
            "-- Entity data should be registered as a view named \"entity_df\"\n-- with columns: ",
        );
        q.append(join_strings(&entity_df.columns, ", ").as_str());
        q.append("\n-- timestamp_column: ");
        q.append(entity_df.timestamp_column.as_str());
        q.append(", entity_key_columns: ");
        q.append(debug_list(&entity_df.entity_key_columns).as_str());
        q.append(
            "\n\nWITH \"entity_df\" AS (\n-- Replace this CTE with your actual entity dataframe\n-- Register via: conn.execute_batch(\"CREATE VIEW entity_df AS SELECT ...\")\nSELECT * FROM (VALUES(NULL::VARCHAR)) AS t(key) WHERE 1=0\n)\n",
        );
        q.append(asof.as_str());
        q.append("\n");
        q
    }

    /// A historical retrieval: the full query and its output columns.
    pub fn get_historical_features(
        &self,
        entity_df: EntityDataFrame,
        features: Vec<FeatureViewWithProjection>,
    ) -> (r: Result<RetrievalJob, OfsError>)
        ensures
            r matches Ok(job) && job.query@ == full_query_spec(entity_df, features@) && views(
                job.schema_fields@,
            ) == schema_spec(views(entity_df.columns@), features@),
    {
        let query = Self::build_full_query(&entity_df, &features);
        let mut schema_fields = crate::strings::clone_strings(&entity_df.columns);
        let n = features.len();
        let mut i: usize = 0;
        proof {
            assert(features@.take(0) =~= Seq::<FeatureViewWithProjection>::empty());
        }
        while i < n
            invariant
                n == features@.len(),
                i <= n,
                views(schema_fields@) == schema_spec(views(entity_df.columns@), features@.take(i as int)),
            decreases n - i,
        {
            let fvp = &features[i];
            let m = fvp.feature_view.features.len();
            let mut j: usize = 0;
            let ghost base = views(schema_fields@);
            let ghost cols = fvp.feature_view.features@.map_values(
                |f: crate::types::Feature| output_column(*fvp, f.name@),
            );
            while j < m
                invariant
                    m == fvp.feature_view.features@.len(),
                    j <= m,
                    cols == fvp.feature_view.features@.map_values(
                        |f: crate::types::Feature| output_column(*fvp, f.name@),
                    ),
                    views(schema_fields@) == base + cols.take(j as int),
                decreases m - j,
            {
                let col = build_output_column(fvp, fvp.feature_view.features[j].name.as_str());
                let ghost before = schema_fields@;
                schema_fields.push(col);
                j = j + 1;
                proof {
                    assert(views(schema_fields@) =~= views(before).push(col@));
                    assert(cols.take(j as int) =~= cols.take(j - 1).push(cols[j - 1]));
                }
            }
            proof {
                assert(cols.take(m as int) =~= cols);
                assert(features@.take(i + 1).drop_last() =~= features@.take(i as int));
                assert(features@.take(i + 1).last() == *fvp);
            }
            i = i + 1;
        }
        proof {
            assert(features@.take(n as int) =~= features@);
        }
        Ok(RetrievalJob { query, schema_fields })
    }

    /// The rows of a feature view between `start` (included) and `end`
    /// (excluded), with the columns `event_timestamp` and the view's
    /// features.
    pub fn pull_features(&self, feature_view: &FeatureView, start_date: UtcDateTime, end_date: UtcDateTime) -> (r:
        Result<RetrievalJob, OfsError>)
        ensures
            r matches Ok(job) && job.query@ == pull_query_spec(*feature_view, start_date, end_date)
                && views(job.schema_fields@) == seq!["event_timestamp"@] + feature_view.features@.map_values(
                |f: crate::types::Feature| f.name@,
            ),
    {
        let path: String = match &feature_view.batch_source {
            Some(ds) => match &ds.options {
                DataSourceOptions::File { path, .. } => replace_char(path.as_str(), '\'', "''"),
                _ => String::new(),
            },
            None => String::new(),
        };
        proof {
            assert(replace_char_spec(Seq::<char>::empty(), '\'', "''"@) =~= Seq::<char>::empty());
        }
        let start_str = format_ymd_hms(&start_date);
        let end_str = format_ymd_hms(&end_date);
        let mut schema_fields: Vec<String> = Vec::new();
        schema_fields.push(String::from_str("event_timestamp"));
        let n = feature_view.features.len();
        let mut i: usize = 0;
        let ghost names = feature_view.features@.map_values(|f: crate::types::Feature| f.name@);
        while i < n
            invariant
                n == feature_view.features@.len(),
                names == feature_view.features@.map_values(|f: crate::types::Feature| f.name@),
                i <= n,
                views(schema_fields@) == seq!["event_timestamp"@] + names.take(i as int),
            decreases n - i,
        {
            let ghost before = schema_fields@;
            schema_fields.push(feature_view.features[i].name.clone());
            i = i + 1;
            proof {
                assert(views(schema_fields@) =~= views(before).push(names[i - 1]));
                assert(names.take(i as int) =~= names.take(i - 1).push(names[i - 1]));
            }
        }
        proof {
            assert(names.take(n as int) =~= names);
        }
        let mut q = String::from_str("SELECT * FROM ");
        if ends_with(path.as_str(), ".parquet") {
            q.append("read_parquet('");
            q.append(path.as_str());
            q.append("')");
        } else if ends_with(path.as_str(), ".csv") {
            q.append("read_csv_auto('");
            q.append(path.as_str());
            q.append("')");
        } else {
            q.append("'");
            q.append(path.as_str());
            q.append("'");
        }
        q.append(" WHERE event_timestamp >= '");
        q.append(start_str.as_str());
        q.append("' AND event_timestamp < '");
        q.append(end_str.as_str());
        q.append("'");
        Ok(RetrievalJob { query: q, schema_fields })
    }

    /// Removes a feature view's offline rows older than `cutoff`. This store
    /// holds no data of its own, so there is nothing to remove.
    pub fn purge_offline_data(&self, feature_view: &FeatureView, project: &str, cutoff: UtcDateTime) -> (r:
        Result<u64, OfsError>)
        ensures
            r matches Ok(n) && n == 0,
    {
        Ok(0)
    }
}


/// A time-range pull reads its file with the table function that the file's
/// extension calls for: a path ending in `.csv` (and not in `.parquet`) with
/// `read_csv_auto`, a path ending in `.parquet` with `read_parquet`, any
/// other path as a quoted file name. The query starts by selecting every
/// column from that source and ends by keeping the rows whose event time is
/// at or after `start` and before `end`.
pub proof fn lemma_pull_query_reader(fv: FeatureView, start: UtcDateTime, end: UtcDateTime)
    requires
        batch_path(fv) is Some,
    ensures
        has_suffix(batch_path(fv)->0, ".csv"@) && !has_suffix(batch_path(fv)->0, ".parquet"@) ==> has_prefix(
            pull_query_spec(fv, start, end),
            "SELECT * FROM read_csv_auto('"@ + batch_path(fv)->0 + "')"@,
        ),
        has_suffix(batch_path(fv)->0, ".parquet"@) ==> has_prefix(
            pull_query_spec(fv, start, end),
            "SELECT * FROM read_parquet('"@ + batch_path(fv)->0 + "')"@,
        ),
        !has_suffix(batch_path(fv)->0, ".csv"@) && !has_suffix(batch_path(fv)->0, ".parquet"@) ==> has_prefix(
            pull_query_spec(fv, start, end),
            "SELECT * FROM '"@ + batch_path(fv)->0 + "'"@,
        ),
        has_suffix(
            pull_query_spec(fv, start, end),
            " WHERE event_timestamp >= '"@ + ymd_hms(start) + "' AND event_timestamp < '"@ + ymd_hms(end) + "'"@,
        ),
{
    let p = batch_path(fv)->0;
    let q = pull_query_spec(fv, start, end);
    let tail = " WHERE event_timestamp >= '"@ + ymd_hms(start) + "' AND event_timestamp < '"@ + ymd_hms(end) + "'"@;
    reveal_strlit("SELECT * FROM ");
    reveal_strlit("read_csv_auto('");
    reveal_strlit("read_parquet('");
    reveal_strlit("SELECT * FROM read_csv_auto('");
    reveal_strlit("SELECT * FROM read_parquet('");
    reveal_strlit("')");
    reveal_strlit("SELECT * FROM '");
    reveal_strlit("'");
    let pre = if has_suffix(p, ".parquet"@) {
        "SELECT * FROM read_parquet('"@ + p + "')"@
    } else if has_suffix(p, ".csv"@) {
        "SELECT * FROM read_csv_auto('"@ + p + "')"@
    } else {
        "SELECT * FROM '"@ + p + "'"@
    };
    assert(q =~= pre + tail);
    assert((pre + tail).take(pre.len() as int) =~= pre);
    assert((pre + tail).skip((pre + tail).len() - tail.len()) =~= tail);
}

/// A historical retrieval reads a feature view's file the same way: with
/// `read_csv_auto` for a path ending in `.csv` (and not in `.parquet`), with
/// `read_parquet` for any other path.
pub proof fn lemma_data_source_reader(fv: FeatureView, keys: Seq<Seq<char>>)
    requires
        batch_path(fv) is Some,
    ensures
        has_suffix(batch_path(fv)->0, ".csv"@) && !has_suffix(batch_path(fv)->0, ".parquet"@) ==> data_source_sql(
            fv,
            keys,
        ) == "read_csv_auto('"@ + batch_path(fv)->0 + "')"@,
        !has_suffix(batch_path(fv)->0, ".csv"@) || has_suffix(batch_path(fv)->0, ".parquet"@) ==> data_source_sql(
            fv,
            keys,
        ) == "read_parquet('"@ + batch_path(fv)->0 + "')"@,
{
}

} // verus!
