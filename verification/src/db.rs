//! What the database is asked: the statements that depend on their arguments, and what their
//! outcomes mean.

use vstd::prelude::*;
use vstd::string::*;

use crate::number::{decimal, decimal_text, signed_decimal, signed_decimal_text};
use crate::text::{
    ascii_lower, join, joined, list_items, listed_items, lower_char, precedes, precedes_is_strict,
    same_text, text_option, texts, trim, trimmed,
};

verus! {

// ── The log query ────────────────────────────────────────────────────────────

/// What to look for in the application log.
#[derive(Debug, Clone)]
pub struct AppLogFilters {
    pub level: Option<String>,
    /// The beginning of the target.
    pub target: Option<String>,
    pub pipeline_id: Option<String>,
    pub output_id: Option<String>,
    pub event_class: Option<String>,
    /// The earliest time that counts.
    pub since: Option<String>,
    /// The first time that counts no more.
    pub until: Option<String>,
    /// The beginnings of messages, with commas between them.
    pub prefix: Option<String>,
    pub order: Option<String>,
    pub limit: Option<i64>,
}

/// A statement, and the values for its place holders in order.
pub struct BoundQuery {
    pub sql: String,
    pub binds: Vec<String>,
}

/// A condition of a query: its text, and the values for the place holders in it.
pub struct Condition {
    pub text: Seq<char>,
    pub binds: Seq<Seq<char>>,
}

/// The levels that are at least as urgent as the one asked for; `info` where none is.
pub open spec fn levels_from(level: Option<Seq<char>>) -> Seq<Seq<char>> {
    let named = match level {
        Some(l) => l,
        None => "info"@,
    };
    if named == "error"@ {
        seq!["ERROR"@]
    } else if named == "warn"@ {
        seq!["ERROR"@, "WARN"@]
    } else if named == "debug"@ {
        seq!["ERROR"@, "WARN"@, "INFO"@, "DEBUG"@]
    } else {
        seq!["ERROR"@, "WARN"@, "INFO"@]
    }
}

/// `n` times the same text.
pub open spec fn repeated(text: Seq<char>, n: nat) -> Seq<Seq<char>> {
    Seq::new(n, |i: int| text)
}

/// The condition on the level.
pub open spec fn level_condition(level: Option<Seq<char>>) -> Condition {
    let levels = levels_from(level);
    Condition {
        text: "level IN ("@ + joined(repeated("?"@, levels.len()), ", "@) + ")"@,
        binds: levels,
    }
}

/// The conditions with one more where its value is given.
pub open spec fn with_condition(
    conditions: Seq<Condition>,
    text: Seq<char>,
    value: Option<Seq<char>>,
) -> Seq<Condition> {
    match value {
        Some(v) => conditions.push(Condition { text, binds: seq![v] }),
        None => conditions,
    }
}

/// The beginnings, as patterns that match what begins so.
pub open spec fn patterns(items: Seq<Seq<char>>) -> Seq<Seq<char>> {
    Seq::new(items.len(), |i: int| items[i] + "%"@)
}

/// The pattern that matches what begins with the value.
pub open spec fn pattern_option(value: Option<Seq<char>>) -> Option<Seq<char>> {
    match value {
        Some(v) => Some(v + "%"@),
        None => None,
    }
}

/// The conditions with one more on the beginnings of messages, where there are any.
pub open spec fn with_prefixes(
    conditions: Seq<Condition>,
    prefix: Option<Seq<char>>,
) -> Seq<Condition> {
    match prefix {
        Some(p) => {
            let items = listed_items(p);
            if items.len() == 0 {
                conditions
            } else {
                conditions.push(
                    Condition {
                        text: "("@ + joined(repeated("message LIKE ?"@, items.len()), " OR "@)
                            + ")"@,
                        binds: patterns(items),
                    },
                )
            }
        },
        None => conditions,
    }
}

/// All conditions that the filters set, in order.
pub open spec fn conditions(f: AppLogFilters) -> Seq<Condition> {
    let a = seq![level_condition(text_option(f.level))];
    let b = with_condition(a, "target LIKE ?"@, pattern_option(text_option(f.target)));
    let c = with_condition(b, "pipeline_id = ?"@, text_option(f.pipeline_id));
    let d = with_condition(c, "output_id = ?"@, text_option(f.output_id));
    let e = with_condition(d, "event_class = ?"@, text_option(f.event_class));
    let g = with_condition(e, "ts >= ?"@, text_option(f.since));
    let h = with_condition(g, "ts < ?"@, text_option(f.until));
    with_prefixes(h, text_option(f.prefix))
}

/// The texts of conditions.
pub open spec fn condition_texts(c: Seq<Condition>) -> Seq<Seq<char>> {
    c.map_values(|x: Condition| x.text)
}

/// The values of conditions, one condition after another.
pub open spec fn condition_binds(c: Seq<Condition>) -> Seq<Seq<char>>
    decreases c.len(),
{
    if c.len() == 0 {
        Seq::empty()
    } else {
        condition_binds(c.drop_last()) + c.last().binds
    }
}

/// How the rows are ordered: ascending where that is asked for.
pub open spec fn order_word(order: Option<Seq<char>>) -> Seq<char> {
    if order == Some("asc"@) {
        "ASC"@
    } else {
        "DESC"@
    }
}

/// How many rows are asked for: 200 where nothing is said, and from 1 to 1000.
pub open spec fn row_limit(limit: Option<i64>) -> int {
    match limit {
        Some(n) => if n < 1 {
            1
        } else if n > 1000 {
            1000
        } else {
            n as int
        },
        None => 200,
    }
}

/// The statement of the query.
pub open spec fn log_sql(f: AppLogFilters) -> Seq<char> {
    "SELECT id, ts, level, target, message, fields, pipeline_id, output_id, event_type FROM app_logs WHERE "@
        + joined(condition_texts(conditions(f)), " AND "@) + " ORDER BY ts "@ + order_word(
        text_option(f.order),
    ) + ", id "@ + order_word(text_option(f.order)) + " LIMIT "@ + decimal(
        row_limit(f.limit) as nat,
    )
}

/// A query in the making.
struct QueryParts {
    clauses: Vec<String>,
    binds: Vec<String>,
}

impl QueryParts {
    spec fn holds(&self, c: Seq<Condition>) -> bool {
        texts(self.clauses@) == condition_texts(c) && texts(self.binds@) == condition_binds(c)
    }
}

proof fn lemma_one_more(c: Seq<Condition>, x: Condition)
    ensures
        condition_texts(c.push(x)) == condition_texts(c).push(x.text),
        condition_binds(c.push(x)) == condition_binds(c) + x.binds,
{
    assert(condition_texts(c.push(x)) =~= condition_texts(c).push(x.text));
    assert(c.push(x).drop_last() =~= c);
}

fn push_text(v: &mut Vec<String>, t: String)
    ensures
        texts(final(v)@) == texts(old(v)@).push(t@),
{
    v.push(t);
    assert(texts(v@) =~= texts(old(v)@).push(t@));
}

fn add_condition(q: &mut QueryParts, text: &str, value: &Option<String>, Ghost(c): Ghost<Seq<Condition>>)
    requires
        old(q).holds(c),
    ensures
        final(q).holds(with_condition(c, text@, text_option(*value))),
{
    if let Some(v) = value {
        let ghost binds0 = texts(q.binds@);
        push_text(&mut q.clauses, text.to_string());
        push_text(&mut q.binds, v.clone());
        proof {
            let x = Condition { text: text@, binds: seq![v@] };
            lemma_one_more(c, x);
            assert(binds0 + x.binds =~= binds0.push(v@));
        }
    }
}

/// `n` times the same text, with a separator.
fn repeat_joined(text: &str, n: usize, sep: &str) -> (r: String)
    ensures
        r@ == joined(repeated(text@, n as nat), sep@),
{
    let mut v: Vec<String> = Vec::new();
    let mut i: usize = 0;
    while i < n
        invariant
            i <= n,
            texts(v@) =~= repeated(text@, i as nat),
        decreases n - i,
    {
        push_text(&mut v, text.to_string());
        i += 1;
    }
    assert(texts(v@) =~= repeated(text@, n as nat));
    join(&v, sep)
}

fn level_names(level: &Option<String>) -> (r: Vec<String>)
    ensures
        texts(r@) == levels_from(text_option(*level)),
{
    let named: String = match level {
        Some(l) => l.clone(),
        None => "info".to_string(),
    };
    let mut v: Vec<String> = Vec::new();
    v.push("ERROR".to_string());
    if same_text(named.as_str(), "error") {
        assert(texts(v@) =~= levels_from(text_option(*level)));
        return v;
    }
    v.push("WARN".to_string());
    if same_text(named.as_str(), "warn") {
        assert(texts(v@) =~= levels_from(text_option(*level)));
        return v;
    }
    v.push("INFO".to_string());
    if same_text(named.as_str(), "debug") {
        v.push("DEBUG".to_string());
    }
    assert(texts(v@) =~= levels_from(text_option(*level)));
    v
}

fn pattern_of(value: &Option<String>) -> (r: Option<String>)
    ensures
        text_option(r) == pattern_option(text_option(*value)),
{
    match value {
        Some(v) => Some(v.clone().concat("%")),
        None => None,
    }
}

fn add_prefixes(q: &mut QueryParts, prefix: &Option<String>, Ghost(c): Ghost<Seq<Condition>>)
    requires
        old(q).holds(c),
    ensures
        final(q).holds(with_prefixes(c, text_option(*prefix))),
{
    if let Some(p) = prefix {
        let items: Vec<String> = list_items(p.as_str());
        assert(texts(items@).len() == items@.len());
        if !items.is_empty() {
            let any: String = repeat_joined("message LIKE ?", items.len(), " OR ");
            let ghost binds0 = texts(q.binds@);
            let ghost wanted = patterns(texts(items@));
            push_text(&mut q.clauses, "(".to_string().concat(any.as_str()).concat(")"));
            let mut i: usize = 0;
            assert(binds0 + wanted.take(0) =~= binds0);
            let ghost clauses0 = q.clauses@;
            while i < items.len()
                invariant
                    i <= items@.len(),
                    wanted == patterns(texts(items@)),
                    q.clauses@ == clauses0,
                    texts(q.binds@) == binds0 + wanted.take(i as int),
                decreases items@.len() - i,
            {
                push_text(&mut q.binds, items[i].clone().concat("%"));
                assert(wanted[i as int] == items@[i as int]@ + "%"@);
                assert(binds0 + wanted.take(i + 1) =~= (binds0 + wanted.take(i as int)).push(
                    wanted[i as int],
                ));
                i += 1;
            }
            proof {
                assert(wanted.take(wanted.len() as int) =~= wanted);
                let x = Condition {
                    text: "("@ + joined(
                        repeated("message LIKE ?"@, items@.len()),
                        " OR "@,
                    ) + ")"@,
                    binds: wanted,
                };
                lemma_one_more(c, x);
            }
        }
    }
}

fn order_name(order: &Option<String>) -> (r: &'static str)
    ensures
        r@ == order_word(text_option(*order)),
{
    match order {
        Some(o) => if same_text(o.as_str(), "asc") {
            "ASC"
        } else {
            "DESC"
        },
        None => "DESC",
    }
}

/// The query for the log entries that the filters ask for. Its values stand in the order of the
/// conditions that they belong to.
pub fn list_app_logs(filters: &AppLogFilters) -> (r: BoundQuery)
    ensures
        r.sql@ == log_sql(*filters),
        texts(r.binds@) == condition_binds(conditions(*filters)),
{
    let levels: Vec<String> = level_names(&filters.level);
    assert(texts(levels@).len() == levels@.len());
    let marks: String = repeat_joined("?", levels.len(), ", ");
    let mut q: QueryParts = QueryParts { clauses: Vec::new(), binds: levels };
    let ghost first = level_condition(text_option(filters.level));
    let ghost a = seq![first];
    assert(texts(q.clauses@) =~= Seq::<Seq<char>>::empty());
    push_text(&mut q.clauses, "level IN (".to_string().concat(marks.as_str()).concat(")"));
    proof {
        assert(texts(q.clauses@) =~= condition_texts(a));
        lemma_one_more(Seq::empty(), first);
        assert(Seq::<Condition>::empty().push(first) =~= a);
        assert(condition_binds(Seq::<Condition>::empty()) =~= Seq::<Seq<char>>::empty());
        assert(texts(q.binds@) =~= condition_binds(a));
    }
    let target: Option<String> = pattern_of(&filters.target);
    let ghost b = with_condition(a, "target LIKE ?"@, text_option(target));
    add_condition(&mut q, "target LIKE ?", &target, Ghost(a));
    let ghost c = with_condition(b, "pipeline_id = ?"@, text_option(filters.pipeline_id));
    add_condition(&mut q, "pipeline_id = ?", &filters.pipeline_id, Ghost(b));
    let ghost d = with_condition(c, "output_id = ?"@, text_option(filters.output_id));
    add_condition(&mut q, "output_id = ?", &filters.output_id, Ghost(c));
    let ghost e = with_condition(d, "event_class = ?"@, text_option(filters.event_class));
    add_condition(&mut q, "event_class = ?", &filters.event_class, Ghost(d));
    let ghost g = with_condition(e, "ts >= ?"@, text_option(filters.since));
    add_condition(&mut q, "ts >= ?", &filters.since, Ghost(e));
    let ghost h = with_condition(g, "ts < ?"@, text_option(filters.until));
    add_condition(&mut q, "ts < ?", &filters.until, Ghost(g));
    add_prefixes(&mut q, &filters.prefix, Ghost(h));
    let order: &'static str = order_name(&filters.order);
    let limit: u64 = match filters.limit {
        Some(n) => if n < 1 {
            1
        } else if n > 1000 {
            1000
        } else {
            n as u64
        },
        None => 200,
    };
    let sql: String =
        "SELECT id, ts, level, target, message, fields, pipeline_id, output_id, event_type FROM app_logs WHERE "
        .to_string().concat(join(&q.clauses, " AND ").as_str()).concat(" ORDER BY ts ").concat(
        order,
    ).concat(", id ").concat(order).concat(" LIMIT ").concat(decimal_text(limit).as_str());
    BoundQuery { sql, binds: q.binds }
}

// ── The schema ───────────────────────────────────────────────────────────────

/// The statements that set up a database, in order: settings, tables and indices. All of them leave
/// alone what is there, but for one index that is not used any more.
pub open spec fn schema() -> Seq<Seq<char>> {
    Seq::empty().push(
        "PRAGMA journal_mode = WAL;"@,
    ).push(
        "PRAGMA journal_size_limit = 67108864;"@,
    ).push(
        "CREATE TABLE IF NOT EXISTS pipelines (id TEXT PRIMARY KEY, name TEXT NOT NULL, stream_key TEXT NOT NULL, encoding TEXT, input_ever_seen_live INTEGER NOT NULL DEFAULT 0, input_source TEXT, srt_ingest_policy TEXT);"@,
    ).push(
        "CREATE TABLE IF NOT EXISTS outputs (id TEXT PRIMARY KEY, pipeline_id TEXT NOT NULL, name TEXT NOT NULL, url TEXT NOT NULL, monitoring_url TEXT, desired_state TEXT NOT NULL DEFAULT 'running', encoding TEXT, FOREIGN KEY(pipeline_id) REFERENCES pipelines(id) ON DELETE CASCADE);"@,
    ).push(
        "CREATE INDEX IF NOT EXISTS idx_outputs_pipeline ON outputs(pipeline_id);"@,
    ).push(
        "CREATE UNIQUE INDEX IF NOT EXISTS idx_pipelines_stream_key_unique ON pipelines(stream_key);"@,
    ).push(
        "CREATE TABLE IF NOT EXISTS jobs (id TEXT PRIMARY KEY, pipeline_id TEXT NOT NULL, output_id TEXT NOT NULL, pid INTEGER, status TEXT NOT NULL, started_at TEXT, ended_at TEXT, exit_code INTEGER, exit_signal TEXT, FOREIGN KEY(pipeline_id) REFERENCES pipelines(id) ON DELETE CASCADE, FOREIGN KEY(output_id) REFERENCES outputs(id) ON DELETE CASCADE);"@,
    ).push(
        "CREATE UNIQUE INDEX IF NOT EXISTS idx_jobs_pipeline_output_unique ON jobs(pipeline_id, output_id);"@,
    ).push(
        "CREATE TABLE IF NOT EXISTS ingests (id TEXT PRIMARY KEY, filename TEXT NOT NULL, stream_key TEXT NOT NULL, loop INTEGER NOT NULL DEFAULT 0, start_time TEXT NOT NULL DEFAULT '');"@,
    ).push(
        "CREATE TABLE IF NOT EXISTS meta (key TEXT PRIMARY KEY, value TEXT);"@,
    ).push(
        "CREATE TABLE IF NOT EXISTS sessions (token TEXT PRIMARY KEY, created_at INTEGER NOT NULL);"@,
    ).push(
        "CREATE TABLE IF NOT EXISTS app_logs (id INTEGER PRIMARY KEY AUTOINCREMENT, ts TEXT NOT NULL, level TEXT NOT NULL, target TEXT NOT NULL, message TEXT NOT NULL, fields TEXT, pipeline_id TEXT, output_id TEXT, event_type TEXT, event_class TEXT);"@,
    ).push(
        "CREATE INDEX IF NOT EXISTS idx_app_logs_ts ON app_logs(ts DESC);"@,
    ).push(
        "CREATE INDEX IF NOT EXISTS idx_app_logs_level ON app_logs(level, ts DESC);"@,
    ).push(
        "CREATE INDEX IF NOT EXISTS idx_app_logs_target ON app_logs(target, ts DESC);"@,
    ).push(
        "CREATE INDEX IF NOT EXISTS idx_app_logs_pipeline ON app_logs(pipeline_id, ts DESC) WHERE pipeline_id IS NOT NULL;"@,
    ).push(
        "DROP INDEX IF EXISTS idx_app_logs_history;"@,
    ).push(
        "CREATE INDEX IF NOT EXISTS idx_app_logs_scope ON app_logs(pipeline_id, output_id, event_class, ts) WHERE pipeline_id IS NOT NULL;"@,
    )
}

/// The statements that set up a database.
pub fn schema_statements() -> (r: Vec<String>)
    ensures
        texts(r@) == schema(),
{
    let mut out: Vec<String> = Vec::new();
    assert(texts(out@) =~= Seq::<Seq<char>>::empty());
    push_text(
        &mut out,
        "PRAGMA journal_mode = WAL;".to_string(),
    );
    push_text(
        &mut out,
        "PRAGMA journal_size_limit = 67108864;".to_string(),
    );
    push_text(
        &mut out,
        "CREATE TABLE IF NOT EXISTS pipelines (id TEXT PRIMARY KEY, name TEXT NOT NULL, stream_key TEXT NOT NULL, encoding TEXT, input_ever_seen_live INTEGER NOT NULL DEFAULT 0, input_source TEXT, srt_ingest_policy TEXT);".to_string(),
    );
    push_text(
        &mut out,
        "CREATE TABLE IF NOT EXISTS outputs (id TEXT PRIMARY KEY, pipeline_id TEXT NOT NULL, name TEXT NOT NULL, url TEXT NOT NULL, monitoring_url TEXT, desired_state TEXT NOT NULL DEFAULT 'running', encoding TEXT, FOREIGN KEY(pipeline_id) REFERENCES pipelines(id) ON DELETE CASCADE);".to_string(),
    );
    push_text(
        &mut out,
        "CREATE INDEX IF NOT EXISTS idx_outputs_pipeline ON outputs(pipeline_id);".to_string(),
    );
    push_text(
        &mut out,
        "CREATE UNIQUE INDEX IF NOT EXISTS idx_pipelines_stream_key_unique ON pipelines(stream_key);".to_string(),
    );
    push_text(
        &mut out,
        "CREATE TABLE IF NOT EXISTS jobs (id TEXT PRIMARY KEY, pipeline_id TEXT NOT NULL, output_id TEXT NOT NULL, pid INTEGER, status TEXT NOT NULL, started_at TEXT, ended_at TEXT, exit_code INTEGER, exit_signal TEXT, FOREIGN KEY(pipeline_id) REFERENCES pipelines(id) ON DELETE CASCADE, FOREIGN KEY(output_id) REFERENCES outputs(id) ON DELETE CASCADE);".to_string(),
    );
    push_text(
        &mut out,
        "CREATE UNIQUE INDEX IF NOT EXISTS idx_jobs_pipeline_output_unique ON jobs(pipeline_id, output_id);".to_string(),
    );
    push_text(
        &mut out,
        "CREATE TABLE IF NOT EXISTS ingests (id TEXT PRIMARY KEY, filename TEXT NOT NULL, stream_key TEXT NOT NULL, loop INTEGER NOT NULL DEFAULT 0, start_time TEXT NOT NULL DEFAULT '');".to_string(),
    );
    push_text(
        &mut out,
        "CREATE TABLE IF NOT EXISTS meta (key TEXT PRIMARY KEY, value TEXT);".to_string(),
    );
    push_text(
        &mut out,
        "CREATE TABLE IF NOT EXISTS sessions (token TEXT PRIMARY KEY, created_at INTEGER NOT NULL);".to_string(),
    );
    push_text(
        &mut out,
        "CREATE TABLE IF NOT EXISTS app_logs (id INTEGER PRIMARY KEY AUTOINCREMENT, ts TEXT NOT NULL, level TEXT NOT NULL, target TEXT NOT NULL, message TEXT NOT NULL, fields TEXT, pipeline_id TEXT, output_id TEXT, event_type TEXT, event_class TEXT);".to_string(),
    );
    push_text(
        &mut out,
        "CREATE INDEX IF NOT EXISTS idx_app_logs_ts ON app_logs(ts DESC);".to_string(),
    );
    push_text(
        &mut out,
        "CREATE INDEX IF NOT EXISTS idx_app_logs_level ON app_logs(level, ts DESC);".to_string(),
    );
    push_text(
        &mut out,
        "CREATE INDEX IF NOT EXISTS idx_app_logs_target ON app_logs(target, ts DESC);".to_string(),
    );
    push_text(
        &mut out,
        "CREATE INDEX IF NOT EXISTS idx_app_logs_pipeline ON app_logs(pipeline_id, ts DESC) WHERE pipeline_id IS NOT NULL;".to_string(),
    );
    push_text(
        &mut out,
        "DROP INDEX IF EXISTS idx_app_logs_history;".to_string(),
    );
    push_text(
        &mut out,
        "CREATE INDEX IF NOT EXISTS idx_app_logs_scope ON app_logs(pipeline_id, output_id, event_class, ts) WHERE pipeline_id IS NOT NULL;".to_string(),
    );
    out
}

/// The columns that tables of earlier versions may lack: table, column and type.
pub fn later_columns() -> (r: Vec<(&'static str, &'static str, &'static str)>)
    ensures
        r@.len() == 2,
        r@[0].0@ == "pipelines"@ && r@[0].1@ == "srt_ingest_policy"@ && r@[0].2@ == "TEXT"@,
        r@[1].0@ == "outputs"@ && r@[1].1@ == "monitoring_url"@ && r@[1].2@ == "TEXT"@,
{
    vec![("pipelines", "srt_ingest_policy", "TEXT"), ("outputs", "monitoring_url", "TEXT")]
}

// ── Other statements ─────────────────────────────────────────────────────────

/// The statement that lists the columns of a table.
pub fn table_info_sql(table: &str) -> (r: String)
    ensures
        r@ == "PRAGMA table_info("@ + table@ + ")"@,
{
    "PRAGMA table_info(".to_string().concat(table).concat(")")
}

/// Whether a name is among the columns.
pub open spec fn has_column(columns: Seq<String>, column: Seq<char>) -> bool {
    exists|i: int| 0 <= i < columns.len() && (#[trigger] columns[i])@ == column
}

/// The statement that adds a column to a table, where the table does not have it.
pub fn ensure_column_exists(
    table: &str,
    column: &str,
    column_type: &str,
    columns: &Vec<String>,
) -> (r: Option<String>)
    ensures
        has_column(columns@, column@) ==> r is None,
        !has_column(columns@, column@) ==> r is Some && r->0@ == "ALTER TABLE "@ + table@
            + " ADD COLUMN "@ + column@ + " "@ + column_type@,
{
    let mut i: usize = 0;
    while i < columns.len()
        invariant
            i <= columns@.len(),
            forall|k: int| 0 <= k < i ==> (#[trigger] columns@[k])@ != column@,
        decreases columns@.len() - i,
    {
        if same_text(columns[i].as_str(), column) {
            return None;
        }
        i += 1;
    }
    Some(
        "ALTER TABLE ".to_string().concat(table).concat(" ADD COLUMN ").concat(column).concat(
            " ",
        ).concat(column_type),
    )
}

/// Whether a stream key may be used, where `others` other pipelines have it.
pub fn check_stream_key(others: i64) -> (r: Result<(), &'static str>)
    ensures
        match r {
            Ok(_) => others <= 0,
            Err(message) => others > 0 && message@ == "duplicate stream key"@,
        },
{
    if others > 0 {
        Err("duplicate stream key")
    } else {
        Ok(())
    }
}

/// The age, as a modifier of a date, of the log entries that are deleted.
pub fn retention_modifier(days: i64) -> (r: String)
    ensures
        r@ == "-"@ + signed_decimal(days as int) + " days"@,
{
    "-".to_string().concat(signed_decimal_text(days).as_str()).concat(" days")
}

/// The host as it is kept: without the white space around it.
pub fn set_ingest_host(host: &str) -> (r: String)
    ensures
        r@ == trimmed(host@),
{
    trim(host)
}

/// Sessions that were made before this moment have expired.
pub fn prune_expired_sessions(now_ms: i64, max_age_ms: i64) -> (r: i64)
    requires
        i64::MIN <= now_ms - max_age_ms <= i64::MAX,
    ensures
        r == now_ms - max_age_ms,
{
    now_ms - max_age_ms
}

// ── Laws ─────────────────────────────────────────────────────────────────────

/// A query asks for at least one row, and for no more than a thousand.
pub proof fn row_limit_is_bounded(limit: Option<i64>)
    ensures
        1 <= row_limit(limit) <= 1000,
{
}

/// An entry of the log, as far as conditions speak of it.
pub struct LogRow {
    pub ts: Seq<char>,
    pub level: Seq<char>,
    pub target: Seq<char>,
    pub message: Seq<char>,
    pub pipeline_id: Option<Seq<char>>,
    pub output_id: Option<Seq<char>>,
    pub event_class: Option<Seq<char>>,
}

/// Whether a text is like a pattern: `%` stands for any characters, `_` for any one, and a letter
/// for itself in either case.
pub open spec fn like(s: Seq<char>, p: Seq<char>) -> bool
    decreases s.len() + p.len(),
{
    if p.len() == 0 {
        s.len() == 0
    } else if p[0] == '%' {
        like(s, p.skip(1)) || (s.len() > 0 && like(s.skip(1), p))
    } else {
        s.len() > 0 && (p[0] == '_' || lower_char(s[0]) == lower_char(p[0])) && like(
            s.skip(1),
            p.skip(1),
        )
    }
}

/// What a condition means of an entry: times and texts are compared as characters, and a value that
/// is missing is equal to none.
pub open spec fn met(c: Condition, row: LogRow) -> bool {
    if c.text == "ts >= ?"@ {
        precedes(c.binds[0], row.ts)
    } else if c.text == "ts < ?"@ {
        !precedes(c.binds[0], row.ts)
    } else if c.text == "target LIKE ?"@ {
        like(row.target, c.binds[0])
    } else if c.text == "pipeline_id = ?"@ {
        row.pipeline_id == Some(c.binds[0])
    } else if c.text == "output_id = ?"@ {
        row.output_id == Some(c.binds[0])
    } else if c.text == "event_class = ?"@ {
        row.event_class == Some(c.binds[0])
    } else if c.text == "level IN ("@ + joined(repeated("?"@, c.binds.len()), ", "@) + ")"@ {
        c.binds.contains(row.level)
    } else if c.text == "("@ + joined(repeated("message LIKE ?"@, c.binds.len()), " OR "@)
        + ")"@ {
        exists|k: int| 0 <= k < c.binds.len() && like(row.message, #[trigger] c.binds[k])
    } else {
        false
    }
}

/// Whether an entry meets all conditions.
pub open spec fn meets_all(conditions: Seq<Condition>, row: LogRow) -> bool {
    forall|i: int| 0 <= i < conditions.len() ==> met(#[trigger] conditions[i], row)
}

proof fn lemma_meets_one_more(c: Seq<Condition>, x: Condition, row: LogRow)
    ensures
        meets_all(c.push(x), row) == (meets_all(c, row) && met(x, row)),
{
    if meets_all(c.push(x), row) {
        assert forall|i: int| 0 <= i < c.len() implies met(#[trigger] c[i], row) by {
            assert(c.push(x)[i] == c[i]);
        }
        assert(c.push(x)[c.len() as int] == x);
    }
    if meets_all(c, row) && met(x, row) {
        assert forall|i: int| 0 <= i < c.push(x).len() implies met(#[trigger] c.push(x)[i], row) by {
            if i < c.len() {
                assert(c.push(x)[i] == c[i]);
            }
        }
    }
}

proof fn lemma_meets_with(
    c: Seq<Condition>,
    text: Seq<char>,
    value: Option<Seq<char>>,
    row: LogRow,
)
    ensures
        meets_all(with_condition(c, text, value), row) == (meets_all(c, row) && (value matches Some(v)
            ==> met(Condition { text, binds: seq![v] }, row))),
{
    if let Some(v) = value {
        lemma_meets_one_more(c, Condition { text, binds: seq![v] }, row);
    }
}

proof fn lemma_condition_texts_differ(levels: Seq<Seq<char>>, patterns: Seq<Seq<char>>)
    ensures
        "ts >= ?"@ != "ts < ?"@,
        "target LIKE ?"@ != "ts >= ?"@ && "target LIKE ?"@ != "ts < ?"@,
        "pipeline_id = ?"@ != "ts >= ?"@ && "pipeline_id = ?"@ != "ts < ?"@ && "pipeline_id = ?"@
            != "target LIKE ?"@,
        "output_id = ?"@ != "ts >= ?"@ && "output_id = ?"@ != "ts < ?"@ && "output_id = ?"@
            != "target LIKE ?"@ && "output_id = ?"@ != "pipeline_id = ?"@,
        "event_class = ?"@ != "ts >= ?"@ && "event_class = ?"@ != "ts < ?"@ && "event_class = ?"@
            != "target LIKE ?"@ && "event_class = ?"@ != "pipeline_id = ?"@ && "event_class = ?"@
            != "output_id = ?"@,
        ({
            let l = "level IN ("@ + joined(repeated("?"@, levels.len()), ", "@) + ")"@;
            let p = "("@ + joined(repeated("message LIKE ?"@, patterns.len()), " OR "@) + ")"@;
            let q = "level IN ("@ + joined(repeated("?"@, patterns.len()), ", "@) + ")"@;
            &&& l != "ts >= ?"@ && l != "ts < ?"@ && l != "target LIKE ?"@ && l
                != "pipeline_id = ?"@ && l != "output_id = ?"@ && l != "event_class = ?"@
            &&& p != "ts >= ?"@ && p != "ts < ?"@ && p != "target LIKE ?"@ && p
                != "pipeline_id = ?"@ && p != "output_id = ?"@ && p != "event_class = ?"@ && p != q
        }),
{
    reveal_strlit("ts >= ?");
    reveal_strlit("ts < ?");
    reveal_strlit("target LIKE ?");
    reveal_strlit("pipeline_id = ?");
    reveal_strlit("output_id = ?");
    reveal_strlit("event_class = ?");
    reveal_strlit("level IN (");
    reveal_strlit("(");
    assert("ts >= ?"@.len() == 7 && "ts < ?"@.len() == 6 && "target LIKE ?"@.len() == 13);
    assert("ts >= ?"@[0] == 't' && "ts < ?"@[0] == 't' && "target LIKE ?"@[0] == 't');
    assert("pipeline_id = ?"@[0] == 'p' && "output_id = ?"@[0] == 'o' && "event_class = ?"@[0]
        == 'e');
    let l = "level IN ("@ + joined(repeated("?"@, levels.len()), ", "@) + ")"@;
    let p = "("@ + joined(repeated("message LIKE ?"@, patterns.len()), " OR "@) + ")"@;
    let q = "level IN ("@ + joined(repeated("?"@, patterns.len()), ", "@) + ")"@;
    assert(l[0] == 'l' && p[0] == '(' && q[0] == 'l');
}

/// Whether the level of an entry is at least as urgent as the one asked for: `error`, `warn`, and
/// `debug` name themselves, and anything else asks for `info`.
pub open spec fn urgent_enough(asked: Option<Seq<char>>, level: Seq<char>) -> bool {
    level == "ERROR"@ || (level == "WARN"@ && asked != Some("error"@)) || (level == "INFO"@ && asked
        != Some("error"@) && asked != Some("warn"@)) || (level == "DEBUG"@ && asked == Some(
        "debug"@,
    ))
}

/// The query finds the entries that are asked for, and no others: an entry meets its conditions
/// exactly when its level is urgent enough, its time is not before `since` and is before `until`,
/// its ids and its class are the given ones, its target begins as asked, and its message begins in
/// one of the ways asked for.
pub proof fn query_finds_what_is_asked_for(f: AppLogFilters, row: LogRow)
    ensures
        meets_all(conditions(f), row) <==> {
            &&& urgent_enough(text_option(f.level), row.level)
            &&& f.since is Some ==> precedes(f.since->0@, row.ts)
            &&& f.until is Some ==> precedes(row.ts, f.until->0@) && row.ts != f.until->0@
            &&& f.pipeline_id is Some ==> row.pipeline_id == Some(f.pipeline_id->0@)
            &&& f.output_id is Some ==> row.output_id == Some(f.output_id->0@)
            &&& f.event_class is Some ==> row.event_class == Some(f.event_class->0@)
            &&& f.target is Some ==> like(row.target, f.target->0@ + "%"@)
            &&& f.prefix is Some && listed_items(f.prefix->0@).len() > 0 ==> exists|k: int|
                0 <= k < listed_items(f.prefix->0@).len() && like(
                    row.message,
                    #[trigger] listed_items(f.prefix->0@)[k] + "%"@,
                )
        },
{
    let first = level_condition(text_option(f.level));
    let levels = levels_from(text_option(f.level));
    let items = match text_option(f.prefix) {
        Some(p) => listed_items(p),
        None => Seq::empty(),
    };
    lemma_condition_texts_differ(levels, patterns(items));
    let a = seq![first];
    assert(Seq::<Condition>::empty().push(first) =~= a);
    lemma_meets_one_more(Seq::empty(), first, row);
    assert(met(first, row) == levels.contains(row.level));
    lemma_levels(text_option(f.level), row.level);
    let target = pattern_option(text_option(f.target));
    let b = with_condition(a, "target LIKE ?"@, target);
    lemma_meets_with(a, "target LIKE ?"@, target, row);
    let c = with_condition(b, "pipeline_id = ?"@, text_option(f.pipeline_id));
    lemma_meets_with(b, "pipeline_id = ?"@, text_option(f.pipeline_id), row);
    let d = with_condition(c, "output_id = ?"@, text_option(f.output_id));
    lemma_meets_with(c, "output_id = ?"@, text_option(f.output_id), row);
    let e = with_condition(d, "event_class = ?"@, text_option(f.event_class));
    lemma_meets_with(d, "event_class = ?"@, text_option(f.event_class), row);
    let g = with_condition(e, "ts >= ?"@, text_option(f.since));
    lemma_meets_with(e, "ts >= ?"@, text_option(f.since), row);
    let h = with_condition(g, "ts < ?"@, text_option(f.until));
    lemma_meets_with(g, "ts < ?"@, text_option(f.until), row);
    if f.until is Some {
        precedes_is_strict(row.ts, f.until->0@);
    }
    if items.len() > 0 {
        let x = Condition {
            text: "("@ + joined(repeated("message LIKE ?"@, items.len()), " OR "@) + ")"@,
            binds: patterns(items),
        };
        lemma_meets_one_more(h, x, row);
        assert(met(x, row) <==> exists|k: int|
            0 <= k < items.len() && like(row.message, #[trigger] items[k] + "%"@)) by {
            if met(x, row) {
                let k = choose|k: int|
                    0 <= k < x.binds.len() && like(row.message, #[trigger] x.binds[k]);
                assert(like(row.message, items[k] + "%"@));
            }
            if exists|k: int| 0 <= k < items.len() && like(row.message, #[trigger] items[k] + "%"@) {
                let k = choose|k: int|
                    0 <= k < items.len() && like(row.message, #[trigger] items[k] + "%"@);
                assert(x.binds[k] == items[k] + "%"@);
            }
        }
    }
}

proof fn lemma_levels(asked: Option<Seq<char>>, level: Seq<char>)
    ensures
        levels_from(asked).contains(level) <==> urgent_enough(asked, level),
{
    reveal_strlit("error");
    reveal_strlit("warn");
    reveal_strlit("info");
    reveal_strlit("debug");
    assert("error"@.len() == 5 && "warn"@.len() == 4 && "info"@.len() == 4 && "debug"@.len() == 5);
    assert("error"@[0] == 'e' && "debug"@[0] == 'd' && "warn"@[0] == 'w' && "info"@[0] == 'i');
    let v = levels_from(asked);
    if level == "ERROR"@ {
        assert(v[0] == level);
    }
    if level == "WARN"@ && asked != Some("error"@) {
        assert(v[1] == level);
    }
    if level == "INFO"@ && asked != Some("error"@) && asked != Some("warn"@) {
        assert(v[2] == level);
    }
    if level == "DEBUG"@ && asked == Some("debug"@) {
        assert(v[3] == level);
    }
}

/// A beginning without `%` and `_` matches what begins with it, in either case, and nothing else.
pub proof fn pattern_matches_what_begins_so(s: Seq<char>, beginning: Seq<char>)
    requires
        !beginning.contains('%'),
        !beginning.contains('_'),
    ensures
        like(s, beginning + "%"@) <==> s.len() >= beginning.len() && ascii_lower(
            s.take(beginning.len() as int),
        ) == ascii_lower(beginning),
    decreases beginning.len(),
{
    reveal_strlit("%");
    let p = beginning + "%"@;
    if beginning.len() == 0 {
        assert(p =~= seq!['%']);
        lemma_like_any(s);
        assert(s.take(0) =~= beginning);
    } else {
        let rest = beginning.skip(1);
        assert(beginning.contains(beginning[0]));
        assert forall|i: int| 0 <= i < rest.len() implies rest[i] != '%' && rest[i] != '_' by {
            assert(beginning.contains(beginning[i + 1]));
        }
        assert(p.skip(1) =~= rest + "%"@);
        assert(p[0] == beginning[0]);
        if s.len() > 0 {
            pattern_matches_what_begins_so(s.skip(1), rest);
            let n = beginning.len() as int;
            if s.len() >= n {
                let (x, y) = (ascii_lower(s.take(n)), ascii_lower(beginning));
                let (u, v) = (ascii_lower(s.skip(1).take(n - 1)), ascii_lower(rest));
                if x == y {
                    assert(x[0] == y[0]);
                    assert forall|i: int| 0 <= i < n - 1 implies u[i] == v[i] by {
                        assert(x[i + 1] == y[i + 1]);
                    }
                    assert(u =~= v);
                }
                if u == v && lower_char(s[0]) == lower_char(beginning[0]) {
                    assert forall|i: int| 0 <= i < n implies x[i] == y[i] by {
                        if i > 0 {
                            assert(u[i - 1] == v[i - 1]);
                        }
                    }
                    assert(x =~= y);
                }
            }
        }
    }
}

proof fn lemma_like_any(s: Seq<char>)
    ensures
        like(s, seq!['%']),
    decreases s.len(),
{
    reveal_with_fuel(like, 2);
    assert(seq!['%'].skip(1) =~= Seq::<char>::empty());
    if s.len() > 0 {
        lemma_like_any(s.skip(1));
    }
}

/// The order and the number of the rows do not choose among them: filters that agree in all else
/// have the same conditions.
pub proof fn order_and_limit_choose_no_rows(f: AppLogFilters, g: AppLogFilters)
    requires
        text_option(f.level) == text_option(g.level),
        text_option(f.target) == text_option(g.target),
        text_option(f.pipeline_id) == text_option(g.pipeline_id),
        text_option(f.output_id) == text_option(g.output_id),
        text_option(f.event_class) == text_option(g.event_class),
        text_option(f.since) == text_option(g.since),
        text_option(f.until) == text_option(g.until),
        text_option(f.prefix) == text_option(g.prefix),
    ensures
        conditions(f) == conditions(g),
{
}

/// The statement asks for the rows that meet every condition, the newest first unless the oldest are
/// asked for: by their time, and by their id where the time is the same.
pub proof fn statement_asks_for_all_conditions_and_the_order(f: AppLogFilters)
    ensures
        ({
            let all = "SELECT id, ts, level, target, message, fields, pipeline_id, output_id, event_type FROM app_logs WHERE "@
                + joined(condition_texts(conditions(f)), " AND "@);
            let rows = " LIMIT "@ + decimal(row_limit(f.limit) as nat);
            if text_option(f.order) == Some("asc"@) {
                log_sql(f) == all + " ORDER BY ts ASC, id ASC"@ + rows
            } else {
                log_sql(f) == all + " ORDER BY ts DESC, id DESC"@ + rows
            }
        }),
{
    reveal_strlit(" ORDER BY ts ");
    reveal_strlit("ASC");
    reveal_strlit("DESC");
    reveal_strlit(", id ");
    reveal_strlit(" ORDER BY ts ASC, id ASC");
    reveal_strlit(" ORDER BY ts DESC, id DESC");
    let all = "SELECT id, ts, level, target, message, fields, pipeline_id, output_id, event_type FROM app_logs WHERE "@
        + joined(condition_texts(conditions(f)), " AND "@);
    let rows = " LIMIT "@ + decimal(row_limit(f.limit) as nat);
    assert(" ORDER BY ts "@ + "ASC"@ + ", id "@ + "ASC"@ =~= " ORDER BY ts ASC, id ASC"@);
    assert(" ORDER BY ts "@ + "DESC"@ + ", id "@ + "DESC"@ =~= " ORDER BY ts DESC, id DESC"@);
    if text_option(f.order) == Some("asc"@) {
        assert(log_sql(f) =~= all + (" ORDER BY ts "@ + "ASC"@ + ", id "@ + "ASC"@) + rows);
    } else {
        assert(log_sql(f) =~= all + (" ORDER BY ts "@ + "DESC"@ + ", id "@ + "DESC"@) + rows);
    }
}

/// A number of rows from one to a thousand is kept; a smaller one becomes one, a larger one a
/// thousand, and none at all two hundred.
pub proof fn row_limit_is_kept_within_bounds(n: i64)
    ensures
        1 <= n <= 1000 ==> row_limit(Some(n)) == n,
        n < 1 ==> row_limit(Some(n)) == 1,
        n > 1000 ==> row_limit(Some(n)) == 1000,
        row_limit(None) == 200,
{
}

/// The values of each condition stand together, behind those of the conditions before it.
pub proof fn values_stand_in_the_order_of_conditions(c: Seq<Condition>, i: int)
    requires
        0 <= i < c.len(),
    ensures
        ({
            let at = condition_binds(c.take(i)).len() as int;
            &&& at + c[i].binds.len() <= condition_binds(c).len()
            &&& condition_binds(c).subrange(at, at + c[i].binds.len()) == c[i].binds
            &&& condition_binds(c.take(i + 1)).len() == at + c[i].binds.len()
        }),
    decreases c.len(),
{
    let at = condition_binds(c.take(i)).len() as int;
    let n = c[i].binds.len() as int;
    assert(c.take(i + 1).drop_last() =~= c.take(i));
    assert(c.take(i + 1).last() == c[i]);
    if i == c.len() - 1 {
        assert(c.take(i) =~= c.drop_last());
        assert(condition_binds(c).subrange(at, at + n) =~= c[i].binds);
    } else {
        let front = c.drop_last();
        values_stand_in_the_order_of_conditions(front, i);
        assert(front.take(i) =~= c.take(i));
        assert(front[i] == c[i]);
        assert(condition_binds(c).subrange(at, at + n) =~= condition_binds(front).subrange(
            at,
            at + n,
        ));
    }
}

/// A less urgent level shows all that a more urgent one shows.
pub proof fn levels_include_the_more_urgent()
    ensures
        levels_from(Some("error"@)) == levels_from(Some("warn"@)).take(1),
        levels_from(Some("warn"@)) == levels_from(Some("info"@)).take(2),
        levels_from(Some("info"@)) == levels_from(Some("debug"@)).take(3),
        levels_from(None) == levels_from(Some("info"@)),
{
    reveal_strlit("error");
    reveal_strlit("warn");
    reveal_strlit("info");
    reveal_strlit("debug");
    assert("error"@.len() == 5 && "warn"@.len() == 4 && "info"@.len() == 4 && "debug"@.len() == 5);
    assert("error"@[0] == 'e' && "debug"@[0] == 'd' && "warn"@[0] == 'w' && "info"@[0] == 'i');
    assert(levels_from(Some("error"@)) =~= levels_from(Some("warn"@)).take(1));
    assert(levels_from(Some("warn"@)) =~= levels_from(Some("info"@)).take(2));
    assert(levels_from(Some("info"@)) =~= levels_from(Some("debug"@)).take(3));
}

/// There is one value for the condition on each field that is given, one for each level, and one
/// for each beginning of a message.
pub proof fn every_condition_has_its_values(f: AppLogFilters)
    ensures
        condition_binds(conditions(f)).len() == levels_from(text_option(f.level)).len() + given(
            f.target,
        ) + given(f.pipeline_id) + given(f.output_id) + given(f.event_class) + given(f.since)
            + given(f.until) + match text_option(f.prefix) {
            Some(p) => listed_items(p).len() as int,
            None => 0,
        },
{
    let first = level_condition(text_option(f.level));
    let a = seq![first];
    lemma_one_more(Seq::empty(), first);
    assert(Seq::<Condition>::empty().push(first) =~= a);
    let b = with_condition(a, "target LIKE ?"@, pattern_option(text_option(f.target)));
    lemma_binds_len(a, "target LIKE ?"@, pattern_option(text_option(f.target)));
    let c = with_condition(b, "pipeline_id = ?"@, text_option(f.pipeline_id));
    lemma_binds_len(b, "pipeline_id = ?"@, text_option(f.pipeline_id));
    let d = with_condition(c, "output_id = ?"@, text_option(f.output_id));
    lemma_binds_len(c, "output_id = ?"@, text_option(f.output_id));
    let e = with_condition(d, "event_class = ?"@, text_option(f.event_class));
    lemma_binds_len(d, "event_class = ?"@, text_option(f.event_class));
    let g = with_condition(e, "ts >= ?"@, text_option(f.since));
    lemma_binds_len(e, "ts >= ?"@, text_option(f.since));
    let h = with_condition(g, "ts < ?"@, text_option(f.until));
    lemma_binds_len(g, "ts < ?"@, text_option(f.until));
    if let Some(p) = text_option(f.prefix) {
        let items = listed_items(p);
        if items.len() > 0 {
            lemma_one_more(
                h,
                Condition {
                    text: "("@ + joined(repeated("message LIKE ?"@, items.len()), " OR "@) + ")"@,
                    binds: patterns(items),
                },
            );
        }
    }
}

/// One where a filter is given, else nothing.
pub open spec fn given(value: Option<String>) -> int {
    if value is Some {
        1
    } else {
        0
    }
}

proof fn lemma_binds_len(c: Seq<Condition>, text: Seq<char>, value: Option<Seq<char>>)
    ensures
        condition_binds(with_condition(c, text, value)).len() == condition_binds(c).len()
            + if value is Some {
            1int
        } else {
            0int
        },
{
    if let Some(v) = value {
        lemma_one_more(c, Condition { text, binds: seq![v] });
    }
}

/// No two pipelines share a stream key, no output of a pipeline has two jobs, and what belongs to a
/// pipeline or an output goes with it; settings, sessions and logs have tables of their own.
pub proof fn schema_keeps_keys_apart()
    ensures
        schema().len() == 18,
        schema()[0] == "PRAGMA journal_mode = WAL;"@,
        schema().contains(
            "CREATE UNIQUE INDEX IF NOT EXISTS idx_pipelines_stream_key_unique ON pipelines(stream_key);"@,
        ),
        schema().contains(
            "CREATE UNIQUE INDEX IF NOT EXISTS idx_jobs_pipeline_output_unique ON jobs(pipeline_id, output_id);"@,
        ),
        schema()[3]
            == "CREATE TABLE IF NOT EXISTS outputs (id TEXT PRIMARY KEY, pipeline_id TEXT NOT NULL, name TEXT NOT NULL, url TEXT NOT NULL, monitoring_url TEXT, desired_state TEXT NOT NULL DEFAULT 'running', encoding TEXT, FOREIGN KEY(pipeline_id) REFERENCES pipelines(id) ON DELETE CASCADE);"@,
        schema().contains("CREATE TABLE IF NOT EXISTS meta (key TEXT PRIMARY KEY, value TEXT);"@),
        schema().contains(
            "CREATE TABLE IF NOT EXISTS sessions (token TEXT PRIMARY KEY, created_at INTEGER NOT NULL);"@,
        ),
        schema()[11]
            == "CREATE TABLE IF NOT EXISTS app_logs (id INTEGER PRIMARY KEY AUTOINCREMENT, ts TEXT NOT NULL, level TEXT NOT NULL, target TEXT NOT NULL, message TEXT NOT NULL, fields TEXT, pipeline_id TEXT, output_id TEXT, event_type TEXT, event_class TEXT);"@,
{
    let s = schema();
    assert(s[5]
        == "CREATE UNIQUE INDEX IF NOT EXISTS idx_pipelines_stream_key_unique ON pipelines(stream_key);"@);
    assert(s[7]
        == "CREATE UNIQUE INDEX IF NOT EXISTS idx_jobs_pipeline_output_unique ON jobs(pipeline_id, output_id);"@);
    assert(s[9] == "CREATE TABLE IF NOT EXISTS meta (key TEXT PRIMARY KEY, value TEXT);"@);
    assert(s[10]
        == "CREATE TABLE IF NOT EXISTS sessions (token TEXT PRIMARY KEY, created_at INTEGER NOT NULL);"@);
}

} // verus!
