//! The SQL text and parameters of the queries that list categories and records.

use vstd::prelude::*;

use crate::record_type::{record_type_name, RecordType};
use crate::text::{push_signed_decimal, signed_decimal};

verus! {

/// A statement and the texts bound to its numbered parameters, in order.
pub struct SqlQuery {
    pub sql: String,
    pub params: Vec<String>,
}

/// The characters of each parameter.
pub open spec fn param_texts(params: Seq<String>) -> Seq<Seq<char>> {
    params.map_values(|p: String| p@)
}

/// Lists the categories of one kind, in their sort order.
pub const CATEGORIES_OF_KIND_SQL: &'static str = "SELECT id, name, icon, category_type, sort_order FROM categories WHERE category_type = ?1 ORDER BY sort_order";

/// Lists all categories, in their sort order.
pub const ALL_CATEGORIES_SQL: &'static str = "SELECT id, name, icon, category_type, sort_order FROM categories ORDER BY sort_order";

/// The query that lists categories, of one kind where `kind` names one, else of all kinds.
pub fn category_query(kind: &Option<RecordType>) -> (q: SqlQuery)
    ensures
        q.sql@ == (if kind.is_some() { CATEGORIES_OF_KIND_SQL@ } else { ALL_CATEGORIES_SQL@ }),
        param_texts(q.params@) == match kind {
            Some(t) => seq![record_type_name(*t)],
            None => Seq::<Seq<char>>::empty(),
        },
{
    let mut params: Vec<String> = Vec::new();
    let sql = match kind {
        Some(t) => {
            params.push(t.to_string());
            String::from_str(CATEGORIES_OF_KIND_SQL)
        },
        None => String::from_str(ALL_CATEGORIES_SQL),
    };
    let q = SqlQuery { sql, params };
    assert(param_texts(q.params@) =~= match kind {
        Some(t) => seq![record_type_name(*t)],
        None => Seq::<Seq<char>>::empty(),
    });
    q
}

/// Selects the records created within a period (the bounds are parameters 1 and 2).
pub const RECORDS_IN_PERIOD_SQL: &'static str = "SELECT id, amount, record_type, category_id, account_id, note, created_at, updated_at \n         FROM records WHERE created_at BETWEEN ?1 AND ?2";

/// Narrows the selection to one record kind (parameter 3).
pub const RECORD_KIND_FILTER_SQL: &'static str = " AND record_type = ?3";

/// Orders the selection newest first.
pub const NEWEST_FIRST_SQL: &'static str = " ORDER BY created_at DESC";

/// Introduces the greatest number of rows to return.
pub const LIMIT_SQL: &'static str = " LIMIT ";

/// The text of the query that lists records, as a function of its inputs.
pub open spec fn record_query_text(kind: Option<RecordType>, limit: Option<i64>) -> Seq<char> {
    RECORDS_IN_PERIOD_SQL@
        + (if kind.is_some() { RECORD_KIND_FILTER_SQL@ } else { Seq::<char>::empty() })
        + NEWEST_FIRST_SQL@
        + match limit {
            Some(l) => LIMIT_SQL@ + signed_decimal(l as int),
            None => Seq::<char>::empty(),
        }
}

/// The query that lists the records created between `start_date` and `end_date`
/// (inclusive), newest first, of one kind where `kind` names one, and at most `limit`
/// of them where a limit is given.
pub fn record_query(start_date: &str, end_date: &str, kind: &Option<RecordType>, limit: Option<i64>) -> (q: SqlQuery)
    ensures
        q.sql@ == record_query_text(*kind, limit),
        kind.is_some() && limit.is_none() ==> q.sql@ == RECORDS_IN_PERIOD_SQL@ + RECORD_KIND_FILTER_SQL@ + NEWEST_FIRST_SQL@,
        kind.is_none() && limit.is_none() ==> q.sql@ == RECORDS_IN_PERIOD_SQL@ + NEWEST_FIRST_SQL@,
        kind.is_some() ==> (limit matches Some(l) ==> q.sql@ == RECORDS_IN_PERIOD_SQL@ + RECORD_KIND_FILTER_SQL@ + NEWEST_FIRST_SQL@ + LIMIT_SQL@ + signed_decimal(l as int)),
        kind.is_none() ==> (limit matches Some(l) ==> q.sql@ == RECORDS_IN_PERIOD_SQL@ + NEWEST_FIRST_SQL@ + LIMIT_SQL@ + signed_decimal(l as int)),
        param_texts(q.params@) == seq![start_date@, end_date@] + match kind {
            Some(t) => seq![record_type_name(*t)],
            None => Seq::<Seq<char>>::empty(),
        },
{
    let mut sql = String::from_str(RECORDS_IN_PERIOD_SQL);
    let mut params: Vec<String> = Vec::new();
    params.push(String::from_str(start_date));
    params.push(String::from_str(end_date));
    match kind {
        Some(t) => {
            sql.append(RECORD_KIND_FILTER_SQL);
            params.push(t.to_string());
        },
        None => {},
    }
    sql.append(NEWEST_FIRST_SQL);
    match limit {
        Some(l) => {
            sql.append(LIMIT_SQL);
            push_signed_decimal(&mut sql, l);
        },
        None => {},
    }
    let q = SqlQuery { sql, params };
    assert(q.sql@ =~= record_query_text(*kind, limit));
    proof {
        let base = RECORDS_IN_PERIOD_SQL@;
        let filter = RECORD_KIND_FILTER_SQL@;
        let order = NEWEST_FIRST_SQL@;
        let empty = Seq::<char>::empty();
        assert(base + empty =~= base);
        assert(base + filter + order + empty =~= base + filter + order);
        assert(base + order + empty =~= base + order);
    }
    assert(param_texts(q.params@) =~= seq![start_date@, end_date@] + match kind {
        Some(t) => seq![record_type_name(*t)],
        None => Seq::<Seq<char>>::empty(),
    });
    q
}

/// The period condition closes the base selection, and the kind filter joins it with
/// `AND`, so a listed record lies in the
/// period and is of the given kind; the order is by creation time, descending, so the
/// records come newest first and a limit keeps the latest ones.
pub proof fn lemma_record_query_narrows_and_orders_newest_first()
    ensures
        RECORD_KIND_FILTER_SQL@.take(5) == " AND "@,
        RECORD_KIND_FILTER_SQL@.skip(5) == "record_type = ?3"@,
        NEWEST_FIRST_SQL@ == " ORDER BY created_at"@ + " DESC"@,
        RECORDS_IN_PERIOD_SQL@.skip(RECORDS_IN_PERIOD_SQL@.len() - 34) == "WHERE created_at BETWEEN ?1 AND ?2"@,
{
    reveal_strlit("SELECT id, amount, record_type, category_id, account_id, note, created_at, updated_at \n         FROM records WHERE created_at BETWEEN ?1 AND ?2");
    reveal_strlit("WHERE created_at BETWEEN ?1 AND ?2");
    assert(RECORDS_IN_PERIOD_SQL@.skip(RECORDS_IN_PERIOD_SQL@.len() - 34) =~= "WHERE created_at BETWEEN ?1 AND ?2"@);
    reveal_strlit(" AND record_type = ?3");
    reveal_strlit(" AND ");
    reveal_strlit("record_type = ?3");
    reveal_strlit(" ORDER BY created_at DESC");
    reveal_strlit(" ORDER BY created_at");
    reveal_strlit(" DESC");
    assert(RECORD_KIND_FILTER_SQL@.take(5) =~= " AND "@);
    assert(RECORD_KIND_FILTER_SQL@.skip(5) =~= "record_type = ?3"@);
    assert(NEWEST_FIRST_SQL@ =~= " ORDER BY created_at"@ + " DESC"@);
}

/// The query of one kind is the query of all kinds narrowed by `category_type = ?1`:
/// both select the same columns and order by sort order.
pub proof fn lemma_category_queries_share_order()
    ensures
        CATEGORIES_OF_KIND_SQL@ == "SELECT id, name, icon, category_type, sort_order FROM categories"@ + " WHERE category_type = ?1"@ + " ORDER BY sort_order"@,
        ALL_CATEGORIES_SQL@ == "SELECT id, name, icon, category_type, sort_order FROM categories"@ + " ORDER BY sort_order"@,
{
    reveal_strlit("SELECT id, name, icon, category_type, sort_order FROM categories WHERE category_type = ?1 ORDER BY sort_order");
    reveal_strlit("SELECT id, name, icon, category_type, sort_order FROM categories ORDER BY sort_order");
    reveal_strlit(" ORDER BY sort_order");
    reveal_strlit(" WHERE category_type = ?1");
    reveal_strlit("SELECT id, name, icon, category_type, sort_order FROM categories");
    assert(CATEGORIES_OF_KIND_SQL@ =~= "SELECT id, name, icon, category_type, sort_order FROM categories"@ + " WHERE category_type = ?1"@ + " ORDER BY sort_order"@);
    assert(ALL_CATEGORIES_SQL@ =~= "SELECT id, name, icon, category_type, sort_order FROM categories"@ + " ORDER BY sort_order"@);
}

} // verus!
