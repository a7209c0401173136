//! The query builder: translates a sparse filter set into a
//! parameterized SQL statement plus its ordered argument list.
//!
//! Every user-supplied or filter-supplied value is passed as a statement
//! parameter (a `?` placeholder) resolved at execution time; no value is
//! ever interpolated into the statement text, so the text is a function
//! of which filters are present alone.

use vstd::prelude::*;

use crate::params::spec_scripture_name;
use crate::params::QueryParams;
use crate::params::Value;
use crate::params::ValueModel;

verus! {

/// The unconditional "select all columns from the verse table" statement
/// that every query starts from.
pub open spec fn base_sql() -> Seq<char> {
    "SELECT * FROM scriptures"@
}

/// The keyword joining the first condition to the base statement.
pub open spec fn where_keyword() -> Seq<char> {
    " WHERE "@
}

/// The keyword joining every subsequent condition to the previous one.
pub open spec fn and_keyword() -> Seq<char> {
    " AND "@
}

/// The equality condition on the collection column.
pub open spec fn scripture_cond() -> Seq<char> {
    "(scripture = ?)"@
}

/// The equality condition on the page column.
pub open spec fn page_cond() -> Seq<char> {
    "(page = ?)"@
}

/// The equality condition on the hymn column.
pub open spec fn hymn_cond() -> Seq<char> {
    "(hymn = ?)"@
}

/// The prefix-match condition on the normalized original-script search
/// column (never the display column).
pub open spec fn gurmukhi_cond() -> Seq<char> {
    "(gurmukhi_search LIKE ?)"@
}

/// The prefix-match condition on the normalized transliteration search
/// column (never the display column).
pub open spec fn transliteration_cond() -> Seq<char> {
    "(transliteration_search LIKE ?)"@
}

/// Relevance ordering for an original-script prefix search: shorter
/// matches surface first.
pub open spec fn order_by_gurmukhi() -> Seq<char> {
    " ORDER BY length(gurmukhi_search) ASC"@
}

/// Relevance ordering for a transliteration prefix search.
pub open spec fn order_by_transliteration() -> Seq<char> {
    " ORDER BY length(transliteration_search) ASC"@
}

/// Relevance ordering when both text filters are present: by
/// original-script length first, transliteration length as tie-break.
pub open spec fn order_by_both() -> Seq<char> {
    " ORDER BY length(gurmukhi_search) ASC, length(transliteration_search) ASC"@
}

/// A single optional condition: one fragment when the filter is present,
/// nothing when it is absent.
pub open spec fn opt_cond(present: bool, cond: Seq<char>) -> Seq<Seq<char>> {
    if present {
        seq![cond]
    } else {
        Seq::empty()
    }
}

/// The condition fragments of a filter set, in the fixed field order:
/// scripture, page, hymn, gurmukhi, transliteration.
pub open spec fn conds_of(p: QueryParams) -> Seq<Seq<char>> {
    opt_cond(p.scripture is Some, scripture_cond()) + opt_cond(p.page is Some, page_cond())
        + opt_cond(p.hymn is Some, hymn_cond()) + opt_cond(p.gurmukhi is Some, gurmukhi_cond())
        + opt_cond(p.transliteration is Some, transliteration_cond())
}

/// How many filters are present in a filter set.
pub open spec fn count_present(p: QueryParams) -> int {
    (if p.scripture is Some { 1int } else { 0 }) + (if p.page is Some { 1int } else { 0 })
        + (if p.hymn is Some { 1int } else { 0 }) + (if p.gurmukhi is Some { 1int } else { 0 })
        + (if p.transliteration is Some { 1int } else { 0 })
}

/// Condition fragments joined with ` AND `: the first stands alone, each
/// subsequent one is preceded by exactly one join keyword, so `n`
/// fragments are joined by exactly `n - 1` keywords.
pub open spec fn join_conds(cs: Seq<Seq<char>>) -> Seq<char>
    decreases cs.len(),
{
    if cs.len() == 0 {
        Seq::empty()
    } else if cs.len() == 1 {
        cs[0]
    } else {
        join_conds(cs.drop_last()) + and_keyword() + cs.last()
    }
}

/// The complete `WHERE` clause: empty when no filter is present,
/// otherwise ` WHERE ` followed by the joined conditions.
pub open spec fn where_clause_of(cs: Seq<Seq<char>>) -> Seq<char> {
    if cs.len() == 0 {
        Seq::empty()
    } else {
        where_keyword() + join_conds(cs)
    }
}

/// The base statement extended with the given condition fragments: the
/// first is joined with ` WHERE `, every subsequent one with ` AND `.
pub open spec fn select_with(cs: Seq<Seq<char>>) -> Seq<char>
    decreases cs.len(),
{
    if cs.len() == 0 {
        base_sql()
    } else {
        select_with(cs.drop_last()) + (
        if cs.len() == 1 {
            where_keyword()
        } else {
            and_keyword()
        }) + cs.last()
    }
}

/// The `ORDER BY` clause: present exactly when a text filter is present,
/// ordering by ascending search-column length so that shorter matches
/// surface before longer verses sharing the same prefix.
pub open spec fn order_clause_of(p: QueryParams) -> Seq<char> {
    if p.gurmukhi is Some && p.transliteration is Some {
        order_by_both()
    } else if p.gurmukhi is Some {
        order_by_gurmukhi()
    } else if p.transliteration is Some {
        order_by_transliteration()
    } else {
        Seq::empty()
    }
}

/// The full statement text generated for a filter set.
pub open spec fn sql_of(p: QueryParams) -> Seq<char> {
    select_with(conds_of(p)) + order_clause_of(p)
}

/// The bound argument contributed by the collection filter: its
/// canonical string form.
pub open spec fn scripture_arg(o: Option<Scripture>) -> Seq<ValueModel> {
    match o {
        Some(s) => seq![ValueModel::Text(spec_scripture_name(s))],
        None => Seq::empty(),
    }
}

/// The bound argument contributed by an integer filter.
pub open spec fn int_arg(o: Option<i16>) -> Seq<ValueModel> {
    match o {
        Some(n) => seq![ValueModel::Int(n as int)],
        None => Seq::empty(),
    }
}

/// The bound argument contributed by a text filter: the user's input
/// with the trailing wildcard embedded in the bound value itself, never
/// concatenated into the statement text.
pub open spec fn text_arg(o: Option<String>) -> Seq<ValueModel> {
    match o {
        Some(t) => seq![ValueModel::Text(t@ + "%"@)],
        None => Seq::empty(),
    }
}

/// The ordered argument list generated for a filter set, one argument
/// per present filter, in the fixed field order.
pub open spec fn args_of(p: QueryParams) -> Seq<ValueModel> {
    scripture_arg(p.scripture) + int_arg(p.page) + int_arg(p.hymn) + text_arg(p.gurmukhi)
        + text_arg(p.transliteration)
}

} // verus!

use crate::params::Scripture;
use vstd::string::StringExecFns;

verus! {

/// Appending one more condition extends the statement by the proper
/// join keyword: ` WHERE ` for the first condition, ` AND ` for every
/// subsequent one.
pub(crate) proof fn lemma_select_with_push(cs: Seq<Seq<char>>, c: Seq<char>)
    ensures
        select_with(cs.push(c)) == select_with(cs) + (
        if cs.len() == 0 {
            where_keyword()
        } else {
            and_keyword()
        }) + c,
{
    assert(cs.push(c).drop_last() =~= cs);
    assert(cs.push(c).last() == c);
}

/// Folds one condition into the `WHERE`-clause accumulator: the first
/// present filter is joined with ` WHERE `, every subsequent one with
/// ` AND `.
fn append_condition(sql: &mut String, first: &mut bool, cond: &str)
    ensures
        final(sql)@ == old(sql)@ + (
        if *old(first) {
            where_keyword()
        } else {
            and_keyword()
        }) + cond@,
        *final(first) == false,
{
    if *first {
        *first = false;
        sql.append(" WHERE ");
    } else {
        sql.append(" AND ");
    }
    sql.append(cond);
}

/// Translates a sparse filter set into the statement text and the
/// ordered argument list to bind to it.
///
/// The text is exactly `sql_of(params)` — a function of which filters
/// are present alone — and the arguments are exactly `args_of(params)`,
/// one per present filter, in the fixed field order.
pub fn construct_query(params: QueryParams) -> (r: (String, Vec<Value>))
    ensures
        r.0@ == sql_of(params),
        r.1.deep_view() == args_of(params),
{
    let QueryParams { scripture, page, hymn, gurmukhi, transliteration } = params;
    let has_gurmukhi = gurmukhi.is_some();
    let has_transliteration = transliteration.is_some();

    let mut sql = "SELECT * FROM scriptures".to_owned();
    let mut args: Vec<Value> = Vec::new();
    let mut first = true;
    let ghost mut conds: Seq<Seq<char>> = Seq::empty();

    if let Some(s) = scripture {
        proof {
            lemma_select_with_push(conds, scripture_cond());
            conds = conds.push(scripture_cond());
        }
        append_condition(&mut sql, &mut first, "(scripture = ?)");
        args.push(Value::Text(s.name().to_owned()));
    }
    proof {
        assert(first == (conds.len() == 0));
        assert(conds =~= opt_cond(params.scripture is Some, scripture_cond()));
        assert(args.deep_view() =~= scripture_arg(params.scripture));
        assert(sql@ == select_with(conds));
    }

    if let Some(p) = page {
        proof {
            lemma_select_with_push(conds, page_cond());
            conds = conds.push(page_cond());
        }
        append_condition(&mut sql, &mut first, "(page = ?)");
        args.push(Value::Int(p as i64));
    }
    proof {
        assert(first == (conds.len() == 0));
        assert(conds =~= opt_cond(params.scripture is Some, scripture_cond()) + opt_cond(
            params.page is Some,
            page_cond(),
        ));
        assert(args.deep_view() =~= scripture_arg(params.scripture) + int_arg(params.page));
        assert(sql@ == select_with(conds));
    }

    if let Some(h) = hymn {
        proof {
            lemma_select_with_push(conds, hymn_cond());
            conds = conds.push(hymn_cond());
        }
        append_condition(&mut sql, &mut first, "(hymn = ?)");
        args.push(Value::Int(h as i64));
    }
    proof {
        assert(first == (conds.len() == 0));
        assert(conds =~= opt_cond(params.scripture is Some, scripture_cond()) + opt_cond(
            params.page is Some,
            page_cond(),
        ) + opt_cond(params.hymn is Some, hymn_cond()));
        assert(args.deep_view() =~= scripture_arg(params.scripture) + int_arg(params.page)
            + int_arg(params.hymn));
        assert(sql@ == select_with(conds));
    }

    if let Some(g) = gurmukhi {
        proof {
            lemma_select_with_push(conds, gurmukhi_cond());
            conds = conds.push(gurmukhi_cond());
        }
        append_condition(&mut sql, &mut first, "(gurmukhi_search LIKE ?)");
        args.push(Value::Text(g.concat("%")));
    }
    proof {
        assert(first == (conds.len() == 0));
        assert(conds =~= opt_cond(params.scripture is Some, scripture_cond()) + opt_cond(
            params.page is Some,
            page_cond(),
        ) + opt_cond(params.hymn is Some, hymn_cond()) + opt_cond(
            params.gurmukhi is Some,
            gurmukhi_cond(),
        ));
        assert(args.deep_view() =~= scripture_arg(params.scripture) + int_arg(params.page)
            + int_arg(params.hymn) + text_arg(params.gurmukhi));
        assert(sql@ == select_with(conds));
    }

    if let Some(t) = transliteration {
        proof {
            lemma_select_with_push(conds, transliteration_cond());
            conds = conds.push(transliteration_cond());
        }
        append_condition(&mut sql, &mut first, "(transliteration_search LIKE ?)");
        args.push(Value::Text(t.concat("%")));
    }
    proof {
        assert(conds =~= conds_of(params));
        assert(args.deep_view() =~= args_of(params));
        assert(sql@ == select_with(conds_of(params)));
    }

    if has_gurmukhi && has_transliteration {
        sql.append(" ORDER BY length(gurmukhi_search) ASC, length(transliteration_search) ASC");
    } else if has_gurmukhi {
        sql.append(" ORDER BY length(gurmukhi_search) ASC");
    } else if has_transliteration {
        sql.append(" ORDER BY length(transliteration_search) ASC");
    }
    assert(sql@ =~= sql_of(params));

    (sql, args)
}

} // verus!
