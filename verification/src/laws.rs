//! The statement-shape laws: what the generated SQL text looks like for
//! every filter set, counted token by token.
//!
//! These lemmas pin down, over the builder's model, that the `WHERE`
//! keyword appears exactly when a filter is present, that `n` conditions
//! are joined by exactly `n - 1` ` AND ` keywords, that `LIKE` appears
//! once per text filter and never for an equality filter, and that no
//! quote, semicolon or wildcard ever reaches the statement text.

use vstd::prelude::*;

use crate::builder::and_keyword;
use crate::builder::args_of;
use crate::builder::base_sql;
use crate::builder::conds_of;
use crate::builder::count_present;
use crate::builder::gurmukhi_cond;
use crate::builder::hymn_cond;
use crate::builder::join_conds;
use crate::builder::opt_cond;
use crate::builder::order_by_both;
use crate::builder::order_by_gurmukhi;
use crate::builder::order_by_transliteration;
use crate::builder::order_clause_of;
use crate::builder::page_cond;
use crate::builder::scripture_cond;
use crate::builder::select_with;
use crate::builder::sql_of;
use crate::builder::transliteration_cond;
use crate::builder::where_clause_of;
use crate::builder::where_keyword;
use crate::params::QueryParams;
use crate::text::char_free;
use crate::text::count_occ;
use crate::text::lemma_count_concat;
use crate::text::lemma_count_none;
use crate::text::lemma_count_single;
use crate::text::lemma_no_char_concat;
use crate::text::lemma_no_straddle_first;
use crate::text::lemma_no_straddle_last;
use crate::text::lemma_occurs_chars;
use crate::text::no_char;
use crate::text::occurs_at;

verus! {

/// The prefix-match operator token.
pub open spec fn like_pat() -> Seq<char> {
    "LIKE"@
}

/// The text holds none of the characters an attacker would smuggle in:
/// no quote, no statement separator, no wildcard.
pub open spec fn clean_chars(s: Seq<char>) -> bool {
    no_char(s, '\'') && no_char(s, ';') && no_char(s, '%')
}

/// A condition comparing a column by equality.
pub open spec fn is_equality_cond(c: Seq<char>) -> bool {
    c == scripture_cond() || c == page_cond() || c == hymn_cond()
}

/// A condition prefix-matching one of the dedicated search columns.
pub open spec fn is_text_cond(c: Seq<char>) -> bool {
    c == gurmukhi_cond() || c == transliteration_cond()
}

/// Any condition the builder ever emits.
pub open spec fn is_cond_fragment(c: Seq<char>) -> bool {
    is_equality_cond(c) || is_text_cond(c)
}

/// A pattern with a character the text lacks occurs nowhere in it.
proof fn lemma_no_occurrence_by_char(s: Seq<char>, pat: Seq<char>, k: int, w: char)
    requires
        0 <= k < pat.len(),
        pat[k] == w,
        no_char(s, w),
    ensures
        forall|j: int| !occurs_at(s, pat, j),
        count_occ(s, pat) == 0,
{
    assert forall|j: int| !occurs_at(s, pat, j) by {
        if occurs_at(s, pat, j) {
            lemma_occurs_chars(s, pat, j);
            assert(s[j + k] == pat[k]);
        }
    }
    lemma_count_none(s, pat);
}

/// A pattern with a character the text holds at exactly one position
/// occurs exactly once, at the position that lines the two up.
proof fn lemma_single_occurrence_by_char(s: Seq<char>, pat: Seq<char>, at: int, k: int, w: char)
    requires
        pat.len() > 0,
        0 <= k < pat.len(),
        pat[k] == w,
        occurs_at(s, pat, at),
        forall|p: int| 0 <= p < s.len() && p != at + k ==> s[p] != w,
    ensures
        count_occ(s, pat) == 1,
{
    assert forall|j: int| j != at implies !occurs_at(s, pat, j) by {
        if occurs_at(s, pat, j) {
            lemma_occurs_chars(s, pat, j);
            assert(s[j + k] == pat[k]);
        }
    }
    lemma_count_single(s, pat, at);
}

/// Character-level facts about the three counted tokens.
proof fn lemma_pattern_facts()
    ensures
        and_keyword().len() == 5,
        where_keyword().len() == 7,
        like_pat().len() == 4,
        char_free(and_keyword(), '('),
        char_free(and_keyword(), ')'),
        char_free(and_keyword(), 's'),
        char_free(where_keyword(), '('),
        char_free(where_keyword(), ')'),
        char_free(where_keyword(), 's'),
        char_free(like_pat(), '('),
        char_free(like_pat(), ')'),
        char_free(like_pat(), 's'),
        count_occ(and_keyword(), and_keyword()) == 1,
        count_occ(and_keyword(), where_keyword()) == 0,
        count_occ(and_keyword(), like_pat()) == 0,
        count_occ(where_keyword(), where_keyword()) == 1,
        count_occ(where_keyword(), and_keyword()) == 0,
        count_occ(where_keyword(), like_pat()) == 0,
        clean_chars(and_keyword()),
        clean_chars(where_keyword()),
        and_keyword().last() == ' ',
        where_keyword().last() == ' ',
{
    reveal_strlit(" AND ");
    reveal_strlit(" WHERE ");
    reveal_strlit("LIKE");
    assert(and_keyword().subrange(0, 5) =~= and_keyword());
    assert(forall|p: int| 0 <= p < and_keyword().len() && p != 1 ==> and_keyword()[p] != 'A');
    lemma_single_occurrence_by_char(and_keyword(), and_keyword(), 0, 1, 'A');
    lemma_no_occurrence_by_char(and_keyword(), where_keyword(), 1, 'W');
    lemma_no_occurrence_by_char(and_keyword(), like_pat(), 0, 'L');
    assert(where_keyword().subrange(0, 7) =~= where_keyword());
    assert(forall|p: int| 0 <= p < where_keyword().len() && p != 1 ==> where_keyword()[p] != 'W');
    lemma_single_occurrence_by_char(where_keyword(), where_keyword(), 0, 1, 'W');
    lemma_no_occurrence_by_char(where_keyword(), and_keyword(), 1, 'A');
    lemma_no_occurrence_by_char(where_keyword(), like_pat(), 0, 'L');
}

/// Character-level facts about the base statement.
proof fn lemma_base_facts()
    ensures
        base_sql().len() == 24,
        base_sql().last() == 's',
        count_occ(base_sql(), and_keyword()) == 0,
        count_occ(base_sql(), where_keyword()) == 0,
        count_occ(base_sql(), like_pat()) == 0,
        clean_chars(base_sql()),
{
    reveal_strlit("SELECT * FROM scriptures");
    reveal_strlit(" AND ");
    reveal_strlit(" WHERE ");
    reveal_strlit("LIKE");
    lemma_no_occurrence_by_char(base_sql(), and_keyword(), 1, 'A');
    lemma_no_occurrence_by_char(base_sql(), where_keyword(), 1, 'W');
    lemma_no_occurrence_by_char(base_sql(), like_pat(), 2, 'K');
}

/// Character-level facts that hold of every condition fragment: it is
/// parenthesized, free of smuggled characters and join keywords, and
/// holds the `LIKE` token exactly when it is a prefix-match condition.
proof fn lemma_fragment_facts(c: Seq<char>)
    requires
        is_cond_fragment(c),
    ensures
        c.len() > 0,
        c[0] == '(',
        c.last() == ')',
        count_occ(c, and_keyword()) == 0,
        count_occ(c, where_keyword()) == 0,
        count_occ(c, like_pat()) == (if is_text_cond(c) {
            1int
        } else {
            0
        }),
        clean_chars(c),
{
    reveal_strlit(" AND ");
    reveal_strlit(" WHERE ");
    reveal_strlit("LIKE");
    reveal_strlit("(scripture = ?)");
    reveal_strlit("(page = ?)");
    reveal_strlit("(hymn = ?)");
    reveal_strlit("(gurmukhi_search LIKE ?)");
    reveal_strlit("(transliteration_search LIKE ?)");
    if c == scripture_cond() {
        lemma_no_occurrence_by_char(c, and_keyword(), 1, 'A');
        lemma_no_occurrence_by_char(c, where_keyword(), 1, 'W');
        lemma_no_occurrence_by_char(c, like_pat(), 2, 'K');
    } else if c == page_cond() {
        lemma_no_occurrence_by_char(c, and_keyword(), 1, 'A');
        lemma_no_occurrence_by_char(c, where_keyword(), 1, 'W');
        lemma_no_occurrence_by_char(c, like_pat(), 2, 'K');
    } else if c == hymn_cond() {
        lemma_no_occurrence_by_char(c, and_keyword(), 1, 'A');
        lemma_no_occurrence_by_char(c, where_keyword(), 1, 'W');
        lemma_no_occurrence_by_char(c, like_pat(), 2, 'K');
    } else if c == gurmukhi_cond() {
        lemma_no_occurrence_by_char(c, and_keyword(), 1, 'A');
        lemma_no_occurrence_by_char(c, where_keyword(), 1, 'W');
        assert(c.subrange(17, 21) =~= like_pat());
        assert(forall|p: int| 0 <= p < c.len() && p != 19 ==> c[p] != 'K');
        lemma_single_occurrence_by_char(c, like_pat(), 17, 2, 'K');
    } else {
        lemma_no_occurrence_by_char(c, and_keyword(), 1, 'A');
        lemma_no_occurrence_by_char(c, where_keyword(), 1, 'W');
        assert(c.subrange(24, 28) =~= like_pat());
        assert(forall|p: int| 0 <= p < c.len() && p != 26 ==> c[p] != 'K');
        lemma_single_occurrence_by_char(c, like_pat(), 24, 2, 'K');
    }
}

/// Character-level facts about the three relevance-ordering clauses.
proof fn lemma_order_facts(o: Seq<char>)
    requires
        o == order_by_gurmukhi() || o == order_by_transliteration() || o == order_by_both(),
    ensures
        count_occ(o, and_keyword()) == 0,
        count_occ(o, where_keyword()) == 0,
        count_occ(o, like_pat()) == 0,
        clean_chars(o),
{
    reveal_strlit(" AND ");
    reveal_strlit(" WHERE ");
    reveal_strlit("LIKE");
    reveal_strlit(" ORDER BY length(gurmukhi_search) ASC");
    reveal_strlit(" ORDER BY length(transliteration_search) ASC");
    reveal_strlit(" ORDER BY length(gurmukhi_search) ASC, length(transliteration_search) ASC");
    lemma_no_occurrence_by_char(o, and_keyword(), 2, 'N');
    lemma_no_occurrence_by_char(o, where_keyword(), 1, 'W');
    lemma_no_occurrence_by_char(o, like_pat(), 2, 'K');
}

/// The five condition fragments sort into the two operator classes: the
/// three equality conditions and the two search-column prefix matches.
proof fn lemma_fragment_classes()
    ensures
        is_cond_fragment(scripture_cond()),
        !is_text_cond(scripture_cond()),
        is_cond_fragment(page_cond()),
        !is_text_cond(page_cond()),
        is_cond_fragment(hymn_cond()),
        !is_text_cond(hymn_cond()),
        is_text_cond(gurmukhi_cond()),
        is_text_cond(transliteration_cond()),
{
    reveal_strlit("(scripture = ?)");
    reveal_strlit("(page = ?)");
    reveal_strlit("(hymn = ?)");
    reveal_strlit("(gurmukhi_search LIKE ?)");
    reveal_strlit("(transliteration_search LIKE ?)");
    assert(scripture_cond().len() == 15);
    assert(page_cond().len() == 10);
    assert(hymn_cond().len() == 10);
    assert(gurmukhi_cond().len() == 24);
    assert(transliteration_cond().len() == 31);
}

/// Extending the statement by one condition adds one join keyword —
/// ` WHERE ` for the first condition, ` AND ` for every later one — and
/// the condition's own tokens, and nothing else: concatenation creates
/// no token across the seams.
proof fn lemma_select_with_step(cs: Seq<Seq<char>>, c: Seq<char>)
    requires
        is_cond_fragment(c),
        select_with(cs).len() > 0,
        select_with(cs).last() == ')' || select_with(cs).last() == 's',
    ensures
        select_with(cs.push(c)).len() > 0,
        select_with(cs.push(c)).last() == ')',
        count_occ(select_with(cs.push(c)), and_keyword()) == count_occ(
            select_with(cs),
            and_keyword(),
        ) + (if cs.len() == 0 {
            0int
        } else {
            1
        }),
        count_occ(select_with(cs.push(c)), where_keyword()) == count_occ(
            select_with(cs),
            where_keyword(),
        ) + (if cs.len() == 0 {
            1int
        } else {
            0
        }),
        count_occ(select_with(cs.push(c)), like_pat()) == count_occ(select_with(cs), like_pat())
            + (if is_text_cond(c) {
            1int
        } else {
            0
        }),
        clean_chars(select_with(cs)) ==> clean_chars(select_with(cs.push(c))),
{
    lemma_pattern_facts();
    lemma_fragment_facts(c);
    crate::builder::lemma_select_with_push(cs, c);
    let x = select_with(cs);
    let sep = if cs.len() == 0 {
        where_keyword()
    } else {
        and_keyword()
    };
    assert(select_with(cs.push(c)) == x + sep + c);
    lemma_no_straddle_last(x, sep, and_keyword());
    lemma_no_straddle_last(x, sep, where_keyword());
    lemma_no_straddle_last(x, sep, like_pat());
    lemma_count_concat(x, sep, and_keyword());
    lemma_count_concat(x, sep, where_keyword());
    lemma_count_concat(x, sep, like_pat());
    lemma_no_straddle_first(x + sep, c, and_keyword());
    lemma_no_straddle_first(x + sep, c, where_keyword());
    lemma_no_straddle_first(x + sep, c, like_pat());
    lemma_count_concat(x + sep, c, and_keyword());
    lemma_count_concat(x + sep, c, where_keyword());
    lemma_count_concat(x + sep, c, like_pat());
    assert((x + sep + c).last() == c.last());
    if clean_chars(x) {
        lemma_no_char_concat(x, sep, '\'');
        lemma_no_char_concat(x, sep, ';');
        lemma_no_char_concat(x, sep, '%');
        lemma_no_char_concat(x + sep, c, '\'');
        lemma_no_char_concat(x + sep, c, ';');
        lemma_no_char_concat(x + sep, c, '%');
    }
}

/// The counted tokens of the conditioned statement, for every filter
/// set: one `WHERE` keyword as soon as a filter is present, one ` AND `
/// join per condition beyond the first, one `LIKE` per text filter, and
/// never a quote, semicolon or wildcard.
proof fn lemma_conds_counts(p: QueryParams)
    ensures
        select_with(conds_of(p)).len() > 0,
        select_with(conds_of(p)).last() == ')' || select_with(conds_of(p)).last() == 's',
        count_occ(select_with(conds_of(p)), where_keyword()) == (if count_present(p) == 0 {
            0int
        } else {
            1
        }),
        count_occ(select_with(conds_of(p)), and_keyword()) == (if count_present(p) == 0 {
            0int
        } else {
            count_present(p) - 1
        }),
        count_occ(select_with(conds_of(p)), like_pat()) == (if p.gurmukhi is Some {
            1int
        } else {
            0
        }) + (if p.transliteration is Some {
            1int
        } else {
            0
        }),
        clean_chars(select_with(conds_of(p))),
        forall|i: int| 0 <= i < conds_of(p).len() ==> is_cond_fragment(#[trigger] conds_of(p)[i]),
{
    lemma_base_facts();
    lemma_pattern_facts();
    lemma_fragment_classes();
    let mut cs: Seq<Seq<char>> = Seq::empty();
    assert(select_with(cs) == base_sql());

    if p.scripture is Some {
        lemma_select_with_step(cs, scripture_cond());
        cs = cs.push(scripture_cond());
    }
    assert(cs =~= opt_cond(p.scripture is Some, scripture_cond()));

    if p.page is Some {
        lemma_select_with_step(cs, page_cond());
        cs = cs.push(page_cond());
    }
    assert(cs =~= opt_cond(p.scripture is Some, scripture_cond()) + opt_cond(
        p.page is Some,
        page_cond(),
    ));

    if p.hymn is Some {
        lemma_select_with_step(cs, hymn_cond());
        cs = cs.push(hymn_cond());
    }
    assert(cs =~= opt_cond(p.scripture is Some, scripture_cond()) + opt_cond(
        p.page is Some,
        page_cond(),
    ) + opt_cond(p.hymn is Some, hymn_cond()));

    if p.gurmukhi is Some {
        lemma_select_with_step(cs, gurmukhi_cond());
        cs = cs.push(gurmukhi_cond());
    }
    assert(cs =~= opt_cond(p.scripture is Some, scripture_cond()) + opt_cond(
        p.page is Some,
        page_cond(),
    ) + opt_cond(p.hymn is Some, hymn_cond()) + opt_cond(p.gurmukhi is Some, gurmukhi_cond()));

    if p.transliteration is Some {
        lemma_select_with_step(cs, transliteration_cond());
        cs = cs.push(transliteration_cond());
    }
    assert(cs =~= conds_of(p));

    assert forall|i: int| 0 <= i < conds_of(p).len() implies is_cond_fragment(
        #[trigger] conds_of(p)[i],
    ) by {
        assert(conds_of(p)[i] == cs[i]);
    }
}

/// The order clause adds no counted token: the statement's keyword
/// counts are decided by the conditions alone.
proof fn lemma_sql_of_counts(p: QueryParams)
    ensures
        count_occ(sql_of(p), and_keyword()) == count_occ(select_with(conds_of(p)), and_keyword()),
        count_occ(sql_of(p), where_keyword()) == count_occ(
            select_with(conds_of(p)),
            where_keyword(),
        ),
        count_occ(sql_of(p), like_pat()) == count_occ(select_with(conds_of(p)), like_pat()),
        clean_chars(select_with(conds_of(p))) ==> clean_chars(sql_of(p)),
{
    lemma_pattern_facts();
    lemma_conds_counts(p);
    let sw = select_with(conds_of(p));
    let o = order_clause_of(p);
    if p.gurmukhi is Some || p.transliteration is Some {
        lemma_order_facts(o);
        lemma_no_straddle_last(sw, o, and_keyword());
        lemma_no_straddle_last(sw, o, where_keyword());
        lemma_no_straddle_last(sw, o, like_pat());
        lemma_count_concat(sw, o, and_keyword());
        lemma_count_concat(sw, o, where_keyword());
        lemma_count_concat(sw, o, like_pat());
        if clean_chars(sw) {
            lemma_no_char_concat(sw, o, '\'');
            lemma_no_char_concat(sw, o, ';');
            lemma_no_char_concat(sw, o, '%');
        }
    } else {
        assert(sql_of(p) =~= sw);
    }
}

/// The statement carries one bound argument, and one condition, per
/// present filter — for every filter subset, including the empty one.
pub proof fn lemma_one_argument_per_filter(p: QueryParams)
    ensures
        args_of(p).len() == count_present(p),
        conds_of(p).len() == count_present(p),
{
}

/// With no filter the statement is the bare unconditioned SELECT; as
/// soon as a filter is present the `WHERE` keyword appears exactly once,
/// and `n` conditions are joined by exactly `n - 1` ` AND ` keywords.
pub proof fn lemma_keyword_counts(p: QueryParams)
    ensures
        count_present(p) == 0 ==> sql_of(p) == base_sql(),
        count_occ(sql_of(p), where_keyword()) == (if count_present(p) == 0 {
            0int
        } else {
            1
        }),
        count_occ(sql_of(p), and_keyword()) == (if count_present(p) == 0 {
            0int
        } else {
            count_present(p) - 1
        }),
{
    lemma_conds_counts(p);
    lemma_sql_of_counts(p);
    if count_present(p) == 0 {
        assert(conds_of(p) =~= Seq::<Seq<char>>::empty());
        assert(sql_of(p) =~= base_sql());
    }
}

/// The `LIKE` operator appears exactly once per text filter: an
/// equality filter never attaches one, and each text filter's condition
/// is one of the two search-column prefix fragments.
pub proof fn lemma_operator_choice(p: QueryParams)
    ensures
        count_occ(sql_of(p), like_pat()) == (if p.gurmukhi is Some {
            1int
        } else {
            0
        }) + (if p.transliteration is Some {
            1int
        } else {
            0
        }),
        forall|i: int| 0 <= i < conds_of(p).len() ==> is_cond_fragment(#[trigger] conds_of(p)[i]),
{
    lemma_conds_counts(p);
    lemma_sql_of_counts(p);
}

/// Injection safety: whatever the filter values hold, the statement
/// text itself never holds a quote, a semicolon or a wildcard — those
/// characters can reach the store only inside the bound argument list.
pub proof fn lemma_injection_safe(p: QueryParams)
    ensures
        no_char(sql_of(p), '\''),
        no_char(sql_of(p), ';'),
        no_char(sql_of(p), '%'),
{
    lemma_conds_counts(p);
    lemma_sql_of_counts(p);
}

/// The statement text is blind to the filter values: two filter sets
/// with the same fields present produce the same text, letter for
/// letter, however their values differ.
pub proof fn lemma_statement_blind_to_values(p1: QueryParams, p2: QueryParams)
    requires
        (p1.scripture is Some) == (p2.scripture is Some),
        (p1.page is Some) == (p2.page is Some),
        (p1.hymn is Some) == (p2.hymn is Some),
        (p1.gurmukhi is Some) == (p2.gurmukhi is Some),
        (p1.transliteration is Some) == (p2.transliteration is Some),
    ensures
        sql_of(p1) == sql_of(p2),
{
    assert(conds_of(p1) == conds_of(p2));
    assert(order_clause_of(p1) == order_clause_of(p2));
}

/// The conditioned statement decomposes into the base SELECT followed by
/// the `WHERE` clause.
proof fn lemma_select_with_decomposes(cs: Seq<Seq<char>>)
    ensures
        select_with(cs) == base_sql() + where_clause_of(cs),
    decreases cs.len(),
{
    if cs.len() == 0 {
        assert(base_sql() + where_clause_of(cs) =~= base_sql());
    } else if cs.len() == 1 {
        assert(cs.drop_last().len() == 0);
        assert(select_with(cs.drop_last()) == base_sql());
        assert(join_conds(cs) == cs[0]);
        assert(select_with(cs) == base_sql() + where_keyword() + cs.last());
        assert(select_with(cs) =~= base_sql() + where_clause_of(cs));
    } else {
        lemma_select_with_decomposes(cs.drop_last());
        assert(join_conds(cs) == join_conds(cs.drop_last()) + and_keyword() + cs.last());
        assert(where_clause_of(cs.drop_last()) == where_keyword() + join_conds(cs.drop_last()));
        assert(select_with(cs) == select_with(cs.drop_last()) + and_keyword() + cs.last());
        assert(select_with(cs) =~= base_sql() + where_clause_of(cs));
    }
}

/// The statement text is the base SELECT, then the `WHERE` clause —
/// empty with no filter, otherwise ` WHERE ` followed by the ` AND `-
/// joined conditions — then the order clause.
pub proof fn lemma_statement_shape(p: QueryParams)
    ensures
        sql_of(p) == base_sql() + where_clause_of(conds_of(p)) + order_clause_of(p),
        conds_of(p).len() == 0 ==> where_clause_of(conds_of(p)) == Seq::<char>::empty(),
        conds_of(p).len() > 0 ==> where_clause_of(conds_of(p)) == where_keyword() + join_conds(
            conds_of(p),
        ),
{
    lemma_select_with_decomposes(conds_of(p));
}

} // verus!
