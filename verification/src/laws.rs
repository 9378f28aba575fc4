//! The library's stated laws: properties of the accumulator, the resolver
//! and the walker that hold for every input, each proved against the model
//! in `crate::model`.
use crate::ast::{CallArg, LineageError, Projection, QueryBody, TableRef, ValueExpr};
use crate::model::{
    add_dep, ascii_lower, call_opacity, cat_find_in_table, find_row, finish_projection,
    init_state, is_aggregate, lemma_step_unfold, resolve_in_body, resolve_in_tables, resolve_ref,
    search_add, step_projection, walk_body, walk_projections, DepRowV, WalkStateV,
};
use crate::FullColumn;
use vstd::prelude::*;

verus! {

broadcast use vstd::seq::group_seq_axioms, vstd::std_specs::vec::group_vec_axioms;

/// Rows that do not carry the key do not change where it is found.
pub proof fn lemma_find_row_skip(m: Seq<DepRowV>, key: Seq<char>, i: int, j: int)
    requires
        0 <= i <= j <= m.len(),
        forall|k: int| i <= k < j ==> m[k].output != key,
    ensures
        find_row(m, key, i) == find_row(m, key, j),
    decreases j - i,
{
    if i < j {
        lemma_find_row_skip(m, key, i + 1, j);
    }
}

/// A found row carries the key, lies in range, and no earlier row carries it.
pub proof fn lemma_find_row_some(m: Seq<DepRowV>, key: Seq<char>, i: int, j: int)
    requires
        0 <= i,
        find_row(m, key, i) == Some(j),
    ensures
        i <= j < m.len(),
        m[j].output == key,
        forall|k: int| i <= k < j ==> m[k].output != key,
    decreases m.len() - i,
{
    if i < m.len() && m[i].output != key {
        lemma_find_row_some(m, key, i + 1, j);
    }
}

/// When nothing is found, no row at or after `i` carries the key.
pub proof fn lemma_find_row_none(m: Seq<DepRowV>, key: Seq<char>, i: int)
    requires
        0 <= i,
        find_row(m, key, i) is None,
    ensures
        forall|k: int| i <= k < m.len() ==> m[k].output != key,
    decreases m.len() - i,
{
    if i < m.len() {
        lemma_find_row_none(m, key, i + 1);
    }
}

/// Idempotent membership: recording the same `(output, upstream)` pair a
/// second time changes nothing, whatever opacity the second write carries.
pub proof fn lemma_add_dependency_idempotent(
    m: Seq<DepRowV>,
    key: Seq<char>,
    up: Seq<char>,
    o1: bool,
    o2: bool,
)
    ensures
        add_dep(add_dep(m, key, up, o1), key, up, o2) == add_dep(m, key, up, o1),
{
    let m1 = add_dep(m, key, up, o1);
    match find_row(m, key, 0) {
        None => {
            lemma_find_row_none(m, key, 0);
            assert(forall|k: int| 0 <= k < m.len() ==> m1[k] == m[k]);
            lemma_find_row_skip(m1, key, 0, m.len() as int);
            assert(find_row(m1, key, m.len() as int) == Some(m.len() as int));
            assert(m1[m.len() as int].upstream.contains(up)) by {
                assert(m1[m.len() as int].upstream[0] == up);
            }
        },
        Some(j) => {
            lemma_find_row_some(m, key, 0, j);
            if m[j].upstream.contains(up) {
                assert(m1 == m);
            } else {
                assert(forall|k: int| 0 <= k < j ==> m1[k] == m[k]);
                lemma_find_row_skip(m1, key, 0, j);
                assert(find_row(m1, key, j) == Some(j));
                assert(m1[j].upstream.contains(up)) by {
                    assert(m1[j].upstream[m[j].upstream.len() as int] == up);
                }
            }
        },
    }
}

/// Order preservation: one accumulation step never reorders anything; every
/// existing entry keeps its position and its output name, and its upstream
/// list is either untouched or the old list with the new identifier appended.
pub proof fn lemma_add_dependency_preserves_order(
    m: Seq<DepRowV>,
    key: Seq<char>,
    up: Seq<char>,
    opaque: bool,
)
    ensures
        add_dep(m, key, up, opaque).len() >= m.len(),
        forall|k: int| 0 <= k < m.len() ==> add_dep(m, key, up, opaque)[k].output == m[k].output,
        forall|k: int|
            0 <= k < m.len() ==> (add_dep(m, key, up, opaque)[k].upstream == m[k].upstream
                || add_dep(m, key, up, opaque)[k].upstream == m[k].upstream.push(up)),
{
    let m2 = add_dep(m, key, up, opaque);
    match find_row(m, key, 0) {
        None => {
            assert(forall|k: int| 0 <= k < m.len() ==> m2[k] == m[k]);
        },
        Some(j) => {
            lemma_find_row_some(m, key, 0, j);
            if m[j].upstream.contains(up) {
                assert(m2 == m);
            } else {
                assert(m2[j].output == m[j].output);
                assert(m2[j].upstream == m[j].upstream.push(up));
                assert(forall|k: int| 0 <= k < m.len() && k != j ==> m2[k] == m[k]);
            }
        },
    }
}

/// Unresolvable reference produces no change: when resolution finds no
/// catalog match, the resolve-and-record step returns the map exactly as it
/// was, and no error is raised.
pub proof fn lemma_unresolved_reference_no_effect(
    cat: Seq<FullColumn>,
    from: Seq<TableRef>,
    rows: Seq<DepRowV>,
    col: Seq<char>,
    alias: Option<Seq<char>>,
    hint: Option<Seq<char>>,
    opaque: bool,
)
    requires
        resolve_ref(cat, from, col, hint) == Ok::<Option<Seq<char>>, LineageError>(None),
    ensures
        search_add(cat, from, rows, col, alias, hint, opaque) == Ok::<
            Seq<DepRowV>,
            LineageError,
        >(rows),
{
}

/// The catalog scan for an unqualified reference returns the first matching
/// record; with exactly one match, it returns that record.
pub proof fn lemma_cat_find_first_match(
    cat: Seq<FullColumn>,
    col: Seq<char>,
    table: Seq<char>,
    schema: Option<Seq<char>>,
    i: int,
    j: int,
)
    requires
        0 <= i <= j < cat.len(),
        cat[j].column_name@ == col,
        cat[j].table_name@ == table,
        (match schema {
            Some(s) => cat[j].schema_name@ == s,
            None => true,
        }),
        forall|k: int|
            i <= k < j ==> !(cat[k].column_name@ == col && cat[k].table_name@ == table && (
            match schema {
                Some(s) => cat[k].schema_name@ == s,
                None => true,
            })),
    ensures
        cat_find_in_table(cat, col, table, schema, i) == Some(cat[j].fq_id()),
    decreases j - i,
{
    if i < j {
        lemma_cat_find_first_match(cat, col, table, schema, i + 1, j);
    }
}

/// Unqualified resolution correctness: when the catalog's only record
/// matching `(table, col)` is record `j`, and the scope is that one base
/// table written without a schema qualifier, an unqualified reference
/// resolves to exactly that record's fully-qualified identifier.
pub proof fn lemma_unqualified_resolution(
    cat: Seq<FullColumn>,
    from: Seq<TableRef>,
    table: Seq<char>,
    col: Seq<char>,
    j: int,
)
    requires
        from.len() == 1,
        (match from[0] {
            TableRef::Base { parts } => parts.len() == 1 && parts[0]@ == table,
            _ => false,
        }),
        0 <= j < cat.len(),
        cat[j].column_name@ == col,
        cat[j].table_name@ == table,
        forall|k: int|
            0 <= k < cat.len() && k != j ==> !(cat[k].column_name@ == col && cat[k].table_name@
                == table),
    ensures
        resolve_ref(cat, from, col, None) == Ok::<Option<Seq<char>>, LineageError>(
            Some(cat[j].fq_id()),
        ),
{
    lemma_cat_find_first_match(cat, col, table, None, 0, j);
}

/// Derived-table resolution: a scope holding one derived table resolves
/// exactly as the subquery's own body does; no alias or base-table name takes
/// part in the resolution.
pub proof fn lemma_derived_resolution(cat: Seq<FullColumn>, from: Seq<TableRef>, col: Seq<char>)
    requires
        from.len() == 1,
        from[0] is Derived,
    ensures
        (match from[0] {
            TableRef::Derived { body } => resolve_ref(cat, from, col, None) == resolve_in_body(
                cat,
                *body,
                col,
            ),
            _ => true,
        }),
{
    assert(resolve_in_tables(cat, from, col, 1) == Ok::<Option<Seq<char>>, LineageError>(None));
    match from[0] {
        TableRef::Derived { body } => {
            match resolve_in_body(cat, *body, col) {
                Err(e) => {
                    assert(resolve_in_tables(cat, from, col, 0) == Err::<
                        Option<Seq<char>>,
                        LineageError,
                    >(e));
                },
                Ok(o) => {
                    assert(resolve_in_tables(cat, from, col, 0) == Ok::<
                        Option<Seq<char>>,
                        LineageError,
                    >(o));
                },
            }
        },
        _ => {},
    }
}

/// Union accumulation: two distinct upstream identifiers recorded in turn
/// under one fresh output key land in a single entry, in arrival order.
pub proof fn lemma_union_accumulation(
    m: Seq<DepRowV>,
    key: Seq<char>,
    u1: Seq<char>,
    u2: Seq<char>,
    o1: bool,
    o2: bool,
)
    requires
        find_row(m, key, 0) is None,
        u1 != u2,
    ensures
        add_dep(add_dep(m, key, u1, o1), key, u2, o2).len() == m.len() + 1,
        add_dep(add_dep(m, key, u1, o1), key, u2, o2)[m.len() as int].output == key,
        add_dep(add_dep(m, key, u1, o1), key, u2, o2)[m.len() as int].upstream =~= seq![u1, u2],
        add_dep(add_dep(m, key, u1, o1), key, u2, o2)[m.len() as int].opaque == o2,
{
    let m1 = add_dep(m, key, u1, o1);
    lemma_find_row_none(m, key, 0);
    assert(forall|k: int| 0 <= k < m.len() ==> m1[k] == m[k]);
    lemma_find_row_skip(m1, key, 0, m.len() as int);
    assert(find_row(m1, key, 0) == Some(m.len() as int));
    assert(!m1[m.len() as int].upstream.contains(u2)) by {
        assert(m1[m.len() as int].upstream =~= seq![u1]);
    }
}

/// Alias renaming, transparent: a projection `<column> as <alias>` records
/// the column's resolution under the alias, with the transparent flag; the
/// column's own name gets no entry from this step.
pub proof fn lemma_alias_renaming(
    cat: Seq<FullColumn>,
    from: Seq<TableRef>,
    st: WalkStateV,
    p: Projection,
)
    requires
        (match p {
            Projection::Aliased { alias, expr } => (match expr {
                ValueExpr::Column { name } => name@.len() > 0,
                _ => false,
            }),
            _ => false,
        }),
    ensures
        (match p {
            Projection::Aliased { alias, expr } => (match expr {
                ValueExpr::Column { name } => step_projection(cat, from, st, p) == (match
                    resolve_ref(cat, from, name@, st.hint) {
                    Err(e) => Err::<WalkStateV, LineageError>(e),
                    Ok(None) => Ok(
                        WalkStateV {
                            out_col: name@,
                            alias: Some(alias@),
                            hint: st.hint,
                            rows: st.rows,
                        },
                    ),
                    Ok(Some(fq)) => Ok(
                        WalkStateV {
                            out_col: name@,
                            alias: Some(alias@),
                            hint: st.hint,
                            rows: add_dep(st.rows, alias@, fq, false),
                        },
                    ),
                }),
                _ => true,
            }),
            _ => true,
        }),
{
}

/// Opacity from aggregate: `agg(x) as n` with a recognized aggregate name,
/// met while no output-column name is pending, records x's resolution under
/// n with the opaque flag; an unresolvable x records nothing.
pub proof fn lemma_aggregate_projection(
    cat: Seq<FullColumn>,
    from: Seq<TableRef>,
    st: WalkStateV,
    p: Projection,
)
    requires
        st.out_col.len() == 0,
        (match p {
            Projection::Aliased { alias, expr } => (match expr {
                ValueExpr::Call { name_parts, args } => call_opacity(name_parts.deep_view())
                    && args.len() == 1 && (match args[0] {
                    CallArg::Value { expr: a } => (match a {
                        ValueExpr::Column { name } => true,
                        _ => false,
                    }),
                    _ => false,
                }),
                _ => false,
            }),
            _ => false,
        }),
    ensures
        (match p {
            Projection::Aliased { alias, expr } => (match expr {
                ValueExpr::Call { name_parts, args } => (match args[0] {
                    CallArg::Value { expr: a } => (match a {
                        ValueExpr::Column { name } => step_projection(cat, from, st, p) == (
                        match resolve_ref(cat, from, name@, st.hint) {
                            Err(e) => Err::<WalkStateV, LineageError>(e),
                            Ok(None) => Ok(
                                WalkStateV {
                                    out_col: st.out_col,
                                    alias: Some(alias@),
                                    hint: st.hint,
                                    rows: st.rows,
                                },
                            ),
                            Ok(Some(fq)) => Ok(
                                WalkStateV {
                                    out_col: st.out_col,
                                    alias: Some(alias@),
                                    hint: st.hint,
                                    rows: add_dep(st.rows, alias@, fq, true),
                                },
                            ),
                        }),
                        _ => true,
                    }),
                    _ => true,
                }),
                _ => true,
            }),
            _ => true,
        }),
{
    match p {
        Projection::Aliased { alias, expr } => match expr {
            ValueExpr::Call { name_parts, args } => match args[0] {
                CallArg::Value { expr: a } => match a {
                    ValueExpr::Column { name } => {
                        let al = Some(alias@);
                        let colv = crate::model::ColRefV { qualifier: None, column: name@ };
                        assert(crate::model::decompose(a) == Ok::<
                            Seq<crate::model::ColRefV>,
                            LineageError,
                        >(seq![colv]));
                        let cols = seq![colv];
                        assert(crate::model::add_cols(
                            cat,
                            from,
                            st.rows,
                            cols,
                            al,
                            st.hint,
                            true,
                            1,
                        ) == Ok::<(Seq<DepRowV>, Option<Seq<char>>), LineageError>(
                            (st.rows, st.hint),
                        ));
                        match search_add(cat, from, st.rows, name@, al, st.hint, true) {
                            Err(e) => {},
                            Ok(rows2) => {
                                assert(crate::model::add_cols(
                                    cat,
                                    from,
                                    rows2,
                                    cols,
                                    al,
                                    st.hint,
                                    true,
                                    1,
                                ) == Ok::<(Seq<DepRowV>, Option<Seq<char>>), LineageError>(
                                    (rows2, st.hint),
                                ));
                                assert(crate::model::add_args(
                                    cat,
                                    from,
                                    rows2,
                                    args@,
                                    al,
                                    st.hint,
                                    true,
                                    1,
                                ) == Ok::<(Seq<DepRowV>, Option<Seq<char>>), LineageError>(
                                    (rows2, st.hint),
                                ));
                            },
                        }
                    },
                    _ => {},
                },
                _ => {},
            },
            _ => {},
        },
        _ => {},
    }
}

/// Whether `b` is a SELECT whose whole projection list is the single bare
/// column `c`.
pub open spec fn single_bare_select(b: QueryBody, c: Seq<char>) -> bool {
    match b {
        QueryBody::Select { projection, from } => projection@.len() == 1 && (match projection@[0] {
            Projection::Bare { name } => name@ == c,
            _ => false,
        }),
        _ => false,
    }
}

/// The FROM list of a SELECT body.
pub open spec fn select_from(b: QueryBody) -> Seq<TableRef> {
    match b {
        QueryBody::Select { projection, from } => from@,
        _ => Seq::<TableRef>::empty(),
    }
}

/// Walking `select c from ...` records c's resolution under its own name,
/// transparently, and changes nothing else.
pub proof fn lemma_single_select_walk(
    cat: Seq<FullColumn>,
    b: QueryBody,
    c: Seq<char>,
    m: Seq<DepRowV>,
)
    requires
        single_bare_select(b, c),
        c.len() > 0,
    ensures
        walk_body(cat, b, m) == (match resolve_in_tables(cat, select_from(b), c, 0) {
            Err(e) => Err::<Seq<DepRowV>, LineageError>(e),
            Ok(None) => Ok(m),
            Ok(Some(fq)) => Ok(add_dep(m, c, fq, false)),
        }),
{
    match b {
        QueryBody::Select { projection, from } => {
            let st0 = init_state(m);
            lemma_step_unfold(cat, from@, projection@, 0, st0);
            match projection@[0] {
                Projection::Bare { name } => {
                    let st1 = WalkStateV {
                        out_col: name@,
                        alias: st0.alias,
                        hint: st0.hint,
                        rows: st0.rows,
                    };
                    assert(finish_projection(cat, from@, projection@, 0, st1) == (match
                        search_add(cat, from@, m, c, None, None, false) {
                        Err(e) => Err::<Seq<DepRowV>, LineageError>(e),
                        Ok(rows2) => walk_projections(
                            cat,
                            from@,
                            projection@,
                            (WalkStateV {
                                out_col: st1.out_col,
                                alias: st1.alias,
                                hint: st1.hint,
                                rows: rows2,
                            }),
                            1,
                        ),
                    }));
                },
                _ => {},
            }
        },
        _ => {},
    }
}

/// Union accumulation: walking `select c from A union all select c from B`,
/// with c fresh in the map and the two branches resolving c to two different
/// identifiers, yields one new entry under c holding both identifiers, in
/// left-branch-then-right-branch order, transparently.
pub proof fn lemma_union_all_walk(
    cat: Seq<FullColumn>,
    body: QueryBody,
    c: Seq<char>,
    m: Seq<DepRowV>,
    u1: Seq<char>,
    u2: Seq<char>,
)
    requires
        (match body {
            QueryBody::SetOp { left, right } => single_bare_select(*left, c)
                && single_bare_select(*right, c) && resolve_in_tables(
                cat,
                select_from(*left),
                c,
                0,
            ) == Ok::<Option<Seq<char>>, LineageError>(Some(u1)) && resolve_in_tables(
                cat,
                select_from(*right),
                c,
                0,
            ) == Ok::<Option<Seq<char>>, LineageError>(Some(u2)),
            _ => false,
        }),
        c.len() > 0,
        find_row(m, c, 0) is None,
        u1 != u2,
    ensures
        walk_body(cat, body, m) is Ok,
        walk_body(cat, body, m)->Ok_0.len() == m.len() + 1,
        walk_body(cat, body, m)->Ok_0[m.len() as int].output == c,
        walk_body(cat, body, m)->Ok_0[m.len() as int].upstream =~= seq![u1, u2],
        walk_body(cat, body, m)->Ok_0[m.len() as int].opaque == false,
{
    match body {
        QueryBody::SetOp { left, right } => {
            lemma_single_select_walk(cat, *left, c, m);
            let m1 = add_dep(m, c, u1, false);
            assert(walk_body(cat, *left, m) == Ok::<Seq<DepRowV>, LineageError>(m1));
            lemma_single_select_walk(cat, *right, c, m1);
            let m2 = add_dep(m1, c, u2, false);
            assert(walk_body(cat, body, m) == Ok::<Seq<DepRowV>, LineageError>(m2));
            lemma_union_accumulation(m, c, u1, u2, false, false);
        },
        _ => {},
    }
}

/// Opacity classification: a function name whose first dotted part lower-
/// cases to a recognized aggregate classifies the call as opaque, and any
/// other name classifies it as transparent.
pub proof fn lemma_aggregate_opacity(name_parts: Seq<Seq<char>>)
    ensures
        call_opacity(name_parts) == (name_parts.len() > 0 && (ascii_lower(name_parts[0])
            == "count"@ || ascii_lower(name_parts[0]) == "sum"@)),
{
    if name_parts.len() > 0 {
        assert(is_aggregate(ascii_lower(name_parts[0])) == (ascii_lower(name_parts[0]) == "count"@
            || ascii_lower(name_parts[0]) == "sum"@));
    }
}

} // verus!
