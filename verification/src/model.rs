//! The mathematical model of the lineage engine: what the catalog lookups
//! return, how the dependency map evolves, and what one walk over a statement
//! list produces. Every executable function of the engine is specified
//! against the functions in this module.
use crate::ast::{CallArg, LineageError, Projection, QueryBody, SqlStatement, TableRef, ValueExpr};
use crate::FullColumn;
use vstd::prelude::*;

verus! {

broadcast use vstd::seq::group_seq_axioms, vstd::std_specs::vec::group_vec_axioms;

/// The model of one dependency-map entry: the output column's name, the
/// fully-qualified upstream identifiers in first-seen order, and the opacity flag.
pub struct DepRowV {
    pub output: Seq<char>,
    pub upstream: Seq<Seq<char>>,
    pub opaque: bool,
}

/// The index of the first row at or after `i` whose output name is `key`.
pub open spec fn find_row(m: Seq<DepRowV>, key: Seq<char>, i: int) -> Option<int>
    decreases m.len() - i,
{
    if i < 0 || i >= m.len() {
        None
    } else if m[i].output == key {
        Some(i)
    } else {
        find_row(m, key, i + 1)
    }
}

/// How one accumulation step changes the dependency map: a fresh key gets a
/// one-element row; a known key gets `up` appended (and the flag overwritten)
/// only when `up` is not already present.
pub open spec fn add_dep(m: Seq<DepRowV>, key: Seq<char>, up: Seq<char>, opaque: bool) -> Seq<
    DepRowV,
> {
    match find_row(m, key, 0) {
        None => m.push(DepRowV { output: key, upstream: seq![up], opaque }),
        Some(j) => if m[j].upstream.contains(up) {
            m
        } else {
            m.update(j, DepRowV { output: key, upstream: m[j].upstream.push(up), opaque })
        },
    }
}

/// The first catalog record at or after `i` whose table and column names are
/// `table` and `col`; used when the reference carries an explicit table hint.
pub open spec fn cat_find_qualified(
    cat: Seq<FullColumn>,
    table: Seq<char>,
    col: Seq<char>,
    i: int,
) -> Option<Seq<char>>
    decreases cat.len() - i,
{
    if i < 0 || i >= cat.len() {
        None
    } else if cat[i].column_name@ == col && cat[i].table_name@ == table {
        Some(cat[i].fq_id())
    } else {
        cat_find_qualified(cat, table, col, i + 1)
    }
}

/// The first catalog record at or after `i` matching column `col` in table
/// `table`, and in schema `schema` when the table reference spelled one out.
pub open spec fn cat_find_in_table(
    cat: Seq<FullColumn>,
    col: Seq<char>,
    table: Seq<char>,
    schema: Option<Seq<char>>,
    i: int,
) -> Option<Seq<char>>
    decreases cat.len() - i,
{
    if i < 0 || i >= cat.len() {
        None
    } else if cat[i].column_name@ == col && cat[i].table_name@ == table && (match schema {
        Some(s) => cat[i].schema_name@ == s,
        None => true,
    }) {
        Some(cat[i].fq_id())
    } else {
        cat_find_in_table(cat, col, table, schema, i + 1)
    }
}

/// Resolution of an unqualified column name against a table scope, scanning
/// the scope in order from entry `i`: base tables are looked up in the
/// catalog, derived tables are entered recursively, other shapes are skipped.
pub open spec fn resolve_in_tables(
    cat: Seq<FullColumn>,
    from: Seq<TableRef>,
    col: Seq<char>,
    i: int,
) -> Result<Option<Seq<char>>, LineageError>
    decreases from, from.len() - i,
{
    if i < 0 || i >= from.len() {
        Ok(None)
    } else {
        match from[i] {
            TableRef::Base { parts } => {
                if parts.len() == 0 {
                    resolve_in_tables(cat, from, col, i + 1)
                } else {
                    let table = parts[parts.len() - 1]@;
                    let schema = if parts.len() > 1 {
                        Some(parts[0]@)
                    } else {
                        None
                    };
                    match cat_find_in_table(cat, col, table, schema, 0) {
                        Some(r) => Ok(Some(r)),
                        None => resolve_in_tables(cat, from, col, i + 1),
                    }
                }
            },
            TableRef::Derived { body } => match resolve_in_body(cat, *body, col) {
                Err(e) => Err(e),
                Ok(Some(r)) => Ok(Some(r)),
                Ok(None) => resolve_in_tables(cat, from, col, i + 1),
            },
            TableRef::Other => resolve_in_tables(cat, from, col, i + 1),
        }
    }
}

/// Resolution of an unqualified column name inside a derived table's body:
/// a SELECT resolves against its own FROM list, a set operation tries its
/// left branch first, and any other body shape is an unsupported construct.
pub open spec fn resolve_in_body(cat: Seq<FullColumn>, body: QueryBody, col: Seq<char>) -> Result<
    Option<Seq<char>>,
    LineageError,
>
    decreases body, 0int,
{
    match body {
        QueryBody::Select { projection, from } => resolve_in_tables(cat, from@, col, 0),
        QueryBody::SetOp { left, right } => match resolve_in_body(cat, *left, col) {
            Err(e) => Err(e),
            Ok(Some(r)) => Ok(Some(r)),
            Ok(None) => resolve_in_body(cat, *right, col),
        },
        QueryBody::Other => Err(LineageError::UnsupportedBody),
    }
}

/// Resolution of one column reference: with a table hint the catalog is
/// scanned directly; without one the table scope is searched in order.
pub open spec fn resolve_ref(
    cat: Seq<FullColumn>,
    from: Seq<TableRef>,
    col: Seq<char>,
    hint: Option<Seq<char>>,
) -> Result<Option<Seq<char>>, LineageError> {
    match hint {
        Some(t) => Ok(cat_find_qualified(cat, t, col, 0)),
        None => resolve_in_tables(cat, from, col, 0),
    }
}

/// The model of one decomposed column reference: an optional table qualifier
/// and the column name itself.
pub struct ColRefV {
    pub qualifier: Option<Seq<char>>,
    pub column: Seq<char>,
}

/// The qualifier and column that a dotted identifier's parts denote: the
/// first part qualifies, the last part names the column.
pub open spec fn col_ref_of_parts(parts: Seq<Seq<char>>) -> ColRefV {
    if parts.len() == 0 {
        ColRefV { qualifier: None, column: Seq::<char>::empty() }
    } else if parts.len() == 1 {
        ColRefV { qualifier: None, column: parts[0] }
    } else {
        ColRefV { qualifier: Some(parts[0]), column: parts[parts.len() - 1] }
    }
}

/// The base column references occurring in a value expression, left to right:
/// identifiers and compound identifiers contribute one reference each, binary
/// operations concatenate their operands' references, and any other shape is
/// an unsupported construct.
pub open spec fn decompose(e: ValueExpr) -> Result<Seq<ColRefV>, LineageError>
    decreases e,
{
    match e {
        ValueExpr::Column { name } => Ok(seq![ColRefV { qualifier: None, column: name@ }]),
        ValueExpr::Qualified { parts } => Ok(seq![col_ref_of_parts(parts.deep_view())]),
        ValueExpr::Binary { left, right } => match decompose(*left) {
            Err(e1) => Err(e1),
            Ok(l) => match decompose(*right) {
                Err(e2) => Err(e2),
                Ok(r) => Ok(l + r),
            },
        },
        ValueExpr::Call { name_parts, args } => Err(LineageError::UnsupportedExpression),
        ValueExpr::Other => Err(LineageError::UnsupportedExpression),
    }
}

/// ASCII lower-casing of one character.
pub open spec fn lower_char(c: char) -> char {
    if c == 'A' {
        'a'
    } else if c == 'B' {
        'b'
    } else if c == 'C' {
        'c'
    } else if c == 'D' {
        'd'
    } else if c == 'E' {
        'e'
    } else if c == 'F' {
        'f'
    } else if c == 'G' {
        'g'
    } else if c == 'H' {
        'h'
    } else if c == 'I' {
        'i'
    } else if c == 'J' {
        'j'
    } else if c == 'K' {
        'k'
    } else if c == 'L' {
        'l'
    } else if c == 'M' {
        'm'
    } else if c == 'N' {
        'n'
    } else if c == 'O' {
        'o'
    } else if c == 'P' {
        'p'
    } else if c == 'Q' {
        'q'
    } else if c == 'R' {
        'r'
    } else if c == 'S' {
        's'
    } else if c == 'T' {
        't'
    } else if c == 'U' {
        'u'
    } else if c == 'V' {
        'v'
    } else if c == 'W' {
        'w'
    } else if c == 'X' {
        'x'
    } else if c == 'Y' {
        'y'
    } else if c == 'Z' {
        'z'
    } else {
        c
    }
}

/// ASCII lower-casing of a character sequence.
pub open spec fn ascii_lower(s: Seq<char>) -> Seq<char> {
    Seq::new(s.len(), |i: int| lower_char(s[i]))
}

/// Whether a lower-cased function name belongs to the recognized aggregates,
/// which make an output column opaque.
pub open spec fn is_aggregate(lowered: Seq<char>) -> bool {
    lowered == "count"@ || lowered == "sum"@
}

/// The opacity that a function call's name parts classify to: the first part,
/// lower-cased, must be a recognized aggregate.
pub open spec fn call_opacity(name_parts: Seq<Seq<char>>) -> bool {
    name_parts.len() > 0 && is_aggregate(ascii_lower(name_parts[0]))
}

/// The walker's running state while it works through one projection list:
/// the last output-column name seen, the last alias seen, the last table
/// qualifier seen, and the dependency map so far. The first three carry over
/// from item to item until something overwrites them.
pub struct WalkStateV {
    pub out_col: Seq<char>,
    pub alias: Option<Seq<char>>,
    pub hint: Option<Seq<char>>,
    pub rows: Seq<DepRowV>,
}

/// One resolve-and-record step: an unresolvable reference changes nothing,
/// a resolved one is recorded under the alias when there is one, else under
/// the column's own name.
pub open spec fn search_add(
    cat: Seq<FullColumn>,
    from: Seq<TableRef>,
    rows: Seq<DepRowV>,
    col: Seq<char>,
    alias: Option<Seq<char>>,
    hint: Option<Seq<char>>,
    opaque: bool,
) -> Result<Seq<DepRowV>, LineageError> {
    match resolve_ref(cat, from, col, hint) {
        Err(e) => Err(e),
        Ok(None) => Ok(rows),
        Ok(Some(fq)) => Ok(
            add_dep(
                rows,
                match alias {
                    Some(a) => a,
                    None => col,
                },
                fq,
                opaque,
            ),
        ),
    }
}

/// Recording of the column references of one function argument, from index
/// `i` on: each reference may update the table qualifier before it is
/// resolved, and the qualifier persists afterwards.
pub open spec fn add_cols(
    cat: Seq<FullColumn>,
    from: Seq<TableRef>,
    rows: Seq<DepRowV>,
    cols: Seq<ColRefV>,
    alias: Option<Seq<char>>,
    hint: Option<Seq<char>>,
    opaque: bool,
    i: int,
) -> Result<(Seq<DepRowV>, Option<Seq<char>>), LineageError>
    decreases cols.len() - i,
{
    if i < 0 || i >= cols.len() {
        Ok((rows, hint))
    } else {
        let hint2 = match cols[i].qualifier {
            Some(q) => Some(q),
            None => hint,
        };
        match search_add(cat, from, rows, cols[i].column, alias, hint2, opaque) {
            Err(e) => Err(e),
            Ok(rows2) => add_cols(cat, from, rows2, cols, alias, hint2, opaque, i + 1),
        }
    }
}

/// Recording of a function call's arguments, from index `i` on: each plain
/// expression argument is decomposed and its references recorded; other
/// argument shapes are passed over.
pub open spec fn add_args(
    cat: Seq<FullColumn>,
    from: Seq<TableRef>,
    rows: Seq<DepRowV>,
    args: Seq<CallArg>,
    alias: Option<Seq<char>>,
    hint: Option<Seq<char>>,
    opaque: bool,
    i: int,
) -> Result<(Seq<DepRowV>, Option<Seq<char>>), LineageError>
    decreases args.len() - i,
{
    if i < 0 || i >= args.len() {
        Ok((rows, hint))
    } else {
        match args[i] {
            CallArg::Value { expr } => match decompose(expr) {
                Err(e) => Err(e),
                Ok(cols) => match add_cols(cat, from, rows, cols, alias, hint, opaque, 0) {
                    Err(e) => Err(e),
                    Ok((rows2, hint2)) => add_args(
                        cat,
                        from,
                        rows2,
                        args,
                        alias,
                        hint2,
                        opaque,
                        i + 1,
                    ),
                },
            },
            CallArg::Other => add_args(cat, from, rows, args, alias, hint, opaque, i + 1),
        }
    }
}

/// The walker's treatment of one projection item: the item-specific action,
/// followed by the trailing direct resolution of the current output-column
/// name whenever that name is nonempty.
pub open spec fn step_projection(
    cat: Seq<FullColumn>,
    from: Seq<TableRef>,
    st: WalkStateV,
    p: Projection,
) -> Result<WalkStateV, LineageError> {
    match step_projection_action(cat, from, st, p) {
        Err(e) => Err(e),
        Ok(s) => if s.out_col.len() == 0 {
            Ok(s)
        } else {
            match search_add(cat, from, s.rows, s.out_col, s.alias, s.hint, false) {
                Err(e) => Err(e),
                Ok(rows2) => Ok(
                    WalkStateV { out_col: s.out_col, alias: s.alias, hint: s.hint, rows: rows2 },
                ),
            }
        },
    }
}

/// The item-specific part of one projection step, before the trailing direct
/// resolution.
pub open spec fn step_projection_action(
    cat: Seq<FullColumn>,
    from: Seq<TableRef>,
    st: WalkStateV,
    p: Projection,
) -> Result<WalkStateV, LineageError> {
    match p {
        Projection::Bare { name } => Ok(
            WalkStateV { out_col: name@, alias: st.alias, hint: st.hint, rows: st.rows },
        ),
        Projection::Compound { parts } => if parts.len() == 0 {
            Err(LineageError::EmptyIdentifier)
        } else {
            Ok(
                WalkStateV {
                    out_col: parts[parts.len() - 1]@,
                    alias: st.alias,
                    hint: if parts.len() > 1 {
                        Some(parts[0]@)
                    } else {
                        st.hint
                    },
                    rows: st.rows,
                },
            )
        },
        Projection::Ignored => Ok(st),
        Projection::Aliased { alias, expr } => {
            let al = Some(alias@);
            match expr {
                ValueExpr::Column { name } => Ok(
                    WalkStateV { out_col: name@, alias: al, hint: st.hint, rows: st.rows },
                ),
                ValueExpr::Call { name_parts, args } => {
                    let opq = call_opacity(name_parts.deep_view());
                    match add_args(cat, from, st.rows, args@, al, st.hint, opq, 0) {
                        Err(e) => Err(e),
                        Ok((rows2, hint2)) => Ok(
                            WalkStateV {
                                out_col: st.out_col,
                                alias: al,
                                hint: hint2,
                                rows: rows2,
                            },
                        ),
                    }
                },
                ValueExpr::Qualified { parts } => Err(LineageError::UnsupportedExpression),
                ValueExpr::Binary { left, right } => Err(LineageError::UnsupportedExpression),
                ValueExpr::Other => Err(LineageError::UnsupportedExpression),
            }
        },
        Projection::Wildcard => Err(LineageError::UnsupportedProjection),
    }
}

/// What remains of the walk once item `i`'s item-specific action has produced
/// state `s`: the trailing direct resolution of the current output-column
/// name, then the rest of the projection list.
pub open spec fn finish_projection(
    cat: Seq<FullColumn>,
    from: Seq<TableRef>,
    projs: Seq<Projection>,
    i: int,
    s: WalkStateV,
) -> Result<Seq<DepRowV>, LineageError> {
    if s.out_col.len() == 0 {
        walk_projections(cat, from, projs, s, i + 1)
    } else {
        match search_add(cat, from, s.rows, s.out_col, s.alias, s.hint, false) {
            Err(e) => Err(e),
            Ok(rows2) => walk_projections(
                cat,
                from,
                projs,
                (WalkStateV { out_col: s.out_col, alias: s.alias, hint: s.hint, rows: rows2 }),
                i + 1,
            ),
        }
    }
}

/// One step of the projection walk, split into its item-specific action and
/// the trailing continuation.
pub proof fn lemma_step_unfold(
    cat: Seq<FullColumn>,
    from: Seq<TableRef>,
    projs: Seq<Projection>,
    i: int,
    st: WalkStateV,
)
    requires
        0 <= i < projs.len(),
    ensures
        walk_projections(cat, from, projs, st, i) == (match step_projection_action(
            cat,
            from,
            st,
            projs[i],
        ) {
            Err(e) => Err(e),
            Ok(s) => finish_projection(cat, from, projs, i, s),
        }),
{
}

/// The walk over a projection list from item `i` on, threading the running
/// state; the final dependency map is the result.
pub open spec fn walk_projections(
    cat: Seq<FullColumn>,
    from: Seq<TableRef>,
    projs: Seq<Projection>,
    st: WalkStateV,
    i: int,
) -> Result<Seq<DepRowV>, LineageError>
    decreases projs.len() - i,
{
    if i < 0 || i >= projs.len() {
        Ok(st.rows)
    } else {
        match step_projection(cat, from, st, projs[i]) {
            Err(e) => Err(e),
            Ok(st2) => walk_projections(cat, from, projs, st2, i + 1),
        }
    }
}

/// The walker's fresh state at the start of one SELECT's projection list.
pub open spec fn init_state(rows: Seq<DepRowV>) -> WalkStateV {
    WalkStateV { out_col: Seq::<char>::empty(), alias: None, hint: None, rows }
}

/// The walk over one query body: a SELECT walks its projection list, a set
/// operation walks its left branch and then its right branch into the same
/// map, and any other shape is an unsupported construct.
pub open spec fn walk_body(cat: Seq<FullColumn>, body: QueryBody, rows: Seq<DepRowV>) -> Result<
    Seq<DepRowV>,
    LineageError,
>
    decreases body,
{
    match body {
        QueryBody::Select { projection, from } => walk_projections(
            cat,
            from@,
            projection@,
            init_state(rows),
            0,
        ),
        QueryBody::SetOp { left, right } => match walk_body(cat, *left, rows) {
            Err(e) => Err(e),
            Ok(rows2) => walk_body(cat, *right, rows2),
        },
        QueryBody::Other => Err(LineageError::UnsupportedBody),
    }
}

/// The walk over a statement list from statement `i` on: query statements
/// contribute their body's walk, every other statement kind is ignored.
pub open spec fn walk_statements(
    cat: Seq<FullColumn>,
    stmts: Seq<SqlStatement>,
    rows: Seq<DepRowV>,
    i: int,
) -> Result<Seq<DepRowV>, LineageError>
    decreases stmts.len() - i,
{
    if i < 0 || i >= stmts.len() {
        Ok(rows)
    } else {
        match stmts[i] {
            SqlStatement::Query { body } => match walk_body(cat, body, rows) {
                Err(e) => Err(e),
                Ok(rows2) => walk_statements(cat, stmts, rows2, i + 1),
            },
            SqlStatement::Other => walk_statements(cat, stmts, rows, i + 1),
        }
    }
}

} // verus!
