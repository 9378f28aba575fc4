//! The lineage engine itself: the dependency-map accumulator, the scope
//! resolver, the expression decomposer and the statement walker, each
//! specified against the model in `crate::model`.
use crate::ast::{CallArg, LineageError, Projection, QueryBody, SqlStatement, TableRef, ValueExpr};
use crate::model::{
    add_args, add_cols, add_dep, ascii_lower, cat_find_in_table, cat_find_qualified,
    col_ref_of_parts, decompose, find_row, finish_projection, init_state, is_aggregate,
    lemma_step_unfold, resolve_in_body,
    resolve_in_tables, resolve_ref, search_add,
    walk_body, walk_projections, walk_statements, ColRefV, DepRowV, WalkStateV,
};
use crate::FullColumn;
use vstd::prelude::*;
use vstd::string::StrSliceExecFns;

verus! {

broadcast use vstd::seq::group_seq_axioms, vstd::std_specs::vec::group_vec_axioms;

/// One entry of the dependency map: an output column, the fully-qualified
/// upstream identifiers it derives from in first-seen order, and whether the
/// derivation is opaque.
pub struct DepRow {
    pub output: String,
    pub upstream: Vec<String>,
    pub opaque: bool,
}

impl View for DepRow {
    type V = DepRowV;

    open spec fn view(&self) -> DepRowV {
        DepRowV { output: self.output@, upstream: self.upstream.deep_view(), opaque: self.opaque }
    }
}

impl DeepView for DepRow {
    type V = DepRowV;

    open spec fn deep_view(&self) -> DepRowV {
        self.view()
    }
}

/// The view of an optional owned string.
pub open spec fn opt_view(o: Option<String>) -> Option<Seq<char>> {
    match o {
        Some(s) => Some(s@),
        None => None,
    }
}

/// The view of a resolution result.
pub open spec fn res_opt_view(r: Result<Option<String>, LineageError>) -> Result<
    Option<Seq<char>>,
    LineageError,
> {
    match r {
        Ok(o) => Ok(opt_view(o)),
        Err(e) => Err(e),
    }
}

/// One column reference recovered from a value expression: an optional table
/// qualifier and the column name.
pub struct ColRef {
    pub qualifier: Option<String>,
    pub column: String,
}

impl View for ColRef {
    type V = ColRefV;

    open spec fn view(&self) -> ColRefV {
        ColRefV { qualifier: opt_view(self.qualifier), column: self.column@ }
    }
}

impl DeepView for ColRef {
    type V = ColRefV;

    open spec fn deep_view(&self) -> ColRefV {
        self.view()
    }
}

/// ASCII lower-casing of one character.
fn lower_char_exec(c: char) -> (r: char)
    ensures
        r == crate::model::lower_char(c),
{
    match c {
        'A' => 'a',
        'B' => 'b',
        'C' => 'c',
        'D' => 'd',
        'E' => 'e',
        'F' => 'f',
        'G' => 'g',
        'H' => 'h',
        'I' => 'i',
        'J' => 'j',
        'K' => 'k',
        'L' => 'l',
        'M' => 'm',
        'N' => 'n',
        'O' => 'o',
        'P' => 'p',
        'Q' => 'q',
        'R' => 'r',
        'S' => 's',
        'T' => 't',
        'U' => 'u',
        'V' => 'v',
        'W' => 'w',
        'X' => 'x',
        'Y' => 'y',
        'Z' => 'z',
        _ => c,
    }
}

/// Whether `s`, ASCII lower-cased, equals `w`.
fn eq_lowered(s: &str, w: &str) -> (b: bool)
    ensures
        b == (ascii_lower(s@) == w@),
{
    let n = s.unicode_len();
    let m = w.unicode_len();
    if n != m {
        proof {
            assert(ascii_lower(s@).len() != w@.len());
        }
        return false;
    }
    let mut i: usize = 0;
    while i < n
        invariant
            n == s@.len(),
            n == w@.len(),
            0 <= i <= n,
            forall|k: int| 0 <= k < i ==> crate::model::lower_char(s@[k]) == w@[k],
        decreases n - i,
    {
        let c = s.get_char(i);
        let d = w.get_char(i);
        if lower_char_exec(c) != d {
            proof {
                assert(ascii_lower(s@)[i as int] != w@[i as int]);
            }
            return false;
        }
        i += 1;
    }
    proof {
        assert(ascii_lower(s@) =~= w@);
    }
    true
}

/// A copy of an optional owned string.
fn clone_opt(o: &Option<String>) -> (r: Option<String>)
    ensures
        r == *o,
{
    match o {
        Some(s) => Some(s.clone()),
        None => None,
    }
}

/// Whether a function name, lower-cased, is one of the recognized aggregates.
fn is_aggregate_name(name: &String) -> (b: bool)
    ensures
        b == is_aggregate(ascii_lower(name@)),
{
    let c = eq_lowered(name.as_str(), "count");
    let s = eq_lowered(name.as_str(), "sum");
    c || s
}

/// The lineage engine: an immutable catalog of known columns, and the
/// dependency map that accumulates over however many statements are walked.
pub struct QueryAnalytics {
    pub metadata: Vec<FullColumn>,
    pub dependency_map: Vec<DepRow>,
}

impl QueryAnalytics {
    /// The catalog, as the model sees it.
    pub open spec fn catalog(&self) -> Seq<FullColumn> {
        self.metadata@
    }

    /// The dependency map, as the model sees it.
    pub open spec fn map_model(&self) -> Seq<DepRowV> {
        self.dependency_map.deep_view()
    }

    /// A fresh engine over the given catalog, with an empty dependency map.
    pub fn from(metadata: Vec<FullColumn>) -> (r: Self)
        ensures
            r.catalog() == metadata@,
            r.map_model() =~= Seq::<DepRowV>::empty(),
    {
        let r = QueryAnalytics { metadata, dependency_map: Vec::new() };
        proof {
            assert(r.map_model() =~= Seq::<DepRowV>::empty());
        }
        r
    }

    /// Records `upstream_identifier` as an upstream of `dependent_column`:
    /// a fresh output name gets a new entry; a known one gets the identifier
    /// appended only if it is not already present, preserving first-seen
    /// order, so the operation is idempotent per pair.
    pub fn add_dependency(
        &mut self,
        dependent_column: String,
        upstream_identifier: String,
        new_opacity: bool,
    )
        ensures
            final(self).metadata == old(self).metadata,
            final(self).map_model() == add_dep(
                old(self).map_model(),
                dependent_column@,
                upstream_identifier@,
                new_opacity,
            ),
    {
        let ghost m0 = self.map_model();
        let ghost key = dependent_column@;
        let ghost upv = upstream_identifier@;
        let n = self.dependency_map.len();
        let mut i: usize = 0;
        while i < n
            invariant
                *self == *old(self),
                n == self.dependency_map.len(),
                0 <= i <= n,
                forall|k: int| 0 <= k < i ==> m0[k].output != key,
                m0 == self.map_model(),
                key == dependent_column@,
                upv == upstream_identifier@,
            decreases n - i,
        {
            if self.dependency_map[i].output == dependent_column {
                proof {
                    crate::laws::lemma_find_row_skip(m0, key, 0, i as int);
                    assert(find_row(m0, key, 0) == Some(i as int));
                }
                // the key is known: append only a new identifier
                let row_len = self.dependency_map[i].upstream.len();
                let mut t: usize = 0;
                while t < row_len
                    invariant
                        *self == *old(self),
                        m0 == self.map_model(),
                        i < self.dependency_map.len(),
                        row_len == self.dependency_map[i as int].upstream.len(),
                        0 <= t <= row_len,
                        forall|k: int|
                            0 <= k < t ==> m0[i as int].upstream[k] != upstream_identifier@,
                        find_row(m0, key, 0) == Some(i as int),
                        key == dependent_column@,
                        upv == upstream_identifier@,
                    decreases row_len - t,
                {
                    if self.dependency_map[i].upstream[t] == upstream_identifier {
                        proof {
                            assert(m0[i as int] == self.dependency_map@[i as int]@);
                            assert(m0[i as int].upstream[t as int] == self.dependency_map@[
                                i as int
                            ].upstream@[t as int]@);
                            assert(m0[i as int].upstream.contains(upstream_identifier@));
                            assert(add_dep(m0, key, upstream_identifier@, new_opacity) == m0);
                        }
                        return ;
                    }
                    proof {
                        assert(m0[i as int] == self.dependency_map@[i as int]@);
                        assert(m0[i as int].upstream[t as int] == self.dependency_map@[
                            i as int
                        ].upstream@[t as int]@);
                    }
                    t += 1;
                }
                proof {
                    assert(m0[i as int] == self.dependency_map@[i as int]@);
                    assert(m0[i as int].upstream.len() == row_len);
                    assert(!m0[i as int].upstream.contains(upv));
                }
                let ghost v0 = self.dependency_map@;
                self.dependency_map[i].upstream.push(upstream_identifier);
                self.dependency_map[i].opaque = new_opacity;
                proof {
                    let ii = i as int;
                    let v2 = self.dependency_map@;
                    let m1 = add_dep(m0, key, upv, new_opacity);
                    let mv = self.map_model();
                    assert(v2.len() == v0.len());
                    assert(v2[ii].upstream@ == v0[ii].upstream@.push(upstream_identifier));
                    assert(m0[ii] == v0[ii]@);
                    assert(mv[ii] == v2[ii]@);
                    assert forall|k: int|
                        0 <= k < mv[ii].upstream.len() implies mv[ii].upstream[k] == m1[
                        ii
                    ].upstream[k] by {
                        assert(mv[ii].upstream[k] == v2[ii].upstream@[k]@);
                        if k < v0[ii].upstream@.len() {
                            assert(v2[ii].upstream@[k] == v0[ii].upstream@[k]);
                            assert(m0[ii].upstream[k] == v0[ii].upstream@[k]@);
                        } else {
                            assert(v2[ii].upstream@[k] == upstream_identifier);
                        }
                    }
                    assert(mv[ii].upstream =~= m1[ii].upstream);
                    assert(mv[ii] == m1[ii]);
                    assert forall|k: int| 0 <= k < mv.len() && k != ii implies mv[k] == m1[k] by {
                        assert(v2[k] == v0[k]);
                        assert(mv[k] == v2[k]@);
                        assert(m0[k] == v0[k]@);
                    }
                    assert(mv =~= m1);
                }
                return ;
            }
            i += 1;
        }
        proof {
            crate::laws::lemma_find_row_skip(m0, key, 0, n as int);
            assert(find_row(m0, key, 0) is None);
        }
        let ghost v0 = self.dependency_map@;
        let mut ups: Vec<String> = Vec::new();
        ups.push(upstream_identifier);
        self.dependency_map.push(
            DepRow { output: dependent_column, upstream: ups, opaque: new_opacity },
        );
        proof {
            let nn = n as int;
            let v2 = self.dependency_map@;
            let m1 = add_dep(m0, key, upv, new_opacity);
            let mv = self.map_model();
            assert(mv.len() == m1.len());
            assert(mv[nn] == v2[nn]@);
            assert(v2[nn].upstream@.len() == 1);
            assert(v2[nn].upstream@[0] == upstream_identifier);
            assert(mv[nn].upstream[0] == upv);
            assert(mv[nn].upstream =~= m1[nn].upstream);
            assert(mv[nn] == m1[nn]);
            assert forall|k: int| 0 <= k < mv.len() && k != nn implies mv[k] == m1[k] by {
                assert(v2[k] == v0[k]);
                assert(mv[k] == v2[k]@);
                assert(m0[k] == v0[k]@);
            }
            assert(mv =~= m1);
        }
    }

    /// The recorded entry for the output column `name`, if there is one.
    pub fn lookup(&self, name: &String) -> (r: Option<&DepRow>)
        ensures
            match find_row(self.map_model(), name@, 0) {
                Some(j) => (match r {
                    Some(row) => row@ == self.map_model()[j],
                    None => false,
                }),
                None => r is None,
            },
    {
        let ghost m = self.map_model();
        let n = self.dependency_map.len();
        let mut i: usize = 0;
        while i < n
            invariant
                n == self.dependency_map.len(),
                m == self.map_model(),
                0 <= i <= n,
                forall|k: int| 0 <= k < i ==> m[k].output != name@,
            decreases n - i,
        {
            if self.dependency_map[i].output == *name {
                proof {
                    crate::laws::lemma_find_row_skip(m, name@, 0, i as int);
                }
                return Some(&self.dependency_map[i]);
            }
            i += 1;
        }
        proof {
            crate::laws::lemma_find_row_skip(m, name@, 0, n as int);
        }
        None
    }

    /// Catalog scan for a column carrying an explicit table qualifier:
    /// the first record whose table and column names both match.
    fn find_qualified_in_catalog(&self, table: &String, col: &String) -> (r: Option<String>)
        ensures
            opt_view(r) == cat_find_qualified(self.catalog(), table@, col@, 0),
    {
        let n = self.metadata.len();
        let mut i: usize = 0;
        while i < n
            invariant
                n == self.metadata.len(),
                0 <= i <= n,
                cat_find_qualified(self.catalog(), table@, col@, 0) == cat_find_qualified(
                    self.catalog(),
                    table@,
                    col@,
                    i as int,
                ),
            decreases n - i,
        {
            if self.metadata[i].column_name == *col && self.metadata[i].table_name == *table {
                let fq = self.metadata[i].to_fq_id();
                return Some(fq);
            }
            i += 1;
        }
        None
    }

    /// Catalog scan for an unqualified column under one base table of the
    /// scope: column and table must match, and the schema too when the table
    /// reference spelled one out.
    fn find_unqualified_in_catalog(
        &self,
        col: &String,
        table: &String,
        schema: &Option<String>,
    ) -> (r: Option<String>)
        ensures
            opt_view(r) == cat_find_in_table(self.catalog(), col@, table@, opt_view(*schema), 0),
    {
        let n = self.metadata.len();
        let mut i: usize = 0;
        while i < n
            invariant
                n == self.metadata.len(),
                0 <= i <= n,
                cat_find_in_table(self.catalog(), col@, table@, opt_view(*schema), 0)
                    == cat_find_in_table(
                    self.catalog(),
                    col@,
                    table@,
                    opt_view(*schema),
                    i as int,
                ),
            decreases n - i,
        {
            let schema_matches = match schema {
                Some(s) => self.metadata[i].schema_name == *s,
                None => true,
            };
            if self.metadata[i].column_name == *col && self.metadata[i].table_name == *table
                && schema_matches {
                let fq = self.metadata[i].to_fq_id();
                return Some(fq);
            }
            i += 1;
        }
        None
    }

    /// Resolves one column reference against the scope: with a table hint the
    /// catalog is scanned directly; without one the scope's entries are tried
    /// in order, entering derived tables recursively.
    fn search_for_columns_in_tables(
        &self,
        from: &Vec<TableRef>,
        column_name: &String,
        table_name: &Option<String>,
    ) -> (r: Result<Option<String>, LineageError>)
        ensures
            res_opt_view(r) == resolve_ref(
                self.catalog(),
                from@,
                column_name@,
                opt_view(*table_name),
            ),
        decreases from@, 1int,
    {
        match table_name {
            Some(t) => Ok(self.find_qualified_in_catalog(t, column_name)),
            None => {
                let ghost cat = self.catalog();
                let ghost col = column_name@;
                let n = from.len();
                let mut i: usize = 0;
                while i < n
                    invariant
                        n == from.len(),
                        0 <= i <= n,
                        cat == self.catalog(),
                        col == column_name@,
                        (*table_name) is None,
                        resolve_in_tables(cat, from@, col, 0) == resolve_in_tables(
                            cat,
                            from@,
                            col,
                            i as int,
                        ),
                    decreases n - i,
                {
                    match &from[i] {
                        TableRef::Base { parts } => {
                            if parts.len() > 0 {
                                let table = &parts[parts.len() - 1];
                                let schema: Option<String> = if parts.len() > 1 {
                                    Some(parts[0].clone())
                                } else {
                                    None
                                };
                                let hit = self.find_unqualified_in_catalog(
                                    column_name,
                                    table,
                                    &schema,
                                );
                                proof {
                                    assert(opt_view(schema) == (if parts@.len() > 1 {
                                        Some(parts@[0]@)
                                    } else {
                                        None::<Seq<char>>
                                    }));
                                }
                                match hit {
                                    Some(f) => {
                                        proof {
                                            assert(resolve_in_tables(cat, from@, col, i as int)
                                                == Ok::<Option<Seq<char>>, LineageError>(
                                                Some(f@),
                                            ));
                                        }
                                        return Ok(Some(f));
                                    },
                                    None => {
                                        proof {
                                            assert(resolve_in_tables(cat, from@, col, i as int)
                                                == resolve_in_tables(cat, from@, col, i + 1));
                                        }
                                    },
                                }
                            } else {
                                proof {
                                    assert(resolve_in_tables(cat, from@, col, i as int)
                                        == resolve_in_tables(cat, from@, col, i + 1));
                                }
                            }
                        },
                        TableRef::Derived { body } => {
                            proof {
                                assert(decreases_to!(from@ => from@[i as int]));
                            }
                            match self.search_for_columns_in_expr(body, column_name) {
                                Err(e) => {
                                    proof {
                                        assert(resolve_in_tables(cat, from@, col, i as int)
                                            == Err::<Option<Seq<char>>, LineageError>(e));
                                    }
                                    return Err(e);
                                },
                                Ok(Some(f)) => {
                                    proof {
                                        assert(resolve_in_tables(cat, from@, col, i as int)
                                            == Ok::<Option<Seq<char>>, LineageError>(Some(f@)));
                                    }
                                    return Ok(Some(f));
                                },
                                Ok(None) => {
                                    proof {
                                        assert(resolve_in_tables(cat, from@, col, i as int)
                                            == resolve_in_tables(cat, from@, col, i + 1));
                                    }
                                },
                            }
                        },
                        TableRef::Other => {
                            proof {
                                assert(resolve_in_tables(cat, from@, col, i as int)
                                    == resolve_in_tables(cat, from@, col, i + 1));
                            }
                        },
                    }
                    i += 1;
                }
                Ok(None)
            },
        }
    }

    /// Resolves an unqualified column inside a derived table's body: a SELECT
    /// searches its own FROM list, a set operation tries left then right, and
    /// any other body shape is an unsupported construct.
    fn search_for_columns_in_expr(&self, body: &QueryBody, column_name: &String) -> (r: Result<
        Option<String>,
        LineageError,
    >)
        ensures
            res_opt_view(r) == resolve_in_body(self.catalog(), *body, column_name@),
        decreases *body, 0int,
    {
        match body {
            QueryBody::Select { projection, from } => {
                let no_hint: Option<String> = None;
                self.search_for_columns_in_tables(from, column_name, &no_hint)
            },
            QueryBody::SetOp { left, right } => {
                match self.search_for_columns_in_expr(left, column_name) {
                    Err(e) => Err(e),
                    Ok(Some(f)) => Ok(Some(f)),
                    Ok(None) => self.search_for_columns_in_expr(right, column_name),
                }
            },
            QueryBody::Other => Err(LineageError::UnsupportedBody),
        }
    }

    /// Appends the base column references of `expr` to `out`, left to right.
    fn decompose_into(expr: &ValueExpr, out: &mut Vec<ColRef>) -> (r: Result<(), LineageError>)
        ensures
            match decompose(*expr) {
                Ok(cols) => r is Ok && final(out).deep_view() == old(out).deep_view() + cols,
                Err(e) => r == Err::<(), LineageError>(e),
            },
        decreases *expr,
    {
        match expr {
            ValueExpr::Column { name } => {
                out.push(ColRef { qualifier: None, column: name.clone() });
                proof {
                    assert(out.deep_view() =~= old(out).deep_view() + seq![
                        ColRefV { qualifier: None, column: name@ },
                    ]);
                }
                Ok(())
            },
            ValueExpr::Qualified { parts } => {
                let c: ColRef = if parts.len() == 0 {
                    ColRef { qualifier: None, column: String::new() }
                } else if parts.len() == 1 {
                    ColRef { qualifier: None, column: parts[0].clone() }
                } else {
                    ColRef {
                        qualifier: Some(parts[0].clone()),
                        column: parts[parts.len() - 1].clone(),
                    }
                };
                proof {
                    assert(c@ == col_ref_of_parts(parts.deep_view()));
                }
                out.push(c);
                proof {
                    assert(out.deep_view() =~= old(out).deep_view() + seq![
                        col_ref_of_parts(parts.deep_view()),
                    ]);
                }
                Ok(())
            },
            ValueExpr::Binary { left, right } => {
                match Self::decompose_into(left, out) {
                    Err(e) => Err(e),
                    Ok(_u) => {
                        match Self::decompose_into(right, out) {
                            Err(e) => Err(e),
                            Ok(_u2) => {
                                proof {
                                    let l = decompose(**left)->Ok_0;
                                    let rr = decompose(**right)->Ok_0;
                                    assert(out.deep_view() =~= old(out).deep_view() + (l + rr));
                                }
                                Ok(())
                            },
                        }
                    },
                }
            },
            ValueExpr::Call { name_parts, args } => Err(LineageError::UnsupportedExpression),
            ValueExpr::Other => Err(LineageError::UnsupportedExpression),
        }
    }

    /// The base column references occurring in `expr`, in source order; an
    /// expression shape the decomposer does not understand is a fatal error.
    pub fn get_column_names_from_expr(expr: &ValueExpr) -> (r: Result<Vec<ColRef>, LineageError>)
        ensures
            match r {
                Ok(v) => decompose(*expr) == Ok::<Seq<ColRefV>, LineageError>(v.deep_view()),
                Err(e) => decompose(*expr) == Err::<Seq<ColRefV>, LineageError>(e),
            },
    {
        let mut out: Vec<ColRef> = Vec::new();
        match Self::decompose_into(expr, &mut out) {
            Ok(_u) => {
                proof {
                    let cols = decompose(*expr)->Ok_0;
                    assert(out.deep_view() =~= cols);
                }
                Ok(out)
            },
            Err(e) => Err(e),
        }
    }

    /// Resolves one column reference and, when it resolves, records its
    /// fully-qualified identifier under the alias if there is one, else under
    /// the column's own name; an unresolvable reference changes nothing.
    pub fn search_for_col_and_add(
        &mut self,
        from: &Vec<TableRef>,
        column_name: String,
        alias: Option<String>,
        table_name: Option<String>,
        opaque: bool,
    ) -> (r: Result<(), LineageError>)
        ensures
            final(self).metadata == old(self).metadata,
            match search_add(
                old(self).catalog(),
                from@,
                old(self).map_model(),
                column_name@,
                opt_view(alias),
                opt_view(table_name),
                opaque,
            ) {
                Ok(rows) => r is Ok && final(self).map_model() == rows,
                Err(e) => r == Err::<(), LineageError>(e) && *final(self) == *old(self),
            },
    {
        match self.search_for_columns_in_tables(from, &column_name, &table_name) {
            Err(e) => Err(e),
            Ok(None) => Ok(()),
            Ok(Some(full_identifier)) => {
                match alias {
                    Some(a) => self.add_dependency(a, full_identifier, opaque),
                    None => self.add_dependency(column_name, full_identifier, opaque),
                }
                Ok(())
            },
        }
    }

    /// Walks one query body: a SELECT's projection items are worked through
    /// left to right, a set operation walks both branches into the same map,
    /// and any other body shape is a fatal unsupported construct.
    pub fn traverse_set_expr(&mut self, body: &QueryBody) -> (r: Result<(), LineageError>)
        ensures
            final(self).metadata == old(self).metadata,
            match walk_body(old(self).catalog(), *body, old(self).map_model()) {
                Ok(rows) => r is Ok && final(self).map_model() == rows,
                Err(e) => r == Err::<(), LineageError>(e),
            },
        decreases *body,
    {
        match body {
            QueryBody::Select { projection, from } => {
                let ghost cat = self.catalog();
                let ghost m0 = self.map_model();
                let ghost fromv = from@;
                let ghost projs = projection@;
                let mut output_col: String = String::new();
                let mut dependency_alias: Option<String> = None;
                let mut out_col_table: Option<String> = None;
                let n = projection.len();
                let mut i: usize = 0;
                while i < n
                    invariant
                        n == projection.len(),
                        cat == self.catalog(),
                        cat == old(self).catalog(),
                        self.metadata == old(self).metadata,
                        m0 == old(self).map_model(),
                        fromv == from@,
                        projs == projection@,
                        0 <= i <= n,
                        walk_body(cat, *body, m0) == walk_projections(
                            cat,
                            fromv,
                            projs,
                            init_state(m0),
                            0,
                        ),
                        walk_projections(cat, fromv, projs, init_state(m0), 0)
                            == walk_projections(
                            cat,
                            fromv,
                            projs,
                            (WalkStateV {
                                out_col: output_col@,
                                alias: opt_view(dependency_alias),
                                hint: opt_view(out_col_table),
                                rows: self.map_model(),
                            }),
                            i as int,
                        ),
                    decreases n - i,
                {
                    let ghost st_entry = WalkStateV {
                        out_col: output_col@,
                        alias: opt_view(dependency_alias),
                        hint: opt_view(out_col_table),
                        rows: self.map_model(),
                    };
                    proof {
                        lemma_step_unfold(cat, fromv, projs, i as int, st_entry);
                    }
                    match &projection[i] {
                        Projection::Bare { name } => {
                            output_col = name.clone();
                        },
                        Projection::Compound { parts } => {
                            if parts.len() == 0 {
                                return Err(LineageError::EmptyIdentifier);
                            }
                            if parts.len() > 1 {
                                out_col_table = Some(parts[0].clone());
                            }
                            output_col = parts[parts.len() - 1].clone();
                        },
                        Projection::Ignored => {},
                        Projection::Aliased { alias, expr } => {
                            dependency_alias = Some(alias.clone());
                            match expr {
                                ValueExpr::Column { name } => {
                                    output_col = name.clone();
                                },
                                ValueExpr::Call { name_parts, args } => {
                                    let opaque: bool = if name_parts.len() > 0 {
                                        is_aggregate_name(&name_parts[0])
                                    } else {
                                        false
                                    };
                                    proof {
                                        if name_parts.len() > 0 {
                                            assert(name_parts.deep_view()[0] == name_parts@[0]@);
                                        }
                                        assert(name_parts.deep_view().len() == name_parts@.len());
                                        assert(opaque == crate::model::call_opacity(
                                            name_parts.deep_view(),
                                        ));
                                    }
                                    let ghost al = opt_view(dependency_alias);
                                    let ghost argsv = args@;
                                    let an = args.len();
                                    let mut j: usize = 0;
                                    while j < an
                                        invariant
                                            an == args.len(),
                                            cat == self.catalog(),
                                            cat == old(self).catalog(),
                                            self.metadata == old(self).metadata,
                                            m0 == old(self).map_model(),
                                            fromv == from@,
                                            projs == projection@,
                                            argsv == args@,
                                            0 <= j <= an,
                                            i < projs.len(),
                                            al == opt_view(dependency_alias),
                                            walk_body(cat, *body, m0) == walk_projections(
                                                cat,
                                                fromv,
                                                projs,
                                                init_state(m0),
                                                0,
                                            ),
                                            walk_projections(cat, fromv, projs, init_state(m0), 0)
                                                == (match add_args(
                                                cat,
                                                fromv,
                                                self.map_model(),
                                                argsv,
                                                al,
                                                opt_view(out_col_table),
                                                opaque,
                                                j as int,
                                            ) {
                                                Err(e) => Err::<Seq<DepRowV>, LineageError>(e),
                                                Ok(p2) => finish_projection(
                                                    cat,
                                                    fromv,
                                                    projs,
                                                    i as int,
                                                    (WalkStateV {
                                                        out_col: output_col@,
                                                        alias: al,
                                                        hint: p2.1,
                                                        rows: p2.0,
                                                    }),
                                                ),
                                            }),
                                        decreases an - j,
                                    {
                                        match &args[j] {
                                            CallArg::Value { expr } => {
                                                match Self::get_column_names_from_expr(expr) {
                                                    Err(e) => {
                                                        return Err(e);
                                                    },
                                                    Ok(cols) => {
                                                        let ghost colsv = cols.deep_view();
                                                        let cn = cols.len();
                                                        let mut k: usize = 0;
                                                        while k < cn
                                                            invariant
                                                                cn == cols.len(),
                                                                cat == self.catalog(),
                                                                cat == old(self).catalog(),
                                                                self.metadata == old(
                                                                    self,
                                                                ).metadata,
                                                                m0 == old(self).map_model(),
                                                                fromv == from@,
                                                                projs == projection@,
                                                                argsv == args@,
                                                                colsv == cols.deep_view(),
                                                                0 <= k <= cn,
                                                                i < projs.len(),
                                                                j < argsv.len(),
                                                                al == opt_view(dependency_alias),
                                                                (match argsv[j as int] {
                                                                    CallArg::Value { expr } =>
                                                                        decompose(expr) == Ok::<
                                                                        Seq<ColRefV>,
                                                                        LineageError,
                                                                    >(colsv),
                                                                    CallArg::Other => false,
                                                                }),
                                                                walk_body(cat, *body, m0)
                                                                    == walk_projections(
                                                                    cat,
                                                                    fromv,
                                                                    projs,
                                                                    init_state(m0),
                                                                    0,
                                                                ),
                                                                walk_projections(
                                                                    cat,
                                                                    fromv,
                                                                    projs,
                                                                    init_state(m0),
                                                                    0,
                                                                ) == (match add_cols(
                                                                    cat,
                                                                    fromv,
                                                                    self.map_model(),
                                                                    colsv,
                                                                    al,
                                                                    opt_view(out_col_table),
                                                                    opaque,
                                                                    k as int,
                                                                ) {
                                                                    Err(e) => Err::<
                                                                        Seq<DepRowV>,
                                                                        LineageError,
                                                                    >(e),
                                                                    Ok(p3) => match add_args(
                                                                        cat,
                                                                        fromv,
                                                                        p3.0,
                                                                        argsv,
                                                                        al,
                                                                        p3.1,
                                                                        opaque,
                                                                        j + 1,
                                                                    ) {
                                                                        Err(e2) => Err::<
                                                                            Seq<DepRowV>,
                                                                            LineageError,
                                                                        >(e2),
                                                                        Ok(p4) => finish_projection(
                                                                            cat,
                                                                            fromv,
                                                                            projs,
                                                                            i as int,
                                                                            (WalkStateV {
                                                                                out_col:
                                                                                    output_col@,
                                                                                alias: al,
                                                                                hint: p4.1,
                                                                                rows: p4.0,
                                                                            }),
                                                                        ),
                                                                    },
                                                                }),
                                                            decreases cn - k,
                                                        {
                                                            match &cols[k].qualifier {
                                                                Some(q) => {
                                                                    out_col_table = Some(
                                                                        q.clone(),
                                                                    );
                                                                },
                                                                None => {},
                                                            }
                                                            proof {
                                                                assert(colsv[k as int] == cols@[
                                                                    k as int
                                                                ]@);
                                                            }
                                                            let colname = cols[k].column.clone();
                                                            let rr = self.search_for_col_and_add(
                                                                from,
                                                                colname,
                                                                clone_opt(&dependency_alias),
                                                                clone_opt(&out_col_table),
                                                                opaque,
                                                            );
                                                            match rr {
                                                                Err(e) => {
                                                                    return Err(e);
                                                                },
                                                                Ok(_u) => {},
                                                            }
                                                            k += 1;
                                                        }
                                                        j += 1;
                                                    },
                                                }
                                            },
                                            CallArg::Other => {
                                                j += 1;
                                            },
                                        }
                                    }
                                },
                                ValueExpr::Qualified { parts } => {
                                    return Err(LineageError::UnsupportedExpression);
                                },
                                ValueExpr::Binary { left, right } => {
                                    return Err(LineageError::UnsupportedExpression);
                                },
                                ValueExpr::Other => {
                                    return Err(LineageError::UnsupportedExpression);
                                },
                            }
                        },
                        Projection::Wildcard => {
                            return Err(LineageError::UnsupportedProjection);
                        },
                    }
                    proof {
                        assert(walk_projections(cat, fromv, projs, init_state(m0), 0)
                            == finish_projection(
                            cat,
                            fromv,
                            projs,
                            i as int,
                            (WalkStateV {
                                out_col: output_col@,
                                alias: opt_view(dependency_alias),
                                hint: opt_view(out_col_table),
                                rows: self.map_model(),
                            }),
                        ));
                    }
                    if !output_col.as_str().is_empty() {
                        let oc = output_col.clone();
                        let rr = self.search_for_col_and_add(
                            from,
                            oc,
                            clone_opt(&dependency_alias),
                            clone_opt(&out_col_table),
                            false,
                        );
                        match rr {
                            Err(e) => {
                                return Err(e);
                            },
                            Ok(_u) => {},
                        }
                    }
                    i += 1;
                }
                Ok(())
            },
            QueryBody::SetOp { left, right } => {
                match self.traverse_set_expr(left) {
                    Err(e) => Err(e),
                    Ok(_u) => {
                        match self.traverse_set_expr(right) {
                            Err(e) => Err(e),
                            Ok(_u2) => Ok(()),
                        }
                    },
                }
            },
            QueryBody::Other => Err(LineageError::UnsupportedBody),
        }
    }

    /// Parses `sql` and walks every statement it holds into the dependency
    /// map: the map ends up exactly as the model's walk over the parsed
    /// statements says, and a text that does not parse is a fatal error that
    /// leaves the map untouched.
    pub fn get_query_lineage(&mut self, sql: String) -> (r: Result<(), LineageError>)
        ensures
            final(self).metadata == old(self).metadata,
            match crate::parse::parse_model(sql@) {
                None => r == Err::<(), LineageError>(LineageError::ParseFailure) && *final(self)
                    == *old(self),
                Some(stmts) => match walk_statements(
                    old(self).catalog(),
                    stmts,
                    old(self).map_model(),
                    0,
                ) {
                    Ok(rows) => r is Ok && final(self).map_model() == rows,
                    Err(e) => r == Err::<(), LineageError>(e),
                },
            },
    {
        match crate::parse::parse_sql_text(sql.as_str()) {
            None => Err(LineageError::ParseFailure),
            Some(statements) => self.traverse_statements(statements),
        }
    }

    /// Walks a statement list: each query statement's body is walked into the
    /// shared dependency map; every other statement kind is ignored.
    pub fn traverse_statements(&mut self, statements: Vec<SqlStatement>) -> (r: Result<
        (),
        LineageError,
    >)
        ensures
            final(self).metadata == old(self).metadata,
            match walk_statements(
                old(self).catalog(),
                statements@,
                old(self).map_model(),
                0,
            ) {
                Ok(rows) => r is Ok && final(self).map_model() == rows,
                Err(e) => r == Err::<(), LineageError>(e),
            },
    {
        let ghost cat = self.catalog();
        let ghost m0 = self.map_model();
        let ghost stv = statements@;
        let n = statements.len();
        let mut i: usize = 0;
        while i < n
            invariant
                n == statements.len(),
                cat == self.catalog(),
                cat == old(self).catalog(),
                self.metadata == old(self).metadata,
                m0 == old(self).map_model(),
                stv == statements@,
                0 <= i <= n,
                walk_statements(cat, stv, m0, 0) == walk_statements(
                    cat,
                    stv,
                    self.map_model(),
                    i as int,
                ),
            decreases n - i,
        {
            match &statements[i] {
                SqlStatement::Query { body } => {
                    match self.traverse_set_expr(body) {
                        Err(e) => {
                            return Err(e);
                        },
                        Ok(_u) => {},
                    }
                },
                SqlStatement::Other => {},
            }
            i += 1;
        }
        Ok(())
    }
}

} // verus!
