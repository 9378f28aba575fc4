//! The boundary to the SQL parser: sqlparser turns the SQL text into its own
//! statement tree, and the functions here carry that tree over into the
//! library's statement model, shape by shape. Everything in this module is
//! trusted; the engine that consumes the result is verified.
use crate::ast::{CallArg, Projection, QueryBody, TableRef, ValueExpr};
use vstd::prelude::*;

verus! {

#[verifier::external_type_specification]
#[verifier::external_body]
pub struct ExSqlStatement(sqlparser::ast::Statement);

#[verifier::external_type_specification]
#[verifier::external_body]
pub struct ExSqlSetExpr(sqlparser::ast::SetExpr);

#[verifier::external_type_specification]
#[verifier::external_body]
pub struct ExSqlSelectItem(sqlparser::ast::SelectItem);

#[verifier::external_type_specification]
#[verifier::external_body]
pub struct ExSqlExpr(sqlparser::ast::Expr);

#[verifier::external_type_specification]
#[verifier::external_body]
pub struct ExSqlFunctionArg(sqlparser::ast::FunctionArg);

#[verifier::external_type_specification]
#[verifier::external_body]
pub struct ExSqlTableWithJoins(sqlparser::ast::TableWithJoins);

#[verifier::external_type_specification]
#[verifier::external_body]
pub struct ExSqlIdent(sqlparser::ast::Ident);

/// The statement list that a SQL text parses and converts to, or nothing when
/// the text does not parse: a function of the text alone, since the parser is
/// deterministic and runs under one fixed dialect.
pub uninterp spec fn parse_model(s: Seq<char>) -> Option<Seq<crate::ast::SqlStatement>>;

/// Relies on sqlparser::ast::Ident: its `value` field is the identifier text.
#[verifier::external_body]
fn convert_idents(v: Vec<sqlparser::ast::Ident>) -> Vec<String> {
    v.into_iter().map(|i| i.value).collect()
}

/// Relies on sqlparser::ast::Expr: identifiers, compound identifiers, binary
/// operations and function calls are the shapes the engine reads; the
/// function's dotted name and arguments are carried over as they stand.
#[verifier::external_body]
fn convert_expr(e: sqlparser::ast::Expr) -> ValueExpr {
    match e {
        sqlparser::ast::Expr::Identifier(id) => ValueExpr::Column { name: id.value },
        sqlparser::ast::Expr::CompoundIdentifier(ids) => ValueExpr::Qualified {
            parts: convert_idents(ids),
        },
        sqlparser::ast::Expr::BinaryOp { left, right, .. } => ValueExpr::Binary {
            left: Box::new(convert_expr(*left)),
            right: Box::new(convert_expr(*right)),
        },
        sqlparser::ast::Expr::Function(f) => ValueExpr::Call {
            name_parts: convert_idents(f.name.0),
            args: f.args.into_iter().map(convert_arg).collect(),
        },
        _ => ValueExpr::Other,
    }
}

/// Relies on sqlparser::ast::FunctionArg: only an unnamed plain expression
/// argument carries column references the engine reads.
#[verifier::external_body]
fn convert_arg(a: sqlparser::ast::FunctionArg) -> CallArg {
    match a {
        sqlparser::ast::FunctionArg::Unnamed(sqlparser::ast::FunctionArgExpr::Expr(e)) => {
            CallArg::Value { expr: convert_expr(e) }
        },
        _ => CallArg::Other,
    }
}

/// Relies on sqlparser::ast::SelectItem: an unnamed identifier or compound
/// identifier, an aliased expression, or a wildcard.
#[verifier::external_body]
fn convert_projection(p: sqlparser::ast::SelectItem) -> Projection {
    match p {
        sqlparser::ast::SelectItem::UnnamedExpr(sqlparser::ast::Expr::Identifier(id)) => {
            Projection::Bare { name: id.value }
        },
        sqlparser::ast::SelectItem::UnnamedExpr(sqlparser::ast::Expr::CompoundIdentifier(ids)) => {
            Projection::Compound { parts: convert_idents(ids) }
        },
        sqlparser::ast::SelectItem::UnnamedExpr(_) => Projection::Ignored,
        sqlparser::ast::SelectItem::ExprWithAlias { expr, alias } => Projection::Aliased {
            alias: alias.value,
            expr: convert_expr(expr),
        },
        sqlparser::ast::SelectItem::QualifiedWildcard(_, _) => Projection::Wildcard,
        sqlparser::ast::SelectItem::Wildcard(_) => Projection::Wildcard,
    }
}

/// Relies on sqlparser::ast::TableWithJoins: only the `relation` is read; a
/// named table keeps its dotted name's parts, a derived table keeps its
/// subquery's body.
#[verifier::external_body]
fn convert_table(t: sqlparser::ast::TableWithJoins) -> TableRef {
    match t.relation {
        sqlparser::ast::TableFactor::Table { name, .. } => TableRef::Base {
            parts: convert_idents(name.0),
        },
        sqlparser::ast::TableFactor::Derived { subquery, .. } => TableRef::Derived {
            body: Box::new(convert_set_expr(*subquery.body)),
        },
        _ => TableRef::Other,
    }
}

/// Relies on sqlparser::ast::SetExpr: a SELECT keeps its projection and FROM
/// lists, a set operation keeps its two branches.
#[verifier::external_body]
fn convert_set_expr(s: sqlparser::ast::SetExpr) -> QueryBody {
    match s {
        sqlparser::ast::SetExpr::Select(sel) => QueryBody::Select {
            projection: sel.projection.into_iter().map(convert_projection).collect(),
            from: sel.from.into_iter().map(convert_table).collect(),
        },
        sqlparser::ast::SetExpr::SetOperation { left, right, .. } => QueryBody::SetOp {
            left: Box::new(convert_set_expr(*left)),
            right: Box::new(convert_set_expr(*right)),
        },
        _ => QueryBody::Other,
    }
}

/// Relies on sqlparser::ast::Statement: a query statement carries its body;
/// every other statement kind is ignored by the engine.
#[verifier::external_body]
fn convert_statement(s: sqlparser::ast::Statement) -> crate::ast::SqlStatement {
    match s {
        sqlparser::ast::Statement::Query(q) => crate::ast::SqlStatement::Query {
            body: convert_set_expr(*q.body),
        },
        _ => crate::ast::SqlStatement::Other,
    }
}

/// Relies on sqlparser::parser::Parser::parse_sql with the generic dialect:
/// it returns the statements parsed from the text, a function of the text
/// alone, or an error when the text does not parse.
#[verifier::external_body]
pub(crate) fn parse_sql_text(sql: &str) -> (r: Option<Vec<crate::ast::SqlStatement>>)
    ensures
        match r {
            Some(v) => parse_model(sql@) == Some(v@),
            None => parse_model(sql@) == None::<Seq<crate::ast::SqlStatement>>,
        },
{
    let dialect = sqlparser::dialect::GenericDialect {};
    match sqlparser::parser::Parser::parse_sql(&dialect, sql) {
        Ok(stmts) => Some(stmts.into_iter().map(convert_statement).collect()),
        Err(_) => None,
    }
}

} // verus!
