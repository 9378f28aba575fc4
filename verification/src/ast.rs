use vstd::prelude::*;

verus! {

/// A value expression as it appears inside a projection: only the shapes the
/// lineage engine understands are distinguished; everything else is `Other`.
pub enum ValueExpr {
    /// A bare column reference, e.g. `id`.
    Column { name: String },
    /// A dotted column reference, e.g. `orders.id`, kept as its parts.
    Qualified { parts: Vec<String> },
    /// A binary operation; only its operands matter for lineage.
    Binary { left: Box<ValueExpr>, right: Box<ValueExpr> },
    /// A function call, e.g. `count(x)`: the dotted name's parts and the arguments.
    Call { name_parts: Vec<String>, args: Vec<CallArg> },
    /// Any other expression shape (literal, cast, case, ...).
    Other,
}

/// One argument of a function call.
pub enum CallArg {
    /// A plain positional expression argument.
    Value { expr: ValueExpr },
    /// Named arguments, wildcard arguments and other shapes the engine ignores.
    Other,
}

/// One item of a SELECT projection list.
pub enum Projection {
    /// `select id`
    Bare { name: String },
    /// `select orders.id`
    Compound { parts: Vec<String> },
    /// An unnamed expression of any other shape; the walker passes it over.
    Ignored,
    /// `select <expr> as alias`
    Aliased { alias: String, expr: ValueExpr },
    /// `select *` or `select t.*`
    Wildcard,
}

/// One entry of a FROM list.
pub enum TableRef {
    /// A base table, named by its dotted parts (`orders` or `schema.orders`).
    Base { parts: Vec<String> },
    /// A derived table: a parenthesized subquery used in place of a table.
    Derived { body: Box<QueryBody> },
    /// Joins with table functions and other unsupported relation shapes.
    Other,
}

/// The body of a query: a SELECT, a set operation over two bodies, or an
/// unsupported shape.
pub enum QueryBody {
    Select { projection: Vec<Projection>, from: Vec<TableRef> },
    SetOp { left: Box<QueryBody>, right: Box<QueryBody> },
    Other,
}

/// One parsed statement: a query statement carrying its body, or any other
/// statement kind, which the engine ignores.
pub enum SqlStatement {
    Query { body: QueryBody },
    Other,
}

/// The unsupported-construct errors: any of these aborts the whole run,
/// mirroring the error taxonomy of the engine (unresolvable references, by
/// contrast, are dropped silently and are not errors).
#[derive(Debug, Clone, Copy, PartialEq, Eq, Structural)]
pub enum LineageError {
    /// A query body shape the engine does not support (VALUES, nested query, ...).
    UnsupportedBody,
    /// A projection shape the engine does not support (wildcards).
    UnsupportedProjection,
    /// An expression shape the decomposer does not support.
    UnsupportedExpression,
    /// A compound identifier with no parts.
    EmptyIdentifier,
    /// The SQL text could not be parsed.
    ParseFailure,
}

} // verus!
