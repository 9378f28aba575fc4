use vstd::prelude::*;

pub mod analytics;
pub mod ast;
pub mod laws;
pub mod model;
pub mod parse;

verus! {

/// One record of the column catalog: a fully qualified column,
/// `database.schema.table.column`, loaded once and read-only thereafter.
pub struct FullColumn {
    pub database_name: String,
    pub schema_name: String,
    pub table_name: String,
    pub column_name: String,
}

impl FullColumn {
    /// The dotted fully-qualified identifier of this record, at the spec level.
    pub open spec fn fq_id(self) -> Seq<char> {
        self.database_name@ + "."@ + self.schema_name@ + "."@ + self.table_name@ + "."@
            + self.column_name@
    }

    /// Builds the dotted fully-qualified identifier `database.schema.table.column`.
    pub fn to_fq_id(&self) -> (r: String)
        ensures
            r@ == self.fq_id(),
    {
        let mut s = String::new();
        s.append(self.database_name.as_str());
        s.append(".");
        s.append(self.schema_name.as_str());
        s.append(".");
        s.append(self.table_name.as_str());
        s.append(".");
        s.append(self.column_name.as_str());
        s
    }
}

} // verus!
