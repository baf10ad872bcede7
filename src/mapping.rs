use vstd::prelude::*;
use vstd::string::StringExecFns;

verus! {

/// Conflict resolution strategies for an insertion.
///
/// The default, used by a plain insertion, is `Abort`.
#[derive(Debug, Clone, Copy, PartialEq, Eq, Hash, Structural)]
pub enum OnConflict {
    /// Error and revert the changes made by the current statement.
    Abort,
    /// Error but keep the changes made by the current statement.
    Fail,
    /// Skip the offending row and continue.
    Ignore,
    /// Delete the conflicting rows and continue.
    Replace,
    /// Abort the statement and roll back the current transaction.
    Rollback,
}

/// The text that follows `OR` in the statement for `p`; none for `Abort`.
pub open spec fn clause_of(p: OnConflict) -> Option<Seq<char>> {
    match p {
        OnConflict::Abort => None,
        OnConflict::Fail => Some("FAIL"@),
        OnConflict::Ignore => Some("IGNORE"@),
        OnConflict::Replace => Some("REPLACE"@),
        OnConflict::Rollback => Some("ROLLBACK"@),
    }
}

impl OnConflict {
    /// The clause that this policy adds to an insertion statement, if any.
    pub fn clause(&self) -> (r: Option<&'static str>)
        ensures
            match r {
                Some(c) => clause_of(*self) == Some(c@),
                None => clause_of(*self) is None,
            },
    {
        match self {
            OnConflict::Abort => None,
            OnConflict::Fail => Some("FAIL"),
            OnConflict::Ignore => Some("IGNORE"),
            OnConflict::Replace => Some("REPLACE"),
            OnConflict::Rollback => Some("ROLLBACK"),
        }
    }
}

impl Default for OnConflict {
    fn default() -> (r: Self)
        ensures
            r == OnConflict::Abort,
    {
        OnConflict::Abort
    }
}

/// One field of a record type, with its attributes resolved.
pub struct FieldMapping {
    /// The field's name.
    pub ident: String,
    /// The field's type, as written.
    pub ty: String,
    /// The column the field maps to: the field's name unless overridden.
    pub column: String,
    /// The path of the function that turns the field into an SQL value, if any.
    pub bind: Option<String>,
    /// The path of the function that reads the field from an SQL value, if any.
    pub extr: Option<String>,
}

/// A record type with its attributes resolved: the input of every generator.
pub struct Derivee {
    /// The name of the record type.
    pub name: String,
    /// The table the record type maps to.
    pub table: String,
    /// The fields, in declaration order.
    pub fields: Vec<FieldMapping>,
    /// The path of the schema that the mapping is checked against, if any.
    pub schema: Option<String>,
}

/// The views of a sequence of strings.
pub open spec fn views(v: Seq<String>) -> Seq<Seq<char>> {
    v.map_values(|s: String| s@)
}

/// `items`, each preceded by `prefix`, separated by `", "`.
pub open spec fn joined(items: Seq<Seq<char>>, prefix: Seq<char>) -> Seq<char>
    decreases items.len(),
{
    if items.len() == 0 {
        Seq::empty()
    } else if items.len() == 1 {
        prefix + items[0]
    } else {
        joined(items.drop_last(), prefix) + ", "@ + prefix + items.last()
    }
}

/// What follows the conflict clause in an insertion statement:
/// `INTO <table> (<c1>, <c2>, ...) VALUES(:<c1>, :<c2>, ...);`.
pub open spec fn insert_body(table: Seq<char>, cols: Seq<Seq<char>>) -> Seq<char> {
    "INTO "@ + table + " "@ + "("@ + joined(cols, Seq::empty()) + ") "@ + "VALUES("@ + joined(cols, ":"@)
        + ");"@
}

/// The start of an insertion statement: `INSERT `, then `OR <clause> ` if there is a clause.
pub open spec fn insert_head(clause: Option<Seq<char>>) -> Seq<char> {
    match clause {
        Some(c) => "INSERT "@ + "OR "@ + c + " "@,
        None => "INSERT "@,
    }
}

/// The insertion statement for a table and its columns, with an optional conflict clause:
/// `INSERT [OR <clause>] INTO <table> (<c1>, <c2>, ...) VALUES(:<c1>, :<c2>, ...);`.
pub open spec fn insert_text(clause: Option<Seq<char>>, table: Seq<char>, cols: Seq<Seq<char>>) -> Seq<char> {
    insert_head(clause) + insert_body(table, cols)
}

/// The view of an optional string slice.
pub open spec fn opt_str_view(o: Option<&str>) -> Option<Seq<char>> {
    match o {
        Some(s) => Some(s@),
        None => None,
    }
}

/// The view of an optional string.
pub open spec fn opt_view(o: Option<String>) -> Option<Seq<char>> {
    match o {
        Some(s) => Some(s@),
        None => None,
    }
}

impl Derivee {
    /// A derivee has at least one field.
    pub open spec fn wf(&self) -> bool {
        self.fields@.len() > 0
    }

    /// The field names, in declaration order.
    pub open spec fn ident_seq(&self) -> Seq<Seq<char>> {
        self.fields@.map_values(|f: FieldMapping| f.ident@)
    }

    /// The column names, in declaration order.
    pub open spec fn column_seq(&self) -> Seq<Seq<char>> {
        self.fields@.map_values(|f: FieldMapping| f.column@)
    }

    /// The insertion statement for this mapping under `clause`.
    pub open spec fn statement(&self, clause: Option<Seq<char>>) -> Seq<char> {
        insert_text(clause, self.table@, self.column_seq())
    }

    /// The field names, in declaration order.
    pub fn field_idents(&self) -> (r: Vec<String>)
        ensures
            views(r@) == self.ident_seq(),
    {
        let mut r: Vec<String> = Vec::new();
        let mut i: usize = 0;
        while i < self.fields.len()
            invariant
                i <= self.fields@.len(),
                r@.len() == i,
                views(r@) == self.ident_seq().take(i as int),
            decreases self.fields@.len() - i,
        {
            let ghost prev = r@;
            r.push(self.fields[i].ident.clone());
            assert forall|j: int| 0 <= j < i implies #[trigger] r@[j]@ == views(prev)[j] by {
                assert(r@[j] == prev[j]);
            }
            assert(views(r@) =~= self.ident_seq().take(i + 1));
            i = i + 1;
        }
        assert(self.ident_seq().take(i as int) =~= self.ident_seq());
        r
    }

    /// The column names, in declaration order.
    pub fn col_names(&self) -> (r: Vec<String>)
        ensures
            views(r@) == self.column_seq(),
    {
        let mut r: Vec<String> = Vec::new();
        let mut i: usize = 0;
        while i < self.fields.len()
            invariant
                i <= self.fields@.len(),
                r@.len() == i,
                views(r@) == self.column_seq().take(i as int),
            decreases self.fields@.len() - i,
        {
            let ghost prev = r@;
            r.push(self.fields[i].column.clone());
            assert forall|j: int| 0 <= j < i implies #[trigger] r@[j]@ == views(prev)[j] by {
                assert(r@[j] == prev[j]);
            }
            assert(views(r@) =~= self.column_seq().take(i + 1));
            i = i + 1;
        }
        assert(self.column_seq().take(i as int) =~= self.column_seq());
        r
    }

    /// The insertion statement for this mapping, with `OR <clause>` when a clause is given.
    pub fn gen_query(&self, clause: Option<&str>) -> (r: String)
        requires
            self.wf(),
        ensures
            r@ == self.statement(opt_str_view(clause)),
    {
        let mut buf = String::from_str("INSERT ");
        if let Some(c) = clause {
            buf.append("OR ");
            buf.append(c);
            buf.append(" ");
        }
        buf.append("INTO ");
        buf.append(self.table.as_str());
        buf.append(" ");

        let ghost cs = self.column_seq();
        let mut cols = String::from_str("(");
        let mut values = String::from_str("VALUES(");
        let mut i: usize = 0;
        while i < self.fields.len()
            invariant
                i <= self.fields@.len(),
                cs == self.column_seq(),
                cols@ == "("@ + joined(cs.take(i as int), Seq::empty()),
                values@ == "VALUES("@ + joined(cs.take(i as int), ":"@),
            decreases self.fields@.len() - i,
        {
            let ghost cols0 = cols@;
            let ghost values0 = values@;
            let col = self.fields[i].column.as_str();
            assert(col@ == cs[i as int]);
            if i > 0 {
                cols.append(", ");
                values.append(", ");
            }
            cols.append(col);
            values.append(":");
            values.append(col);
            assert(cs.take(i + 1).drop_last() =~= cs.take(i as int));
            assert(cs.take(i + 1).last() == cs[i as int]);
            assert(cols@ =~= "("@ + joined(cs.take(i + 1), Seq::empty()));
            assert(values@ =~= "VALUES("@ + joined(cs.take(i + 1), ":"@));
            i = i + 1;
        }
        assert(cs.take(i as int) =~= cs);
        cols.append(") ");
        values.append(");");
        buf.append(cols.as_str());
        buf.append(values.as_str());
        assert(buf@ =~= self.statement(opt_str_view(clause)));
        buf
    }
}

} // verus!
