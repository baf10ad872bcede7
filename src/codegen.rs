use vstd::prelude::*;
use vstd::string::StringExecFns;

use crate::attrs::{resolution_error, resolve, resolved, ConfigError};
use crate::mapping::{clause_of, views, Derivee, FieldMapping, OnConflict};
use crate::syntax::DeriveInput;

verus! {

/// How one field is read from a row.
pub enum Read {
    /// Through the native conversion of the field's type.
    Native { ty: String },
    /// Through the named extraction function, on the column's value reference.
    Extract { path: String },
}

/// How one field of a record is decoded: the column read and the way it is read.
pub struct Getter {
    /// The field that is filled.
    pub field: String,
    /// The column that is read.
    pub column: String,
    /// How the column's value becomes the field's value.
    pub read: Read,
}

/// How one field is handed to a statement.
pub enum ParamPlan {
    /// By reference to the field itself, with no conversion.
    Borrowed { field: String },
    /// By the owned value that the named bind function makes of the field.
    Boxed { field: String, bind: String },
}

/// A named statement parameter: `:<column>` and the field bound to it.
pub struct NamedParam {
    /// The parameter's name: the column prefixed with a colon.
    pub name: String,
    /// Where the parameter's value comes from.
    pub value: ParamPlan,
}

/// The insertion statements of a mapping, one for each conflict policy, and the
/// parameters bound to them.
pub struct InsertPlan {
    /// The statement without a conflict clause.
    pub abort: String,
    /// The statement with `OR FAIL`.
    pub fail: String,
    /// The statement with `OR IGNORE`.
    pub ignore: String,
    /// The statement with `OR REPLACE`.
    pub replace: String,
    /// The statement with `OR ROLLBACK`.
    pub rollback: String,
    /// The parameters, in the order of the columns.
    pub params: Vec<NamedParam>,
}

/// Static facts about a mapping.
#[derive(Debug, Clone, PartialEq, Eq)]
pub struct ModelMeta {
    /// The name of the record type.
    pub model: String,
    /// The table the record type maps to.
    pub table: String,
    /// The field names, in declaration order.
    pub fields: Vec<String>,
    /// The column names, in declaration order.
    pub columns: Vec<String>,
}

/// A check of a mapping against a schema.
pub struct CheckTest {
    /// The name of the check: the record type's name in lower case, then `_exemplar_check`.
    pub name: String,
    /// The path of the schema.
    pub path: String,
    /// The table whose columns are checked.
    pub table: String,
    /// The columns that the mapping declares.
    pub columns: Vec<String>,
}

/// `g` decodes field `f`: it reads `f`'s column into `f`, through `f`'s extraction function
/// if it has one and through the native conversion of its type otherwise.
pub open spec fn getter_for(g: Getter, f: FieldMapping) -> bool {
    &&& g.field@ == f.ident@
    &&& g.column@ == f.column@
    &&& match f.extr {
        Some(p) => g.read matches Read::Extract { path } && path@ == p@,
        None => g.read matches Read::Native { ty } && ty@ == f.ty@,
    }
}

/// `gs` decodes the fields of `d`, one getter per field, in declaration order.
pub open spec fn decodes(gs: Seq<Getter>, d: Derivee) -> bool {
    &&& gs.len() == d.fields@.len()
    &&& forall|i: int| 0 <= i < gs.len() ==> getter_for(#[trigger] gs[i], d.fields@[i])
}

/// The name of the parameter bound to column `c`.
pub open spec fn param_name(c: Seq<char>) -> Seq<char> {
    ":"@ + c
}

/// `p` binds field `f`: under `:` and `f`'s column, owned through `f`'s bind function if it
/// has one, borrowed otherwise.
pub open spec fn param_for(p: NamedParam, f: FieldMapping) -> bool {
    &&& p.name@ == param_name(f.column@)
    &&& match f.bind {
        Some(b) => p.value matches ParamPlan::Boxed { field, bind } && field@ == f.ident@ && bind@ == b@,
        None => p.value matches ParamPlan::Borrowed { field } && field@ == f.ident@,
    }
}

/// `ps` binds the fields of `d`, one parameter per field, in declaration order.
pub open spec fn binds(ps: Seq<NamedParam>, d: Derivee) -> bool {
    &&& ps.len() == d.fields@.len()
    &&& forall|i: int| 0 <= i < ps.len() ==> param_for(#[trigger] ps[i], d.fields@[i])
}

/// `m` is the metadata of `d`.
pub open spec fn describes(m: ModelMeta, d: Derivee) -> bool {
    &&& m.model@ == d.name@
    &&& m.table@ == d.table@
    &&& views(m.fields@) == d.ident_seq()
    &&& views(m.columns@) == d.column_seq()
}

/// `plan` holds the statement of `d` for each conflict policy and binds the fields of `d`.
pub open spec fn plans_inserts(plan: InsertPlan, d: Derivee) -> bool {
    &&& forall|p: OnConflict| #[trigger] plan.text(p) == d.statement(clause_of(p))
    &&& binds(plan.params@, d)
}

/// `c` is the schema check of `d`: there is one exactly when `d` names a schema.
pub open spec fn checks(c: Option<CheckTest>, d: Derivee) -> bool {
    match d.schema {
        None => c is None,
        Some(path) => c matches Some(t) && {
            &&& t.name@ == check_name(d.name@)
            &&& t.path@ == path@
            &&& t.table@ == d.table@
            &&& views(t.columns@) == d.column_seq()
        },
    }
}

impl InsertPlan {
    /// The statement for policy `p`.
    pub open spec fn text(&self, p: OnConflict) -> Seq<char> {
        match p {
            OnConflict::Abort => self.abort@,
            OnConflict::Fail => self.fail@,
            OnConflict::Ignore => self.ignore@,
            OnConflict::Replace => self.replace@,
            OnConflict::Rollback => self.rollback@,
        }
    }

    /// The statement for `strategy`.
    pub fn sql(&self, strategy: OnConflict) -> (r: &str)
        ensures
            r@ == self.text(strategy),
    {
        match strategy {
            OnConflict::Abort => self.abort.as_str(),
            OnConflict::Fail => self.fail.as_str(),
            OnConflict::Ignore => self.ignore.as_str(),
            OnConflict::Replace => self.replace.as_str(),
            OnConflict::Rollback => self.rollback.as_str(),
        }
    }
}

/// The decode plan of a mapping: for each field, in order, where and how it is read.
pub fn from_row(derivee: &Derivee) -> (r: Vec<Getter>)
    ensures
        decodes(r@, *derivee),
{
    let mut r: Vec<Getter> = Vec::new();
    let mut i: usize = 0;
    while i < derivee.fields.len()
        invariant
            i <= derivee.fields@.len(),
            r@.len() == i,
            forall|j: int| 0 <= j < i ==> getter_for(#[trigger] r@[j], derivee.fields@[j]),
        decreases derivee.fields@.len() - i,
    {
        let f = &derivee.fields[i];
        let read = match &f.extr {
            Some(path) => Read::Extract { path: path.clone() },
            None => Read::Native { ty: f.ty.clone() },
        };
        r.push(Getter { field: f.ident.clone(), column: f.column.clone(), read });
        i = i + 1;
    }
    r
}

/// The parameter of one field.
fn param_of(f: &FieldMapping) -> (r: NamedParam)
    ensures
        param_for(r, *f),
{
    let mut name = String::from_str(":");
    name.append(f.column.as_str());
    let value = match &f.bind {
        Some(bind) => ParamPlan::Boxed { field: f.ident.clone(), bind: bind.clone() },
        None => ParamPlan::Borrowed { field: f.ident.clone() },
    };
    NamedParam { name, value }
}

/// The parameter list of a mapping: for each field, in order, its parameter name and
/// whether it is borrowed or converted into an owned value.
pub fn to_params(derivee: &Derivee) -> (r: Vec<NamedParam>)
    ensures
        binds(r@, *derivee),
{
    let mut r: Vec<NamedParam> = Vec::new();
    let mut i: usize = 0;
    while i < derivee.fields.len()
        invariant
            i <= derivee.fields@.len(),
            r@.len() == i,
            forall|j: int| 0 <= j < i ==> param_for(#[trigger] r@[j], derivee.fields@[j]),
        decreases derivee.fields@.len() - i,
    {
        r.push(param_of(&derivee.fields[i]));
        i = i + 1;
    }
    r
}

/// The insertion statements of a mapping for the five conflict policies, and its parameters.
pub fn inserts(derivee: &Derivee) -> (r: InsertPlan)
    requires
        derivee.wf(),
    ensures
        plans_inserts(r, *derivee),
{
    let abort = derivee.gen_query(None);
    let fail = derivee.gen_query(Some("FAIL"));
    let ignore = derivee.gen_query(Some("IGNORE"));
    let replace = derivee.gen_query(Some("REPLACE"));
    let rollback = derivee.gen_query(Some("ROLLBACK"));
    let params = to_params(derivee);
    InsertPlan { abort, fail, ignore, replace, rollback, params }
}

/// The metadata of a mapping.
pub fn metadata(derivee: &Derivee) -> (r: ModelMeta)
    ensures
        describes(r, *derivee),
{
    ModelMeta {
        model: derivee.name.clone(),
        table: derivee.table.clone(),
        fields: derivee.field_idents(),
        columns: derivee.col_names(),
    }
}

/// The lower-case form of `s`.
pub uninterp spec fn lower_of(s: Seq<char>) -> Seq<char>;

/// Relies on `str::to_lowercase`: the result depends on the characters of `s` alone.
#[verifier::external_body]
fn to_lowercase(s: &str) -> (r: String)
    ensures
        r@ == lower_of(s@),
{
    s.to_lowercase()
}

/// The name of the schema check of the record type named `model`.
pub open spec fn check_name(model: Seq<char>) -> Seq<char> {
    lower_of(model) + "_exemplar_check"@
}

/// The schema check of a mapping against the schema at `path`, given the record type's name
/// in lower case.
pub fn schema_check(derivee: &Derivee, path: &String, lower_name: &str) -> (r: CheckTest)
    ensures
        r.name@ == lower_name@ + "_exemplar_check"@,
        r.path@ == path@,
        r.table@ == derivee.table@,
        views(r.columns@) == derivee.column_seq(),
{
    let mut name = String::from_str(lower_name);
    name.append("_exemplar_check");
    CheckTest { name, path: path.clone(), table: derivee.table.clone(), columns: derivee.col_names() }
}

/// The schema check of a mapping, if it names a schema.
pub fn check_test(derivee: &Derivee) -> (r: Option<CheckTest>)
    ensures
        checks(r, *derivee),
{
    match &derivee.schema {
        None => None,
        Some(path) => {
            let lower = to_lowercase(derivee.name.as_str());
            Some(schema_check(derivee, path, lower.as_str()))
        },
    }
}

/// Everything generated for one record type.
pub struct Derived {
    /// The record type with its attributes resolved.
    pub derivee: Derivee,
    /// How a row is decoded.
    pub from_row: Vec<Getter>,
    /// The insertion statements and their parameters.
    pub inserts: InsertPlan,
    /// The parameter list.
    pub to_params: Vec<NamedParam>,
    /// The metadata.
    pub metadata: ModelMeta,
    /// The schema check, if a schema is named.
    pub check_test: Option<CheckTest>,
}

/// `out` is what is generated from the resolved record type `d`.
pub open spec fn generated(out: Derived, d: Derivee) -> bool {
    &&& out.derivee == d
    &&& decodes(out.from_row@, d)
    &&& plans_inserts(out.inserts, d)
    &&& binds(out.to_params@, d)
    &&& describes(out.metadata, d)
    &&& checks(out.check_test, d)
}

/// Resolves a record type description and generates its decode plan, insertion statements,
/// parameter list, metadata and schema check.
pub fn derive_model(input: &DeriveInput) -> (r: Result<Derived, ConfigError>)
    ensures
        match r {
            Ok(out) => {
                &&& resolution_error(*input) is None
                &&& resolved(*input, out.derivee)
                &&& out.derivee.wf()
                &&& generated(out, out.derivee)
            },
            Err(e) => resolution_error(*input) == Some(e),
        },
{
    let derivee = match resolve(input) {
        Ok(d) => d,
        Err(e) => return Err(e),
    };
    let from_row = from_row(&derivee);
    let inserts = inserts(&derivee);
    let to_params = to_params(&derivee);
    let metadata = metadata(&derivee);
    let check_test = check_test(&derivee);
    Ok(Derived { derivee, from_row, inserts, to_params, metadata, check_test })
}

} // verus!
