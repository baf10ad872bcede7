use vstd::prelude::*;

use crate::mapping::{opt_view, Derivee, FieldMapping};
use crate::syntax::{
    find_attr, first_attr, is_expr_path, is_type_path, parse_str_literal, parses_as_expr_path,
    parses_as_path, str_literal_value, Attribute, Data, DeriveInput, Field, Fields,
};

verus! {

/// Why a record type description cannot be mapped.
#[derive(Debug, PartialEq, Eq)]
pub enum ConfigError {
    /// The type has no `#[table(...)]` attribute.
    MissingTable,
    /// The `#[table]` attribute does not hold exactly one string literal.
    MalformedTable,
    /// The `#[check]` attribute does not hold exactly one string literal.
    MalformedCheck,
    /// The `#[column]` attribute of the named field does not hold exactly one string literal.
    MalformedColumn(String),
    /// The `#[bind]` attribute of the named field does not hold exactly one path.
    MalformedBind(String),
    /// The `#[extr]` attribute of the named field does not hold exactly one path.
    MalformedExtr(String),
    /// The type has generic or lifetime parameters.
    GenericType,
    /// The type is an enum or a union.
    NotStruct,
    /// The type is a tuple struct or a unit struct.
    NotNamedFields,
    /// The type is a struct without fields.
    NoFields,
}

/// What is wrong, for each configuration error.
pub open spec fn message_of(e: ConfigError) -> Seq<char> {
    match e {
        ConfigError::MissingTable => "Expected a #[table(...)] attribute."@,
        ConfigError::MalformedTable => "The #[table] attribute expects a single string literal as its argument."@,
        ConfigError::MalformedCheck => "The #[check] attribute expects a single string literal as its argument."@,
        ConfigError::MalformedColumn(_) => "The #[column] attribute expects a single string literal as its argument."@,
        ConfigError::MalformedBind(_) => "The #[bind] attribute expects a single path for its argument."@,
        ConfigError::MalformedExtr(_) => "The #[extr] attribute expects a single path for its argument."@,
        ConfigError::GenericType => "Model can only be derived for concrete types."@,
        ConfigError::NotStruct => "Model can only be derived for struct types."@,
        ConfigError::NotNamedFields => "Model can only be derived for structs with named fields."@,
        ConfigError::NoFields => "Model can only be derived for structs with named fields."@,
    }
}

/// How to put it right, naming the expected syntax, for each configuration error.
pub open spec fn hint_of(e: ConfigError) -> Seq<char> {
    match e {
        ConfigError::MissingTable => "The table is never inferred from the type's name; specify it like this: #[table(\"table_name\")]."@,
        ConfigError::MalformedTable => "Specify the table like this: #[table(\"table_name\")]."@,
        ConfigError::MalformedCheck => "Specify the schema path, relative to the current file, like this: #[check(\"path/to/schema\")]."@,
        ConfigError::MalformedColumn(_) => "Specify the column like this: #[column(\"column_name\")]."@,
        ConfigError::MalformedBind(_) => "Specify the bind function like this: #[bind(path::to::fn)]; it takes &T, T being the field's type, and returns a bind result."@,
        ConfigError::MalformedExtr(_) => "Specify the extraction function like this: #[extr(path::to::fn)]; it takes a value reference and returns an extraction result of T, the field's type."@,
        ConfigError::GenericType => "Generics and lifetime parameters are not supported."@,
        ConfigError::NotStruct => "Enums and unions are not supported, but they can be embedded in a model struct if they can be bound and extracted."@,
        ConfigError::NotNamedFields => "Tuple and unit structs are not supported."@,
        ConfigError::NoFields => "Tuple and unit structs are not supported."@,
    }
}

impl ConfigError {
    /// What is wrong.
    pub fn message(&self) -> (r: &'static str)
        ensures
            r@ == message_of(*self),
    {
        match self {
            ConfigError::MissingTable => "Expected a #[table(...)] attribute.",
            ConfigError::MalformedTable => "The #[table] attribute expects a single string literal as its argument.",
            ConfigError::MalformedCheck => "The #[check] attribute expects a single string literal as its argument.",
            ConfigError::MalformedColumn(_) => "The #[column] attribute expects a single string literal as its argument.",
            ConfigError::MalformedBind(_) => "The #[bind] attribute expects a single path for its argument.",
            ConfigError::MalformedExtr(_) => "The #[extr] attribute expects a single path for its argument.",
            ConfigError::GenericType => "Model can only be derived for concrete types.",
            ConfigError::NotStruct => "Model can only be derived for struct types.",
            ConfigError::NotNamedFields => "Model can only be derived for structs with named fields.",
            ConfigError::NoFields => "Model can only be derived for structs with named fields.",
        }
    }

    /// How to put it right.
    pub fn hint(&self) -> (r: &'static str)
        ensures
            r@ == hint_of(*self),
    {
        match self {
            ConfigError::MissingTable => "The table is never inferred from the type's name; specify it like this: #[table(\"table_name\")].",
            ConfigError::MalformedTable => "Specify the table like this: #[table(\"table_name\")].",
            ConfigError::MalformedCheck => "Specify the schema path, relative to the current file, like this: #[check(\"path/to/schema\")].",
            ConfigError::MalformedColumn(_) => "Specify the column like this: #[column(\"column_name\")].",
            ConfigError::MalformedBind(_) => "Specify the bind function like this: #[bind(path::to::fn)]; it takes &T, T being the field's type, and returns a bind result.",
            ConfigError::MalformedExtr(_) => "Specify the extraction function like this: #[extr(path::to::fn)]; it takes a value reference and returns an extraction result of T, the field's type.",
            ConfigError::GenericType => "Generics and lifetime parameters are not supported.",
            ConfigError::NotStruct => "Enums and unions are not supported, but they can be embedded in a model struct if they can be bound and extracted.",
            ConfigError::NotNamedFields => "Tuple and unit structs are not supported.",
            ConfigError::NoFields => "Tuple and unit structs are not supported.",
        }
    }
}

/// The string literal that attribute `a` holds, if it holds exactly one.
pub open spec fn literal_arg(a: Attribute) -> Option<Seq<char>> {
    match a.args {
        Some(t) => str_literal_value(t@),
        None => None,
    }
}

/// The view of a resolved string.
pub open spec fn result_view(r: Result<String, ConfigError>) -> Result<Seq<char>, ConfigError> {
    match r {
        Ok(s) => Ok(s@),
        Err(e) => Err(e),
    }
}

/// The view of a resolved optional string.
pub open spec fn result_opt_view(r: Result<Option<String>, ConfigError>) -> Result<Option<Seq<char>>, ConfigError> {
    match r {
        Ok(Some(s)) => Ok(Some(s@)),
        Ok(None) => Ok(None),
        Err(e) => Err(e),
    }
}

/// The table named by `#[table("...")]`.
pub open spec fn table_of(attrs: Seq<Attribute>) -> Result<Seq<char>, ConfigError> {
    match first_attr(attrs, "table"@) {
        None => Err(ConfigError::MissingTable),
        Some(a) => match literal_arg(a) {
            Some(v) => Ok(v),
            None => Err(ConfigError::MalformedTable),
        },
    }
}

/// The schema path named by `#[check("...")]`, if the attribute is there.
pub open spec fn check_path_of(attrs: Seq<Attribute>) -> Result<Option<Seq<char>>, ConfigError> {
    match first_attr(attrs, "check"@) {
        None => Ok(None),
        Some(a) => match literal_arg(a) {
            Some(v) => Ok(Some(v)),
            None => Err(ConfigError::MalformedCheck),
        },
    }
}

/// The column of field `f`: the literal of `#[column("...")]`, or else the field's name.
pub open spec fn column_of(f: Field) -> Result<Seq<char>, ConfigError> {
    match first_attr(f.attrs@, "column"@) {
        None => Ok(f.ident@),
        Some(a) => match literal_arg(a) {
            Some(v) => Ok(v),
            None => Err(ConfigError::MalformedColumn(f.ident)),
        },
    }
}

/// The bind function of field `f`, named by `#[bind(path)]`.
pub open spec fn bind_of(f: Field) -> Result<Option<Seq<char>>, ConfigError> {
    match first_attr(f.attrs@, "bind"@) {
        None => Ok(None),
        Some(a) => match a.args {
            Some(t) => if is_type_path(t@) {
                Ok(Some(t@))
            } else {
                Err(ConfigError::MalformedBind(f.ident))
            },
            None => Err(ConfigError::MalformedBind(f.ident)),
        },
    }
}

/// The extraction function of field `f`, named by `#[extr(path)]`.
pub open spec fn extr_of(f: Field) -> Result<Option<Seq<char>>, ConfigError> {
    match first_attr(f.attrs@, "extr"@) {
        None => Ok(None),
        Some(a) => match a.args {
            Some(t) => if is_expr_path(t@) {
                Ok(Some(t@))
            } else {
                Err(ConfigError::MalformedExtr(f.ident))
            },
            None => Err(ConfigError::MalformedExtr(f.ident)),
        },
    }
}

/// The string literal that `attr` holds, if it holds exactly one.
fn literal_of(attr: &Attribute) -> (r: Option<String>)
    ensures
        match r {
            Some(v) => literal_arg(*attr) == Some(v@),
            None => literal_arg(*attr) is None,
        },
{
    match &attr.args {
        Some(tokens) => parse_str_literal(tokens.as_str()),
        None => None,
    }
}

/// The table that the type maps to, from its `#[table("...")]` attribute.
pub fn get_table_name(ast: &DeriveInput) -> (r: Result<String, ConfigError>)
    ensures
        result_view(r) == table_of(ast.attrs@),
{
    match find_attr(&ast.attrs, "table") {
        None => Err(ConfigError::MissingTable),
        Some(attr) => match literal_of(attr) {
            Some(v) => Ok(v),
            None => Err(ConfigError::MalformedTable),
        },
    }
}

/// The schema path of the type's `#[check("...")]` attribute, if it has one.
pub fn get_check_path(ast: &DeriveInput) -> (r: Result<Option<String>, ConfigError>)
    ensures
        result_opt_view(r) == check_path_of(ast.attrs@),
{
    match find_attr(&ast.attrs, "check") {
        None => Ok(None),
        Some(attr) => match literal_of(attr) {
            Some(v) => Ok(Some(v)),
            None => Err(ConfigError::MalformedCheck),
        },
    }
}

/// The column that `field` maps to: its `#[column("...")]` override, or else its name.
pub fn get_col_name(field: &Field) -> (r: Result<String, ConfigError>)
    ensures
        result_view(r) == column_of(*field),
{
    match find_attr(&field.attrs, "column") {
        None => Ok(field.ident.clone()),
        Some(attr) => match literal_of(attr) {
            Some(v) => Ok(v),
            None => Err(ConfigError::MalformedColumn(field.ident.clone())),
        },
    }
}

/// The path of the bind function named by the field's `#[bind(...)]` attribute, if any.
pub fn get_bind_path(field: &Field) -> (r: Result<Option<String>, ConfigError>)
    ensures
        result_opt_view(r) == bind_of(*field),
{
    match find_attr(&field.attrs, "bind") {
        None => Ok(None),
        Some(attr) => match &attr.args {
            Some(tokens) => if parses_as_path(tokens.as_str()) {
                Ok(Some(tokens.clone()))
            } else {
                Err(ConfigError::MalformedBind(field.ident.clone()))
            },
            None => Err(ConfigError::MalformedBind(field.ident.clone())),
        },
    }
}

/// The path of the extraction function named by the field's `#[extr(...)]` attribute, if any.
pub fn get_extr_path(field: &Field) -> (r: Result<Option<String>, ConfigError>)
    ensures
        result_opt_view(r) == extr_of(*field),
{
    match find_attr(&field.attrs, "extr") {
        None => Ok(None),
        Some(attr) => match &attr.args {
            Some(tokens) => if parses_as_expr_path(tokens.as_str()) {
                Ok(Some(tokens.clone()))
            } else {
                Err(ConfigError::MalformedExtr(field.ident.clone()))
            },
            None => Err(ConfigError::MalformedExtr(field.ident.clone())),
        },
    }
}

/// The first error among the attributes of field `f`: its column, then its bind function,
/// then its extraction function.
pub open spec fn field_error(f: Field) -> Option<ConfigError> {
    if column_of(f) is Err {
        Some(column_of(f)->Err_0)
    } else if bind_of(f) is Err {
        Some(bind_of(f)->Err_0)
    } else if extr_of(f) is Err {
        Some(extr_of(f)->Err_0)
    } else {
        None
    }
}

/// The first error among the attributes of `fs`, in declaration order.
pub open spec fn first_field_error(fs: Seq<Field>) -> Option<ConfigError>
    decreases fs.len(),
{
    if fs.len() == 0 {
        None
    } else if field_error(fs[0]) is Some {
        field_error(fs[0])
    } else {
        first_field_error(fs.drop_first())
    }
}

/// `m` is field `f` with its attributes resolved.
pub open spec fn resolves_to(f: Field, m: FieldMapping) -> bool {
    &&& m.ident@ == f.ident@
    &&& m.ty@ == f.ty@
    &&& column_of(f) == Ok::<Seq<char>, ConfigError>(m.column@)
    &&& bind_of(f) == Ok::<Option<Seq<char>>, ConfigError>(opt_view(m.bind))
    &&& extr_of(f) == Ok::<Option<Seq<char>>, ConfigError>(opt_view(m.extr))
}

/// The named fields of the described type; empty for any other shape.
pub open spec fn fields_of(ast: DeriveInput) -> Seq<Field> {
    match ast.data {
        Data::Struct(Fields::Named(v)) => v@,
        _ => Seq::empty(),
    }
}

/// What is wrong with the shape of the described type, if anything.
pub open spec fn shape_error(ast: DeriveInput) -> Option<ConfigError> {
    if ast.has_generics {
        Some(ConfigError::GenericType)
    } else {
        match ast.data {
            Data::Struct(Fields::Named(v)) => if v@.len() == 0 {
                Some(ConfigError::NoFields)
            } else {
                None
            },
            Data::Struct(_) => Some(ConfigError::NotNamedFields),
            _ => Some(ConfigError::NotStruct),
        }
    }
}

/// The first thing wrong with the description `ast`: its shape, then its table, then its
/// schema path, then the attributes of its fields in order.
pub open spec fn resolution_error(ast: DeriveInput) -> Option<ConfigError> {
    if shape_error(ast) is Some {
        shape_error(ast)
    } else if table_of(ast.attrs@) is Err {
        Some(table_of(ast.attrs@)->Err_0)
    } else if check_path_of(ast.attrs@) is Err {
        Some(check_path_of(ast.attrs@)->Err_0)
    } else {
        first_field_error(fields_of(ast))
    }
}

/// `d` is the description `ast` with its attributes resolved.
pub open spec fn resolved(ast: DeriveInput, d: Derivee) -> bool {
    &&& d.name@ == ast.ident@
    &&& table_of(ast.attrs@) == Ok::<Seq<char>, ConfigError>(d.table@)
    &&& check_path_of(ast.attrs@) == Ok::<Option<Seq<char>>, ConfigError>(opt_view(d.schema))
    &&& d.fields@.len() == fields_of(ast).len()
    &&& forall|i: int| 0 <= i < d.fields@.len() ==> resolves_to(fields_of(ast)[i], #[trigger] d.fields@[i])
}

/// Resolves the attributes of one field.
pub fn resolve_field(field: &Field) -> (r: Result<FieldMapping, ConfigError>)
    ensures
        match r {
            Ok(m) => field_error(*field) is None && resolves_to(*field, m),
            Err(e) => field_error(*field) == Some(e),
        },
{
    let column = match get_col_name(field) {
        Ok(c) => c,
        Err(e) => return Err(e),
    };
    let bind = match get_bind_path(field) {
        Ok(b) => b,
        Err(e) => return Err(e),
    };
    let extr = match get_extr_path(field) {
        Ok(x) => x,
        Err(e) => return Err(e),
    };
    Ok(FieldMapping { ident: field.ident.clone(), ty: field.ty.clone(), column, bind, extr })
}

/// Resolves a record type description: checks its shape and reads its table, its schema
/// path and the attributes of each field.
pub fn resolve(ast: &DeriveInput) -> (r: Result<Derivee, ConfigError>)
    ensures
        match r {
            Ok(d) => resolution_error(*ast) is None && resolved(*ast, d) && d.wf(),
            Err(e) => resolution_error(*ast) == Some(e),
        },
{
    if ast.has_generics {
        return Err(ConfigError::GenericType);
    }
    let fields = match &ast.data {
        Data::Struct(Fields::Named(fields)) => fields,
        Data::Struct(_) => return Err(ConfigError::NotNamedFields),
        _ => return Err(ConfigError::NotStruct),
    };
    if fields.len() == 0 {
        return Err(ConfigError::NoFields);
    }
    let table = match get_table_name(ast) {
        Ok(t) => t,
        Err(e) => return Err(e),
    };
    let schema = match get_check_path(ast) {
        Ok(s) => s,
        Err(e) => return Err(e),
    };
    let ghost fs = fields@;
    assert(shape_error(*ast) is None);
    assert(table_of(ast.attrs@) is Ok);
    assert(check_path_of(ast.attrs@) is Ok);
    assert(resolution_error(*ast) == first_field_error(fs));
    let mut mapped: Vec<FieldMapping> = Vec::new();
    let mut i: usize = 0;
    assert(fs.skip(0) =~= fs);
    while i < fields.len()
        invariant
            fs == fields@,
            fs == fields_of(*ast),
            resolution_error(*ast) == first_field_error(fs),
            shape_error(*ast) is None,
            table_of(ast.attrs@) == Ok::<Seq<char>, ConfigError>(table@),
            check_path_of(ast.attrs@) == Ok::<Option<Seq<char>>, ConfigError>(opt_view(schema)),
            i <= fs.len(),
            mapped@.len() == i,
            first_field_error(fs) == first_field_error(fs.skip(i as int)),
            forall|j: int| 0 <= j < i ==> resolves_to(fs[j], #[trigger] mapped@[j]),
        decreases fs.len() - i,
    {
        assert(fs.skip(i as int)[0] == fs[i as int]);
        assert(fs.skip(i as int).drop_first() =~= fs.skip(i + 1));
        let m = match resolve_field(&fields[i]) {
            Ok(m) => m,
            Err(e) => {
                assert(first_field_error(fs.skip(i as int)) == Some(e));
                return Err(e);
            },
        };
        mapped.push(m);
        i = i + 1;
    }
    assert(fs.skip(i as int).len() == 0);
    Ok(Derivee { name: ast.ident.clone(), table, fields: mapped, schema })
}

} // verus!
