use vstd::prelude::*;

verus! {

/// An attribute on a type or a field: `#[path(args)]`.
pub struct Attribute {
    /// The attribute's path, as written (`table`, `column`, ...).
    pub path: String,
    /// The tokens between the delimiters of a list attribute (`#[path(...)]`); `None` for
    /// the other forms (`#[path]`, `#[path = value]`).
    pub args: Option<String>,
}

/// A named field of a struct.
pub struct Field {
    /// The field's name.
    pub ident: String,
    /// The field's type, as written.
    pub ty: String,
    /// The field's attributes, in order.
    pub attrs: Vec<Attribute>,
}

/// The fields of a struct.
pub enum Fields {
    /// Braced fields: `struct S { a: A, b: B }`.
    Named(Vec<Field>),
    /// Positional fields: `struct S(A, B);`.
    Unnamed,
    /// No fields at all: `struct S;`.
    Unit,
}

/// The shape of a type definition.
pub enum Data {
    /// A struct.
    Struct(Fields),
    /// An enum.
    Enum,
    /// A union.
    Union,
}

/// A type definition with its attributes: the description of a record type.
pub struct DeriveInput {
    /// The type's name.
    pub ident: String,
    /// The type's attributes, in order.
    pub attrs: Vec<Attribute>,
    /// Whether the type declares generic or lifetime parameters.
    pub has_generics: bool,
    /// The type's shape.
    pub data: Data,
}

/// The first attribute of `attrs` whose path is `name`.
pub open spec fn first_attr(attrs: Seq<Attribute>, name: Seq<char>) -> Option<Attribute>
    decreases attrs.len(),
{
    if attrs.len() == 0 {
        None
    } else if attrs[0].path@ == name {
        Some(attrs[0])
    } else {
        first_attr(attrs.drop_first(), name)
    }
}

/// The first attribute of `attrs` whose path is `name`.
pub fn find_attr<'a>(attrs: &'a Vec<Attribute>, name: &str) -> (r: Option<&'a Attribute>)
    ensures
        match r {
            Some(a) => first_attr(attrs@, name@) == Some(*a),
            None => first_attr(attrs@, name@) is None,
        },
{
    let key = String::from_str(name);
    let mut i: usize = 0;
    assert(attrs@.skip(0) =~= attrs@);
    while i < attrs.len()
        invariant
            i <= attrs@.len(),
            key@ == name@,
            first_attr(attrs@, name@) == first_attr(attrs@.skip(i as int), name@),
        decreases attrs@.len() - i,
    {
        assert(attrs@.skip(i as int)[0] == attrs@[i as int]);
        assert(attrs@.skip(i as int).drop_first() =~= attrs@.skip(i + 1));
        if attrs[i].path == key {
            return Some(&attrs[i]);
        }
        i = i + 1;
    }
    assert(attrs@.skip(i as int).len() == 0);
    None
}

/// The value of a string literal written as `tokens`, unescaped; `None` when `tokens` is not
/// exactly one string literal.
pub uninterp spec fn str_literal_value(tokens: Seq<char>) -> Option<Seq<char>>;

/// Whether `tokens` is exactly one path in type position (`a::b`, `Vec<u8>`).
pub uninterp spec fn is_type_path(tokens: Seq<char>) -> bool;

/// Whether `tokens` is exactly one path expression (`a::b`, `<T as U>::f`).
pub uninterp spec fn is_expr_path(tokens: Seq<char>) -> bool;

/// Relies on `syn::parse_str::<syn::Lit>`, which lexes `tokens` and parses them as one
/// literal, and on `syn::LitStr::value` for the unescaped value of a string literal.
#[verifier::external_body]
pub(crate) fn parse_str_literal(tokens: &str) -> (r: Option<String>)
    ensures
        match r {
            Some(v) => str_literal_value(tokens@) == Some(v@),
            None => str_literal_value(tokens@) is None,
        },
{
    match syn::parse_str::<syn::Lit>(tokens) {
        Ok(syn::Lit::Str(lit)) => Some(lit.value()),
        _ => None,
    }
}

/// Relies on `syn::parse_str::<syn::Path>`: whether `tokens` parse as one path.
#[verifier::external_body]
pub(crate) fn parses_as_path(tokens: &str) -> (r: bool)
    ensures
        r == is_type_path(tokens@),
{
    syn::parse_str::<syn::Path>(tokens).is_ok()
}

/// Relies on `syn::parse_str::<syn::ExprPath>`: whether `tokens` parse as one path
/// expression.
#[verifier::external_body]
pub(crate) fn parses_as_expr_path(tokens: &str) -> (r: bool)
    ensures
        r == is_expr_path(tokens@),
{
    syn::parse_str::<syn::ExprPath>(tokens).is_ok()
}

} // verus!
