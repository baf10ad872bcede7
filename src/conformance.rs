use vstd::prelude::*;

use crate::codegen::CheckTest;
use crate::mapping::{opt_view, views};

verus! {

/// A mismatch between the columns that a mapping declares and those of its table.
#[derive(Debug, PartialEq, Eq)]
pub enum ConformanceError {
    /// A column that the mapping declares is not in the schema.
    UndeclaredColumn(String),
    /// A column of the schema is not declared by the mapping.
    UnmappedColumn(String),
}

/// What is wrong, for each kind of mismatch.
pub open spec fn conformance_message(e: ConformanceError) -> Seq<char> {
    match e {
        ConformanceError::UndeclaredColumn(_) => "A field in the model has no corresponding column in the schema."@,
        ConformanceError::UnmappedColumn(_) => "A column in the schema has no corresponding field in the model."@,
    }
}

impl ConformanceError {
    /// The column at fault.
    pub fn column(&self) -> (r: &String)
        ensures
            match self {
                ConformanceError::UndeclaredColumn(c) => r == c,
                ConformanceError::UnmappedColumn(c) => r == c,
            },
    {
        match self {
            ConformanceError::UndeclaredColumn(c) => c,
            ConformanceError::UnmappedColumn(c) => c,
        }
    }

    /// What is wrong.
    pub fn message(&self) -> (r: &'static str)
        ensures
            r@ == conformance_message(*self),
    {
        match self {
            ConformanceError::UndeclaredColumn(_) => "A field in the model has no corresponding column in the schema.",
            ConformanceError::UnmappedColumn(_) => "A column in the schema has no corresponding field in the model.",
        }
    }
}

/// The first of `items` that `other` does not hold.
pub open spec fn first_missing(items: Seq<Seq<char>>, other: Seq<Seq<char>>) -> Option<Seq<char>>
    decreases items.len(),
{
    if items.len() == 0 {
        None
    } else if !other.contains(items[0]) {
        Some(items[0])
    } else {
        first_missing(items.drop_first(), other)
    }
}

/// The outcome of checking `declared` columns against `schema` columns: first every declared
/// column is looked up in the schema, then every schema column among the declared ones.
pub open spec fn conformance(declared: Seq<Seq<char>>, schema: Seq<Seq<char>>) -> Result<(), (bool, Seq<char>)> {
    match first_missing(declared, schema) {
        Some(c) => Err((true, c)),
        None => match first_missing(schema, declared) {
            Some(c) => Err((false, c)),
            None => Ok(()),
        },
    }
}

/// The view of a check's outcome: `(true, c)` for an undeclared column `c`, `(false, c)` for
/// an unmapped one.
pub open spec fn outcome_view(r: Result<(), ConformanceError>) -> Result<(), (bool, Seq<char>)> {
    match r {
        Ok(()) => Ok(()),
        Err(ConformanceError::UndeclaredColumn(c)) => Err((true, c@)),
        Err(ConformanceError::UnmappedColumn(c)) => Err((false, c@)),
    }
}

/// `first_missing` finds nothing exactly when every item is in `other`, and what it finds is
/// an item that `other` lacks.
pub proof fn lemma_first_missing(items: Seq<Seq<char>>, other: Seq<Seq<char>>)
    ensures
        first_missing(items, other) is None <==> forall|x: Seq<char>| #[trigger] items.contains(x) ==> other.contains(x),
        first_missing(items, other) matches Some(c) ==> items.contains(c) && !other.contains(c),
    decreases items.len(),
{
    if items.len() > 0 {
        let rest = items.drop_first();
        lemma_first_missing(rest, other);
        assert forall|x: Seq<char>| rest.contains(x) implies items.contains(x) by {
            let k = choose|k: int| 0 <= k < rest.len() && rest[k] == x;
            assert(items[k + 1] == x);
        }
        assert forall|x: Seq<char>| #[trigger] items.contains(x) && x != items[0] implies rest.contains(x) by {
            let k = choose|k: int| 0 <= k < items.len() && items[k] == x;
            assert(k != 0);
            assert(rest[k - 1] == x);
        }
        assert(items.contains(items[0]));
    }
}

/// Two sequences hold the same items exactly when each holds the other's.
proof fn lemma_same_items(a: Seq<Seq<char>>, b: Seq<Seq<char>>)
    ensures
        a.to_set() == b.to_set() <==> (forall|x: Seq<char>| #[trigger] a.contains(x) ==> b.contains(x))
            && (forall|x: Seq<char>| #[trigger] b.contains(x) ==> a.contains(x)),
{
    if (forall|x: Seq<char>| #[trigger] a.contains(x) ==> b.contains(x))
        && (forall|x: Seq<char>| #[trigger] b.contains(x) ==> a.contains(x)) {
        assert(a.to_set() =~= b.to_set());
    }
    if a.to_set() == b.to_set() {
        assert forall|x: Seq<char>| #[trigger] a.contains(x) implies b.contains(x) by {
            assert(a.to_set().contains(x));
        }
        assert forall|x: Seq<char>| #[trigger] b.contains(x) implies a.contains(x) by {
            assert(b.to_set().contains(x));
        }
    }
}

/// Whether `v` holds `s`.
fn contains_str(v: &Vec<String>, s: &String) -> (r: bool)
    ensures
        r == views(v@).contains(s@),
{
    let mut i: usize = 0;
    while i < v.len()
        invariant
            i <= v@.len(),
            forall|j: int| 0 <= j < i ==> views(v@)[j] != s@,
        decreases v@.len() - i,
    {
        if v[i] == *s {
            assert(views(v@)[i as int] == s@);
            return true;
        }
        i = i + 1;
    }
    false
}

/// The first of `items` that `other` does not hold.
fn find_missing(items: &Vec<String>, other: &Vec<String>) -> (r: Option<String>)
    ensures
        opt_view(r) == first_missing(views(items@), views(other@)),
{
    let ghost xs = views(items@);
    let ghost ys = views(other@);
    let mut i: usize = 0;
    assert(xs.skip(0) =~= xs);
    while i < items.len()
        invariant
            i <= items@.len(),
            xs == views(items@),
            ys == views(other@),
            first_missing(xs, ys) == first_missing(xs.skip(i as int), ys),
        decreases items@.len() - i,
    {
        assert(xs.skip(i as int)[0] == xs[i as int]);
        assert(xs.skip(i as int).drop_first() =~= xs.skip(i + 1));
        if !contains_str(other, &items[i]) {
            return Some(items[i].clone());
        }
        i = i + 1;
    }
    assert(xs.skip(i as int).len() == 0);
    None
}

/// Checks the columns that a mapping declares against those of its table's schema: every
/// declared column must be in the schema, and every schema column must be declared. Names
/// are compared exactly; duplicates count once.
pub fn check_columns(declared: &Vec<String>, schema: &Vec<String>) -> (r: Result<(), ConformanceError>)
    ensures
        outcome_view(r) == conformance(views(declared@), views(schema@)),
        r is Ok <==> views(declared@).to_set() == views(schema@).to_set(),
        r matches Err(ConformanceError::UndeclaredColumn(c)) ==> views(declared@).contains(c@)
            && !views(schema@).contains(c@),
        r matches Err(ConformanceError::UnmappedColumn(c)) ==> views(schema@).contains(c@)
            && !views(declared@).contains(c@),
{
    proof {
        lemma_first_missing(views(declared@), views(schema@));
        lemma_first_missing(views(schema@), views(declared@));
        lemma_same_items(views(declared@), views(schema@));
    }
    match find_missing(declared, schema) {
        Some(c) => Err(ConformanceError::UndeclaredColumn(c)),
        None => match find_missing(schema, declared) {
            Some(c) => Err(ConformanceError::UnmappedColumn(c)),
            None => Ok(()),
        },
    }
}

impl CheckTest {
    /// Checks the declared columns against `schema_columns`, the columns of the table in the
    /// schema.
    pub fn check(&self, schema_columns: &Vec<String>) -> (r: Result<(), ConformanceError>)
        ensures
            outcome_view(r) == conformance(views(self.columns@), views(schema_columns@)),
    {
        check_columns(&self.columns, schema_columns)
    }
}

} // verus!
