use exemplar::{
    check_columns, derive_model, get_bind_path, get_check_path, get_col_name, get_extr_path,
    get_table_name, resolve, schema_check, Attribute, CheckTest, ConfigError, ConformanceError, Data,
    DeriveInput, Derived, Field, Fields, OnConflict, ParamPlan, Read,
};

fn attr(path: &str, args: &str) -> Attribute {
    Attribute { path: path.to_string(), args: Some(args.to_string()) }
}

fn field(ident: &str, ty: &str, attrs: Vec<Attribute>) -> Field {
    Field { ident: ident.to_string(), ty: ty.to_string(), attrs }
}

fn record(ident: &str, attrs: Vec<Attribute>, fields: Vec<Field>) -> DeriveInput {
    DeriveInput {
        ident: ident.to_string(),
        attrs,
        has_generics: false,
        data: Data::Struct(Fields::Named(fields)),
    }
}

fn person() -> DeriveInput {
    record(
        "Person",
        vec![attr("table", "\"people\"")],
        vec![
            field("name", "String", vec![]),
            field("age", "u16", vec![]),
            field("alive", "bool", vec![]),
        ],
    )
}

fn user() -> DeriveInput {
    record(
        "User",
        vec![attr("table", "\"users\""), attr("check", "\"schema.sql\"")],
        vec![
            field("username", "String", vec![]),
            field(
                "home_dir",
                "PathBuf",
                vec![attr("bind", "bind_path"), attr("extr", "extr_path")],
            ),
            field("password", "Vec<u8>", vec![attr("column", "\"pwd\"")]),
        ],
    )
}

fn derive(input: &DeriveInput) -> Derived {
    match derive_model(input) {
        Ok(d) => d,
        Err(e) => panic!("{}", e.message()),
    }
}

fn strings(items: &[&str]) -> Vec<String> {
    items.iter().map(|s| s.to_string()).collect()
}

#[test]
fn test_person_metadata() {
    let meta = derive(&person()).metadata;

    assert_eq!(meta.model, "Person");
    assert_eq!(meta.table, "people");
    assert_eq!(meta.fields, &["name", "age", "alive"]);
    assert_eq!(meta.columns, &["name", "age", "alive"]);
}

#[test]
fn test_user_metadata() {
    let meta = derive(&user()).metadata;

    assert_eq!(meta.model, "User");
    assert_eq!(meta.table, "users");
    assert_eq!(meta.fields, &["username", "home_dir", "password"]);
    assert_eq!(meta.columns, &["username", "home_dir", "pwd"]);
}

#[test]
fn person_abort_statement_and_params() {
    let derived = derive(&person());
    assert_eq!(
        derived.inserts.sql(OnConflict::Abort),
        "INSERT INTO people (name, age, alive) VALUES(:name, :age, :alive);"
    );
    let params = &derived.to_params;
    assert_eq!(params.len(), 3);
    for (param, (name, field)) in params
        .iter()
        .zip([(":name", "name"), (":age", "age"), (":alive", "alive")])
    {
        assert_eq!(param.name, name);
        match &param.value {
            ParamPlan::Borrowed { field: f } => assert_eq!(f, field),
            ParamPlan::Boxed { .. } => panic!("a field without a bind function is borrowed"),
        }
    }
}

#[test]
fn policy_clauses() {
    let derived = derive(&person());
    let body = "INTO people (name, age, alive) VALUES(:name, :age, :alive);";
    assert_eq!(derived.inserts.sql(OnConflict::Abort), format!("INSERT {body}"));
    assert_eq!(derived.inserts.sql(OnConflict::Fail), format!("INSERT OR FAIL {body}"));
    assert_eq!(derived.inserts.sql(OnConflict::Ignore), format!("INSERT OR IGNORE {body}"));
    assert_eq!(derived.inserts.sql(OnConflict::Replace), format!("INSERT OR REPLACE {body}"));
    assert_eq!(derived.inserts.sql(OnConflict::Rollback), format!("INSERT OR ROLLBACK {body}"));
    assert_eq!(OnConflict::default(), OnConflict::Abort);
    assert_eq!(OnConflict::Abort.clause(), None);
    assert_eq!(OnConflict::Rollback.clause(), Some("ROLLBACK"));
}

#[test]
fn statement_synthesis_is_deterministic() {
    let first = derive(&user());
    let second = derive(&user());
    for policy in [
        OnConflict::Abort,
        OnConflict::Fail,
        OnConflict::Ignore,
        OnConflict::Replace,
        OnConflict::Rollback,
    ] {
        assert_eq!(first.inserts.sql(policy), second.inserts.sql(policy));
    }
    assert_eq!(first.derivee.gen_query(Some("FAIL")), first.inserts.sql(OnConflict::Fail));
}

#[test]
fn column_override_is_used_everywhere() {
    let derived = derive(&user());
    assert_eq!(
        derived.inserts.sql(OnConflict::Abort),
        "INSERT INTO users (username, home_dir, pwd) VALUES(:username, :home_dir, :pwd);"
    );
    let getter = &derived.from_row[2];
    assert_eq!(getter.field, "password");
    assert_eq!(getter.column, "pwd");
    assert!(matches!(&getter.read, Read::Native { ty } if ty == "Vec<u8>"));
    let param = &derived.to_params[2];
    assert_eq!(param.name, ":pwd");
    assert!(matches!(&param.value, ParamPlan::Borrowed { field } if field == "password"));
}

#[test]
fn conversion_functions_are_used() {
    let derived = derive(&user());
    let getter = &derived.from_row[1];
    assert_eq!(getter.field, "home_dir");
    assert_eq!(getter.column, "home_dir");
    assert!(matches!(&getter.read, Read::Extract { path } if path == "extr_path"));
    let param = &derived.to_params[1];
    assert_eq!(param.name, ":home_dir");
    assert!(matches!(
        &param.value,
        ParamPlan::Boxed { field, bind } if field == "home_dir" && bind == "bind_path"
    ));
    let plan_param = &derived.inserts.params[1];
    assert!(matches!(&plan_param.value, ParamPlan::Boxed { .. }));
    assert!(matches!(&derived.from_row[0].read, Read::Native { ty } if ty == "String"));
}

#[test]
fn bind_and_extract_are_independent() {
    let input = record(
        "Note",
        vec![attr("table", "\"notes\"")],
        vec![
            field("a", "A", vec![attr("bind", "crate::to_sql")]),
            field("b", "B", vec![attr("extr", "crate::from_sql")]),
        ],
    );
    let derived = derive(&input);
    assert!(matches!(&derived.from_row[0].read, Read::Native { .. }));
    assert!(matches!(&derived.to_params[0].value, ParamPlan::Boxed { bind, .. } if bind == "crate::to_sql"));
    assert!(matches!(&derived.from_row[1].read, Read::Extract { path } if path == "crate::from_sql"));
    assert!(matches!(&derived.to_params[1].value, ParamPlan::Borrowed { .. }));
}

#[test]
fn schema_check_is_generated_only_when_named() {
    assert!(derive(&person()).check_test.is_none());
    let check: CheckTest = derive(&user()).check_test.unwrap();
    assert_eq!(check.name, "user_exemplar_check");
    assert_eq!(check.path, "schema.sql");
    assert_eq!(check.table, "users");
    assert_eq!(check.columns, &["username", "home_dir", "pwd"]);
    assert_eq!(check.check(&strings(&["pwd", "username", "home_dir"])), Ok(()));
    assert_eq!(
        check.check(&strings(&["username", "home_dir"])),
        Err(ConformanceError::UndeclaredColumn("pwd".to_string()))
    );
}

#[test]
fn conformance_example() {
    let declared = strings(&["name", "age"]);
    let schema = strings(&["name", "age", "alive"]);
    let err = check_columns(&declared, &schema).unwrap_err();
    assert_eq!(err, ConformanceError::UnmappedColumn("alive".to_string()));
    assert_eq!(err.column(), "alive");
}

#[test]
fn conformance_sets() {
    let declared = strings(&["name", "age", "alive"]);
    assert_eq!(check_columns(&declared, &strings(&["alive", "name", "age"])), Ok(()));
    assert_eq!(check_columns(&declared, &strings(&["age", "name", "alive", "age"])), Ok(()));
    assert_eq!(
        check_columns(&declared, &strings(&["name", "alive"])),
        Err(ConformanceError::UndeclaredColumn("age".to_string()))
    );
    assert_eq!(
        check_columns(&strings(&["name", "age", "alive", "born"]), &declared),
        Err(ConformanceError::UndeclaredColumn("born".to_string()))
    );
    assert_eq!(
        check_columns(&strings(&["name", "alive"]), &declared),
        Err(ConformanceError::UnmappedColumn("age".to_string()))
    );
    assert_eq!(
        check_columns(&declared, &strings(&["Name", "age", "alive"])),
        Err(ConformanceError::UndeclaredColumn("name".to_string()))
    );
    assert_eq!(check_columns(&vec![], &vec![]), Ok(()));
}

#[test]
fn configuration_errors() {
    let mut no_table = person();
    no_table.attrs.clear();
    assert_eq!(derive_model(&no_table).err(), Some(ConfigError::MissingTable));

    let mut bad_table = person();
    bad_table.attrs = vec![attr("table", "people")];
    assert_eq!(derive_model(&bad_table).err(), Some(ConfigError::MalformedTable));

    let mut list_less = person();
    list_less.attrs = vec![Attribute { path: "table".to_string(), args: None }];
    assert_eq!(derive_model(&list_less).err(), Some(ConfigError::MalformedTable));

    let mut bad_check = person();
    bad_check.attrs.push(attr("check", "\"a\", \"b\""));
    assert_eq!(derive_model(&bad_check).err(), Some(ConfigError::MalformedCheck));

    let mut generic = person();
    generic.has_generics = true;
    assert_eq!(derive_model(&generic).err(), Some(ConfigError::GenericType));

    let mut tuple = person();
    tuple.data = Data::Struct(Fields::Unnamed);
    assert_eq!(derive_model(&tuple).err(), Some(ConfigError::NotNamedFields));

    let mut unit = person();
    unit.data = Data::Struct(Fields::Unit);
    assert_eq!(derive_model(&unit).err(), Some(ConfigError::NotNamedFields));

    let mut empty = person();
    empty.data = Data::Struct(Fields::Named(vec![]));
    assert_eq!(derive_model(&empty).err(), Some(ConfigError::NoFields));

    let mut variant = person();
    variant.data = Data::Enum;
    assert_eq!(derive_model(&variant).err(), Some(ConfigError::NotStruct));
    variant.data = Data::Union;
    assert_eq!(derive_model(&variant).err(), Some(ConfigError::NotStruct));

    let bad_column = record("R", vec![attr("table", "\"r\"")], vec![field("x", "u8", vec![attr("column", "x")])]);
    assert_eq!(derive_model(&bad_column).err(), Some(ConfigError::MalformedColumn("x".to_string())));

    let bad_bind = record("R", vec![attr("table", "\"r\"")], vec![field("x", "u8", vec![attr("bind", "\"f\"")])]);
    assert_eq!(derive_model(&bad_bind).err(), Some(ConfigError::MalformedBind("x".to_string())));

    let bad_extr = record("R", vec![attr("table", "\"r\"")], vec![field("x", "u8", vec![attr("extr", "1 + 2")])]);
    assert_eq!(derive_model(&bad_extr).err(), Some(ConfigError::MalformedExtr("x".to_string())));

    assert!(!ConfigError::MissingTable.message().is_empty());
    assert!(ConfigError::MalformedColumn("x".to_string()).hint().contains("#[column(\"column_name\")]"));
}

#[test]
fn attribute_readers() {
    let input = user();
    assert_eq!(get_table_name(&input), Ok("users".to_string()));
    assert_eq!(get_check_path(&input), Ok(Some("schema.sql".to_string())));
    assert_eq!(get_check_path(&person()), Ok(None));
    let Data::Struct(Fields::Named(fields)) = &input.data else { panic!("named fields") };
    assert_eq!(get_col_name(&fields[0]), Ok("username".to_string()));
    assert_eq!(get_col_name(&fields[2]), Ok("pwd".to_string()));
    assert_eq!(get_bind_path(&fields[1]), Ok(Some("bind_path".to_string())));
    assert_eq!(get_bind_path(&fields[0]), Ok(None));
    assert_eq!(get_extr_path(&fields[1]), Ok(Some("extr_path".to_string())));
    assert_eq!(get_extr_path(&fields[2]), Ok(None));

    let escaped = field("x", "u8", vec![attr("column", "\"a\\\"b\""), attr("column", "\"ignored\"")]);
    assert_eq!(get_col_name(&escaped), Ok("a\"b".to_string()));
}

#[test]
fn resolve_keeps_declaration_order() {
    let d = resolve(&user()).unwrap();
    assert_eq!(d.name, "User");
    assert_eq!(d.field_idents(), &["username", "home_dir", "password"]);
    assert_eq!(d.col_names(), &["username", "home_dir", "pwd"]);
    assert_eq!(d.schema, Some("schema.sql".to_string()));
}

#[test]
fn schema_check_takes_the_lowered_name() {
    let d = resolve(&person()).unwrap();
    let check = schema_check(&d, &"people.sql".to_string(), "person");
    assert_eq!(check.name, "person_exemplar_check");
    assert_eq!(check.path, "people.sql");
    assert_eq!(check.table, "people");
    assert_eq!(check.columns, &["name", "age", "alive"]);
    assert_eq!(
        check.check(&strings(&["name", "age", "alive", "born"])),
        Err(ConformanceError::UnmappedColumn("born".to_string()))
    );
}
