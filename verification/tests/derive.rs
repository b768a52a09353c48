use fishmael_cache::derive::{
    check_shape, derive_cacheable, make_impl, Data, DeriveInput, Fields, ShapeError,
};

fn named(names: &[&str]) -> Data {
    Data::Struct(Fields::Named(names.iter().map(|name| name.to_string()).collect()))
}

#[test]
fn one_statement_per_named_field() {
    let body = make_impl(&named(&["id"]));
    assert_eq!(
        body,
        "::fishmael_cache::encode::ToRedisHArgs::write_redis_hargs(&self.id, \"id\", cmd);\n"
    );
}

#[test]
fn statements_follow_declaration_order() {
    let body = make_impl(&named(&["id", "name", "owner_id"]));
    assert_eq!(
        body,
        "::fishmael_cache::encode::ToRedisHArgs::write_redis_hargs(&self.id, \"id\", cmd);\n\
         ::fishmael_cache::encode::ToRedisHArgs::write_redis_hargs(&self.name, \"name\", cmd);\n\
         ::fishmael_cache::encode::ToRedisHArgs::write_redis_hargs(&self.owner_id, \"owner_id\", cmd);\n"
    );
    let reversed = make_impl(&named(&["owner_id", "name", "id"]));
    assert_ne!(body, reversed);
}

#[test]
fn struct_without_fields_gets_an_empty_body() {
    assert_eq!(make_impl(&named(&[])), String::new());
}

#[test]
fn same_shape_gives_the_same_text() {
    let shape = named(&["a", "b", "c"]);
    assert_eq!(make_impl(&shape), make_impl(&shape));
    assert_eq!(make_impl(&shape), make_impl(&shape.clone()));
}

#[test]
fn raw_identifier_is_used_as_it_is_written() {
    let body = make_impl(&named(&["r#type"]));
    assert_eq!(
        body,
        "::fishmael_cache::encode::ToRedisHArgs::write_redis_hargs(&self.r#type, \"r#type\", cmd);\n"
    );
}

#[test]
fn struct_with_named_fields_passes_the_check() {
    assert_eq!(check_shape(&named(&["id", "name"])), None);
    assert_eq!(check_shape(&named(&[])), None);
}

#[test]
fn positional_struct_is_rejected() {
    assert_eq!(check_shape(&Data::Struct(Fields::Unnamed)), Some(ShapeError::UnnamedFields));
}

#[test]
fn unit_struct_is_rejected() {
    assert_eq!(check_shape(&Data::Struct(Fields::Unit)), Some(ShapeError::UnitStruct));
}

#[test]
fn enum_is_rejected() {
    assert_eq!(check_shape(&Data::Enum), Some(ShapeError::Enum));
}

#[test]
fn union_is_rejected() {
    assert_eq!(check_shape(&Data::Union), Some(ShapeError::Union));
}

#[test]
fn derive_wraps_the_body_in_the_provider_impl() {
    let input = DeriveInput { ident: "CacheableUser".to_string(), data: named(&["id", "name"]) };
    assert_eq!(
        derive_cacheable(&input),
        "impl ::fishmael_cache::cacheable::RedisFieldProvider for CacheableUser {\n\
         fn add_fields_to_cmd(self, cmd: &mut redis::Cmd) {\n\
         ::fishmael_cache::encode::ToRedisHArgs::write_redis_hargs(&self.id, \"id\", cmd);\n\
         ::fishmael_cache::encode::ToRedisHArgs::write_redis_hargs(&self.name, \"name\", cmd);\n\
         }\n\
         }\n"
    );
}

#[test]
fn derive_for_a_struct_without_fields() {
    let input = DeriveInput { ident: "Nothing".to_string(), data: named(&[]) };
    assert_eq!(
        derive_cacheable(&input),
        "impl ::fishmael_cache::cacheable::RedisFieldProvider for Nothing {\n\
         fn add_fields_to_cmd(self, cmd: &mut redis::Cmd) {\n\
         }\n\
         }\n"
    );
}

#[test]
fn every_shape_without_named_fields_is_rejected_with_its_diagnostic() {
    let cases = [
        (Data::Struct(Fields::Unnamed), ShapeError::UnnamedFields),
        (Data::Struct(Fields::Unit), ShapeError::UnitStruct),
        (Data::Enum, ShapeError::Enum),
        (Data::Union, ShapeError::Union),
    ];
    for (data, error) in cases {
        let input = DeriveInput { ident: "Shape".to_string(), data };
        let rejection = check_shape(&input.data);
        assert_eq!(rejection, Some(error));
        assert!(rejection.unwrap().message().starts_with("unsupported shape"));
    }
}

#[test]
fn every_rejection_has_its_own_diagnostic() {
    let errors =
        [ShapeError::UnnamedFields, ShapeError::UnitStruct, ShapeError::Enum, ShapeError::Union];
    for error in errors {
        assert!(error.message().starts_with("unsupported shape"));
    }
    for a in errors {
        for b in errors {
            assert_eq!(a == b, a.message() == b.message());
        }
    }
    assert_eq!(
        ShapeError::Enum.message(),
        "unsupported shape: an enum has no named fields to write"
    );
    assert_eq!(
        ShapeError::Union.message(),
        "unsupported shape: a union has no named fields to write"
    );
    assert_eq!(
        ShapeError::UnitStruct.message(),
        "unsupported shape: a unit struct has no named fields to write"
    );
    assert_eq!(
        ShapeError::UnnamedFields.message(),
        "unsupported shape: a struct with positional fields has no named fields to write"
    );
}

#[test]
fn routine_for_a_wide_record_has_one_statement_per_field() {
    let names = [
        "afk_timeout",
        "application_id",
        "banner",
        "channels",
        "description",
        "features",
        "id",
        "joined_at",
        "large",
        "members",
        "name",
        "owner_id",
        "roles",
        "unavailable",
        "widget_enabled",
    ];
    let input = DeriveInput { ident: "CacheableGuild".to_string(), data: named(&names) };
    let text = derive_cacheable(&input);
    let statements: Vec<&str> =
        text.lines().filter(|line| line.contains("write_redis_hargs")).collect();
    assert_eq!(statements.len(), names.len());
    for (statement, name) in statements.iter().zip(names) {
        assert_eq!(
            *statement,
            format!(
                "::fishmael_cache::encode::ToRedisHArgs::write_redis_hargs(&self.{name}, \"{name}\", cmd);"
            )
        );
    }
    assert!(text.starts_with("impl ::fishmael_cache::cacheable::RedisFieldProvider for CacheableGuild {"));
    assert!(text.ends_with("}\n}\n"));
}
