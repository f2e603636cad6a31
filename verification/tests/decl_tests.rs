//! The declaration surface's shape rules.

use linked_families::{DeclError, ItemDecl, augment};

#[test]
fn named_struct_gains_the_link_field() {
    let item = ItemDecl::NamedStruct {
        fields: vec!["something".to_string(), "something_else".to_string()],
    };
    let fields = augment(item, "__private_linked_link".to_string()).unwrap();
    assert_eq!(
        fields,
        vec![
            "something".to_string(),
            "something_else".to_string(),
            "__private_linked_link".to_string(),
        ]
    );
}

#[test]
fn empty_named_struct_is_accepted() {
    let item = ItemDecl::NamedStruct { fields: vec![] };
    let fields = augment(item, "__private_linked_link".to_string()).unwrap();
    assert_eq!(fields, vec!["__private_linked_link".to_string()]);
}

#[test]
fn struct_with_unnamed_fields_is_refused() {
    let result = augment(ItemDecl::TupleStruct, "__private_linked_link".to_string());
    assert_eq!(result, Err(DeclError::MustHaveNamedFields));
}

#[test]
fn unit_struct_is_refused() {
    let result = augment(ItemDecl::UnitStruct, "__private_linked_link".to_string());
    assert_eq!(result, Err(DeclError::MustHaveNamedFields));
}

#[test]
fn non_struct_is_refused() {
    let result = augment(ItemDecl::NotAStruct, "__private_linked_link".to_string());
    assert_eq!(result, Err(DeclError::MustBeStruct));
}
