use foolang::ir::ast::types::{IRCustomType, IRPrimitiveType, IRType};

#[test]
fn test_type_sizes() {
    assert_eq!(IRPrimitiveType::Int8.size_in_bytes(), 1);
    assert_eq!(IRPrimitiveType::Int16.size_in_bytes(), 2);
    assert_eq!(IRPrimitiveType::Int32.size_in_bytes(), 4);
    assert_eq!(IRPrimitiveType::Int64.size_in_bytes(), 8);
    assert_eq!(IRPrimitiveType::UInt64.size_in_bytes(), 8);
    assert_eq!(IRPrimitiveType::Float32.size_in_bytes(), 4);
    assert_eq!(IRPrimitiveType::Float64.size_in_bytes(), 8);
    assert_eq!(IRPrimitiveType::Bool.size_in_bytes(), 1);
    assert_eq!(
        IRPrimitiveType::Pointer(Box::new(IRType::Primitive(IRPrimitiveType::Int32)))
            .size_in_bytes(),
        8
    );
    assert_eq!(IRPrimitiveType::Void.size_in_bytes(), 0);
}

#[test]
fn test_type_checks() {
    assert!(IRPrimitiveType::Int32.is_integer());
    assert!(IRPrimitiveType::Int32.is_signed());
    assert!(!IRPrimitiveType::UInt32.is_signed());
    assert!(IRPrimitiveType::Float64.is_float());
    assert!(
        IRPrimitiveType::Pointer(Box::new(IRType::Primitive(IRPrimitiveType::Int32)))
            .is_pointer()
    );
}

#[test]
fn test_type_to_string() {
    assert_eq!(IRPrimitiveType::Int64.type_to_string(), "i64");
    assert_eq!(IRPrimitiveType::UInt32.type_to_string(), "u32");
    assert_eq!(IRPrimitiveType::Float64.type_to_string(), "f64");
    assert_eq!(
        IRPrimitiveType::Pointer(Box::new(IRType::Primitive(IRPrimitiveType::Int32)))
            .type_to_string(),
        "*i32"
    );
}

#[test]
fn type_classes_are_consistent() {
    let all = vec![
        IRPrimitiveType::Int8,
        IRPrimitiveType::Int16,
        IRPrimitiveType::Int32,
        IRPrimitiveType::Int64,
        IRPrimitiveType::UInt8,
        IRPrimitiveType::UInt16,
        IRPrimitiveType::UInt32,
        IRPrimitiveType::UInt64,
        IRPrimitiveType::Float32,
        IRPrimitiveType::Float64,
        IRPrimitiveType::Bool,
        IRPrimitiveType::Pointer(Box::new(IRType::Primitive(IRPrimitiveType::Bool))),
        IRPrimitiveType::Void,
    ];
    for t in &all {
        if t.is_signed() {
            assert!(t.is_integer());
        }
        assert!(!(t.is_integer() && t.is_float()));
        assert!(!(t.is_integer() && t.is_pointer()));
        assert_eq!(t.size_in_bytes() == 0, *t == IRPrimitiveType::Void);
    }
    assert!(!IRPrimitiveType::Bool.is_integer());
    assert!(!IRPrimitiveType::Float32.is_signed());
}

#[test]
fn nested_and_custom_type_names() {
    let nested = IRPrimitiveType::Pointer(Box::new(IRType::Primitive(IRPrimitiveType::Pointer(
        Box::new(IRType::Primitive(IRPrimitiveType::UInt8)),
    ))));
    assert_eq!(nested.type_to_string(), "**u8");
    assert_eq!(IRPrimitiveType::Bool.type_to_string(), "bool");
    assert_eq!(IRPrimitiveType::Void.type_to_string(), "void");
    let custom = IRType::Custom(IRCustomType { name: "Point".to_string() });
    assert_eq!(custom.type_to_string(), "Point");
    assert_eq!(IRType::Untyped.type_to_string(), "untyped");
}
