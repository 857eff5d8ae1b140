use ofs::value_type::{ArrowField, ArrowType, FeastType, PrimitiveFeastType, ValueType};

#[test]
fn test_value_type_from_i32() {
    assert_eq!(ValueType::from_i32(0), Some(ValueType::Invalid));
    assert_eq!(ValueType::from_i32(2), Some(ValueType::String));
    assert_eq!(ValueType::from_i32(4), Some(ValueType::Int64));
    assert_eq!(ValueType::from_i32(48), Some(ValueType::ZonedTimestamp));
    assert_eq!(ValueType::from_i32(999), None);
}

#[test]
fn test_value_type_display() {
    assert_eq!(ValueType::String.to_string(), "STRING");
    assert_eq!(ValueType::Int64.to_string(), "INT64");
    assert_eq!(ValueType::ZonedTimestamp.to_string(), "ZONED_TIMESTAMP");
}

#[test]
fn test_value_type_from_str() {
    assert_eq!("STRING".parse::<ValueType>().unwrap(), ValueType::String);
    assert_eq!("int64".parse::<ValueType>().unwrap(), ValueType::Int64);
    assert_eq!("FLOAT64".parse::<ValueType>().unwrap(), ValueType::Double);
    assert!("UNKNOWN".parse::<ValueType>().is_err());
}

#[test]
fn test_primitive_check() {
    assert!(ValueType::String.is_primitive());
    assert!(ValueType::Int64.is_primitive());
    assert!(!ValueType::StringList.is_primitive());
    assert!(!ValueType::Int32Set.is_primitive());
}

#[test]
fn test_list_check() {
    assert!(ValueType::StringList.is_list());
    assert!(ValueType::Int64List.is_list());
    assert!(!ValueType::String.is_list());
}

#[test]
fn test_set_check() {
    assert!(ValueType::StringSet.is_set());
    assert!(ValueType::Int64Set.is_set());
    assert!(!ValueType::String.is_set());
}

#[test]
fn test_feast_type_round_trip() {
    let cases = vec![
        ValueType::String,
        ValueType::Int64,
        ValueType::Double,
        ValueType::Bool,
        ValueType::StringList,
        ValueType::Int64List,
        ValueType::StringSet,
        ValueType::UnixTimestamp,
        ValueType::Json,
        ValueType::Uuid,
        ValueType::Decimal,
    ];
    for vt in cases {
        let ft = FeastType::from_value_type(vt);
        assert_eq!(ft.to_value_type(), vt, "Round-trip failed for {:?}", vt);
    }
}

#[test]
fn value_type_codes_roundtrip() {
    for code in 0..60 {
        if let Some(vt) = ValueType::from_i32(code) {
            assert_eq!(vt.to_i32(), code);
        }
    }
}

#[test]
fn feast_type_of_list_is_array() {
    let ft = FeastType::from_value_type(ValueType::Int64List);
    assert_eq!(ft, FeastType::Array(Box::new(FeastType::Primitive(PrimitiveFeastType::Int64))));
}

#[test]
fn test_feast_type_to_arrow() {
    let ft = FeastType::Primitive(PrimitiveFeastType::Int64);
    assert_eq!(ft.to_arrow_type(), ArrowType::Int64);

    let ft = FeastType::Primitive(PrimitiveFeastType::String);
    assert_eq!(ft.to_arrow_type(), ArrowType::Utf8);

    let ft = FeastType::Primitive(PrimitiveFeastType::Float32);
    assert_eq!(ft.to_arrow_type(), ArrowType::Float32);

    let ft = FeastType::Array(Box::new(FeastType::Primitive(PrimitiveFeastType::Int64)));
    assert_eq!(
        ft.to_arrow_type(),
        ArrowType::List(Box::new(ArrowField { name: "item".to_string(), data_type: ArrowType::Int64, nullable: true }))
    );
}

#[test]
fn arrow_type_of_struct_and_map() {
    let ft = FeastType::Struct(vec![("a".to_string(), FeastType::Primitive(PrimitiveFeastType::Bool))]);
    assert_eq!(
        ft.to_arrow_type(),
        ArrowType::Struct(vec![ArrowField { name: "a".to_string(), data_type: ArrowType::Boolean, nullable: true }])
    );
    match FeastType::Primitive(PrimitiveFeastType::ScalarMap).to_arrow_type() {
        ArrowType::MapOf(entries, sorted) => {
            assert!(!sorted);
            assert_eq!(entries.name, "entries");
        }
        other => panic!("unexpected {:?}", other),
    }
}

#[test]
fn feast_type_text() {
    let ft = FeastType::Struct(vec![
        ("a".to_string(), FeastType::Array(Box::new(FeastType::Primitive(PrimitiveFeastType::Int64)))),
        ("b".to_string(), FeastType::SetOf(Box::new(FeastType::Primitive(PrimitiveFeastType::String)))),
    ]);
    assert_eq!(ft.to_string(), "Struct<a: Array<Int64>, b: Set<String>>");
    assert_eq!(PrimitiveFeastType::UnixTimestamp.name(), "UnixTimestamp");
}

#[test]
fn value_type_names_parse_back() {
    for code in 0..=48 {
        if let Some(vt) = ValueType::from_i32(code) {
            if vt == ValueType::PdfBytes || vt == ValueType::ImageBytes {
                continue;
            }
            let name = vt.to_string();
            assert_eq!(ValueType::parse_name(&name), Ok(vt));
            assert_eq!(ValueType::parse_name(&name.to_lowercase()), Ok(vt));
        }
    }
}
