use teon::teon::{EnumVariant, Pipeline, PipelineItem, PipelineItemArg};
use teon::teon::File;
use teon::teon::Range;
use teon::FromTeon;
use teon::JsonValue;
use teon::TeonDate;
use teon::TeonDateTime;
use teon::TeonDecimal;
use teon::ObjectIdValue;
use teon::Value;

fn sample_dictionary() -> Value {
    Value::Dictionary(vec![
        ("b".to_owned(), Value::Int(2)),
        ("a".to_owned(), Value::Int(1)),
    ])
}

#[test]
fn map_shape_tolerance() {
    let dict = sample_dictionary();
    let sorted: Vec<(String, i32)> = teon::try_into_btree_map(&dict).unwrap();
    assert_eq!(sorted, vec![("a".to_owned(), 1), ("b".to_owned(), 2)]);
    let ordered: Vec<(String, i32)> = teon::try_into_index_map(&dict).unwrap();
    assert_eq!(ordered, vec![("b".to_owned(), 2), ("a".to_owned(), 1)]);
    let unordered: Vec<(String, i32)> = teon::try_into_hash_map(&dict).unwrap();
    assert_eq!(unordered.len(), 2);
    assert!(unordered.contains(&("a".to_owned(), 1)));
    assert!(unordered.contains(&("b".to_owned(), 2)));
    // The producer's map discipline does not constrain the consumer.
    let btree_src = Value::BTreeDictionary(vec![("k".to_owned(), Value::Int(9))]);
    let from_btree: Vec<(String, i32)> = teon::try_into_index_map(&btree_src).unwrap();
    assert_eq!(from_btree, vec![("k".to_owned(), 9)]);
    let index_src = Value::IndexDictionary(vec![("k".to_owned(), Value::Int(9))]);
    let from_index: Vec<(String, i32)> = teon::try_into_btree_map(&index_src).unwrap();
    assert_eq!(from_index, vec![("k".to_owned(), 9)]);
    let err = teon::try_into_btree_map::<i32>(&Value::Int(1)).unwrap_err();
    assert_eq!(err.message, "Cannot convert Int into BTreeMap");
}

#[test]
fn tuple_arity() {
    let three = Value::Tuple(vec![Value::Int(1), Value::Int(2), Value::Int(3)]);
    let err = teon::try_into_pair::<i32, i32>(&three).unwrap_err();
    assert_eq!(err.message, "Cannot convert Tuple into Tuple");
    let (a, b, c) = teon::try_into_triple::<i32, i32, i32>(&three).unwrap();
    assert_eq!((a, b, c), (1, 2, 3));
    let err = teon::try_into_pair::<i32, i32>(&Value::Int(1)).unwrap_err();
    assert_eq!(err.message, "Cannot convert Int into Tuple");
}

#[test]
fn bitwise_enum_restriction() {
    let read = Value::EnumVariant(EnumVariant {
        value: Box::new(Value::Int(1)),
        display: ".read".to_owned(),
        path: vec![0],
        args: None,
    });
    let write = Value::EnumVariant(EnumVariant {
        value: Box::new(Value::Int(2)),
        display: ".write".to_owned(),
        path: vec![0],
        args: None,
    });
    let other_enum = Value::EnumVariant(EnumVariant {
        value: Box::new(Value::Int(2)),
        display: ".blue".to_owned(),
        path: vec![3],
        args: None,
    });
    let err = read.bitor(&other_enum).unwrap_err();
    assert_eq!(err.message, "cannot bitor OptionEnumVariant with OptionEnumVariant");
    let err = read.bitand(&other_enum).unwrap_err();
    assert_eq!(err.message, "cannot bitand OptionEnumVariant with OptionEnumVariant");
    let err = read.bitxor(&other_enum).unwrap_err();
    assert_eq!(err.message, "cannot bitxor OptionEnumVariant with OptionEnumVariant");
    let combined = read.bitor(&write).unwrap();
    match &combined {
        Value::EnumVariant(e) => {
            assert!(*e.value == Value::Int(3));
            assert_eq!(e.display, ".read");
            assert!(e.args.is_none());
        }
        _ => panic!("expected an enum choice"),
    }
    let masked = Value::Int(6).bitand(&Value::Int(3)).unwrap();
    assert!(masked == Value::Int(2));
}

#[test]
fn json_envelopes() {
    let decimal = Value::Decimal(TeonDecimal::new("1.50").unwrap());
    match decimal.to_json().unwrap() {
        JsonValue::Object(entries) => {
            assert_eq!(entries.len(), 1);
            assert_eq!(entries[0].0, "$decimal");
            match &entries[0].1 {
                JsonValue::String(s) => assert_eq!(s, "1.5"),
                _ => panic!("expected a string"),
            }
        }
        _ => panic!("expected an object"),
    }
    let date = Value::Date(TeonDate::new(2024, 1, 5).unwrap());
    match date.to_json().unwrap() {
        JsonValue::Object(entries) => {
            assert_eq!(entries[0].0, "$date");
            match &entries[0].1 {
                JsonValue::String(s) => assert_eq!(s, "2024-01-05"),
                _ => panic!("expected a string"),
            }
        }
        _ => panic!("expected an object"),
    }
    let dt = Value::DateTime(
        TeonDateTime::new(TeonDate::new(2024, 1, 5).unwrap(), 12, 30, 45, 123).unwrap(),
    );
    match dt.to_json().unwrap() {
        JsonValue::Object(entries) => {
            assert_eq!(entries[0].0, "$datetime");
            match &entries[0].1 {
                JsonValue::String(s) => assert_eq!(s, "2024-01-05T12:30:45.123Z"),
                _ => panic!("expected a string"),
            }
        }
        _ => panic!("expected an object"),
    }
    let range = Value::Range(Range {
        closed: false,
        start: Box::new(Value::Int(1)),
        end: Box::new(Value::Int(5)),
    });
    let err = range.to_json().unwrap_err();
    assert_eq!(err.message, "Cannot convert Range into json");
    let nan = Value::Float(f64::NAN.to_bits());
    let err = nan.to_json().unwrap_err();
    assert_eq!(err.message, "Cannot convert Float into json");
}

#[test]
fn json_scalars_and_trees() {
    match Value::Int(7).to_json().unwrap() {
        JsonValue::Int(n) => assert_eq!(n, 7i64),
        _ => panic!("expected a number"),
    }
    match Value::Float32((1.5f32).to_bits()).to_json().unwrap() {
        JsonValue::Float(b) => assert_eq!(b, (1.5f64).to_bits()),
        _ => panic!("expected a number"),
    }
    let oid = ObjectIdValue::new([0, 1, 2, 3, 4, 5, 6, 7, 8, 9, 0xab, 0xcd]);
    match Value::ObjectId(oid).to_json().unwrap() {
        JsonValue::String(s) => assert_eq!(s, "00010203040506070809abcd"),
        _ => panic!("expected a string"),
    }
    let tree = Value::Array(vec![Value::Null, Value::Bool(true)]);
    match tree.to_json().unwrap() {
        JsonValue::Array(items) => {
            assert!(matches!(items[0], JsonValue::Null));
            assert!(matches!(items[1], JsonValue::Bool(true)));
        }
        _ => panic!("expected an array"),
    }
}

#[test]
fn json_decoding_is_total() {
    let doc = JsonValue::Object(vec![
        ("n".to_owned(), JsonValue::Int(3)),
        ("f".to_owned(), JsonValue::Float((2.5f64).to_bits())),
        ("s".to_owned(), JsonValue::String("x".to_owned())),
        ("a".to_owned(), JsonValue::Array(vec![JsonValue::Null, JsonValue::Bool(false)])),
    ]);
    let v = teon::value_from_json(&doc);
    match &v {
        Value::Dictionary(entries) => {
            assert_eq!(entries.len(), 4);
            assert!(entries[0].1 == Value::Int64(3));
            assert!(entries[1].1 == Value::Float((2.5f64).to_bits()));
            assert!(entries[2].1 == Value::String("x".to_owned()));
            assert!(entries[3].1 == Value::Array(vec![Value::Null, Value::Bool(false)]));
        }
        _ => panic!("expected a dictionary"),
    }
}

#[test]
fn file_construction_is_validated() {
    let good = JsonValue::Object(vec![
        ("filepath".to_owned(), JsonValue::String("/tmp/a.png".to_owned())),
        ("filename".to_owned(), JsonValue::String("a.png".to_owned())),
        ("contentType".to_owned(), JsonValue::String("image/png".to_owned())),
    ]);
    let file = File::from_json_value(&good).unwrap();
    assert_eq!(file.filepath, "/tmp/a.png");
    assert_eq!(file.filename, "a.png");
    assert_eq!(file.content_type.as_deref(), Some("image/png"));
    assert!(file.filename_ext.is_none());

    let unknown = JsonValue::Object(vec![
        ("filepath".to_owned(), JsonValue::String("/tmp/a".to_owned())),
        ("filename".to_owned(), JsonValue::String("a".to_owned())),
        ("size".to_owned(), JsonValue::Int(3)),
    ]);
    let err = File::from_json_value(&unknown).unwrap_err();
    assert_eq!(err.message, "Connot convert json value to file, unexpected key `size`");

    let missing = JsonValue::Object(vec![
        ("filename".to_owned(), JsonValue::String("a".to_owned())),
    ]);
    let err = File::from_json_value(&missing).unwrap_err();
    assert_eq!(err.message, "Cannot convert json value to file, missing key `filepath`");

    let bad_value = JsonValue::Object(vec![
        ("filepath".to_owned(), JsonValue::String("/tmp/a".to_owned())),
        ("filename".to_owned(), JsonValue::Int(3)),
    ]);
    let err = File::from_json_value(&bad_value).unwrap_err();
    assert_eq!(
        err.message,
        "Cannot convert json value to file, invalid value at `filename`, expect string"
    );

    let err = File::from_json_value(&JsonValue::Null).unwrap_err();
    assert_eq!(err.message, "Cannot convert json value to file, value is not object");
}

#[test]
fn literal_rendering() {
    assert_eq!(Value::Null.to_teon_string(), "null");
    assert_eq!(Value::Int(-7).to_teon_string(), "-7");
    assert_eq!(Value::String("a\"b".to_owned()).to_teon_string(), "\"a\\\"b\"");
    assert_eq!(
        Value::Array(vec![Value::Int(1), Value::Int(2)]).to_teon_string(),
        "[1, 2]"
    );
    assert_eq!(
        Value::Dictionary(vec![("a".to_owned(), Value::Int(1))]).to_teon_string(),
        "{\"a\": 1}"
    );
    assert_eq!(
        Value::Decimal(TeonDecimal::new("1.50").unwrap()).to_teon_string(),
        "Decimal(\"1.5\")"
    );
    assert_eq!(
        Value::Date(TeonDate::new(2024, 1, 5).unwrap()).to_teon_string(),
        "Date(\"2024-01-05\")"
    );
    assert_eq!(Value::Tuple(vec![Value::Int(1)]).to_teon_string(), "(1,)");
    assert_eq!(Value::RegExp("a/b".to_owned()).to_teon_string(), "/a\\/b/");
    assert_eq!(Value::Reference(vec![1, 2, 3]).to_teon_string(), "Reference(\"1, 2, 3\")");
}

#[test]
fn literal_rendering_compounds() {
    let r = Value::Range(Range {
        closed: true,
        start: Box::new(Value::Int(1)),
        end: Box::new(Value::Int(5)),
    });
    assert_eq!(r.to_teon_string(), "1..=5");
    let f = Value::File(File {
        filepath: "/tmp/a".to_owned(),
        content_type: None,
        filename: "a".to_owned(),
        filename_ext: None,
    });
    assert_eq!(f.to_teon_string(), "File(\"/tmp/a\")");
    let oid = Value::ObjectId(ObjectIdValue::new([0; 12]));
    assert_eq!(oid.to_teon_string(), "ObjectId(\"000000000000000000000000\")");
    assert_eq!(Value::Array(vec![]).to_teon_string(), "[]");
    assert_eq!(Value::Dictionary(vec![]).to_teon_string(), "{}");
    assert_eq!(Value::Tuple(vec![]).to_teon_string(), "()");
    assert_eq!(Value::Undetermined.to_teon_string(), "undetermined");
}

#[test]
fn indexing_by_position_and_key() {
    let arr = Value::Array(vec![Value::Int(10), Value::Int(20)]);
    assert!(*arr.get(1usize).unwrap() == Value::Int(20));
    assert!(arr.get(5usize).is_none());
    let dict = sample_dictionary();
    assert!(*dict.get("a").unwrap() == Value::Int(1));
    assert!(dict.get("zzz").is_none());
    assert!(Value::Null.get(0usize).is_none());
}

#[test]
fn object_id_hex_is_lowercase() {
    let oid = ObjectIdValue::new([0xde, 0xad, 0xbe, 0xef, 0, 1, 2, 3, 4, 5, 6, 7]);
    assert_eq!(oid.to_hex(), "deadbeef0001020304050607");
}

#[test]
fn predicates_match_variants() {
    let v = Value::Int(1);
    assert!(v.is_int() && v.is_any_int() && v.is_any_int_or_float() && v.is_any_number());
    assert!(!v.is_int64() && !v.is_decimal());
    assert!(Value::Float(0).is_any_float());
    assert!(Value::Decimal(TeonDecimal::new("1").unwrap()).is_any_number());
    assert!(Value::Tuple(vec![]).is_tuple());
    assert!(!Value::Tuple(vec![]).is_range());
    assert_eq!(v.as_int(), Some(1));
    assert_eq!(v.as_int64(), None);
    assert_eq!(Value::String("s".to_owned()).as_str(), Some("s"));
}

#[test]
fn deep_copies_are_value_semantic() {
    let original = Value::Dictionary(vec![(
        "k".to_owned(),
        Value::Array(vec![Value::Int(1), Value::String("s".to_owned())]),
    )]);
    let mut copy = original.clone();
    assert!(copy == original);
    if let Some(slot) = copy.get_mut("k") {
        *slot = Value::Null;
    }
    assert!(copy != original);
    assert!(*original.get("k").unwrap() == Value::Array(vec![
        Value::Int(1),
        Value::String("s".to_owned()),
    ]));
}

#[test]
fn compound_extractions() {
    let ev = EnumVariant {
        value: Box::new(Value::String("on".to_owned())),
        display: ".on".to_owned(),
        path: vec![2],
        args: None,
    };
    let v = Value::from(ev);
    let back = EnumVariant::from_teon(&v).unwrap();
    assert_eq!(back.display, ".on");
    assert_eq!(back.path, vec![2]);
    assert!(*back.value == Value::String("on".to_owned()));
    assert_eq!(back.into_string(), ".on");

    let file = File {
        filepath: "/tmp/x".to_owned(),
        content_type: None,
        filename: "x".to_owned(),
        filename_ext: None,
    };
    let v = Value::from(file);
    let back = File::from_teon(&v).unwrap();
    assert_eq!(back.filepath, "/tmp/x");

    let whole: Value = FromTeon::from_teon(&Value::Int(9)).unwrap();
    assert!(whole == Value::Int(9));
    let maybe: Option<Value> = FromTeon::from_teon(&Value::Null).unwrap();
    assert!(maybe.is_none());
}

#[test]
fn enum_variant_labels() {
    let ev = EnumVariant {
        value: Box::new(Value::Int(1)),
        display: ".admin".to_owned(),
        path: vec![1],
        args: None,
    };
    assert_eq!(ev.to_string(), ".admin");
    assert!(!ev.normal_not());
    let v = Value::EnumVariant(ev);
    assert!(v.normal_not() == Value::Bool(false));
    assert_eq!(v.to_teon_string(), ".admin");
    assert_eq!(v.type_hint(), "OptionEnumVariant");
}

#[test]
fn sorted_map_orders_unsorted_input() {
    let dict = Value::Dictionary(vec![
        ("c".to_owned(), Value::Int(3)),
        ("a".to_owned(), Value::Int(1)),
        ("bb".to_owned(), Value::Int(2)),
        ("b".to_owned(), Value::Int(4)),
    ]);
    let sorted: Vec<(String, i32)> = teon::try_into_btree_map(&dict).unwrap();
    assert_eq!(
        sorted,
        vec![
            ("a".to_owned(), 1),
            ("b".to_owned(), 4),
            ("bb".to_owned(), 2),
            ("c".to_owned(), 3),
        ]
    );
    let err = teon::try_into_index_map::<i32>(&Value::Dictionary(vec![(
        "k".to_owned(),
        Value::Bool(true),
    )]))
    .unwrap_err();
    assert_eq!(err.message, "Cannot convert Bool into i32");
}

#[test]
fn pipeline_rendering() {
    let p = Value::Pipeline(Pipeline {
        items: vec![
            PipelineItem { path: vec!["records".to_owned()], args: vec![] },
            PipelineItem {
                path: vec!["filter".to_owned()],
                args: vec![
                    PipelineItemArg { name: Some("limit".to_owned()), arg: Value::Int(10) },
                    PipelineItemArg { name: None, arg: Value::Bool(true) },
                ],
            },
        ],
    });
    assert_eq!(p.to_teon_string(), "$records.filter(limit: 10, true)");
}

#[test]
fn json_encoding_then_decoding() {
    let tree = Value::Dictionary(vec![(
        "a".to_owned(),
        Value::Array(vec![Value::Int(1), Value::String("s".to_owned())]),
    )]);
    let doc = tree.to_json().unwrap();
    let back = teon::value_from_json(&doc);
    // Decoding does not reconstruct the original integer width: an
    // integral JSON number reads back as a 64-bit integer.
    let expected = Value::Dictionary(vec![(
        "a".to_owned(),
        Value::Array(vec![Value::Int64(1), Value::String("s".to_owned())]),
    )]);
    assert!(back == expected);
}

#[test]
fn json_decode_then_encode_round_trip() {
    let doc = JsonValue::Object(vec![
        (
            "a".to_owned(),
            JsonValue::Array(vec![
                JsonValue::Int(1),
                JsonValue::Float((2.5f64).to_bits()),
                JsonValue::String("s".to_owned()),
            ]),
        ),
        ("b".to_owned(), JsonValue::Bool(true)),
    ]);
    let v = teon::value_from_json(&doc);
    let doc2 = v.to_json().unwrap();
    match &doc2 {
        JsonValue::Object(entries) => {
            assert_eq!(entries.len(), 2);
            assert_eq!(entries[0].0, "a");
            assert_eq!(entries[1].0, "b");
            match &entries[0].1 {
                JsonValue::Array(items) => {
                    assert!(matches!(items[0], JsonValue::Int(1)));
                    assert!(matches!(items[1], JsonValue::Float(bits) if bits == (2.5f64).to_bits()));
                    assert!(matches!(&items[2], JsonValue::String(s) if s == "s"));
                }
                _ => panic!("expected an array"),
            }
            assert!(matches!(entries[1].1, JsonValue::Bool(true)));
        }
        _ => panic!("expected an object"),
    }
    // Reading the re-encoded document gives the same value again.
    assert!(teon::value_from_json(&doc2) == v);
}
