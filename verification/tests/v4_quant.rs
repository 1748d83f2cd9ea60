use deepseek_v4::quant_error::QuantError;
use deepseek_v4::v4_quant::{expect, resolve_packed_expert, PackedExpertFormat};
use deepseek_v4::weights::{TensorHeader, WeightDtype, WeightStore, WeightTensor, NULL_PTR};

fn tensor(dtype: WeightDtype, shape: &[usize]) -> WeightTensor {
    WeightTensor {
        ptr: NULL_PTR,
        dtype,
        shape: shape.to_vec(),
    }
}

fn header(dtype: WeightDtype, shape: &[usize]) -> TensorHeader {
    TensorHeader {
        dtype,
        shape: shape.to_vec(),
    }
}

fn store(entries: &[(&str, WeightDtype, &[usize])]) -> WeightStore {
    WeightStore::from_entries(entries)
}

/// Representative tensor headers: two routed experts in the base format, one draft expert
/// in the draft format.
const REPRESENTATIVE_HEADERS: &str = r#"{
  "layers.0.ffn.experts.0.w1.weight": {"dtype": "U8", "shape": [2048, 2048]},
  "layers.0.ffn.experts.0.w1.weight_scale": {"dtype": "F8_E4M3", "shape": [2048, 256]},
  "layers.0.ffn.experts.0.w1.weight_scale_2": {"dtype": "F32", "shape": []},
  "layers.0.ffn.experts.0.w1.input_scale": {"dtype": "F32", "shape": []},
  "layers.0.ffn.experts.0.w2.weight": {"dtype": "U8", "shape": [4096, 1024]},
  "layers.0.ffn.experts.0.w2.weight_scale": {"dtype": "F8_E4M3", "shape": [4096, 128]},
  "layers.0.ffn.experts.0.w2.weight_scale_2": {"dtype": "F32", "shape": []},
  "layers.0.ffn.experts.0.w2.input_scale": {"dtype": "F32", "shape": []},
  "layers.0.ffn.experts.0.w3.weight": {"dtype": "U8", "shape": [2048, 2048]},
  "layers.0.ffn.experts.0.w3.weight_scale": {"dtype": "F8_E4M3", "shape": [2048, 256]},
  "layers.0.ffn.experts.0.w3.weight_scale_2": {"dtype": "F32", "shape": []},
  "layers.0.ffn.experts.0.w3.input_scale": {"dtype": "F32", "shape": []},
  "layers.0.ffn.experts.128.w1.weight": {"dtype": "U8", "shape": [2048, 2048]},
  "layers.0.ffn.experts.128.w1.weight_scale": {"dtype": "F8_E4M3", "shape": [2048, 256]},
  "layers.0.ffn.experts.128.w1.weight_scale_2": {"dtype": "F32", "shape": []},
  "layers.0.ffn.experts.128.w1.input_scale": {"dtype": "F32", "shape": []},
  "layers.0.ffn.experts.128.w2.weight": {"dtype": "U8", "shape": [4096, 1024]},
  "layers.0.ffn.experts.128.w2.weight_scale": {"dtype": "F8_E4M3", "shape": [4096, 128]},
  "layers.0.ffn.experts.128.w2.weight_scale_2": {"dtype": "F32", "shape": []},
  "layers.0.ffn.experts.128.w2.input_scale": {"dtype": "F32", "shape": []},
  "layers.0.ffn.experts.128.w3.weight": {"dtype": "U8", "shape": [2048, 2048]},
  "layers.0.ffn.experts.128.w3.weight_scale": {"dtype": "F8_E4M3", "shape": [2048, 256]},
  "layers.0.ffn.experts.128.w3.weight_scale_2": {"dtype": "F32", "shape": []},
  "layers.0.ffn.experts.128.w3.input_scale": {"dtype": "F32", "shape": []},
  "mtp.0.ffn.experts.0.w1.weight": {"dtype": "I8", "shape": [2048, 2048]},
  "mtp.0.ffn.experts.0.w1.scale": {"dtype": "F8_E8M0", "shape": [2048, 128]},
  "mtp.0.ffn.experts.0.w2.weight": {"dtype": "I8", "shape": [4096, 1024]},
  "mtp.0.ffn.experts.0.w2.scale": {"dtype": "F8_E8M0", "shape": [4096, 64]},
  "mtp.0.ffn.experts.0.w3.weight": {"dtype": "I8", "shape": [2048, 2048]},
  "mtp.0.ffn.experts.0.w3.scale": {"dtype": "F8_E8M0", "shape": [2048, 128]}
}"#;

fn representative_store() -> WeightStore {
    let table: serde_json::Value = serde_json::from_str(REPRESENTATIVE_HEADERS).unwrap();
    let headers = table
        .as_object()
        .unwrap()
        .iter()
        .map(|(name, header)| {
            (
                name.clone(),
                header["dtype"].as_str().unwrap().to_string(),
                serde_json::from_value(header["shape"].clone()).unwrap(),
            )
        })
        .collect();
    match WeightStore::from_headers(&headers) {
        Ok(store) => store,
        Err(other) => panic!("unexpected fixture dtype {other}"),
    }
}

#[test]
fn pinned_base_and_draft_have_independent_quant_contracts() {
    let store = representative_store();
    for expert in [0, 128] {
        for projection in ["w1", "w2", "w3"] {
            let prefix = format!("layers.0.ffn.experts.{expert}.{projection}");
            assert_eq!(
                resolve_packed_expert(&store, &prefix).unwrap(),
                PackedExpertFormat::Nvfp4
            );
        }
    }
    for projection in ["w1", "w2", "w3"] {
        let prefix = format!("mtp.0.ffn.experts.0.{projection}");
        assert_eq!(
            resolve_packed_expert(&store, &prefix).unwrap(),
            PackedExpertFormat::Mxfp4
        );
    }
}

#[test]
fn malformed_nvfp4_contracts_fail_closed() {
    for (dtype, shape) in [
        (WeightDtype::FP8E8M0, vec![128, 8]),
        (WeightDtype::FP8E4M3, vec![128, 4]),
    ] {
        let store = store(&[
            ("p.weight", WeightDtype::UInt8, &[128, 64]),
            ("p.weight_scale", dtype, &shape),
            ("p.weight_scale_2", WeightDtype::FP32, &[]),
            ("p.input_scale", WeightDtype::FP32, &[]),
        ]);
        assert!(resolve_packed_expert(&store, "p").is_err());
    }
    for scalar_shape in [vec![], vec![1], vec![2]] {
        let store = store(&[
            ("p.weight", WeightDtype::UInt8, &[128, 64]),
            ("p.weight_scale", WeightDtype::FP8E4M3, &[128, 8]),
            ("p.weight_scale_2", WeightDtype::FP32, &scalar_shape),
            ("p.input_scale", WeightDtype::FP32, &scalar_shape),
        ]);
        assert_eq!(
            resolve_packed_expert(&store, "p").is_ok(),
            scalar_shape != [2]
        );
    }
    assert!(
        resolve_packed_expert(&store(&[("p.weight", WeightDtype::UInt8, &[128, 64])]), "p")
            .is_err()
    );
}

const NVFP4: &[(&str, WeightDtype, &[usize])] = &[
    ("p.weight", WeightDtype::UInt8, &[128, 64]),
    ("p.weight_scale", WeightDtype::FP8E4M3, &[128, 8]),
    ("p.weight_scale_2", WeightDtype::FP32, &[]),
    ("p.input_scale", WeightDtype::FP32, &[1]),
];

const MXFP4: &[(&str, WeightDtype, &[usize])] = &[
    ("p.weight", WeightDtype::UInt8, &[128, 64]),
    ("p.scale", WeightDtype::FP8E8M0, &[128, 4]),
];

/// The message of the refusal, after the check that it is the expected one.
fn refusal(store: &WeightStore, prefix: &str, expected: QuantError) -> String {
    let error = resolve_packed_expert(store, prefix).unwrap_err();
    assert_eq!(error, expected);
    error.message()
}

#[test]
fn complete_groups_resolve() {
    assert_eq!(
        resolve_packed_expert(&store(NVFP4), "p"),
        Ok(PackedExpertFormat::Nvfp4)
    );
    assert_eq!(
        resolve_packed_expert(&store(MXFP4), "p"),
        Ok(PackedExpertFormat::Mxfp4)
    );
}

#[test]
fn every_tensor_of_a_group_is_required() {
    for group in [NVFP4, MXFP4] {
        for left_out in 0..group.len() {
            let mut entries = group.to_vec();
            let (name, _, _) = entries.remove(left_out);
            let message = refusal(
                &store(&entries),
                "p",
                QuantError::Missing {
                    name: name.to_string(),
                },
            );
            assert_eq!(message, format!("missing `{name}`"));
        }
    }
}

#[test]
fn an_empty_store_has_no_group() {
    let message = refusal(
        &store(&[]),
        "layers.0",
        QuantError::Missing {
            name: "layers.0.weight".to_string(),
        },
    );
    assert_eq!(message, "missing `layers.0.weight`");
}

#[test]
fn weights_must_be_a_matrix_of_bytes() {
    let shapes: [(WeightDtype, &[usize], &str); 5] = [
        (WeightDtype::BF16, &[128, 64], "BF16 [128, 64]"),
        (WeightDtype::FP8E4M3, &[128, 64], "FP8E4M3 [128, 64]"),
        (WeightDtype::UInt8, &[], "UInt8 []"),
        (WeightDtype::UInt8, &[128], "UInt8 [128]"),
        (WeightDtype::UInt8, &[2, 128, 64], "UInt8 [2, 128, 64]"),
    ];
    for (dtype, shape, shown) in shapes {
        let message = refusal(
            &store(&[("p.weight", dtype, shape)]),
            "p",
            QuantError::NotPacked {
                name: "p.weight".to_string(),
                found: header(dtype, shape),
            },
        );
        assert_eq!(
            message,
            format!("`p.weight` must be a packed U8/I8 matrix, got {shown}")
        );
    }
}

#[test]
fn widths_must_fit() {
    let message = refusal(
        &store(&[("p.weight", WeightDtype::UInt8, &[0, usize::MAX / 2 + 1])]),
        "p",
        QuantError::WidthOverflow,
    );
    assert_eq!(message, "packed expert width overflow");
    let message = refusal(
        &store(&[("p.weight", WeightDtype::UInt8, &[1, usize::MAX / 2])]),
        "p",
        QuantError::Mxfp4Width {
            prefix: "p".to_string(),
        },
    );
    assert_eq!(message, "`p` MXFP4 width must be divisible by 32");
}

#[test]
fn weights_must_not_be_empty() {
    let shapes: [&[usize]; 3] = [&[0, 64], &[128, 0], &[0, 0]];
    for shape in shapes {
        let message = refusal(
            &store(&[("p.weight", WeightDtype::UInt8, shape)]),
            "p",
            QuantError::Empty {
                name: "p.weight".to_string(),
            },
        );
        assert_eq!(message, "`p.weight` must be nonempty");
    }
}

#[test]
fn scale_names_must_not_be_mixed() {
    let mut nvfp4 = NVFP4.to_vec();
    nvfp4.push(("p.scale", WeightDtype::FP8E8M0, &[128, 4]));
    let mut groups = vec![nvfp4];
    for name in ["p.weight_scale", "p.weight_scale_2", "p.input_scale"] {
        let mut mxfp4 = MXFP4.to_vec();
        mxfp4.push((name, WeightDtype::BF16, &[]));
        groups.push(mxfp4);
    }
    for group in groups {
        let message = refusal(
            &store(&group),
            "p",
            QuantError::MixedScales {
                prefix: "p".to_string(),
            },
        );
        assert_eq!(message, "`p` mixes NVFP4 and MXFP4 scale names");
    }
}

#[test]
fn rows_are_whole_numbers_of_groups() {
    let message = refusal(
        &store(&[
            ("p.weight", WeightDtype::UInt8, &[128, 12]),
            ("p.input_scale", WeightDtype::FP32, &[]),
        ]),
        "p",
        QuantError::Nvfp4Width {
            prefix: "p".to_string(),
        },
    );
    assert_eq!(message, "`p` NVFP4 width must be divisible by 16");
    let message = refusal(
        &store(&[("p.weight", WeightDtype::UInt8, &[128, 24])]),
        "p",
        QuantError::Mxfp4Width {
            prefix: "p".to_string(),
        },
    );
    assert_eq!(message, "`p` MXFP4 width must be divisible by 32");
    let narrow = store(&[
        ("p.weight", WeightDtype::UInt8, &[1, 8]),
        ("p.weight_scale", WeightDtype::FP8E4M3, &[1, 1]),
        ("p.weight_scale_2", WeightDtype::FP32, &[1]),
        ("p.input_scale", WeightDtype::FP32, &[1]),
    ]);
    assert_eq!(
        resolve_packed_expert(&narrow, "p"),
        Ok(PackedExpertFormat::Nvfp4)
    );
}

#[test]
fn block_scales_are_exact() {
    let mut store = store(MXFP4);
    for (dtype, shape) in [
        (WeightDtype::FP8E4M3, vec![128, 4]),
        (WeightDtype::FP8E8M0, vec![4, 128]),
        (WeightDtype::FP8E8M0, vec![128]),
        (WeightDtype::FP8E8M0, vec![128, 4, 1]),
        (WeightDtype::FP8E8M0, vec![128, 5]),
    ] {
        store.insert("p.scale".to_string(), tensor(dtype, &shape));
        let message = refusal(
            &store,
            "p",
            QuantError::Mismatch {
                name: "p.scale".to_string(),
                found: header(dtype, &shape),
                expected: header(WeightDtype::FP8E8M0, &[128, 4]),
            },
        );
        assert_eq!(
            message,
            format!("`p.scale` has {dtype:?} {shape:?}, expected FP8E8M0 [128, 4]")
        );
    }
    store.insert(
        "p.scale".to_string(),
        tensor(WeightDtype::FP8E8M0, &[128, 4]),
    );
    assert!(resolve_packed_expert(&store, "p").is_ok());
}

#[test]
fn global_and_input_scales_are_single_numbers() {
    for name in ["p.weight_scale_2", "p.input_scale"] {
        for (dtype, shape) in [
            (WeightDtype::BF16, vec![]),
            (WeightDtype::FP32, vec![0]),
            (WeightDtype::FP32, vec![2]),
            (WeightDtype::FP32, vec![1, 1]),
        ] {
            let mut store = store(NVFP4);
            store.insert(name.to_string(), tensor(dtype, &shape));
            let message = refusal(
                &store,
                "p",
                QuantError::NotScalar {
                    name: name.to_string(),
                    found: header(dtype, &shape),
                },
            );
            assert_eq!(
                message,
                format!("`{name}` must be a scalar F32 tensor, got {dtype:?} {shape:?}")
            );
        }
    }
}

#[test]
fn the_weights_fit_no_other_scales() {
    let shapes: [&[usize]; 4] = [&[127, 64], &[128, 72], &[128, 56], &[64, 128]];
    for shape in shapes {
        let mut store = store(NVFP4);
        store.insert("p.weight".to_string(), tensor(WeightDtype::UInt8, shape));
        assert!(resolve_packed_expert(&store, "p").is_err());
    }
}

#[test]
fn other_groups_have_no_say() {
    let mut store = store(NVFP4);
    for name in [
        "p.x.weight",
        "p.x.scale",
        "q.scale",
        "scale",
        ".scale",
        "p.scale.scale",
        "p.weight.scale",
    ] {
        store.insert(name.to_string(), tensor(WeightDtype::BF16, &[3]));
    }
    assert_eq!(
        resolve_packed_expert(&store, "p"),
        Ok(PackedExpertFormat::Nvfp4)
    );
    assert!(resolve_packed_expert(&store, "p.x").is_err());
    assert!(resolve_packed_expert(&store, "q").is_err());
}

#[test]
fn the_first_fault_is_reported() {
    let bad = store(&[
        ("p.weight", WeightDtype::UInt8, &[128, 64]),
        ("p.weight_scale", WeightDtype::FP8E4M3, &[128, 4]),
        ("p.weight_scale_2", WeightDtype::BF16, &[]),
    ]);
    assert_eq!(
        resolve_packed_expert(&bad, "p").unwrap_err().message(),
        "`p.weight_scale` has FP8E4M3 [128, 4], expected FP8E4M3 [128, 8]"
    );
    let bad = store(&[
        ("p.weight", WeightDtype::UInt8, &[128, 64]),
        ("p.weight_scale", WeightDtype::FP8E4M3, &[128, 8]),
        ("p.weight_scale_2", WeightDtype::BF16, &[]),
    ]);
    assert_eq!(
        resolve_packed_expert(&bad, "p").unwrap_err().message(),
        "`p.weight_scale_2` must be a scalar F32 tensor, got BF16 []"
    );
}

#[test]
fn expected_tensors_are_compared_whole() {
    let store = store(&[(
        "mtp.0.main_proj.weight",
        WeightDtype::FP8E8M0,
        &[4096, 12288],
    )]);
    let name = "mtp.0.main_proj.weight";
    assert_eq!(
        expect(&store, name, WeightDtype::FP8E8M0, &[4096, 12288]),
        Ok(())
    );
    assert_eq!(
        expect(&store, name, WeightDtype::FP8E4M3, &[4096, 12288])
            .unwrap_err()
            .message(),
        "`mtp.0.main_proj.weight` has FP8E8M0 [4096, 12288], expected FP8E4M3 [4096, 12288]"
    );
    assert_eq!(
        expect(&store, name, WeightDtype::FP8E8M0, &[])
            .unwrap_err()
            .message(),
        "`mtp.0.main_proj.weight` has FP8E8M0 [4096, 12288], expected FP8E8M0 []"
    );
    assert_eq!(
        expect(&store, "mtp.0.main_proj", WeightDtype::FP8E8M0, &[1])
            .unwrap_err()
            .message(),
        "missing `mtp.0.main_proj`"
    );
}

#[test]
fn numbers_are_shown_in_decimal() {
    for number in [0, 1, 9, 10, 99, 100, 2048, 1234567890, usize::MAX] {
        let error = QuantError::NotScalar {
            name: "x".to_string(),
            found: header(WeightDtype::FP32, &[number, number]),
        };
        assert_eq!(
            error.message(),
            format!("`x` must be a scalar F32 tensor, got FP32 [{number}, {number}]")
        );
    }
}

#[test]
fn header_codes_name_element_types() {
    assert_eq!(WeightDtype::from_header_code("U8"), Some(WeightDtype::UInt8));
    assert_eq!(WeightDtype::from_header_code("I8"), Some(WeightDtype::UInt8));
    assert_eq!(
        WeightDtype::from_header_code("F8_E4M3"),
        Some(WeightDtype::FP8E4M3)
    );
    assert_eq!(
        WeightDtype::from_header_code("F8_E8M0"),
        Some(WeightDtype::FP8E8M0)
    );
    assert_eq!(WeightDtype::from_header_code("F32"), Some(WeightDtype::FP32));
    for code in ["", "u8", "U8 ", "F16", "I32"] {
        assert_eq!(WeightDtype::from_header_code(code), None);
    }
}

#[test]
fn names_of_element_types_are_those_of_debug_output() {
    for dtype in [
        WeightDtype::BF16,
        WeightDtype::FP32,
        WeightDtype::FP8E4M3,
        WeightDtype::FP8E8M0,
        WeightDtype::UInt8,
    ] {
        assert_eq!(dtype.name(), format!("{dtype:?}"));
    }
}

#[test]
fn a_store_keeps_the_last_tensor_of_a_name() {
    let mut store = WeightStore::new();
    assert!(!store.contains("a"));
    assert!(store.get("a").is_none());
    store.insert("a".to_string(), tensor(WeightDtype::BF16, &[1]));
    store.insert("b".to_string(), tensor(WeightDtype::FP32, &[2]));
    store.insert("a".to_string(), tensor(WeightDtype::UInt8, &[3, 4]));
    assert!(store.contains("a") && store.contains("b") && !store.contains("ab"));
    assert_eq!(store.get("a"), Some(&tensor(WeightDtype::UInt8, &[3, 4])));
    assert_eq!(store.get("b"), Some(&tensor(WeightDtype::FP32, &[2])));
}

#[test]
fn a_store_keeps_device_addresses() {
    let mut store = WeightStore::new();
    store.insert(
        "a".to_string(),
        WeightTensor {
            ptr: 0x7000,
            dtype: WeightDtype::BF16,
            shape: vec![5],
        },
    );
    assert_eq!(store.get("a").unwrap().ptr, 0x7000);
}

#[test]
fn a_copied_header_shares_the_payload_only() {
    let tensor = WeightTensor {
        ptr: 0x7000,
        dtype: WeightDtype::UInt8,
        shape: vec![3, 4],
    };
    let mut copy = tensor.copy_header();
    assert_eq!(copy, tensor);
    assert_eq!(copy.ptr, 0x7000);
    copy.shape.push(5);
    assert_eq!(tensor.shape, [3, 4]);
    assert_eq!(tensor.header(), header(WeightDtype::UInt8, &[3, 4]));
}

#[test]
fn device_addresses_have_no_say() {
    let mut store = store(MXFP4);
    let mut loaded = store.get("p.scale").unwrap().copy_header();
    loaded.ptr = 0x7000;
    store.insert("p.scale".to_string(), loaded);
    assert_eq!(
        resolve_packed_expert(&store, "p"),
        Ok(PackedExpertFormat::Mxfp4)
    );
}

#[test]
fn the_last_entry_of_a_name_counts() {
    let store = store(&[
        ("a", WeightDtype::BF16, &[1]),
        ("b", WeightDtype::FP32, &[]),
        ("a", WeightDtype::UInt8, &[3, 4]),
    ]);
    assert_eq!(store.get("a"), Some(&tensor(WeightDtype::UInt8, &[3, 4])));
    assert_eq!(store.get("b"), Some(&tensor(WeightDtype::FP32, &[])));
    assert!(!store.contains("c"));
    assert_eq!(store.get("a").unwrap().ptr, NULL_PTR);
}

fn row(name: &str, code: &str, shape: &[usize]) -> (String, String, Vec<usize>) {
    (name.to_string(), code.to_string(), shape.to_vec())
}

#[test]
fn header_tables_are_read_whole() {
    let table = vec![
        row("a", "U8", &[2, 3]),
        row("b", "F32", &[]),
        row("a", "I8", &[4, 5]),
    ];
    let store = WeightStore::from_headers(&table).ok().unwrap();
    assert_eq!(store.get("a"), Some(&tensor(WeightDtype::UInt8, &[4, 5])));
    assert_eq!(store.get("b"), Some(&tensor(WeightDtype::FP32, &[])));
    assert!(!store.contains("c"));
    assert!(!WeightStore::from_headers(&vec![]).ok().unwrap().contains("a"));
}

#[test]
fn header_tables_with_unknown_codes_are_refused() {
    let table = vec![
        row("a", "U8", &[2, 3]),
        row("b", "F16", &[]),
        row("c", "I64", &[]),
    ];
    assert_eq!(
        WeightStore::from_headers(&table).err(),
        Some("F16".to_string())
    );
}
