use napi::env::{Env, NodeVersion};
use napi::status::{Error, Status};
use napi::value::{HostValue, JsObject, JsUnknown, Property, ValueType};

fn host_version() -> NodeVersion {
    NodeVersion { major: 18, minor: 2, patch: 1, release: b"node".to_vec() }
}

fn fresh_env() -> Env {
    Env::new(1, b"8".to_vec(), host_version())
}

#[test]
fn int32_round_trip_is_bit_exact() {
    let mut env = fresh_env();
    for v in [i32::MIN, -1, 0, 1, i32::MAX] {
        let h = env.create_int32(v).unwrap();
        assert_eq!(env.get_value_int32(h).unwrap(), v);
    }
}

#[test]
fn uint32_round_trip_is_bit_exact() {
    let mut env = fresh_env();
    for v in [0u32, 1, 0x8000_0000, u32::MAX] {
        let h = env.create_uint32(v).unwrap();
        assert_eq!(env.get_value_uint32(h).unwrap(), v);
    }
}

#[test]
fn int64_round_trip_is_bit_exact() {
    let mut env = fresh_env();
    for v in [i64::MIN, -1, 0, 1, i64::MAX] {
        let h = env.create_int64(v).unwrap();
        assert_eq!(env.get_value_int64(h).unwrap(), v);
    }
}

#[test]
fn int32_read_rejects_out_of_range_numbers() {
    let mut env = fresh_env();
    let h = env.create_int64(i64::from(i32::MAX) + 1).unwrap();
    let wrong = napi::value::JsNumber { idx: h.idx };
    let e = env.get_value_int32(wrong).unwrap_err();
    assert_eq!(e.status, Status::InvalidArg);
}

#[test]
fn bigint_u64_round_trip() {
    let mut env = fresh_env();
    for v in [0u64, 1, 7, u64::MAX] {
        let h = env.create_bigint_from_u64(v).unwrap();
        assert_eq!(env.get_bigint_u128(&h).unwrap(), u128::from(v));
    }
}

#[test]
fn bigint_i64_round_trip() {
    let mut env = fresh_env();
    for v in [i64::MIN, -42, -1, 0, 1, i64::MAX] {
        let h = env.create_bigint_from_i64(v).unwrap();
        assert_eq!(env.get_bigint_i64(&h).unwrap(), v);
    }
}

#[test]
fn bigint_u128_round_trip() {
    let mut env = fresh_env();
    for v in [0u128, 1, 0x1_0000_0000_0000_0000, u128::MAX] {
        let h = env.create_bigint_from_u128(v).unwrap();
        assert_eq!(env.get_bigint_u128(&h).unwrap(), v);
    }
}

#[test]
fn bigint_i128_round_trip_is_value_exact() {
    let mut env = fresh_env();
    for v in [i128::MIN, -1, 0, 1, i128::MAX] {
        let h = env.create_bigint_from_i128(v).unwrap();
        assert_eq!(env.get_bigint_i128(&h).unwrap(), v);
        let (sign, words) = env.get_bigint_words(&h).unwrap();
        assert_eq!(sign, v < 0);
        assert_eq!(words.len(), 2);
    }
    // The stored words are the magnitude, not a bit pattern: -1 is the
    // single unit magnitude with the sign bit set.
    let h = env.create_bigint_from_i128(-1).unwrap();
    let (sign, words) = env.get_bigint_words(&h).unwrap();
    assert!(sign);
    assert_eq!(words, vec![1, 0]);
}

#[test]
fn bigint_i128_read_rejects_out_of_range_magnitudes() {
    let mut env = fresh_env();
    let h = env.create_bigint_from_u128(u128::MAX).unwrap();
    let e = env.get_bigint_i128(&h).unwrap_err();
    assert_eq!(e.status, Status::InvalidArg);
    // The most negative value fits exactly; one more does not.
    let h = env
        .create_bigint_from_words(true, vec![0, 0x8000_0000_0000_0000])
        .unwrap();
    assert_eq!(env.get_bigint_i128(&h).unwrap(), i128::MIN);
    let h = env
        .create_bigint_from_words(true, vec![1, 0x8000_0000_0000_0000])
        .unwrap();
    let e = env.get_bigint_i128(&h).unwrap_err();
    assert_eq!(e.status, Status::InvalidArg);
}

#[test]
fn bigint_one_word_scenario() {
    // Words [0x1, 0x0] with the sign bit clear denote exactly 1.
    let mut env = fresh_env();
    let h = env.create_bigint_from_words(false, vec![0x1, 0x0]).unwrap();
    assert_eq!(env.get_bigint_u128(&h).unwrap(), 1);
}

#[test]
fn bigint_zero_words_with_sign_bit_is_zero() {
    // A sign bit on zero words is irrelevant to the value.
    let mut env = fresh_env();
    let h = env.create_bigint_from_words(true, vec![0x0, 0x0]).unwrap();
    assert_eq!(env.get_bigint_u128(&h).unwrap(), 0);
}

#[test]
fn bigint_negative_does_not_read_as_unsigned() {
    let mut env = fresh_env();
    let h = env.create_bigint_from_words(true, vec![5]).unwrap();
    let e = env.get_bigint_u128(&h).unwrap_err();
    assert_eq!(e.status, Status::InvalidArg);
}

#[test]
fn wrap_then_unwrap_returns_original_value() {
    let mut env = fresh_env();
    let obj = env.create_object().unwrap();
    env.wrap(obj, 7, vec![1, 2, 3]).unwrap();
    let bytes = env.unwrap(&obj, 7).unwrap();
    assert_eq!(bytes, vec![1, 2, 3]);
}

#[test]
fn unwrap_with_mismatched_tag_fails_invalid_arg() {
    let mut env = fresh_env();
    let obj = env.create_object().unwrap();
    env.wrap(obj, 7, vec![1, 2, 3]).unwrap();
    let e = env.unwrap(&obj, 8).unwrap_err();
    assert_eq!(e.status, Status::InvalidArg);
}

#[test]
fn unwrap_without_wrap_fails_invalid_arg() {
    let mut env = fresh_env();
    let obj = env.create_object().unwrap();
    let e = env.unwrap(&obj, 7).unwrap_err();
    assert_eq!(e.status, Status::InvalidArg);
}

#[test]
fn wrapping_twice_fails_invalid_arg() {
    let mut env = fresh_env();
    let obj = env.create_object().unwrap();
    env.wrap(obj, 7, vec![1]).unwrap();
    let e = env.wrap(obj, 9, vec![2]).unwrap_err();
    assert_eq!(e.status, Status::InvalidArg);
}

#[test]
fn drop_wrapped_then_unwrap_fails_but_finalize_completes() {
    let mut env = fresh_env();
    let obj = env.create_object().unwrap();
    env.wrap(obj, 7, vec![9, 9]).unwrap();
    env.drop_wrapped(obj, 7).unwrap();
    let e = env.unwrap(&obj, 7).unwrap_err();
    assert_eq!(e.status, Status::InvalidArg);
    // The host-driven finalize of the same allocation still completes,
    // with no accounting to reverse and nothing dropped twice.
    let before = env.external_memory;
    env.finalize_allocation(0);
    assert!(env.allocs[0].finalized);
    assert_eq!(env.external_memory, before);
}

#[test]
fn drop_wrapped_with_mismatched_tag_fails() {
    let mut env = fresh_env();
    let obj = env.create_object().unwrap();
    env.wrap(obj, 7, vec![9]).unwrap();
    let e = env.drop_wrapped(obj, 8).unwrap_err();
    assert_eq!(e.status, Status::InvalidArg);
    assert_eq!(env.unwrap(&obj, 7).unwrap(), vec![9]);
}

#[test]
fn external_round_trip_and_accounting_net_zero() {
    let mut env = fresh_env();
    let ext = env.create_external(3, vec![4, 5], Some(64)).unwrap();
    assert_eq!(env.external_memory, 64);
    assert_eq!(env.get_value_external(&ext, 3).unwrap(), vec![4, 5]);
    let e = env.get_value_external(&ext, 4).unwrap_err();
    assert_eq!(e.status, Status::InvalidArg);
    env.finalize_allocation(0);
    assert_eq!(env.external_memory, 0);
}

#[test]
fn buffer_with_data_accounting_net_zero() {
    let mut env = fresh_env();
    let bv = env.create_buffer_with_data(vec![1, 2, 3]).unwrap();
    assert_eq!(bv.data, vec![1, 2, 3]);
    assert_eq!(env.external_memory, 3);
    env.finalize_allocation(0);
    assert_eq!(env.external_memory, 0);
}

#[test]
fn arraybuffer_with_data_accounting_net_zero() {
    let mut env = fresh_env();
    let bv = env.create_arraybuffer_with_data(vec![1, 2, 3, 4]).unwrap();
    assert_eq!(bv.data, vec![1, 2, 3, 4]);
    assert_eq!(env.external_memory, 4);
    env.finalize_allocation(0);
    assert_eq!(env.external_memory, 0);
}

#[test]
fn buffer_copy_duplicates_and_leaves_source_alone() {
    let mut env = fresh_env();
    let source = [1u8, 2, 3];
    let bv = env.create_buffer_copy(&source).unwrap();
    assert_eq!(bv.data, vec![1, 2, 3]);
    assert_eq!(source, [1, 2, 3]);
    match &env.values[bv.buffer.idx] {
        HostValue::Buffer { data, backing } => {
            assert_eq!(data, &vec![1, 2, 3]);
            assert!(backing.is_none());
        },
        _ => panic!("expected a buffer value"),
    }
    // The copy is independently owned: no accounting, no backing registration.
    assert_eq!(env.external_memory, 0);
    assert_eq!(env.allocs.len(), 0);
}

#[test]
fn fresh_buffer_is_zeroed() {
    let mut env = fresh_env();
    let bv = env.create_buffer(4).unwrap();
    assert_eq!(bv.data, vec![0, 0, 0, 0]);
    let ab = env.create_arraybuffer(2).unwrap();
    assert_eq!(ab.data, vec![0, 0]);
}

#[test]
fn adjust_external_memory_returns_running_total() {
    let mut env = fresh_env();
    assert_eq!(env.adjust_external_memory(10).unwrap(), 10);
    assert_eq!(env.adjust_external_memory(-4).unwrap(), 6);
    assert_eq!(env.adjust_external_memory(-6).unwrap(), 0);
}

#[test]
fn strings_store_their_code_units() {
    let mut env = fresh_env();
    let s = env.create_string("héllo").unwrap();
    match &env.values[s.idx] {
        HostValue::StrUtf8 { bytes } => assert_eq!(bytes.as_slice(), "héllo".as_bytes()),
        _ => panic!("expected a UTF-8 string"),
    }
    let s = env.create_string_from_std(String::from("abc")).unwrap();
    match &env.values[s.idx] {
        HostValue::StrUtf8 { bytes } => assert_eq!(bytes, &vec![0x61, 0x62, 0x63]),
        _ => panic!("expected a UTF-8 string"),
    }
    let s = env.create_string_from_vec_u8(vec![0xff, 0x00]).unwrap();
    match &env.values[s.idx] {
        HostValue::StrUtf8 { bytes } => assert_eq!(bytes, &vec![0xff, 0x00]),
        _ => panic!("expected a UTF-8 string"),
    }
    let s = env.create_string_from_vec_i8(vec![-1i8, 65]).unwrap();
    match &env.values[s.idx] {
        HostValue::StrUtf8 { bytes } => assert_eq!(bytes, &vec![0xff, 0x41]),
        _ => panic!("expected a UTF-8 string"),
    }
    let s = env.create_string_utf16(&[0x0068, 0xd83d]).unwrap();
    match &env.values[s.idx] {
        HostValue::StrUtf16 { units } => assert_eq!(units, &vec![0x0068, 0xd83d]),
        _ => panic!("expected a UTF-16 string"),
    }
    let s = env.create_string_latin1(&[0xe9, 0x41]).unwrap();
    match &env.values[s.idx] {
        HostValue::StrLatin1 { bytes } => assert_eq!(bytes, &vec![0xe9, 0x41]),
        _ => panic!("expected a Latin-1 string"),
    }
}

#[test]
fn symbols_keep_their_description() {
    let mut env = fresh_env();
    let sym = env.create_symbol(Some("tag")).unwrap();
    let desc_idx = match &env.values[sym.idx] {
        HostValue::Symbol { description: Some(d) } => *d,
        _ => panic!("expected a described symbol"),
    };
    match &env.values[desc_idx] {
        HostValue::StrUtf8 { bytes } => assert_eq!(bytes.as_slice(), b"tag"),
        _ => panic!("expected the description string"),
    }
    let sym = env.create_symbol(None).unwrap();
    match &env.values[sym.idx] {
        HostValue::Symbol { description: None } => {},
        _ => panic!("expected a bare symbol"),
    }
    let desc = env.create_string_utf16(&[0x64]).unwrap();
    let sym = env.create_symbol_from_js_string(desc).unwrap();
    match &env.values[sym.idx] {
        HostValue::Symbol { description: Some(d) } => assert_eq!(*d, desc.idx),
        _ => panic!("expected a described symbol"),
    }
}

#[test]
fn function_and_class_creation() {
    let mut env = fresh_env();
    let f = env.create_function("work", 11).unwrap();
    match &env.values[f.idx] {
        HostValue::Function { name, callback, methods } => {
            assert_eq!(name.as_slice(), b"work");
            assert_eq!(*callback, 11);
            assert!(methods.is_empty());
        },
        _ => panic!("expected a function"),
    }
    let e = env.create_function("bad\0name", 11).unwrap_err();
    assert_eq!(e.status, Status::GenericFailure);

    let props = vec![
        Property { name: b"go".to_vec(), method: 21 },
        Property { name: b"stop".to_vec(), method: 22 },
    ];
    let c = env.define_class("Engine", 20, &props).unwrap();
    match &env.values[c.idx] {
        HostValue::Function { name, callback, methods } => {
            assert_eq!(name.as_slice(), b"Engine");
            assert_eq!(*callback, 20);
            assert_eq!(methods.len(), 2);
            assert_eq!(methods[0].name.as_slice(), b"go");
            assert_eq!(methods[1].method, 22);
        },
        _ => panic!("expected a class constructor"),
    }
}

#[test]
fn create_error_stores_the_reason() {
    let mut env = fresh_env();
    let h = env
        .create_error(Error::new(Status::GenericFailure, String::from("boom")))
        .unwrap();
    match &env.values[h.idx] {
        HostValue::ErrorObject { message } => assert_eq!(message.as_slice(), b"boom"),
        _ => panic!("expected an error object"),
    }
}

#[test]
fn pending_exception_blocks_boundary_calls_until_observed() {
    let mut env = fresh_env();
    env.throw_error("kaput", Some("E42")).unwrap();
    let e = env.create_int32(1).unwrap_err();
    assert_eq!(e.status, Status::PendingException);
    let e = env.throw_error("again", None).unwrap_err();
    assert_eq!(e.status, Status::PendingException);
    let thrown = env.take_pending_exception().unwrap();
    assert_eq!(thrown.message.as_slice(), b"kaput");
    assert_eq!(thrown.code.as_deref(), Some(b"E42".as_slice()));
    assert!(!thrown.uncaught);
    env.create_int32(1).unwrap();
}

#[test]
fn throw_with_interior_nul_throws_nothing() {
    let mut env = fresh_env();
    let e = env.throw_type_error("bad\0msg", None).unwrap_err();
    assert_eq!(e.status, Status::GenericFailure);
    env.create_int32(1).unwrap();
}

#[test]
fn fatal_exception_is_uncaught() {
    let mut env = fresh_env();
    env.fatal_exception(Error::new(Status::GenericFailure, String::from("lost")));
    let thrown = env.take_pending_exception().unwrap();
    assert!(thrown.uncaught);
    assert_eq!(thrown.message.as_slice(), b"lost");
}

#[test]
fn fatal_error_records_location_and_message() {
    let mut env = fresh_env();
    env.fatal_error("native::init", "cannot continue");
    let (loc, msg) = env.fatality.clone().unwrap();
    assert_eq!(loc.as_slice(), b"native::init");
    assert_eq!(msg.as_slice(), b"cannot continue");
}

#[test]
fn run_in_scope_passes_the_result_through() {
    let mut env = fresh_env();
    let r: Result<u32, Error> = env.run_in_scope(|| Ok(5));
    assert_eq!(r.unwrap(), 5);
    assert_eq!(env.scope_depth, 0);
}

#[test]
fn references_resolve_with_and_without_type_checks() {
    let mut env = fresh_env();
    let obj = env.create_object().unwrap();
    let reference = env.create_reference(JsUnknown { idx: obj.idx }).unwrap();
    assert_eq!(reference.count, 1);

    let ok = env.get_reference_value(&reference, ValueType::Object).unwrap();
    assert_eq!(ok.idx, obj.idx);
    let e = env.get_reference_value(&reference, ValueType::Number).unwrap_err();
    assert_eq!(e.status, Status::InvalidArg);

    // The unchecked path hands the handle back; the mismatch surfaces on
    // the first typed use instead.
    let unchecked = env.get_reference_value_unchecked(&reference).unwrap();
    let e = env
        .get_value_int32(napi::value::JsNumber { idx: unchecked.idx })
        .unwrap_err();
    assert_eq!(e.status, Status::InvalidArg);
}

#[test]
fn instance_data_is_a_tag_checked_singleton() {
    let mut env = fresh_env();
    assert!(env.get_instance_data(1).unwrap().is_none());
    env.set_instance_data(1, vec![10], 77, 500).unwrap();
    assert_eq!(env.get_instance_data(1).unwrap(), Some(vec![10]));
    let e = env.get_instance_data(2).unwrap_err();
    assert_eq!(e.status, Status::InvalidArg);
}

#[test]
fn overwriting_instance_data_skips_the_old_finalizer() {
    let mut env = fresh_env();
    env.set_instance_data(1, vec![10], 77, 500).unwrap();
    env.set_instance_data(1, vec![11], 78, 501).unwrap();
    // Documented behavior: the previous registration's finalizer did not run.
    assert!(env.instance_finalized.is_empty());
    assert_eq!(env.get_instance_data(1).unwrap(), Some(vec![11]));

    let (payload, hint) = env.teardown_instance_data().unwrap();
    assert_eq!(payload, Some(vec![11]));
    assert_eq!(hint, 78);
    assert_eq!(env.instance_finalized, vec![501]);
    assert!(env.get_instance_data(1).unwrap().is_none());
    assert!(env.teardown_instance_data().is_none());
}

#[test]
fn cleanup_hooks_run_once_each_and_removals_hold() {
    let mut env = fresh_env();
    let h1 = env.add_env_cleanup_hook(101).unwrap();
    let _h2 = env.add_env_cleanup_hook(102).unwrap();
    let _h3 = env.add_env_cleanup_hook(103).unwrap();
    env.remove_env_cleanup_hook(h1).unwrap();
    let e = env.remove_env_cleanup_hook(h1).unwrap_err();
    assert_eq!(e.status, Status::InvalidArg);
    let ran = env.run_cleanup_hooks();
    assert_eq!(ran, vec![103, 102]);
    assert!(env.cleanup_hooks.is_empty());
}

#[test]
fn napi_version_parses_the_reported_text() {
    let env = Env::new(1, b"8".to_vec(), host_version());
    assert_eq!(env.get_napi_version().unwrap(), 8);
    let env = Env::new(1, b"4294967295".to_vec(), host_version());
    assert_eq!(env.get_napi_version().unwrap(), u32::MAX);
    for bad in [&b""[..], b"8a", b"4294967296", b" 8"] {
        let env = Env::new(1, bad.to_vec(), host_version());
        let e = env.get_napi_version().unwrap_err();
        assert_eq!(e.status, Status::InvalidArg);
    }
}

#[test]
fn raw_returns_the_context_token() {
    let env = Env::new(42, b"8".to_vec(), host_version());
    assert_eq!(env.raw(), 42);
}

#[test]
fn fresh_handles_index_the_heap_in_order() {
    let mut env = fresh_env();
    let a = env.get_undefined().unwrap();
    let b = env.get_null().unwrap();
    let c = env.get_boolean(true).unwrap();
    assert_eq!((a.idx, b.idx, c.idx), (0, 1, 2));
    assert!(matches!(env.values[0], HostValue::Undefined));
    assert!(matches!(env.values[1], HostValue::Null));
    assert!(matches!(env.values[2], HostValue::Boolean { value: true }));
    let arr = env.create_array_with_length(3).unwrap();
    assert!(matches!(env.values[arr.idx], HostValue::Array { length: 3 }));
    let _: JsObject = arr;
}

#[test]
fn version_text_with_leading_zeros_still_parses() {
    let env = Env::new(1, b"007".to_vec(), host_version());
    assert_eq!(env.get_napi_version().unwrap(), 7);
}

#[test]
fn external_without_size_hint_leaves_accounting_alone() {
    let mut env = fresh_env();
    let ext = env.create_external(5, vec![1], None).unwrap();
    assert_eq!(env.external_memory, 0);
    assert_eq!(env.get_value_external(&ext, 5).unwrap(), vec![1]);
    env.finalize_allocation(0);
    assert_eq!(env.external_memory, 0);
    // After finalization nothing is attached any more.
    let e = env.get_value_external(&ext, 5).unwrap_err();
    assert_eq!(e.status, Status::InvalidArg);
}

#[test]
fn bigint_i64_read_rejects_wide_magnitudes() {
    let mut env = fresh_env();
    let h = env.create_bigint_from_u128(u128::MAX).unwrap();
    let e = env.get_bigint_i64(&h).unwrap_err();
    assert_eq!(e.status, Status::InvalidArg);
    let h = env.create_bigint_from_words(false, vec![u64::MAX]).unwrap();
    let e = env.get_bigint_i64(&h).unwrap_err();
    assert_eq!(e.status, Status::InvalidArg);
    let h = env.create_bigint_from_words(true, vec![0x8000_0000_0000_0001]).unwrap();
    let e = env.get_bigint_i64(&h).unwrap_err();
    assert_eq!(e.status, Status::InvalidArg);
}

#[test]
fn buffer_transfer_keeps_its_hint_through_finalization() {
    let mut env = fresh_env();
    let bv = env.create_buffer_with_data(vec![7; 5]).unwrap();
    match env.values[bv.buffer.idx] {
        HostValue::Buffer { backing: Some(aid), .. } => {
            match env.allocs[aid].payload {
                napi::env::AllocPayload::Backing { length, capacity } => {
                    assert_eq!((length, capacity), (5, 5));
                },
                _ => panic!("expected the buffer's backing allocation"),
            }
            env.finalize_allocation(aid);
            // The hint round-trips: the finalized record still carries it.
            match env.allocs[aid].payload {
                napi::env::AllocPayload::Backing { length, capacity } => {
                    assert_eq!((length, capacity), (5, 5));
                },
                _ => panic!("expected the backing allocation to survive"),
            }
            assert!(env.allocs[aid].finalized);
        },
        _ => panic!("expected a transferred buffer"),
    }
}

#[test]
fn strict_equals_follows_the_modeled_algorithm() {
    let mut env = fresh_env();
    let n1 = env.create_int32(5).unwrap();
    let n2 = env.create_int32(5).unwrap();
    let n3 = env.create_int32(6).unwrap();
    let s1 = env.create_string("ab").unwrap();
    let s2 = env.create_string("ab").unwrap();
    let o1 = env.create_object().unwrap();
    let o2 = env.create_object().unwrap();
    let at = |i: usize| JsUnknown { idx: i };
    // The same handle, and equal primitives and strings, compare equal.
    assert!(env.strict_equals(at(o1.idx), at(o1.idx)).unwrap());
    assert!(env.strict_equals(at(n1.idx), at(n2.idx)).unwrap());
    assert!(env.strict_equals(at(s1.idx), at(s2.idx)).unwrap());
    // Distinct values and distinct objects do not.
    assert!(!env.strict_equals(at(n1.idx), at(n3.idx)).unwrap());
    assert!(!env.strict_equals(at(o1.idx), at(o2.idx)).unwrap());
    assert!(!env.strict_equals(at(n1.idx), at(s1.idx)).unwrap());
}

#[test]
fn get_global_hands_back_one_object() {
    let mut env = fresh_env();
    let g1 = env.get_global().unwrap();
    let before = env.values.len();
    let g2 = env.get_global().unwrap();
    assert_eq!(g1.idx, g2.idx);
    assert_eq!(env.values.len(), before);
    assert!(matches!(env.values[g1.idx], HostValue::Object { wrapped: None }));
}

#[test]
fn get_node_version_reports_what_the_host_gave() {
    let env = fresh_env();
    let v = env.get_node_version().unwrap();
    assert_eq!((v.major, v.minor, v.patch), (18, 2, 1));
    assert_eq!(v.release, b"node".to_vec());
}
