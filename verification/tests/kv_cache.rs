use llama_cpp_2::{
    breakdown_available, encode_optional, memory_breakdown_entries, status_is_ok,
    KvCacheConversionError, MemoryBreakdownEntry, MemoryCall, RawMemoryEntry, LLAMA_RS_STATUS_OK,
};

const TOO_LARGE: u32 = i32::MAX as u32 + 1;

#[test]
fn total_bytes_sums_the_three_kinds() {
    let entry = MemoryBreakdownEntry {
        buft_name: "CPU".to_string(),
        model_bytes: 1000,
        context_bytes: 200,
        compute_bytes: 34,
    };
    assert_eq!(entry.total_bytes(), 1234);
}

#[test]
fn total_bytes_of_an_empty_buffer_is_zero() {
    let entry = MemoryBreakdownEntry {
        buft_name: String::new(),
        model_bytes: 0,
        context_bytes: 0,
        compute_bytes: 0,
    };
    assert_eq!(entry.total_bytes(), 0);
}

#[test]
fn total_bytes_up_to_the_limit() {
    let entry = MemoryBreakdownEntry {
        buft_name: "CUDA0".to_string(),
        model_bytes: usize::MAX - 3,
        context_bytes: 2,
        compute_bytes: 1,
    };
    assert_eq!(entry.total_bytes(), usize::MAX);
}

#[test]
fn encode_optional_absent_is_minus_one() {
    assert_eq!(encode_optional(None), Ok(-1));
}

#[test]
fn encode_optional_keeps_values_that_fit() {
    assert_eq!(encode_optional(Some(0)), Ok(0));
    assert_eq!(encode_optional(Some(42)), Ok(42));
    assert_eq!(encode_optional(Some(i32::MAX as u32)), Ok(i32::MAX));
}

#[test]
fn encode_optional_rejects_values_above_i32_max() {
    assert!(encode_optional(Some(TOO_LARGE)).is_err());
    assert!(encode_optional(Some(u32::MAX)).is_err());
}

#[test]
fn copy_cache_copies_from_position_zero() {
    assert_eq!(
        MemoryCall::copy_cache(1, 2, 64),
        MemoryCall::SeqCopy { src: 1, dest: 2, p0: 0, p1: 64 }
    );
}

#[test]
fn copy_cache_with_negative_size_passes_it_through() {
    assert_eq!(
        MemoryCall::copy_cache(0, 3, -5),
        MemoryCall::SeqCopy { src: 0, dest: 3, p0: 0, p1: -5 }
    );
}

#[test]
fn copy_cache_equals_bounded_copy() {
    for size in [0, 1, 17, i32::MAX] {
        assert_eq!(
            MemoryCall::copy_kv_cache_seq(4, 5, Some(0), Some(size as u32)).unwrap(),
            MemoryCall::copy_cache(4, 5, size)
        );
    }
}

#[test]
fn copy_kv_cache_seq_with_bounds() {
    assert_eq!(
        MemoryCall::copy_kv_cache_seq(0, 1, Some(10), Some(20)),
        Ok(MemoryCall::SeqCopy { src: 0, dest: 1, p0: 10, p1: 20 })
    );
}

#[test]
fn copy_kv_cache_seq_open_bounds() {
    assert_eq!(
        MemoryCall::copy_kv_cache_seq(2, 3, None, None),
        Ok(MemoryCall::SeqCopy { src: 2, dest: 3, p0: -1, p1: -1 })
    );
    assert_eq!(
        MemoryCall::copy_kv_cache_seq(2, 3, Some(7), None),
        Ok(MemoryCall::SeqCopy { src: 2, dest: 3, p0: 7, p1: -1 })
    );
}

#[test]
fn copy_kv_cache_seq_p0_too_large() {
    assert!(matches!(
        MemoryCall::copy_kv_cache_seq(0, 1, Some(TOO_LARGE), Some(3)),
        Err(KvCacheConversionError::P0TooLarge(_))
    ));
}

#[test]
fn copy_kv_cache_seq_p1_too_large() {
    assert!(matches!(
        MemoryCall::copy_kv_cache_seq(0, 1, Some(3), Some(TOO_LARGE)),
        Err(KvCacheConversionError::P1TooLarge(_))
    ));
}

#[test]
fn copy_kv_cache_seq_checks_p0_first() {
    assert!(matches!(
        MemoryCall::copy_kv_cache_seq(0, 1, Some(u32::MAX), Some(u32::MAX)),
        Err(KvCacheConversionError::P0TooLarge(_))
    ));
}

#[test]
fn clear_kv_cache_seq_everything() {
    assert_eq!(
        MemoryCall::clear_kv_cache_seq(None, None, None),
        Ok(MemoryCall::SeqRemove { seq_id: -1, p0: -1, p1: -1 })
    );
}

#[test]
fn clear_kv_cache_seq_range_of_one_sequence() {
    assert_eq!(
        MemoryCall::clear_kv_cache_seq(Some(3), Some(8), Some(16)),
        Ok(MemoryCall::SeqRemove { seq_id: 3, p0: 8, p1: 16 })
    );
}

#[test]
fn clear_kv_cache_seq_seq_id_too_large() {
    assert!(matches!(
        MemoryCall::clear_kv_cache_seq(Some(TOO_LARGE), Some(TOO_LARGE), Some(TOO_LARGE)),
        Err(KvCacheConversionError::SeqIdTooLarge(_))
    ));
}

#[test]
fn clear_kv_cache_seq_p0_too_large() {
    assert!(matches!(
        MemoryCall::clear_kv_cache_seq(Some(1), Some(TOO_LARGE), Some(TOO_LARGE)),
        Err(KvCacheConversionError::P0TooLarge(_))
    ));
}

#[test]
fn clear_kv_cache_seq_p1_too_large() {
    assert!(matches!(
        MemoryCall::clear_kv_cache_seq(None, None, Some(TOO_LARGE)),
        Err(KvCacheConversionError::P1TooLarge(_))
    ));
}

#[test]
fn clear_kv_cache_clears_data_too() {
    assert_eq!(MemoryCall::clear_kv_cache(), MemoryCall::Clear { data: true });
}

#[test]
fn seq_keep_and_position_queries() {
    assert_eq!(MemoryCall::llama_kv_cache_seq_keep(4), MemoryCall::SeqKeep { seq_id: 4 });
    assert_eq!(MemoryCall::kv_cache_seq_pos_max(5), MemoryCall::SeqPosMax { seq_id: 5 });
    assert_eq!(MemoryCall::kv_cache_seq_pos_min(6), MemoryCall::SeqPosMin { seq_id: 6 });
}

#[test]
fn kv_cache_seq_add_shifts_range() {
    assert_eq!(
        MemoryCall::kv_cache_seq_add(0, Some(4), None, -3),
        Ok(MemoryCall::SeqAdd { seq_id: 0, p0: 4, p1: -1, delta: -3 })
    );
    assert!(matches!(
        MemoryCall::kv_cache_seq_add(0, Some(TOO_LARGE), None, 1),
        Err(KvCacheConversionError::P0TooLarge(_))
    ));
    assert!(matches!(
        MemoryCall::kv_cache_seq_add(0, None, Some(TOO_LARGE), 1),
        Err(KvCacheConversionError::P1TooLarge(_))
    ));
}

#[test]
fn kv_cache_seq_div_passes_the_factor() {
    assert_eq!(
        MemoryCall::kv_cache_seq_div(1, None, Some(100), 2),
        Ok(MemoryCall::SeqDiv { seq_id: 1, p0: -1, p1: 100, d: 2 })
    );
    assert_eq!(
        MemoryCall::kv_cache_seq_div(1, Some(0), Some(100), 255),
        Ok(MemoryCall::SeqDiv { seq_id: 1, p0: 0, p1: 100, d: 255 })
    );
    assert!(matches!(
        MemoryCall::kv_cache_seq_div(1, Some(TOO_LARGE), None, 2),
        Err(KvCacheConversionError::P0TooLarge(_))
    ));
    assert!(matches!(
        MemoryCall::kv_cache_seq_div(1, None, Some(TOO_LARGE), 2),
        Err(KvCacheConversionError::P1TooLarge(_))
    ));
}

#[test]
fn status_ok_is_zero() {
    assert!(status_is_ok(LLAMA_RS_STATUS_OK));
    assert!(status_is_ok(0));
    assert!(!status_is_ok(-1));
    assert!(!status_is_ok(-3));
}

#[test]
fn breakdown_available_needs_success_entries_and_a_count() {
    assert!(breakdown_available(0, true, 2));
    assert!(!breakdown_available(-2, true, 2));
    assert!(!breakdown_available(0, false, 2));
    assert!(!breakdown_available(0, true, 0));
}

#[test]
fn from_raw_without_name_is_empty() {
    let raw = RawMemoryEntry { buft_name: None, model_bytes: 1, context_bytes: 2, compute_bytes: 3 };
    let entry = MemoryBreakdownEntry::from_raw(&raw);
    assert_eq!(entry.buft_name, "");
    assert_eq!(entry.model_bytes, 1);
    assert_eq!(entry.context_bytes, 2);
    assert_eq!(entry.compute_bytes, 3);
}

#[test]
fn memory_breakdown_entries_keeps_order_and_values() {
    let raw = vec![
        RawMemoryEntry {
            buft_name: Some("CPU".to_string()),
            model_bytes: 10,
            context_bytes: 20,
            compute_bytes: 30,
        },
        RawMemoryEntry {
            buft_name: Some("Metal".to_string()),
            model_bytes: 1,
            context_bytes: 0,
            compute_bytes: 5,
        },
        RawMemoryEntry { buft_name: None, model_bytes: 0, context_bytes: 7, compute_bytes: 0 },
    ];
    let entries = memory_breakdown_entries(&raw);
    assert_eq!(entries.len(), 3);
    assert_eq!(entries[0].buft_name, "CPU");
    assert_eq!(entries[0].total_bytes(), 60);
    assert_eq!(entries[1].buft_name, "Metal");
    assert_eq!(entries[1].model_bytes, 1);
    assert_eq!(entries[1].compute_bytes, 5);
    assert_eq!(entries[2].buft_name, "");
    assert_eq!(entries[2].context_bytes, 7);
}

#[test]
fn memory_breakdown_entries_of_nothing_is_empty() {
    assert!(memory_breakdown_entries(&Vec::new()).is_empty());
}
