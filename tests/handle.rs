use llfree_rs::{
    llfree_cores, llfree_drain, llfree_dump, llfree_frames, llfree_free_at, llfree_free_frames,
    llfree_free_huge, llfree_get, llfree_is_free, llfree_put, result_t, AllocError,
};

#[test]
fn errors_map_to_small_negative_codes() {
    assert_eq!(result_t::from(AllocError::Memory).val, -1);
    assert_eq!(result_t::from(AllocError::Retry).val, -2);
    assert_eq!(result_t::from(AllocError::Address).val, -3);
    assert_eq!(result_t::from(AllocError::Initialization).val, -4);
}

#[test]
fn results_map_to_values_or_codes() {
    assert_eq!(result_t::from(Ok::<(), AllocError>(())).val, 0);
    assert_eq!(result_t::from(Err::<(), AllocError>(AllocError::Retry)).val, -2);
    assert_eq!(result_t::from(Ok::<usize, AllocError>(0x1200)).val, 0x1200);
    assert_eq!(result_t::from(Err::<usize, AllocError>(AllocError::Address)).val, -3);
}

#[test]
fn null_handle_gives_initialization_errors() {
    assert_eq!(llfree_get(None).val, -4);
    assert_eq!(llfree_put(None).val, -4);
    assert_eq!(llfree_drain(None).val, -4);
}

#[test]
fn null_handle_gives_neutral_values() {
    assert_eq!(llfree_cores(None), 0);
    assert_eq!(llfree_frames(None), 0);
    assert_eq!(llfree_free_frames(None), 0);
    assert_eq!(llfree_free_huge(None), 0);
    assert_eq!(llfree_free_at(None), 0);
    assert!(!llfree_is_free(None));
}

#[test]
fn live_handle_answers_are_passed_on() {
    assert_eq!(llfree_get(Some(Ok(4096))).val, 4096);
    assert_eq!(llfree_get(Some(Err(AllocError::Memory))).val, -1);
    assert_eq!(llfree_put(Some(Ok(()))).val, 0);
    assert_eq!(llfree_put(Some(Err(AllocError::Address))).val, -3);
    assert_eq!(llfree_drain(Some(Ok(()))).val, 0);
    assert_eq!(llfree_drain(Some(Err(AllocError::Retry))).val, -2);
    assert_eq!(llfree_cores(Some(4)), 4);
    assert_eq!(llfree_frames(Some(4096)), 4096);
    assert_eq!(llfree_free_frames(Some(4000)), 4000);
    assert_eq!(llfree_free_huge(Some(7)), 7);
    assert_eq!(llfree_free_at(Some(512)), 512);
    assert!(llfree_is_free(Some(true)));
    assert!(!llfree_is_free(Some(false)));
}

#[test]
fn dump_without_handle_writes_nothing() {
    let mut buf = vec![9u8; 4];
    assert_eq!(llfree_dump(None, &mut buf, 0x100, 4), 0);
    assert_eq!(&buf[..], &[9u8, 9, 9, 9]);
}

#[test]
fn dump_writes_state_and_line_break() {
    let mut buf = vec![0u8; 32];
    let n = llfree_dump(Some("LLFree { frames: 8 }"), &mut buf, 0x100, 32);
    assert_eq!(n, 21);
    assert_eq!(&buf[..21], b"LLFree { frames: 8 }\n");
}

#[test]
fn dump_into_small_buffer_reports_needed_size() {
    let mut buf = vec![0u8; 4];
    let n = llfree_dump(Some("abcdef"), &mut buf, 0x100, 4);
    assert_eq!(n, 7);
    assert_eq!(&buf[..], b"abcd");
}

#[test]
fn dump_length_saturates_at_the_address_space() {
    let mut buf = vec![0u8; 1];
    let n = llfree_dump(Some("ab"), &mut buf, usize::MAX - 1, usize::MAX);
    assert_eq!(n, 1);
    assert_eq!(&buf[..], b"a");
}
