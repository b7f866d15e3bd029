use llfree_rs::{
    construction_mode, init_step, llfree_node_init, node_layout, AllocError, InitAction,
    InitEvent, InitMode, InitState, NodeLayout, Region,
};

#[test]
fn layout_rounds_start_down_to_the_largest_block() {
    assert_eq!(
        node_layout(0x1234, 100, 9),
        Some(NodeLayout { offset: 0x1200, frames: 100 + 0x34 })
    );
    assert_eq!(node_layout(0x1000, 8, 9), Some(NodeLayout { offset: 0x1000, frames: 8 }));
    assert_eq!(node_layout(5, 1, 0), Some(NodeLayout { offset: 5, frames: 1 }));
}

#[test]
fn layout_without_frames_is_none() {
    assert_eq!(node_layout(0x1234, 0, 9), None);
}

#[test]
fn init_without_frames_returns_a_null_handle() {
    assert_eq!(
        llfree_node_init(4, 0x1000, 0, 9, 64),
        (InitState::Done, InitAction::Finish { handle: 0 })
    );
}

#[test]
fn init_asks_for_metadata_sizes_first() {
    assert_eq!(
        llfree_node_init(4, 0x1001, 4096, 9, 64),
        (
            InitState::Sizing { cores: 4, frames: 4097, handle_size: 64 },
            InitAction::QuerySizes { cores: 4, frames: 4097 }
        )
    );
}

#[test]
fn init_success_moves_the_allocator_to_host_memory() {
    let (s, a) = llfree_node_init(4, 0, 4096, 9, 64);
    assert_eq!(a, InitAction::QuerySizes { cores: 4, frames: 4096 });
    let (s, a) = init_step(s, InitEvent::Sizes { primary: 256, secondary: 1024 });
    assert_eq!(a, InitAction::Allocate { size: 256 });
    let (s, a) = init_step(s, InitEvent::Allocated { addr: 0xa000 });
    assert_eq!(a, InitAction::Allocate { size: 1024 });
    let (s, a) = init_step(s, InitEvent::Allocated { addr: 0xb000 });
    assert_eq!(
        a,
        InitAction::Build {
            cores: 4,
            frames: 4096,
            mode: InitMode::FreeAll,
            primary: Region { addr: 0xa000, size: 256 },
            secondary: Region { addr: 0xb000, size: 1024 },
        }
    );
    let (s, a) = init_step(s, InitEvent::Built { result: Ok(()) });
    assert_eq!(a, InitAction::Allocate { size: 64 });
    let (s, a) = init_step(s, InitEvent::Allocated { addr: 0xc000 });
    assert_eq!(a, InitAction::Finish { handle: 0xc000 });
    assert_eq!(s, InitState::Done);
}

#[test]
fn init_failure_releases_both_buffers() {
    let (s, _) = llfree_node_init(2, 0, 512, 9, 64);
    let (s, _) = init_step(s, InitEvent::Sizes { primary: 100, secondary: 300 });
    let (s, _) = init_step(s, InitEvent::Allocated { addr: 0x1000 });
    let (s, _) = init_step(s, InitEvent::Allocated { addr: 0x2000 });
    let (s, a) = init_step(s, InitEvent::Built { result: Err(AllocError::Initialization) });
    assert_eq!(
        a,
        InitAction::Release {
            primary: Region { addr: 0x1000, size: 100 },
            secondary: Region { addr: 0x2000, size: 300 },
        }
    );
    assert_eq!(s, InitState::Done);
}

#[test]
fn host_memory_exhaustion_is_fatal() {
    let (s, _) = llfree_node_init(2, 0, 512, 9, 64);
    let (s, _) = init_step(s, InitEvent::Sizes { primary: 100, secondary: 300 });
    assert_eq!(init_step(s, InitEvent::Allocated { addr: 0 }), (InitState::Done, InitAction::Fatal));
    assert_eq!(
        init_step(InitState::Placing, InitEvent::Allocated { addr: 0 }),
        (InitState::Done, InitAction::Fatal)
    );
}

#[test]
fn unexpected_event_is_fatal() {
    let (s, _) = llfree_node_init(2, 0, 512, 9, 64);
    assert_eq!(
        init_step(s, InitEvent::Built { result: Ok(()) }),
        (InitState::Done, InitAction::Fatal)
    );
    assert_eq!(
        init_step(InitState::Done, InitEvent::Allocated { addr: 5 }),
        (InitState::Done, InitAction::Fatal)
    );
}

#[test]
fn persistence_flag_selects_the_mode() {
    assert_eq!(construction_mode(0), InitMode::Volatile);
    assert_eq!(construction_mode(1), InitMode::Recover);
    assert_eq!(construction_mode(usize::MAX), InitMode::Recover);
}
