//! Setting up the allocator of one memory node. The steps alternate between
//! work only the host can do (asking the allocator for its metadata sizes,
//! taking and returning host memory, building the allocator) and decisions,
//! which are made here: the host reports each step's outcome as an event
//! and receives the next action.
use vstd::prelude::*;
use vstd::arithmetic::power2::pow2;
use vstd::bits::{lemma_usize_pow2_no_overflow, lemma_usize_shl_is_mul};
use crate::result::AllocError;

verus! {

/// A block of host memory: its address and its size in bytes.
#[derive(Clone, Copy, Debug, PartialEq, Eq, Structural)]
pub struct Region {
    pub addr: usize,
    pub size: usize,
}

/// How the allocator treats the frames and metadata it is handed.
#[derive(Clone, Copy, Debug, PartialEq, Eq, Structural)]
pub enum InitMode {
    /// No persisted state: the frames start out occupied.
    Volatile,
    /// Rebuild the state persisted in the metadata buffers.
    Recover,
    /// No persisted state: every frame starts out free.
    FreeAll,
}

/// The mode chosen by a persistence flag: `Recover` for a nonzero flag,
/// `Volatile` otherwise.
pub fn construction_mode(persistent: usize) -> (m: InitMode)
    ensures
        persistent != 0 ==> m == InitMode::Recover,
        persistent == 0 ==> m == InitMode::Volatile,
{
    if persistent != 0 {
        InitMode::Recover
    } else {
        InitMode::Volatile
    }
}

/// How far `start_pfn` lies past the last boundary of a 2^max_order block.
pub open spec fn slack(start_pfn: usize, max_order: u32) -> int {
    (start_pfn as int) % (pow2(max_order as nat) as int)
}

/// The frames an allocator covers: from `offset`, the first frame aligned
/// to the largest block, `frames` frames long.
#[derive(Clone, Copy, Debug, PartialEq, Eq, Structural)]
pub struct NodeLayout {
    pub offset: usize,
    pub frames: usize,
}

/// The frames an allocator over `pages` frames from `start_pfn` covers,
/// where its largest block holds 2^max_order frames: the range starts at
/// `start_pfn` rounded down to such a block. `None` for no frames.
pub fn node_layout(start_pfn: usize, pages: usize, max_order: u32) -> (r: Option<NodeLayout>)
    requires
        max_order < usize::BITS,
        pages + slack(start_pfn, max_order) <= usize::MAX,
    ensures
        pages == 0 <==> r is None,
        r matches Some(l) ==> {
            &&& l.offset == start_pfn - slack(start_pfn, max_order)
            &&& l.frames == pages + slack(start_pfn, max_order)
        },
{
    if pages == 0 {
        return None;
    }
    proof {
        lemma_usize_pow2_no_overflow(max_order as nat);
        lemma_usize_shl_is_mul(1, max_order as usize);
    }
    let align: usize = 1usize << max_order as usize;
    assert(align == pow2(max_order as nat));
    assert(start_pfn % align <= start_pfn) by (nonlinear_arith)
        requires
            align > 0,
    ;
    let offset = start_pfn - start_pfn % align;
    Some(NodeLayout { offset, frames: pages + (start_pfn - offset) })
}

/// Where the setup of a node's allocator stands.
#[derive(Clone, Copy, Debug, PartialEq, Eq, Structural)]
pub enum InitState {
    /// Waiting for the metadata sizes.
    Sizing { cores: usize, frames: usize, handle_size: usize },
    /// Waiting for the primary metadata buffer.
    Primary { cores: usize, frames: usize, handle_size: usize, primary: usize, secondary: usize },
    /// Waiting for the secondary metadata buffer.
    Secondary { cores: usize, frames: usize, handle_size: usize, primary: Region, secondary: usize },
    /// Waiting for the allocator to be built over both buffers.
    Building { handle_size: usize, primary: Region, secondary: Region },
    /// Waiting for the memory the built allocator moves to.
    Placing,
    /// Finished; nothing more happens.
    Done,
}

/// What the host reports of the last action.
#[derive(Clone, Copy, Debug, PartialEq, Eq)]
pub enum InitEvent {
    /// The sizes of the two metadata buffers.
    Sizes { primary: usize, secondary: usize },
    /// Host memory was taken at `addr`; zero when none was available.
    Allocated { addr: usize },
    /// The outcome of building the allocator.
    Built { result: Result<(), AllocError> },
}

/// What the host does next.
#[derive(Clone, Copy, Debug, PartialEq, Eq, Structural)]
pub enum InitAction {
    /// Ask the allocator how much metadata it needs.
    QuerySizes { cores: usize, frames: usize },
    /// Take `size` bytes of host memory on the node.
    Allocate { size: usize },
    /// Build the allocator over the two metadata buffers.
    Build { cores: usize, frames: usize, mode: InitMode, primary: Region, secondary: Region },
    /// Return both buffers to the host, log the failure and hand back a
    /// null handle.
    Release { primary: Region, secondary: Region },
    /// Hand back `handle`, zero for a null one; after a successful build the
    /// allocator has first been moved there.
    Finish { handle: usize },
    /// Take the fatal path: host memory ran out, or an event came that the
    /// state does not wait for.
    Fatal,
}

/// The transitions of a node's setup.
pub open spec fn init_next(state: InitState, event: InitEvent) -> (InitState, InitAction) {
    match (state, event) {
        (InitState::Sizing { cores, frames, handle_size }, InitEvent::Sizes { primary, secondary }) => (
            InitState::Primary { cores, frames, handle_size, primary, secondary },
            InitAction::Allocate { size: primary },
        ),
        (
            InitState::Primary { cores, frames, handle_size, primary, secondary },
            InitEvent::Allocated { addr },
        ) => if addr == 0 {
            (InitState::Done, InitAction::Fatal)
        } else {
            (
                InitState::Secondary {
                    cores,
                    frames,
                    handle_size,
                    primary: Region { addr, size: primary },
                    secondary,
                },
                InitAction::Allocate { size: secondary },
            )
        },
        (
            InitState::Secondary { cores, frames, handle_size, primary, secondary },
            InitEvent::Allocated { addr },
        ) => if addr == 0 {
            (InitState::Done, InitAction::Fatal)
        } else {
            let s = Region { addr, size: secondary };
            (
                InitState::Building { handle_size, primary, secondary: s },
                InitAction::Build { cores, frames, mode: InitMode::FreeAll, primary, secondary: s },
            )
        },
        (InitState::Building { handle_size, primary, secondary }, InitEvent::Built { result }) => {
            match result {
                Ok(_) => (InitState::Placing, InitAction::Allocate { size: handle_size }),
                Err(_) => (InitState::Done, InitAction::Release { primary, secondary }),
            }
        },
        (InitState::Placing, InitEvent::Allocated { addr }) => if addr == 0 {
            (InitState::Done, InitAction::Fatal)
        } else {
            (InitState::Done, InitAction::Finish { handle: addr })
        },
        _ => (InitState::Done, InitAction::Fatal),
    }
}

/// The setup after `events`, one after the other, from `state`; the actions
/// taken on the way are dropped and the last one is kept.
pub open spec fn init_run(state: InitState, action: InitAction, events: Seq<InitEvent>) -> (
    InitState,
    InitAction,
)
    decreases events.len(),
{
    if events.len() == 0 {
        (state, action)
    } else {
        let (s1, a1) = init_run(state, action, events.drop_last());
        init_next(s1, events.last())
    }
}

/// When building the allocator fails, the setup returns to the host exactly
/// the two buffers it took, each with the size it asked for.
pub proof fn lemma_failed_build_releases_buffers(
    cores: usize,
    frames: usize,
    handle_size: usize,
    primary: usize,
    secondary: usize,
    primary_addr: usize,
    secondary_addr: usize,
    error: AllocError,
)
    requires
        primary_addr != 0,
        secondary_addr != 0,
    ensures
        init_run(
            InitState::Sizing { cores, frames, handle_size },
            InitAction::QuerySizes { cores, frames },
            seq![
                InitEvent::Sizes { primary, secondary },
                InitEvent::Allocated { addr: primary_addr },
                InitEvent::Allocated { addr: secondary_addr },
                InitEvent::Built { result: Err(error) },
            ],
        ) == (
            InitState::Done,
            InitAction::Release {
                primary: Region { addr: primary_addr, size: primary },
                secondary: Region { addr: secondary_addr, size: secondary },
            },
        ),
{
    let s0 = InitState::Sizing { cores, frames, handle_size };
    let a0 = InitAction::QuerySizes { cores, frames };
    let e1 = seq![InitEvent::Sizes { primary, secondary }];
    let e2 = e1.push(InitEvent::Allocated { addr: primary_addr });
    let e3 = e2.push(InitEvent::Allocated { addr: secondary_addr });
    let e4 = e3.push(InitEvent::Built { result: Err(error) });
    assert(e1.drop_last() =~= Seq::<InitEvent>::empty());
    assert(init_run(s0, a0, Seq::<InitEvent>::empty()) == (s0, a0));
    assert(e1.last() == InitEvent::Sizes { primary, secondary });
    assert(e2.drop_last() =~= e1);
    assert(e3.drop_last() =~= e2);
    assert(e4.drop_last() =~= e3);
    let p = Region { addr: primary_addr, size: primary };
    let q = Region { addr: secondary_addr, size: secondary };
    assert(init_run(s0, a0, e1).0 == InitState::Primary { cores, frames, handle_size, primary, secondary });
    assert(init_run(s0, a0, e2).0 == InitState::Secondary { cores, frames, handle_size, primary: p, secondary });
    assert(init_run(s0, a0, e3).0 == InitState::Building { handle_size, primary: p, secondary: q });
    assert(e4 =~= seq![
        InitEvent::Sizes { primary, secondary },
        InitEvent::Allocated { addr: primary_addr },
        InitEvent::Allocated { addr: secondary_addr },
        InitEvent::Built { result: Err(error) },
    ]);
}

/// When the allocator is built, the setup finishes with the address it was
/// moved to, which is never null.
pub proof fn lemma_built_allocator_is_placed(
    cores: usize,
    frames: usize,
    handle_size: usize,
    primary: usize,
    secondary: usize,
    primary_addr: usize,
    secondary_addr: usize,
    handle_addr: usize,
)
    requires
        primary_addr != 0,
        secondary_addr != 0,
        handle_addr != 0,
    ensures
        init_run(
            InitState::Sizing { cores, frames, handle_size },
            InitAction::QuerySizes { cores, frames },
            seq![
                InitEvent::Sizes { primary, secondary },
                InitEvent::Allocated { addr: primary_addr },
                InitEvent::Allocated { addr: secondary_addr },
                InitEvent::Built { result: Ok(()) },
                InitEvent::Allocated { addr: handle_addr },
            ],
        ) == (InitState::Done, InitAction::Finish { handle: handle_addr }),
{
    let s0 = InitState::Sizing { cores, frames, handle_size };
    let a0 = InitAction::QuerySizes { cores, frames };
    let e1 = seq![InitEvent::Sizes { primary, secondary }];
    let e2 = e1.push(InitEvent::Allocated { addr: primary_addr });
    let e3 = e2.push(InitEvent::Allocated { addr: secondary_addr });
    let e4 = e3.push(InitEvent::Built { result: Ok(()) });
    let e5 = e4.push(InitEvent::Allocated { addr: handle_addr });
    assert(e1.drop_last() =~= Seq::<InitEvent>::empty());
    assert(init_run(s0, a0, Seq::<InitEvent>::empty()) == (s0, a0));
    assert(e1.last() == InitEvent::Sizes { primary, secondary });
    assert(e2.drop_last() =~= e1);
    assert(e3.drop_last() =~= e2);
    assert(e4.drop_last() =~= e3);
    assert(e5.drop_last() =~= e4);
    let p = Region { addr: primary_addr, size: primary };
    let q = Region { addr: secondary_addr, size: secondary };
    assert(init_run(s0, a0, e1).0 == InitState::Primary { cores, frames, handle_size, primary, secondary });
    assert(init_run(s0, a0, e2).0 == InitState::Secondary { cores, frames, handle_size, primary: p, secondary });
    assert(init_run(s0, a0, e3).0 == InitState::Building { handle_size, primary: p, secondary: q });
    assert(init_run(s0, a0, e4).0 == InitState::Placing);
    assert(e5 =~= seq![
        InitEvent::Sizes { primary, secondary },
        InitEvent::Allocated { addr: primary_addr },
        InitEvent::Allocated { addr: secondary_addr },
        InitEvent::Built { result: Ok(()) },
        InitEvent::Allocated { addr: handle_addr },
    ]);
}

/// A setup hands back a null handle only where it was given no frames:
/// every other handle it finishes with, after any events, is nonzero.
pub proof fn lemma_null_handle_only_without_frames(
    cores: usize,
    frames: usize,
    handle_size: usize,
    events: Seq<InitEvent>,
)
    ensures
        init_run(
            InitState::Sizing { cores, frames, handle_size },
            InitAction::QuerySizes { cores, frames },
            events,
        ).1 matches InitAction::Finish { handle } ==> handle != 0,
    decreases events.len(),
{
    if events.len() > 0 {
        lemma_null_handle_only_without_frames(cores, frames, handle_size, events.drop_last());
    }
}

/// Starts the setup of the allocator for `pages` frames from `start_pfn`
/// on `cores` cores, whose instance takes `handle_size` bytes and whose
/// largest block holds 2^max_order frames. Without frames it finishes at
/// once with a null handle.
pub fn llfree_node_init(
    cores: usize,
    start_pfn: usize,
    pages: usize,
    max_order: u32,
    handle_size: usize,
) -> (r: (InitState, InitAction))
    requires
        max_order < usize::BITS,
        pages + slack(start_pfn, max_order) <= usize::MAX,
    ensures
        pages == 0 ==> r == (InitState::Done, InitAction::Finish { handle: 0 }),
        pages != 0 ==> {
            let frames = pages + slack(start_pfn, max_order);
            r == (
                InitState::Sizing { cores, frames: frames as usize, handle_size },
                InitAction::QuerySizes { cores, frames: frames as usize },
            )
        },
{
    match node_layout(start_pfn, pages, max_order) {
        None => (InitState::Done, InitAction::Finish { handle: 0 }),
        Some(layout) => (
            InitState::Sizing { cores, frames: layout.frames, handle_size },
            InitAction::QuerySizes { cores, frames: layout.frames },
        ),
    }
}

/// The next state and action of a node's setup after `event`.
pub fn init_step(state: InitState, event: InitEvent) -> (r: (InitState, InitAction))
    ensures
        r == init_next(state, event),
        r.1 matches InitAction::Finish { handle } ==> handle != 0,
{
    match (state, event) {
        (InitState::Sizing { cores, frames, handle_size }, InitEvent::Sizes { primary, secondary }) => (
            InitState::Primary { cores, frames, handle_size, primary, secondary },
            InitAction::Allocate { size: primary },
        ),
        (
            InitState::Primary { cores, frames, handle_size, primary, secondary },
            InitEvent::Allocated { addr },
        ) => if addr == 0 {
            (InitState::Done, InitAction::Fatal)
        } else {
            (
                InitState::Secondary {
                    cores,
                    frames,
                    handle_size,
                    primary: Region { addr, size: primary },
                    secondary,
                },
                InitAction::Allocate { size: secondary },
            )
        },
        (
            InitState::Secondary { cores, frames, handle_size, primary, secondary },
            InitEvent::Allocated { addr },
        ) => if addr == 0 {
            (InitState::Done, InitAction::Fatal)
        } else {
            let s = Region { addr, size: secondary };
            (
                InitState::Building { handle_size, primary, secondary: s },
                InitAction::Build { cores, frames, mode: InitMode::FreeAll, primary, secondary: s },
            )
        },
        (InitState::Building { handle_size, primary, secondary }, InitEvent::Built { result }) => {
            match result {
                Ok(_) => (InitState::Placing, InitAction::Allocate { size: handle_size }),
                Err(_) => (InitState::Done, InitAction::Release { primary, secondary }),
            }
        },
        (InitState::Placing, InitEvent::Allocated { addr }) => if addr == 0 {
            (InitState::Done, InitAction::Fatal)
        } else {
            (InitState::Done, InitAction::Finish { handle: addr })
        },
        _ => (InitState::Done, InitAction::Fatal),
    }
}

} // verus!
