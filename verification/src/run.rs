//! Whole runs of the engine: what holds of every sequence of responses.

use crate::device::breaks_on;
use crate::device::Severity;
use crate::engine::abort;
use crate::engine::begin;
use crate::engine::in_frame_loop;
use crate::engine::respond;
use crate::engine::successor;
use crate::engine::transition;
use crate::engine::ConfigView;
use crate::engine::FailureView;
use crate::engine::Operation;
use crate::engine::Phase;
use crate::engine::RequestView;
use crate::engine::ResponseView;
use crate::frame::draw_count;
use crate::frame::frame_commands_for;
use crate::frame::lemma_frame_draws_once;
use crate::frame::present_params_spec;
use crate::frame::triangle_draw;
use crate::frame::wants_quit;
use crate::frame::InputEvent;
use crate::frame::RenderCommand;
use crate::frame::PRESENT_OK;
use crate::presentation::depth_texture_desc_for;
use crate::presentation::swap_chain_desc_for;
use crate::presentation::viewport_for;
use crate::presentation::NativeHandle;
use crate::shader::ShaderStage;
use vstd::prelude::*;

verus! {

/// The phase of a run that began in `phase` and has since taken
/// `responses`.
pub open spec fn phase_after(config: ConfigView, phase: Phase, responses: Seq<ResponseView>) -> Phase
    decreases responses.len(),
{
    if responses.len() == 0 {
        phase
    } else {
        transition(config, phase_after(config, phase, responses.drop_last()), responses.last()).0
    }
}

/// The request with which a run that began in `phase` answers the last of
/// `responses`.
pub open spec fn request_after(
    config: ConfigView,
    phase: Phase,
    responses: Seq<ResponseView>,
) -> RequestView
    recommends
        responses.len() > 0,
{
    transition(config, phase_after(config, phase, responses.drop_last()), responses.last()).1
}

/// The phase in which every run begins.
pub open spec fn initial_phase() -> Phase {
    Phase::Awaiting(Operation::InitWindowing)
}

/// The operations of the bootstrap in the order in which they are
/// performed: the window, the adapter, the device and its context, in
/// debug builds the validation layer, then the swapchain, the views, the
/// index buffer and the two shaders.
pub open spec fn bootstrap_order(debug: bool) -> Seq<Operation> {
    let windowing = seq![
        Operation::InitWindowing,
        Operation::OpenVideo,
        Operation::CreateWindow,
        Operation::OpenEventPump,
    ];
    let device = seq![
        Operation::CreateFactory,
        Operation::SelectAdapter,
        Operation::DescribeAdapter,
        Operation::AnnounceAdapter,
        Operation::CreateDevice,
        Operation::AcquireDevice,
        Operation::UpgradeDevice,
        Operation::AcquireContext,
        Operation::UpgradeContext,
    ];
    let validation = if debug {
        seq![
            Operation::DebugController,
            Operation::InfoQueue,
            Operation::BreakOnSeverity(Severity::Corruption),
            Operation::BreakOnSeverity(Severity::Error),
            Operation::BreakOnSeverity(Severity::Warning),
        ]
    } else {
        Seq::empty()
    };
    let presentation = seq![
        Operation::ResolveWindowHandle,
        Operation::CreateSwapchain,
        Operation::GetBackBuffer,
        Operation::CreateRenderTargetView,
        Operation::CreateDepthTexture,
        Operation::CreateDepthStencilView,
    ];
    let geometry = seq![Operation::CreateIndexBuffer];
    let shaders = seq![
        Operation::CompileShader(ShaderStage::Vertex),
        Operation::CreateShader(ShaderStage::Vertex),
        Operation::CompileShader(ShaderStage::Pixel),
        Operation::CreateShader(ShaderStage::Pixel),
    ];
    windowing + device + validation + presentation + geometry + shaders
}

/// The operation that a run performs after `n` successes: the bootstrap
/// in order, then poll and render in turn.
pub open spec fn operation_at(debug: bool, n: nat) -> Operation
    decreases n,
{
    if n == 0 {
        Operation::InitWindowing
    } else {
        successor(debug, operation_at(debug, (n - 1) as nat))
    }
}

/// A run that has ended gives no further request and stays as it is.
pub proof fn lemma_halted_stays_halted(
    config: ConfigView,
    phase: Phase,
    responses: Seq<ResponseView>,
)
    requires
        !(phase is Awaiting),
    ensures
        phase_after(config, phase, responses) == phase,
        responses.len() > 0 ==> request_after(config, phase, responses) == RequestView::Halted,
    decreases responses.len(),
{
    if responses.len() > 0 {
        lemma_halted_stays_halted(config, phase, responses.drop_last());
    }
}

/// A step leaves a run where it awaits the operation that follows, or
/// ends it.
pub proof fn lemma_step_follows_order(config: ConfigView, op: Operation, response: ResponseView)
    ensures
        ({
            let next = transition(config, Phase::Awaiting(op), response).0;
            next == Phase::Awaiting(successor(config.debug, op)) || next == Phase::Failed || (next
                == Phase::Terminated && op == Operation::PollEvents)
        }),
{
}

/// When the input asks to quit, the loop ends in that same iteration:
/// the frame is not rendered, and no request follows.
pub proof fn lemma_quit_ends_loop(
    config: ConfigView,
    events: Seq<InputEvent>,
    later: Seq<ResponseView>,
)
    requires
        wants_quit(events),
    ensures
        transition(config, Phase::Awaiting(Operation::PollEvents), ResponseView::Events(events))
            == (Phase::Terminated, RequestView::Exit),
        phase_after(config, Phase::Terminated, later) == Phase::Terminated,
        later.len() > 0 ==> request_after(config, Phase::Terminated, later) == RequestView::Halted,
{
    lemma_halted_stays_halted(config, Phase::Terminated, later);
}

/// When the input does not ask to quit, the frame is rendered: its
/// commands hold exactly one draw, of three indices from index 0 with one
/// instance, and it is presented at the next vertical blank.
pub proof fn lemma_quiet_frame_draws_once(config: ConfigView, events: Seq<InputEvent>)
    requires
        !wants_quit(events),
    ensures
        ({
            let (phase, request) = transition(
                config,
                Phase::Awaiting(Operation::PollEvents),
                ResponseView::Events(events),
            );
            &&& phase == Phase::Awaiting(Operation::RenderFrame)
            &&& request matches RequestView::RenderFrame { commands, present }
            &&& commands == frame_commands_for(viewport_for(config.width, config.height))
            &&& draw_count(commands) == 1
            &&& commands.last() == triangle_draw()
            &&& present == present_params_spec()
        }),
{
    lemma_frame_draws_once(viewport_for(config.width, config.height));
}

/// A present that does not succeed ends the run at once: the failure is
/// reported, and whatever the driver answers afterwards, no frame is
/// rendered again.
pub proof fn lemma_present_failure_ends_run(
    config: ConfigView,
    status: i32,
    later: Seq<ResponseView>,
)
    requires
        status != PRESENT_OK,
    ensures
        transition(config, Phase::Awaiting(Operation::RenderFrame), ResponseView::Presented(status))
            == abort(FailureView::Present { status }),
        phase_after(config, Phase::Failed, later) == Phase::Failed,
        later.len() > 0 ==> request_after(config, Phase::Failed, later) == RequestView::Halted,
{
    lemma_halted_stays_halted(config, Phase::Failed, later);
}

/// A present that succeeds goes on to the next poll.
pub proof fn lemma_present_success_polls(config: ConfigView)
    ensures
        transition(
            config,
            Phase::Awaiting(Operation::RenderFrame),
            ResponseView::Presented(PRESENT_OK),
        ) == (Phase::Awaiting(Operation::PollEvents), RequestView::PollEvents),
{
}

/// The swapchain, the depth texture and the viewport that the engine asks
/// for have the width and the height of the configured window.
pub proof fn lemma_targets_match_window(config: ConfigView, hwnd: isize)
    ensures
        respond(
            config,
            Operation::ResolveWindowHandle,
            ResponseView::WindowHandle(NativeHandle::Win32 { hwnd }),
        ).1 == (RequestView::CreateSwapchain {
            hwnd,
            desc: swap_chain_desc_for(config.width, config.height),
        }),
        swap_chain_desc_for(config.width, config.height).width == config.width,
        swap_chain_desc_for(config.width, config.height).height == config.height,
        begin(config, Operation::CreateDepthTexture).1 == RequestView::CreateDepthTexture(
            depth_texture_desc_for(config.width, config.height),
        ),
        depth_texture_desc_for(config.width, config.height).width == config.width,
        depth_texture_desc_for(config.width, config.height).height == config.height,
        begin(config, Operation::RenderFrame).1 matches RequestView::RenderFrame { commands, .. }
            && commands[7] == (RenderCommand::SetViewport {
            viewport: viewport_for(config.width, config.height),
        }),
        viewport_for(config.width, config.height).width == config.width,
        viewport_for(config.width, config.height).height == config.height,
{
}

/// `operation_at` walks `bootstrap_order` and then reaches the frame loop,
/// which it never leaves.
pub proof fn lemma_bootstrap_order(debug: bool)
    ensures
        bootstrap_order(debug).len() == if debug {
            29nat
        } else {
            24nat
        },
        forall|i: nat|
            i < bootstrap_order(debug).len() ==> #[trigger] operation_at(debug, i)
                == bootstrap_order(debug)[i as int],
        forall|i: int|
            0 <= i < bootstrap_order(debug).len() ==> !in_frame_loop(
                #[trigger] bootstrap_order(debug)[i],
            ),
        forall|n: nat|
            n >= bootstrap_order(debug).len() ==> in_frame_loop(#[trigger] operation_at(debug, n)),
        operation_at(debug, bootstrap_order(debug).len()) == Operation::PollEvents,
{
    let order = bootstrap_order(debug);
    assert forall|i: nat| i < order.len() implies #[trigger] operation_at(debug, i) == order[i as int] by {
        lemma_operation_at_in_order(debug, i);
    }
    lemma_operation_at_in_order(debug, (order.len() - 1) as nat);
    assert forall|n: nat| n >= order.len() implies in_frame_loop(#[trigger] operation_at(debug, n)) by {
        lemma_operation_at_in_loop(debug, n);
    }
}

proof fn lemma_operation_at_in_order(debug: bool, i: nat)
    requires
        i < bootstrap_order(debug).len(),
    ensures
        operation_at(debug, i) == bootstrap_order(debug)[i as int],
    decreases i,
{
    if i > 0 {
        lemma_operation_at_in_order(debug, (i - 1) as nat);
    }
}

proof fn lemma_operation_at_in_loop(debug: bool, n: nat)
    requires
        n >= bootstrap_order(debug).len(),
    ensures
        in_frame_loop(operation_at(debug, n)),
    decreases n,
{
    if n == bootstrap_order(debug).len() {
        lemma_operation_at_in_order(debug, (n - 1) as nat);
    } else {
        lemma_operation_at_in_loop(debug, (n - 1) as nat);
    }
}

/// The bootstrap of a debug build has the validation layer break on
/// exactly the severities of `breaks_on`: corruption, error and warning.
/// A release build sets no break.
pub proof fn lemma_validation_breaks(debug: bool, severity: Severity)
    ensures
        bootstrap_order(debug).contains(Operation::BreakOnSeverity(severity)) <==> debug
            && breaks_on(severity),
{
    let order = bootstrap_order(debug);
    let op = Operation::BreakOnSeverity(severity);
    if debug {
        assert(order[15] == Operation::BreakOnSeverity(Severity::Corruption));
        assert(order[16] == Operation::BreakOnSeverity(Severity::Error));
        assert(order[17] == Operation::BreakOnSeverity(Severity::Warning));
    }
    if order.contains(op) {
        let i = choose|i: int| 0 <= i < order.len() && order[i] == op;
        assert(order[i] == op);
    }
}

/// A run that has not ended awaits the operation that its number of
/// steps gives, and had not ended at any earlier point.
pub proof fn lemma_run_follows_order(config: ConfigView, responses: Seq<ResponseView>)
    requires
        phase_after(config, initial_phase(), responses) is Awaiting,
    ensures
        forall|k: int|
            0 <= k <= responses.len() ==> #[trigger] phase_after(
                config,
                initial_phase(),
                responses.take(k),
            ) == Phase::Awaiting(operation_at(config.debug, k as nat)),
    decreases responses.len(),
{
    let n = responses.len() as int;
    assert(responses.take(n) == responses);
    if n == 0 {
        assert forall|k: int| 0 <= k <= responses.len() implies #[trigger] phase_after(
            config,
            initial_phase(),
            responses.take(k),
        ) == Phase::Awaiting(operation_at(config.debug, k as nat)) by {
            assert(responses.take(k) == responses);
        }
    } else {
        let shorter = responses.drop_last();
        let before = phase_after(config, initial_phase(), shorter);
        if !(before is Awaiting) {
            assert(transition(config, before, responses.last()).0 == before);
            assert(false);
        }
        lemma_run_follows_order(config, shorter);
        assert(shorter.take(n - 1) == shorter);
        assert(before == Phase::Awaiting(operation_at(config.debug, (n - 1) as nat)));
        lemma_step_follows_order(config, before->Awaiting_0, responses.last());
        assert forall|k: int| 0 <= k <= responses.len() implies #[trigger] phase_after(
            config,
            initial_phase(),
            responses.take(k),
        ) == Phase::Awaiting(operation_at(config.debug, k as nat)) by {
            if k < n {
                assert(responses.take(k) == shorter.take(k));
            }
        }
    }
}

/// Where an operation stands in the bootstrap of a debug build; the frame
/// loop comes after all of it.
pub open spec fn bootstrap_rank(op: Operation) -> int {
    match op {
        Operation::InitWindowing => 0,
        Operation::OpenVideo => 1,
        Operation::CreateWindow => 2,
        Operation::OpenEventPump => 3,
        Operation::CreateFactory => 4,
        Operation::SelectAdapter => 5,
        Operation::DescribeAdapter => 6,
        Operation::AnnounceAdapter => 7,
        Operation::CreateDevice => 8,
        Operation::AcquireDevice => 9,
        Operation::UpgradeDevice => 10,
        Operation::AcquireContext => 11,
        Operation::UpgradeContext => 12,
        Operation::DebugController => 13,
        Operation::InfoQueue => 14,
        Operation::BreakOnSeverity(Severity::Corruption) => 15,
        Operation::BreakOnSeverity(Severity::Error) => 16,
        Operation::BreakOnSeverity(_) => 17,
        Operation::ResolveWindowHandle => 18,
        Operation::CreateSwapchain => 19,
        Operation::GetBackBuffer => 20,
        Operation::CreateRenderTargetView => 21,
        Operation::CreateDepthTexture => 22,
        Operation::CreateDepthStencilView => 23,
        Operation::CreateIndexBuffer => 24,
        Operation::CompileShader(ShaderStage::Vertex) => 25,
        Operation::CreateShader(ShaderStage::Vertex) => 26,
        Operation::CompileShader(ShaderStage::Pixel) => 27,
        Operation::CreateShader(ShaderStage::Pixel) => 28,
        Operation::PollEvents => 29,
        Operation::RenderFrame => 29,
    }
}

/// The bootstrap goes strictly forward: each of its operations stands
/// before the one that follows it, so none stands in it twice.
pub proof fn lemma_bootstrap_goes_forward(debug: bool)
    ensures
        forall|i: int, j: int|
            0 <= i < j < bootstrap_order(debug).len() ==> bootstrap_rank(
                #[trigger] bootstrap_order(debug)[i],
            ) < bootstrap_rank(#[trigger] bootstrap_order(debug)[j]),
        bootstrap_order(debug).no_duplicates(),
{
    let order = bootstrap_order(debug);
    assert forall|i: int| 0 <= i < order.len() - 1 implies bootstrap_rank(#[trigger] order[i])
        < bootstrap_rank(order[i + 1]) by {}
    assert forall|i: int, j: int| 0 <= i < j < order.len() implies bootstrap_rank(
        #[trigger] order[i],
    ) < bootstrap_rank(#[trigger] order[j]) by {
        lemma_rank_rises(debug, i, j);
    }
}

proof fn lemma_rank_rises(debug: bool, i: int, j: int)
    requires
        0 <= i < j < bootstrap_order(debug).len(),
    ensures
        bootstrap_rank(bootstrap_order(debug)[i]) < bootstrap_rank(bootstrap_order(debug)[j]),
    decreases j - i,
{
    let order = bootstrap_order(debug);
    assert(bootstrap_rank(order[j - 1]) < bootstrap_rank(order[j]));
    if i < j - 1 {
        lemma_rank_rises(debug, i, j - 1);
    }
}

/// Every resource is created once: a run never awaits the same bootstrap
/// operation at two different points.
pub proof fn lemma_bootstrap_operations_run_once(
    config: ConfigView,
    responses: Seq<ResponseView>,
    i: int,
    j: int,
    op: Operation,
)
    requires
        0 <= i <= responses.len(),
        0 <= j <= responses.len(),
        !in_frame_loop(op),
        phase_after(config, initial_phase(), responses.take(i)) == Phase::Awaiting(op),
        phase_after(config, initial_phase(), responses.take(j)) == Phase::Awaiting(op),
    ensures
        i == j,
{
    let order = bootstrap_order(config.debug);
    lemma_bootstrap_order(config.debug);
    lemma_bootstrap_goes_forward(config.debug);
    let first = responses.take(i);
    let second = responses.take(j);
    lemma_run_follows_order(config, first);
    lemma_run_follows_order(config, second);
    assert(first.take(i) == first);
    assert(second.take(j) == second);
    assert(operation_at(config.debug, i as nat) == op);
    assert(operation_at(config.debug, j as nat) == op);
    assert(i < order.len());
    assert(j < order.len());
    assert(order[i] == op);
    assert(order[j] == op);
}

/// The frame loop begins only when the bootstrap is complete: a run that
/// polls or renders has performed every bootstrap operation, each once
/// and in order, before its first poll.
pub proof fn lemma_loop_follows_bootstrap(config: ConfigView, responses: Seq<ResponseView>)
    requires
        phase_after(config, initial_phase(), responses) matches Phase::Awaiting(op)
            && in_frame_loop(op),
    ensures
        responses.len() >= bootstrap_order(config.debug).len(),
        forall|i: int|
            0 <= i < bootstrap_order(config.debug).len() ==> #[trigger] phase_after(
                config,
                initial_phase(),
                responses.take(i),
            ) == Phase::Awaiting(bootstrap_order(config.debug)[i]),
        phase_after(
            config,
            initial_phase(),
            responses.take(bootstrap_order(config.debug).len() as int),
        ) == Phase::Awaiting(Operation::PollEvents),
{
    let order = bootstrap_order(config.debug);
    let n = responses.len();
    lemma_bootstrap_order(config.debug);
    lemma_run_follows_order(config, responses);
    assert(responses.take(n as int) == responses);
    assert(phase_after(config, initial_phase(), responses.take(n as int)) == Phase::Awaiting(
        operation_at(config.debug, n),
    ));
    if n < order.len() {
        assert(operation_at(config.debug, n) == order[n as int]);
        assert(!in_frame_loop(order[n as int]));
        assert(false);
    }
    assert forall|i: int| 0 <= i < order.len() implies #[trigger] phase_after(
        config,
        initial_phase(),
        responses.take(i),
    ) == Phase::Awaiting(order[i]) by {
        assert(operation_at(config.debug, i as nat) == order[i]);
    }
}

} // verus!
