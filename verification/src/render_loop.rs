use vstd::prelude::*;

verus! {

/// Number of audio frames that are passed over between two rendered frames.
pub const SKIP_SAMPLES: u8 = 3;

/// Decides, for each batch of audio that reaches the render loop, whether it
/// is rendered or passed over: after a rendered batch the next
/// `SKIP_SAMPLES` batches are passed over.
pub struct FrameGate {
    counter: u8,
}

/// Whether a gate whose counter stands at `counter` renders the next batch.
pub open spec fn gate_fires(counter: nat) -> bool {
    counter >= SKIP_SAMPLES
}

/// The counter of a gate after it has seen one more batch.
pub open spec fn gate_step(counter: nat) -> nat {
    if gate_fires(counter) {
        0
    } else {
        counter + 1
    }
}

/// The counter of a new gate after it has seen `n` batches.
pub open spec fn gate_counter_after(n: nat) -> nat
    decreases n,
{
    if n == 0 {
        0
    } else {
        gate_step(gate_counter_after((n - 1) as nat))
    }
}

impl View for FrameGate {
    type V = nat;

    closed spec fn view(&self) -> nat {
        self.counter as nat
    }
}

impl FrameGate {
    /// Well-formedness: the counter stays within bounds.
    pub closed spec fn wf(&self) -> bool {
        self.counter <= SKIP_SAMPLES
    }

    /// A gate that has seen no audio yet.
    pub fn new() -> (gate: FrameGate)
        ensures
            gate.wf(),
            gate@ == 0,
    {
        FrameGate { counter: 0 }
    }

    /// Records one batch of audio; returns whether it is to be rendered.
    pub fn on_audio_frame(&mut self) -> (render: bool)
        requires
            old(self).wf(),
        ensures
            final(self).wf(),
            render == gate_fires(old(self)@),
            final(self)@ == gate_step(old(self)@),
            render <==> old(self)@ == SKIP_SAMPLES as nat,
            render ==> final(self)@ == 0,
            !render ==> final(self)@ == old(self)@ + 1,
    {
        if self.counter >= SKIP_SAMPLES {
            self.counter = 0;
            true
        } else {
            self.counter = self.counter + 1;
            false
        }
    }

    /// The number of batches passed over since the last rendered one.
    pub fn skipped(&self) -> (count: u8)
        ensures
            count as nat == self@,
    {
        self.counter
    }
}

/// A single batch: it is rendered exactly when `SKIP_SAMPLES`
/// batches have been passed over since the last render; a render starts the
/// count again from zero, a pass-over adds one to it.
pub proof fn lemma_gate_step_law(counter: nat)
    requires
        counter <= SKIP_SAMPLES,
    ensures
        gate_fires(counter) <==> counter == 3,
        counter == 3 ==> gate_step(counter) == 0,
        counter < 3 ==> gate_step(counter) == counter + 1,
        gate_step(counter) <= 3,
{
}

/// A well-formed gate's counter stays within `0..=SKIP_SAMPLES`.
pub proof fn lemma_gate_bounded(gate: FrameGate)
    requires
        gate.wf(),
    ensures
        gate@ <= SKIP_SAMPLES,
{
}

/// After `n` batches a new gate's counter is `n` modulo `SKIP_SAMPLES + 1`.
pub proof fn lemma_gate_counter_cycles(n: nat)
    ensures
        gate_counter_after(n) == n % (SKIP_SAMPLES as nat + 1),
    decreases n,
{
    assert(SKIP_SAMPLES as nat + 1 == 4);
    if n > 0 {
        let m = (n - 1) as nat;
        lemma_gate_counter_cycles(m);
        lemma_mod_successor(m);
        assert(n == m + 1);
    }
}

proof fn lemma_mod_successor(m: nat)
    ensures
        (m + 1) % 4 == if m % 4 == 3 {
            0
        } else {
            m % 4 + 1
        },
{
}

/// Starting from a new gate, batch number `n + 1` is rendered exactly when
/// `n + 1` is a multiple of `SKIP_SAMPLES + 1`: one batch in every
/// `SKIP_SAMPLES + 1` consecutive ones reaches the screen.
pub proof fn lemma_gate_renders_periodically(n: nat)
    ensures
        gate_fires(gate_counter_after(n)) <==> (n + 1) % (SKIP_SAMPLES as nat + 1) == 0,
{
    lemma_gate_counter_cycles(n);
    lemma_mod_successor(n);
}

/// Whether a key went down or came up.
#[derive(Clone, Copy, Debug, PartialEq, Eq, Structural)]
pub enum KeyState {
    Pressed,
    Released,
}

/// The keys that the render loop tells apart.
#[derive(Clone, Copy, Debug, PartialEq, Eq, Structural)]
pub enum Key {
    Escape,
    Other,
}

/// The window events that the render loop looks at.
#[derive(Clone, Copy, Debug, PartialEq, Eq, Structural)]
pub enum WindowInput {
    CloseRequested,
    KeyboardInput { state: KeyState, key: Option<Key> },
    Other,
}

/// What the render loop does next.
#[derive(Clone, Copy, Debug, PartialEq, Eq, Structural)]
pub enum LoopAction {
    Continue,
    Exit,
}

/// A window event asks to leave when the window is being closed or Escape
/// has been pressed.
pub open spec fn requests_exit(event: WindowInput) -> bool {
    match event {
        WindowInput::CloseRequested => true,
        WindowInput::KeyboardInput { state: KeyState::Pressed, key: Some(Key::Escape) } => true,
        _ => false,
    }
}

/// Decides what the loop does with a window event. `consumed` is whether
/// the graphics state already handled the event; such an event never ends
/// the loop.
pub fn window_event_action(event: &WindowInput, consumed: bool) -> (action: LoopAction)
    ensures
        action == (if !consumed && requests_exit(*event) {
            LoopAction::Exit
        } else {
            LoopAction::Continue
        }),
        action == LoopAction::Exit <==> !consumed && (*event == WindowInput::CloseRequested
            || *event == WindowInput::KeyboardInput {
            state: KeyState::Pressed,
            key: Some(Key::Escape),
        }),
        action == LoopAction::Exit || action == LoopAction::Continue,
{
    if consumed {
        return LoopAction::Continue;
    }
    match event {
        WindowInput::CloseRequested => LoopAction::Exit,
        WindowInput::KeyboardInput { state: KeyState::Pressed, key: Some(Key::Escape) } => {
            LoopAction::Exit
        },
        _ => LoopAction::Continue,
    }
}

/// Exactly two window events ask to leave the loop: a close request and a
/// press of Escape. Releasing any key, pressing any other key, or a key the
/// loop cannot name, never does.
pub proof fn lemma_only_close_or_escape_press_exits(event: WindowInput)
    ensures
        requests_exit(event) <==> (event == WindowInput::CloseRequested || event
            == WindowInput::KeyboardInput { state: KeyState::Pressed, key: Some(Key::Escape) }),
        forall|state: KeyState, key: Option<Key>|
            (state == KeyState::Released || key != Some(Key::Escape)) ==> !#[trigger] requests_exit(
                WindowInput::KeyboardInput { state, key },
            ),
        !requests_exit(WindowInput::Other),
{
}

/// The ways in which acquiring the next frame of the surface can fail.
#[derive(Clone, Copy, Debug, PartialEq, Eq, Structural)]
pub enum RenderFailure {
    Timeout,
    Outdated,
    Lost,
    OutOfMemory,
}

/// What the loop does after it has tried to render a frame.
#[derive(Clone, Copy, Debug, PartialEq, Eq, Structural)]
pub enum RenderAction {
    /// The frame was shown.
    Continue,
    /// The surface was lost: configure it again at its current size.
    Reconfigure,
    /// Out of memory: leave the loop.
    Exit,
    /// Report the failure and go on.
    Report,
}

/// The action that answers each outcome of a render.
pub open spec fn spec_render_result_action(result: Result<(), RenderFailure>) -> RenderAction {
    match result {
        Ok(()) => RenderAction::Continue,
        Err(RenderFailure::Lost) => RenderAction::Reconfigure,
        Err(RenderFailure::OutOfMemory) => RenderAction::Exit,
        Err(_) => RenderAction::Report,
    }
}

/// Decides what follows a render attempt.
pub fn render_result_action(result: Result<(), RenderFailure>) -> (action: RenderAction)
    ensures
        action == spec_render_result_action(result),
        result == Ok::<(), RenderFailure>(()) ==> action == RenderAction::Continue,
        result == Err::<(), RenderFailure>(RenderFailure::Lost) ==> action
            == RenderAction::Reconfigure,
        result == Err::<(), RenderFailure>(RenderFailure::OutOfMemory) ==> action
            == RenderAction::Exit,
        result == Err::<(), RenderFailure>(RenderFailure::Timeout) ==> action
            == RenderAction::Report,
        result == Err::<(), RenderFailure>(RenderFailure::Outdated) ==> action
            == RenderAction::Report,
{
    match result {
        Ok(()) => RenderAction::Continue,
        Err(RenderFailure::Lost) => RenderAction::Reconfigure,
        Err(RenderFailure::OutOfMemory) => RenderAction::Exit,
        Err(_) => RenderAction::Report,
    }
}

} // verus!
