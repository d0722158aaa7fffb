//! The render kernel's message loop: which messages ask for a redraw, the pool of
//! textures it renders into, and the size of its render buffers.
use vstd::prelude::*;

use crate::text::{decimal, decimal_string};

verus! {

/// A message to the render kernel; `T` is the application's message type and `Tex`
/// the type of a texture.
pub enum ControlMessage<T, Tex> {
    /// A texture that was shown and is free to be rendered into again.
    ReleaseFrontBufferTexture { texture: Tex },
    /// The size the rendered image should have.
    ResizeBuffers { width: u32, height: u32 },
    /// Starts the rendering.
    KickOff,
    /// A message for the scene.
    AppMsg(T),
}

/// How a control message is shown in diagnostics; the payload of a texture or
/// scene message is not shown.
pub open spec fn control_message_text<T, Tex>(msg: ControlMessage<T, Tex>) -> Seq<char> {
    match msg {
        ControlMessage::ReleaseFrontBufferTexture { .. } => "ControlMessage::ReleaseFrontBufferTexture"@,
        ControlMessage::ResizeBuffers { width, height } => "ControlMessage::ResizeBuffers { width: "@ + decimal(
            width as nat,
        ) + ", height: "@ + decimal(height as nat) + " }"@,
        ControlMessage::AppMsg(_) => "ControlMessage::AppMsg"@,
        ControlMessage::KickOff => "ControlMessage::KickOff"@,
    }
}

impl<T, Tex> ControlMessage<T, Tex> {
    /// The diagnostic text of the message.
    pub fn debug_text(&self) -> (text: String)
        ensures
            text@ == control_message_text(*self),
    {
        match self {
            ControlMessage::ReleaseFrontBufferTexture { .. } => String::from_str(
                "ControlMessage::ReleaseFrontBufferTexture",
            ),
            ControlMessage::ResizeBuffers { width, height } => {
                let mut text = String::from_str("ControlMessage::ResizeBuffers { width: ");
                text.append(decimal_string(*width).as_str());
                text.append(", height: ");
                text.append(decimal_string(*height).as_str());
                text.append(" }");
                text
            },
            ControlMessage::AppMsg(_) => String::from_str("ControlMessage::AppMsg"),
            ControlMessage::KickOff => String::from_str("ControlMessage::KickOff"),
        }
    }
}

/// What the kernel's owner has to do for a message.
pub enum KernelEffect<T> {
    /// Nothing.
    Done,
    /// Hand the message to the scene, and report with `request_render` whether it
    /// asks for a redraw.
    Dispatch(T),
    /// Resize the renderer's buffers.
    Resize { width: u32, height: u32 },
}

/// The abstract state of the kernel.
pub ghost struct KernelModel<Tex> {
    pub buffer_width: u32,
    pub buffer_height: u32,
    pub needs_render: bool,
    pub pool: Seq<Tex>,
}

/// The kernel's state: the size of its render buffers, whether a redraw is owed,
/// and the textures it may render into.
pub struct KernelState<Tex> {
    buffer_width: u32,
    buffer_height: u32,
    needs_render: bool,
    texture_pool: Vec<Tex>,
}

impl<Tex> View for KernelState<Tex> {
    type V = KernelModel<Tex>;

    closed spec fn view(&self) -> KernelModel<Tex> {
        KernelModel {
            buffer_width: self.buffer_width,
            buffer_height: self.buffer_height,
            needs_render: self.needs_render,
            pool: self.texture_pool@,
        }
    }
}


/// The kernel's state after it took in a message. A scene message changes nothing
/// until the scene's answer is reported.
pub open spec fn after_message<T, Tex>(m: KernelModel<Tex>, msg: ControlMessage<T, Tex>) -> KernelModel<Tex> {
    match msg {
        ControlMessage::ReleaseFrontBufferTexture { texture } => KernelModel { pool: m.pool.push(texture), ..m },
        ControlMessage::ResizeBuffers { width, height } => if width == m.buffer_width && height
            == m.buffer_height {
            m
        } else {
            KernelModel { buffer_width: width, buffer_height: height, needs_render: true, ..m }
        },
        ControlMessage::KickOff => KernelModel { needs_render: true, ..m },
        ControlMessage::AppMsg(_) => m,
    }
}

/// What the owner has to do for a message.
pub open spec fn message_effect<T, Tex>(m: KernelModel<Tex>, msg: ControlMessage<T, Tex>) -> KernelEffect<T> {
    match msg {
        ControlMessage::ResizeBuffers { width, height } => if width == m.buffer_width && height
            == m.buffer_height {
            KernelEffect::Done
        } else {
            KernelEffect::Resize { width, height }
        },
        ControlMessage::AppMsg(t) => KernelEffect::Dispatch(t),
        _ => KernelEffect::Done,
    }
}

/// The texture the next frame is rendered into, when a redraw is owed and a
/// texture is free: the one released last.
pub open spec fn render_job<Tex>(m: KernelModel<Tex>) -> Option<Tex> {
    if m.needs_render && m.pool.len() > 0 {
        Some(m.pool.last())
    } else {
        None
    }
}

/// The kernel's state after it looked for a render job.
pub open spec fn after_render_job<Tex>(m: KernelModel<Tex>) -> KernelModel<Tex> {
    if m.needs_render && m.pool.len() > 0 {
        KernelModel { needs_render: false, pool: m.pool.drop_last(), ..m }
    } else {
        m
    }
}

impl<Tex> KernelState<Tex> {
    /// A kernel with buffers of the given size, no texture and no redraw owed.
    pub fn new(width: u32, height: u32) -> (k: KernelState<Tex>)
        ensures
            k@.buffer_width == width,
            k@.buffer_height == height,
            !k@.needs_render,
            k@.pool == Seq::<Tex>::empty(),
    {
        KernelState { buffer_width: width, buffer_height: height, needs_render: false, texture_pool: Vec::new() }
    }

    /// The size of the render buffers.
    pub fn buffer_size(&self) -> (size: (u32, u32))
        ensures
            size == (self@.buffer_width, self@.buffer_height),
    {
        (self.buffer_width, self.buffer_height)
    }

    /// Whether a redraw is owed.
    pub fn needs_render(&self) -> (b: bool)
        ensures
            b == self@.needs_render,
    {
        self.needs_render
    }

    /// How many textures are free.
    pub fn free_textures(&self) -> (n: usize)
        ensures
            n == self@.pool.len(),
    {
        self.texture_pool.len()
    }

    /// Takes in a message and says what the owner has to do for it.
    pub fn process_message<T>(&mut self, msg: ControlMessage<T, Tex>) -> (effect: KernelEffect<T>)
        ensures
            final(self)@ == after_message(old(self)@, msg),
            effect == message_effect(old(self)@, msg),
    {
        match msg {
            ControlMessage::AppMsg(t) => KernelEffect::Dispatch(t),
            ControlMessage::ResizeBuffers { width, height } => {
                if self.buffer_width == width && self.buffer_height == height {
                    KernelEffect::Done
                } else {
                    self.buffer_width = width;
                    self.buffer_height = height;
                    self.needs_render = true;
                    KernelEffect::Resize { width, height }
                }
            },
            ControlMessage::ReleaseFrontBufferTexture { texture } => {
                self.texture_pool.push(texture);
                KernelEffect::Done
            },
            ControlMessage::KickOff => {
                self.needs_render = true;
                KernelEffect::Done
            },
        }
    }

    /// Records the scene's answer to a dispatched message: a redraw is owed from
    /// then on when it asked for one.
    pub fn request_render(&mut self, needed: bool)
        ensures
            final(self)@ == (KernelModel { needs_render: old(self)@.needs_render || needed, ..old(self)@ }),
    {
        self.needs_render = self.needs_render || needed;
    }

    /// Hands out the texture the next frame is rendered into, when a redraw is owed
    /// and a texture is free; the redraw is then no longer owed.
    pub fn take_render_job(&mut self) -> (job: Option<Tex>)
        ensures
            job == render_job(old(self)@),
            final(self)@ == after_render_job(old(self)@),
    {
        if self.needs_render && self.texture_pool.len() > 0 {
            let texture = self.texture_pool.pop();
            self.needs_render = false;
            texture
        } else {
            None
        }
    }

    /// Whether a texture of the given size matches the render buffers; one that does
    /// not is made anew before rendering.
    pub fn texture_fits(&self, width: u32, height: u32) -> (fits: bool)
        ensures
            fits == (width == self@.buffer_width && height == self@.buffer_height),
    {
        width == self.buffer_width && height == self.buffer_height
    }
}

/// Once the rendering was started, a released texture is handed out for the next
/// frame, and the kernel is back to its texture pool with no redraw owed.
pub proof fn lemma_kickoff_then_release_renders<T, Tex>(m: KernelModel<Tex>, texture: Tex)
    ensures
        ({
            let started = after_message(m, ControlMessage::<T, Tex>::KickOff);
            let ready = after_message(started, ControlMessage::<T, Tex>::ReleaseFrontBufferTexture { texture });
            &&& render_job(ready) == Some(texture)
            &&& after_render_job(ready) == (KernelModel { needs_render: false, ..m })
        }),
{
    let started = after_message(m, ControlMessage::<T, Tex>::KickOff);
    let ready = after_message(started, ControlMessage::<T, Tex>::ReleaseFrontBufferTexture { texture });
    assert(ready.pool.drop_last() =~= m.pool);
}

/// Asking for the size the buffers already have changes nothing and needs no work.
pub proof fn lemma_resize_to_same_size_is_no_op<T, Tex>(m: KernelModel<Tex>)
    ensures
        after_message(m, (ControlMessage::<T, Tex>::ResizeBuffers { width: m.buffer_width, height: m.buffer_height })) == m,
        message_effect(m, (ControlMessage::<T, Tex>::ResizeBuffers { width: m.buffer_width, height: m.buffer_height })) is Done,
{
}

/// Resizing twice to one size is the same as resizing once.
pub proof fn lemma_resize_idempotent<T, Tex>(m: KernelModel<Tex>, width: u32, height: u32)
    ensures
        ({
            let once = after_message(m, ControlMessage::<T, Tex>::ResizeBuffers { width, height });
            after_message(once, ControlMessage::<T, Tex>::ResizeBuffers { width, height }) == once
        }),
{
}

/// A owed redraw is not lost while no texture is free: it stays owed, and the
/// next released texture is handed out for it.
pub proof fn lemma_owed_redraw_waits_for_texture<T, Tex>(m: KernelModel<Tex>, texture: Tex)
    requires
        m.needs_render,
        m.pool.len() == 0,
    ensures
        render_job(m) is None,
        after_render_job(m) == m,
        render_job(after_message(m, (ControlMessage::<T, Tex>::ReleaseFrontBufferTexture { texture }))) == Some(texture),
{
}

/// No texture is lost or made up: the free textures and the one handed out are
/// the free textures from before.
pub proof fn lemma_render_job_keeps_textures<Tex>(m: KernelModel<Tex>)
    ensures
        match render_job(m) {
            Some(t) => after_render_job(m).pool.push(t) == m.pool,
            None => after_render_job(m).pool == m.pool,
        },
{
    if m.needs_render && m.pool.len() > 0 {
        assert(m.pool.drop_last().push(m.pool.last()) =~= m.pool);
    }
}


/// One thing the kernel takes in while it drains its queue: a message, or the
/// scene's answer to a message dispatched to it.
pub enum KernelInput<T, Tex> {
    Message(ControlMessage<T, Tex>),
    SceneAnswer(bool),
}

/// The kernel's state after one input.
pub open spec fn after_input<T, Tex>(m: KernelModel<Tex>, input: KernelInput<T, Tex>) -> KernelModel<Tex> {
    match input {
        KernelInput::Message(msg) => after_message(m, msg),
        KernelInput::SceneAnswer(needed) => KernelModel { needs_render: m.needs_render || needed, ..m },
    }
}

/// The kernel's state after it drained a batch of inputs, in order.
pub open spec fn after_batch<T, Tex>(m: KernelModel<Tex>, batch: Seq<KernelInput<T, Tex>>) -> KernelModel<Tex>
    decreases batch.len(),
{
    if batch.len() == 0 {
        m
    } else {
        after_input(after_batch(m, batch.drop_last()), batch.last())
    }
}

/// Whether an input, taken in state `m`, asks for a redraw: a kick-off, a resize to
/// another size, or a scene answer that asks for one.
pub open spec fn input_asks_render<T, Tex>(m: KernelModel<Tex>, input: KernelInput<T, Tex>) -> bool {
    match input {
        KernelInput::Message(ControlMessage::KickOff) => true,
        KernelInput::Message(ControlMessage::ResizeBuffers { width, height }) => !(width == m.buffer_width
            && height == m.buffer_height),
        KernelInput::SceneAnswer(needed) => needed,
        _ => false,
    }
}

/// Whether some input of the batch asks for a redraw, in the state it is taken in.
pub open spec fn batch_asks_render<T, Tex>(m: KernelModel<Tex>, batch: Seq<KernelInput<T, Tex>>) -> bool {
    exists|k: int| 0 <= k < batch.len() && #[trigger] input_asks_render(after_batch(m, batch.take(k)), batch[k])
}

/// The textures released in a batch, in order.
pub open spec fn released<T, Tex>(batch: Seq<KernelInput<T, Tex>>) -> Seq<Tex>
    decreases batch.len(),
{
    if batch.len() == 0 {
        Seq::empty()
    } else {
        let earlier = released(batch.drop_last());
        match batch.last() {
            KernelInput::Message(ControlMessage::ReleaseFrontBufferTexture { texture }) => earlier.push(texture),
            _ => earlier,
        }
    }
}

/// After a batch is drained, a redraw is owed exactly when one was owed before or an
/// input of the batch asked for one, and the free textures are those from before
/// followed by the ones released in the batch.
pub proof fn lemma_batch_state<T, Tex>(m: KernelModel<Tex>, batch: Seq<KernelInput<T, Tex>>)
    ensures
        after_batch(m, batch).needs_render == (m.needs_render || batch_asks_render(m, batch)),
        after_batch(m, batch).pool == m.pool + released(batch),
    decreases batch.len(),
{
    if batch.len() == 0 {
        assert(m.pool + Seq::<Tex>::empty() =~= m.pool);
    } else {
        let front = batch.drop_last();
        lemma_batch_state(m, front);
        let n = batch.len() - 1;
        assert(batch.take(n) =~= front);
        assert forall|k: int| 0 <= k < front.len() implies #[trigger] batch.take(k) == front.take(k) by {
            assert(batch.take(k) =~= front.take(k));
        }
        if batch_asks_render(m, front) {
            let k = choose|k: int| 0 <= k < front.len() && #[trigger] input_asks_render(after_batch(m, front.take(k)), front[k]);
            assert(batch.take(k) == front.take(k));
            assert(batch[k] == front[k]);
            assert(input_asks_render(after_batch(m, batch.take(k)), batch[k]));
        }
        if batch_asks_render(m, batch) {
            let k = choose|k: int| 0 <= k < batch.len() && #[trigger] input_asks_render(after_batch(m, batch.take(k)), batch[k]);
            if k < n {
                assert(batch.take(k) == front.take(k));
                assert(batch[k] == front[k]);
                assert(input_asks_render(after_batch(m, front.take(k)), front[k]));
            }
        }
        if input_asks_render(after_batch(m, front), batch.last()) {
            assert(input_asks_render(after_batch(m, batch.take(n)), batch[n]));
        }
        match batch.last() {
            KernelInput::Message(ControlMessage::ReleaseFrontBufferTexture { texture }) => {
                assert(m.pool + released(front).push(texture) =~= (m.pool + released(front)).push(texture));
            },
            _ => {},
        }
    }
}

/// After a batch is drained, a frame is rendered exactly when a redraw is owed (from
/// before the batch, or asked for by one of its inputs) and a texture is free (one
/// left from before, or released in the batch); it is rendered into the texture
/// released last.
pub proof fn lemma_render_after_batch<T, Tex>(m: KernelModel<Tex>, batch: Seq<KernelInput<T, Tex>>)
    ensures
        render_job(after_batch(m, batch)) is Some <==> (m.needs_render || batch_asks_render(m, batch))
            && m.pool.len() + released(batch).len() > 0,
        render_job(after_batch(m, batch)) matches Some(t) ==> t == (m.pool + released(batch)).last(),
{
    lemma_batch_state(m, batch);
}

/// The kernel's state after rounds of draining a batch and then looking for a render job.
pub open spec fn after_rounds<T, Tex>(m: KernelModel<Tex>, rounds: Seq<Seq<KernelInput<T, Tex>>>) -> KernelModel<Tex>
    decreases rounds.len(),
{
    if rounds.len() == 0 {
        m
    } else {
        after_render_job(after_batch(after_rounds(m, rounds.drop_last()), rounds.last()))
    }
}

/// The textures handed out for rendering in these rounds, in order.
pub open spec fn handed_out<T, Tex>(m: KernelModel<Tex>, rounds: Seq<Seq<KernelInput<T, Tex>>>) -> Seq<Tex>
    decreases rounds.len(),
{
    if rounds.len() == 0 {
        Seq::empty()
    } else {
        let earlier = handed_out(m, rounds.drop_last());
        match render_job(after_batch(after_rounds(m, rounds.drop_last()), rounds.last())) {
            Some(t) => earlier.push(t),
            None => earlier,
        }
    }
}

/// How many textures are released in these rounds.
pub open spec fn released_count<T, Tex>(rounds: Seq<Seq<KernelInput<T, Tex>>>) -> nat
    decreases rounds.len(),
{
    if rounds.len() == 0 {
        0
    } else {
        released_count(rounds.drop_last()) + released(rounds.last()).len()
    }
}

/// Over any rounds of draining and rendering, every texture the kernel held or was
/// given is either handed out once or still free: no more textures are handed out
/// than it held at the start plus those released to it, and at most one per round.
/// (The kernel starts with no texture, and is given three before its first round.)
pub proof fn lemma_textures_handed_out_bounded<T, Tex>(m: KernelModel<Tex>, rounds: Seq<Seq<KernelInput<T, Tex>>>)
    ensures
        handed_out(m, rounds).len() + after_rounds(m, rounds).pool.len() == m.pool.len() + released_count(rounds),
        handed_out(m, rounds).len() <= m.pool.len() + released_count(rounds),
        handed_out(m, rounds).len() <= rounds.len(),
    decreases rounds.len(),
{
    if rounds.len() > 0 {
        let front = rounds.drop_last();
        lemma_textures_handed_out_bounded(m, front);
        let before = after_rounds(m, front);
        lemma_batch_state(before, rounds.last());
    }
}

/// Asking for a size other than the buffers' size (in either dimension) makes the
/// owner resize the renderer to exactly that size; the kernel then records that size
/// and owes a redraw, keeping its free textures.
pub proof fn lemma_resize_to_new_size<T, Tex>(m: KernelModel<Tex>, width: u32, height: u32)
    requires
        width != m.buffer_width || height != m.buffer_height,
    ensures
        ({
            let msg = ControlMessage::<T, Tex>::ResizeBuffers { width, height };
            let after = after_message(m, msg);
            &&& message_effect(m, msg) == (KernelEffect::<T>::Resize { width, height })
            &&& after.buffer_width == width
            &&& after.buffer_height == height
            &&& after.needs_render
            &&& after.pool == m.pool
        }),
{
}

/// Only a resize to a new size asks the owner to resize the renderer, and then to
/// that size; a scene message is handed on as it is, and a kick-off or a released
/// texture needs no work.
pub proof fn lemma_only_new_sizes_resize<T, Tex>(m: KernelModel<Tex>, msg: ControlMessage<T, Tex>)
    ensures
        ({
            let effect = message_effect(m, msg);
            &&& match effect {
                KernelEffect::Resize { width, height } => msg == (ControlMessage::<T, Tex>::ResizeBuffers {
                    width,
                    height,
                }) && (width != m.buffer_width || height != m.buffer_height),
                _ => true,
            }
            &&& match msg {
                ControlMessage::AppMsg(t) => effect == KernelEffect::<T>::Dispatch(t),
                _ => true,
            }
            &&& (msg is KickOff || msg is ReleaseFrontBufferTexture) ==> effect is Done
        }),
{
}

/// What each message does to the kernel: a released texture joins the free ones, a
/// kick-off makes a redraw owed, a scene message changes nothing, and a resize changes
/// only the size and the owed redraw; none of them takes a texture away.
pub proof fn lemma_message_state<T, Tex>(m: KernelModel<Tex>, msg: ControlMessage<T, Tex>)
    ensures
        ({
            let after = after_message(m, msg);
            &&& match msg {
                ControlMessage::ReleaseFrontBufferTexture { texture } => after == (KernelModel {
                    pool: m.pool.push(texture),
                    ..m
                }),
                ControlMessage::KickOff => after == (KernelModel { needs_render: true, ..m }),
                ControlMessage::AppMsg(_) => after == m,
                ControlMessage::ResizeBuffers { .. } => after.pool == m.pool,
            }
        }),
{
}

} // verus!
