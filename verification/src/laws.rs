//! What holds across the two backends and across calls.

use vstd::prelude::*;

use crate::file_drop::{BufferStateView, DroppedFilesView, File, failure_message};
use crate::native_app::{AppView, KeyboardInput, ModifiersState, RawEvent, key_event};
use crate::native_app::MouseButton as NativeButton;
use crate::native_keycode::{code_label, key_label};
use crate::web_app::{KeyboardEvent, WebEvent};
use crate::web_app::MouseButton as WebButton;

verus! {

/// One of the three buttons every mouse has.
pub enum MainButton {
    Left,
    Middle,
    Right,
}

impl MainButton {
    /// The button as the native host names it.
    pub open spec fn native(self) -> NativeButton {
        match self {
            MainButton::Left => NativeButton::Left,
            MainButton::Middle => NativeButton::Middle,
            MainButton::Right => NativeButton::Right,
        }
    }

    /// The button as the browser names it.
    pub open spec fn web(self) -> WebButton {
        match self {
            MainButton::Left => WebButton::Left,
            MainButton::Middle => WebButton::Wheel,
            MainButton::Right => WebButton::Right,
        }
    }

    /// The id the button has in a canonical event.
    pub open spec fn id(self) -> usize {
        match self {
            MainButton::Left => 0,
            MainButton::Middle => 1,
            MainButton::Right => 2,
        }
    }
}

/// A main mouse button has the same id on both backends: 0 for the left
/// one, 1 for the middle one, 2 for the right one.
pub proof fn lemma_main_buttons_agree(button: MainButton)
    ensures
        crate::native_app::button_id(button.native()) == button.id(),
        crate::web_app::button_id(button.web()) == button.id(),
{
}

/// The extra buttons of the browser come after the main ones, in their own
/// order: a button has an id of 3 or more exactly when it is an extra one,
/// the fourth button has 3 and the fifth has 4.
pub proof fn lemma_web_extra_buttons(button: WebButton)
    ensures
        crate::web_app::button_id(button) >= 3 <==> (button is Button4 || button is Button5),
        button is Button4 ==> crate::web_app::button_id(button) == 3,
        button is Button5 ==> crate::web_app::button_id(button) == 4,
{
}

/// No two buttons of the browser share an id.
pub proof fn lemma_web_buttons_apart(a: WebButton, b: WebButton)
    requires
        a != b,
    ensures
        crate::web_app::button_id(a) != crate::web_app::button_id(b),
{
}

/// The extra buttons of the native host keep their order: a button with a
/// lower number has a lower id.
pub proof fn lemma_native_extra_buttons_ordered(a: u8, b: u8)
    requires
        a < b,
    ensures
        crate::native_app::button_id(NativeButton::Other(a)) < crate::native_app::button_id(
            NativeButton::Other(b),
        ),
{
}

/// An extra button of the native host that the host numbers from 3 on has
/// an id that no main button has.
pub proof fn lemma_native_extra_buttons_apart(number: u8)
    requires
        number >= 3,
    ensures
        crate::native_app::button_id(NativeButton::Other(number)) >= 3,
{
}

/// Whether a browser key event reports the same key and the same modifier
/// keys as a native one: its labels are those the tables give the native
/// identifiers, and its flags are those of the native modifier state.
pub open spec fn same_key(
    web: KeyboardEvent,
    native: KeyboardInput,
    modifiers: ModifiersState,
) -> bool {
    &&& native.virtual_keycode matches Some(key)
    &&& key_label(key).len() > 0
    &&& web.key@ == key_label(key)
    &&& web.code@ == code_label(native.scancode)
    &&& web.shift == modifiers.shift
    &&& web.alt == modifiers.alt
    &&& web.ctrl == modifiers.ctrl
}

/// For the same key under the same modifiers, both backends queue the same
/// key event, label for label. On a release the browser backend may put one
/// event of text input before it; the key event itself comes last.
pub proof fn lemma_keyboard_backends_agree(
    web: KeyboardEvent,
    native: KeyboardInput,
    modifiers: ModifiersState,
)
    requires
        same_key(web, native, modifiers),
    ensures
        native.state is Pressed ==> Some(crate::web_app::translated(WebEvent::KeyDown(web)).last())
            == crate::native_app::translated(RawEvent::KeyboardInput(native), modifiers),
        native.state is Pressed ==> crate::web_app::translated(WebEvent::KeyDown(web)).len() == 1,
        native.state is Released ==> Some(crate::web_app::translated(WebEvent::KeyUp(web)).last())
            == crate::native_app::translated(RawEvent::KeyboardInput(native), modifiers),
{
    assert(web@ == key_event(native, modifiers));
    let released = crate::web_app::translated(WebEvent::KeyUp(web));
    if crate::web_app::is_text_label(web.key@) {
        assert(released.len() == 2);
        assert(released.last() == released[1]);
    } else {
        assert(released.len() == 1);
        assert(released.last() == released[0]);
    }
    let pressed = crate::web_app::translated(WebEvent::KeyDown(web));
    assert(pressed.last() == pressed[0]);
}

/// One raw event of the browser stands for exactly one canonical event,
/// with two exceptions: the release of a text key stands for two, and a
/// drop stands for one per file.
pub proof fn lemma_web_event_count(event: WebEvent)
    ensures
        crate::web_app::translated(event).len() == (match event {
            WebEvent::KeyUp(input) => if crate::web_app::is_text_label(input.key@) {
                2nat
            } else {
                1nat
            },
            WebEvent::Drop { names } => names@.len(),
            _ => 1nat,
        }),
{
}

/// A resize to 0 by 0, as some hosts send when a window is minimised, leaves
/// no trace: nothing joins the queue, the context keeps its size, the host
/// is asked for no resize, and the loop goes on.
pub proof fn lemma_minimise_leaves_no_trace(app: AppView)
    ensures
        app.handled(RawEvent::Resized { width: 0, height: 0 }) == app,
        app.resize_request(RawEvent::Resized { width: 0, height: 0 }) is None,
        app.keeps_running(RawEvent::Resized { width: 0, height: 0 }),
{
}

/// A resize notice never makes the surface of a context lose a dimension:
/// whatever the notice says, a context whose surface had none at 0 still
/// has none at 0.
pub proof fn lemma_surface_keeps_its_dimensions(app: AppView, width: u32, height: u32)
    requires
        app.window.size() matches Some(size) && size.0 != 0 && size.1 != 0,
    ensures
        app.handled(RawEvent::Resized { width, height }).window.size() matches Some(size)
            && size.0 != 0 && size.1 != 0,
{
}

/// One raw event puts at most one canonical event in the queue, behind
/// those that are there.
pub proof fn lemma_one_event_at_most(app: AppView, event: RawEvent)
    ensures
        app.handled(event).events == app.events || (app.handled(event).events.len()
            == app.events.len() + 1 && app.handled(event).events.drop_last() == app.events),
{
    let after = app.handled(event).events;
    if after != app.events {
        assert(after.drop_last() =~= app.events);
    }
}

/// A frame that starts with an empty queue shows the application no more
/// events than the host sent in that frame.
pub proof fn lemma_frame_holds_its_own_events(app: AppView, pending: Seq<RawEvent>)
    ensures
        app.cleared().handled_all(pending).events.len() <= pending.len(),
    decreases pending.len(),
{
    if pending.len() > 0 {
        lemma_frame_holds_its_own_events(app, pending.drop_last());
        lemma_one_event_at_most(app.cleared().handled_all(pending.drop_last()), pending.last());
    }
}

/// It makes no difference how the host cuts its raw events into batches:
/// two batches handled one after the other leave the same state, and the
/// same answer on whether the loop goes on, as both handled at once.
pub proof fn lemma_batches_compose(app: AppView, first: Seq<RawEvent>, second: Seq<RawEvent>)
    ensures
        app.handled_all(first + second) == app.handled_all(first).handled_all(second),
        app.keeps_running_all(first + second) == (app.keeps_running_all(first)
            && app.handled_all(first).keeps_running_all(second)),
    decreases second.len(),
{
    if second.len() == 0 {
        assert(first + second =~= first);
    } else {
        assert((first + second).drop_last() =~= first + second.drop_last());
        assert((first + second).last() == second.last());
        lemma_batches_compose(app, first, second.drop_last());
    }
}

/// A batch of one raw event is that event.
pub proof fn lemma_batch_of_one(app: AppView, event: RawEvent)
    ensures
        app.handled_all(seq![event]) == app.handled(event),
        app.keeps_running_all(seq![event]) == app.keeps_running(event),
        app.resize_request_all(seq![event]) == app.resize_request(event),
{
    let batch = seq![event];
    assert(batch.drop_last() =~= Seq::<RawEvent>::empty());
    assert(batch.last() == event);
    assert(app.handled_all(batch.drop_last()) == app);
    assert(app.keeps_running_all(batch.drop_last()));
    assert(app.resize_request_all(batch.drop_last()) is None);
}

/// Whatever happens to a store, every waiting file keeps its cell.
pub proof fn lemma_store_stays_well_formed(
    files: DroppedFilesView,
    file: File,
    data: Seq<u8>,
    reason: Seq<char>,
)
    requires
        files.wf(),
        files.buffers.len() < usize::MAX,
    ensures
        files.added().wf(),
        files.taken().wf(),
        files.with_data(file, data).wf(),
        files.with_failure(file, reason).wf(),
{
    let added = files.added();
    assert forall|i: int| 0 <= i < added.waiting.len() implies (#[trigger] added.waiting[i]).id
        < added.buffers.len() by {
        if i < files.waiting.len() {
            assert(added.waiting[i] == files.waiting[i]);
        }
    }
    let taken = files.taken();
    assert forall|i: int| 0 <= i < taken.waiting.len() implies (#[trigger] taken.waiting[i]).id
        < taken.buffers.len() by {
        assert(taken.waiting[i] == files.waiting[i]);
    }
}

/// A dropped file is never lost. Whether the application takes the file
/// before or after the host delivers its bytes, the file's cell ends up
/// holding exactly those bytes, provided there is at least one.
pub proof fn lemma_dropped_file_gets_its_bytes(files: DroppedFilesView, data: Seq<u8>)
    requires
        files.buffers.len() < usize::MAX,
        data.len() > 0,
    ensures
        ({
            let file = File { id: files.buffers.len() as usize };
            &&& files.added().waiting.last() == file
            &&& files.added().state(file) == Some(BufferStateView::Empty)
            &&& files.added().taken().with_data(file, data).state(file) == Some(
                BufferStateView::Buffer(data),
            )
            &&& files.added().with_data(file, data).taken().state(file) == Some(
                BufferStateView::Buffer(data),
            )
        }),
{
}

/// A dropped file whose read fails is never lost either: taken before or
/// after the failure, its cell ends up holding the failure message.
pub proof fn lemma_dropped_file_gets_its_failure(files: DroppedFilesView, reason: Seq<char>)
    requires
        files.buffers.len() < usize::MAX,
    ensures
        ({
            let file = File { id: files.buffers.len() as usize };
            &&& files.added().taken().with_failure(file, reason).state(file) == Some(
                BufferStateView::Error(failure_message(reason)),
            )
            &&& files.added().with_failure(file, reason).taken().state(file) == Some(
                BufferStateView::Error(failure_message(reason)),
            )
        }),
{
}

/// The content of a file is settled once: after its bytes arrived, neither
/// further bytes nor a failure change its cell.
pub proof fn lemma_file_content_is_final(
    files: DroppedFilesView,
    file: File,
    data: Seq<u8>,
    more: Seq<u8>,
    reason: Seq<char>,
)
    requires
        files.state(file) == Some(BufferStateView::Empty),
        data.len() > 0,
    ensures
        files.with_data(file, data).with_data(file, more).state(file) == Some(
            BufferStateView::Buffer(data),
        ),
        files.with_data(file, data).with_failure(file, reason).state(file) == Some(
            BufferStateView::Buffer(data),
        ),
        files.with_failure(file, reason).with_data(file, more).state(file) == Some(
            BufferStateView::Error(failure_message(reason)),
        ),
{
}

/// Events about one file leave every other file alone.
pub proof fn lemma_files_are_independent(
    files: DroppedFilesView,
    file: File,
    other: File,
    data: Seq<u8>,
    reason: Seq<char>,
)
    requires
        file.id != other.id,
    ensures
        files.with_data(file, data).state(other) == files.state(other),
        files.with_failure(file, reason).state(other) == files.state(other),
        files.with_data(file, data).waiting == files.waiting,
        files.with_failure(file, reason).waiting == files.waiting,
{
}

} // verus!
