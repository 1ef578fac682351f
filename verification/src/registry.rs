//! The resource-handle registry: identifier allocation, per-kind resource
//! tables, the "last error" slot, and the dispatch operations.
//!
//! The registry is an explicit value rather than ambient process state, so a
//! host can own one registry per process (behind its own lock) while tests
//! can run many independent registries side by side. The backend objects it
//! guards are type parameters: the registry never calls into the backend
//! itself. Construction, drawing and input queries happen at the boundary,
//! which passes their plain-value outcomes into these operations.
//!
//! Identifiers are `u32` values allocated from a single monotone counter
//! starting at 1; identifier 0 is reserved so callers can use it as a "no
//! resource" sentinel. An identifier is never reused, even after the
//! resource it named has been destroyed.
//!
//! Menu items are not independently addressable: adding an item changes the
//! owning menu's recorded composition and hands nothing back, so there is no
//! menu-item table to leave half wired.

use crate::text::dec_str;
use crate::text::push_decimal;
use vstd::prelude::*;
use vstd::string::*;

verus! {

/// One-byte status reported to the caller: [`OK`] or [`ERR`].
pub type Status = u8;

/// Success status.
pub const OK: u8 = 1;

/// Failure status; the error slot holds a message describing the failure.
pub const ERR: u8 = 0;

/// What the registry records about one window.
///
/// `native` is the backend window object, opaque to the registry. The other
/// fields mirror what the registry itself has been told: the creation title
/// and size, the last commanded presentation settings, and the key-code
/// snapshot awaiting a drain call.
pub struct WindowEntry<W> {
    /// The backend window object.
    pub native: W,
    /// The title given at creation or by the last title change.
    pub title: String,
    /// Width in pixels, fixed at creation.
    pub width: usize,
    /// Height in pixels, fixed at creation.
    pub height: usize,
    /// Whether the window was last commanded to stay above other windows.
    pub topmost: bool,
    /// Whether the cursor was last commanded to be visible.
    pub cursor_visible: bool,
    /// The last commanded background color, as red, green, blue.
    pub background: (u8, u8, u8),
    /// The last commanded position, if any was ever commanded.
    pub position: Option<(isize, isize)>,
    /// The last commanded update-rate cap in microseconds; 0 means uncapped.
    pub rate_micros: u64,
    /// Key codes stored by the most recent input query, awaiting a drain.
    pub snapshot: Vec<u8>,
}

/// One recorded element of a menu's composition.
pub enum MenuElem {
    /// A separator line.
    Separator,
    /// A nested menu, recorded by the child menu's identifier.
    SubMenu { name: String, menu_id: u32 },
    /// A selectable item with its caller-chosen numeric tag.
    Item { name: String, item_id: usize },
}

/// What the registry records about one menu: the backend object, the menu's
/// name, and the elements added to it, in order.
pub struct MenuEntry<M> {
    /// The backend menu object.
    pub native: M,
    /// The name given at creation.
    pub name: String,
    /// The elements added so far, oldest first.
    pub entries: Vec<MenuElem>,
}

/// The registry: one identifier counter, one table per resource kind, and
/// the single "last error" slot.
///
/// `W` and `M` are the backend window and menu object types. Menu handles
/// are the backend's plain `u64` tokens and need no type parameter.
#[verifier::reject_recursive_types(W)]
#[verifier::reject_recursive_types(M)]
pub struct Registry<W, M> {
    /// The next identifier to issue; only ever grows.
    pub next_id: u32,
    /// Live windows by identifier.
    pub windows: vstd::hash_map::HashMapWithView<u32, WindowEntry<W>>,
    /// Live menus by identifier.
    pub menus: vstd::hash_map::HashMapWithView<u32, MenuEntry<M>>,
    /// Live menu-attachment handles by identifier, each holding the
    /// backend's token for the attachment.
    pub menu_handles: vstd::hash_map::HashMapWithView<u32, u64>,
    /// The most recent failure message, if any failure has occurred. There
    /// is one slot for the whole registry, overwritten on every failure:
    /// callers that share a registry across threads must read the message
    /// directly after the failing call, before another caller can fail —
    /// a documented limitation, not something this layer can fix.
    pub last_error: Option<String>,
}

/// The message recorded when an identifier does not name a live resource.
pub open spec fn not_found_message(id: u32) -> Seq<char> {
    "Resource with ID "@ + dec_str(id as int) + " not found"@
}

impl<W, M> Registry<W, M> {
    /// Well-formedness: every live identifier is nonzero and below the
    /// counter, and no identifier is live in two tables at once.
    pub open spec fn wf(self) -> bool {
        &&& self.next_id >= 1
        &&& forall|i: u32| #[trigger] self.windows@.contains_key(i) ==> 0 < i && i < self.next_id
        &&& forall|i: u32| #[trigger] self.menus@.contains_key(i) ==> 0 < i && i < self.next_id
        &&& forall|i: u32|
            #[trigger] self.menu_handles@.contains_key(i) ==> 0 < i && i < self.next_id
        &&& forall|i: u32| #[trigger] self.windows@.contains_key(i) ==> !self.menus@.contains_key(i)
        &&& forall|i: u32|
            #[trigger] self.windows@.contains_key(i) ==> !self.menu_handles@.contains_key(i)
        &&& forall|i: u32| #[trigger] self.menus@.contains_key(i) ==> !self.menu_handles@.contains_key(i)
    }

    /// An empty registry. Allocation starts at identifier 1, keeping 0 free
    /// as the caller's "no resource" sentinel.
    pub fn new() -> (r: Self)
        ensures
            r.wf(),
            r.next_id == 1,
            r.windows@ == Map::<u32, WindowEntry<W>>::empty(),
            r.menus@ == Map::<u32, MenuEntry<M>>::empty(),
            r.menu_handles@ == Map::<u32, u64>::empty(),
            r.last_error is None,
    {
        Registry {
            next_id: 1,
            windows: vstd::hash_map::HashMapWithView::new(),
            menus: vstd::hash_map::HashMapWithView::new(),
            menu_handles: vstd::hash_map::HashMapWithView::new(),
            last_error: None,
        }
    }
}

/// All tables and the counter agree between `pre` and `post`; only the error
/// slot may differ.
pub open spec fn tables_unchanged<W, M>(pre: Registry<W, M>, post: Registry<W, M>) -> bool {
    &&& post.next_id == pre.next_id
    &&& post.windows@ == pre.windows@
    &&& post.menus@ == pre.menus@
    &&& post.menu_handles@ == pre.menu_handles@
}

/// Nothing observable changed.
pub open spec fn unchanged<W, M>(pre: Registry<W, M>, post: Registry<W, M>) -> bool {
    &&& tables_unchanged(pre, post)
    &&& post.last_error == pre.last_error
}

/// The operation failed: tables and counter are untouched and the error slot
/// now holds exactly `message`.
pub open spec fn error_reported<W, M>(
    pre: Registry<W, M>,
    post: Registry<W, M>,
    message: Seq<char>,
) -> bool {
    &&& tables_unchanged(pre, post)
    &&& post.last_error matches Some(e) && e@ == message
}

/// The operation failed because `id` named no live resource of the expected
/// kind; the error slot holds the standard message for `id`.
pub open spec fn not_found_reported<W, M>(
    pre: Registry<W, M>,
    post: Registry<W, M>,
    id: u32,
) -> bool {
    error_reported(pre, post, not_found_message(id))
}

/// All registry state except the window table agrees between `pre` and
/// `post`.
pub open spec fn same_but_windows<W, M>(pre: Registry<W, M>, post: Registry<W, M>) -> bool {
    &&& post.next_id == pre.next_id
    &&& post.menus@ == pre.menus@
    &&& post.menu_handles@ == pre.menu_handles@
    &&& post.last_error == pre.last_error
}

/// All registry state except the menu table agrees between `pre` and `post`.
pub open spec fn same_but_menus<W, M>(pre: Registry<W, M>, post: Registry<W, M>) -> bool {
    &&& post.next_id == pre.next_id
    &&& post.windows@ == pre.windows@
    &&& post.menu_handles@ == pre.menu_handles@
    &&& post.last_error == pre.last_error
}

/// Stores `message` in the error slot, overwriting any earlier message, and
/// returns the failure status. The error slot stands in for exceptions: a
/// caller that just received [`ERR`] reads the message back with
/// [`get_last_error`].
pub fn error<W, M>(reg: &mut Registry<W, M>, message: String) -> (r: Status)
    ensures
        r == ERR,
        error_reported(*old(reg), *final(reg), message@),
        old(reg).wf() ==> final(reg).wf(),
{
    reg.last_error = Some(message);
    ERR
}

/// Stores the standard "not found" message for `id` and returns the failure
/// status.
pub fn error_resource_not_found<W, M>(reg: &mut Registry<W, M>, id: u32) -> (r: Status)
    ensures
        r == ERR,
        not_found_reported(*old(reg), *final(reg), id),
        old(reg).wf() ==> final(reg).wf(),
{
    let mut message = String::from_str("Resource with ID ");
    push_decimal(&mut message, id);
    message.append(" not found");
    error(reg, message)
}

/// Returns the most recent error message without clearing it, or `None` if
/// no operation has ever failed.
pub fn get_last_error<W, M>(reg: &Registry<W, M>) -> (r: Option<&String>)
    ensures
        match r {
            Some(s) => reg.last_error matches Some(e) && *s == e,
            None => reg.last_error is None,
        },
{
    match &reg.last_error {
        Some(s) => Some(s),
        None => None,
    }
}

/// Looks a window up by identifier. A miss is a plain "not found" outcome at
/// this layer, not an error: the dispatch operations turn it into one.
pub fn lookup_window<'a, W, M>(reg: &'a Registry<W, M>, id: u32) -> (r: Option<&'a WindowEntry<W>>)
    ensures
        match r {
            Some(e) => reg.windows@.contains_key(id) && *e == reg.windows@[id],
            None => !reg.windows@.contains_key(id),
        },
{
    reg.windows.get(&id)
}

/// Looks a menu up by identifier.
pub fn lookup_menu<'a, W, M>(reg: &'a Registry<W, M>, id: u32) -> (r: Option<&'a MenuEntry<M>>)
    ensures
        match r {
            Some(e) => reg.menus@.contains_key(id) && *e == reg.menus@[id],
            None => !reg.menus@.contains_key(id),
        },
{
    reg.menus.get(&id)
}

/// Looks a menu-attachment handle up by identifier, returning the backend's
/// token for the attachment.
pub fn lookup_menu_handle<W, M>(reg: &Registry<W, M>, id: u32) -> (r: Option<u64>)
    ensures
        match r {
            Some(t) => reg.menu_handles@.contains_key(id) && t == reg.menu_handles@[id],
            None => !reg.menu_handles@.contains_key(id),
        },
{
    match reg.menu_handles.get(&id) {
        Some(t) => Some(*t),
        None => None,
    }
}

// ---------------------------------------------------------------------------
// Window lifecycle and properties
// ---------------------------------------------------------------------------

/// Outcome of [`window_new`]: a fresh identifier for a constructed backend
/// window, or the backend's construction failure recorded in the error slot.
pub open spec fn window_new_post<W, M>(
    pre: Registry<W, M>,
    post: Registry<W, M>,
    created: Result<W, String>,
    title: String,
    width: usize,
    height: usize,
    r: Option<u32>,
) -> bool {
    match created {
        Ok(w) => {
            &&& r == Some(pre.next_id)
            &&& post.next_id == pre.next_id + 1
            &&& post.windows@.contains_key(pre.next_id)
            &&& post.windows@[pre.next_id].native == w
            &&& post.windows@[pre.next_id].title == title
            &&& post.windows@[pre.next_id].width == width
            &&& post.windows@[pre.next_id].height == height
            &&& post.windows@[pre.next_id].topmost == false
            &&& post.windows@[pre.next_id].cursor_visible == true
            &&& post.windows@[pre.next_id].background == (0u8, 0u8, 0u8)
            &&& post.windows@[pre.next_id].position is None
            &&& post.windows@[pre.next_id].rate_micros == 0
            &&& post.windows@[pre.next_id].snapshot@ == Seq::<u8>::empty()
            &&& post.windows@.remove(pre.next_id) == pre.windows@
            &&& post.menus@ == pre.menus@
            &&& post.menu_handles@ == pre.menu_handles@
            &&& post.last_error == pre.last_error
        },
        Err(m) => {
            &&& r is None
            &&& error_reported(pre, post, m@)
        },
    }
}

/// Registers the outcome of a backend window construction.
///
/// The boundary constructs the backend window from the same title and size
/// and passes the result in. On success the window is stored under a fresh
/// identifier, which is returned; on failure the backend's message is
/// recorded in the error slot and `None` is returned.
pub fn window_new<W, M>(
    reg: &mut Registry<W, M>,
    created: Result<W, String>,
    title: String,
    width: usize,
    height: usize,
) -> (r: Option<u32>)
    requires
        old(reg).wf(),
        created is Ok ==> old(reg).next_id < u32::MAX,
    ensures
        final(reg).wf(),
        window_new_post(*old(reg), *final(reg), created, title, width, height, r),
{
    match created {
        Ok(native) => {
            let id = reg.next_id;
            let entry = WindowEntry {
                native,
                title,
                width,
                height,
                topmost: false,
                cursor_visible: true,
                background: (0u8, 0u8, 0u8),
                position: None,
                rate_micros: 0,
                snapshot: Vec::new(),
            };
            reg.windows.insert(id, entry);
            reg.next_id = id + 1;
            proof {
                assert(!old(reg).windows@.contains_key(id));
                assert(reg.windows@.remove(id) =~= old(reg).windows@);
            }
            Some(id)
        },
        Err(message) => {
            error(reg, message);
            None
        },
    }
}

/// Outcome of [`window_close`]: the entry is gone, or the identifier was not
/// live and the standard message is recorded.
pub open spec fn window_close_post<W, M>(
    pre: Registry<W, M>,
    post: Registry<W, M>,
    id: u32,
    r: Status,
) -> bool {
    if pre.windows@.contains_key(id) {
        &&& r == OK
        &&& post.windows@ == pre.windows@.remove(id)
        &&& same_but_windows(pre, post)
    } else {
        &&& r == ERR
        &&& not_found_reported(pre, post, id)
    }
}

/// Removes a window from the registry, releasing the backend object. The
/// identifier becomes permanently invalid: it is never issued again.
pub fn window_close<W, M>(reg: &mut Registry<W, M>, id: u32) -> (r: Status)
    requires
        old(reg).wf(),
    ensures
        final(reg).wf(),
        window_close_post(*old(reg), *final(reg), id, r),
{
    match reg.windows.remove(&id) {
        Some(_entry) => OK,
        None => error_resource_not_found(reg, id),
    }
}

/// Outcome of an operation that only resolves a window and delegates its
/// whole effect to the backend: success leaves the registry untouched.
pub open spec fn window_presence_post<W, M>(
    pre: Registry<W, M>,
    post: Registry<W, M>,
    id: u32,
    r: Status,
) -> bool {
    if pre.windows@.contains_key(id) {
        r == OK && unchanged(pre, post)
    } else {
        r == ERR && not_found_reported(pre, post, id)
    }
}

/// Outcome of an operation that records one commanded value in the window's
/// entry: the entry at `id` is replaced by `updated` and nothing else moves.
pub open spec fn window_entry_replaced<W, M>(
    pre: Registry<W, M>,
    post: Registry<W, M>,
    id: u32,
    updated: WindowEntry<W>,
) -> bool {
    &&& post.windows@ == pre.windows@.insert(id, updated)
    &&& same_but_windows(pre, post)
}

/// Outcome of [`window_set_title`].
pub open spec fn window_set_title_post<W, M>(
    pre: Registry<W, M>,
    post: Registry<W, M>,
    id: u32,
    title: String,
    r: Status,
) -> bool {
    if pre.windows@.contains_key(id) {
        &&& r == OK
        &&& window_entry_replaced(pre, post, id, (WindowEntry { title, ..pre.windows@[id] }))
    } else {
        &&& r == ERR
        &&& not_found_reported(pre, post, id)
    }
}

/// Records the window's new title; the boundary forwards it to the backend.
pub fn window_set_title<W, M>(reg: &mut Registry<W, M>, id: u32, title: String) -> (r: Status)
    requires
        old(reg).wf(),
    ensures
        final(reg).wf(),
        window_set_title_post(*old(reg), *final(reg), id, title, r),
{
    match reg.windows.remove(&id) {
        Some(mut entry) => {
            entry.title = title;
            let ghost updated = entry;
            reg.windows.insert(id, entry);
            proof {
                assert(reg.windows@ =~= old(reg).windows@.insert(id, updated));
            }
            OK
        },
        None => error_resource_not_found(reg, id),
    }
}

/// Outcome of [`window_topmost`].
pub open spec fn window_topmost_post<W, M>(
    pre: Registry<W, M>,
    post: Registry<W, M>,
    id: u32,
    topmost: bool,
    r: Status,
) -> bool {
    if pre.windows@.contains_key(id) {
        &&& r == OK
        &&& window_entry_replaced(pre, post, id, (WindowEntry { topmost, ..pre.windows@[id] }))
    } else {
        &&& r == ERR
        &&& not_found_reported(pre, post, id)
    }
}

/// Records whether the window should stay above other windows.
pub fn window_topmost<W, M>(reg: &mut Registry<W, M>, id: u32, topmost: bool) -> (r: Status)
    requires
        old(reg).wf(),
    ensures
        final(reg).wf(),
        window_topmost_post(*old(reg), *final(reg), id, topmost, r),
{
    match reg.windows.remove(&id) {
        Some(mut entry) => {
            entry.topmost = topmost;
            let ghost updated = entry;
            reg.windows.insert(id, entry);
            proof {
                assert(reg.windows@ =~= old(reg).windows@.insert(id, updated));
            }
            OK
        },
        None => error_resource_not_found(reg, id),
    }
}

/// Outcome of [`window_set_cursor_visibility`].
pub open spec fn window_set_cursor_visibility_post<W, M>(
    pre: Registry<W, M>,
    post: Registry<W, M>,
    id: u32,
    visible: bool,
    r: Status,
) -> bool {
    if pre.windows@.contains_key(id) {
        &&& r == OK
        &&& window_entry_replaced(
            pre,
            post,
            id,
            (WindowEntry { cursor_visible: visible, ..pre.windows@[id] }),
        )
    } else {
        &&& r == ERR
        &&& not_found_reported(pre, post, id)
    }
}

/// Records whether the cursor should be visible over the window.
pub fn window_set_cursor_visibility<W, M>(
    reg: &mut Registry<W, M>,
    id: u32,
    visible: bool,
) -> (r: Status)
    requires
        old(reg).wf(),
    ensures
        final(reg).wf(),
        window_set_cursor_visibility_post(*old(reg), *final(reg), id, visible, r),
{
    match reg.windows.remove(&id) {
        Some(mut entry) => {
            entry.cursor_visible = visible;
            let ghost updated = entry;
            reg.windows.insert(id, entry);
            proof {
                assert(reg.windows@ =~= old(reg).windows@.insert(id, updated));
            }
            OK
        },
        None => error_resource_not_found(reg, id),
    }
}

/// Outcome of [`window_set_background_color`].
pub open spec fn window_set_background_color_post<W, M>(
    pre: Registry<W, M>,
    post: Registry<W, M>,
    id: u32,
    red: u8,
    green: u8,
    blue: u8,
    r: Status,
) -> bool {
    if pre.windows@.contains_key(id) {
        &&& r == OK
        &&& window_entry_replaced(
            pre,
            post,
            id,
            (WindowEntry { background: (red, green, blue), ..pre.windows@[id] }),
        )
    } else {
        &&& r == ERR
        &&& not_found_reported(pre, post, id)
    }
}

/// Records the window's background color.
pub fn window_set_background_color<W, M>(
    reg: &mut Registry<W, M>,
    id: u32,
    red: u8,
    green: u8,
    blue: u8,
) -> (r: Status)
    requires
        old(reg).wf(),
    ensures
        final(reg).wf(),
        window_set_background_color_post(*old(reg), *final(reg), id, red, green, blue, r),
{
    match reg.windows.remove(&id) {
        Some(mut entry) => {
            entry.background = (red, green, blue);
            let ghost updated = entry;
            reg.windows.insert(id, entry);
            proof {
                assert(reg.windows@ =~= old(reg).windows@.insert(id, updated));
            }
            OK
        },
        None => error_resource_not_found(reg, id),
    }
}

/// Outcome of [`window_set_position`].
pub open spec fn window_set_position_post<W, M>(
    pre: Registry<W, M>,
    post: Registry<W, M>,
    id: u32,
    x: isize,
    y: isize,
    r: Status,
) -> bool {
    if pre.windows@.contains_key(id) {
        &&& r == OK
        &&& window_entry_replaced(
            pre,
            post,
            id,
            (WindowEntry { position: Some((x, y)), ..pre.windows@[id] }),
        )
    } else {
        &&& r == ERR
        &&& not_found_reported(pre, post, id)
    }
}

/// Records the window's commanded screen position.
pub fn window_set_position<W, M>(reg: &mut Registry<W, M>, id: u32, x: isize, y: isize) -> (r:
    Status)
    requires
        old(reg).wf(),
    ensures
        final(reg).wf(),
        window_set_position_post(*old(reg), *final(reg), id, x, y, r),
{
    match reg.windows.remove(&id) {
        Some(mut entry) => {
            entry.position = Some((x, y));
            let ghost updated = entry;
            reg.windows.insert(id, entry);
            proof {
                assert(reg.windows@ =~= old(reg).windows@.insert(id, updated));
            }
            OK
        },
        None => error_resource_not_found(reg, id),
    }
}

/// Outcome of [`window_limit_update_rate`].
pub open spec fn window_limit_update_rate_post<W, M>(
    pre: Registry<W, M>,
    post: Registry<W, M>,
    id: u32,
    micros: u64,
    r: Status,
) -> bool {
    if pre.windows@.contains_key(id) {
        &&& r == OK
        &&& window_entry_replaced(
            pre,
            post,
            id,
            (WindowEntry { rate_micros: micros, ..pre.windows@[id] }),
        )
    } else {
        &&& r == ERR
        &&& not_found_reported(pre, post, id)
    }
}

/// Records the window's update-rate cap in microseconds; 0 means uncapped.
pub fn window_limit_update_rate<W, M>(reg: &mut Registry<W, M>, id: u32, micros: u64) -> (r:
    Status)
    requires
        old(reg).wf(),
    ensures
        final(reg).wf(),
        window_limit_update_rate_post(*old(reg), *final(reg), id, micros, r),
{
    match reg.windows.remove(&id) {
        Some(mut entry) => {
            entry.rate_micros = micros;
            let ghost updated = entry;
            reg.windows.insert(id, entry);
            proof {
                assert(reg.windows@ =~= old(reg).windows@.insert(id, updated));
            }
            OK
        },
        None => error_resource_not_found(reg, id),
    }
}

/// Resolves the window for a key-repeat-delay change. The delay itself is a
/// fractional quantity owned by the backend; the boundary forwards it after
/// this operation reports the window live.
pub fn window_set_key_repeat_delay<W, M>(reg: &mut Registry<W, M>, id: u32) -> (r: Status)
    requires
        old(reg).wf(),
    ensures
        final(reg).wf(),
        window_presence_post(*old(reg), *final(reg), id, r),
{
    if reg.windows.contains_key(&id) {
        OK
    } else {
        error_resource_not_found(reg, id)
    }
}

/// Resolves the window for a key-repeat-rate change; as with the delay, the
/// rate itself is forwarded to the backend by the boundary.
pub fn window_set_key_repeat_rate<W, M>(reg: &mut Registry<W, M>, id: u32) -> (r: Status)
    requires
        old(reg).wf(),
    ensures
        final(reg).wf(),
        window_presence_post(*old(reg), *final(reg), id, r),
{
    if reg.windows.contains_key(&id) {
        OK
    } else {
        error_resource_not_found(reg, id)
    }
}

/// Resolves the window for a menu-pressed query; the backend answers the
/// query itself at the boundary once the window is known to be live.
pub fn window_is_menu_pressed<W, M>(reg: &mut Registry<W, M>, id: u32) -> (r: Status)
    requires
        old(reg).wf(),
    ensures
        final(reg).wf(),
        window_presence_post(*old(reg), *final(reg), id, r),
{
    if reg.windows.contains_key(&id) {
        OK
    } else {
        error_resource_not_found(reg, id)
    }
}

/// Resolves the window for an is-open query answered by the backend.
pub fn window_is_open<W, M>(reg: &mut Registry<W, M>, id: u32) -> (r: Status)
    requires
        old(reg).wf(),
    ensures
        final(reg).wf(),
        window_presence_post(*old(reg), *final(reg), id, r),
{
    if reg.windows.contains_key(&id) {
        OK
    } else {
        error_resource_not_found(reg, id)
    }
}

/// Resolves the window for an is-active query answered by the backend.
pub fn window_is_active<W, M>(reg: &mut Registry<W, M>, id: u32) -> (r: Status)
    requires
        old(reg).wf(),
    ensures
        final(reg).wf(),
        window_presence_post(*old(reg), *final(reg), id, r),
{
    if reg.windows.contains_key(&id) {
        OK
    } else {
        error_resource_not_found(reg, id)
    }
}

/// Resolves the window for a plain update (no new buffer contents); the
/// backend performs the update at the boundary.
pub fn window_update<W, M>(reg: &mut Registry<W, M>, id: u32) -> (r: Status)
    requires
        old(reg).wf(),
    ensures
        final(reg).wf(),
        window_presence_post(*old(reg), *final(reg), id, r),
{
    if reg.windows.contains_key(&id) {
        OK
    } else {
        error_resource_not_found(reg, id)
    }
}

/// Outcome of [`window_get_size`]: the size recorded at creation, or "not
/// found".
pub open spec fn window_get_size_post<W, M>(
    pre: Registry<W, M>,
    post: Registry<W, M>,
    id: u32,
    r: Option<(usize, usize)>,
) -> bool {
    if pre.windows@.contains_key(id) {
        &&& r == Some((pre.windows@[id].width, pre.windows@[id].height))
        &&& unchanged(pre, post)
    } else {
        &&& r is None
        &&& not_found_reported(pre, post, id)
    }
}

/// Returns the window's size as recorded at creation.
pub fn window_get_size<W, M>(reg: &mut Registry<W, M>, id: u32) -> (r: Option<(usize, usize)>)
    requires
        old(reg).wf(),
    ensures
        final(reg).wf(),
        window_get_size_post(*old(reg), *final(reg), id, r),
{
    match reg.windows.get(&id) {
        Some(entry) => Some((entry.width, entry.height)),
        None => {
            error_resource_not_found(reg, id);
            None
        },
    }
}

/// Outcome of [`window_get_mouse_down`]: the window must be live and the
/// button code must be 0 (left), 1 (right) or 2 (middle).
pub open spec fn window_get_mouse_down_post<W, M>(
    pre: Registry<W, M>,
    post: Registry<W, M>,
    id: u32,
    button: u8,
    r: Status,
) -> bool {
    if !pre.windows@.contains_key(id) {
        r == ERR && not_found_reported(pre, post, id)
    } else if button > 2 {
        r == ERR && error_reported(pre, post, "Invalid mouse button"@)
    } else {
        r == OK && unchanged(pre, post)
    }
}

/// Validates a mouse-button query: the window must be live and `button` must
/// name one of the three buttons. The backend answers the query itself at
/// the boundary once this reports success.
pub fn window_get_mouse_down<W, M>(reg: &mut Registry<W, M>, id: u32, button: u8) -> (r: Status)
    requires
        old(reg).wf(),
    ensures
        final(reg).wf(),
        window_get_mouse_down_post(*old(reg), *final(reg), id, button, r),
{
    if !reg.windows.contains_key(&id) {
        error_resource_not_found(reg, id)
    } else if button > 2 {
        error(reg, String::from_str("Invalid mouse button"))
    } else {
        OK
    }
}

/// Outcome of [`window_get_mouse_pos`]: the window must be live and the mode
/// code must be 0 (clamp), 1 (pass) or 2 (discard).
pub open spec fn window_get_mouse_pos_post<W, M>(
    pre: Registry<W, M>,
    post: Registry<W, M>,
    id: u32,
    mode: u8,
    r: Status,
) -> bool {
    if !pre.windows@.contains_key(id) {
        r == ERR && not_found_reported(pre, post, id)
    } else if mode > 2 {
        r == ERR && error_reported(pre, post, "Invalid mouse mode"@)
    } else {
        r == OK && unchanged(pre, post)
    }
}

/// Validates a mouse-position query: the window must be live and `mode` must
/// name one of the three clamping modes. The backend answers the query (a
/// pair of fractional coordinates) at the boundary once this reports
/// success.
pub fn window_get_mouse_pos<W, M>(reg: &mut Registry<W, M>, id: u32, mode: u8) -> (r: Status)
    requires
        old(reg).wf(),
    ensures
        final(reg).wf(),
        window_get_mouse_pos_post(*old(reg), *final(reg), id, mode, r),
{
    if !reg.windows.contains_key(&id) {
        error_resource_not_found(reg, id)
    } else if mode > 2 {
        error(reg, String::from_str("Invalid mouse mode"))
    } else {
        OK
    }
}

// ---------------------------------------------------------------------------
// Key snapshots: the two-step query/drain input protocol
// ---------------------------------------------------------------------------

/// Outcome of a key query ([`window_get_keys`], [`window_get_keys_pressed`],
/// [`window_get_keys_released`]): the window's snapshot now holds exactly
/// `codes` and the reported length is the snapshot's length.
///
/// Each window has its own snapshot, so input queries for two windows never
/// race on a shared buffer.
pub open spec fn window_keys_post<W, M>(
    pre: Registry<W, M>,
    post: Registry<W, M>,
    id: u32,
    codes: Vec<u8>,
    r: Option<usize>,
) -> bool {
    if pre.windows@.contains_key(id) {
        &&& r matches Some(n) && n == codes@.len()
        &&& window_entry_replaced(pre, post, id, (WindowEntry { snapshot: codes, ..pre.windows@[id] }))
    } else {
        &&& r is None
        &&& not_found_reported(pre, post, id)
    }
}

/// Stores `codes` as the window's snapshot and reports its length.
fn store_key_snapshot<W, M>(reg: &mut Registry<W, M>, id: u32, codes: Vec<u8>) -> (r: Option<
    usize,
>)
    requires
        old(reg).wf(),
    ensures
        final(reg).wf(),
        window_keys_post(*old(reg), *final(reg), id, codes, r),
{
    match reg.windows.remove(&id) {
        Some(mut entry) => {
            let n = codes.len();
            entry.snapshot = codes;
            let ghost updated = entry;
            reg.windows.insert(id, entry);
            proof {
                assert(reg.windows@ =~= old(reg).windows@.insert(id, updated));
            }
            Some(n)
        },
        None => {
            error_resource_not_found(reg, id);
            None
        },
    }
}

/// Stages the codes of the keys currently down, as reported by the backend
/// at the boundary, into the window's snapshot; returns the count to report
/// through the two-step protocol, or `None` if the window is not live.
pub fn window_get_keys<W, M>(reg: &mut Registry<W, M>, id: u32, codes: Vec<u8>) -> (r: Option<
    usize,
>)
    requires
        old(reg).wf(),
    ensures
        final(reg).wf(),
        window_keys_post(*old(reg), *final(reg), id, codes, r),
{
    store_key_snapshot(reg, id, codes)
}

/// Stages the codes of the keys pressed since the last poll (the boundary
/// applies the caller's repeat-inclusion flag when it queries the backend).
pub fn window_get_keys_pressed<W, M>(reg: &mut Registry<W, M>, id: u32, codes: Vec<u8>) -> (r:
    Option<usize>)
    requires
        old(reg).wf(),
    ensures
        final(reg).wf(),
        window_keys_post(*old(reg), *final(reg), id, codes, r),
{
    store_key_snapshot(reg, id, codes)
}

/// Stages the codes of the keys released since the last poll.
pub fn window_get_keys_released<W, M>(reg: &mut Registry<W, M>, id: u32, codes: Vec<u8>) -> (r:
    Option<usize>)
    requires
        old(reg).wf(),
    ensures
        final(reg).wf(),
        window_keys_post(*old(reg), *final(reg), id, codes, r),
{
    store_key_snapshot(reg, id, codes)
}

/// Outcome of [`read_keys`]: the window's snapshot is handed out exactly as
/// staged and the snapshot is now empty; everything else is untouched.
pub open spec fn read_keys_post<W, M>(
    pre: Registry<W, M>,
    post: Registry<W, M>,
    id: u32,
    r: Option<Vec<u8>>,
) -> bool {
    if pre.windows@.contains_key(id) {
        &&& r matches Some(v) && v == pre.windows@[id].snapshot
        &&& post.windows@.contains_key(id)
        &&& post.windows@[id].snapshot@ == Seq::<u8>::empty()
        &&& post.windows@[id] == (WindowEntry {
            snapshot: post.windows@[id].snapshot,
            ..pre.windows@[id]
        })
        &&& post.windows@.remove(id) == pre.windows@.remove(id)
        &&& same_but_windows(pre, post)
    } else {
        &&& r is None
        &&& not_found_reported(pre, post, id)
    }
}

/// Drains the window's key snapshot: returns exactly the codes staged by the
/// most recent query, in order, and leaves the snapshot empty, so a second
/// drain without an intervening query yields nothing.
pub fn read_keys<W, M>(reg: &mut Registry<W, M>, id: u32) -> (r: Option<Vec<u8>>)
    requires
        old(reg).wf(),
    ensures
        final(reg).wf(),
        read_keys_post(*old(reg), *final(reg), id, r),
{
    match reg.windows.remove(&id) {
        Some(mut entry) => {
            let mut drained: Vec<u8> = Vec::new();
            core::mem::swap(&mut drained, &mut entry.snapshot);
            let ghost updated = entry;
            reg.windows.insert(id, entry);
            proof {
                assert(reg.windows@ =~= old(reg).windows@.insert(id, updated));
                assert(reg.windows@.remove(id) =~= old(reg).windows@.remove(id));
            }
            Some(drained)
        },
        None => {
            error_resource_not_found(reg, id);
            None
        },
    }
}

// ---------------------------------------------------------------------------
// Window updates with pixel buffers
// ---------------------------------------------------------------------------

/// The message recorded when a pixel buffer's length does not match the
/// dimensions given with it.
pub open spec fn invalid_buffer_message() -> Seq<char> {
    "Buffer length must equal width * height"@
}

/// Outcome of [`window_update_with_buffer`]: the window must be live and the
/// buffer must hold exactly `width * height` pixel words. The sole accepted
/// buffer size is the element count (32-bit packed pixels), never a byte
/// count.
pub open spec fn window_update_with_buffer_post<W, M>(
    pre: Registry<W, M>,
    post: Registry<W, M>,
    id: u32,
    buffer: Seq<u32>,
    width: usize,
    height: usize,
    r: Status,
) -> bool {
    if !pre.windows@.contains_key(id) {
        r == ERR && not_found_reported(pre, post, id)
    } else if buffer.len() != width * height {
        r == ERR && error_reported(pre, post, invalid_buffer_message())
    } else {
        r == OK && unchanged(pre, post)
    }
}

/// Validates an update that presents a caller-supplied pixel buffer: the
/// window must be live and the buffer must hold exactly `width * height`
/// 32-bit pixel words. A mismatched length is rejected here rather than
/// letting the backend read past the buffer. The backend performs the
/// accepted update at the boundary.
pub fn window_update_with_buffer<W, M>(
    reg: &mut Registry<W, M>,
    id: u32,
    buffer: &Vec<u32>,
    width: usize,
    height: usize,
) -> (r: Status)
    requires
        old(reg).wf(),
    ensures
        final(reg).wf(),
        window_update_with_buffer_post(*old(reg), *final(reg), id, buffer@, width, height, r),
{
    if !reg.windows.contains_key(&id) {
        return error_resource_not_found(reg, id);
    }
    let buffer_len = buffer.len();
    let len_matches = match width.checked_mul(height) {
        Some(expected) => buffer_len == expected,
        None => false,
    };
    if !len_matches {
        proof {
            assert(buffer@.len() != width * height);
        }
        return error(reg, String::from_str("Buffer length must equal width * height"));
    }
    OK
}

// ---------------------------------------------------------------------------
// Menu attachment to windows
// ---------------------------------------------------------------------------

/// Outcome of [`window_add_menu`]: with both resources live, the backend's
/// attachment token is stored under a fresh handle identifier, which is
/// returned.
pub open spec fn window_add_menu_post<W, M>(
    pre: Registry<W, M>,
    post: Registry<W, M>,
    id: u32,
    menu_id: u32,
    token: u64,
    r: Option<u32>,
) -> bool {
    if !pre.windows@.contains_key(id) {
        &&& r is None
        &&& not_found_reported(pre, post, id)
    } else if !pre.menus@.contains_key(menu_id) {
        &&& r is None
        &&& not_found_reported(pre, post, menu_id)
    } else {
        &&& r == Some(pre.next_id)
        &&& post.next_id == pre.next_id + 1
        &&& post.menu_handles@ == pre.menu_handles@.insert(pre.next_id, token)
        &&& post.windows@ == pre.windows@
        &&& post.menus@ == pre.menus@
        &&& post.last_error == pre.last_error
    }
}

/// Records a menu's attachment to a window. The boundary performs the
/// backend attachment once both identifiers resolve, and passes the
/// backend's token in; the token is stored under a fresh handle identifier
/// for a later detach.
pub fn window_add_menu<W, M>(reg: &mut Registry<W, M>, id: u32, menu_id: u32, token: u64) -> (r:
    Option<u32>)
    requires
        old(reg).wf(),
        old(reg).windows@.contains_key(id) && old(reg).menus@.contains_key(menu_id) ==> old(
            reg,
        ).next_id < u32::MAX,
    ensures
        final(reg).wf(),
        window_add_menu_post(*old(reg), *final(reg), id, menu_id, token, r),
{
    if !reg.windows.contains_key(&id) {
        error_resource_not_found(reg, id);
        return None;
    }
    if !reg.menus.contains_key(&menu_id) {
        error_resource_not_found(reg, menu_id);
        return None;
    }
    let handle_id = reg.next_id;
    reg.menu_handles.insert(handle_id, token);
    reg.next_id = handle_id + 1;
    Some(handle_id)
}

/// Outcome of [`window_remove_menu`]: with the window live and the handle
/// known, the handle's entry is gone and its identifier permanently invalid.
pub open spec fn window_remove_menu_post<W, M>(
    pre: Registry<W, M>,
    post: Registry<W, M>,
    id: u32,
    handle_id: u32,
    r: Status,
) -> bool {
    if !pre.windows@.contains_key(id) {
        r == ERR && not_found_reported(pre, post, id)
    } else if !pre.menu_handles@.contains_key(handle_id) {
        r == ERR && not_found_reported(pre, post, handle_id)
    } else {
        &&& r == OK
        &&& post.menu_handles@ == pre.menu_handles@.remove(handle_id)
        &&& post.windows@ == pre.windows@
        &&& post.menus@ == pre.menus@
        &&& post.next_id == pre.next_id
        &&& post.last_error == pre.last_error
    }
}

/// Detaches a menu from a window by its handle identifier and forgets the
/// handle. The boundary performs the backend detach with the token it
/// looked up before calling this; using the handle again resolves to "not
/// found".
pub fn window_remove_menu<W, M>(reg: &mut Registry<W, M>, id: u32, handle_id: u32) -> (r: Status)
    requires
        old(reg).wf(),
    ensures
        final(reg).wf(),
        window_remove_menu_post(*old(reg), *final(reg), id, handle_id, r),
{
    if !reg.windows.contains_key(&id) {
        return error_resource_not_found(reg, id);
    }
    match reg.menu_handles.remove(&handle_id) {
        Some(_token) => OK,
        None => error_resource_not_found(reg, handle_id),
    }
}

// ---------------------------------------------------------------------------
// Menu lifecycle and composition
// ---------------------------------------------------------------------------

/// Outcome of [`menu_new`]: a fresh identifier for a constructed backend
/// menu, or the backend's construction failure recorded in the error slot.
pub open spec fn menu_new_post<W, M>(
    pre: Registry<W, M>,
    post: Registry<W, M>,
    created: Result<M, String>,
    name: String,
    r: Option<u32>,
) -> bool {
    match created {
        Ok(m) => {
            &&& r == Some(pre.next_id)
            &&& post.next_id == pre.next_id + 1
            &&& post.menus@.contains_key(pre.next_id)
            &&& post.menus@[pre.next_id].native == m
            &&& post.menus@[pre.next_id].name == name
            &&& post.menus@[pre.next_id].entries@ == Seq::<MenuElem>::empty()
            &&& post.menus@.remove(pre.next_id) == pre.menus@
            &&& post.windows@ == pre.windows@
            &&& post.menu_handles@ == pre.menu_handles@
            &&& post.last_error == pre.last_error
        },
        Err(m) => {
            &&& r is None
            &&& error_reported(pre, post, m@)
        },
    }
}

/// Registers the outcome of a backend menu construction, mirroring
/// [`window_new`]: a fresh identifier on success, the backend's message in
/// the error slot on failure.
pub fn menu_new<W, M>(reg: &mut Registry<W, M>, created: Result<M, String>, name: String) -> (r:
    Option<u32>)
    requires
        old(reg).wf(),
        created is Ok ==> old(reg).next_id < u32::MAX,
    ensures
        final(reg).wf(),
        menu_new_post(*old(reg), *final(reg), created, name, r),
{
    match created {
        Ok(native) => {
            let id = reg.next_id;
            let entry = MenuEntry { native, name, entries: Vec::new() };
            reg.menus.insert(id, entry);
            reg.next_id = id + 1;
            proof {
                assert(!old(reg).menus@.contains_key(id));
                assert(reg.menus@.remove(id) =~= old(reg).menus@);
            }
            Some(id)
        },
        Err(message) => {
            error(reg, message);
            None
        },
    }
}

/// Outcome of [`menu_destroy`]: the entry is gone, or the identifier was not
/// live and the standard message is recorded.
pub open spec fn menu_destroy_post<W, M>(
    pre: Registry<W, M>,
    post: Registry<W, M>,
    id: u32,
    r: Status,
) -> bool {
    if pre.menus@.contains_key(id) {
        &&& r == OK
        &&& post.menus@ == pre.menus@.remove(id)
        &&& same_but_menus(pre, post)
    } else {
        &&& r == ERR
        &&& not_found_reported(pre, post, id)
    }
}

/// Removes a menu from the registry, releasing the backend object. The
/// identifier becomes permanently invalid: it is never issued again.
pub fn menu_destroy<W, M>(reg: &mut Registry<W, M>, id: u32) -> (r: Status)
    requires
        old(reg).wf(),
    ensures
        final(reg).wf(),
        menu_destroy_post(*old(reg), *final(reg), id, r),
{
    match reg.menus.remove(&id) {
        Some(_entry) => OK,
        None => error_resource_not_found(reg, id),
    }
}

/// Outcome of a composition operation on a live menu: `elem` is appended to
/// the menu's recorded elements and nothing else moves.
pub open spec fn menu_entries_extended<W, M>(
    pre: Registry<W, M>,
    post: Registry<W, M>,
    id: u32,
    elem: MenuElem,
) -> bool {
    &&& post.menus@.contains_key(id)
    &&& post.menus@[id].entries@ == pre.menus@[id].entries@.push(elem)
    &&& post.menus@[id] == (MenuEntry { entries: post.menus@[id].entries, ..pre.menus@[id] })
    &&& post.menus@.remove(id) == pre.menus@.remove(id)
    &&& same_but_menus(pre, post)
}

/// Appends `elem` to a live menu's recorded elements.
fn menu_push_elem<W, M>(reg: &mut Registry<W, M>, id: u32, elem: MenuElem) -> (r: Status)
    requires
        old(reg).wf(),
    ensures
        final(reg).wf(),
        ({
            if old(reg).menus@.contains_key(id) {
                r == OK && menu_entries_extended(*old(reg), *final(reg), id, elem)
            } else {
                r == ERR && not_found_reported(*old(reg), *final(reg), id)
            }
        }),
{
    match reg.menus.remove(&id) {
        Some(mut entry) => {
            entry.entries.push(elem);
            let ghost updated = entry;
            reg.menus.insert(id, entry);
            proof {
                assert(reg.menus@ =~= old(reg).menus@.insert(id, updated));
                assert(reg.menus@.remove(id) =~= old(reg).menus@.remove(id));
            }
            OK
        },
        None => error_resource_not_found(reg, id),
    }
}

/// Outcome of [`menu_add_separator`].
pub open spec fn menu_add_separator_post<W, M>(
    pre: Registry<W, M>,
    post: Registry<W, M>,
    id: u32,
    r: Status,
) -> bool {
    if pre.menus@.contains_key(id) {
        r == OK && menu_entries_extended(pre, post, id, MenuElem::Separator)
    } else {
        r == ERR && not_found_reported(pre, post, id)
    }
}

/// Appends a separator line to a live menu; the boundary mirrors the change
/// at the backend.
pub fn menu_add_separator<W, M>(reg: &mut Registry<W, M>, id: u32) -> (r: Status)
    requires
        old(reg).wf(),
    ensures
        final(reg).wf(),
        menu_add_separator_post(*old(reg), *final(reg), id, r),
{
    menu_push_elem(reg, id, MenuElem::Separator)
}

/// Outcome of [`menu_add_sub_menu`]: both the parent and the child menu must
/// be live; the parent's recorded elements then gain the nested entry.
pub open spec fn menu_add_sub_menu_post<W, M>(
    pre: Registry<W, M>,
    post: Registry<W, M>,
    id: u32,
    name: String,
    sub_menu_id: u32,
    r: Status,
) -> bool {
    if !pre.menus@.contains_key(id) {
        r == ERR && not_found_reported(pre, post, id)
    } else if !pre.menus@.contains_key(sub_menu_id) {
        r == ERR && not_found_reported(pre, post, sub_menu_id)
    } else {
        r == OK && menu_entries_extended(
            pre,
            post,
            id,
            (MenuElem::SubMenu { name, menu_id: sub_menu_id }),
        )
    }
}

/// Appends a nested menu entry to a live parent menu, recording the child by
/// its identifier; the boundary mirrors the change at the backend.
pub fn menu_add_sub_menu<W, M>(
    reg: &mut Registry<W, M>,
    id: u32,
    name: String,
    sub_menu_id: u32,
) -> (r: Status)
    requires
        old(reg).wf(),
    ensures
        final(reg).wf(),
        menu_add_sub_menu_post(*old(reg), *final(reg), id, name, sub_menu_id, r),
{
    if !reg.menus.contains_key(&id) {
        return error_resource_not_found(reg, id);
    }
    if !reg.menus.contains_key(&sub_menu_id) {
        return error_resource_not_found(reg, sub_menu_id);
    }
    menu_push_elem(reg, id, MenuElem::SubMenu { name, menu_id: sub_menu_id })
}

/// Outcome of [`menu_add_item`].
pub open spec fn menu_add_item_post<W, M>(
    pre: Registry<W, M>,
    post: Registry<W, M>,
    id: u32,
    name: String,
    item_id: usize,
    r: Status,
) -> bool {
    if pre.menus@.contains_key(id) {
        r == OK && menu_entries_extended(pre, post, id, (MenuElem::Item { name, item_id }))
    } else {
        r == ERR && not_found_reported(pre, post, id)
    }
}

/// Appends a selectable item to a live menu. `item_id` is the caller-chosen
/// tag later reported when the item is selected; items are part of the
/// owning menu's composition, not independently addressable resources, so
/// nothing is handed back for them.
pub fn menu_add_item<W, M>(reg: &mut Registry<W, M>, id: u32, name: String, item_id: usize) -> (r:
    Status)
    requires
        old(reg).wf(),
    ensures
        final(reg).wf(),
        menu_add_item_post(*old(reg), *final(reg), id, name, item_id, r),
{
    menu_push_elem(reg, id, MenuElem::Item { name, item_id })
}

} // verus!
