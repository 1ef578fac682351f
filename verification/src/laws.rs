//! Registry-wide laws: identifier uniqueness and freshness, no identifier
//! reuse, the destroy-twice outcome, the snapshot query/drain protocol, and
//! window independence.

use crate::registry::error_reported;
use crate::registry::menu_add_item_post;
use crate::registry::menu_add_separator_post;
use crate::registry::menu_add_sub_menu_post;
use crate::registry::menu_destroy_post;
use crate::registry::menu_new_post;
use crate::registry::not_found_reported;
use crate::registry::read_keys_post;
use crate::registry::unchanged;
use crate::registry::window_add_menu_post;
use crate::registry::window_close_post;
use crate::registry::window_get_mouse_down_post;
use crate::registry::window_get_mouse_pos_post;
use crate::registry::window_get_size_post;
use crate::registry::window_keys_post;
use crate::registry::window_limit_update_rate_post;
use crate::registry::window_new_post;
use crate::registry::window_presence_post;
use crate::registry::window_remove_menu_post;
use crate::registry::window_set_background_color_post;
use crate::registry::window_set_cursor_visibility_post;
use crate::registry::window_set_position_post;
use crate::registry::window_set_title_post;
use crate::registry::window_topmost_post;
use crate::registry::window_update_with_buffer_post;
use crate::registry::Registry;
use crate::registry::Status;
use crate::registry::ERR;
use crate::registry::OK;
use vstd::prelude::*;

verus! {

/// Identifier uniqueness: in a well-formed registry, every live identifier
/// is nonzero, lies below the allocation counter, and is live in exactly one
/// of the window, menu and menu-handle tables.
pub proof fn lemma_live_ids_unique<W, M>(r: Registry<W, M>)
    requires
        r.wf(),
    ensures
        forall|i: u32| #[trigger] r.windows@.contains_key(i) ==> 0 < i && i < r.next_id,
        forall|i: u32| #[trigger] r.menus@.contains_key(i) ==> 0 < i && i < r.next_id,
        forall|i: u32| #[trigger] r.menu_handles@.contains_key(i) ==> 0 < i && i < r.next_id,
        forall|i: u32| #[trigger] r.windows@.contains_key(i) ==> !r.menus@.contains_key(i),
        forall|i: u32| #[trigger] r.windows@.contains_key(i) ==> !r.menu_handles@.contains_key(i),
        forall|i: u32| #[trigger] r.menus@.contains_key(i) ==> !r.menu_handles@.contains_key(i),
{
}

/// Freshness of window creation: a successful [`window_new`] returns an
/// identifier that is nonzero and strictly above every identifier that was
/// live in any table — so it collides with nothing that exists.
pub proof fn lemma_window_new_id_fresh<W, M>(
    pre: Registry<W, M>,
    post: Registry<W, M>,
    created: Result<W, String>,
    title: String,
    width: usize,
    height: usize,
    rid: u32,
)
    requires
        pre.wf(),
        window_new_post(pre, post, created, title, width, height, Some(rid)),
    ensures
        rid != 0,
        !pre.windows@.contains_key(rid),
        !pre.menus@.contains_key(rid),
        !pre.menu_handles@.contains_key(rid),
        forall|i: u32|
            #[trigger] pre.windows@.contains_key(i) || #[trigger] pre.menus@.contains_key(i)
                || #[trigger] pre.menu_handles@.contains_key(i) ==> i < rid,
{
}

/// Freshness of menu creation, mirroring [`lemma_window_new_id_fresh`].
pub proof fn lemma_menu_new_id_fresh<W, M>(
    pre: Registry<W, M>,
    post: Registry<W, M>,
    created: Result<M, String>,
    name: String,
    rid: u32,
)
    requires
        pre.wf(),
        menu_new_post(pre, post, created, name, Some(rid)),
    ensures
        rid != 0,
        !pre.windows@.contains_key(rid),
        !pre.menus@.contains_key(rid),
        !pre.menu_handles@.contains_key(rid),
        forall|i: u32|
            #[trigger] pre.windows@.contains_key(i) || #[trigger] pre.menus@.contains_key(i)
                || #[trigger] pre.menu_handles@.contains_key(i) ==> i < rid,
{
}

/// Freshness of menu attachment: a successful [`window_add_menu`] returns a
/// handle identifier that is nonzero and strictly above every live
/// identifier of any kind.
pub proof fn lemma_window_add_menu_id_fresh<W, M>(
    pre: Registry<W, M>,
    post: Registry<W, M>,
    id: u32,
    menu_id: u32,
    token: u64,
    rid: u32,
)
    requires
        pre.wf(),
        window_add_menu_post(pre, post, id, menu_id, token, Some(rid)),
    ensures
        rid != 0,
        !pre.windows@.contains_key(rid),
        !pre.menus@.contains_key(rid),
        !pre.menu_handles@.contains_key(rid),
        forall|i: u32|
            #[trigger] pre.windows@.contains_key(i) || #[trigger] pre.menus@.contains_key(i)
                || #[trigger] pre.menu_handles@.contains_key(i) ==> i < rid,
{
}

/// No identifier reuse, window path: after `close(id)` the counter still
/// lies strictly above `id` (well-formedness put `id` below the counter
/// while it was live, and closing does not move the counter), and a
/// subsequent creation returns the counter's current value — so it never
/// returns `id` again. Every operation either keeps the counter or
/// increments it, so the same argument holds across any number of
/// intervening operations.
pub proof fn lemma_no_window_id_reuse<W, M>(
    s0: Registry<W, M>,
    s1: Registry<W, M>,
    s2: Registry<W, M>,
    id: u32,
    r1: Status,
    created: Result<W, String>,
    title: String,
    width: usize,
    height: usize,
    rid: u32,
)
    requires
        s0.wf(),
        s0.windows@.contains_key(id),
        window_close_post(s0, s1, id, r1),
        window_new_post(s1, s2, created, title, width, height, Some(rid)),
    ensures
        rid != id,
        rid > id,
{
}

/// No identifier reuse, menu path, mirroring [`lemma_no_window_id_reuse`].
pub proof fn lemma_no_menu_id_reuse<W, M>(
    s0: Registry<W, M>,
    s1: Registry<W, M>,
    s2: Registry<W, M>,
    id: u32,
    r1: Status,
    created: Result<M, String>,
    name: String,
    rid: u32,
)
    requires
        s0.wf(),
        s0.menus@.contains_key(id),
        menu_destroy_post(s0, s1, id, r1),
        menu_new_post(s1, s2, created, name, Some(rid)),
    ensures
        rid != id,
        rid > id,
{
}

/// Destroying twice is not idempotent, window path: closing a live window
/// succeeds and removes it, so closing the same identifier again fails with
/// the standard "not found" message while changing nothing.
pub proof fn lemma_window_close_twice<W, M>(
    s0: Registry<W, M>,
    s1: Registry<W, M>,
    s2: Registry<W, M>,
    id: u32,
    r1: Status,
    r2: Status,
)
    requires
        s0.wf(),
        s0.windows@.contains_key(id),
        window_close_post(s0, s1, id, r1),
        window_close_post(s1, s2, id, r2),
    ensures
        r1 == OK,
        r2 == ERR,
        not_found_reported(s1, s2, id),
{
}

/// Destroying twice is not idempotent, menu path, mirroring
/// [`lemma_window_close_twice`].
pub proof fn lemma_menu_destroy_twice<W, M>(
    s0: Registry<W, M>,
    s1: Registry<W, M>,
    s2: Registry<W, M>,
    id: u32,
    r1: Status,
    r2: Status,
)
    requires
        s0.wf(),
        s0.menus@.contains_key(id),
        menu_destroy_post(s0, s1, id, r1),
        menu_destroy_post(s1, s2, id, r2),
    ensures
        r1 == OK,
        r2 == ERR,
        not_found_reported(s1, s2, id),
{
}

/// The snapshot protocol: a key query followed directly by a drain hands
/// back exactly the codes the query staged, in order, with the reported
/// length; a second drain without an intervening query yields an empty
/// result.
pub proof fn lemma_snapshot_protocol<W, M>(
    s0: Registry<W, M>,
    s1: Registry<W, M>,
    s2: Registry<W, M>,
    s3: Registry<W, M>,
    id: u32,
    codes: Vec<u8>,
    n: usize,
    first: Vec<u8>,
    second: Vec<u8>,
)
    requires
        s0.wf(),
        s0.windows@.contains_key(id),
        window_keys_post(s0, s1, id, codes, Some(n)),
        read_keys_post(s1, s2, id, Some(first)),
        read_keys_post(s2, s3, id, Some(second)),
    ensures
        n == codes@.len(),
        first@ == codes@,
        second@ == Seq::<u8>::empty(),
{
}

/// Window independence, input path: staging a key snapshot for one window
/// neither disturbs another window's entry nor writes the error slot — two
/// windows driven from two call threads only contend on the error slot when
/// one of them actually fails.
pub proof fn lemma_keys_leave_other_windows_alone<W, M>(
    s0: Registry<W, M>,
    s1: Registry<W, M>,
    id: u32,
    other: u32,
    codes: Vec<u8>,
    n: usize,
)
    requires
        s0.wf(),
        id != other,
        s0.windows@.contains_key(other),
        window_keys_post(s0, s1, id, codes, Some(n)),
    ensures
        s1.windows@.contains_key(other),
        s1.windows@[other] == s0.windows@[other],
        s1.last_error == s0.last_error,
{
}

/// One step of the registry: some operation of the dispatch surface related
/// `pre` to `post`. The no-op disjunct covers the read-only operations
/// (error peek and lookups). Opaque so that proofs over whole runs treat a
/// step abstractly; [`lemma_step_preserves_discipline`] extracts what every
/// step guarantees.
#[verifier::opaque]
pub open spec fn registry_step<W, M>(pre: Registry<W, M>, post: Registry<W, M>) -> bool {
    ||| unchanged(pre, post)
    ||| exists|m: Seq<char>| error_reported(pre, post, m)
    ||| exists|created: Result<W, String>, title: String, width: usize, height: usize, r: Option<
        u32,
    >| window_new_post(pre, post, created, title, width, height, r)
    ||| exists|id: u32, r: Status| window_close_post(pre, post, id, r)
    ||| exists|id: u32, title: String, r: Status| window_set_title_post(pre, post, id, title, r)
    ||| exists|id: u32, topmost: bool, r: Status| window_topmost_post(pre, post, id, topmost, r)
    ||| exists|id: u32, visible: bool, r: Status|
        window_set_cursor_visibility_post(pre, post, id, visible, r)
    ||| exists|id: u32, red: u8, green: u8, blue: u8, r: Status|
        window_set_background_color_post(pre, post, id, red, green, blue, r)
    ||| exists|id: u32, x: isize, y: isize, r: Status|
        window_set_position_post(pre, post, id, x, y, r)
    ||| exists|id: u32, micros: u64, r: Status|
        window_limit_update_rate_post(pre, post, id, micros, r)
    ||| exists|id: u32, r: Status| window_presence_post(pre, post, id, r)
    ||| exists|id: u32, r: Option<(usize, usize)>| window_get_size_post(pre, post, id, r)
    ||| exists|id: u32, button: u8, r: Status| window_get_mouse_down_post(pre, post, id, button, r)
    ||| exists|id: u32, mode: u8, r: Status| window_get_mouse_pos_post(pre, post, id, mode, r)
    ||| exists|id: u32, codes: Vec<u8>, r: Option<usize>| window_keys_post(pre, post, id, codes, r)
    ||| exists|id: u32, r: Option<Vec<u8>>| read_keys_post(pre, post, id, r)
    ||| exists|id: u32, buffer: Seq<u32>, width: usize, height: usize, r: Status|
        window_update_with_buffer_post(pre, post, id, buffer, width, height, r)
    ||| exists|id: u32, menu_id: u32, token: u64, r: Option<u32>|
        window_add_menu_post(pre, post, id, menu_id, token, r)
    ||| exists|id: u32, handle_id: u32, r: Status|
        window_remove_menu_post(pre, post, id, handle_id, r)
    ||| exists|created: Result<M, String>, name: String, r: Option<u32>|
        menu_new_post(pre, post, created, name, r)
    ||| exists|id: u32, r: Status| menu_destroy_post(pre, post, id, r)
    ||| exists|id: u32, r: Status| menu_add_separator_post(pre, post, id, r)
    ||| exists|id: u32, name: String, sub_menu_id: u32, r: Status|
        menu_add_sub_menu_post(pre, post, id, name, sub_menu_id, r)
    ||| exists|id: u32, name: String, item_id: usize, r: Status|
        menu_add_item_post(pre, post, id, name, item_id, r)
}

/// Every single operation preserves well-formedness and never moves the
/// identifier counter backwards: an identifier once below the counter stays
/// below it forever.
#[verifier::rlimit(50)]
pub proof fn lemma_step_preserves_discipline<W, M>(pre: Registry<W, M>, post: Registry<W, M>)
    requires
        pre.wf(),
        registry_step(pre, post),
    ensures
        post.wf(),
        pre.next_id <= post.next_id,
{
    reveal(registry_step);
    if exists|created: Result<W, String>, title: String, width: usize, height: usize, r: Option<
        u32,
    >| window_new_post(pre, post, created, title, width, height, r) {
        let (created, title, width, height, r) = choose|
            created: Result<W, String>,
            title: String,
            width: usize,
            height: usize,
            r: Option<u32>,
        | window_new_post(pre, post, created, title, width, height, r);
        if created is Ok {
            assert forall|i: u32| #[trigger] post.windows@.contains_key(i) implies
                pre.windows@.contains_key(i) || i == pre.next_id by {
                if i != pre.next_id {
                    assert(post.windows@.remove(pre.next_id).contains_key(i));
                }
            }
        }
    } else if exists|created: Result<M, String>, name: String, r: Option<u32>|
        menu_new_post(pre, post, created, name, r) {
        let (created, name, r) = choose|created: Result<M, String>, name: String, r: Option<u32>|
            menu_new_post(pre, post, created, name, r);
        if created is Ok {
            assert forall|i: u32| #[trigger] post.menus@.contains_key(i) implies
                pre.menus@.contains_key(i) || i == pre.next_id by {
                if i != pre.next_id {
                    assert(post.menus@.remove(pre.next_id).contains_key(i));
                }
            }
        }
    } else if exists|id: u32, r: Option<Vec<u8>>| read_keys_post(pre, post, id, r) {
        let (id, r) = choose|id: u32, r: Option<Vec<u8>>| read_keys_post(pre, post, id, r);
        if pre.windows@.contains_key(id) {
            assert forall|i: u32| #[trigger] post.windows@.contains_key(i) implies
                pre.windows@.contains_key(i) by {
                if i != id {
                    assert(post.windows@.remove(id).contains_key(i));
                    assert(pre.windows@.remove(id).contains_key(i));
                }
            }
        }
    } else if exists|id: u32, r: Status| menu_add_separator_post(pre, post, id, r) {
        let (id, r) = choose|id: u32, r: Status| menu_add_separator_post(pre, post, id, r);
        if pre.menus@.contains_key(id) {
            lemma_menus_frame_preserves_membership(pre, post, id);
        }
    } else if exists|id: u32, name: String, sub_menu_id: u32, r: Status|
        menu_add_sub_menu_post(pre, post, id, name, sub_menu_id, r) {
        let (id, name, sub_menu_id, r) = choose|
            id: u32,
            name: String,
            sub_menu_id: u32,
            r: Status,
        | menu_add_sub_menu_post(pre, post, id, name, sub_menu_id, r);
        if pre.menus@.contains_key(id) && pre.menus@.contains_key(sub_menu_id) {
            lemma_menus_frame_preserves_membership(pre, post, id);
        }
    } else if exists|id: u32, name: String, item_id: usize, r: Status|
        menu_add_item_post(pre, post, id, name, item_id, r) {
        let (id, name, item_id, r) = choose|id: u32, name: String, item_id: usize, r: Status|
            menu_add_item_post(pre, post, id, name, item_id, r);
        if pre.menus@.contains_key(id) {
            lemma_menus_frame_preserves_membership(pre, post, id);
        }
    }
}

/// With all other state equal, a menu table that changed only at a live
/// identifier `id` (same entry set elsewhere) has the same live identifiers.
proof fn lemma_menus_frame_preserves_membership<W, M>(
    pre: Registry<W, M>,
    post: Registry<W, M>,
    id: u32,
)
    requires
        pre.menus@.contains_key(id),
        post.menus@.contains_key(id),
        post.menus@.remove(id) == pre.menus@.remove(id),
    ensures
        forall|i: u32| #[trigger] post.menus@.contains_key(i) ==> pre.menus@.contains_key(i),
{
    assert forall|i: u32| #[trigger] post.menus@.contains_key(i) implies pre.menus@.contains_key(
        i,
    ) by {
        if i != id {
            assert(post.menus@.remove(id).contains_key(i));
            assert(pre.menus@.remove(id).contains_key(i));
        }
    }
}

/// Discipline along a whole run: if every adjacent pair of states is one
/// operation of the surface, well-formedness holds throughout and an
/// identifier below the counter at the start stays below the counter in
/// every later state.
pub proof fn lemma_trace_preserves_discipline<W, M>(trace: Seq<Registry<W, M>>, id: u32)
    requires
        trace.len() >= 1,
        trace[0].wf(),
        id < trace[0].next_id,
        forall|k: int| 0 <= k < trace.len() - 1 ==> registry_step(#[trigger] trace[k], trace[k + 1]),
    ensures
        forall|k: int| 0 <= k < trace.len() ==> (#[trigger] trace[k]).wf() && id < trace[k].next_id,
    decreases trace.len(),
{
    if trace.len() > 1 {
        let prefix = trace.drop_last();
        assert forall|k: int| 0 <= k < prefix.len() - 1 implies registry_step(
            #[trigger] prefix[k],
            prefix[k + 1],
        ) by {
            assert(registry_step(trace[k], trace[k + 1]));
        }
        lemma_trace_preserves_discipline(prefix, id);
        let n = trace.len() - 1;
        assert(prefix[n - 1] == trace[n - 1]);
        assert(prefix[n - 1].wf() && id < prefix[n - 1].next_id);
        assert(registry_step(trace[n - 1], trace[n]));
        lemma_step_preserves_discipline(trace[n - 1], trace[n]);
        assert forall|k: int| 0 <= k < trace.len() implies (#[trigger] trace[k]).wf() && id
            < trace[k].next_id by {
            if k < n {
                assert(prefix[k].wf() && id < prefix[k].next_id);
            }
        }
    }
}

/// No identifier reuse, in full: once `close`/`destroy` has retired `id`,
/// then whatever operations run afterwards, a creation performed at any
/// later state returns an identifier different from `id`. (While `id` was
/// live, well-formedness kept it below the counter; retiring it does not
/// move the counter; no step moves the counter backwards; and every
/// creation returns the counter's current value.)
pub proof fn lemma_no_reuse_in_any_run<W, M>(
    trace: Seq<Registry<W, M>>,
    id: u32,
    created: Result<W, String>,
    title: String,
    width: usize,
    height: usize,
    post: Registry<W, M>,
    rid: u32,
)
    requires
        trace.len() >= 1,
        trace[0].wf(),
        id < trace[0].next_id,
        forall|k: int| 0 <= k < trace.len() - 1 ==> registry_step(#[trigger] trace[k], trace[k + 1]),
        window_new_post(trace.last(), post, created, title, width, height, Some(rid)),
    ensures
        rid != id,
{
    lemma_trace_preserves_discipline(trace, id);
}

/// [`lemma_no_reuse_in_any_run`] for menu creation: a retired identifier is
/// never handed out again by `menu_new` either.
pub proof fn lemma_no_menu_reuse_in_any_run<W, M>(
    trace: Seq<Registry<W, M>>,
    id: u32,
    created: Result<M, String>,
    name: String,
    post: Registry<W, M>,
    rid: u32,
)
    requires
        trace.len() >= 1,
        trace[0].wf(),
        id < trace[0].next_id,
        forall|k: int| 0 <= k < trace.len() - 1 ==> registry_step(#[trigger] trace[k], trace[k + 1]),
        menu_new_post(trace.last(), post, created, name, Some(rid)),
    ensures
        rid != id,
{
    lemma_trace_preserves_discipline(trace, id);
}

/// [`lemma_no_reuse_in_any_run`] for menu attachment: a retired identifier
/// is never handed out again as a menu handle either.
pub proof fn lemma_no_handle_reuse_in_any_run<W, M>(
    trace: Seq<Registry<W, M>>,
    id: u32,
    window_id: u32,
    menu_id: u32,
    token: u64,
    post: Registry<W, M>,
    rid: u32,
)
    requires
        trace.len() >= 1,
        trace[0].wf(),
        id < trace[0].next_id,
        forall|k: int| 0 <= k < trace.len() - 1 ==> registry_step(#[trigger] trace[k], trace[k + 1]),
        window_add_menu_post(trace.last(), post, window_id, menu_id, token, Some(rid)),
    ensures
        rid != id,
{
    lemma_trace_preserves_discipline(trace, id);
}

/// Window independence, lifecycle path: closing one window leaves every
/// other window's entry in place and, on success, the error slot untouched.
pub proof fn lemma_close_leaves_other_windows_alone<W, M>(
    s0: Registry<W, M>,
    s1: Registry<W, M>,
    id: u32,
    other: u32,
)
    requires
        s0.wf(),
        id != other,
        s0.windows@.contains_key(id),
        s0.windows@.contains_key(other),
        window_close_post(s0, s1, id, OK),
    ensures
        s1.windows@.contains_key(other),
        s1.windows@[other] == s0.windows@[other],
        s1.last_error == s0.last_error,
{
}

} // verus!
