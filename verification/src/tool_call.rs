//! Tool calls that wait for their results. Each is found by the identifier of
//! the tool use, and holds the session that the result is to be sent through.
use crate::session::{ClaudeWebState, WebView};
use crate::text::same_text;
use vstd::prelude::*;

verus! {

/// A tool call that waits for its result: the session needed to send it, and
/// the reading of a monotonic clock, in nanoseconds, when it was registered.
#[derive(Clone, Debug)]
pub struct ToolCallState {
    pub session: ClaudeWebState,
    pub created_at: u128,
}

/// What is pending, by identifier.
pub type Pending = Map<Seq<char>, ToolCallState>;

impl ToolCallState {
    /// The call has waited longer than `timeout`. A clock that reads earlier
    /// than the call was registered counts as no time at all.
    pub open spec fn is_expired(self, now: u128, timeout: u128) -> bool {
        now - self.created_at > timeout
    }
}

/// What is pending once the calls that have waited longer than `timeout` are
/// dropped.
pub open spec fn unexpired(pending: Pending, now: u128, timeout: u128) -> Pending {
    pending.restrict(
        Set::new(
            |id: Seq<char>|
                pending.contains_key(id) && !pending[id].is_expired(now, timeout),
        ),
    )
}

/// What is pending once the session `session` waits under `id` for the result of
/// a tool, from `now` on: that call, and every other as before.
pub open spec fn waits_for_result(
    before: Pending,
    after: Pending,
    id: Seq<char>,
    session: WebView,
    now: u128,
) -> bool {
    &&& after.dom() == before.dom().insert(id)
    &&& after[id].session@ == session
    &&& after[id].created_at == now
    &&& forall|other: Seq<char>| #[trigger]
        before.contains_key(other) && other != id ==> after[other] == before[other]
}

/// What identifiers hold.
pub open spec fn ids_view(ids: Seq<String>) -> Seq<Seq<char>> {
    ids.map_values(|id: String| id@)
}

/// Manages pending tool calls. No two have the same identifier.
#[derive(Debug)]
pub struct ToolCallManager {
    calls: Vec<(String, ToolCallState)>,
}

/// The identifiers of `calls` are different.
spec fn distinct(calls: Seq<(String, ToolCallState)>) -> bool {
    forall|i: int, j: int|
        #![trigger calls[i], calls[j]]
        0 <= i < j < calls.len() ==> calls[i].0@ != calls[j].0@
}

/// The call at `at` has the identifier `id`.
spec fn has_id(calls: Seq<(String, ToolCallState)>, id: Seq<char>, at: int) -> bool {
    0 <= at < calls.len() && calls[at].0@ == id
}

/// What `calls` say is pending.
spec fn pending_in(calls: Seq<(String, ToolCallState)>) -> Pending {
    Map::new(
        |id: Seq<char>| exists|at: int| has_id(calls, id, at),
        |id: Seq<char>| calls[choose|at: int| has_id(calls, id, at)].1,
    )
}

impl View for ToolCallManager {
    type V = Pending;

    closed spec fn view(&self) -> Pending {
        pending_in(self.calls@)
    }
}

/// `call` is the one at `at`, which is `from` or later.
spec fn stands_from(
    calls: Seq<(String, ToolCallState)>,
    from: int,
    call: (String, ToolCallState),
    at: int,
) -> bool {
    from <= at < calls.len() && calls[at] == call
}

/// `kept` holds those of `calls` from `from` on that have not expired.
spec fn keeps_unexpired(
    calls: Seq<(String, ToolCallState)>,
    from: int,
    kept: Seq<(String, ToolCallState)>,
    now: u128,
    timeout: u128,
) -> bool {
    &&& distinct(kept)
    &&& forall|k: int|
        0 <= k < kept.len() ==> !(#[trigger] kept[k]).1.is_expired(now, timeout) && exists|at: int|
            stands_from(calls, from, kept[k], at)
    &&& forall|at: int|
        from <= at < calls.len() && !(#[trigger] calls[at]).1.is_expired(now, timeout)
            ==> exists|k: int| stands_from(kept, 0, calls[at], k)
}

/// The call at `at`, which is `from` or later, has the identifier `id`, and has
/// expired.
spec fn expired_from(
    calls: Seq<(String, ToolCallState)>,
    from: int,
    id: Seq<char>,
    now: u128,
    timeout: u128,
    at: int,
) -> bool {
    from <= at < calls.len() && calls[at].0@ == id && calls[at].1.is_expired(now, timeout)
}

/// One of `calls` from `from` on has the identifier `id`, and has expired.
spec fn some_expired_from(
    calls: Seq<(String, ToolCallState)>,
    from: int,
    id: Seq<char>,
    now: u128,
    timeout: u128,
) -> bool {
    exists|at: int| expired_from(calls, from, id, now, timeout, at)
}

/// `ids` are those of the `calls` from `from` on that have expired.
spec fn names_expired(
    calls: Seq<(String, ToolCallState)>,
    from: int,
    ids: Seq<String>,
    now: u128,
    timeout: u128,
) -> bool {
    &&& ids_view(ids).no_duplicates()
    &&& forall|k: int|
        0 <= k < ids.len() ==> some_expired_from(
            calls,
            from,
            (#[trigger] ids[k])@,
            now,
            timeout,
        )
    &&& forall|at: int|
        from <= at < calls.len() && (#[trigger] calls[at]).1.is_expired(now, timeout)
            ==> ids_view(ids).contains(calls[at].0@)
}

/// One more of `calls` is looked at: it is kept if it has not expired.
proof fn keep_one_more(
    calls: Seq<(String, ToolCallState)>,
    from: int,
    kept: Seq<(String, ToolCallState)>,
    now: u128,
    timeout: u128,
)
    requires
        distinct(calls),
        0 < from <= calls.len(),
        keeps_unexpired(calls, from, kept, now, timeout),
    ensures
        keeps_unexpired(
            calls,
            from - 1,
            if calls[from - 1].1.is_expired(now, timeout) {
                kept
            } else {
                kept.push(calls[from - 1])
            },
            now,
            timeout,
        ),
{
    let prior = from - 1;
    let call = calls[prior];
    let more = if call.1.is_expired(now, timeout) {
        kept
    } else {
        kept.push(call)
    };
    assert forall|k: int| 0 <= k < more.len() implies !(#[trigger] more[k]).1.is_expired(
        now,
        timeout,
    ) && exists|at: int| stands_from(calls, prior, more[k], at) by {
        if k < kept.len() {
            let at = choose|at: int| stands_from(calls, from, kept[k], at);
            assert(stands_from(calls, prior, more[k], at));
        } else {
            assert(stands_from(calls, prior, more[k], prior));
        }
    }
    assert forall|at: int|
        from - 1 <= at < calls.len() && !(#[trigger] calls[at]).1.is_expired(
            now,
            timeout,
        ) implies exists|k: int| stands_from(more, 0, calls[at], k) by {
        if at == from - 1 {
            assert(stands_from(more, 0, calls[at], kept.len() as int));
        } else {
            let k = choose|k: int| stands_from(kept, 0, calls[at], k);
            assert(stands_from(more, 0, calls[at], k));
        }
    }
    assert forall|i: int, j: int|
        #![trigger more[i], more[j]]
        0 <= i < j < more.len() implies more[i].0@ != more[j].0@ by {
        if j < kept.len() {
            assert(kept[i].0@ != kept[j].0@);
        } else {
            let at = choose|at: int| stands_from(calls, from, kept[i], at);
            assert(calls[from - 1].0@ != calls[at].0@);
        }
    }
}

/// One more of `calls` is looked at: it is named if it has expired.
proof fn name_one_more(
    calls: Seq<(String, ToolCallState)>,
    from: int,
    ids: Seq<String>,
    now: u128,
    timeout: u128,
)
    requires
        distinct(calls),
        0 < from <= calls.len(),
        names_expired(calls, from, ids, now, timeout),
    ensures
        calls[from - 1].1.is_expired(now, timeout) ==> names_expired(
            calls,
            from - 1,
            ids.push(calls[from - 1].0),
            now,
            timeout,
        ),
        !calls[from - 1].1.is_expired(now, timeout) ==> names_expired(
            calls,
            from - 1,
            ids,
            now,
            timeout,
        ),
{
    let prior = from - 1;
    let call = calls[prior];
    let more = if call.1.is_expired(now, timeout) {
        ids.push(call.0)
    } else {
        ids
    };
    assert forall|k: int| 0 <= k < more.len() implies some_expired_from(
        calls,
        prior,
        (#[trigger] more[k])@,
        now,
        timeout,
    ) by {
        if k < ids.len() {
            let at = choose|at: int| expired_from(calls, from, ids[k]@, now, timeout, at);
            assert(expired_from(calls, prior, more[k]@, now, timeout, at));
        } else {
            assert(expired_from(calls, prior, more[k]@, now, timeout, prior));
        }
    }
    assert forall|at: int|
        from - 1 <= at < calls.len() && (#[trigger] calls[at]).1.is_expired(
            now,
            timeout,
        ) implies ids_view(more).contains(calls[at].0@) by {
        if at == from - 1 {
            assert(ids_view(more)[ids.len() as int] == calls[at].0@);
        } else {
            let k = choose|k: int| 0 <= k < ids.len() && ids_view(ids)[k] == calls[at].0@;
            assert(ids_view(more)[k] == calls[at].0@);
        }
    }
    assert forall|i: int, j: int|
        0 <= i < more.len() && 0 <= j < more.len() && i != j implies ids_view(more)[i]
        != ids_view(more)[j] by {
        let first = if i < j { i } else { j };
        let second = if i < j { j } else { i };
        if second < ids.len() {
            assert(ids_view(ids)[first] != ids_view(ids)[second]);
        } else {
            assert(ids[first] == more[first]);
            let at = choose|at: int| expired_from(calls, from, ids[first]@, now, timeout, at);
            assert(calls[from - 1].0@ != calls[at].0@);
        }
    }
    assert(ids_view(more).no_duplicates());
}

/// A call is pending under its own identifier.
proof fn pending_at(calls: Seq<(String, ToolCallState)>, at: int)
    requires
        distinct(calls),
        0 <= at < calls.len(),
    ensures
        pending_in(calls).contains_key(calls[at].0@),
        pending_in(calls)[calls[at].0@] == calls[at].1,
{
    let id = calls[at].0@;
    assert(has_id(calls, id, at));
    let found = choose|k: int| has_id(calls, id, k);
    assert(calls[found].0@ == calls[at].0@);
}

/// `calls` say that `pending` is pending, if it holds each of them and nothing
/// else.
proof fn pending_is(calls: Seq<(String, ToolCallState)>, pending: Pending)
    requires
        distinct(calls),
        forall|at: int|
            0 <= at < calls.len() ==> pending.contains_key((#[trigger] calls[at]).0@)
                && pending[calls[at].0@] == calls[at].1,
        forall|id: Seq<char>| #[trigger]
            pending.contains_key(id) ==> exists|at: int| has_id(calls, id, at),
    ensures
        pending_in(calls) == pending,
{
    assert forall|id: Seq<char>| pending_in(calls).contains_key(id) implies pending.contains_key(
        id,
    ) && pending[id] == pending_in(calls)[id] by {
        let at = choose|at: int| has_id(calls, id, at);
        assert(calls[at].0@ == id);
    }
    assert(pending_in(calls) =~= pending);
}

impl ToolCallManager {
    #[verifier::type_invariant]
    spec fn well_formed(self) -> bool {
        distinct(self.calls@)
    }

    /// A manager with nothing pending.
    pub fn new() -> (manager: Self)
        ensures
            manager@ == Map::<Seq<char>, ToolCallState>::empty(),
    {
        let manager = ToolCallManager { calls: Vec::new() };
        assert(manager@ =~= Map::<Seq<char>, ToolCallState>::empty());
        manager
    }

    /// The place of the call `id`.
    fn find(&self, id: &str) -> (at: Option<usize>)
        ensures
            at is Some <==> self@.contains_key(id@),
            at matches Some(k) ==> has_id(self.calls@, id@, k as int),
    {
        for k in 0..self.calls.len()
            invariant
                forall|j: int| 0 <= j < k ==> !has_id(self.calls@, id@, j),
        {
            if same_text(&self.calls[k].0, id) {
                assert(has_id(self.calls@, id@, k as int));
                return Some(k);
            }
        }
        None
    }

    /// Registers a pending tool call, in place of one with the same
    /// identifier.
    pub fn register(&mut self, tool_use_id: String, session: ClaudeWebState, now: u128)
        ensures
            final(self)@ == old(self)@.insert(
                tool_use_id@,
                ToolCallState { session, created_at: now },
            ),
    {
        proof {
            use_type_invariant(&*self);
        }
        let found = self.find(&tool_use_id);
        let ghost before = self.calls@;
        let ghost id = tool_use_id@;
        let state = ToolCallState { session, created_at: now };
        let mut calls: Vec<(String, ToolCallState)> = Vec::new();
        std::mem::swap(&mut calls, &mut self.calls);
        let at: usize = match found {
            Some(k) => k,
            None => calls.len(),
        };
        if at < calls.len() {
            calls.set(at, (tool_use_id, state));
        } else {
            calls.push((tool_use_id, state));
        }
        proof {
            let after = calls@;
            assert forall|i: int, j: int|
                #![trigger after[i], after[j]]
                0 <= i < j < after.len() implies after[i].0@ != after[j].0@ by {
                if i < before.len() && j < before.len() {
                    assert(before[i].0@ != before[j].0@);
                } else {
                    assert(!has_id(before, id, i));
                }
            }
            let pending = pending_in(before).insert(id, state);
            assert forall|k: int| 0 <= k < after.len() implies pending.contains_key(
                (#[trigger] after[k]).0@,
            ) && pending[after[k].0@] == after[k].1 by {
                if k != at {
                    pending_at(before, k);
                    assert(after[at as int].0@ == id);
                    assert(after[k].0@ != after[at as int].0@);
                }
            }
            assert forall|other: Seq<char>| #[trigger]
                pending.contains_key(other) implies exists|k: int| has_id(after, other, k) by {
                if other == id {
                    assert(has_id(after, id, at as int));
                } else {
                    let k = choose|k: int| has_id(before, other, k);
                    assert(has_id(after, other, k));
                }
            }
            pending_is(after, pending);
        }
        self.calls = calls;
    }

    /// Takes a pending tool call: it is pending no more.
    pub fn take(&mut self, tool_use_id: &str) -> (state: Option<ToolCallState>)
        ensures
            state is Some <==> old(self)@.contains_key(tool_use_id@),
            state matches Some(s) ==> s == old(self)@[tool_use_id@],
            final(self)@ == old(self)@.remove(tool_use_id@),
    {
        proof {
            use_type_invariant(&*self);
        }
        let ghost before = self.calls@;
        match self.find(tool_use_id) {
            Some(k) => {
                let mut calls: Vec<(String, ToolCallState)> = Vec::new();
                std::mem::swap(&mut calls, &mut self.calls);
                let (id, state) = calls.remove(k);
                proof {
                    let after = calls@;
                    pending_at(before, k as int);
                    assert forall|i: int, j: int|
                        #![trigger after[i], after[j]]
                        0 <= i < j < after.len() implies after[i].0@ != after[j].0@ by {
                        let i0 = if i < k { i } else { i + 1 };
                        let j0 = if j < k { j } else { j + 1 };
                        assert(before[i0].0@ != before[j0].0@);
                    }
                    let pending = pending_in(before).remove(tool_use_id@);
                    assert forall|i: int| 0 <= i < after.len() implies pending.contains_key(
                        (#[trigger] after[i]).0@,
                    ) && pending[after[i].0@] == after[i].1 by {
                        let i0 = if i < k { i } else { i + 1 };
                        pending_at(before, i0);
                        assert(before[i0].0@ != before[k as int].0@);
                    }
                    assert forall|other: Seq<char>| #[trigger]
                        pending.contains_key(other) implies exists|i: int|
                        has_id(after, other, i) by {
                        let i0 = choose|i: int| has_id(before, other, i);
                        assert(has_id(after, other, if i0 < k { i0 } else { i0 - 1 }));
                    }
                    pending_is(after, pending);
                }
                self.calls = calls;
                Some(state)
            },
            None => {
                assert(self@.remove(tool_use_id@) =~= self@);
                None
            },
        }
    }

    /// Drops the tool calls that have waited longer than `timeout`, and gives
    /// back their identifiers, in no particular order.
    pub fn cleanup(&mut self, now: u128, timeout: u128) -> (expired: Vec<String>)
        ensures
            final(self)@ == unexpired(old(self)@, now, timeout),
            ids_view(expired@).no_duplicates(),
            forall|id: Seq<char>| #[trigger]
                ids_view(expired@).contains(id) <==> old(self)@.contains_key(id)
                    && old(self)@[id].is_expired(now, timeout),
    {
        proof {
            use_type_invariant(&*self);
        }
        let ghost all = self.calls@;
        let mut calls: Vec<(String, ToolCallState)> = Vec::new();
        std::mem::swap(&mut calls, &mut self.calls);
        let mut kept: Vec<(String, ToolCallState)> = Vec::new();
        let mut expired: Vec<String> = Vec::new();
        while calls.len() > 0
            invariant
                distinct(all),
                calls@.len() <= all.len(),
                calls@ == all.take(calls@.len() as int),
                keeps_unexpired(all, calls@.len() as int, kept@, now, timeout),
                names_expired(all, calls@.len() as int, expired@, now, timeout),
            decreases calls.len(),
        {
            let ghost from = calls@.len() as int;
            proof {
                keep_one_more(all, from, kept@, now, timeout);
                name_one_more(all, from, expired@, now, timeout);
            }
            match calls.pop() {
                Some((id, state)) => {
                    assert(all[from - 1] == (id, state));
                    if now > state.created_at && now - state.created_at > timeout {
                        expired.push(id);
                    } else {
                        kept.push((id, state));
                    }
                },
                None => {},
            }
        }
        proof {
            let pending = unexpired(pending_in(all), now, timeout);
            assert forall|k: int| 0 <= k < kept@.len() implies pending.contains_key(
                (#[trigger] kept@[k]).0@,
            ) && pending[kept@[k].0@] == kept@[k].1 by {
                let at = choose|at: int| stands_from(all, 0, kept@[k], at);
                pending_at(all, at);
            }
            assert forall|id: Seq<char>| #[trigger]
                pending.contains_key(id) implies exists|k: int| has_id(kept@, id, k) by {
                let at = choose|at: int| has_id(all, id, at);
                pending_at(all, at);
                let k = choose|k: int| stands_from(kept@, 0, all[at], k);
                assert(has_id(kept@, id, k));
            }
            pending_is(kept@, pending);
            assert forall|id: Seq<char>| #[trigger]
                ids_view(expired@).contains(id) implies pending_in(all).contains_key(id)
                && pending_in(all)[id].is_expired(now, timeout) by {
                let k = choose|k: int| 0 <= k < expired@.len() && ids_view(expired@)[k] == id;
                assert(expired@[k]@ == id);
                let at = choose|at: int| expired_from(all, 0, expired@[k]@, now, timeout, at);
                pending_at(all, at);
            }
            assert forall|id: Seq<char>|
                pending_in(all).contains_key(id) && pending_in(all)[id].is_expired(
                    now,
                    timeout,
                ) implies #[trigger] ids_view(expired@).contains(id) by {
                let at = choose|at: int| has_id(all, id, at);
                pending_at(all, at);
            }
        }
        self.calls = kept;
        expired
    }
}

impl ClaudeWebState {
    /// Registers the session under a tool use, as it stands, for the result of
    /// the tool.
    pub fn register_call(&self, pending: &mut ToolCallManager, tool_use_id: String, now: u128)
        ensures
            waits_for_result(old(pending)@, final(pending)@, tool_use_id@, self@, now),
    {
        pending.register(tool_use_id, self.clone(), now);
        assert(pending@.dom() =~= old(pending)@.dom().insert(tool_use_id@));
    }
}

} // verus!
