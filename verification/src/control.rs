//! The playback orchestrator.
//!
//! One single-threaded controller merges three event streams — new track
//! requests, engine status notifications, and synchronous "what is playing"
//! queries — into one consistent view of active track, queue and history.
//! Each scheduling pass drains what is immediately available, reconciles the
//! latest engine status against user intent (the auto-play flag), and emits
//! the persistence writes and engine commands to perform; it never blocks.

use vstd::prelude::*;

use std::collections::VecDeque;

use crate::player_state::{
    last_state, EngineCommand, EngineEvent, NextPlayingState, PlayerState,
};
use crate::request::{Request, RequestView};

verus! {

/// How a request arrived: organic requests are fresh (from chat) and enter
/// the history store; synthetic ones replay a saved state and do not.
#[derive(Debug)]
pub enum SynthEvent<T> {
    Synthetic(T),
    Organic(T),
}

/// The track now playing, and how far into it playback has come.
#[derive(Debug)]
pub struct Active {
    /// The last known play position, in milliseconds.
    pub play_pos: Option<u32>,
    pub request: Request,
}

/// The mathematical value of an `Active`.
pub struct ActiveView {
    pub play_pos: Option<u32>,
    pub request: RequestView,
}

impl View for Active {
    type V = ActiveView;

    open spec fn view(&self) -> ActiveView {
        ActiveView { play_pos: self.play_pos, request: self.request@ }
    }
}

/// One persistence side effect for the history/queue store. The store is an
/// external collaborator; failures there are non-fatal and never block a
/// scheduling pass.
#[derive(Debug)]
pub enum StoreAction {
    /// Record the request in the history (a duplicate key increments its
    /// play counter).
    AddHistory { request: Request },
    /// Durably mark the request as queued.
    Queue { request: Request },
    /// Remove the request from the durable queue.
    RemoveFromQueue { request: Request },
}

/// A `StoreAction` with its request reduced to its mathematical value.
pub enum StoreActionView {
    AddHistory(RequestView),
    Queue(RequestView),
    RemoveFromQueue(RequestView),
}

/// The view of one store action.
pub open spec fn store_view(a: StoreAction) -> StoreActionView {
    match a {
        StoreAction::AddHistory { request } => StoreActionView::AddHistory(request@),
        StoreAction::Queue { request } => StoreActionView::Queue(request@),
        StoreAction::RemoveFromQueue { request } => StoreActionView::RemoveFromQueue(request@),
    }
}

/// The views of a sequence of store actions.
pub open spec fn store_views(s: Seq<StoreAction>) -> Seq<StoreActionView> {
    s.map_values(|a: StoreAction| store_view(a))
}

/// The request an arrival carries.
pub open spec fn req_of(e: SynthEvent<Request>) -> Request {
    match e {
        SynthEvent::Synthetic(r) => r,
        SynthEvent::Organic(r) => r,
    }
}

/// The store writes one arrival causes: an organic request enters the
/// history first; every request is durably marked queued before it is
/// placed into memory.
pub open spec fn ops_of(e: SynthEvent<Request>) -> Seq<StoreActionView> {
    match e {
        SynthEvent::Organic(r) => seq![
            StoreActionView::AddHistory(r@),
            StoreActionView::Queue(r@),
        ],
        SynthEvent::Synthetic(r) => seq![StoreActionView::Queue(r@)],
    }
}

/// The store writes a run of arrivals causes, in arrival order.
pub open spec fn store_ops_of(evs: Seq<SynthEvent<Request>>) -> Seq<StoreActionView>
    decreases evs.len(),
{
    if evs.len() == 0 {
        seq![]
    } else {
        store_ops_of(evs.drop_last()) + ops_of(evs.last())
    }
}

/// The active slot after a run of arrivals: an occupied slot stays; an
/// empty one takes the first arrival directly, bypassing the queue.
pub open spec fn active_after(active0: Option<Active>, evs: Seq<SynthEvent<Request>>) -> Option<
    Active,
> {
    if active0 is Some || evs.len() == 0 {
        active0
    } else {
        Some(Active { play_pos: None, request: req_of(evs[0]) })
    }
}

/// The requests a run of arrivals appends to the queue's tail: all of them,
/// except the first when it went into an empty active slot instead.
pub open spec fn tail_reqs(active0: Option<Active>, evs: Seq<SynthEvent<Request>>) -> Seq<
    Request,
> {
    if active0 is Some {
        evs.map_values(|e: SynthEvent<Request>| req_of(e))
    } else if evs.len() == 0 {
        seq![]
    } else {
        evs.skip(1).map_values(|e: SynthEvent<Request>| req_of(e))
    }
}

/// The playback orchestrator: the single owner of the active slot, the
/// FIFO queue and the auto-play flag.
pub struct Control {
    pub active: Option<Active>,
    pub queue: VecDeque<Request>,
    /// The most recent translated engine status.
    pub player_state: PlayerState,
    /// Whether playback was confirmed since the last replacement.
    pub next_playing: NextPlayingState,
    /// Whether the next queued track starts by itself when one ends.
    pub auto_play: bool,
}

impl Control {
    /// How many requests the active slot holds: zero or one, for every
    /// reachable state, by construction.
    pub open spec fn active_count(self) -> nat {
        match self.active {
            Some(_) => 1,
            None => 0,
        }
    }

    /// A fresh orchestrator: nothing active, nothing queued, auto-advance
    /// disarmed.
    pub fn new(auto_play: bool) -> (c: Control)
        ensures
            c.active is None,
            c.queue@ == Seq::<Request>::empty(),
            c.player_state == PlayerState::NotPlaying,
            c.next_playing == NextPlayingState::StopPlaying,
            c.auto_play == auto_play,
    {
        Control {
            active: None,
            queue: VecDeque::new(),
            player_state: PlayerState::NotPlaying,
            next_playing: NextPlayingState::StopPlaying,
            auto_play,
        }
    }

    /// Drain the engine's status notifications: translate each and keep the
    /// most recent; events that translate to nothing are dropped silently.
    pub fn read_state(&mut self, events: &Vec<EngineEvent>)
        ensures
            final(self).player_state == last_state(events@, old(self).player_state),
            final(self).active == old(self).active,
            final(self).queue == old(self).queue,
            final(self).next_playing == old(self).next_playing,
            final(self).auto_play == old(self).auto_play,
    {
        let n = events.len();
        let mut i: usize = 0;
        while i < n
            invariant
                i <= n,
                n == events@.len(),
                self.player_state == last_state(events@.take(i as int), old(self).player_state),
                self.active == old(self).active,
                self.queue == old(self).queue,
                self.next_playing == old(self).next_playing,
                self.auto_play == old(self).auto_play,
            decreases n - i,
        {
            let ev = events[i];
            if let Ok(state) = PlayerState::try_from(ev) {
                self.player_state = state;
            }
            proof {
                assert(events@.take(i as int + 1).drop_last() =~= events@.take(i as int));
                assert(events@.take(i as int + 1).last() == events@[i as int]);
            }
            i = i + 1;
        }
        proof {
            assert(events@.take(n as int) =~= events@);
        }
    }

    /// Answer a synchronous "what is currently playing" query: a snapshot
    /// of the active slot's request, never blocking on other work.
    pub fn current_request(&self) -> (r: Option<&Request>)
        ensures
            match self.active {
                Some(a) => r == Some(&a.request),
                None => r is None,
            },
    {
        match &self.active {
            Some(a) => Some(&a.request),
            None => None,
        }
    }

    /// Drain newly arrived requests. Organic requests are recorded in the
    /// history, and every request's durable queued mark is emitted before
    /// anything else can concern it: the returned writes stand in arrival
    /// order, and the caller must apply them before acting on any later
    /// output of the pass, so the store has seen an item queued before the
    /// item has any effect, and a crash cannot lose an item the store
    /// believes is queued. An arrival fills an empty active slot directly;
    /// otherwise it joins the queue's tail.
    pub fn read_events(&mut self, arrivals: Vec<SynthEvent<Request>>) -> (store: Vec<StoreAction>)
        ensures
            final(self).active == active_after(old(self).active, arrivals@),
            final(self).queue@ == old(self).queue@ + tail_reqs(old(self).active, arrivals@),
            store_views(store@) == store_ops_of(arrivals@),
            final(self).player_state == old(self).player_state,
            final(self).next_playing == old(self).next_playing,
            final(self).auto_play == old(self).auto_play,
    {
        let ghost all = arrivals@;
        let mut arrivals = arrivals;
        let mut store: Vec<StoreAction> = Vec::new();
        let ghost mut i: int = 0;
        proof {
            assert(store_views(store@) =~= store_ops_of(all.take(0)));
            assert(self.queue@ =~= old(self).queue@ + tail_reqs(old(self).active, all.take(0)));
        }
        while arrivals.len() > 0
            invariant
                0 <= i <= all.len(),
                arrivals@ == all.skip(i),
                self.active == active_after(old(self).active, all.take(i)),
                self.queue@ == old(self).queue@ + tail_reqs(old(self).active, all.take(i)),
                store_views(store@) == store_ops_of(all.take(i)),
                self.player_state == old(self).player_state,
                self.next_playing == old(self).next_playing,
                self.auto_play == old(self).auto_play,
            decreases arrivals@.len(),
        {
            let ev = arrivals.remove(0);
            proof {
                assert(ev == all[i]);
                assert(arrivals@ =~= all.skip(i + 1));
            }
            let req = match ev {
                SynthEvent::Organic(r) => {
                    store.push(StoreAction::AddHistory { request: r.clone() });
                    r
                },
                SynthEvent::Synthetic(r) => r,
            };
            store.push(StoreAction::Queue { request: req.clone() });
            let slot_empty = self.active.is_none();
            if slot_empty {
                self.active = Some(Active { play_pos: None, request: req });
            } else {
                self.queue.push_back(req);
            }
            proof {
                assert(all.take(i + 1).drop_last() =~= all.take(i));
                assert(all.take(i + 1).last() == all[i]);
                assert(store_views(store@) =~= store_ops_of(all.take(i + 1)));
                assert(self.queue@ =~= old(self).queue@ + tail_reqs(
                    old(self).active,
                    all.take(i + 1),
                )) by {
                    if old(self).active is Some {
                        assert(tail_reqs(old(self).active, all.take(i + 1)) =~= tail_reqs(
                            old(self).active,
                            all.take(i),
                        ).push(req_of(all[i])));
                    } else {
                        if i == 0 {
                            assert(tail_reqs(old(self).active, all.take(1)) =~= Seq::<
                                Request,
                            >::empty());
                        } else {
                            assert(tail_reqs(old(self).active, all.take(i + 1)) =~= tail_reqs(
                                old(self).active,
                                all.take(i),
                            ).push(req_of(all[i])));
                        }
                    }
                };
            }
            proof {
                i = i + 1;
            }
        }
        proof {
            assert(all.skip(i) =~= Seq::<SynthEvent<Request>>::empty());
            assert(i == all.len());
            assert(all.take(i) =~= all);
        }
        store
    }

    /// Reconcile the most recent engine status against user intent,
    /// exactly as `check_state_post` states.
    pub fn check_state(&mut self, replace: &mut Option<Request>) -> (cmds: Vec<EngineCommand>)
        ensures
            check_state_post(*old(self), *old(replace), *final(self), *final(replace), cmds@),
    {
        let mut cmds: Vec<EngineCommand> = Vec::new();
        let ps = self.player_state;
        match ps {
            PlayerState::Playing { .. } => {
                self.next_playing = NextPlayingState::Playing;
            }
            PlayerState::EndOfPlaying { .. } => {
                if matches!(self.next_playing, NextPlayingState::Playing) && self.auto_play {
                    match &mut self.active {
                        Some(a) => {
                            a.play_pos = None;
                        },
                        None => {},
                    }
                    *replace = self.queue.pop_front();
                }
            }
            PlayerState::PreloadNextTrack { req_id, .. } => {
                if self.queue.len() > 0 {
                    cmds.push(EngineCommand::Preload { track_id: self.queue[0].track_id });
                }
                match &self.active {
                    Some(a) => {
                        let pos = match a.play_pos {
                            Some(p) => p,
                            None => 0,
                        };
                        let prev_req_id = if req_id == 0 {
                            0
                        } else {
                            req_id - 1
                        };
                        self.player_state = PlayerState::Playing {
                            req_id: prev_req_id,
                            pos,
                            id: a.request.track_id,
                        };
                    },
                    None => {},
                }
            }
            PlayerState::Seeked { pos, id, req_id } => {
                match &mut self.active {
                    Some(a) => {
                        a.play_pos = Some(pos);
                    },
                    None => {},
                }
                self.player_state = PlayerState::Playing { req_id, pos, id };
            }
            _ => {}
        }
        proof {
            broadcast use vstd::std_specs::vecdeque::group_vec_dequeue_axioms;

            if old(self).player_state is EndOfPlaying && old(self).next_playing
                is Playing && old(self).auto_play && old(self).queue@.len() > 0 {
                assert(final(self).queue@ =~= old(self).queue@.skip(1));
            }
            assert(cmds@ =~= check_cmds(*old(self)));
        }
        cmds
    }

    /// Apply a pending replacement: the replacement leaves the durable
    /// queue, becomes the active track, the engine is stopped and — under
    /// auto-play — told to load and play it from the start; the armed
    /// auto-advance is reset so a stale `Playing` cannot advance twice.
    pub fn handle_replace(&mut self, replace: Option<Request>) -> (out: (
        Vec<StoreAction>,
        Vec<EngineCommand>,
    ))
        ensures
            handle_replace_post(*old(self), replace, *final(self), out.0@, out.1@),
    {
        let mut store: Vec<StoreAction> = Vec::new();
        let mut cmds: Vec<EngineCommand> = Vec::new();
        let request = match replace {
            Some(request) => request,
            None => {
                proof {
                    assert(store_views(store@) =~= Seq::<StoreActionView>::empty());
                }
                return (store, cmds);
            },
        };
        store.push(StoreAction::RemoveFromQueue { request: request.clone() });
        cmds.push(EngineCommand::Stop);
        self.next_playing = NextPlayingState::StopPlaying;
        if self.auto_play {
            cmds.push(EngineCommand::Load {
                track_id: request.track_id,
                autostart: true,
                start_position_ms: 0,
            });
            cmds.push(EngineCommand::Play);
        }
        self.active = Some(Active { play_pos: None, request });
        proof {
            assert(store_views(store@) =~= seq![
                StoreActionView::RemoveFromQueue(replace->Some_0@),
            ]);
            assert(cmds@ =~= replace_cmds(*old(self), replace)->Some_0);
        }
        (store, cmds)
    }
}

/// Everything one scheduling pass asks its surroundings to perform, each
/// in emission order. The caller applies `store` first, `engine` second:
/// the pass's durable queue marks must reach the store before any engine
/// command acts on the items they mark.
pub struct TickOutput {
    pub store: Vec<StoreAction>,
    pub engine: Vec<EngineCommand>,
}

/// What draining the engine's status notifications does.
pub open spec fn read_state_post(pre: Control, events: Seq<EngineEvent>, post: Control) -> bool {
    &&& post.player_state == last_state(events, pre.player_state)
    &&& post.active == pre.active
    &&& post.queue == pre.queue
    &&& post.next_playing == pre.next_playing
    &&& post.auto_play == pre.auto_play
}

/// What draining the arrived requests does.
pub open spec fn read_events_post(
    pre: Control,
    arrivals: Seq<SynthEvent<Request>>,
    post: Control,
    store: Seq<StoreAction>,
) -> bool {
    &&& post.active == active_after(pre.active, arrivals)
    &&& post.queue@ == pre.queue@ + tail_reqs(pre.active, arrivals)
    &&& store_views(store) == store_ops_of(arrivals)
    &&& post.player_state == pre.player_state
    &&& post.next_playing == pre.next_playing
    &&& post.auto_play == pre.auto_play
}

/// What one whole scheduling pass does: drain the engine's status, drain
/// the arrivals, reconcile the latest status, and apply the replacement the
/// reconciliation produced, in that order; the pass's outputs are the two
/// stages' outputs concatenated in order.
pub open spec fn tick_post(
    pre: Control,
    events: Seq<EngineEvent>,
    arrivals: Seq<SynthEvent<Request>>,
    post: Control,
    store: Seq<StoreAction>,
    engine: Seq<EngineCommand>,
) -> bool {
    exists|
        s1: Control,
        s2: Control,
        s3: Control,
        rep: Option<Request>,
        st1: Seq<StoreAction>,
        st2: Seq<StoreAction>,
        c1: Seq<EngineCommand>,
        c2: Seq<EngineCommand>,
    |
        {
            &&& #[trigger] read_state_post(pre, events, s1)
            &&& #[trigger] read_events_post(s1, arrivals, s2, st1)
            &&& #[trigger] check_state_post(s2, None::<Request>, s3, rep, c1)
            &&& #[trigger] handle_replace_post(s3, rep, post, st2, c2)
            &&& store == st1 + st2
            &&& engine == c1 + c2
        }
}

impl Control {
    /// One scheduling pass: non-blocking, over what the caller already
    /// drained from each source. The caller performs the returned store
    /// writes first and the engine commands after them, each in order, so
    /// that an arrival's durable queued mark precedes every effect of the
    /// item it marks.
    pub fn tick(&mut self, events: &Vec<EngineEvent>, arrivals: Vec<SynthEvent<Request>>) -> (out:
        TickOutput)
        ensures
            tick_post(*old(self), events@, arrivals@, *final(self), out.store@, out.engine@),
            final(self).auto_play == old(self).auto_play,
    {
        self.read_state(events);
        let ghost s1 = *self;
        let mut store = self.read_events(arrivals);
        let ghost s2 = *self;
        let ghost st1 = store@;
        let mut replace: Option<Request> = None;
        let mut engine = self.check_state(&mut replace);
        let ghost s3 = *self;
        let ghost rep = replace;
        let ghost c1 = engine@;
        let (mut store2, mut engine2) = self.handle_replace(replace);
        let ghost st2 = store2@;
        let ghost c2 = engine2@;
        store.append(&mut store2);
        engine.append(&mut engine2);
        proof {
            assert(read_state_post(*old(self), events@, s1));
            assert(read_events_post(s1, arrivals@, s2, st1));
            assert(check_state_post(s2, None::<Request>, s3, rep, c1));
            assert(handle_replace_post(s3, rep, *self, st2, c2));
            assert(store@ == st1 + st2);
            assert(engine@ == c1 + c2);
        }
        TickOutput { store, engine }
    }
}

/// At most one active track: for every orchestrator state, the active slot
/// holds zero or one request, by construction.
pub proof fn lemma_at_most_one_active(c: Control)
    ensures
        c.active_count() <= 1,
{
}

/// No spurious auto-advance: an end-of-track status in a cycle that never
/// saw `Playing` (the auto-advance is disarmed) leaves the queue, the
/// active slot and the pending replacement exactly as they were, and
/// commands nothing.
pub proof fn lemma_no_spurious_auto_advance(
    pre: Control,
    replace0: Option<Request>,
    post: Control,
    replace: Option<Request>,
    cmds: Seq<EngineCommand>,
)
    requires
        check_state_post(pre, replace0, post, replace, cmds),
        pre.player_state is EndOfPlaying,
        !(pre.next_playing is Playing),
    ensures
        post == pre,
        replace == replace0,
        cmds == Seq::<EngineCommand>::empty(),
{
}

/// Queue FIFO order preserved, across any interleaving of request arrivals
/// and advances: one scheduling pass appends the pass's queued arrivals, in
/// arrival order, at the tail, and removes at most one item, from the head.
/// Items therefore dequeue in the order they were enqueued.
pub proof fn lemma_queue_fifo(
    pre: Control,
    events: Seq<EngineEvent>,
    arrivals: Seq<SynthEvent<Request>>,
    post: Control,
    store: Seq<StoreAction>,
    engine: Seq<EngineCommand>,
)
    requires
        tick_post(pre, events, arrivals, post, store, engine),
    ensures
        exists|k: int|
            {
                &&& 0 <= k <= 1
                &&& k <= (pre.queue@ + tail_reqs(pre.active, arrivals)).len()
                &&& post.queue@ == #[trigger] (pre.queue@ + tail_reqs(pre.active, arrivals)).skip(
                    k,
                )
            },
{
    let (s1, s2, s3, rep, st1, st2, c1, c2) = choose|
        s1: Control,
        s2: Control,
        s3: Control,
        rep: Option<Request>,
        st1: Seq<StoreAction>,
        st2: Seq<StoreAction>,
        c1: Seq<EngineCommand>,
        c2: Seq<EngineCommand>,
    |
        {
            &&& #[trigger] read_state_post(pre, events, s1)
            &&& #[trigger] read_events_post(s1, arrivals, s2, st1)
            &&& #[trigger] check_state_post(s2, None::<Request>, s3, rep, c1)
            &&& #[trigger] handle_replace_post(s3, rep, post, st2, c2)
            &&& store == st1 + st2
            &&& engine == c1 + c2
        };
    let grown = pre.queue@ + tail_reqs(pre.active, arrivals);
    assert(s2.queue@ == grown);
    if check_advances(s2) && s2.queue@.len() > 0 {
        assert(post.queue@ == grown.skip(1));
    } else {
        assert(post.queue@ =~= grown.skip(0));
    }
}

/// The active slot with its play position cleared.
pub open spec fn clear_pos(a: Option<Active>) -> Option<Active> {
    match a {
        Some(act) => Some(Active { play_pos: None, request: act.request }),
        None => None,
    }
}

/// The active slot with its play position set.
pub open spec fn set_pos(a: Option<Active>, pos: u32) -> Option<Active> {
    match a {
        Some(act) => Some(Active { play_pos: Some(pos), request: act.request }),
        None => None,
    }
}

/// A play position, defaulting to the track's start.
pub open spec fn pos_of(p: Option<u32>) -> u32 {
    match p {
        Some(v) => v,
        None => 0,
    }
}

/// Whether the reconciliation advances the queue: only an end-of-track
/// notification, in an armed cycle, under auto-play.
pub open spec fn check_advances(pre: Control) -> bool {
    pre.player_state is EndOfPlaying && pre.next_playing is Playing && pre.auto_play
}

/// The engine commands the reconciliation emits: one preload for the
/// queue's head, when the engine asked to preload and a head exists.
pub open spec fn check_cmds(pre: Control) -> Seq<EngineCommand> {
    if pre.player_state is PreloadNextTrack && pre.queue@.len() > 0 {
        seq![EngineCommand::Preload { track_id: pre.queue@[0].track_id }]
    } else {
        seq![]
    }
}

/// What one reconciliation pass does, given the state after the drains:
///
/// - `Playing` arms the auto-advance.
/// - `EndOfPlaying` in an armed cycle under auto-play clears the active
///   play position and pops the queue's head into the replacement slot.
/// - `PreloadNextTrack` asks the engine to preload the queue's head, and —
///   when a track is active — synthesizes a `Playing` status for the
///   previous correlation number carrying the active track's last known
///   position (the engine's numbering drifts by one during preload).
/// - `Seeked` moves the active play position and is then treated as
///   `Playing` at that position.
/// - every other status changes nothing.
pub open spec fn check_state_post(
    pre: Control,
    replace0: Option<Request>,
    post: Control,
    replace: Option<Request>,
    cmds: Seq<EngineCommand>,
) -> bool {
    &&& post.auto_play == pre.auto_play
    &&& cmds == check_cmds(pre)
    &&& match pre.player_state {
        PlayerState::Playing { .. } => {
            &&& post == Control { next_playing: NextPlayingState::Playing, ..pre }
            &&& replace == replace0
        },
        PlayerState::EndOfPlaying { .. } => if check_advances(pre) {
            &&& post.active == clear_pos(pre.active)
            &&& post.queue@ == if pre.queue@.len() > 0 {
                pre.queue@.skip(1)
            } else {
                pre.queue@
            }
            &&& replace == if pre.queue@.len() > 0 {
                Some(pre.queue@[0])
            } else {
                None::<Request>
            }
            &&& post.player_state == pre.player_state
            &&& post.next_playing == pre.next_playing
        } else {
            &&& post == pre
            &&& replace == replace0
        },
        PlayerState::PreloadNextTrack { req_id, .. } => {
            &&& post.active == pre.active
            &&& post.queue@ == pre.queue@
            &&& post.next_playing == pre.next_playing
            &&& replace == replace0
            &&& post.player_state == match pre.active {
                Some(a) => PlayerState::Playing {
                    req_id: if req_id == 0 {
                        0u64
                    } else {
                        (req_id - 1) as u64
                    },
                    pos: pos_of(a.play_pos),
                    id: a.request.track_id,
                },
                None => pre.player_state,
            }
        },
        PlayerState::Seeked { pos, id, req_id } => {
            &&& post.active == set_pos(pre.active, pos)
            &&& post.queue@ == pre.queue@
            &&& post.next_playing == pre.next_playing
            &&& replace == replace0
            &&& post.player_state == PlayerState::Playing { req_id, pos, id }
        },
        _ => {
            &&& post == pre
            &&& replace == replace0
        },
    }
}

/// The engine commands a replacement emits: stop, then — under auto-play —
/// load the replacement from the start and play it.
pub open spec fn replace_cmds(pre: Control, replace: Option<Request>) -> Option<
    Seq<EngineCommand>,
> {
    match replace {
        None => None,
        Some(request) => Some(
            if pre.auto_play {
                seq![
                    EngineCommand::Stop,
                    EngineCommand::Load {
                        track_id: request.track_id,
                        autostart: true,
                        start_position_ms: 0,
                    },
                    EngineCommand::Play,
                ]
            } else {
                seq![EngineCommand::Stop]
            },
        ),
    }
}

/// What applying a replacement does: nothing without one; with one, the
/// replacement is removed from the durable queue, promoted into the active
/// slot with its position reset, the auto-advance is disarmed, and the
/// engine is commanded as `replace_cmds` states.
pub open spec fn handle_replace_post(
    pre: Control,
    replace: Option<Request>,
    post: Control,
    store: Seq<StoreAction>,
    cmds: Seq<EngineCommand>,
) -> bool {
    match replace {
        None => {
            &&& post == pre
            &&& store == Seq::<StoreAction>::empty()
            &&& cmds == Seq::<EngineCommand>::empty()
        },
        Some(request) => {
            &&& post.active == Some(Active { play_pos: None, request })
            &&& post.queue@ == pre.queue@
            &&& post.player_state == pre.player_state
            &&& post.next_playing == NextPlayingState::StopPlaying
            &&& post.auto_play == pre.auto_play
            &&& store_views(store) == seq![StoreActionView::RemoveFromQueue(request@)]
            &&& cmds == replace_cmds(pre, replace)->Some_0
        },
    }
}

} // verus!
