//! The screen registry and dispatcher.
//!
//! A [`ScreenManager`] maps each [`ScreenId`] to one owned screen instance
//! and remembers which identifier is currently active. Once per rendered
//! frame the surrounding loop calls [`ScreenManager::update_current_screen`],
//! which advances exactly the active screen and honours a switch request the
//! screen may return.

use vstd::prelude::*;

verus! {

/// The closed set of identifiers naming each selectable screen.
#[derive(Clone, Copy, Debug, PartialEq, Eq, Hash, Structural)]
pub enum ScreenId {
    Chat,
    Home,
    Settings,
}

/// The capability every screen offers: advance by one frame.
///
/// `update` receives an opaque rendering context handle, the mutable drawing
/// surface for this frame, and a handle to the shared application store; the
/// three handle types are chosen by the implementor and are never inspected
/// by the dispatcher. A screen returns `None` to stay active and
/// `Some(id)` to request that `id` become active from the next frame on.
/// Nothing is promised of the result: each screen decides for itself.
pub trait Screen {
    type Context;
    type Surface;
    type Store;

    fn update(
        &mut self,
        ctx: &Self::Context,
        ui: &mut Self::Surface,
        store: &Self::Store,
    ) -> Option<ScreenId>;
}

/// The identifier that a switch request for `target` leaves active, when the
/// registered identifiers are `ids` and `current` was active: the target if
/// it is registered, the previous identifier otherwise.
pub open spec fn switch_outcome(ids: Seq<ScreenId>, current: ScreenId, target: ScreenId) -> ScreenId {
    if ids.contains(target) {
        target
    } else {
        current
    }
}

/// The identifier left active by one frame whose screen returned `request`.
pub open spec fn step_outcome(
    ids: Seq<ScreenId>,
    current: ScreenId,
    request: Option<ScreenId>,
) -> ScreenId {
    match request {
        None => current,
        Some(target) => switch_outcome(ids, current, target),
    }
}

/// The identifier left active by a whole run of frames whose screens
/// returned `requests`, in order.
pub open spec fn run_outcome(
    ids: Seq<ScreenId>,
    current: ScreenId,
    requests: Seq<Option<ScreenId>>,
) -> ScreenId
    decreases requests.len(),
{
    if requests.len() == 0 {
        current
    } else {
        run_outcome(ids, step_outcome(ids, current, requests[0]), requests.skip(1))
    }
}

/// The registry of screens and the currently active identifier.
///
/// The registry is built once, with exactly one screen per identifier, and
/// its set of entries never changes afterwards; only the screens' own state
/// and the active identifier do.
pub struct ScreenManager<S> {
    screens: Vec<(ScreenId, S)>,
    current_screen_id: ScreenId,
}

impl<S: Screen> ScreenManager<S> {
    /// The registry's entries: each registered identifier with its screen.
    pub closed spec fn entries(self) -> Seq<(ScreenId, S)> {
        self.screens@
    }

    /// The currently active identifier.
    pub closed spec fn current(self) -> ScreenId {
        self.current_screen_id
    }

    /// The registered identifiers, in registration order.
    pub open spec fn ids(self) -> Seq<ScreenId> {
        self.entries().map_values(|e: (ScreenId, S)| e.0)
    }

    /// Whether a screen is registered under `id`.
    pub open spec fn registered(self, id: ScreenId) -> bool {
        self.ids().contains(id)
    }

    /// Well-formedness: every identifier of the closed enumeration is
    /// registered, no identifier twice, and the active identifier is
    /// registered. Constructors establish this and every method keeps it.
    pub open spec fn wf(self) -> bool {
        &&& self.registered(ScreenId::Home)
        &&& self.registered(ScreenId::Chat)
        &&& self.registered(ScreenId::Settings)
        &&& self.registered(self.current())
        &&& forall|i: int, j: int|
            0 <= i < j < self.entries().len() ==> self.entries()[i].0 != self.entries()[j].0
    }

    /// Builds the registry: one screen per identifier, Home active first.
    ///
    /// This is the only place screen instances enter the registry; there is
    /// no dynamic registration afterwards.
    pub fn new(home: S, chat: S, settings: S) -> (r: Self)
        ensures
            r.wf(),
            r.current() == ScreenId::Home,
            r.entries() == seq![
                (ScreenId::Home, home),
                (ScreenId::Chat, chat),
                (ScreenId::Settings, settings),
            ],
    {
        let mut screens: Vec<(ScreenId, S)> = Vec::new();
        screens.push((ScreenId::Home, home));
        screens.push((ScreenId::Chat, chat));
        screens.push((ScreenId::Settings, settings));
        let r = ScreenManager { screens, current_screen_id: ScreenId::Home };
        proof {
            assert(r.ids() =~= seq![ScreenId::Home, ScreenId::Chat, ScreenId::Settings]);
        }
        r
    }

    /// Makes `screen_id` the active identifier, if a screen is registered
    /// under it; an unregistered identifier is ignored and nothing changes.
    ///
    /// The guard is defensive: in a well-formed registry every identifier of
    /// the closed enumeration is registered, so the request always succeeds
    /// there, but the guard is checked rather than assumed.
    pub fn switch_screen(&mut self, screen_id: ScreenId)
        ensures
            final(self).entries() == old(self).entries(),
            final(self).current() == switch_outcome(
                old(self).ids(),
                old(self).current(),
                screen_id,
            ),
            old(self).wf() ==> final(self).wf(),
    {
        if self.contains_screen(screen_id) {
            self.current_screen_id = screen_id;
        }
    }

    /// Applies the request a screen returned from one frame: a switch for
    /// `Some(id)` (honoured only if `id` is registered), nothing for `None`.
    ///
    /// [`Self::update_current_screen`] cannot promise which request the
    /// active screen returns; this function states exactly what each
    /// possible request does to the registry.
    pub fn apply_request(&mut self, request: Option<ScreenId>)
        ensures
            final(self).entries() == old(self).entries(),
            final(self).current() == step_outcome(
                old(self).ids(),
                old(self).current(),
                request,
            ),
            old(self).wf() ==> final(self).wf(),
    {
        if let Some(new_id) = request {
            self.switch_screen(new_id);
        }
    }

    /// Reads the currently active identifier.
    pub fn current_screen_id(&self) -> (r: ScreenId)
        ensures
            r == self.current(),
    {
        self.current_screen_id
    }

    /// Advances the active screen by one frame and honours its switch
    /// request, if it makes one.
    ///
    /// The screen registered under the active identifier is looked up and
    /// its `update` is invoked exactly once, with the handles given here; no
    /// other screen is touched. If the call returns `Some(id)`, the registry
    /// switches to `id` at once, so the switch is visible to the next
    /// frame's dispatch, not to the one in progress. Should the active
    /// identifier be unregistered (impossible in a well-formed registry),
    /// the frame is a silent no-op.
    ///
    /// What the screen draws on `ui` and what it returns are its own: the
    /// contract therefore fixes the new active identifier as a function of
    /// the request, without fixing the request.
    pub fn update_current_screen(
        &mut self,
        ctx: &S::Context,
        ui: &mut S::Surface,
        store: &S::Store,
    )
        ensures
            final(self).ids() == old(self).ids(),
            exists|request: Option<ScreenId>|
                final(self).current() == step_outcome(
                    old(self).ids(),
                    old(self).current(),
                    request,
                ),
            forall|k: int|
                0 <= k < old(self).entries().len()
                    && old(self).entries()[k].0 != old(self).current()
                    ==> final(self).entries()[k] == old(self).entries()[k],
            !old(self).registered(old(self).current()) ==> *final(self) == *old(self),
            old(self).wf() ==> final(self).wf(),
    {
        let current = self.current_screen_id;
        match self.find_screen_index(current) {
            Some(i) => {
                let request = self.screens[i].1.update(ctx, ui, store);
                proof {
                    assert(self.ids() =~= old(self).ids());
                }
                self.apply_request(request);
            },
            None => {
                // Defensive branch: the active identifier has no screen, so
                // the frame changes nothing.
                proof {
                    assert(self.current() == step_outcome(
                        old(self).ids(),
                        old(self).current(),
                        None::<ScreenId>,
                    ));
                }
            },
        }
    }

    /// Whether a screen is registered under `screen_id`.
    pub fn contains_screen(&self, screen_id: ScreenId) -> (r: bool)
        ensures
            r == self.registered(screen_id),
    {
        self.find_screen_index(screen_id).is_some()
    }

    /// Finds the position of the screen registered under `screen_id`.
    fn find_screen_index(&self, screen_id: ScreenId) -> (r: Option<usize>)
        ensures
            match r {
                Some(i) => i < self.entries().len() && self.entries()[i as int].0 == screen_id
                    && self.registered(screen_id),
                None => !self.registered(screen_id),
            },
    {
        let mut i: usize = 0;
        while i < self.screens.len()
            invariant
                i <= self.screens@.len(),
                forall|k: int| 0 <= k < i ==> self.screens@[k].0 != screen_id,
            decreases self.screens@.len() - i,
        {
            if self.screens[i].0 == screen_id {
                proof {
                    assert(self.ids()[i as int] == screen_id);
                }
                return Some(i);
            }
            i = i + 1;
        }
        proof {
            assert forall|k: int| 0 <= k < self.ids().len() implies self.ids()[k] != screen_id by {
                assert(self.ids()[k] == self.screens@[k].0);
            }
        }
        None
    }
}

impl<S: Screen + Default> Default for ScreenManager<S> {
    /// Builds the registry from each screen type's default value, one
    /// instance per identifier, with Home active.
    fn default() -> (r: Self)
        ensures
            r.wf(),
            r.current() == ScreenId::Home,
            r.ids() == seq![ScreenId::Home, ScreenId::Chat, ScreenId::Settings],
    {
        let r = ScreenManager::new(S::default(), S::default(), S::default());
        proof {
            assert(r.ids() =~= seq![ScreenId::Home, ScreenId::Chat, ScreenId::Settings]);
        }
        r
    }
}

/// Law: the registry's mapping is total. In a well-formed registry every
/// identifier of the closed enumeration is registered, so a lookup of any
/// identifier finds a screen.
pub proof fn lemma_wf_registry_is_total<S: Screen>(m: ScreenManager<S>, id: ScreenId)
    requires
        m.wf(),
    ensures
        m.registered(id),
{
    match id {
        ScreenId::Chat => {},
        ScreenId::Home => {},
        ScreenId::Settings => {},
    }
}

/// Law: a switch request for a registered identifier takes effect.
pub proof fn lemma_switch_to_registered(ids: Seq<ScreenId>, current: ScreenId, target: ScreenId)
    requires
        ids.contains(target),
    ensures
        switch_outcome(ids, current, target) == target,
{
}

/// Law: a switch request for an unregistered identifier is a no-op; the
/// previously active identifier stays active.
pub proof fn lemma_switch_to_unregistered(ids: Seq<ScreenId>, current: ScreenId, target: ScreenId)
    requires
        !ids.contains(target),
    ensures
        switch_outcome(ids, current, target) == current,
{
}

/// Law: a frame whose screen requests no transition leaves the active
/// identifier unchanged.
pub proof fn lemma_frame_without_request(ids: Seq<ScreenId>, current: ScreenId)
    ensures
        step_outcome(ids, current, None) == current,
{
}

/// Law: a frame whose screen requests a registered transition activates the
/// requested identifier.
pub proof fn lemma_frame_with_request(ids: Seq<ScreenId>, current: ScreenId, target: ScreenId)
    requires
        ids.contains(target),
    ensures
        step_outcome(ids, current, Some(target)) == target,
{
}

/// Law: any number of consecutive frames in which no screen requests a
/// transition leaves the active identifier unchanged throughout.
pub proof fn lemma_run_without_requests(
    ids: Seq<ScreenId>,
    current: ScreenId,
    requests: Seq<Option<ScreenId>>,
)
    requires
        forall|k: int| 0 <= k < requests.len() ==> requests[k] is None,
    ensures
        run_outcome(ids, current, requests) == current,
    decreases requests.len(),
{
    if requests.len() > 0 {
        assert(requests[0] is None);
        let rest = requests.skip(1);
        assert forall|k: int| 0 <= k < rest.len() implies rest[k] is None by {
            assert(rest[k] == requests[k + 1]);
        }
        lemma_run_without_requests(ids, current, rest);
    }
}

} // verus!
