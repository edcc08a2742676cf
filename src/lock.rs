//! The access serializer.
//!
//! The native library is not reentrant and keeps global state, so every native call must be made
//! by the holder of an access token. [`SpiceLock`] is the bookkeeping of a reentrant lock: one
//! thread at a time may hold it, any number of times over. A [`Spice`] token is minted only by a
//! successful acquisition and is given back on release.
use vstd::prelude::*;

verus! {

/// The abstract state of a [`SpiceLock`].
pub ghost struct LockView {
    /// The thread that holds access, if any.
    pub owner: Option<u64>,
    /// How many acquisitions the owner has not released yet.
    pub depth: nat,
    /// Whether the native library has been given its one-time setup.
    pub initialised: bool,
}

/// One call on the serializer, by the thread it names.
pub ghost enum LockEvent {
    Acquire(u64),
    Release(u64),
}

impl LockView {
    /// The state of a lock that nobody has touched.
    pub open spec fn initial() -> LockView {
        LockView { owner: None, depth: 0, initialised: false }
    }

    /// The owner and the depth agree, and a held lock has set the library up.
    pub open spec fn wf(self) -> bool {
        &&& (self.owner is None) == (self.depth == 0)
        &&& self.depth > 0 ==> self.initialised
    }

    /// The next acquisition is the first of the lock's lifetime.
    pub open spec fn sets_up(self) -> bool {
        self.depth == 0 && !self.initialised
    }

    /// `thread` holds access.
    pub open spec fn holds(self, thread: u64) -> bool {
        self.owner == Some(thread) && self.depth > 0
    }

    /// Whether `thread` may acquire now without waiting.
    pub open spec fn available_to(self, thread: u64) -> bool {
        self.depth == 0 || self.owner == Some(thread)
    }

    /// The state after `event`. A refused acquisition or release leaves the state as it was.
    pub open spec fn after(self, event: LockEvent) -> LockView {
        match event {
            LockEvent::Acquire(t) => {
                if self.depth == 0 {
                    LockView { owner: Some(t), depth: 1, initialised: true }
                } else if self.owner == Some(t) {
                    LockView { depth: self.depth + 1, ..self }
                } else {
                    self
                }
            },
            LockEvent::Release(t) => {
                if !self.holds(t) {
                    self
                } else if self.depth == 1 {
                    LockView { owner: None, depth: 0, ..self }
                } else {
                    LockView { depth: (self.depth - 1) as nat, ..self }
                }
            },
        }
    }

    /// The state after `events`, in order.
    pub open spec fn run(self, events: Seq<LockEvent>) -> LockView
        decreases events.len(),
    {
        if events.len() == 0 {
            self
        } else {
            self.run(events.drop_last()).after(events.last())
        }
    }
}

/// Every event keeps a well-formed state well-formed.
pub proof fn lemma_after_wf(v: LockView, event: LockEvent)
    requires
        v.wf(),
    ensures
        v.after(event).wf(),
{
}

/// Whatever sequence of acquisitions and releases the threads make, starting from a fresh lock,
/// at no point do two different threads hold access at once, and the state stays well-formed.
pub proof fn lemma_single_holder(events: Seq<LockEvent>, a: u64, b: u64)
    ensures
        LockView::initial().run(events).wf(),
        LockView::initial().run(events).holds(a) && LockView::initial().run(events).holds(b)
            ==> a == b,
    decreases events.len(),
{
    if events.len() > 0 {
        lemma_single_holder(events.drop_last(), a, b);
        lemma_after_wf(LockView::initial().run(events.drop_last()), events.last());
    }
}

/// How many of `events`, run from `v`, are acquisitions told to set the library up.
pub open spec fn setups(v: LockView, events: Seq<LockEvent>) -> nat
    decreases events.len(),
{
    if events.len() == 0 {
        0
    } else {
        let before = v.run(events.drop_last());
        setups(v, events.drop_last()) + match events.last() {
            LockEvent::Acquire(t) => if before.available_to(t) && before.sets_up() {
                1nat
            } else {
                0nat
            },
            LockEvent::Release(_) => 0nat,
        }
    }
}

/// Whatever sequence of acquisitions and releases the threads make, starting from a fresh lock,
/// at most one acquisition is told to set the native library up, and once one has been, the
/// lock remembers it.
pub proof fn lemma_setup_once(events: Seq<LockEvent>)
    ensures
        setups(LockView::initial(), events) <= 1,
        setups(LockView::initial(), events) == 1 <==> LockView::initial().run(events).initialised,
    decreases events.len(),
{
    if events.len() > 0 {
        lemma_setup_once(events.drop_last());
    }
}

/// While one thread holds access, an acquisition by any other thread is refused and changes
/// nothing.
pub proof fn lemma_other_thread_refused(v: LockView, holder: u64, other: u64)
    requires
        v.holds(holder),
        holder != other,
    ensures
        !v.available_to(other),
        v.after(LockEvent::Acquire(other)) == v,
{
}

/// The access token: holding one is what entitles its holder to call into the native library.
///
/// It has no public constructor; [`SpiceLock::try_acquire`] is the only way to get one.
#[derive(Debug)]
pub struct Spice {
    thread: u64,
}

impl Spice {
    /// The thread the token was granted to.
    pub closed spec fn holder(&self) -> u64 {
        self.thread
    }

    /// The thread the token was granted to.
    pub fn thread(&self) -> (r: u64)
        ensures
            r == self.holder(),
    {
        self.thread
    }
}

/// What a successful acquisition hands out.
#[derive(Debug)]
pub struct Access {
    /// The token, valid until it is given back to [`SpiceLock::release`].
    pub spice: Spice,
    /// Set on the very first acquisition of the lock's lifetime: the holder must now set the
    /// native error action to "return" and the error output device to "null" before any other
    /// native call.
    pub first_use: bool,
}

/// Access is held by another thread.
#[derive(Debug, Clone, Copy, PartialEq, Eq)]
pub struct SpiceLockError;

impl SpiceLockError {
    /// The message that goes with the error.
    pub fn message(&self) -> (r: &'static str) {
        "SPICE is already in use by another thread. If multi-threaded use is intentional wrap the call using `with_spice_lock()`."
    }
}

/// Bookkeeping of a reentrant lock over the native library.
#[derive(Debug)]
pub struct SpiceLock {
    owner: Option<u64>,
    depth: u64,
    initialised: bool,
}

impl View for SpiceLock {
    type V = LockView;

    closed spec fn view(&self) -> LockView {
        LockView { owner: self.owner, depth: self.depth as nat, initialised: self.initialised }
    }
}

impl SpiceLock {
    /// A lock that nobody holds and that has not set the library up yet.
    pub fn new() -> (r: SpiceLock)
        ensures
            r@ == LockView::initial(),
    {
        SpiceLock { owner: None, depth: 0, initialised: false }
    }

    /// Whether `thread` would be granted access now.
    pub fn is_available_to(&self, thread: u64) -> (r: bool)
        ensures
            r == self@.available_to(thread),
    {
        self.depth == 0 || self.owner == Some(thread)
    }

    /// Whether the holder can acquire once more without the count overflowing.
    pub fn can_nest(&self) -> (r: bool)
        ensures
            r == (self@.depth < u64::MAX),
    {
        self.depth < u64::MAX
    }

    /// Whether `spice` is a token of the thread that holds access.
    pub fn is_held_by(&self, spice: &Spice) -> (r: bool)
        ensures
            r == self@.holds(spice.holder()),
    {
        self.depth > 0 && self.owner == Some(spice.thread)
    }

    /// Acquires access for `thread`, without waiting.
    ///
    /// Succeeds when nobody holds access or `thread` already does (the lock is reentrant), and
    /// fails with [`SpiceLockError`] when another thread holds it, leaving the lock unchanged.
    pub fn try_acquire(&mut self, thread: u64) -> (r: Result<Access, SpiceLockError>)
        requires
            old(self)@.depth < u64::MAX,
        ensures
            final(self)@ == old(self)@.after(LockEvent::Acquire(thread)),
            r is Ok <==> old(self)@.available_to(thread),
            r matches Ok(a) ==> a.spice.holder() == thread && a.first_use == old(self)@.sets_up(),
    {
        if self.depth == 0 {
            let first_use = !self.initialised;
            self.owner = Some(thread);
            self.depth = 1;
            self.initialised = true;
            Ok(Access { spice: Spice { thread }, first_use })
        } else if self.owner == Some(thread) {
            self.depth = self.depth + 1;
            Ok(Access { spice: Spice { thread }, first_use: false })
        } else {
            Err(SpiceLockError)
        }
    }

    /// Gives back a token. Access is released for good once every acquisition of the holder has
    /// been given back.
    pub fn release(&mut self, spice: Spice)
        requires
            old(self)@.holds(spice.holder()),
        ensures
            final(self)@ == old(self)@.after(LockEvent::Release(spice.holder())),
    {
        if self.depth == 1 {
            self.owner = None;
            self.depth = 0;
        } else {
            self.depth = self.depth - 1;
        }
    }

    /// Runs `work` under a token for `thread`, without waiting, and gives the token back
    /// afterwards. `work` is told whether this is the lock's first use, in which case it must
    /// set the native library up before anything else.
    ///
    /// Fails with [`SpiceLockError`], without running `work`, when another thread holds access.
    pub fn try_with_spice_lock<R, F: FnOnce(&Spice, bool) -> R>(&mut self, thread: u64, work: F) -> (r:
        Result<R, SpiceLockError>)
        requires
            old(self)@.depth < u64::MAX,
            forall|s: &Spice, first: bool| s.holder() == thread ==> work.requires((s, first)),
        ensures
            r is Ok <==> old(self)@.available_to(thread),
            final(self)@ == old(self)@.after(LockEvent::Acquire(thread)).after(
                LockEvent::Release(thread),
            ),
            r matches Ok(v) ==> exists|s: &Spice|
                s.holder() == thread && #[trigger] work.ensures(
                    (s, old(self)@.sets_up()),
                    v,
                ),
    {
        match self.try_acquire(thread) {
            Ok(access) => {
                let v = work(&access.spice, access.first_use);
                assert(work.ensures((&access.spice, old(self)@.sets_up()), v));
                self.release(access.spice);
                let r: Result<R, SpiceLockError> = Ok(v);
                assert(r matches Ok(w) && w == v);
                r
            },
            Err(e) => Err(e),
        }
    }

    /// Runs `work` under a token for `thread` and gives the token back afterwards, for a caller
    /// that has made sure access is free for `thread`. `work` is told whether this is the lock's
    /// first use.
    pub fn with_spice_lock<R, F: FnOnce(&Spice, bool) -> R>(&mut self, thread: u64, work: F) -> (r: R)
        requires
            old(self)@.depth < u64::MAX,
            old(self)@.available_to(thread),
            forall|s: &Spice, first: bool| s.holder() == thread ==> work.requires((s, first)),
        ensures
            final(self)@ == old(self)@.after(LockEvent::Acquire(thread)).after(
                LockEvent::Release(thread),
            ),
            exists|s: &Spice|
                s.holder() == thread && #[trigger] work.ensures(
                    (s, old(self)@.sets_up()),
                    r,
                ),
    {
        self.try_with_spice_lock(thread, work).unwrap()
    }
}

} // verus!
