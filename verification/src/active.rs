//! The liveness token of a producer, and the proof of liveness that a borrow
//! carries.
//!
//! A producer of handles owns one token. The token says whether the native
//! resource behind the producer is valid at the moment, and counts the borrows
//! of it that are out. The producer marks the token active when the platform
//! hands it a valid resource, and asks it to go inactive before the platform
//! takes the resource away; that request is granted only once every borrow is
//! back. So a borrow, while it is out, is never read across an invalidation.
//!
//! The token here is the sequential state machine behind that protocol. It
//! does not block: a request to go inactive that cannot be granted says so, and
//! whoever shares a token between threads waits and asks again.

use vstd::prelude::*;

verus! {

/// Why a borrow was refused.
#[derive(Debug, Clone, Copy, PartialEq, Eq, Hash, Structural)]
pub enum HandleError {
    /// The producer is not active at the moment. This passes: ask again after
    /// the producer has resumed.
    Inactive,
}

impl HandleError {
    /// A sentence for the error, for messages to a person.
    pub fn message(&self) -> (text: &'static str)
        ensures
            text@ == "the handle is not currently active"@,
    {
        match self {
            HandleError::Inactive => "the handle is not currently active",
        }
    }
}

/// What a liveness token stands for: whether it counts borrows at all, whether
/// the native resource is valid, and how many borrows of it are out.
pub struct LivenessState {
    /// The token belongs to a platform that can take the resource away, and
    /// counts its borrows. A token that does not count is active for good.
    pub counting: bool,
    /// The native resource is valid.
    pub active: bool,
    /// Number of borrows that were handed out and not given back.
    pub borrows: nat,
}

impl LivenessState {
    /// No borrow is out while the resource is invalid, and a token that does
    /// not count is active and has nothing out.
    pub open spec fn wf(self) -> bool {
        &&& self.borrows > 0 ==> self.active
        &&& !self.counting ==> self.active && self.borrows == 0
    }

    /// A fresh counting token: inactive, nothing borrowed.
    pub open spec fn initial() -> Self {
        LivenessState { counting: true, active: false, borrows: 0 }
    }

    /// The token of a platform that never invalidates: active, nothing counted.
    pub open spec fn permanent() -> Self {
        LivenessState { counting: false, active: true, borrows: 0 }
    }

    /// The state after the producer has marked the resource valid.
    pub open spec fn set_active(self) -> Self {
        LivenessState { counting: self.counting, active: true, borrows: self.borrows }
    }

    /// A request to go inactive does not have to wait in this state.
    pub open spec fn may_set_inactive(self) -> bool {
        self.borrows == 0
    }

    /// The state after a request to go inactive. A counting token with nothing
    /// out goes inactive; with a borrow out it does not change, and the request
    /// has to wait. A token that does not count stays as it is.
    pub open spec fn set_inactive(self) -> Self {
        if self.counting && self.may_set_inactive() {
            LivenessState { counting: true, active: false, borrows: 0 }
        } else {
            self
        }
    }

    /// The state after a request for a borrow, which is granted where the
    /// token is active. A counting token then has one more borrow out;
    /// otherwise nothing changes.
    pub open spec fn acquire(self) -> Self {
        if self.counting && self.active {
            LivenessState { counting: true, active: true, borrows: self.borrows + 1 }
        } else {
            self
        }
    }

    /// The state after a borrow has been given back. Where none is out,
    /// nothing changes.
    pub open spec fn release(self) -> Self {
        if self.borrows > 0 {
            LivenessState {
                counting: self.counting,
                active: self.active,
                borrows: (self.borrows - 1) as nat,
            }
        } else {
            self
        }
    }

    /// The state after `n` requests for a borrow in a row.
    pub open spec fn acquire_n(self, n: nat) -> Self
        decreases n,
    {
        if n == 0 {
            self
        } else {
            self.acquire().acquire_n((n - 1) as nat)
        }
    }

    /// The state after `n` borrows have been given back, one after the other.
    pub open spec fn release_n(self, n: nat) -> Self
        decreases n,
    {
        if n == 0 {
            self
        } else {
            self.release().release_n((n - 1) as nat)
        }
    }
}

/// Every step of the protocol keeps the rule that no borrow is out while the
/// resource is invalid, and both kinds of token start within it.
pub proof fn lemma_steps_keep_wf(s: LivenessState)
    requires
        s.wf(),
    ensures
        LivenessState::initial().wf(),
        LivenessState::permanent().wf(),
        s.set_active().wf(),
        s.set_inactive().wf(),
        s.acquire().wf(),
        s.release().wf(),
{
}

/// Marking an active token active, or asking an inactive token to go inactive,
/// changes nothing; nor does asking twice.
pub proof fn lemma_repeated_transitions_change_nothing(s: LivenessState)
    ensures
        s.active ==> s.set_active() == s,
        !s.active && s.wf() ==> s.set_inactive() == s,
        s.set_active().set_active() == s.set_active(),
        s.set_inactive().set_inactive() == s.set_inactive(),
{
}

/// Once the producer has marked a counting token active, a request for a
/// borrow is granted and counted.
pub proof fn lemma_borrow_granted_after_set_active(s: LivenessState)
    requires
        s.counting,
    ensures
        s.set_active().active,
        s.set_active().acquire().active,
        s.set_active().acquire().borrows == s.borrows + 1,
{
}

/// While a borrow is out, a request to go inactive has to wait and changes
/// nothing, and the token stays active: a borrow taken before the request
/// stays valid for as long as it is held.
pub proof fn lemma_outstanding_borrow_keeps_active(s: LivenessState)
    requires
        s.wf(),
        s.borrows > 0,
    ensures
        !s.may_set_inactive(),
        s.set_inactive() == s,
        s.set_inactive().active,
{
}

/// A token that does not count is active whatever is asked of it: every
/// borrow is granted, a request to go inactive never waits, and no step
/// changes the state.
pub proof fn lemma_permanent_token_never_waits(s: LivenessState)
    requires
        s.wf(),
        !s.counting,
    ensures
        s == LivenessState::permanent(),
        s.active,
        s.may_set_inactive(),
        s.acquire() == s,
        s.release() == s,
        s.set_active() == s,
        s.set_inactive() == s,
{
}

/// `n` requests for a borrow on an active counting token put `n` more borrows
/// out; on an inactive token, or one that does not count, they change nothing.
pub proof fn lemma_acquire_n(s: LivenessState, n: nat)
    ensures
        s.counting && s.active ==> s.acquire_n(n) == (LivenessState {
            counting: true,
            active: true,
            borrows: s.borrows + n,
        }),
        !(s.counting && s.active) ==> s.acquire_n(n) == s,
    decreases n,
{
    if n > 0 {
        lemma_acquire_n(s.acquire(), (n - 1) as nat);
    }
}

/// Giving back `k` of the borrows that are out leaves the rest out and the
/// token as active as it was.
pub proof fn lemma_release_n(s: LivenessState, k: nat)
    requires
        k <= s.borrows,
    ensures
        s.release_n(k) == (LivenessState {
            counting: s.counting,
            active: s.active,
            borrows: (s.borrows - k) as nat,
        }),
    decreases k,
{
    if k > 0 {
        lemma_release_n(s.release(), (k - 1) as nat);
    }
}

/// An active counting token hands out `n` borrows, and `k` of all that are out
/// come back. A request to go inactive is then granted if and only if they
/// have all come back. Until then the request changes nothing and the token
/// stays active; once granted, it leaves the token inactive.
pub proof fn lemma_set_inactive_waits_for_every_borrow(s: LivenessState, n: nat, k: nat)
    requires
        s.counting,
        s.active,
        k <= s.borrows + n,
    ensures
        s.acquire_n(n).release_n(k).may_set_inactive() <==> k == s.borrows + n,
        k < s.borrows + n ==> s.acquire_n(n).release_n(k).set_inactive() == s.acquire_n(
            n,
        ).release_n(k),
        k < s.borrows + n ==> s.acquire_n(n).release_n(k).set_inactive().active,
        k == s.borrows + n ==> !s.acquire_n(n).release_n(k).set_inactive().active,
{
    lemma_acquire_n(s, n);
    lemma_release_n(s.acquire_n(n), k);
}

/// Proof that a liveness token was active when it was asked, and has not gone
/// inactive since.
///
/// Only a token makes one. It cannot be copied, and giving it back to the
/// token uses it up, so a counting token never counts fewer borrows than the
/// proofs it has handed out and not got back.
#[derive(Debug, PartialEq, Eq, Hash)]
pub struct ActiveHandle {
    _private: (),
}

impl ActiveHandle {
    /// The proof for a handle that holds no address, which nothing can
    /// invalidate.
    pub(crate) fn detached() -> (proof_of_liveness: &'static ActiveHandle) {
        &ActiveHandle { _private: () }
    }
}

/// What every liveness token offers, whichever platform it is for.
///
/// [`Active`] is the token of a platform that takes native resources away
/// while the program runs; [`AlwaysActive`] is the token of one that does not,
/// and costs nothing. Code written against this trait runs with either.
pub trait Liveness: View<V = LivenessState> {
    /// Whether the token is active.
    fn is_active(&self) -> (active: bool)
        ensures
            active == self@.active,
            self@.wf(),
    ;

    /// Number of borrows that are out. While it is not zero, the token is
    /// active.
    fn outstanding(&self) -> (borrows: usize)
        ensures
            borrows == self@.borrows,
            self@.wf(),
    ;

    /// Asks for a borrow. An active token grants it, and counts it if it
    /// counts at all; an inactive token refuses with
    /// [`HandleError::Inactive`] and does not change.
    ///
    /// A counting token cannot have more than `usize::MAX` borrows out.
    fn handle(&mut self) -> (r: Result<ActiveHandle, HandleError>)
        requires
            old(self)@.counting && old(self)@.active ==> old(self)@.borrows < usize::MAX,
        ensures
            final(self)@ == old(self)@.acquire(),
            final(self)@.wf(),
            old(self)@.active ==> r is Ok,
            !old(self)@.active ==> r is Err && r->Err_0 == HandleError::Inactive,
    ;

    /// Gives a borrow back, which uses the proof up. Where the token counts no
    /// borrow as out, nothing changes.
    fn release(&mut self, handle: ActiveHandle)
        ensures
            final(self)@ == old(self)@.release(),
            final(self)@.wf(),
    ;

    /// Marks the native resource valid. This never has to wait, and leaves the
    /// count of borrows as it is.
    fn set_active(&mut self)
        ensures
            final(self)@ == old(self)@.set_active(),
            final(self)@.wf(),
    ;

    /// Asks the token to go inactive, and says whether the request is done
    /// with. While a borrow is out it is not: the token does not change, and
    /// the caller has to wait for the borrows and ask again. There is no way to
    /// force it and no deadline: a borrow that never comes back keeps the
    /// token active for good.
    fn set_inactive(&mut self) -> (done: bool)
        ensures
            done == old(self)@.may_set_inactive(),
            final(self)@ == old(self)@.set_inactive(),
            final(self)@.wf(),
    ;
}

/// The liveness token of a platform that takes native resources away while the
/// program runs: it counts the borrows that are out.
///
/// It starts inactive, with nothing borrowed.
#[derive(Debug)]
pub struct Active {
    active: bool,
    borrows: usize,
}

impl View for Active {
    type V = LivenessState;

    closed spec fn view(&self) -> LivenessState {
        LivenessState { counting: true, active: self.active, borrows: self.borrows as nat }
    }
}

impl Active {
    #[verifier::type_invariant]
    spec fn inv(self) -> bool {
        self.borrows > 0 ==> self.active
    }

    /// Creates a token that is inactive and has nothing borrowed.
    pub fn new() -> (token: Self)
        ensures
            token@ == LivenessState::initial(),
    {
        Active { active: false, borrows: 0 }
    }
}

impl Liveness for Active {
    fn is_active(&self) -> (active: bool) {
        proof {
            use_type_invariant(self);
        }
        self.active
    }

    fn outstanding(&self) -> (borrows: usize) {
        proof {
            use_type_invariant(self);
        }
        self.borrows
    }

    fn handle(&mut self) -> (r: Result<ActiveHandle, HandleError>) {
        proof {
            use_type_invariant(&*self);
        }
        if self.active {
            self.borrows = self.borrows + 1;
            Ok(ActiveHandle { _private: () })
        } else {
            Err(HandleError::Inactive)
        }
    }

    fn release(&mut self, handle: ActiveHandle) {
        proof {
            use_type_invariant(&*self);
        }
        if self.borrows > 0 {
            self.borrows = self.borrows - 1;
        }
    }

    fn set_active(&mut self) {
        proof {
            use_type_invariant(&*self);
        }
        self.active = true;
    }

    fn set_inactive(&mut self) -> (done: bool) {
        proof {
            use_type_invariant(&*self);
        }
        if self.borrows == 0 {
            self.active = false;
            true
        } else {
            false
        }
    }
}

/// The liveness token of a platform that never takes a native resource away
/// while the program runs: always active, and with nothing to count.
#[derive(Debug, Clone, Copy)]
pub struct AlwaysActive {}

impl View for AlwaysActive {
    type V = LivenessState;

    open spec fn view(&self) -> LivenessState {
        LivenessState::permanent()
    }
}

impl AlwaysActive {
    /// Creates the token.
    pub fn new() -> (token: Self)
        ensures
            token@ == LivenessState::permanent(),
    {
        AlwaysActive {  }
    }
}

impl Liveness for AlwaysActive {
    fn is_active(&self) -> (active: bool) {
        true
    }

    fn outstanding(&self) -> (borrows: usize) {
        0
    }

    /// Always granted.
    fn handle(&mut self) -> (r: Result<ActiveHandle, HandleError>) {
        Ok(ActiveHandle { _private: () })
    }

    fn release(&mut self, handle: ActiveHandle) {
    }

    /// Does nothing: the token is active as it is.
    fn set_active(&mut self) {
    }

    /// Does nothing and is done at once: nothing is ever invalidated here, so
    /// there is nothing to wait for, and the token stays active.
    fn set_inactive(&mut self) -> (done: bool) {
        true
    }
}

} // verus!
