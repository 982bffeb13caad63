//! The workflow of one account, as a state machine.
//!
//! Each call of `process_single_account` takes the result of the action
//! requested last and returns the next action: a remote call, a pause, or
//! the end of the account's work.
use vstd::prelude::*;

use crate::gateway::{
    assist_outcome, code_outcome, codes_of, is_pending_set, settled, AssistPayload, ListingItem,
    Outcome, Reply,
};

verus! {

/// Pause after a wish was created, for moderation.
pub const MODERATION_DELAY: u64 = 60;

/// Pause after a successful assist.
pub const ASSIST_COOLDOWN: u64 = 10;

/// Further pause before the assist is adopted.
pub const ADOPT_DELAY: u64 = 3;

/// Pause after each pending wish, whatever became of it.
pub const INTER_WISH_DELAY: u64 = 60;

/// What the caller is asked to do next.
#[derive(Debug, Clone, PartialEq, Eq)]
pub enum Action {
    CreateWish { credential: String },
    ListPending { credential: String },
    ResolveCode { credential: String, wish_id: String },
    SubmitAssist { credential: String, code: String },
    AdoptAssist { credential: String, wish_id: String, assist_id: String },
    /// Pause for this many seconds.
    Wait(u64),
    /// Nothing is left to do.
    Finished,
}

/// The result of the action requested last.
#[derive(Debug, Clone, PartialEq, Eq)]
pub enum Event {
    /// The pause is over (or, at the start, nothing was requested yet).
    Ready,
    Wished(Reply<String>),
    Listed(Reply<Vec<ListingItem>>),
    Resolved(Reply<String>),
    Assisted(Reply<AssistPayload>),
    Adopted(Reply<()>),
}

/// Where an account's workflow stands. `at` indexes the pending wishes.
#[derive(Debug, Clone, PartialEq, Eq)]
pub enum Phase {
    Start,
    Wishing,
    AwaitingModeration,
    Discovering,
    Resolving { at: usize },
    Assisting { at: usize },
    Cooling { at: usize, assist_id: String },
    AdoptDelay { at: usize, assist_id: String },
    Adopting { at: usize },
    InterWish { at: usize },
    Done,
}

/// Which event answers the action that a phase has requested.
pub open spec fn answers(phase: Phase, event: Event) -> bool {
    match phase {
        Phase::Wishing => event is Wished,
        Phase::Discovering => event is Listed,
        Phase::Resolving { .. } => event is Resolved,
        Phase::Assisting { .. } => event is Assisted,
        Phase::Adopting { .. } => event is Adopted,
        _ => event is Ready,
    }
}

/// One account's workflow: its two credentials, its place in the fleet, the
/// pending wishes found for it, and the wishes whose assist it adopted.
#[derive(Debug, Clone)]
pub struct Api115ClientSingle {
    pub wish_cookie: String,
    pub aid_cookie: String,
    pub account_index: usize,
    pub pending: Vec<String>,
    pub adopted: Vec<String>,
    pub phase: Phase,
}

impl Api115ClientSingle {
    pub open spec fn wf(self) -> bool {
        match self.phase {
            Phase::Resolving { at } => at < self.pending.len(),
            Phase::Assisting { at } => at < self.pending.len(),
            Phase::Cooling { at, assist_id } => at < self.pending.len() && assist_id@.len() > 0,
            Phase::AdoptDelay { at, assist_id } => at < self.pending.len() && assist_id@.len() > 0,
            Phase::Adopting { at } => at < self.pending.len(),
            Phase::InterWish { at } => at < self.pending.len(),
            _ => true,
        }
    }

    /// The step to the first pending wish after `at`, or to the end.
    pub open spec fn next_wish(pre: Self, from: int, post: Self, action: Action) -> bool {
        if from < pre.pending.len() {
            &&& post.phase == Phase::Resolving { at: from as usize }
            &&& action == Action::ResolveCode {
                credential: pre.aid_cookie,
                wish_id: pre.pending@[from],
            }
        } else {
            post.phase == Phase::Done && action == Action::Finished
        }
    }

    /// The move from `pre` on `event` to `post`, requesting `action`.
    pub open spec fn steps_to(pre: Self, event: Event, post: Self, action: Action) -> bool {
        &&& post.wish_cookie == pre.wish_cookie
        &&& post.aid_cookie == pre.aid_cookie
        &&& post.account_index == pre.account_index
        &&& (pre.phase is Discovering || post.pending == pre.pending)
        &&& (pre.phase is Adopting || post.adopted == pre.adopted)
        &&& match (pre.phase, event) {
            (Phase::Start, Event::Ready) => {
                post.phase == Phase::Wishing && action == Action::CreateWish {
                    credential: pre.wish_cookie,
                }
            },
            (Phase::Wishing, Event::Wished(r)) => {
                if settled(r) is Succeeded {
                    post.phase == Phase::AwaitingModeration && action == Action::Wait(
                        MODERATION_DELAY,
                    )
                } else {
                    post.phase == Phase::Discovering && action == Action::ListPending {
                        credential: pre.wish_cookie,
                    }
                }
            },
            (Phase::AwaitingModeration, Event::Ready) => {
                post.phase == Phase::Discovering && action == Action::ListPending {
                    credential: pre.wish_cookie,
                }
            },
            (Phase::Discovering, Event::Listed(r)) => {
                &&& post.adopted == pre.adopted
                &&& match r {
                    Reply::Envelope { state, code, data, .. } => if crate::gateway::business_ok(
                        state,
                        code,
                    ) {
                        is_pending_set(data@, codes_of(post.pending@))
                    } else {
                        post.pending@.len() == 0
                    },
                    _ => post.pending@.len() == 0,
                }
                &&& Self::next_wish(post, 0, post, action)
            },
            (Phase::Resolving { at }, Event::Resolved(r)) => match code_outcome(r) {
                Outcome::Succeeded(c) => {
                    post.phase == Phase::Assisting { at } && action == Action::SubmitAssist {
                        credential: pre.aid_cookie,
                        code: c,
                    }
                },
                _ => post.phase == Phase::InterWish { at } && action == Action::Wait(
                    INTER_WISH_DELAY,
                ),
            },
            (Phase::Assisting { at }, Event::Assisted(r)) => match assist_outcome(r) {
                Outcome::Succeeded(id) => {
                    post.phase == (Phase::Cooling { at, assist_id: id }) && action == Action::Wait(
                        ASSIST_COOLDOWN,
                    )
                },
                _ => post.phase == Phase::InterWish { at } && action == Action::Wait(
                    INTER_WISH_DELAY,
                ),
            },
            (Phase::Cooling { at, assist_id }, Event::Ready) => {
                post.phase == (Phase::AdoptDelay { at, assist_id }) && action == Action::Wait(
                    ADOPT_DELAY,
                )
            },
            (Phase::AdoptDelay { at, assist_id }, Event::Ready) => {
                post.phase == Phase::Adopting { at } && action == Action::AdoptAssist {
                    credential: pre.wish_cookie,
                    wish_id: pre.pending@[at as int],
                    assist_id,
                }
            },
            (Phase::Adopting { at }, Event::Adopted(r)) => {
                &&& post.adopted@ == (if settled(r) is Succeeded {
                    pre.adopted@.push(pre.pending@[at as int])
                } else {
                    pre.adopted@
                })
                &&& post.phase == Phase::InterWish { at }
                &&& action == Action::Wait(INTER_WISH_DELAY)
            },
            (Phase::InterWish { at }, Event::Ready) => Self::next_wish(pre, at + 1, post, action),
            (Phase::Done, Event::Ready) => post.phase == Phase::Done && action == Action::Finished,
            _ => false,
        }
    }

    /// A fresh workflow for one account, not yet started.
    pub fn new(wish_cookie: String, aid_cookie: String, account_index: usize) -> (r: Self)
        ensures
            r.wish_cookie == wish_cookie,
            r.aid_cookie == aid_cookie,
            r.account_index == account_index,
            r.pending@.len() == 0,
            r.adopted@.len() == 0,
            r.phase == Phase::Start,
            r.wf(),
    {
        Api115ClientSingle {
            wish_cookie,
            aid_cookie,
            account_index,
            pending: Vec::new(),
            adopted: Vec::new(),
            phase: Phase::Start,
        }
    }

    /// Requests the first pending wish from `from` on, or ends the account.
    fn advance_to(&mut self, from: usize) -> (action: Action)
        requires
            from <= old(self).pending.len(),
        ensures
            Self::next_wish(*old(self), from as int, *final(self), action),
            final(self).wish_cookie == old(self).wish_cookie,
            final(self).aid_cookie == old(self).aid_cookie,
            final(self).account_index == old(self).account_index,
            final(self).pending == old(self).pending,
            final(self).adopted == old(self).adopted,
            final(self).wf(),
    {
        if from < self.pending.len() {
            self.phase = Phase::Resolving { at: from };
            Action::ResolveCode { credential: self.aid_cookie.clone(), wish_id: self.pending[from].clone() }
        } else {
            self.phase = Phase::Done;
            Action::Finished
        }
    }

    /// Handles the reply to the wish creation: pause for moderation after a
    /// success, go on to discovery at once after any failure.
    fn handle_wish_process(&mut self, reply: Reply<String>) -> (action: Action)
        requires
            old(self).phase is Wishing,
        ensures
            Self::steps_to(*old(self), Event::Wished(reply), *final(self), action),
            final(self).wf(),
    {
        match Self::make_wish(reply) {
            Outcome::Succeeded(_) => {
                self.phase = Phase::AwaitingModeration;
                Action::Wait(MODERATION_DELAY)
            },
            _ => {
                self.phase = Phase::Discovering;
                Action::ListPending { credential: self.wish_cookie.clone() }
            },
        }
    }

    /// Handles the listing: keeps the pending wishes and requests the first.
    fn handle_pending_wishes(&mut self, reply: Reply<Vec<ListingItem>>) -> (action: Action)
        requires
            old(self).phase is Discovering,
        ensures
            Self::steps_to(*old(self), Event::Listed(reply), *final(self), action),
            final(self).wf(),
    {
        self.pending = match Self::get_pending_wishes(reply) {
            Outcome::Succeeded(ids) => ids,
            _ => Vec::new(),
        };
        self.advance_to(0)
    }

    /// Advances the workflow by one event and returns the next action.
    pub fn process_single_account(&mut self, event: Event) -> (action: Action)
        requires
            old(self).wf(),
            answers(old(self).phase, event),
        ensures
            final(self).wf(),
            Self::steps_to(*old(self), event, *final(self), action),
    {
        match event {
            Event::Wished(r) => self.handle_wish_process(r),
            Event::Listed(r) => self.handle_pending_wishes(r),
            Event::Resolved(r) => {
                let at = match self.phase {
                    Phase::Resolving { at } => at,
                    _ => 0,
                };
                match Self::get_desire_code(r) {
                    Outcome::Succeeded(c) => {
                        self.phase = Phase::Assisting { at };
                        Action::SubmitAssist { credential: self.aid_cookie.clone(), code: c }
                    },
                    _ => {
                        self.phase = Phase::InterWish { at };
                        Action::Wait(INTER_WISH_DELAY)
                    },
                }
            },
            Event::Assisted(r) => {
                let at = match self.phase {
                    Phase::Assisting { at } => at,
                    _ => 0,
                };
                match Self::aid_desire(r) {
                    Outcome::Succeeded(id) => {
                        self.phase = Phase::Cooling { at, assist_id: id };
                        Action::Wait(ASSIST_COOLDOWN)
                    },
                    _ => {
                        self.phase = Phase::InterWish { at };
                        Action::Wait(INTER_WISH_DELAY)
                    },
                }
            },
            Event::Adopted(r) => {
                let at = match self.phase {
                    Phase::Adopting { at } => at,
                    _ => 0,
                };
                match Self::adopt_aid(r) {
                    Outcome::Succeeded(_) => {
                        let id = self.pending[at].clone();
                        self.adopted.push(id);
                    },
                    _ => {},
                }
                self.phase = Phase::InterWish { at };
                Action::Wait(INTER_WISH_DELAY)
            },
            Event::Ready => {
                let mut phase = Phase::Done;
                std::mem::swap(&mut self.phase, &mut phase);
                match phase {
                    Phase::Start => {
                        self.phase = Phase::Wishing;
                        Action::CreateWish { credential: self.wish_cookie.clone() }
                    },
                    Phase::AwaitingModeration => {
                        self.phase = Phase::Discovering;
                        Action::ListPending { credential: self.wish_cookie.clone() }
                    },
                    Phase::Cooling { at, assist_id } => {
                        self.phase = Phase::AdoptDelay { at, assist_id };
                        Action::Wait(ADOPT_DELAY)
                    },
                    Phase::AdoptDelay { at, assist_id } => {
                        self.phase = Phase::Adopting { at };
                        Action::AdoptAssist {
                            credential: self.wish_cookie.clone(),
                            wish_id: self.pending[at].clone(),
                            assist_id,
                        }
                    },
                    Phase::InterWish { at } => self.advance_to(at + 1),
                    _ => Action::Finished,
                }
            },
        }
    }

    /// Whether `event` answers the action that was requested last.
    pub fn accepts(&self, event: &Event) -> (r: bool)
        ensures
            r == answers(self.phase, *event),
    {
        match (&self.phase, event) {
            (Phase::Wishing, Event::Wished(_)) => true,
            (Phase::Discovering, Event::Listed(_)) => true,
            (Phase::Resolving { .. }, Event::Resolved(_)) => true,
            (Phase::Assisting { .. }, Event::Assisted(_)) => true,
            (Phase::Adopting { .. }, Event::Adopted(_)) => true,
            (Phase::Wishing, _) => false,
            (Phase::Discovering, _) => false,
            (Phase::Resolving { .. }, _) => false,
            (Phase::Assisting { .. }, _) => false,
            (Phase::Adopting { .. }, _) => false,
            (_, Event::Ready) => true,
            _ => false,
        }
    }

    /// Whether the account's work is over.
    pub fn is_done(&self) -> (r: bool)
        ensures
            r == (self.phase is Done),
    {
        match self.phase {
            Phase::Done => true,
            _ => false,
        }
    }
}

/// A failed wish creation, a business rejection included, never ends the
/// account: the workflow goes on to list the pending wishes at once.
pub proof fn lemma_failed_wish_still_discovers(
    pre: Api115ClientSingle,
    reply: Reply<String>,
    post: Api115ClientSingle,
    action: Action,
)
    requires
        pre.phase is Wishing,
        !(settled(reply) is Succeeded),
        Api115ClientSingle::steps_to(pre, Event::Wished(reply), post, action),
    ensures
        post.phase is Discovering,
        action == (Action::ListPending { credential: pre.wish_cookie }),
{
}

/// An assist is submitted only with a non-empty code that the resolution
/// call, answered with success, returned for the wish at hand.
pub proof fn lemma_assist_follows_resolution(
    pre: Api115ClientSingle,
    event: Event,
    post: Api115ClientSingle,
    action: Action,
)
    requires
        Api115ClientSingle::steps_to(pre, event, post, action),
        action is SubmitAssist,
    ensures
        pre.phase is Resolving,
        event is Resolved,
        code_outcome(event->Resolved_0) == Outcome::Succeeded(action->SubmitAssist_code),
        action->SubmitAssist_code@.len() > 0,
        action->SubmitAssist_credential == pre.aid_cookie,
        post.phase == (Phase::Assisting { at: pre.phase->Resolving_at }),
{
}

/// An adoption is requested only for the assist id that the phase holds,
/// which is non-empty, and for the wish being worked on.
pub proof fn lemma_adopt_follows_assist(
    pre: Api115ClientSingle,
    event: Event,
    post: Api115ClientSingle,
    action: Action,
)
    requires
        pre.wf(),
        Api115ClientSingle::steps_to(pre, event, post, action),
        action is AdoptAssist,
    ensures
        pre.phase is AdoptDelay,
        action->AdoptAssist_assist_id == pre.phase->AdoptDelay_assist_id,
        action->AdoptAssist_assist_id@.len() > 0,
        action->AdoptAssist_wish_id == pre.pending@[pre.phase->AdoptDelay_at as int],
        action->AdoptAssist_credential == pre.wish_cookie,
{
}

/// A phase that holds an assist id got it either from the phase before,
/// or from an assist reply that succeeded with that very id.
pub proof fn lemma_assist_id_origin(
    pre: Api115ClientSingle,
    event: Event,
    post: Api115ClientSingle,
    action: Action,
)
    requires
        Api115ClientSingle::steps_to(pre, event, post, action),
        post.phase is Cooling || post.phase is AdoptDelay,
    ensures
        post.phase is Cooling ==> pre.phase is Assisting && event is Assisted && assist_outcome(
            event->Assisted_0,
        ) == Outcome::Succeeded(post.phase->Cooling_assist_id),
        post.phase is AdoptDelay ==> pre.phase is Cooling && pre.phase->Cooling_assist_id
            == post.phase->AdoptDelay_assist_id,
{
}

} // verus!
