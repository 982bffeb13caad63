//! Running a fleet of accounts strictly one after another.
use vstd::prelude::*;

use crate::engine::{answers, Action, Api115ClientSingle, Event};

verus! {

/// Pause between two accounts.
pub const ACCOUNT_COOLDOWN: u64 = 30;

/// Where the fleet stands.
#[derive(Debug, Clone, PartialEq, Eq)]
pub enum FleetPhase {
    /// The account at `current` is being worked on.
    Running,
    /// The account at `current` is done; the pause before the next runs.
    Cooldown,
    /// Every account is done.
    Finished,
}

/// The accounts of a run, all sharing one assist credential, and the
/// workflow of the account being worked on.
#[derive(Debug, Clone)]
pub struct Api115Client {
    pub wish_cookies: Vec<String>,
    pub aid_cookie: String,
    pub current: usize,
    pub engine: Api115ClientSingle,
    pub phase: FleetPhase,
    /// The accounts whose workflow has ended, in the order they ended.
    pub completed: Vec<usize>,
}

/// The first `n` account indices, in order.
pub open spec fn first_accounts(n: int) -> Seq<usize> {
    Seq::new(n as nat, |i: int| i as usize)
}

impl Api115Client {
    pub open spec fn wf(self) -> bool {
        &&& self.engine.wf()
        &&& self.current < self.wish_cookies.len() ==> self.engine.wish_cookie
            == self.wish_cookies@[self.current as int]
        &&& self.engine.aid_cookie == self.aid_cookie
        &&& self.engine.account_index == self.current
        &&& match self.phase {
            FleetPhase::Running => {
                &&& self.current < self.wish_cookies.len()
                &&& !(self.engine.phase is Done)
                &&& self.completed@ == first_accounts(self.current as int)
            },
            FleetPhase::Cooldown => {
                &&& self.current + 1 < self.wish_cookies.len()
                &&& self.completed@ == first_accounts(self.current + 1)
            },
            FleetPhase::Finished => self.completed@ == first_accounts(self.wish_cookies.len() as int),
        }
    }

    /// Which event the fleet awaits.
    pub open spec fn awaits(self, event: Event) -> bool {
        match self.phase {
            FleetPhase::Running => answers(self.engine.phase, event),
            _ => event is Ready,
        }
    }

    /// The move from `pre` on `event` to `post`, requesting `action`.
    pub open spec fn steps_to(pre: Self, event: Event, post: Self, action: Action) -> bool {
        &&& post.wish_cookies == pre.wish_cookies
        &&& post.aid_cookie == pre.aid_cookie
        &&& match pre.phase {
            FleetPhase::Running => {
                &&& post.current == pre.current
                &&& exists|e: Api115ClientSingle, a: Action|
                    Api115ClientSingle::steps_to(pre.engine, event, e, a) && post.engine == e
                        && if a is Finished {
                        &&& post.completed@ == pre.completed@.push(pre.current)
                        &&& if pre.current + 1 < pre.wish_cookies.len() {
                            post.phase is Cooldown && action == Action::Wait(ACCOUNT_COOLDOWN)
                        } else {
                            post.phase is Finished && action == Action::Finished
                        }
                    } else {
                        post.phase is Running && post.completed == pre.completed && action == a
                    }
            },
            FleetPhase::Cooldown => {
                &&& post.current == pre.current + 1
                &&& post.completed == pre.completed
                &&& post.phase is Running
                &&& post.engine.pending@.len() == 0
                &&& post.engine.adopted@.len() == 0
                &&& post.engine.phase is Wishing
                &&& action == Action::CreateWish {
                    credential: pre.wish_cookies@[post.current as int],
                }
            },
            FleetPhase::Finished => {
                &&& post == pre
                &&& action == Action::Finished
            },
        }
    }

    /// A run over the accounts with these wish credentials, in this order.
    pub fn new(wish_cookies: Vec<String>, aid_cookie: String) -> (r: Self)
        ensures
            r.wf(),
            r.wish_cookies == wish_cookies,
            r.aid_cookie == aid_cookie,
            r.current == 0,
            r.completed@.len() == 0,
            wish_cookies@.len() > 0 ==> r.phase is Running && r.engine.phase is Start,
            wish_cookies@.len() == 0 ==> r.phase is Finished,
    {
        let first = if wish_cookies.len() > 0 {
            wish_cookies[0].clone()
        } else {
            String::new()
        };
        let engine = Api115ClientSingle::new(first, aid_cookie.clone(), 0);
        let phase = if wish_cookies.len() > 0 {
            FleetPhase::Running
        } else {
            FleetPhase::Finished
        };
        let r = Api115Client { wish_cookies, aid_cookie, current: 0, engine, phase, completed: Vec::new() };
        assert(r.completed@ =~= first_accounts(0));
        r
    }

    /// Advances the run by one event and returns the next action: the
    /// current account's own, or the pause between two accounts, or the
    /// first call of the next account, or the end of the run.
    pub fn process_all_accounts(&mut self, event: Event) -> (action: Action)
        requires
            old(self).wf(),
            old(self).awaits(event),
        ensures
            final(self).wf(),
            Self::steps_to(*old(self), event, *final(self), action),
    {
        match self.phase {
            FleetPhase::Running => {
                let ghost pre = self.engine;
                let a = self.engine.process_single_account(event);
                let ghost ea = a;
                assert(Api115ClientSingle::steps_to(pre, event, self.engine, ea));
                match a {
                    Action::Finished => {
                        let ghost before = self.completed@;
                        self.completed.push(self.current);
                        assert(self.completed@ =~= first_accounts(self.current + 1)) by {
                            assert(before =~= first_accounts(self.current as int));
                        }
                        if self.current + 1 < self.wish_cookies.len() {
                            self.phase = FleetPhase::Cooldown;
                            Action::Wait(ACCOUNT_COOLDOWN)
                        } else {
                            self.phase = FleetPhase::Finished;
                            Action::Finished
                        }
                    },
                    other => {
                        proof {
                            if self.engine.phase is Done {
                                assert(pre.phase is Done || pre.phase is InterWish
                                    || pre.phase is Discovering);
                            }
                        }
                        other
                    },
                }
            },
            FleetPhase::Cooldown => {
                let next = self.current + 1;
                self.current = next;
                self.engine = Api115ClientSingle::new(
                    self.wish_cookies[next].clone(),
                    self.aid_cookie.clone(),
                    next,
                );
                self.phase = FleetPhase::Running;
                self.engine.process_single_account(Event::Ready)
            },
            FleetPhase::Finished => Action::Finished,
        }
    }

    /// Whether `event` is the one the fleet awaits.
    pub fn accepts(&self, event: &Event) -> (r: bool)
        ensures
            r == self.awaits(*event),
    {
        match self.phase {
            FleetPhase::Running => self.engine.accepts(event),
            _ => match event {
                Event::Ready => true,
                _ => false,
            },
        }
    }

    /// The account that the last requested action belongs to.
    pub fn current_account(&self) -> (r: usize)
        ensures
            r == self.current,
    {
        self.current
    }

    /// Whether every account is done.
    pub fn is_finished(&self) -> (r: bool)
        ensures
            r == (self.phase is Finished),
    {
        match self.phase {
            FleetPhase::Finished => true,
            _ => false,
        }
    }
}

/// The wish-role credential that a remote call carries, if it carries one.
pub open spec fn wish_role(action: Action) -> Option<String> {
    match action {
        Action::CreateWish { credential } => Some(credential),
        Action::ListPending { credential } => Some(credential),
        Action::AdoptAssist { credential, .. } => Some(credential),
        _ => None,
    }
}

/// The assist-role credential that a remote call carries, if it carries one.
pub open spec fn assist_role(action: Action) -> Option<String> {
    match action {
        Action::ResolveCode { credential, .. } => Some(credential),
        Action::SubmitAssist { credential, .. } => Some(credential),
        _ => None,
    }
}

/// Accounts run one at a time, in their given order: every remote call
/// belongs to the current account; the run moves on only to the very next
/// account, only after the current one has finished and been recorded as
/// completed, and only once the pause between accounts is over. The
/// completed accounts are always a prefix of the list, in order.
pub proof fn lemma_accounts_in_order(
    pre: Api115Client,
    event: Event,
    post: Api115Client,
    action: Action,
)
    requires
        pre.wf(),
        pre.awaits(event),
        post.wf(),
        Api115Client::steps_to(pre, event, post, action),
    ensures
        post.current == pre.current || (post.current == pre.current + 1 && pre.phase is Cooldown
            && event is Ready && pre.completed@ == first_accounts(pre.current + 1)),
        wish_role(action) is Some ==> wish_role(action)->Some_0 == post.wish_cookies@[post.current as int],
        assist_role(action) is Some ==> assist_role(action)->Some_0 == post.aid_cookie,
        pre.phase is Running && post.phase is Cooldown ==> action == Action::Wait(ACCOUNT_COOLDOWN),
        post.phase is Running ==> post.completed@ == first_accounts(post.current as int),
        pre.phase is Finished ==> post == pre && action is Finished,
{
    if pre.phase is Running {
        let (e, a) = choose|e: Api115ClientSingle, a: Action|
            Api115ClientSingle::steps_to(pre.engine, event, e, a) && post.engine == e
                && if a is Finished {
                &&& post.completed@ == pre.completed@.push(pre.current)
                &&& if pre.current + 1 < pre.wish_cookies.len() {
                    post.phase is Cooldown && action == Action::Wait(ACCOUNT_COOLDOWN)
                } else {
                    post.phase is Finished && action == Action::Finished
                }
            } else {
                post.phase is Running && post.completed == pre.completed && action == a
            };
        assert(Api115ClientSingle::steps_to(pre.engine, event, e, a));
    }
}

} // verus!
