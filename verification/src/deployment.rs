//! The bridge to the deployment supervisor: deployments that wait for an authorized
//! approval or rejection.

use std::collections::HashMap;
use vstd::prelude::*;
use crate::text::{push_str, str_eq, string_of};
use crate::validation::{APPROVE_GLYPH, REJECT_GLYPH};

verus! {

broadcast use vstd::std_specs::hash::group_hash_axioms;

/// A deployment that waits for a decision.
pub struct DeploymentReactionsData {
    /// Unique identifier of the deployment.
    pub short_sha: String,
}

/// The two decisions on a deployment.
#[derive(Copy, Clone, Debug, PartialEq, Eq, Structural)]
pub enum ValidationEmoji {
    Approve,
    Reject,
}

/// The decision that a reaction stands for, if it stands for one.
pub open spec fn decision_of_glyph(emoji: Seq<char>) -> Option<ValidationEmoji> {
    if emoji == APPROVE_GLYPH@ {
        Some(ValidationEmoji::Approve)
    } else if emoji == REJECT_GLYPH@ {
        Some(ValidationEmoji::Reject)
    } else {
        None
    }
}

impl ValidationEmoji {
    /// The word for the decision in the supervisor's addresses.
    pub open spec fn word(self) -> Seq<char> {
        match self {
            ValidationEmoji::Approve => "approve"@,
            ValidationEmoji::Reject => "reject"@,
        }
    }

    /// The word for the decision in the supervisor's addresses.
    pub fn as_str(&self) -> (r: &'static str)
        ensures
            r@ == self.word(),
    {
        match self {
            ValidationEmoji::Approve => "approve",
            ValidationEmoji::Reject => "reject",
        }
    }

    /// Reads the decision from a reaction.
    pub fn from_glyph(emoji: &str) -> (r: Option<ValidationEmoji>)
        ensures
            r == decision_of_glyph(emoji@),
    {
        if str_eq(emoji, APPROVE_GLYPH) {
            Some(ValidationEmoji::Approve)
        } else if str_eq(emoji, REJECT_GLYPH) {
            Some(ValidationEmoji::Reject)
        } else {
            None
        }
    }
}

/// What a reaction on a message asks of the bridge.
#[derive(Debug)]
pub enum DeploymentStep {
    /// The message holds no deployment.
    NotTracked,
    /// The reacting user's roles could not be had: nothing is done.
    MemberUnknown,
    /// The reacting user holds none of the authorized roles: the deployment stays.
    Denied,
    /// The decision is to be posted to the supervisor under this path.
    Forward(String),
}

/// A step with its text taken as a sequence of characters.
pub enum DeploymentStepView {
    NotTracked,
    MemberUnknown,
    Denied,
    Forward(Seq<char>),
}

impl View for DeploymentStep {
    type V = DeploymentStepView;

    open spec fn view(&self) -> DeploymentStepView {
        match self {
            DeploymentStep::NotTracked => DeploymentStepView::NotTracked,
            DeploymentStep::MemberUnknown => DeploymentStepView::MemberUnknown,
            DeploymentStep::Denied => DeploymentStepView::Denied,
            DeploymentStep::Forward(path) => DeploymentStepView::Forward(path@),
        }
    }
}

/// Whether one of `roles` is among the `authorized` ones.
pub open spec fn holds_authorized_role(roles: Seq<u64>, authorized: Seq<u64>) -> bool {
    exists|i: int| 0 <= i < roles.len() && authorized.contains(#[trigger] roles[i])
}

/// The supervisor's path for a decision on a deployment.
pub open spec fn deployment_path(short_sha: Seq<char>, validation: ValidationEmoji) -> Seq<char> {
    "v1/two-factor-deployment/"@ + short_sha + "/"@ + validation.word()
}

/// What a reaction asks of the bridge, from the deployments that wait, the message
/// reacted on, the roles of the reacting user where they could be had, and the roles
/// that may decide.
pub open spec fn step_of(
    waiting: Map<u64, DeploymentReactionsData>,
    message_id: u64,
    member_roles: Option<Seq<u64>>,
    authorized: Seq<u64>,
    validation: ValidationEmoji,
) -> DeploymentStepView {
    if !waiting.contains_key(message_id) {
        DeploymentStepView::NotTracked
    } else {
        match member_roles {
            None => DeploymentStepView::MemberUnknown,
            Some(roles) => if holds_authorized_role(roles, authorized) {
                DeploymentStepView::Forward(
                    deployment_path(waiting[message_id].short_sha@, validation),
                )
            } else {
                DeploymentStepView::Denied
            },
        }
    }
}

/// The deployments that wait after the supervisor was called: the deployment of the
/// message is gone where the call succeeded and stays where it failed.
pub open spec fn settled<V>(waiting: Map<u64, V>, message_id: u64, delivered: bool) -> Map<u64, V> {
    if delivered {
        waiting.remove(message_id)
    } else {
        waiting
    }
}

fn contains_role(roles: &Vec<u64>, role: u64) -> (r: bool)
    ensures
        r == roles@.contains(role),
{
    let mut i: usize = 0;
    while i < roles.len()
        invariant
            i <= roles.len(),
            forall|j: int| 0 <= j < i ==> roles@[j] != role,
        decreases roles.len() - i,
    {
        if roles[i] == role {
            return true;
        }
        i = i + 1;
    }
    false
}

/// Whether a user with these roles may decide on deployments.
pub fn is_authorized(member_roles: &Vec<u64>, authorized: &Vec<u64>) -> (r: bool)
    ensures
        r == holds_authorized_role(member_roles@, authorized@),
{
    let mut i: usize = 0;
    while i < member_roles.len()
        invariant
            i <= member_roles.len(),
            forall|j: int| 0 <= j < i ==> !authorized@.contains(#[trigger] member_roles@[j]),
        decreases member_roles.len() - i,
    {
        if contains_role(authorized, member_roles[i]) {
            return true;
        }
        i = i + 1;
    }
    false
}

/// The deployments that wait for a decision, each under the identifier of the message
/// that asks for it.
pub struct ReactionCollectors {
    pub collectors: HashMap<u64, DeploymentReactionsData>,
}

impl ReactionCollectors {
    /// The waiting deployments by message identifier.
    pub open spec fn waiting(&self) -> Map<u64, DeploymentReactionsData> {
        self.collectors@
    }

    /// A bridge on which nothing waits.
    pub fn new() -> (r: Self)
        ensures
            r.waiting() == Map::<u64, DeploymentReactionsData>::empty(),
    {
        ReactionCollectors { collectors: HashMap::new() }
    }

    /// Whether a deployment waits on a message.
    pub fn is_tracked(&self, message_id: u64) -> (r: bool)
        ensures
            r == self.waiting().contains_key(message_id),
    {
        self.collectors.contains_key(&message_id)
    }

    /// Puts a deployment under the identifier of the message that asks for a decision.
    pub fn track(&mut self, message_id: u64, short_sha: String)
        ensures
            final(self).waiting() == old(self).waiting().insert(
                message_id,
                DeploymentReactionsData { short_sha },
            ),
    {
        self.collectors.insert(message_id, DeploymentReactionsData { short_sha });
    }

    /// Records how the call to the supervisor ended: the deployment is consumed where
    /// the call succeeded and kept for a later decision where it failed.
    pub fn settle(&mut self, message_id: u64, delivered: bool)
        ensures
            final(self).waiting() == settled(old(self).waiting(), message_id, delivered),
    {
        if delivered {
            self.collectors.remove(&message_id);
        }
    }
}

impl DeploymentReactionsData {
    /// Decides what a reaction on a message asks for. Authorization is evaluated anew
    /// on each reaction, from the roles that the reacting user holds now; nothing is
    /// consumed here.
    ///
    /// The flag says whether the message holds a deployment.
    pub fn validate(
        collectors: &ReactionCollectors,
        message_id: u64,
        member_roles: Option<&Vec<u64>>,
        authorized: &Vec<u64>,
        validation: ValidationEmoji,
    ) -> (r: (bool, DeploymentStep))
        ensures
            r.0 == collectors.waiting().contains_key(message_id),
            r.1@ == step_of(
                collectors.waiting(),
                message_id,
                match member_roles {
                    Some(roles) => Some(roles@),
                    None => None,
                },
                authorized@,
                validation,
            ),
    {
        let data = match collectors.collectors.get(&message_id) {
            None => {
                return (false, DeploymentStep::NotTracked);
            },
            Some(data) => data,
        };
        let roles = match member_roles {
            None => {
                return (true, DeploymentStep::MemberUnknown);
            },
            Some(roles) => roles,
        };
        if is_authorized(roles, authorized) {
            let mut path: Vec<char> = Vec::new();
            push_str(&mut path, "v1/two-factor-deployment/");
            push_str(&mut path, data.short_sha.as_str());
            push_str(&mut path, "/");
            push_str(&mut path, validation.as_str());
            assert(path@ =~= deployment_path(data.short_sha@, validation));
            (true, DeploymentStep::Forward(string_of(&path)))
        } else {
            (true, DeploymentStep::Denied)
        }
    }
}

/// A deployment is consumed only by a delivered decision of an authorized user: a
/// reaction of anyone else, or a call that failed, leaves every waiting deployment in
/// place; a delivered decision removes that one deployment, so that a second reaction
/// on the same message finds nothing.
pub proof fn lemma_deployment_consumed_once(
    waiting: Map<u64, DeploymentReactionsData>,
    message_id: u64,
    member_roles: Option<Seq<u64>>,
    authorized: Seq<u64>,
    validation: ValidationEmoji,
    again: ValidationEmoji,
)
    ensures
        !(step_of(waiting, message_id, member_roles, authorized, validation) is Forward)
            ==> member_roles is None || !waiting.contains_key(message_id) || !holds_authorized_role(
            member_roles->0,
            authorized,
        ),
        settled(waiting, message_id, false) == waiting,
        step_of(settled(waiting, message_id, true), message_id, member_roles, authorized, again)
            == DeploymentStepView::NotTracked,
        forall|other: u64|
            other != message_id ==> (settled(waiting, message_id, true).contains_key(other)
                <==> waiting.contains_key(other)),
{
}

} // verus!
