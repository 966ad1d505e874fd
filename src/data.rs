//! The flag data model and the evaluator that turns a flag and a request
//! context into an on/off decision.

use std::collections::HashMap;
use vstd::prelude::*;

use crate::hash::{bucket_of, hash_string, lemma_bucket_in_range};

verus! {

/// Who created a flag and when (timestamps as RFC 3339 strings).
#[derive(Debug, Clone)]
pub struct FlagMetadata {
    pub created_at: String,
    pub updated_at: String,
    pub created_by: String,
}

/// The rule that decides, beyond the kill switch, whether a flag is on.
#[derive(Debug, Clone)]
pub enum EvaluationStrategy {
    /// On for everyone.
    Simple,
    /// On for the listed users; an excluded user is off even if also included.
    UserSegment { included_users: Vec<String>, excluded_users: Vec<String> },
    /// On for the users whose bucket lies below `percentage` (whole percent).
    Percentage { percentage: u32 },
}

/// The caller's identity and state at evaluation time.
#[derive(Debug, Clone)]
pub struct EvaluationContext {
    pub user_id: Option<String>,
    pub session_id: Option<String>,
    pub attributes: HashMap<String, String>,
}

/// A keyed feature toggle with a kill switch and an evaluation strategy.
#[derive(Debug, Clone)]
pub struct Flag {
    pub key: String,
    pub enabled: bool,
    pub name: String,
    pub description: Option<String>,
    pub strategy: EvaluationStrategy,
    pub metadata: FlagMetadata,
}

/// The characters of an optional string.
pub open spec fn opt_view(s: Option<String>) -> Option<Seq<char>> {
    match s {
        Some(v) => Some(v@),
        None => None,
    }
}

/// `user` is one of `users`.
pub open spec fn listed(users: Seq<String>, user: Seq<char>) -> bool {
    exists|i: int| 0 <= i < users.len() && #[trigger] users[i]@ == user
}

impl EvaluationStrategy {
    /// A percentage lies within `[0, 100]`.
    pub open spec fn wf(&self) -> bool {
        match self {
            EvaluationStrategy::Percentage { percentage } => *percentage <= 100,
            _ => true,
        }
    }
}

impl Flag {
    /// A flag has a non-empty key and a well-formed strategy.
    pub open spec fn wf(&self) -> bool {
        self.key@.len() > 0 && self.strategy.wf()
    }
}

/// Whether a strategy lets the user (if any) through.
pub open spec fn strategy_admits(strategy: EvaluationStrategy, user: Option<Seq<char>>) -> bool {
    match strategy {
        EvaluationStrategy::Simple => true,
        EvaluationStrategy::UserSegment { included_users, excluded_users } => match user {
            Some(u) => !listed(excluded_users@, u) && listed(included_users@, u),
            None => false,
        },
        EvaluationStrategy::Percentage { percentage } => match user {
            Some(u) => bucket_of(u) < percentage,
            None => false,
        },
    }
}

/// The decision for `flag` in `context`: off when the kill switch is off,
/// else what the strategy says of the context's user.
pub open spec fn decide(flag: Flag, context: EvaluationContext) -> bool {
    flag.enabled && strategy_admits(flag.strategy, opt_view(context.user_id))
}

/// Whether `user_id` is one of `users`.
fn contains_user(users: &Vec<String>, user_id: &String) -> (r: bool)
    ensures
        r == listed(users@, user_id@),
{
    let mut i: usize = 0;
    while i < users.len()
        invariant
            i <= users@.len(),
            forall|j: int| 0 <= j < i ==> #[trigger] users@[j]@ != user_id@,
        decreases users@.len() - i,
    {
        if users[i] == *user_id {
            return true;
        }
        i = i + 1;
    }
    false
}

impl Flag {
    /// A flag with the `Simple` strategy, named after its key.
    pub fn new(key: &str, enabled: bool, metadata: FlagMetadata) -> (r: Flag)
        ensures
            r.key@ == key@,
            r.name@ == key@,
            r.enabled == enabled,
            r.description is None,
            r.strategy is Simple,
            r.metadata == metadata,
            key@.len() > 0 ==> r.wf(),
    {
        Flag {
            key: key.to_owned(),
            enabled,
            name: key.to_owned(),
            description: None,
            strategy: EvaluationStrategy::Simple,
            metadata,
        }
    }

    /// An enabled flag with the given strategy and default metadata.
    pub fn with_strategy(key: &str, strategy: EvaluationStrategy) -> (r: Flag)
        ensures
            r.key@ == key@,
            r.name@ == key@,
            r.enabled,
            r.description is None,
            r.strategy == strategy,
            r.metadata.created_at@ == default_timestamp(),
            r.metadata.updated_at@ == default_timestamp(),
            r.metadata.created_by@ == default_author(),
            key@.len() > 0 && strategy.wf() ==> r.wf(),
    {
        Flag {
            key: key.to_owned(),
            enabled: true,
            name: key.to_owned(),
            description: None,
            strategy,
            metadata: FlagMetadata::default(),
        }
    }

    /// Whether this flag is on for `context`.
    pub fn evaluate(&self, context: &EvaluationContext) -> (r: bool)
        ensures
            r == decide(*self, *context),
    {
        if !self.enabled {
            return false;
        }
        match &self.strategy {
            EvaluationStrategy::Simple => true,
            EvaluationStrategy::UserSegment { included_users, excluded_users } => {
                match &context.user_id {
                    Some(user_id) => {
                        if contains_user(excluded_users, user_id) {
                            return false;
                        }
                        contains_user(included_users, user_id)
                    },
                    None => false,
                }
            },
            EvaluationStrategy::Percentage { percentage } => {
                match &context.user_id {
                    Some(user_id) => hash_string(user_id.as_str()) < *percentage,
                    None => false,
                }
            },
        }
    }
}

/// The kill switch wins: a disabled flag is off for every strategy and context.
pub proof fn lemma_disabled_flag_is_off(flag: Flag, context: EvaluationContext)
    requires
        !flag.enabled,
    ensures
        !decide(flag, context),
{
}

/// An enabled `Simple` flag is on for every context.
pub proof fn lemma_simple_flag_is_on(flag: Flag, context: EvaluationContext)
    requires
        flag.enabled,
        flag.strategy is Simple,
    ensures
        decide(flag, context),
{
}

/// In a user segment, exclusion takes precedence: a user listed in both
/// sets is off.
pub proof fn lemma_excluded_user_is_off(
    flag: Flag,
    context: EvaluationContext,
    included_users: Vec<String>,
    excluded_users: Vec<String>,
    user: String,
)
    requires
        flag.strategy == (EvaluationStrategy::UserSegment { included_users, excluded_users }),
        context.user_id == Some(user),
        listed(included_users@, user@),
        listed(excluded_users@, user@),
    ensures
        !decide(flag, context),
{
}

/// A user segment is an allow-list: a user in neither set is off.
pub proof fn lemma_unlisted_user_is_off(
    flag: Flag,
    context: EvaluationContext,
    included_users: Vec<String>,
    excluded_users: Vec<String>,
    user: String,
)
    requires
        flag.strategy == (EvaluationStrategy::UserSegment { included_users, excluded_users }),
        context.user_id == Some(user),
        !listed(included_users@, user@),
        !listed(excluded_users@, user@),
    ensures
        !decide(flag, context),
{
}

/// Sticky bucketing: the decision depends on the context through its user
/// alone, so two evaluations for the same user agree, whatever their
/// sessions and attributes.
pub proof fn lemma_decision_is_sticky(
    flag: Flag,
    first: EvaluationContext,
    second: EvaluationContext,
)
    requires
        opt_view(first.user_id) == opt_view(second.user_id),
    ensures
        decide(flag, first) == decide(flag, second),
{
}

/// A rollout at 0% is off for every identified user, and one at 100% is on
/// for every identified user of an enabled flag.
pub proof fn lemma_percentage_extremes(flag: Flag, context: EvaluationContext, percentage: u32)
    requires
        flag.strategy == (EvaluationStrategy::Percentage { percentage }),
        context.user_id is Some,
    ensures
        percentage == 0 ==> !decide(flag, context),
        percentage == 100 && flag.enabled ==> decide(flag, context),
{
    lemma_bucket_in_range(context.user_id.unwrap()@);
}

/// Targeting strategies need an identity: without a user, any strategy but
/// `Simple` is off.
pub proof fn lemma_anonymous_is_off(flag: Flag, context: EvaluationContext)
    requires
        !(flag.strategy is Simple),
        context.user_id is None,
    ensures
        !decide(flag, context),
{
}

/// The placeholder creation time of default metadata.
pub open spec fn default_timestamp() -> Seq<char> {
    "2024-01-01T00:00:00Z"@
}

/// The placeholder author of default metadata.
pub open spec fn default_author() -> Seq<char> {
    "system"@
}

impl FlagMetadata {
    /// Placeholder metadata for a flag created without any.
    pub fn default() -> (r: FlagMetadata)
        ensures
            r.created_at@ == default_timestamp(),
            r.updated_at@ == default_timestamp(),
            r.created_by@ == default_author(),
    {
        FlagMetadata {
            created_at: "2024-01-01T00:00:00Z".to_owned(),
            updated_at: "2024-01-01T00:00:00Z".to_owned(),
            created_by: "system".to_owned(),
        }
    }
}

impl EvaluationContext {
    /// A context with no user, no session and no attributes.
    pub fn empty() -> (r: EvaluationContext)
        ensures
            r.user_id is None,
            r.session_id is None,
            r.attributes@ == Map::<String, String>::empty(),
    {
        EvaluationContext { user_id: None, session_id: None, attributes: HashMap::new() }
    }

    /// Same as `empty`.
    pub fn new() -> (r: EvaluationContext)
        ensures
            r.user_id is None,
            r.session_id is None,
            r.attributes@ == Map::<String, String>::empty(),
    {
        Self::empty()
    }

    /// This context with its user set to `user_id`.
    pub fn with_user_id(self, user_id: &str) -> (r: EvaluationContext)
        ensures
            opt_view(r.user_id) == Some(user_id@),
            r.session_id == self.session_id,
            r.attributes == self.attributes,
    {
        let mut c = self;
        c.user_id = Some(user_id.to_owned());
        c
    }

    /// This context with its session set to `session_id`.
    pub fn with_session_id(self, session_id: &str) -> (r: EvaluationContext)
        ensures
            opt_view(r.session_id) == Some(session_id@),
            r.user_id == self.user_id,
            r.attributes == self.attributes,
    {
        let mut c = self;
        c.session_id = Some(session_id.to_owned());
        c
    }
}

} // verus!
