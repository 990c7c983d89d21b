//! Fluent builders for the governance transactions.
use vstd::prelude::*;
use crate::common::{fails_with, opt_view, own, require, text_or_empty, AccountId, ProtoAny, SdkError, StringMap};
use crate::gov::requests::{
    CancelProposalRequest, ProposalDepositRequest, ProposalVoteRequest, ScheduleUpgradeRequest,
    SubmitProposalRequest,
};
use crate::gov::types::{ProposalClass, UpgradePlan, WeightedVoteOption};

verus! {

/// Builder for a proposal submission.
pub struct SubmitProposalBuilder {
    pub from_address: Option<AccountId>,
    pub proposal_class: Option<ProposalClass>,
    pub title: Option<String>,
    pub description: Option<String>,
    pub metadata: Option<String>,
    pub messages: Vec<ProtoAny>,
    pub initial_deposit: Option<String>,
    pub additional_metadata: StringMap,
}

impl SubmitProposalBuilder {
    /// A builder with nothing set.
    pub fn new() -> (r: Self)
        ensures
            r.from_address is None,
            r.proposal_class is None,
            r.title is None,
            r.description is None,
            r.metadata is None,
            r.messages@.len() == 0,
            r.initial_deposit is None,
            r.additional_metadata@ == Map::<Seq<char>, Seq<char>>::empty(),
    {
        SubmitProposalBuilder {
            from_address: None,
            proposal_class: None,
            title: None,
            description: None,
            metadata: None,
            messages: Vec::new(),
            initial_deposit: None,
            additional_metadata: StringMap::new(),
        }
    }

    /// Sets the proposer.
    pub fn from_address(self, address: AccountId) -> (r: Self)
        ensures
            r == (SubmitProposalBuilder { from_address: Some(address), ..self }),
    {
        SubmitProposalBuilder { from_address: Some(address), ..self }
    }

    /// Sets the proposal class.
    pub fn proposal_class(self, class: ProposalClass) -> (r: Self)
        ensures
            r == (SubmitProposalBuilder { proposal_class: Some(class), ..self }),
    {
        SubmitProposalBuilder { proposal_class: Some(class), ..self }
    }

    /// Sets the title.
    pub fn title(self, title: &str) -> (r: Self)
        ensures
            opt_view(r.title) == Some(title@),
            r == (SubmitProposalBuilder { title: r.title, ..self }),
    {
        SubmitProposalBuilder { title: Some(own(title)), ..self }
    }

    /// Sets the description.
    pub fn description(self, description: &str) -> (r: Self)
        ensures
            opt_view(r.description) == Some(description@),
            r == (SubmitProposalBuilder { description: r.description, ..self }),
    {
        SubmitProposalBuilder { description: Some(own(description)), ..self }
    }

    /// Sets the free-form metadata.
    pub fn metadata(self, metadata: &str) -> (r: Self)
        ensures
            opt_view(r.metadata) == Some(metadata@),
            r == (SubmitProposalBuilder { metadata: r.metadata, ..self }),
    {
        SubmitProposalBuilder { metadata: Some(own(metadata)), ..self }
    }

    /// Replaces the messages executed if the proposal passes.
    pub fn messages(self, messages: Vec<ProtoAny>) -> (r: Self)
        ensures
            r == (SubmitProposalBuilder { messages: messages, ..self }),
    {
        SubmitProposalBuilder { messages: messages, ..self }
    }

    /// Appends one message.
    pub fn add_message(self, message: ProtoAny) -> (r: Self)
        ensures
            r.messages@ == self.messages@.push(message),
            r == (SubmitProposalBuilder { messages: r.messages, ..self }),
    {
        let mut s = self;
        s.messages.push(message);
        s
    }

    /// Sets the initial deposit.
    pub fn initial_deposit(self, deposit: &str) -> (r: Self)
        ensures
            opt_view(r.initial_deposit) == Some(deposit@),
            r == (SubmitProposalBuilder { initial_deposit: r.initial_deposit, ..self }),
    {
        SubmitProposalBuilder { initial_deposit: Some(own(deposit)), ..self }
    }

    /// Adds (or replaces) one additional metadata entry.
    pub fn additional_metadata(self, key: &str, value: &str) -> (r: Self)
        ensures
            r.additional_metadata@ == self.additional_metadata@.insert(key@, value@),
            r == (SubmitProposalBuilder { additional_metadata: r.additional_metadata, ..self }),
    {
        let mut s = self;
        s.additional_metadata = s.additional_metadata.insert(key, value);
        s
    }

    /// Builds the submission. The proposer, class, title, description and
    /// initial deposit are required, checked in that order; absent metadata
    /// is empty.
    pub fn build(self) -> (r: Result<SubmitProposalRequest, SdkError>)
        ensures
            self.from_address is None ==> fails_with(r, "from_address is required for proposal submission"@),
            self.from_address is Some && self.proposal_class is None ==> fails_with(r, "proposal_class is required"@),
            self.from_address is Some && self.proposal_class is Some && self.title is None ==> fails_with(r, "title is required"@),
            self.from_address is Some && self.proposal_class is Some && self.title is Some && self.description is None ==> fails_with(r, "description is required"@),
            self.from_address is Some && self.proposal_class is Some && self.title is Some && self.description is Some && self.initial_deposit is None ==> fails_with(r, "initial_deposit is required"@),
            self.from_address is Some && self.proposal_class is Some && self.title is Some && self.description is Some && self.initial_deposit is Some ==> (r matches Ok(req) && {
                &&& req.from_address == self.from_address.unwrap()
                &&& req.proposal_class == self.proposal_class.unwrap()
                &&& req.title == self.title.unwrap()
                &&& req.description == self.description.unwrap()
                &&& req.metadata@ == text_or_empty(self.metadata)
                &&& req.messages == self.messages
                &&& req.initial_deposit == self.initial_deposit.unwrap()
                &&& req.additional_metadata == self.additional_metadata
            }),
    {
        let from_address = require(self.from_address, "from_address is required for proposal submission")?;
        let proposal_class = require(self.proposal_class, "proposal_class is required")?;
        let title = require(self.title, "title is required")?;
        let description = require(self.description, "description is required")?;
        let initial_deposit = require(self.initial_deposit, "initial_deposit is required")?;
        let metadata = match self.metadata {
            Some(m) => m,
            None => String::new(),
        };
        Ok(SubmitProposalRequest {
            from_address,
            proposal_class,
            title,
            description,
            metadata,
            messages: self.messages,
            initial_deposit,
            additional_metadata: self.additional_metadata,
        })
    }
}

/// Builder for an upgrade-scheduling proposal.
pub struct ScheduleUpgradeBuilder {
    pub from_address: Option<AccountId>,
    pub proposal_class: Option<ProposalClass>,
    pub upgrade_plan: Option<UpgradePlan>,
    pub title: Option<String>,
    pub description: Option<String>,
    pub metadata: Option<String>,
    pub initial_deposit: Option<String>,
    pub additional_metadata: StringMap,
}

impl ScheduleUpgradeBuilder {
    /// A builder with nothing set.
    pub fn new() -> (r: Self)
        ensures
            r.from_address is None,
            r.proposal_class is None,
            r.upgrade_plan is None,
            r.title is None,
            r.description is None,
            r.metadata is None,
            r.initial_deposit is None,
            r.additional_metadata@ == Map::<Seq<char>, Seq<char>>::empty(),
    {
        ScheduleUpgradeBuilder {
            from_address: None,
            proposal_class: None,
            upgrade_plan: None,
            title: None,
            description: None,
            metadata: None,
            initial_deposit: None,
            additional_metadata: StringMap::new(),
        }
    }

    /// Sets the proposer.
    pub fn from_address(self, address: AccountId) -> (r: Self)
        ensures
            r == (ScheduleUpgradeBuilder { from_address: Some(address), ..self }),
    {
        ScheduleUpgradeBuilder { from_address: Some(address), ..self }
    }

    /// Sets the proposal class (root or emergency).
    pub fn proposal_class(self, class: ProposalClass) -> (r: Self)
        ensures
            r == (ScheduleUpgradeBuilder { proposal_class: Some(class), ..self }),
    {
        ScheduleUpgradeBuilder { proposal_class: Some(class), ..self }
    }

    /// Sets the upgrade plan.
    pub fn upgrade_plan(self, plan: UpgradePlan) -> (r: Self)
        ensures
            r == (ScheduleUpgradeBuilder { upgrade_plan: Some(plan), ..self }),
    {
        ScheduleUpgradeBuilder { upgrade_plan: Some(plan), ..self }
    }

    /// Sets the title.
    pub fn title(self, title: &str) -> (r: Self)
        ensures
            opt_view(r.title) == Some(title@),
            r == (ScheduleUpgradeBuilder { title: r.title, ..self }),
    {
        ScheduleUpgradeBuilder { title: Some(own(title)), ..self }
    }

    /// Sets the description.
    pub fn description(self, description: &str) -> (r: Self)
        ensures
            opt_view(r.description) == Some(description@),
            r == (ScheduleUpgradeBuilder { description: r.description, ..self }),
    {
        ScheduleUpgradeBuilder { description: Some(own(description)), ..self }
    }

    /// Sets the free-form metadata.
    pub fn metadata(self, metadata: &str) -> (r: Self)
        ensures
            opt_view(r.metadata) == Some(metadata@),
            r == (ScheduleUpgradeBuilder { metadata: r.metadata, ..self }),
    {
        ScheduleUpgradeBuilder { metadata: Some(own(metadata)), ..self }
    }

    /// Sets the initial deposit.
    pub fn initial_deposit(self, deposit: &str) -> (r: Self)
        ensures
            opt_view(r.initial_deposit) == Some(deposit@),
            r == (ScheduleUpgradeBuilder { initial_deposit: r.initial_deposit, ..self }),
    {
        ScheduleUpgradeBuilder { initial_deposit: Some(own(deposit)), ..self }
    }

    /// Adds (or replaces) one additional metadata entry.
    pub fn additional_metadata(self, key: &str, value: &str) -> (r: Self)
        ensures
            r.additional_metadata@ == self.additional_metadata@.insert(key@, value@),
            r == (ScheduleUpgradeBuilder { additional_metadata: r.additional_metadata, ..self }),
    {
        let mut s = self;
        s.additional_metadata = s.additional_metadata.insert(key, value);
        s
    }

    /// Builds the upgrade proposal. The proposer, class, plan, title,
    /// description and initial deposit are required, checked in that order;
    /// absent metadata is empty.
    pub fn build(self) -> (r: Result<ScheduleUpgradeRequest, SdkError>)
        ensures
            self.from_address is None ==> fails_with(r, "from_address is required for upgrade scheduling"@),
            self.from_address is Some && self.proposal_class is None ==> fails_with(r, "proposal_class is required (ROOT or EMERGENCY)"@),
            self.from_address is Some && self.proposal_class is Some && self.upgrade_plan is None ==> fails_with(r, "upgrade_plan is required"@),
            self.from_address is Some && self.proposal_class is Some && self.upgrade_plan is Some && self.title is None ==> fails_with(r, "title is required"@),
            self.from_address is Some && self.proposal_class is Some && self.upgrade_plan is Some && self.title is Some && self.description is None ==> fails_with(r, "description is required"@),
            self.from_address is Some && self.proposal_class is Some && self.upgrade_plan is Some && self.title is Some && self.description is Some && self.initial_deposit is None ==> fails_with(r, "initial_deposit is required"@),
            self.from_address is Some && self.proposal_class is Some && self.upgrade_plan is Some && self.title is Some && self.description is Some && self.initial_deposit is Some ==> (r matches Ok(req) && {
                &&& req.from_address == self.from_address.unwrap()
                &&& req.proposal_class == self.proposal_class.unwrap()
                &&& req.upgrade_plan == self.upgrade_plan.unwrap()
                &&& req.title == self.title.unwrap()
                &&& req.description == self.description.unwrap()
                &&& req.metadata@ == text_or_empty(self.metadata)
                &&& req.initial_deposit == self.initial_deposit.unwrap()
                &&& req.additional_metadata == self.additional_metadata
            }),
    {
        let from_address = require(self.from_address, "from_address is required for upgrade scheduling")?;
        let proposal_class = require(self.proposal_class, "proposal_class is required (ROOT or EMERGENCY)")?;
        let upgrade_plan = require(self.upgrade_plan, "upgrade_plan is required")?;
        let title = require(self.title, "title is required")?;
        let description = require(self.description, "description is required")?;
        let initial_deposit = require(self.initial_deposit, "initial_deposit is required")?;
        let metadata = match self.metadata {
            Some(m) => m,
            None => String::new(),
        };
        Ok(ScheduleUpgradeRequest {
            from_address,
            proposal_class,
            upgrade_plan,
            title,
            description,
            metadata,
            initial_deposit,
            additional_metadata: self.additional_metadata,
        })
    }
}

/// Builder for a proposal deposit.
pub struct ProposalDepositBuilder {
    pub from_address: Option<AccountId>,
    pub proposal_id: Option<u64>,
    pub amount: Option<String>,
}

impl ProposalDepositBuilder {
    /// A builder with no field set.
    pub fn new() -> (r: Self)
        ensures
            r.from_address is None,
            r.proposal_id is None,
            r.amount is None,
    {
        ProposalDepositBuilder { from_address: None, proposal_id: None, amount: None }
    }

    /// Sets the depositor.
    pub fn from_address(self, address: AccountId) -> (r: Self)
        ensures
            r == (ProposalDepositBuilder { from_address: Some(address), ..self }),
    {
        ProposalDepositBuilder { from_address: Some(address), ..self }
    }

    /// Sets the proposal.
    pub fn proposal_id(self, id: u64) -> (r: Self)
        ensures
            r == (ProposalDepositBuilder { proposal_id: Some(id), ..self }),
    {
        ProposalDepositBuilder { proposal_id: Some(id), ..self }
    }

    /// Sets the amount.
    pub fn amount(self, amount: &str) -> (r: Self)
        ensures
            opt_view(r.amount) == Some(amount@),
            r == (ProposalDepositBuilder { amount: r.amount, ..self }),
    {
        ProposalDepositBuilder { amount: Some(own(amount)), ..self }
    }

    /// Builds the deposit; the depositor, proposal and amount are required, in that order.
    pub fn build(self) -> (r: Result<ProposalDepositRequest, SdkError>)
        ensures
            self.from_address is None ==> fails_with(r, "from_address is required for deposit"@),
            self.from_address is Some && self.proposal_id is None ==> fails_with(r, "proposal_id is required"@),
            self.from_address is Some && self.proposal_id is Some && self.amount is None ==> fails_with(r, "amount is required"@),
            self.from_address is Some && self.proposal_id is Some && self.amount is Some ==> r == Ok::<ProposalDepositRequest, SdkError>(ProposalDepositRequest {
                from_address: self.from_address.unwrap(),
                proposal_id: self.proposal_id.unwrap(),
                amount: self.amount.unwrap(),
            }),
    {
        let from_address = require(self.from_address, "from_address is required for deposit")?;
        let proposal_id = require(self.proposal_id, "proposal_id is required")?;
        let amount = require(self.amount, "amount is required")?;
        Ok(ProposalDepositRequest { from_address, proposal_id, amount })
    }
}

/// Builder for a (possibly split) vote.
pub struct ProposalVoteBuilder {
    pub from_address: Option<AccountId>,
    pub proposal_id: Option<u64>,
    pub options: Vec<WeightedVoteOption>,
    pub conviction_multiplier: u64,
}

impl ProposalVoteBuilder {
    /// A builder with nothing set.
    pub fn new() -> (r: Self)
        ensures
            r.from_address is None,
            r.proposal_id is None,
            r.options@.len() == 0,
            r.conviction_multiplier == 0,
    {
        ProposalVoteBuilder {
            from_address: None,
            proposal_id: None,
            options: Vec::new(),
            conviction_multiplier: 0,
        }
    }

    /// Sets the voter.
    pub fn from_address(self, address: AccountId) -> (r: Self)
        ensures
            r == (ProposalVoteBuilder { from_address: Some(address), ..self }),
    {
        ProposalVoteBuilder { from_address: Some(address), ..self }
    }

    /// Sets the proposal.
    pub fn proposal_id(self, id: u64) -> (r: Self)
        ensures
            r == (ProposalVoteBuilder { proposal_id: Some(id), ..self }),
    {
        ProposalVoteBuilder { proposal_id: Some(id), ..self }
    }

    /// Replaces the weighted options.
    pub fn options(self, options: Vec<WeightedVoteOption>) -> (r: Self)
        ensures
            r == (ProposalVoteBuilder { options: options, ..self }),
    {
        ProposalVoteBuilder { options: options, ..self }
    }

    /// Appends one weighted option.
    pub fn add_option(self, option: WeightedVoteOption) -> (r: Self)
        ensures
            r.options@ == self.options@.push(option),
            r == (ProposalVoteBuilder { options: r.options, ..self }),
    {
        let mut s = self;
        s.options.push(option);
        s
    }

    /// Sets the conviction multiplier.
    pub fn conviction_multiplier(self, multiplier: u64) -> (r: Self)
        ensures
            r == (ProposalVoteBuilder { conviction_multiplier: multiplier, ..self }),
    {
        ProposalVoteBuilder { conviction_multiplier: multiplier, ..self }
    }

    /// Builds the vote. The voter and proposal are required, in that order,
    /// and then at least one option.
    pub fn build(self) -> (r: Result<ProposalVoteRequest, SdkError>)
        ensures
            self.from_address is None ==> fails_with(r, "from_address is required for voting"@),
            self.from_address is Some && self.proposal_id is None ==> fails_with(r, "proposal_id is required"@),
            self.from_address is Some && self.proposal_id is Some && self.options@.len() == 0 ==> fails_with(
                r,
                "at least one vote option is required"@,
            ),
            self.from_address is Some && self.proposal_id is Some && self.options@.len() > 0 ==> r
                == Ok::<ProposalVoteRequest, SdkError>(ProposalVoteRequest {
                from_address: self.from_address.unwrap(),
                proposal_id: self.proposal_id.unwrap(),
                options: self.options,
                conviction_multiplier: self.conviction_multiplier,
            }),
    {
        let from_address = require(self.from_address, "from_address is required for voting")?;
        let proposal_id = require(self.proposal_id, "proposal_id is required")?;
        if self.options.len() == 0 {
            return Err(SdkError::invalid_input("at least one vote option is required"));
        }
        Ok(ProposalVoteRequest {
            from_address,
            proposal_id,
            options: self.options,
            conviction_multiplier: self.conviction_multiplier,
        })
    }
}

/// Builder for a proposal cancellation.
pub struct CancelProposalBuilder {
    pub from_address: Option<AccountId>,
    pub proposal_id: Option<u64>,
    pub reason: Option<String>,
}

impl CancelProposalBuilder {
    /// A builder with nothing set.
    pub fn new() -> (r: Self)
        ensures
            r.from_address is None,
            r.proposal_id is None,
            r.reason is None,
    {
        CancelProposalBuilder {
            from_address: None,
            proposal_id: None,
            reason: None,
        }
    }

    /// Sets the canceller.
    pub fn from_address(self, address: AccountId) -> (r: Self)
        ensures
            r == (CancelProposalBuilder { from_address: Some(address), ..self }),
    {
        CancelProposalBuilder { from_address: Some(address), ..self }
    }

    /// Sets the proposal.
    pub fn proposal_id(self, id: u64) -> (r: Self)
        ensures
            r == (CancelProposalBuilder { proposal_id: Some(id), ..self }),
    {
        CancelProposalBuilder { proposal_id: Some(id), ..self }
    }

    /// Sets the reason.
    pub fn reason(self, reason: &str) -> (r: Self)
        ensures
            opt_view(r.reason) == Some(reason@),
            r == (CancelProposalBuilder { reason: r.reason, ..self }),
    {
        CancelProposalBuilder { reason: Some(own(reason)), ..self }
    }

    /// Builds the cancellation. The canceller and proposal are required, in
    /// that order; without a reason it reads "No reason provided".
    pub fn build(self) -> (r: Result<CancelProposalRequest, SdkError>)
        ensures
            self.from_address is None ==> fails_with(r, "from_address is required for cancellation"@),
            self.from_address is Some && self.proposal_id is None ==> fails_with(r, "proposal_id is required"@),
            self.from_address is Some && self.proposal_id is Some ==> (r matches Ok(req) && {
                &&& req.from_address == self.from_address.unwrap()
                &&& req.proposal_id == self.proposal_id.unwrap()
                &&& req.reason@ == (if self.reason is Some {
                    self.reason.unwrap()@
                } else {
                    "No reason provided"@
                })
            }),
    {
        let from_address = require(self.from_address, "from_address is required for cancellation")?;
        let proposal_id = require(self.proposal_id, "proposal_id is required")?;
        let reason = match self.reason {
            Some(r) => r,
            None => own("No reason provided"),
        };
        Ok(CancelProposalRequest { from_address, proposal_id, reason })
    }
}

} // verus!
